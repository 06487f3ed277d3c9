[package]
name = "channel_proposal"
version = "0.1.0"
edition = "2021"
publish = false

[dependencies]
amplify = "=3.14.2"
bitcoin = "=0.28.2"
lnp-core = "=0.6.0"
lnp2p = "=0.6.0"
descriptor-wallet = "=0.6.1"
microservices = { version = "=0.6.1", default-features = false }
strict_encoding = "=1.8.11"
