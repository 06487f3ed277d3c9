//! Events that the workflow consumes and messages that it produces.

use vstd::prelude::*;

verus! {

/// Service of the node that sends or receives a message on the bus.
#[derive(Clone, Copy, Debug, PartialEq, Eq)]
pub enum ServiceId {
    /// The broker of the node.
    LnpBroker,
    /// The daemon that keeps the connection to the remote peer.
    Peer,
    /// A channel daemon, by the 32 bytes of its channel id.
    Channel([u8; 32]),
    /// The signer.
    Signer,
    /// The chain watcher.
    Chain,
    /// A client of the node.
    Client(u64),
}

/// One partial signature of a PSBT input.
#[derive(Clone, Debug, PartialEq, Eq)]
pub struct PartialSig {
    /// Serialized public key under which the signature is filed.
    pub pubkey: Vec<u8>,
    /// The signature as the signer left it: DER, then one byte of sighash
    /// flag.
    pub signature: Vec<u8>,
}

/// What the workflow reads of one PSBT input.
#[derive(Clone, Debug, PartialEq, Eq)]
pub struct PsbtInput {
    /// The partial signatures of the input.  A key occurs once.
    pub partial_sigs: Vec<PartialSig>,
}

/// A PSBT as it travels on the bus, together with what the workflow reads
/// of its inputs.
///
/// `inputs` says of the PSBT what the workflow needs to know of its partial
/// signatures; whoever makes the value answers for that.  What the workflow
/// needs of the transaction is decoded from `raw`.
#[derive(Clone, Debug, PartialEq, Eq)]
pub struct Psbt {
    /// The inputs of the PSBT, in order.
    pub inputs: Vec<PsbtInput>,
    /// The serialized PSBT.
    pub raw: Vec<u8>,
}

/// Whether a script pays to the hash of a witness script: the byte of
/// witness version 0, the push of 32 bytes, and the 32 bytes of the hash.
pub open spec fn pays_to_witness_script_hash(script: Seq<u8>) -> bool {
    &&& script.len() == 34
    &&& script[0] == 0x00
    &&& script[1] == 0x20
}

/// Request to construct the funding transaction.
#[derive(Clone, Debug, PartialEq, Eq)]
pub struct FundChannel {
    /// Script to which the funding output pays.
    pub script_pubkey: Vec<u8>,
    /// Fee rate to use; `None` leaves it to the funding wallet.
    pub feerate_per_kw: Option<u32>,
    /// Amount of the funding output, in satoshi.
    pub amount: u64,
}

/// `funding_created` peer message.
#[derive(Clone, Copy, Debug, PartialEq, Eq)]
pub struct FundingCreated {
    /// Temporary id under which the channel was proposed.
    pub temporary_channel_id: [u8; 32],
    /// Id of the funding transaction.
    pub funding_txid: [u8; 32],
    /// Index of the funding output in the funding transaction.
    pub funding_output_index: u16,
    /// Signature of the funder on the refund transaction, in compact form.
    pub signature: [u8; 64],
}

/// Messages exchanged with the remote peer.
#[derive(Debug, PartialEq, Eq)]
pub enum LnMsg {
    /// Proposal of a channel.
    OpenChannel(lnp::p2p::legacy::OpenChannel),
    /// Acceptance of a proposed channel.
    AcceptChannel(lnp::p2p::legacy::AcceptChannel),
    /// The funding outpoint and the funder's signature of the refund.
    FundingCreated(FundingCreated),
    /// The acceptor's signature of the refund.
    FundingSigned(lnp::p2p::legacy::FundingSigned),
    /// A peer's word that the funding is locked and the channel ready.
    ChannelReady(lnp::p2p::legacy::FundingLocked),
}

/// Messages exchanged with the other services of the node.
#[derive(Debug, PartialEq, Eq)]
pub enum CtlMsg {
    /// Registration of a service under its identity.
    Hello,
    /// Request to construct the funding transaction.
    ConstructFunding(FundChannel),
    /// The funding transaction was constructed.
    FundingConstructed(Psbt),
    /// Request to sign a serialized PSBT.
    Sign(Vec<u8>),
    /// A PSBT came back from the signer.
    Signed(Psbt),
    /// Request to publish the funding transaction.
    PublishFunding,
    /// The funding transaction was published.
    FundingPublished,
    /// Request to track a transaction on chain.
    Track([u8; 32]),
    /// The funding transaction was mined, at the given depth.
    FundingMined(u32),
    /// The channel is operational.
    Activate,
    /// A wait has run out.
    Timeout,
}

/// Any message on the bus.
#[derive(Debug, PartialEq, Eq)]
pub enum BusMsg {
    /// Message of the remote peer.
    Ln(LnMsg),
    /// Message of a service of the node.
    Ctl(CtlMsg),
}

/// An event for the workflow: a message and the service that sent it.
#[derive(Debug, PartialEq, Eq)]
pub struct Event {
    /// The service from which the message came; used to attribute errors.
    pub source: ServiceId,
    /// The message.
    pub message: BusMsg,
}

/// Something that the workflow wants done on the bus.
#[derive(Debug, PartialEq, Eq)]
pub enum Effect {
    /// Re-register the channel daemon under a new identity.
    Identity(ServiceId),
    /// Send a message to a service of the node.
    Ctl(ServiceId, CtlMsg),
    /// Send a message to the remote peer.
    Peer(LnMsg),
}

} // verus!
