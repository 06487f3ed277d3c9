//! Errors of the channel proposal workflow.

use crate::message::{BusMsg, Effect, ServiceId};
use crate::stage::Lifecycle;
use vstd::prelude::*;

verus! {

/// Reasons for which the channel refuses an operation.
#[derive(Debug, PartialEq, Eq)]
pub enum ChannelError {
    /// The channel engine rejected what it was given.
    Engine(lnp::channel::bolt::Error),
    /// The channel is at a lifecycle stage other than the one that the
    /// operation requires.
    LifecycleMismatch { current: Lifecycle, required: Lifecycle },
    /// The amounts of the proposal cannot be met: the pushed amount exceeds
    /// the funding, the funding is out of range, or what is left to the
    /// funder does not pay the fee of the refund transaction.
    InvalidFunding { funding_sat: u64, push_msat: u64 },
    /// The channel type asks for anchor outputs, which the channel engine
    /// cannot build.
    UnsupportedChannelType,
    /// The bytes of the funding PSBT do not decode.
    InvalidPsbt,
    /// No output of the funding PSBT is marked as the funding of the
    /// channel, or the marked one lies beyond the range of output indexes.
    NoFundingOutput,
    /// A message of the remote peer names another channel than this one.
    ChannelIdMismatch,
    /// The channel has no temporary id any more.
    NoTemporaryId,
}

/// Errors of the workflow.
#[derive(Debug, PartialEq, Eq)]
pub enum ProposalError {
    /// A message arrived at a stage that expects another one.
    UnexpectedMessage(BusMsg, Lifecycle, ServiceId),
    /// The channel rejected the content of a message or of a request.
    Channel(ChannelError),
    /// The signer returned a PSBT without a partial signature for the local
    /// funding key.
    FundingPsbtUnsigned([u8; 33]),
    /// The signature that the signer left does not parse.
    InvalidSig(bitcoin::secp256k1::Error),
    /// The bus refused to send a message.
    BusSend,
    /// The bus refused to register the channel under its permanent id.
    IdentitySwapFailed,
}

/// The error that a refused effect amounts to.
pub open spec fn spec_delivery_error(effect: Effect) -> ProposalError {
    match effect {
        Effect::Identity(_) => ProposalError::IdentitySwapFailed,
        _ => ProposalError::BusSend,
    }
}

} // verus!
