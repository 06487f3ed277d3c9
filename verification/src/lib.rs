//! Funder-side channel proposal workflow of a Lightning Network node.
//!
//! The workflow is a state machine of seven stages that an initiating peer
//! walks through from the moment it proposes a channel until both peers have
//! confirmed the funding lock.  The machine itself performs no I/O: every
//! transition consumes one event, works out the change of the channel and
//! the messages it wants delivered, in the order in which they have to
//! leave.  A transition either takes effect at once and appends its messages
//! to an [`outbox::Outbox`], or stays pending until its messages went
//! through, and leaves the channel untouched where they did not.

pub mod automaton;
pub mod channel;
pub mod engine;
pub mod error;
pub mod ids;
pub mod laws;
pub mod message;
pub mod outbox;
pub mod signature;
pub mod stage;


pub use automaton::{
    complete_accepted, complete_funded, complete_funding, complete_locked, complete_proposed,
    complete_signed, complete_signing,
};
pub use automaton::Pending;
pub use channel::{
    Change, Channel, ChannelParams, ChannelState, ChannelType, FundingOutpoint, Kept,
    OpenChannelWith,
};
pub use error::{ChannelError, ProposalError};
pub use ids::ActiveChannelId;
pub use message::{
    BusMsg, CtlMsg, Effect, Event, FundChannel, FundingCreated, LnMsg, PartialSig, Psbt,
    PsbtInput, ServiceId,
};
pub use outbox::Outbox;
pub use stage::{ChannelPropose, Lifecycle};
