//! Channel identifiers.
//!
//! A channel is addressed by a random temporary id until its funding outpoint
//! is known, and by a permanent id derived from that outpoint afterwards.

use vstd::prelude::*;

verus! {

/// Id under which a channel is known at a given moment.
#[derive(Clone, Copy, Debug, PartialEq, Eq)]
pub enum ActiveChannelId {
    /// The channel has no permanent id yet and uses a temporary one.
    Temporary([u8; 32]),
    /// The channel has its permanent id; the temporary one is retired.
    Static([u8; 32]),
}

impl ActiveChannelId {
    /// The 32 bytes of the id, whichever kind it is.
    pub open spec fn bytes(self) -> Seq<u8> {
        match self {
            ActiveChannelId::Temporary(id) => id@,
            ActiveChannelId::Static(id) => id@,
        }
    }

    /// The id as an array, whichever kind it is.
    pub open spec fn array(self) -> [u8; 32] {
        match self {
            ActiveChannelId::Temporary(id) => id,
            ActiveChannelId::Static(id) => id,
        }
    }

    /// The 32 bytes of the id, whichever kind it is.
    pub fn as_bytes(&self) -> (bytes: [u8; 32])
        ensures
            bytes == self.array(),
            bytes@ == self.bytes(),
    {
        match self {
            ActiveChannelId::Temporary(id) => *id,
            ActiveChannelId::Static(id) => *id,
        }
    }

    /// The permanent id, once the channel has one.
    pub fn channel_id(&self) -> (id: Option<[u8; 32]>)
        ensures
            id == (match *self {
                ActiveChannelId::Temporary(_) => None,
                ActiveChannelId::Static(id) => Some(id),
            }),
    {
        match self {
            ActiveChannelId::Temporary(_) => None,
            ActiveChannelId::Static(id) => Some(*id),
        }
    }

    /// The temporary id, while it is still the valid one.
    pub fn temp_channel_id(&self) -> (id: Option<[u8; 32]>)
        ensures
            id == (match *self {
                ActiveChannelId::Temporary(id) => Some(id),
                ActiveChannelId::Static(_) => None,
            }),
    {
        match self {
            ActiveChannelId::Temporary(id) => Some(*id),
            ActiveChannelId::Static(_) => None,
        }
    }
}

/// Upper byte of a 16-bit output index.
pub open spec fn vout_hi(vout: u16) -> u8 {
    (vout / 256) as u8
}

/// Lower byte of a 16-bit output index.
pub open spec fn vout_lo(vout: u16) -> u8 {
    (vout % 256) as u8
}

/// The permanent channel id of a funding outpoint: the funding transaction id
/// with its last two bytes XOR-ed with the big-endian output index.
pub open spec fn spec_channel_id(funding_txid: Seq<u8>, funding_vout: u16) -> Seq<u8> {
    funding_txid.update(30, funding_txid[30] ^ vout_hi(funding_vout)).update(
        31,
        funding_txid[31] ^ vout_lo(funding_vout),
    )
}

/// Calls `lnp2p::legacy::ChannelId::with(funding_txid, funding_vout)`.
///
/// Trusted: the outside function copies the 32 bytes of the transaction id
/// and XORs bytes 30 and 31 with the two big-endian bytes of the output
/// index.
#[verifier::external_body]
fn channel_id_with(funding_txid: &[u8; 32], funding_vout: u16) -> (id: [u8; 32])
    ensures
        id@ == spec_channel_id(funding_txid@, funding_vout),
{
    let txid: bitcoin::Txid = bitcoin::hashes::Hash::from_inner(*funding_txid);
    let id = lnp::p2p::legacy::ChannelId::with(txid, funding_vout);
    amplify::Wrapper::into_inner(amplify::Wrapper::into_inner(id))
}

/// Derives the permanent channel id from the funding outpoint.
pub fn permanent_channel_id(funding_txid: &[u8; 32], funding_vout: u16) -> (id: [u8; 32])
    ensures
        id@ == spec_channel_id(funding_txid@, funding_vout),
        id@.len() == 32,
        forall|i: int| 0 <= i < 30 ==> id@[i] == funding_txid@[i],
{
    channel_id_with(funding_txid, funding_vout)
}

} // verus!
