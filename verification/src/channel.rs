//! The channel under construction.
//!
//! A [`Channel`] is the plain record of the handshake that the workflow
//! reads and decides on, together with what the channel engine was given so
//! far: the terms of the proposal and the messages of the remote peer.  The
//! engine itself, which holds the keys and builds the transactions, is made
//! anew from these whenever it is needed.  No operation changes the channel:
//! each answers a [`Change`], which takes effect when it is applied.

use crate::engine::{
    accept_channel_funding_pubkey, accept_channel_key, accepted, composed, countersigned,
    decode_psbt_funding_output, decode_psbt_txid, engine_accept_channel,
    engine_compose_funding_locked, engine_compose_open_channel, engine_funding_key,
    engine_funding_locked, engine_funding_pubkey, engine_funding_signed, engine_id,
    engine_refund_tx, engine_with, funding_locked_channel_id, funding_locked_id,
    funding_locked_of, funding_script,
    funding_signed_channel_id, funding_signed_id, ln_funding_script, made, psbt_funding_output,
    psbt_txid, readied, refunded, share, valid_pubkey, Engine,
};
use crate::error::ChannelError;
use crate::ids::{permanent_channel_id, spec_channel_id, ActiveChannelId};
use crate::message::{pays_to_witness_script_hash, FundingCreated, Psbt};
use crate::stage::Lifecycle;
use std::rc::Rc;
use vstd::prelude::*;

verus! {

/// Type of a channel: the features that both peers agree on for it.
#[derive(Clone, Copy, Debug, PartialEq, Eq, Structural)]
pub enum ChannelType {
    /// no features
    Basic,
    /// `option_static_remotekey`
    StaticRemotekey,
    /// `option_anchor_outputs` and `option_static_remotekey`
    AnchorOutputsStaticRemotekey,
    /// `option_anchors_zero_fee_htlc_tx` and `option_static_remotekey`
    AnchorsZeroFeeHtlcTxStaticRemotekey,
}

impl ChannelType {
    /// Whether the type asks for anchor outputs on the commitment
    /// transactions.
    pub open spec fn spec_has_anchor_outputs(self) -> bool {
        self == ChannelType::AnchorOutputsStaticRemotekey
    }

    /// Whether the type asks for anchor outputs on the commitment
    /// transactions.
    pub fn has_anchor_outputs(&self) -> (anchors: bool)
        ensures
            anchors == self.spec_has_anchor_outputs(),
    {
        *self == ChannelType::AnchorOutputsStaticRemotekey
    }
}

/// Channel parameters that hold for both peers.
#[derive(Clone, Copy, Debug, PartialEq, Eq)]
pub struct ChannelParams {
    /// Minimum depth of the funding transaction before the channel is
    /// considered open.
    pub minimum_depth: u32,
    /// Fee rate, in satoshi per 1000 weight units, that the funder pays for
    /// commitment transactions.
    pub feerate_per_kw: u32,
    /// Whether the funder wishes to announce the channel to the network.
    pub announce_channel: bool,
    /// Type of the channel.
    pub channel_type: ChannelType,
}

/// Outpoint of the funding transaction that anchors the channel.
#[derive(Clone, Copy, Debug, PartialEq, Eq)]
pub struct FundingOutpoint {
    /// Id of the funding transaction.
    pub txid: [u8; 32],
    /// Index of the funding output.
    pub output: u16,
}

/// The plain record of the handshake.
#[derive(Clone, Copy, Debug, PartialEq, Eq)]
pub struct ChannelState {
    /// Lifecycle marker of the channel.
    pub lifecycle: Lifecycle,
    /// Id under which the channel is addressed.
    pub active_channel_id: ActiveChannelId,
    /// Amount of the funding, in satoshi; zero until the channel is proposed.
    pub funding_amount: u64,
    /// Local key of the funding output, in compressed form.
    pub funding_pubkey: [u8; 33],
    /// Key of the remote peer for the funding output, in compressed form,
    /// once the peer has accepted the channel.
    pub remote_funding_pubkey: Option<[u8; 33]>,
    /// Funding outpoint, once the funding transaction is constructed.
    pub funding: Option<FundingOutpoint>,
    /// Depth that the funding transaction has to reach before the channel is
    /// locked.
    pub minimum_depth: u32,
    /// Depth of the funding transaction, as last reported.
    pub funding_depth: u32,
    /// Whether the remote peer has said that the channel is ready.
    pub remote_ready: bool,
}

impl ChannelState {
    /// What holds of the record of every channel: the channel is addressed
    /// by its permanent id from the `Funding` stage on and by a temporary one
    /// before; the permanent id is the one of the funding outpoint; the
    /// outpoint is known from the `Signing` stage on; the funding key of the
    /// remote peer is known from the `Accepted` stage on, and with the local
    /// one it makes a funding script; a locked channel has reached its
    /// minimum depth; and an active channel has the word of the remote peer.
    pub open spec fn wf(self) -> bool {
        &&& (self.lifecycle.rank() >= Lifecycle::Funding.rank()
            <==> self.active_channel_id is Static)
        &&& (self.lifecycle.rank() >= Lifecycle::Signing.rank() ==> self.funding is Some)
        &&& (self.active_channel_id matches ActiveChannelId::Static(id) ==> (self.funding matches Some(
            funding,
        ) && id@ == spec_channel_id(funding.txid@, funding.output)))
        &&& (self.lifecycle.rank() >= Lifecycle::Accepted.rank() <==> self.remote_funding_pubkey
            is Some)
        &&& (self.remote_funding_pubkey matches Some(key) ==> funding_script(
            self.funding_amount,
            self.funding_pubkey@,
            key@,
        ) is Some)
        &&& (self.lifecycle.rank() >= Lifecycle::Locked.rank() ==> self.funding_depth
            >= self.minimum_depth)
        &&& (self.lifecycle == Lifecycle::Active ==> self.remote_ready)
    }

    /// The record of a channel that was just made.
    pub open spec fn initial(temp_channel_id: [u8; 32], funding_pubkey: [u8; 33]) -> ChannelState {
        ChannelState {
            lifecycle: Lifecycle::Initial,
            active_channel_id: ActiveChannelId::Temporary(temp_channel_id),
            funding_amount: 0,
            funding_pubkey,
            remote_funding_pubkey: None,
            funding: None,
            minimum_depth: 0,
            funding_depth: 0,
            remote_ready: false,
        }
    }

    /// The record after the channel was proposed.
    pub open spec fn proposed(
        self,
        funding_sat: u64,
        minimum_depth: u32,
        funding_pubkey: [u8; 33],
    ) -> ChannelState {
        ChannelState {
            lifecycle: Lifecycle::Proposed,
            funding_amount: funding_sat,
            funding_pubkey,
            minimum_depth,
            ..self
        }
    }

    /// The record after the remote peer has accepted the channel, with the
    /// key that it gave for the funding output.
    pub open spec fn accepted(self, remote_funding_pubkey: [u8; 33]) -> ChannelState {
        ChannelState {
            lifecycle: Lifecycle::Accepted,
            remote_funding_pubkey: Some(remote_funding_pubkey),
            ..self
        }
    }

    /// The record after the lifecycle marker has moved.
    pub open spec fn at(self, lifecycle: Lifecycle) -> ChannelState {
        ChannelState { lifecycle, ..self }
    }

    /// The record after the funding transaction was constructed and the
    /// refund built on it.
    pub open spec fn funded_by(self, funding: FundingOutpoint) -> ChannelState {
        ChannelState { lifecycle: Lifecycle::Signing, funding: Some(funding), ..self }
    }

    /// The record after the channel has taken the permanent id of its
    /// funding outpoint.
    pub open spec fn identified(self, channel_id: [u8; 32]) -> ChannelState {
        ChannelState {
            lifecycle: Lifecycle::Funding,
            active_channel_id: ActiveChannelId::Static(channel_id),
            ..self
        }
    }

    /// The record after the funding transaction was reported at a depth:
    /// from the minimum depth on the channel is locked, and operational
    /// where the remote peer has said before that it is ready.
    pub open spec fn mined(self, depth: u32) -> ChannelState {
        ChannelState {
            lifecycle: if depth < self.minimum_depth {
                self.lifecycle
            } else if self.remote_ready {
                Lifecycle::Active
            } else {
                Lifecycle::Locked
            },
            funding_depth: depth,
            ..self
        }
    }

    /// The record after the remote peer has said that the channel is ready:
    /// a channel that is locked becomes operational.
    pub open spec fn ready(self) -> ChannelState {
        ChannelState {
            lifecycle: if self.lifecycle == Lifecycle::Locked {
                Lifecycle::Active
            } else {
                self.lifecycle
            },
            remote_ready: true,
            ..self
        }
    }
}

/// Fee of a commitment transaction without HTLCs, in satoshi.
pub open spec fn commitment_fee(feerate_per_kw: u32) -> int {
    724 * feerate_per_kw / 1000
}

/// The amounts of a proposal can be met: the funding fits the range of
/// millisatoshi amounts, the pushed amount does not exceed it, and what is
/// left to the funder pays the fee of the refund transaction.
pub open spec fn valid_funding(funding_sat: u64, push_msat: u64, feerate_per_kw: u32) -> bool {
    &&& funding_sat * 1000 <= u64::MAX
    &&& push_msat <= funding_sat * 1000
    &&& commitment_fee(feerate_per_kw) <= (funding_sat * 1000 - push_msat) / 1000
}

/// Tests whether the amounts of a proposal can be met.
pub fn check_funding(funding_sat: u64, push_msat: u64, feerate_per_kw: u32) -> (valid: bool)
    ensures
        valid == valid_funding(funding_sat, push_msat, feerate_per_kw),
{
    if funding_sat > u64::MAX / 1000 {
        return false;
    }
    let funding_msat: u64 = funding_sat * 1000;
    if push_msat > funding_msat {
        return false;
    }
    let feerate: u64 = feerate_per_kw as u64;
    let fee: u64 = 724 * feerate / 1000;
    fee <= (funding_msat - push_msat) / 1000
}

/// Request to propose a channel.
#[derive(Debug, PartialEq, Eq)]
pub struct OpenChannelWith {
    /// Amount with which the channel is funded, in satoshi.
    pub funding_sat: u64,
    /// Part of the funding that is pushed to the remote peer, in
    /// millisatoshi.
    pub push_msat: u64,
    /// Policy against which the answer of the remote peer is checked.
    pub policy: lnp::channel::bolt::Policy,
    /// Parameters that hold for both peers.
    pub common_params: ChannelParams,
    /// Parameters asked of the remote peer.
    pub local_params: lnp::channel::bolt::PeerParams,
    /// Local key material.
    pub local_keys: lnp::channel::bolt::LocalKeyset,
}

/// Whether the channel engine can work on the terms of a request: the
/// channel type asks for no anchor outputs, the amounts are in the range in
/// which the engine computes, and what is left to the funder is nothing or
/// pays the fee of the refund transaction.
pub open spec fn workable(request: OpenChannelWith) -> bool {
    &&& !request.common_params.channel_type.spec_has_anchor_outputs()
    &&& request.funding_sat * 1000 <= u64::MAX
    &&& request.push_msat <= request.funding_sat * 1000
    &&& (request.funding_sat * 1000 - request.push_msat == 0 || commitment_fee(
        request.common_params.feerate_per_kw,
    ) <= (request.funding_sat * 1000 - request.push_msat) / 1000)
}

/// What a channel keeps for the channel engine: the temporary id and the
/// chain under which the engine is made, the terms of the proposal, and the
/// messages and the funding PSBT that the channel has absorbed.
pub struct Kept {
    /// Temporary id under which the channel was made.
    pub temp_channel_id: [u8; 32],
    /// Genesis hash of the chain of the channel.
    pub chain_hash: [u8; 32],
    /// The terms of the channel: those with which it was made, and from the
    /// proposal on those of the proposal.
    pub terms: OpenChannelWith,
    /// The `accept_channel` message of the remote peer.
    pub accept_channel: Option<lnp::p2p::legacy::AcceptChannel>,
    /// The serialized funding PSBT.
    pub funding_psbt: Option<Vec<u8>>,
    /// The `funding_signed` message of the remote peer, which holds its
    /// signature of the refund.
    pub funding_signed: Option<lnp::p2p::legacy::FundingSigned>,
    /// The last word of the remote peer that the channel is ready.
    pub channel_ready: Option<lnp::p2p::legacy::FundingLocked>,
}

/// The engine after the proposal: made on the terms and, unless the channel
/// is at its initial lifecycle, composed on them.
pub open spec fn proposed_engine(lifecycle: Lifecycle, kept: Kept) -> Engine {
    let fresh = made(kept.temp_channel_id@, kept.chain_hash@, kept.terms);
    if lifecycle == Lifecycle::Initial {
        fresh
    } else {
        (composed(fresh, kept.terms)->0).1
    }
}

/// The engine of a channel: made on the terms of the channel, composed on
/// them, and given in their order what the channel has absorbed.
pub open spec fn replayed(lifecycle: Lifecycle, kept: Kept) -> Engine {
    let proposed = proposed_engine(lifecycle, kept);
    let agreed = match kept.accept_channel {
        Some(message) => accepted(proposed, message)->0,
        None => proposed,
    };
    let funded = match kept.funding_psbt {
        Some(raw) => (refunded(agreed, raw@)->0).1,
        None => agreed,
    };
    let signed = match kept.funding_signed {
        Some(message) => countersigned(funded, message),
        None => funded,
    };
    match kept.channel_ready {
        Some(message) => readied(signed, message),
        None => signed,
    }
}

/// The funding outpoint that a funding PSBT gives: its transaction, at the
/// first output that is marked as the funding of a channel.
pub open spec fn spec_funding_outpoint(raw: Seq<u8>) -> Result<(Seq<u8>, u16), ChannelError> {
    match psbt_txid(raw) {
        None => Err(ChannelError::InvalidPsbt),
        Some(txid) => match psbt_funding_output(raw) {
            None => Err(ChannelError::NoFundingOutput),
            Some(output) => if output > u16::MAX {
                Err(ChannelError::NoFundingOutput)
            } else {
                Ok((txid, output as u16))
            },
        },
    }
}

/// What holds of every channel, between its record and what it keeps: the
/// record is well-formed and the terms are workable; the channel keeps a
/// message or the funding PSBT from the stage on at which it absorbed it;
/// the engine takes what is kept; and the record says of the keys, of the
/// funding outpoint and of the permanent id what the messages and the PSBT
/// hold.
pub open spec fn coherent(state: ChannelState, kept: Kept) -> bool {
    &&& state.wf()
    &&& workable(kept.terms)
    &&& valid_pubkey(state.funding_pubkey@)
    &&& (state.active_channel_id matches ActiveChannelId::Temporary(id) ==> id
        == kept.temp_channel_id)
    &&& (state.lifecycle.rank() >= Lifecycle::Accepted.rank() <==> kept.accept_channel is Some)
    &&& (kept.accept_channel matches Some(message) ==> accepted(
        proposed_engine(state.lifecycle, kept),
        message,
    ) is Some && (state.remote_funding_pubkey matches Some(key) && key@ == accept_channel_key(message)))
    &&& (state.lifecycle.rank() >= Lifecycle::Signing.rank() <==> kept.funding_psbt is Some)
    &&& (kept.funding_psbt matches Some(raw) ==> (spec_funding_outpoint(raw@) matches Ok(
        (txid, output),
    ) && (state.funding matches Some(funding) && funding.txid@ == txid && funding.output == output)))
    &&& (state.lifecycle.rank() >= Lifecycle::Signed.rank() <==> kept.funding_signed is Some)
    &&& (kept.funding_signed matches Some(message) ==> funding_signed_channel_id(message)
        == state.active_channel_id.bytes())
    &&& (state.remote_ready <==> kept.channel_ready is Some)
    &&& (state.remote_ready ==> state.lifecycle.rank() >= Lifecycle::Funded.rank())
}

/// An operation refuses with an error.
pub open spec fn refuses<T>(res: Result<T, ChannelError>, error: ChannelError) -> bool {
    res matches Err(e) && e == error
}

/// A channel under construction.  Its record and what it keeps are coherent
/// at all times.
pub struct Channel {
    temp_channel_id: [u8; 32],
    chain_hash: [u8; 32],
    terms: Rc<OpenChannelWith>,
    accept_channel: Option<Rc<lnp::p2p::legacy::AcceptChannel>>,
    funding_psbt: Option<Rc<Vec<u8>>>,
    funding_signed: Option<Rc<lnp::p2p::legacy::FundingSigned>>,
    channel_ready: Option<Rc<lnp::p2p::legacy::FundingLocked>>,
    state: ChannelState,
}

impl View for Channel {
    type V = ChannelState;

    closed spec fn view(&self) -> ChannelState {
        self.state
    }
}

/// A change of a channel that an operation has worked out and that has not
/// taken effect yet: the channel as it is after the change.
pub struct Change {
    channel: Channel,
}

impl View for Change {
    type V = ChannelState;

    closed spec fn view(&self) -> ChannelState {
        self.channel@
    }
}

impl Change {
    /// What the channel keeps after the change.
    pub closed spec fn kept(&self) -> Kept {
        self.channel.kept()
    }

    /// The record of the channel after the change, which is well-formed.
    pub fn state(&self) -> (state: ChannelState)
        ensures
            state == self@,
            state.wf(),
            coherent(self@, self.kept()),
    {
        self.channel.state()
    }
}

fn share_option<T>(value: &Option<Rc<T>>) -> (copy: Option<Rc<T>>)
    ensures
        copy == *value,
{
    match value {
        Some(value) => Some(share(value)),
        None => None,
    }
}

fn same_id(one: &[u8; 32], other: &[u8; 32]) -> (same: bool)
    ensures
        same == (one@ == other@),
{
    let mut i: usize = 0;
    while i < 32
        invariant
            i <= 32,
            forall|k: int| 0 <= k < i ==> one@[k] == other@[k],
        decreases 32 - i,
    {
        if one[i] != other[i] {
            return false;
        }
        i = i + 1;
    }
    assert(one@ =~= other@);
    true
}

impl Channel {
    #[verifier::type_invariant]
    spec fn inv(self) -> bool {
        coherent(self.state, self.kept())
    }

    /// What the channel keeps for the channel engine.
    pub closed spec fn kept(&self) -> Kept {
        Kept {
            temp_channel_id: self.temp_channel_id,
            chain_hash: self.chain_hash,
            terms: *self.terms,
            accept_channel: match self.accept_channel {
                Some(message) => Some(*message),
                None => None,
            },
            funding_psbt: match self.funding_psbt {
                Some(raw) => Some(*raw),
                None => None,
            },
            funding_signed: match self.funding_signed {
                Some(message) => Some(*message),
                None => None,
            },
            channel_ready: match self.channel_ready {
                Some(message) => Some(*message),
                None => None,
            },
        }
    }

    /// The engine of the channel.
    pub open spec fn spec_engine(&self) -> Engine {
        replayed(self@.lifecycle, self.kept())
    }

    /// Makes a channel with a temporary id, on the chain of the given genesis
    /// hash.  A channel type with anchor outputs is refused.
    pub fn new(
        temp_channel_id: [u8; 32],
        chain_hash: [u8; 32],
        policy: lnp::channel::bolt::Policy,
        common_params: ChannelParams,
        local_params: lnp::channel::bolt::PeerParams,
        local_keys: lnp::channel::bolt::LocalKeyset,
    ) -> (res: Result<Channel, ChannelError>)
        ensures
            match res {
                Ok(channel) => !common_params.channel_type.spec_has_anchor_outputs() && channel@
                    == ChannelState::initial(temp_channel_id, channel@.funding_pubkey)
                    && channel.kept() == (Kept {
                    temp_channel_id,
                    chain_hash,
                    terms: OpenChannelWith {
                        funding_sat: 0,
                        push_msat: 0,
                        policy,
                        common_params,
                        local_params,
                        local_keys,
                    },
                    accept_channel: None,
                    funding_psbt: None,
                    funding_signed: None,
                    channel_ready: None,
                }) && channel@.funding_pubkey@ == engine_funding_key(channel.spec_engine())
                    && coherent(channel@, channel.kept()),
                Err(e) => common_params.channel_type.spec_has_anchor_outputs() && e
                    == ChannelError::UnsupportedChannelType,
            },
    {
        if common_params.channel_type.has_anchor_outputs() {
            return Err(ChannelError::UnsupportedChannelType);
        }
        let terms = Rc::new(
            OpenChannelWith {
                funding_sat: 0,
                push_msat: 0,
                policy,
                common_params,
                local_params,
                local_keys,
            },
        );
        let engine = engine_with(&temp_channel_id, &chain_hash, &terms);
        let funding_pubkey = engine_funding_pubkey(&engine);
        Ok(
            Channel {
                temp_channel_id,
                chain_hash,
                terms,
                accept_channel: None,
                funding_psbt: None,
                funding_signed: None,
                channel_ready: None,
                state: ChannelState {
                    lifecycle: Lifecycle::Initial,
                    active_channel_id: ActiveChannelId::Temporary(temp_channel_id),
                    funding_amount: 0,
                    funding_pubkey,
                    remote_funding_pubkey: None,
                    funding: None,
                    minimum_depth: 0,
                    funding_depth: 0,
                    remote_ready: false,
                },
            },
        )
    }

    /// Another channel with the same record that keeps the same.
    fn copy(&self) -> (copy: Channel)
        ensures
            copy == *self,
    {
        proof {
            use_type_invariant(self);
        }
        Channel {
            temp_channel_id: self.temp_channel_id,
            chain_hash: self.chain_hash,
            terms: share(&self.terms),
            accept_channel: share_option(&self.accept_channel),
            funding_psbt: share_option(&self.funding_psbt),
            funding_signed: share_option(&self.funding_signed),
            channel_ready: share_option(&self.channel_ready),
            state: self.state,
        }
    }

    /// Makes the channel engine anew: on the terms of the channel, and with
    /// every message that the channel has absorbed, in their order.  The
    /// engine took them once, and takes them again.
    fn engine(&self) -> (engine: Engine)
        ensures
            engine == self.spec_engine(),
            self@.lifecycle.rank() >= Lifecycle::Signed.rank() ==> engine_id(engine) == Some(
                self@.active_channel_id.bytes(),
            ),
    {
        proof {
            use_type_invariant(self);
        }
        let mut engine = engine_with(&self.temp_channel_id, &self.chain_hash, &self.terms);
        if self.state.lifecycle != Lifecycle::Initial {
            match engine_compose_open_channel(&mut engine, &self.terms) {
                Ok(_) => {},
                Err(_) => {
                    // an engine that was just made composes
                    vstd::pervasive::unreached()
                },
            }
        }
        match &self.accept_channel {
            Some(accept_channel) => match engine_accept_channel(&mut engine, accept_channel) {
                Ok(_) => {},
                Err(_) => {
                    // the engine took the message when the channel absorbed it
                    vstd::pervasive::unreached()
                },
            },
            None => {},
        }
        match &self.funding_psbt {
            Some(funding_psbt) => match engine_refund_tx(&mut engine, funding_psbt) {
                Ok(_) => {},
                Err(_) => {
                    // the engine refuses no PSBT that decodes and has a marked output
                    vstd::pervasive::unreached()
                },
            },
            None => {},
        }
        match &self.funding_signed {
            Some(funding_signed) => match engine_funding_signed(&mut engine, funding_signed) {
                Ok(_) => {},
                Err(_) => {
                    vstd::pervasive::unreached()
                },
            },
            None => {},
        }
        match &self.channel_ready {
            Some(channel_ready) => match engine_funding_locked(&mut engine, channel_ready) {
                Ok(_) => {},
                Err(_) => {
                    vstd::pervasive::unreached()
                },
            },
            None => {},
        }
        engine
    }

    /// The plain record of the handshake, which is well-formed and coherent
    /// with what the channel keeps.
    pub fn state(&self) -> (state: ChannelState)
        ensures
            state == self@,
            state.wf(),
            coherent(self@, self.kept()),
    {
        proof {
            use_type_invariant(self);
        }
        self.state
    }

    /// Lifecycle marker of the channel.
    pub fn lifecycle(&self) -> (lifecycle: Lifecycle)
        ensures
            lifecycle == self@.lifecycle,
    {
        self.state.lifecycle
    }

    /// Id under which the channel is addressed.
    pub fn active_channel_id(&self) -> (id: ActiveChannelId)
        ensures
            id == self@.active_channel_id,
    {
        self.state.active_channel_id
    }

    /// The temporary id of the channel, while it is still the valid one.
    pub fn temp_channel_id(&self) -> (res: Result<[u8; 32], ChannelError>)
        ensures
            res == (match self@.active_channel_id {
                ActiveChannelId::Temporary(id) => Ok::<[u8; 32], ChannelError>(id),
                ActiveChannelId::Static(_) => Err(ChannelError::NoTemporaryId),
            }),
    {
        match self.state.active_channel_id {
            ActiveChannelId::Temporary(id) => Ok(id),
            ActiveChannelId::Static(_) => Err(ChannelError::NoTemporaryId),
        }
    }

    /// The funding outpoint, once it is known.
    pub fn funding(&self) -> (funding: Option<FundingOutpoint>)
        ensures
            funding == self@.funding,
    {
        self.state.funding
    }

    /// Amount of the funding, in satoshi.
    pub fn funding_amount(&self) -> (amount: u64)
        ensures
            amount == self@.funding_amount,
    {
        self.state.funding_amount
    }

    /// The local key of the funding output.
    pub fn funding_pubkey(&self) -> (key: [u8; 33])
        ensures
            key == self@.funding_pubkey,
    {
        self.state.funding_pubkey
    }

    /// Whether the remote peer has said that the channel is ready.
    pub fn remote_ready(&self) -> (ready: bool)
        ensures
            ready == self@.remote_ready,
    {
        self.state.remote_ready
    }

    /// The script of a funding output for the funding keys of the two peers.
    pub open spec fn spec_funding_script_pubkey(state: ChannelState) -> Option<Seq<u8>> {
        match state.remote_funding_pubkey {
            Some(key) => funding_script(state.funding_amount, state.funding_pubkey@, key@),
            None => None,
        }
    }

    /// The script to which the funding output pays: the hash of the 2-of-2
    /// multisig witness script of the funding keys of the two peers.  There
    /// is none until the remote peer has given its key.
    pub fn funding_script_pubkey(&self) -> (script: Option<Vec<u8>>)
        ensures
            match script {
                Some(script) => Self::spec_funding_script_pubkey(self@) == Some(script@)
                    && pays_to_witness_script_hash(script@),
                None => self@.remote_funding_pubkey is None,
            },
    {
        proof {
            use_type_invariant(self);
        }
        let state = self.state;
        match state.remote_funding_pubkey {
            None => None,
            Some(key) => {
                let script = ln_funding_script(state.funding_amount, &state.funding_pubkey, &key);
                match script {
                    Some(script) => Some(script),
                    None => {
                        // the two keys of a record make a script
                        vstd::pervasive::unreached()
                    },
                }
            },
        }
    }

    /// Composes the `open_channel` message that proposes the channel: the
    /// one that the engine composes on the terms of the request, after it
    /// was made on them under the temporary id and on the chain of the
    /// channel.  From the change on the channel keeps these terms.
    ///
    /// Refuses a channel that has left the initial lifecycle, a channel type
    /// with anchor outputs, and amounts that cannot be met, in this order,
    /// and nothing else.  The engine takes the keys of the request, so the
    /// funding key of the record is read anew.
    pub fn compose_open_channel(&self, request: OpenChannelWith) -> (res: Result<
        (lnp::p2p::legacy::OpenChannel, Change),
        ChannelError,
    >)
        ensures
            self@.lifecycle != Lifecycle::Initial ==> refuses(
                res,
                (ChannelError::LifecycleMismatch {
                    current: self@.lifecycle,
                    required: Lifecycle::Initial,
                }),
            ),
            self@.lifecycle == Lifecycle::Initial
                && request.common_params.channel_type.spec_has_anchor_outputs() ==> refuses(
                res,
                ChannelError::UnsupportedChannelType,
            ),
            self@.lifecycle == Lifecycle::Initial
                && !request.common_params.channel_type.spec_has_anchor_outputs() && !valid_funding(
                request.funding_sat,
                request.push_msat,
                request.common_params.feerate_per_kw,
            ) ==> refuses(
                res,
                (ChannelError::InvalidFunding {
                    funding_sat: request.funding_sat,
                    push_msat: request.push_msat,
                }),
            ),
            self@.lifecycle == Lifecycle::Initial
                && !request.common_params.channel_type.spec_has_anchor_outputs() && valid_funding(
                request.funding_sat,
                request.push_msat,
                request.common_params.feerate_per_kw,
            ) ==> (res matches Ok((message, change)) && {
                let fresh = made(self.kept().temp_channel_id@, self.kept().chain_hash@, request);
                &&& composed(fresh, request) matches Some((composition, engine))
                &&& message == composition
                &&& change.kept() == (Kept { terms: request, ..self.kept() })
                &&& change@.funding_pubkey@ == engine_funding_key(engine)
                &&& change@ == self@.proposed(
                    request.funding_sat,
                    request.common_params.minimum_depth,
                    change@.funding_pubkey,
                )
            }),
            coherent(self@, self.kept()),
            res matches Ok((_, change)) ==> coherent(change@, change.kept()),
    {
        proof {
            use_type_invariant(self);
        }
        let state = self.state;
        if state.lifecycle != Lifecycle::Initial {
            return Err(
                ChannelError::LifecycleMismatch {
                    current: state.lifecycle,
                    required: Lifecycle::Initial,
                },
            );
        }
        if request.common_params.channel_type.has_anchor_outputs() {
            return Err(ChannelError::UnsupportedChannelType);
        }
        let funding_sat = request.funding_sat;
        let push_msat = request.push_msat;
        let minimum_depth = request.common_params.minimum_depth;
        if !check_funding(funding_sat, push_msat, request.common_params.feerate_per_kw) {
            return Err(ChannelError::InvalidFunding { funding_sat, push_msat });
        }
        let terms = Rc::new(request);
        let mut engine = engine_with(&self.temp_channel_id, &self.chain_hash, &terms);
        let open_channel = match engine_compose_open_channel(&mut engine, &terms) {
            Ok(open_channel) => open_channel,
            Err(_) => {
                // an engine that was just made composes
                vstd::pervasive::unreached()
            },
        };
        let funding_pubkey = engine_funding_pubkey(&engine);
        let channel = Channel {
            terms,
            state: ChannelState {
                lifecycle: Lifecycle::Proposed,
                funding_amount: funding_sat,
                funding_pubkey,
                minimum_depth,
                ..state
            },
            ..self.copy()
        };
        Ok((open_channel, Change { channel }))
    }

    /// Absorbs the `accept_channel` message of the remote peer, and answers
    /// the script to which the funding output is to pay: the one that the
    /// local funding key makes with the funding key of the message.  From
    /// the change on the channel keeps the message.
    ///
    /// Refuses a channel that is not at the `Proposed` lifecycle, and
    /// otherwise what the engine refuses, which checks the message against
    /// its policy.
    pub fn accept_channel(&self, accept_channel: lnp::p2p::legacy::AcceptChannel) -> (res: Result<
        (Vec<u8>, Change),
        ChannelError,
    >)
        ensures
            self@.lifecycle != Lifecycle::Proposed ==> refuses(
                res,
                (ChannelError::LifecycleMismatch {
                    current: self@.lifecycle,
                    required: Lifecycle::Proposed,
                }),
            ),
            self@.lifecycle == Lifecycle::Proposed ==> (match res {
                Ok((script, change)) => accepted(self.spec_engine(), accept_channel) is Some && (
                change@.remote_funding_pubkey matches Some(key) && key@ == accept_channel_key(
                    accept_channel,
                ) && change@ == self@.accepted(key)) && change.kept() == (Kept {
                    accept_channel: Some(accept_channel),
                    ..self.kept()
                }) && Self::spec_funding_script_pubkey(change@) == Some(script@)
                    && pays_to_witness_script_hash(script@),
                Err(e) => accepted(self.spec_engine(), accept_channel) is None && e is Engine,
            }),
            coherent(self@, self.kept()),
            res matches Ok((_, change)) ==> coherent(change@, change.kept()),
    {
        proof {
            use_type_invariant(self);
        }
        let state = self.state;
        if state.lifecycle != Lifecycle::Proposed {
            return Err(
                ChannelError::LifecycleMismatch {
                    current: state.lifecycle,
                    required: Lifecycle::Proposed,
                },
            );
        }
        let key = accept_channel_funding_pubkey(&accept_channel);
        let script = match ln_funding_script(state.funding_amount, &state.funding_pubkey, &key) {
            Some(script) => script,
            None => {
                // two public keys make a script
                vstd::pervasive::unreached()
            },
        };
        let mut engine = self.engine();
        match engine_accept_channel(&mut engine, &accept_channel) {
            Ok(_) => {
                let channel = Channel {
                    accept_channel: Some(Rc::new(accept_channel)),
                    state: ChannelState {
                        lifecycle: Lifecycle::Accepted,
                        remote_funding_pubkey: Some(key),
                        ..state
                    },
                    ..self.copy()
                };
                Ok((script, Change { channel }))
            },
            Err(e) => Err(ChannelError::Engine(e)),
        }
    }

    /// Takes the funding PSBT and derives the refund transaction: the first
    /// commitment transaction, which pays the funding back to the funder, as
    /// the serialized PSBT that the engine builds on the funding PSBT, and
    /// that awaits the signer.  The funding outpoint is known from here on:
    /// the transaction of the PSBT, at the output that is marked as the
    /// funding of the channel.  From the change on the channel keeps the
    /// PSBT.
    ///
    /// Refuses a channel that is not at the `Accepted` lifecycle, bytes that
    /// are no PSBT, and a PSBT without a marked output, in this order, and
    /// nothing else.
    pub fn refund_tx(&self, funding_psbt: Psbt) -> (res: Result<(Vec<u8>, Change), ChannelError>)
        ensures
            self@.lifecycle != Lifecycle::Accepted ==> refuses(
                res,
                (ChannelError::LifecycleMismatch {
                    current: self@.lifecycle,
                    required: Lifecycle::Accepted,
                }),
            ),
            self@.lifecycle == Lifecycle::Accepted ==> (match spec_funding_outpoint(
                funding_psbt.raw@,
            ) {
                Err(refusal) => refuses(res, refusal),
                Ok((txid, output)) => res matches Ok((refund, change)) && (
                change@.funding matches Some(funding) && funding.txid@ == txid && funding.output
                    == output && change@ == self@.funded_by(funding)) && change.kept() == (Kept {
                    funding_psbt: Some(funding_psbt.raw),
                    ..self.kept()
                }) && (refunded(self.spec_engine(), funding_psbt.raw@) matches Some((bytes, _))
                    && refund@ == bytes),
            }),
            coherent(self@, self.kept()),
            res matches Ok((_, change)) ==> coherent(change@, change.kept()),
    {
        proof {
            use_type_invariant(self);
        }
        let state = self.state;
        if state.lifecycle != Lifecycle::Accepted {
            return Err(
                ChannelError::LifecycleMismatch {
                    current: state.lifecycle,
                    required: Lifecycle::Accepted,
                },
            );
        }
        let txid = match decode_psbt_txid(&funding_psbt.raw) {
            Some(txid) => txid,
            None => {
                return Err(ChannelError::InvalidPsbt);
            },
        };
        let output: u16 = match decode_psbt_funding_output(&funding_psbt.raw) {
            Some(output) => if output > 0xffff {
                return Err(ChannelError::NoFundingOutput);
            } else {
                output as u16
            },
            None => {
                return Err(ChannelError::NoFundingOutput);
            },
        };
        let mut engine = self.engine();
        let refund_psbt = match engine_refund_tx(&mut engine, &funding_psbt.raw) {
            Ok(refund_psbt) => refund_psbt,
            Err(_) => {
                // the engine refuses no PSBT that decodes and has a marked output
                vstd::pervasive::unreached()
            },
        };
        let channel = Channel {
            funding_psbt: Some(Rc::new(funding_psbt.raw)),
            state: ChannelState {
                lifecycle: Lifecycle::Signing,
                funding: Some(FundingOutpoint { txid, output }),
                ..state
            },
            ..self.copy()
        };
        Ok((refund_psbt, Change { channel }))
    }

    /// The `funding_created` message of a channel with a temporary id and a
    /// funding outpoint, around a signature.
    pub open spec fn spec_funding_created(state: ChannelState, signature: [u8; 64]) -> FundingCreated
        recommends
            state.active_channel_id is Temporary,
            state.funding is Some,
    {
        FundingCreated {
            temporary_channel_id: state.active_channel_id.array(),
            funding_txid: state.funding->0.txid,
            funding_output_index: state.funding->0.output,
            signature,
        }
    }

    /// Composes the `funding_created` message around the funder's signature
    /// of the refund transaction, and retires the temporary id: with the
    /// change the channel is addressed by the permanent id of its funding
    /// outpoint.
    ///
    /// Refuses a channel that is not at the `Signing` lifecycle, and nothing
    /// else.
    pub fn funding_created(&self, signature: [u8; 64]) -> (res: Result<
        (FundingCreated, Change),
        ChannelError,
    >)
        ensures
            self@.lifecycle != Lifecycle::Signing ==> refuses(
                res,
                (ChannelError::LifecycleMismatch {
                    current: self@.lifecycle,
                    required: Lifecycle::Signing,
                }),
            ),
            self@.lifecycle == Lifecycle::Signing ==> (res matches Ok((message, change)) && message
                == Self::spec_funding_created(self@, signature) && self@.active_channel_id
                is Temporary && (change@.active_channel_id matches ActiveChannelId::Static(id) && (
            self@.funding matches Some(funding) && id@ == spec_channel_id(
                funding.txid@,
                funding.output,
            ) && change@ == self@.identified(id))) && change.kept() == self.kept()),
            coherent(self@, self.kept()),
            res matches Ok((_, change)) ==> coherent(change@, change.kept()),
    {
        proof {
            use_type_invariant(self);
        }
        let state = self.state;
        if state.lifecycle != Lifecycle::Signing {
            return Err(
                ChannelError::LifecycleMismatch {
                    current: state.lifecycle,
                    required: Lifecycle::Signing,
                },
            );
        }
        let temporary_channel_id = state.active_channel_id.as_bytes();
        let funding = match state.funding {
            Some(funding) => funding,
            None => {
                // a channel at `Signing` knows its funding outpoint
                vstd::pervasive::unreached()
            },
        };
        let channel_id = permanent_channel_id(&funding.txid, funding.output);
        let channel = Channel {
            state: ChannelState {
                lifecycle: Lifecycle::Funding,
                active_channel_id: ActiveChannelId::Static(channel_id),
                ..state
            },
            ..self.copy()
        };
        Ok(
            (
                FundingCreated {
                    temporary_channel_id,
                    funding_txid: funding.txid,
                    funding_output_index: funding.output,
                    signature,
                },
                Change { channel },
            ),
        )
    }

    /// Absorbs the `funding_signed` message of the remote peer, which holds
    /// its signature of the refund transaction.  From the change on the
    /// channel keeps the message.
    ///
    /// Refuses a channel that is not at the `Funding` lifecycle and a
    /// message for another channel than this one, in this order, and nothing
    /// else.
    pub fn funding_signed(&self, funding_signed: lnp::p2p::legacy::FundingSigned) -> (res: Result<
        Change,
        ChannelError,
    >)
        ensures
            self@.lifecycle != Lifecycle::Funding ==> refuses(
                res,
                (ChannelError::LifecycleMismatch {
                    current: self@.lifecycle,
                    required: Lifecycle::Funding,
                }),
            ),
            self@.lifecycle == Lifecycle::Funding && funding_signed_channel_id(funding_signed)
                != self@.active_channel_id.bytes() ==> refuses(res, ChannelError::ChannelIdMismatch),
            self@.lifecycle == Lifecycle::Funding && funding_signed_channel_id(funding_signed)
                == self@.active_channel_id.bytes() ==> (res matches Ok(change) && change@
                == self@.at(Lifecycle::Signed) && change.kept() == (Kept {
                funding_signed: Some(funding_signed),
                ..self.kept()
            })),
            coherent(self@, self.kept()),
            res matches Ok(change) ==> coherent(change@, change.kept()),
    {
        proof {
            use_type_invariant(self);
        }
        let state = self.state;
        if state.lifecycle != Lifecycle::Funding {
            return Err(
                ChannelError::LifecycleMismatch {
                    current: state.lifecycle,
                    required: Lifecycle::Funding,
                },
            );
        }
        if !same_id(&funding_signed_id(&funding_signed), &state.active_channel_id.as_bytes()) {
            return Err(ChannelError::ChannelIdMismatch);
        }
        let mut engine = self.engine();
        match engine_funding_signed(&mut engine, &funding_signed) {
            Ok(_) => {},
            Err(_) => {
                vstd::pervasive::unreached()
            },
        }
        let channel = Channel {
            funding_signed: Some(Rc::new(funding_signed)),
            state: ChannelState { lifecycle: Lifecycle::Signed, ..state },
            ..self.copy()
        };
        Ok(Change { channel })
    }

    /// Records that the funding transaction was published and gives its id,
    /// by which it is tracked on chain.
    ///
    /// Refuses a channel that is not at the `Signed` lifecycle, and nothing
    /// else.
    pub fn funding_published(&self) -> (res: Result<([u8; 32], Change), ChannelError>)
        ensures
            self@.lifecycle != Lifecycle::Signed ==> refuses(
                res,
                (ChannelError::LifecycleMismatch {
                    current: self@.lifecycle,
                    required: Lifecycle::Signed,
                }),
            ),
            self@.lifecycle == Lifecycle::Signed ==> (res matches Ok((txid, change)) && (
            self@.funding matches Some(funding) && txid == funding.txid) && change@ == self@.at(
                Lifecycle::Funded,
            ) && change.kept() == self.kept()),
            coherent(self@, self.kept()),
            res matches Ok((_, change)) ==> coherent(change@, change.kept()),
    {
        proof {
            use_type_invariant(self);
        }
        let state = self.state;
        if state.lifecycle != Lifecycle::Signed {
            return Err(
                ChannelError::LifecycleMismatch {
                    current: state.lifecycle,
                    required: Lifecycle::Signed,
                },
            );
        }
        let funding = match state.funding {
            Some(funding) => funding,
            None => {
                // a signed channel knows its funding outpoint
                vstd::pervasive::unreached()
            },
        };
        let channel = Channel {
            state: ChannelState { lifecycle: Lifecycle::Funded, ..state },
            ..self.copy()
        };
        Ok((funding.txid, Change { channel }))
    }

    /// Records the depth at which the funding transaction was found on
    /// chain.  From the minimum depth on the channel is locked on the local
    /// side, or operational where the remote peer was first, and the answer
    /// holds the `funding_locked` message that the engine composes to tell
    /// the remote peer so, which names the permanent id of the channel;
    /// below the minimum depth it holds none.
    ///
    /// Refuses a channel that is not at the `Funded` lifecycle, and nothing
    /// else.
    pub fn funding_mined(&self, depth: u32) -> (res: Result<
        (Option<lnp::p2p::legacy::FundingLocked>, Change),
        ChannelError,
    >)
        ensures
            self@.lifecycle != Lifecycle::Funded ==> refuses(
                res,
                (ChannelError::LifecycleMismatch {
                    current: self@.lifecycle,
                    required: Lifecycle::Funded,
                }),
            ),
            self@.lifecycle == Lifecycle::Funded ==> (res matches Ok((message, change)) && change@
                == self@.mined(depth) && change.kept() == self.kept() && (if depth
                < self@.minimum_depth {
                message is None
            } else {
                message matches Some(message) && message == funding_locked_of(self.spec_engine())
                    && funding_locked_channel_id(message) == self@.active_channel_id.bytes()
            })),
            coherent(self@, self.kept()),
            res matches Ok((_, change)) ==> coherent(change@, change.kept()),
    {
        proof {
            use_type_invariant(self);
        }
        let state = self.state;
        if state.lifecycle != Lifecycle::Funded {
            return Err(
                ChannelError::LifecycleMismatch {
                    current: state.lifecycle,
                    required: Lifecycle::Funded,
                },
            );
        }
        if depth < state.minimum_depth {
            let channel = Channel {
                state: ChannelState { funding_depth: depth, ..state },
                ..self.copy()
            };
            return Ok((None, Change { channel }));
        }
        let mut engine = self.engine();
        let message = engine_compose_funding_locked(&mut engine);
        let lifecycle = if state.remote_ready {
            Lifecycle::Active
        } else {
            Lifecycle::Locked
        };
        let channel = Channel {
            state: ChannelState { lifecycle, funding_depth: depth, ..state },
            ..self.copy()
        };
        Ok((Some(message), Change { channel }))
    }

    /// Absorbs the word of the remote peer that the channel is ready.  A
    /// channel that is locked on the local side is operational with it.
    /// From the change on the channel keeps the message.
    ///
    /// Refuses a channel that is neither at the `Funded` nor at the `Locked`
    /// lifecycle and a message for another channel than this one, in this
    /// order, and nothing else.
    pub fn channel_ready(&self, message: lnp::p2p::legacy::FundingLocked) -> (res: Result<
        Change,
        ChannelError,
    >)
        ensures
            self@.lifecycle != Lifecycle::Funded && self@.lifecycle != Lifecycle::Locked
                ==> refuses(
                res,
                (ChannelError::LifecycleMismatch {
                    current: self@.lifecycle,
                    required: Lifecycle::Locked,
                }),
            ),
            (self@.lifecycle == Lifecycle::Funded || self@.lifecycle == Lifecycle::Locked)
                && funding_locked_channel_id(message) != self@.active_channel_id.bytes()
                ==> refuses(res, ChannelError::ChannelIdMismatch),
            (self@.lifecycle == Lifecycle::Funded || self@.lifecycle == Lifecycle::Locked)
                && funding_locked_channel_id(message) == self@.active_channel_id.bytes() ==> (
            res matches Ok(change) && change@ == self@.ready() && change.kept() == (Kept {
                channel_ready: Some(message),
                ..self.kept()
            })),
            coherent(self@, self.kept()),
            res matches Ok(change) ==> coherent(change@, change.kept()),
    {
        proof {
            use_type_invariant(self);
        }
        let state = self.state;
        if state.lifecycle != Lifecycle::Funded && state.lifecycle != Lifecycle::Locked {
            return Err(
                ChannelError::LifecycleMismatch {
                    current: state.lifecycle,
                    required: Lifecycle::Locked,
                },
            );
        }
        if !same_id(&funding_locked_id(&message), &state.active_channel_id.as_bytes()) {
            return Err(ChannelError::ChannelIdMismatch);
        }
        let mut engine = self.engine();
        match engine_funding_locked(&mut engine, &message) {
            Ok(_) => {},
            Err(_) => {
                vstd::pervasive::unreached()
            },
        }
        let lifecycle = if state.lifecycle == Lifecycle::Locked {
            Lifecycle::Active
        } else {
            state.lifecycle
        };
        let channel = Channel {
            channel_ready: Some(Rc::new(message)),
            state: ChannelState { lifecycle, remote_ready: true, ..state },
            ..self.copy()
        };
        Ok(Change { channel })
    }

    /// Lets a change take effect: the record of the channel and what it
    /// keeps are those of the change.
    pub fn apply(&mut self, change: Change)
        ensures
            final(self)@ == change@,
            final(self).kept() == change.kept(),
            coherent(final(self)@, final(self).kept()),
    {
        proof {
            use_type_invariant(&change.channel);
        }
        *self = change.channel;
    }
}

} // verus!
