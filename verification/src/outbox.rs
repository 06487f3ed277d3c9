//! The outbox: what a transition wants done on the bus, in order.
//!
//! The workflow never sends anything itself.  A transition appends its
//! effects to the outbox; whoever drives the workflow performs them one by
//! one, front to back, and stops at the first that the bus refuses.

use crate::error::{spec_delivery_error, ProposalError};
use crate::message::{CtlMsg, Effect, LnMsg, ServiceId};
use vstd::prelude::*;

verus! {

/// Kind of a peer message.
#[derive(Clone, Copy, Debug, PartialEq, Eq, Structural)]
pub enum LnKind {
    OpenChannel,
    AcceptChannel,
    FundingCreated,
    FundingSigned,
    ChannelReady,
}

/// The kind of a peer message.
pub open spec fn spec_ln_kind(message: LnMsg) -> LnKind {
    match message {
        LnMsg::OpenChannel(_) => LnKind::OpenChannel,
        LnMsg::AcceptChannel(_) => LnKind::AcceptChannel,
        LnMsg::FundingCreated(_) => LnKind::FundingCreated,
        LnMsg::FundingSigned(_) => LnKind::FundingSigned,
        LnMsg::ChannelReady(_) => LnKind::ChannelReady,
    }
}

/// The kinds of the peer messages among some effects, in their order.
pub open spec fn peer_kinds(effects: Seq<Effect>) -> Seq<LnKind>
    decreases effects.len(),
{
    if effects.len() == 0 {
        Seq::empty()
    } else {
        match effects.last() {
            Effect::Peer(message) => peer_kinds(effects.drop_last()).push(spec_ln_kind(message)),
            _ => peer_kinds(effects.drop_last()),
        }
    }
}

/// Place of an effect in the order in which a transition emits: the change
/// of identity first, then messages to services, then messages to the peer.
pub open spec fn effect_rank(effect: Effect) -> nat {
    match effect {
        Effect::Identity(_) => 0,
        Effect::Ctl(_, _) => 1,
        Effect::Peer(_) => 2,
    }
}

/// The effects keep the order of emission: none precedes one of a lower rank.
pub open spec fn in_emission_order(effects: Seq<Effect>) -> bool {
    forall|i: int, j: int|
        0 <= i < j < effects.len() ==> effect_rank(effects[i]) <= effect_rank(effects[j])
}

/// Appending an effect that is no peer message leaves the peer messages as
/// they are.
pub proof fn lemma_peer_kinds_push_other(effects: Seq<Effect>, effect: Effect)
    requires
        !(effect is Peer),
    ensures
        peer_kinds(effects.push(effect)) == peer_kinds(effects),
{
    assert(effects.push(effect).drop_last() =~= effects);
}

/// Appending a peer message appends its kind.
pub proof fn lemma_peer_kinds_push_peer(effects: Seq<Effect>, message: LnMsg)
    ensures
        peer_kinds(effects.push(Effect::Peer(message))) == peer_kinds(effects).push(
            spec_ln_kind(message),
        ),
{
    assert(effects.push(Effect::Peer(message)).drop_last() =~= effects);
}

/// Ordered list of the effects that transitions have asked for.
#[derive(Debug)]
pub struct Outbox {
    effects: Vec<Effect>,
}

impl View for Outbox {
    type V = Seq<Effect>;

    closed spec fn view(&self) -> Seq<Effect> {
        self.effects@
    }
}

impl Outbox {
    /// An outbox without effects.
    pub fn new() -> (out: Outbox)
        ensures
            out@ == Seq::<Effect>::empty(),
    {
        Outbox { effects: Vec::new() }
    }

    /// Number of effects in the outbox.
    pub fn len(&self) -> (len: usize)
        ensures
            len == self@.len(),
    {
        self.effects.len()
    }

    /// The effects, in the order in which they have to be performed.
    pub fn effects(&self) -> (effects: &Vec<Effect>)
        ensures
            effects@ == self@,
    {
        &self.effects
    }

    /// Hands the effects out, in the order in which they have to be
    /// performed.
    pub fn into_effects(self) -> (effects: Vec<Effect>)
        ensures
            effects@ == self@,
    {
        self.effects
    }

    /// Appends an effect.
    pub fn emit(&mut self, effect: Effect)
        ensures
            final(self)@ == old(self)@.push(effect),
            peer_kinds(final(self)@) == (match effect {
                Effect::Peer(message) => peer_kinds(old(self)@).push(spec_ln_kind(message)),
                _ => peer_kinds(old(self)@),
            }),
    {
        proof {
            if effect is Peer {
                lemma_peer_kinds_push_peer(self@, effect->Peer_0);
            } else {
                lemma_peer_kinds_push_other(self@, effect);
            }
        }
        self.effects.push(effect);
    }

    /// Appends effects, in their order.
    pub fn append(&mut self, effects: Vec<Effect>)
        ensures
            final(self)@ == old(self)@ + effects@,
    {
        let mut effects = effects;
        self.effects.append(&mut effects);
    }

    /// Asks for the channel daemon to be registered under a new identity.
    pub fn set_identity(&mut self, identity: ServiceId)
        ensures
            final(self)@ == old(self)@.push(Effect::Identity(identity)),
            peer_kinds(final(self)@) == peer_kinds(old(self)@),
    {
        proof {
            lemma_peer_kinds_push_other(self@, Effect::Identity(identity));
        }
        self.effects.push(Effect::Identity(identity));
    }

    /// Asks for a message to be sent to a service of the node.
    pub fn send_ctl(&mut self, destination: ServiceId, message: CtlMsg)
        ensures
            final(self)@ == old(self)@.push(Effect::Ctl(destination, message)),
            peer_kinds(final(self)@) == peer_kinds(old(self)@),
    {
        proof {
            lemma_peer_kinds_push_other(self@, Effect::Ctl(destination, message));
        }
        self.effects.push(Effect::Ctl(destination, message));
    }

    /// Asks for a message to be sent to the remote peer.
    pub fn send_p2p(&mut self, message: LnMsg)
        ensures
            final(self)@ == old(self)@.push(Effect::Peer(message)),
            peer_kinds(final(self)@) == peer_kinds(old(self)@).push(spec_ln_kind(message)),
    {
        proof {
            lemma_peer_kinds_push_peer(self@, message);
        }
        self.effects.push(Effect::Peer(message));
    }

    /// The outcome of performing the effects, where the first `delivered` of
    /// them went through: no error where that is all of them, and else the
    /// error that the refusal of the next one amounts to.  None of the
    /// effects behind the refused one has been performed.
    pub fn failure(&self, delivered: usize) -> (failure: Option<ProposalError>)
        ensures
            failure == (if delivered < self@.len() {
                Some(spec_delivery_error(self@[delivered as int]))
            } else {
                None
            }),
    {
        if delivered < self.effects.len() {
            match &self.effects[delivered] {
                Effect::Identity(_) => Some(ProposalError::IdentitySwapFailed),
                _ => Some(ProposalError::BusSend),
            }
        } else {
            None
        }
    }
}

} // verus!
