//! The transitions of the channel proposal workflow.
//!
//! Every stage expects one class of events.  A transition checks the event,
//! works out the change of the channel and what has to leave, in this order:
//! the change of identity, messages to services of the node, messages to the
//! remote peer.  A transition that fails changes nothing.
//!
//! A transition can be taken in one go, with [`ChannelPropose::next`], which
//! changes the channel and fills an outbox, or in two: [`ChannelPropose::attempt`]
//! works the step out and leaves the channel as it is, and [`Pending::settle`]
//! lets it take effect once its effects went through.

use crate::channel::{
    replayed, spec_funding_outpoint, Change, Channel, ChannelState, Kept, OpenChannelWith,
};
use crate::engine::{
    accept_channel_key, accepted, composed, engine_funding_key, funding_locked_channel_id,
    funding_locked_of,
    funding_signed_channel_id, made, refunded,
};
use crate::error::{spec_delivery_error, ChannelError, ProposalError};
use crate::ids::{spec_channel_id, ActiveChannelId};
use crate::message::{
    pays_to_witness_script_hash, BusMsg, CtlMsg, Effect, Event, FundChannel, LnMsg, ServiceId,
};
use crate::outbox::{in_emission_order, peer_kinds, LnKind, Outbox};
use crate::signature::{refund_signature, spec_refund_signature, SigFailure};
use crate::stage::{ChannelPropose, Lifecycle};
use vstd::prelude::*;

verus! {

/// Whether a stage expects a message.
pub open spec fn expects(stage: ChannelPropose, message: BusMsg) -> bool {
    match stage {
        ChannelPropose::Proposed => message matches BusMsg::Ln(LnMsg::AcceptChannel(_)),
        ChannelPropose::Accepted => message matches BusMsg::Ctl(CtlMsg::FundingConstructed(_)),
        ChannelPropose::Signing => message matches BusMsg::Ctl(CtlMsg::Signed(_)),
        ChannelPropose::Funding => message matches BusMsg::Ln(LnMsg::FundingSigned(_)),
        ChannelPropose::Signed => message matches BusMsg::Ctl(CtlMsg::FundingPublished),
        ChannelPropose::Funded => message matches BusMsg::Ctl(CtlMsg::FundingMined(_))
            || message matches BusMsg::Ln(LnMsg::ChannelReady(_)),
        ChannelPropose::Locked => message matches BusMsg::Ln(LnMsg::ChannelReady(_)),
    }
}

/// The error with which a stage answers an event that it does not expect.
pub open spec fn unexpected(stage: ChannelPropose, event: Event) -> ProposalError {
    ProposalError::UnexpectedMessage(event.message, stage.spec_lifecycle(), event.source)
}

/// The error with which a stage answers where the channel is at another
/// lifecycle than its own.
pub open spec fn mismatch(stage: ChannelPropose, pre: ChannelState) -> ProposalError {
    ProposalError::Channel(
        ChannelError::LifecycleMismatch {
            current: pre.lifecycle,
            required: stage.spec_lifecycle(),
        },
    )
}

/// The lifecycle of the channel after a step that led to `next`: the one of
/// the next stage, or `Active` where the workflow is complete.
pub open spec fn lifecycle_after(next: Option<ChannelPropose>) -> Lifecycle {
    match next {
        Some(stage) => stage.spec_lifecycle(),
        None => Lifecycle::Active,
    }
}

/// The steps that the workflow can take from a stage: to the stage that
/// follows; from `Funded` also to `Funded` itself, while the funding is not
/// deep enough or only the remote peer has confirmed the lock, and to the
/// end, where the remote peer was first; from `Locked` to the end.
pub open spec fn valid_step(stage: ChannelPropose, next: Option<ChannelPropose>) -> bool {
    match stage {
        ChannelPropose::Proposed => next == Some(ChannelPropose::Accepted),
        ChannelPropose::Accepted => next == Some(ChannelPropose::Signing),
        ChannelPropose::Signing => next == Some(ChannelPropose::Funding),
        ChannelPropose::Funding => next == Some(ChannelPropose::Signed),
        ChannelPropose::Signed => next == Some(ChannelPropose::Funded),
        ChannelPropose::Funded => next == Some(ChannelPropose::Funded) || next == Some(
            ChannelPropose::Locked,
        ) || next is None,
        ChannelPropose::Locked => next is None,
    }
}

/// The kinds of the peer messages that a step emits.
pub open spec fn step_peer_kinds(stage: ChannelPropose, next: Option<ChannelPropose>) -> Seq<
    LnKind,
> {
    match (stage, next) {
        (ChannelPropose::Signing, Some(ChannelPropose::Funding)) => seq![LnKind::FundingCreated],
        (ChannelPropose::Funded, Some(ChannelPropose::Locked)) => seq![LnKind::ChannelReady],
        (ChannelPropose::Funded, None) => seq![LnKind::ChannelReady],
        _ => Seq::empty(),
    }
}

/// What a successful step from `Proposed` leaves behind: the channel is
/// accepted and knows the funding key of the remote peer, and the broker is
/// asked to construct the funding of the amount of the channel, paying to the
/// script of the two funding keys, at a fee rate of the wallet's choice.
pub open spec fn proposed_done(
    pre: ChannelState,
    post: ChannelState,
    emitted: Seq<Effect>,
    next: Option<ChannelPropose>,
) -> bool {
    &&& next == Some(ChannelPropose::Accepted)
    &&& (post.remote_funding_pubkey matches Some(key) && post == pre.accepted(key))
    &&& emitted.len() == 1
    &&& (emitted[0] matches Effect::Ctl(ServiceId::LnpBroker, CtlMsg::ConstructFunding(request)) && {
        &&& request.feerate_per_kw is None
        &&& request.amount == pre.funding_amount
        &&& Channel::spec_funding_script_pubkey(post) == Some(request.script_pubkey@)
        &&& pays_to_witness_script_hash(request.script_pubkey@)
    })
}

/// What a successful step from `Accepted` leaves behind: the funding
/// outpoint is the one that the PSBT of the event gives, and the signer is
/// asked to sign the refund.
pub open spec fn accepted_done(
    event: Event,
    pre: ChannelState,
    post: ChannelState,
    emitted: Seq<Effect>,
    next: Option<ChannelPropose>,
) -> bool {
    &&& next == Some(ChannelPropose::Signing)
    &&& (event.message matches BusMsg::Ctl(CtlMsg::FundingConstructed(psbt)) && (
    spec_funding_outpoint(psbt.raw@) matches Ok((txid, output)) && (post.funding matches Some(
        funding,
    ) && funding.txid@ == txid && funding.output == output && post == pre.funded_by(funding))))
    &&& emitted.len() == 1
    &&& emitted[0] matches Effect::Ctl(ServiceId::Signer, CtlMsg::Sign(_))
}

/// What a successful step from `Signing` leaves behind: the channel has the
/// permanent id of its funding outpoint; the daemon is to be registered
/// under that id, then the broker greeted, then the remote peer sent
/// `funding_created`, which holds the temporary id, the funding outpoint and
/// the funder's signature from the PSBT of the event.
pub open spec fn signing_done(
    event: Event,
    pre: ChannelState,
    post: ChannelState,
    emitted: Seq<Effect>,
    next: Option<ChannelPropose>,
) -> bool {
    &&& next == Some(ChannelPropose::Funding)
    &&& emitted.len() == 3
    &&& emitted[1] == Effect::Ctl(ServiceId::LnpBroker, CtlMsg::Hello)
    &&& (event.message matches BusMsg::Ctl(CtlMsg::Signed(psbt)) && (
    emitted[2] matches Effect::Peer(LnMsg::FundingCreated(message)) && (post.active_channel_id
        matches ActiveChannelId::Static(id) && {
        &&& spec_refund_signature(psbt.inputs@, pre.funding_pubkey@) == Ok::<Seq<u8>, SigFailure>(
            message.signature@,
        )
        &&& pre.active_channel_id is Temporary
        &&& message == Channel::spec_funding_created(pre, message.signature)
        &&& id@ == spec_channel_id(message.funding_txid@, message.funding_output_index)
        &&& post == pre.identified(id)
        &&& emitted[0] == Effect::Identity(ServiceId::Channel(id))
    })))
}

/// What a successful step from `Funding` leaves behind: the channel is
/// signed by both peers, and the broker is asked to publish the funding.
pub open spec fn funding_done(
    pre: ChannelState,
    post: ChannelState,
    emitted: Seq<Effect>,
    next: Option<ChannelPropose>,
) -> bool {
    &&& next == Some(ChannelPropose::Signed)
    &&& post == pre.at(Lifecycle::Signed)
    &&& emitted == seq![Effect::Ctl(ServiceId::LnpBroker, CtlMsg::PublishFunding)]
}

/// What a successful step from `Signed` leaves behind: the funding is
/// published, and the chain watcher is asked to track its transaction.
pub open spec fn signed_done(
    pre: ChannelState,
    post: ChannelState,
    emitted: Seq<Effect>,
    next: Option<ChannelPropose>,
) -> bool {
    &&& next == Some(ChannelPropose::Funded)
    &&& post == pre.at(Lifecycle::Funded)
    &&& (pre.funding matches Some(funding) && emitted == seq![
        Effect::Ctl(ServiceId::Chain, CtlMsg::Track(funding.txid)),
    ])
}

/// What a successful step from `Funded` leaves behind.
///
/// The word of the remote peer that the channel is ready is recorded, and
/// the workflow waits on.  A depth of the funding transaction is recorded
/// too; below the minimum depth the workflow waits on; from the minimum
/// depth on the remote peer is sent the local word that the channel is
/// ready, and the channel is locked, or, where the remote peer was first,
/// operational: then the broker is told to activate it, and the workflow is
/// complete.
pub open spec fn funded_done(
    event: Event,
    pre: ChannelState,
    post: ChannelState,
    emitted: Seq<Effect>,
    next: Option<ChannelPropose>,
) -> bool {
    match event.message {
        BusMsg::Ln(LnMsg::ChannelReady(_)) => {
            &&& next == Some(ChannelPropose::Funded)
            &&& post == pre.ready()
            &&& emitted.len() == 0
        },
        BusMsg::Ctl(CtlMsg::FundingMined(depth)) => post == pre.mined(depth) && if depth
            < pre.minimum_depth {
            &&& next == Some(ChannelPropose::Funded)
            &&& emitted.len() == 0
        } else if !pre.remote_ready {
            &&& next == Some(ChannelPropose::Locked)
            &&& emitted.len() == 1
            &&& emitted[0] matches Effect::Peer(LnMsg::ChannelReady(_))
        } else {
            &&& next is None
            &&& emitted.len() == 2
            &&& emitted[0] == Effect::Ctl(ServiceId::LnpBroker, CtlMsg::Activate)
            &&& emitted[1] matches Effect::Peer(LnMsg::ChannelReady(_))
        },
        _ => false,
    }
}

/// What a successful step from `Locked` leaves behind: the channel is
/// operational, the broker is told to activate it, and the workflow is
/// complete.
pub open spec fn locked_done(
    pre: ChannelState,
    post: ChannelState,
    emitted: Seq<Effect>,
    next: Option<ChannelPropose>,
) -> bool {
    &&& next is None
    &&& post == pre.ready()
    &&& emitted == seq![Effect::Ctl(ServiceId::LnpBroker, CtlMsg::Activate)]
}

/// What a successful step from a stage leaves behind.
pub open spec fn step_done(
    stage: ChannelPropose,
    event: Event,
    pre: ChannelState,
    post: ChannelState,
    emitted: Seq<Effect>,
    next: Option<ChannelPropose>,
) -> bool {
    match stage {
        ChannelPropose::Proposed => proposed_done(pre, post, emitted, next),
        ChannelPropose::Accepted => accepted_done(event, pre, post, emitted, next),
        ChannelPropose::Signing => signing_done(event, pre, post, emitted, next),
        ChannelPropose::Funding => funding_done(pre, post, emitted, next),
        ChannelPropose::Signed => signed_done(pre, post, emitted, next),
        ChannelPropose::Funded => funded_done(event, pre, post, emitted, next),
        ChannelPropose::Locked => locked_done(pre, post, emitted, next),
    }
}

/// A step fails with an error of the channel.
pub open spec fn fails_with(res: Result<Option<ChannelPropose>, ProposalError>, error: ChannelError) -> bool {
    res matches Err(e) && e == ProposalError::Channel(error)
}

/// The outcome of a step on an event that the stage expects, with the
/// channel at the lifecycle of the stage.
///
/// `Proposed` succeeds where the engine of the channel takes the
/// `accept_channel` of the event, and fails with the error of the engine
/// where it refuses.  `Accepted` refuses bytes that are no PSBT and a PSBT
/// without a marked funding output, and succeeds otherwise.  `Signing` fails
/// where the PSBT holds no signature under the funding key and where that
/// signature does not parse, and succeeds otherwise.  `Funding` refuses a
/// `funding_signed` that names another channel, and succeeds otherwise.
/// `Signed`, `Funded` and `Locked` succeed.
pub open spec fn step_outcome(
    stage: ChannelPropose,
    event: Event,
    pre: ChannelState,
    held: Kept,
    res: Result<Option<ChannelPropose>, ProposalError>,
) -> bool {
    match stage {
        ChannelPropose::Proposed => match event.message {
            BusMsg::Ln(LnMsg::AcceptChannel(message)) => if accepted(
                replayed(pre.lifecycle, held),
                message,
            ) is Some {
                res is Ok
            } else {
                res matches Err(ProposalError::Channel(ChannelError::Engine(_)))
            },
            _ => true,
        },
        ChannelPropose::Accepted => match event.message {
            BusMsg::Ctl(CtlMsg::FundingConstructed(psbt)) => match spec_funding_outpoint(
                psbt.raw@,
            ) {
                Err(refusal) => fails_with(res, refusal),
                Ok(_) => res is Ok,
            },
            _ => true,
        },
        ChannelPropose::Signing => match event.message {
            BusMsg::Ctl(CtlMsg::Signed(psbt)) => match spec_refund_signature(
                psbt.inputs@,
                pre.funding_pubkey@,
            ) {
                Err(SigFailure::Unsigned) => res == Err::<Option<ChannelPropose>, ProposalError>(
                    ProposalError::FundingPsbtUnsigned(pre.funding_pubkey),
                ),
                Err(SigFailure::Invalid) => res matches Err(ProposalError::InvalidSig(_)),
                Ok(_) => res is Ok,
            },
            _ => true,
        },
        ChannelPropose::Funding => match event.message {
            BusMsg::Ln(LnMsg::FundingSigned(message)) => if funding_signed_channel_id(message)
                == pre.active_channel_id.bytes() {
                res is Ok
            } else {
                fails_with(res, ChannelError::ChannelIdMismatch)
            },
            _ => true,
        },
        ChannelPropose::Signed => res is Ok,
        ChannelPropose::Funded | ChannelPropose::Locked => match event.message {
            BusMsg::Ln(LnMsg::ChannelReady(message)) => if funding_locked_channel_id(message)
                == pre.active_channel_id.bytes() {
                res is Ok
            } else {
                fails_with(res, ChannelError::ChannelIdMismatch)
            },
            _ => res is Ok,
        },
    }
}

/// What the channel keeps after a successful step: what it held, and in
/// addition the message or the funding PSBT of the event that the step has
/// absorbed.
pub open spec fn step_keeps(stage: ChannelPropose, event: Event, held: Kept, kept: Kept) -> bool {
    match event.message {
        BusMsg::Ln(LnMsg::AcceptChannel(message)) => kept == (Kept {
            accept_channel: Some(message),
            ..held
        }),
        BusMsg::Ctl(CtlMsg::FundingConstructed(psbt)) => kept == (Kept {
            funding_psbt: Some(psbt.raw),
            ..held
        }),
        BusMsg::Ln(LnMsg::FundingSigned(message)) => kept == (Kept {
            funding_signed: Some(message),
            ..held
        }),
        BusMsg::Ln(LnMsg::ChannelReady(message)) => kept == (Kept {
            channel_ready: Some(message),
            ..held
        }),
        _ => kept == held,
    }
}

/// What a successful step sends, where the engine of the channel made it,
/// and what it records of a message.
///
/// The remote funding key of the record is the one of the `accept_channel`
/// of the event.  The signer is sent the refund that the engine builds on
/// the funding PSBT of the event.  The remote peer is sent the
/// `funding_locked` that the engine composes, which names the permanent id
/// of the channel.
pub open spec fn step_payload(
    stage: ChannelPropose,
    event: Event,
    pre: ChannelState,
    held: Kept,
    post: ChannelState,
    emitted: Seq<Effect>,
) -> bool {
    match (stage, event.message) {
        (ChannelPropose::Proposed, BusMsg::Ln(LnMsg::AcceptChannel(message))) => {
            post.remote_funding_pubkey matches Some(key) && key@ == accept_channel_key(message)
        },
        (ChannelPropose::Accepted, BusMsg::Ctl(CtlMsg::FundingConstructed(psbt))) => {
            emitted[0] matches Effect::Ctl(ServiceId::Signer, CtlMsg::Sign(refund)) && (refunded(
                replayed(pre.lifecycle, held),
                psbt.raw@,
            ) matches Some((bytes, _)) && refund@ == bytes)
        },
        (ChannelPropose::Funded, BusMsg::Ctl(CtlMsg::FundingMined(depth))) => depth
            >= pre.minimum_depth ==> (emitted.last() matches Effect::Peer(
            LnMsg::ChannelReady(message),
        ) && message == funding_locked_of(replayed(pre.lifecycle, held))
            && funding_locked_channel_id(message) == pre.active_channel_id.bytes()),
        _ => true,
    }
}

/// The contract of a step from `stage` on `event`, on a channel with the
/// record `pre` that holds `held`, to one with the record `post` that keeps
/// `kept`.
///
/// An event that the stage does not expect is answered with the error that
/// names it, the stage and its source.  An expected event on a channel at
/// another lifecycle is answered with the mismatch.  Otherwise the outcome is
/// the one of the stage.  Whatever the error, the channel stays as it was
/// and nothing is emitted.  A successful step is one of the valid steps of
/// the stage, leaves the channel at the lifecycle of the next stage, keeps
/// what the step has absorbed, emits in the order of emission, and its peer
/// messages are those of the step.  A well-formed record stays well-formed.
pub open spec fn step_contract(
    stage: ChannelPropose,
    event: Event,
    pre: ChannelState,
    held: Kept,
    post: ChannelState,
    kept: Kept,
    emitted: Seq<Effect>,
    res: Result<Option<ChannelPropose>, ProposalError>,
) -> bool {
    &&& !expects(stage, event.message) ==> res == Err::<Option<ChannelPropose>, ProposalError>(
        unexpected(stage, event),
    )
    &&& expects(stage, event.message) && pre.lifecycle != stage.spec_lifecycle() ==> res == Err::<
        Option<ChannelPropose>,
        ProposalError,
    >(mismatch(stage, pre))
    &&& expects(stage, event.message) && pre.lifecycle == stage.spec_lifecycle() ==> step_outcome(
        stage,
        event,
        pre,
        held,
        res,
    )
    &&& res is Err ==> post == pre && kept == held && emitted.len() == 0
    &&& (res matches Ok(next) ==> {
        &&& expects(stage, event.message)
        &&& pre.lifecycle == stage.spec_lifecycle()
        &&& post.lifecycle == lifecycle_after(next)
        &&& valid_step(stage, next)
        &&& step_done(stage, event, pre, post, emitted, next)
        &&& step_keeps(stage, event, held, kept)
        &&& step_payload(stage, event, pre, held, post, emitted)
        &&& in_emission_order(emitted)
        &&& peer_kinds(emitted) == step_peer_kinds(stage, next)
    })
    &&& pre.wf() ==> post.wf()
}

/// The stage that a step answers where it has left the channel at a
/// lifecycle: the stage of that lifecycle, and `Locked` where the channel is
/// operational and the workflow complete.
pub open spec fn stage_at(lifecycle: Lifecycle) -> ChannelPropose {
    match lifecycle {
        Lifecycle::Initial | Lifecycle::Proposed => ChannelPropose::Proposed,
        Lifecycle::Accepted => ChannelPropose::Accepted,
        Lifecycle::Signing => ChannelPropose::Signing,
        Lifecycle::Funding => ChannelPropose::Funding,
        Lifecycle::Signed => ChannelPropose::Signed,
        Lifecycle::Funded => ChannelPropose::Funded,
        Lifecycle::Locked | Lifecycle::Active => ChannelPropose::Locked,
    }
}

/// The outcome of a step as the driver of the workflow observes it: the next
/// stage, or the end of the workflow where the channel has become active.
pub open spec fn observed<T>(res: Result<T, ProposalError>, post: ChannelState) -> Result<
    Option<ChannelPropose>,
    ProposalError,
> {
    match res {
        Ok(_) => if post.lifecycle == Lifecycle::Active {
            Ok(None)
        } else {
            Ok(Some(stage_at(post.lifecycle)))
        },
        Err(e) => Err(e),
    }
}

/// What the effects of a step mean for an outbox: what was in it stays in
/// front, and the effects of the step follow.
pub open spec fn emitted(before: Seq<Effect>, after: Seq<Effect>) -> Seq<Effect> {
    after.subrange(before.len() as int, after.len() as int)
}

/// The contract of a step that is taken in one go, on a channel and an
/// outbox: the outbox keeps what it held and gains the effects of the step,
/// the step meets the contract of its stage, and it answers the stage at
/// which it has left the channel.
pub open spec fn completed<T>(
    stage: ChannelPropose,
    event: Event,
    pre: ChannelState,
    held: Kept,
    post: ChannelState,
    kept: Kept,
    before: Seq<Effect>,
    after: Seq<Effect>,
    res: Result<T, ProposalError>,
) -> bool {
    &&& before.len() <= after.len()
    &&& after.subrange(0, before.len() as int) == before
    &&& step_contract(
        stage,
        event,
        pre,
        held,
        post,
        kept,
        emitted(before, after),
        observed(res, post),
    )
}

/// A step that was worked out and has not taken effect yet: the change of
/// the channel, the effects to perform, and the stage that follows.
pub struct Pending {
    answer: ChannelPropose,
    next: Option<ChannelPropose>,
    change: Change,
    effects: Vec<Effect>,
}

impl Pending {
    /// The stage that follows the step, or `None` where the workflow is
    /// complete with it.
    pub closed spec fn leads_to(&self) -> Option<ChannelPropose> {
        self.next
    }

    /// The stage that the step answers: the one that follows, or `Locked`
    /// at the end of the workflow.
    pub closed spec fn answer(&self) -> ChannelPropose {
        self.answer
    }

    /// The record of the channel after the step.
    pub closed spec fn record(&self) -> ChannelState {
        self.change@
    }

    /// What the channel keeps after the step.
    pub closed spec fn kept(&self) -> Kept {
        self.change.kept()
    }

    /// The effects of the step, in the order in which they have to be
    /// performed.
    pub closed spec fn emits(&self) -> Seq<Effect> {
        self.effects@
    }

    /// The stage that follows the step, or `None` where the workflow is
    /// complete with it.
    pub fn next_stage(&self) -> (next: Option<ChannelPropose>)
        ensures
            next == self.leads_to(),
    {
        self.next
    }

    /// The effects of the step, in the order in which they have to be
    /// performed.
    pub fn effects(&self) -> (effects: &Vec<Effect>)
        ensures
            effects@ == self.emits(),
    {
        &self.effects
    }

    /// Settles the step after its effects were performed, where the first
    /// `delivered` of them went through.  Where that is all of them, the
    /// change takes effect on the channel, and the answer is the stage that
    /// follows.  Where the bus refused one, the answer is the error that the
    /// refusal amounts to, and the channel is what it was: none of the step
    /// is kept.
    pub fn settle(self, channel: &mut Channel, delivered: usize) -> (res: Result<
        Option<ChannelPropose>,
        ProposalError,
    >)
        ensures
            delivered < self.emits().len() ==> res == Err::<Option<ChannelPropose>, ProposalError>(
                spec_delivery_error(self.emits()[delivered as int]),
            ) && *final(channel) == *old(channel),
            delivered >= self.emits().len() ==> res == Ok::<Option<ChannelPropose>, ProposalError>(
                self.leads_to(),
            ) && final(channel)@ == self.record() && final(channel).kept() == self.kept(),
    {
        if delivered < self.effects.len() {
            match &self.effects[delivered] {
                Effect::Identity(_) => Err(ProposalError::IdentitySwapFailed),
                _ => Err(ProposalError::BusSend),
            }
        } else {
            channel.apply(self.change);
            Ok(self.next)
        }
    }
}

/// The contract of a step that was worked out: it meets the contract of its
/// stage on the record that it found, and a failed one has nothing pending.
pub open spec fn planned(
    stage: ChannelPropose,
    event: Event,
    pre: ChannelState,
    held: Kept,
    res: Result<Pending, ProposalError>,
) -> bool {
    match res {
        Ok(pending) => step_contract(
            stage,
            event,
            pre,
            held,
            pending.record(),
            pending.kept(),
            pending.emits(),
            Ok(pending.leads_to()),
        ) && pending.answer() == stage_at(pending.record().lifecycle),
        Err(e) => step_contract(stage, event, pre, held, pre, held, Seq::empty(), Err(e)),
    }
}

/// The request to construct the funding transaction of a channel: it goes to
/// the broker, names the script and the amount of the funding output, and
/// leaves the fee rate to the funding wallet.
pub fn construct_funding(script_pubkey: Vec<u8>, amount: u64) -> (effect: Effect)
    ensures
        effect == Effect::Ctl(
            ServiceId::LnpBroker,
            CtlMsg::ConstructFunding(FundChannel { script_pubkey, feerate_per_kw: None, amount }),
        ),
{
    Effect::Ctl(
        ServiceId::LnpBroker,
        CtlMsg::ConstructFunding(FundChannel { script_pubkey, feerate_per_kw: None, amount }),
    )
}


/// The request to sign the refund of a channel: it goes to the signer and
/// holds the serialized refund PSBT.
pub fn sign_refund(refund_psbt: Vec<u8>) -> (effect: Effect)
    ensures
        effect == Effect::Ctl(ServiceId::Signer, CtlMsg::Sign(refund_psbt)),
{
    Effect::Ctl(ServiceId::Signer, CtlMsg::Sign(refund_psbt))
}

/// The effects of a step that emits nothing.
fn no_effects() -> (effects: Vec<Effect>)
    ensures
        effects@.len() == 0,
        in_emission_order(effects@),
        peer_kinds(effects@) == Seq::<LnKind>::empty(),
{
    Vec::new()
}

/// The effects of a step that emits one effect.
fn one_effect(effect: Effect) -> (effects: Vec<Effect>)
    ensures
        effects@ == seq![effect],
        in_emission_order(effects@),
        peer_kinds(effects@) == (match effect {
            Effect::Peer(message) => seq![crate::outbox::spec_ln_kind(message)],
            _ => Seq::<LnKind>::empty(),
        }),
{
    let mut out = Outbox::new();
    out.emit(effect);
    assert(out@ =~= seq![effect]);
    out.into_effects()
}

fn plan_proposed(event: Event, channel: &Channel) -> (res: Result<Pending, ProposalError>)
    ensures
        planned(ChannelPropose::Proposed, event, channel@, channel.kept(), res),
{
    let accept_channel = match event.message {
        BusMsg::Ln(LnMsg::AcceptChannel(accept_channel)) => accept_channel,
        wrong_msg => {
            return Err(
                ProposalError::UnexpectedMessage(wrong_msg, Lifecycle::Proposed, event.source),
            );
        },
    };
    let amount = channel.funding_amount();
    let (script, change) = match channel.accept_channel(accept_channel) {
        Ok(accepted) => accepted,
        Err(e) => {
            return Err(ProposalError::Channel(e));
        },
    };
    let effects = one_effect(construct_funding(script, amount));
    Ok(
        Pending {
            answer: ChannelPropose::Accepted,
            next: Some(ChannelPropose::Accepted),
            change,
            effects,
        },
    )
}

fn plan_accepted(event: Event, channel: &Channel) -> (res: Result<Pending, ProposalError>)
    ensures
        planned(ChannelPropose::Accepted, event, channel@, channel.kept(), res),
{
    let funding_psbt = match event.message {
        BusMsg::Ctl(CtlMsg::FundingConstructed(funding_psbt)) => funding_psbt,
        wrong_msg => {
            return Err(
                ProposalError::UnexpectedMessage(wrong_msg, Lifecycle::Accepted, event.source),
            );
        },
    };
    let (refund_psbt, change) = match channel.refund_tx(funding_psbt) {
        Ok(refund) => refund,
        Err(e) => {
            return Err(ProposalError::Channel(e));
        },
    };
    let effects = one_effect(sign_refund(refund_psbt));
    Ok(
        Pending {
            answer: ChannelPropose::Signing,
            next: Some(ChannelPropose::Signing),
            change,
            effects,
        },
    )
}

fn plan_signing(event: Event, channel: &Channel) -> (res: Result<Pending, ProposalError>)
    ensures
        planned(ChannelPropose::Signing, event, channel@, channel.kept(), res),
{
    let refund_psbt = match event.message {
        BusMsg::Ctl(CtlMsg::Signed(psbt)) => psbt,
        wrong_msg => {
            return Err(
                ProposalError::UnexpectedMessage(wrong_msg, Lifecycle::Signing, event.source),
            );
        },
    };
    if channel.lifecycle() != Lifecycle::Signing {
        return Err(
            ProposalError::Channel(
                ChannelError::LifecycleMismatch {
                    current: channel.lifecycle(),
                    required: Lifecycle::Signing,
                },
            ),
        );
    }
    let funding_pubkey = channel.funding_pubkey();
    let signature = match refund_signature(&refund_psbt, &funding_pubkey) {
        Ok(signature) => signature,
        Err(e) => {
            return Err(e);
        },
    };
    let (funding_created, change) = match channel.funding_created(signature) {
        Ok(created) => created,
        Err(e) => {
            return Err(ProposalError::Channel(e));
        },
    };
    let new_id = ServiceId::Channel(change.state().active_channel_id.as_bytes());
    let mut out = Outbox::new();
    out.set_identity(new_id);
    // needed to update the routing map of the bus
    out.send_ctl(ServiceId::LnpBroker, CtlMsg::Hello);
    out.send_p2p(LnMsg::FundingCreated(funding_created));
    proof {
        assert(out@ =~= seq![
            Effect::Identity(new_id),
            Effect::Ctl(ServiceId::LnpBroker, CtlMsg::Hello),
            Effect::Peer(LnMsg::FundingCreated(funding_created)),
        ]);
        assert(peer_kinds(out@) =~= seq![LnKind::FundingCreated]);
    }
    Ok(
        Pending {
            answer: ChannelPropose::Funding,
            next: Some(ChannelPropose::Funding),
            change,
            effects: out.into_effects(),
        },
    )
}

fn plan_funding(event: Event, channel: &Channel) -> (res: Result<Pending, ProposalError>)
    ensures
        planned(ChannelPropose::Funding, event, channel@, channel.kept(), res),
{
    let funding_signed = match event.message {
        BusMsg::Ln(LnMsg::FundingSigned(funding_signed)) => funding_signed,
        wrong_msg => {
            return Err(
                ProposalError::UnexpectedMessage(wrong_msg, Lifecycle::Funding, event.source),
            );
        },
    };
    // Save signature
    let change = match channel.funding_signed(funding_signed) {
        Ok(change) => change,
        Err(e) => {
            return Err(ProposalError::Channel(e));
        },
    };
    let effects = one_effect(Effect::Ctl(ServiceId::LnpBroker, CtlMsg::PublishFunding));
    Ok(
        Pending {
            answer: ChannelPropose::Signed,
            next: Some(ChannelPropose::Signed),
            change,
            effects,
        },
    )
}

fn plan_signed(event: Event, channel: &Channel) -> (res: Result<Pending, ProposalError>)
    ensures
        planned(ChannelPropose::Signed, event, channel@, channel.kept(), res),
{
    match event.message {
        BusMsg::Ctl(CtlMsg::FundingPublished) => {},
        wrong_msg => {
            return Err(
                ProposalError::UnexpectedMessage(wrong_msg, Lifecycle::Signed, event.source),
            );
        },
    }
    let (txid, change) = match channel.funding_published() {
        Ok(published) => published,
        Err(e) => {
            return Err(ProposalError::Channel(e));
        },
    };
    let effects = one_effect(Effect::Ctl(ServiceId::Chain, CtlMsg::Track(txid)));
    Ok(
        Pending {
            answer: ChannelPropose::Funded,
            next: Some(ChannelPropose::Funded),
            change,
            effects,
        },
    )
}

fn plan_funded(event: Event, channel: &Channel) -> (res: Result<Pending, ProposalError>)
    ensures
        planned(ChannelPropose::Funded, event, channel@, channel.kept(), res),
{
    match event.message {
        BusMsg::Ctl(CtlMsg::FundingMined(depth)) => {
            let remote_first = channel.remote_ready();
            match channel.funding_mined(depth) {
                Err(e) => Err(ProposalError::Channel(e)),
                Ok((None, change)) => Ok(
                    Pending {
                        answer: ChannelPropose::Funded,
                        next: Some(ChannelPropose::Funded),
                        change,
                        effects: no_effects(),
                    },
                ),
                Ok((Some(message), change)) => {
                    if remote_first {
                        let mut out = Outbox::new();
                        out.send_ctl(ServiceId::LnpBroker, CtlMsg::Activate);
                        out.send_p2p(LnMsg::ChannelReady(message));
                        proof {
                            assert(out@ =~= seq![
                                Effect::Ctl(ServiceId::LnpBroker, CtlMsg::Activate),
                                Effect::Peer(LnMsg::ChannelReady(message)),
                            ]);
                            assert(peer_kinds(out@) =~= seq![LnKind::ChannelReady]);
                        }
                        Ok(
                            Pending {
                                answer: ChannelPropose::Locked,
                                next: None,
                                change,
                                effects: out.into_effects(),
                            },
                        )
                    } else {
                        let effects = one_effect(Effect::Peer(LnMsg::ChannelReady(message)));
                        Ok(
                            Pending {
                                answer: ChannelPropose::Locked,
                                next: Some(ChannelPropose::Locked),
                                change,
                                effects,
                            },
                        )
                    }
                },
            }
        },
        BusMsg::Ln(LnMsg::ChannelReady(message)) => {
            if channel.lifecycle() != Lifecycle::Funded {
                return Err(
                    ProposalError::Channel(
                        ChannelError::LifecycleMismatch {
                            current: channel.lifecycle(),
                            required: Lifecycle::Funded,
                        },
                    ),
                );
            }
            match channel.channel_ready(message) {
                Ok(change) => Ok(
                    Pending {
                        answer: ChannelPropose::Funded,
                        next: Some(ChannelPropose::Funded),
                        change,
                        effects: no_effects(),
                    },
                ),
                Err(e) => Err(ProposalError::Channel(e)),
            }
        },
        wrong_msg => Err(
            ProposalError::UnexpectedMessage(wrong_msg, Lifecycle::Funded, event.source),
        ),
    }
}

fn plan_locked(event: Event, channel: &Channel) -> (res: Result<Pending, ProposalError>)
    ensures
        planned(ChannelPropose::Locked, event, channel@, channel.kept(), res),
{
    let message = match event.message {
        BusMsg::Ln(LnMsg::ChannelReady(message)) => message,
        wrong_msg => {
            return Err(
                ProposalError::UnexpectedMessage(wrong_msg, Lifecycle::Locked, event.source),
            );
        },
    };
    if channel.lifecycle() != Lifecycle::Locked {
        return Err(
            ProposalError::Channel(
                ChannelError::LifecycleMismatch {
                    current: channel.lifecycle(),
                    required: Lifecycle::Locked,
                },
            ),
        );
    }
    let change = match channel.channel_ready(message) {
        Ok(change) => change,
        Err(e) => {
            return Err(ProposalError::Channel(e));
        },
    };
    let effects = one_effect(Effect::Ctl(ServiceId::LnpBroker, CtlMsg::Activate));
    Ok(Pending { answer: ChannelPropose::Locked, next: None, change, effects })
}

/// A step that succeeds on its own meets the contract of a step taken in one
/// go, whatever the outbox held.
proof fn lemma_taken<T>(
    stage: ChannelPropose,
    event: Event,
    pre: ChannelState,
    held: Kept,
    post: ChannelState,
    kept: Kept,
    before: Seq<Effect>,
    emits: Seq<Effect>,
    next: Option<ChannelPropose>,
    answer: T,
)
    requires
        step_contract(stage, event, pre, held, post, kept, emits, Ok(next)),
    ensures
        completed(
            stage,
            event,
            pre,
            held,
            post,
            kept,
            before,
            before + emits,
            Ok::<T, ProposalError>(answer),
        ),
        observed(Ok::<T, ProposalError>(answer), post) == Ok::<
            Option<ChannelPropose>,
            ProposalError,
        >(next),
{
    let after = before + emits;
    assert(after.subrange(0, before.len() as int) =~= before);
    assert(emitted(before, after) =~= emits);
}

/// A step that fails on its own meets the contract of a step taken in one
/// go, with the outbox as it was.
proof fn lemma_refused<T>(
    stage: ChannelPropose,
    event: Event,
    pre: ChannelState,
    held: Kept,
    before: Seq<Effect>,
    error: ProposalError,
)
    requires
        step_contract(stage, event, pre, held, pre, held, Seq::empty(), Err(error)),
    ensures
        completed(stage, event, pre, held, pre, held, before, before, Err::<T, ProposalError>(error)),
{
    assert(before.subrange(0, before.len() as int) =~= before);
    assert(emitted(before, before) =~= Seq::<Effect>::empty());
}

/// Takes a step that was worked out: the change takes effect on the channel,
/// and the effects go to the outbox.
fn take(
    pending: Pending,
    channel: &mut Channel,
    out: &mut Outbox,
    Ghost(stage): Ghost<ChannelPropose>,
    Ghost(event): Ghost<Event>,
) -> (answer: ChannelPropose)
    requires
        planned(stage, event, old(channel)@, old(channel).kept(), Ok(pending)),
    ensures
        completed(
            stage,
            event,
            old(channel)@,
            old(channel).kept(),
            final(channel)@,
            final(channel).kept(),
            old(out)@,
            final(out)@,
            Ok::<ChannelPropose, ProposalError>(answer),
        ),
        answer == stage_at(final(channel)@.lifecycle),
        observed(Ok::<ChannelPropose, ProposalError>(answer), final(channel)@) == Ok::<
            Option<ChannelPropose>,
            ProposalError,
        >(pending.leads_to()),
{
    proof {
        lemma_taken(
            stage,
            event,
            channel@,
            channel.kept(),
            pending.record(),
            pending.kept(),
            out@,
            pending.emits(),
            pending.leads_to(),
            pending.answer(),
        );
    }
    let Pending { answer, next: _, change, effects } = pending;
    channel.apply(change);
    out.append(effects);
    answer
}

/// Completes the `Proposed` stage on the `accept_channel` of the remote
/// peer: the channel absorbs the message, and the broker is asked to
/// construct the funding transaction, which pays to the script of the funding
/// keys of the two peers.
pub fn complete_proposed(event: Event, channel: &mut Channel, out: &mut Outbox) -> (res: Result<
    ChannelPropose,
    ProposalError,
>)
    ensures
        completed(
            ChannelPropose::Proposed,
            event,
            old(channel)@,
            old(channel).kept(),
            final(channel)@,
            final(channel).kept(),
            old(out)@,
            final(out)@,
            res,
        ),
        res matches Ok(answer) ==> answer == ChannelPropose::Accepted,
        res is Err ==> *final(channel) == *old(channel) && final(out)@ == old(out)@,
{
    match plan_proposed(event, &*channel) {
        Ok(pending) => Ok(take(pending, channel, out, Ghost(ChannelPropose::Proposed), Ghost(event))),
        Err(e) => {
            proof {
                lemma_refused::<ChannelPropose>(ChannelPropose::Proposed, event, channel@, channel.kept(), out@, e);
            }
            Err(e)
        },
    }
}

/// Completes the `Accepted` stage on the funding PSBT that the broker has
/// constructed: the channel derives the funding outpoint and the refund
/// transaction, and the signer is asked to sign the refund.
pub fn complete_accepted(event: Event, channel: &mut Channel, out: &mut Outbox) -> (res: Result<
    ChannelPropose,
    ProposalError,
>)
    ensures
        completed(
            ChannelPropose::Accepted,
            event,
            old(channel)@,
            old(channel).kept(),
            final(channel)@,
            final(channel).kept(),
            old(out)@,
            final(out)@,
            res,
        ),
        res matches Ok(answer) ==> answer == ChannelPropose::Signing,
        res is Err ==> *final(channel) == *old(channel) && final(out)@ == old(out)@,
{
    match plan_accepted(event, &*channel) {
        Ok(pending) => Ok(take(pending, channel, out, Ghost(ChannelPropose::Accepted), Ghost(event))),
        Err(e) => {
            proof {
                lemma_refused::<ChannelPropose>(ChannelPropose::Accepted, event, channel@, channel.kept(), out@, e);
            }
            Err(e)
        },
    }
}

/// Completes the `Signing` stage on the refund PSBT that came back from the
/// signer: the funder's signature is taken from the PSBT, the channel takes
/// its permanent id, and three effects are emitted in this order: the
/// daemon registers under the permanent id, greets the broker so that the
/// routing of the bus follows, and sends `funding_created` to the remote
/// peer.
pub fn complete_signing(event: Event, channel: &mut Channel, out: &mut Outbox) -> (res: Result<
    ChannelPropose,
    ProposalError,
>)
    ensures
        completed(
            ChannelPropose::Signing,
            event,
            old(channel)@,
            old(channel).kept(),
            final(channel)@,
            final(channel).kept(),
            old(out)@,
            final(out)@,
            res,
        ),
        res matches Ok(answer) ==> answer == ChannelPropose::Funding,
        res is Err ==> *final(channel) == *old(channel) && final(out)@ == old(out)@,
{
    match plan_signing(event, &*channel) {
        Ok(pending) => Ok(take(pending, channel, out, Ghost(ChannelPropose::Signing), Ghost(event))),
        Err(e) => {
            proof {
                lemma_refused::<ChannelPropose>(ChannelPropose::Signing, event, channel@, channel.kept(), out@, e);
            }
            Err(e)
        },
    }
}

/// Completes the `Funding` stage on the `funding_signed` of the remote peer:
/// the channel absorbs the signature, and the broker is asked to publish the
/// funding transaction.
pub fn complete_funding(event: Event, channel: &mut Channel, out: &mut Outbox) -> (res: Result<
    ChannelPropose,
    ProposalError,
>)
    ensures
        completed(
            ChannelPropose::Funding,
            event,
            old(channel)@,
            old(channel).kept(),
            final(channel)@,
            final(channel).kept(),
            old(out)@,
            final(out)@,
            res,
        ),
        res matches Ok(answer) ==> answer == ChannelPropose::Signed,
        res is Err ==> *final(channel) == *old(channel) && final(out)@ == old(out)@,
{
    match plan_funding(event, &*channel) {
        Ok(pending) => Ok(take(pending, channel, out, Ghost(ChannelPropose::Funding), Ghost(event))),
        Err(e) => {
            proof {
                lemma_refused::<ChannelPropose>(ChannelPropose::Funding, event, channel@, channel.kept(), out@, e);
            }
            Err(e)
        },
    }
}

/// Completes the `Signed` stage on the word that the funding transaction was
/// published: the chain watcher is asked to track it.
pub fn complete_signed(event: Event, channel: &mut Channel, out: &mut Outbox) -> (res: Result<
    ChannelPropose,
    ProposalError,
>)
    ensures
        completed(
            ChannelPropose::Signed,
            event,
            old(channel)@,
            old(channel).kept(),
            final(channel)@,
            final(channel).kept(),
            old(out)@,
            final(out)@,
            res,
        ),
        res matches Ok(answer) ==> answer == ChannelPropose::Funded,
        res is Err ==> *final(channel) == *old(channel) && final(out)@ == old(out)@,
{
    match plan_signed(event, &*channel) {
        Ok(pending) => Ok(take(pending, channel, out, Ghost(ChannelPropose::Signed), Ghost(event))),
        Err(e) => {
            proof {
                lemma_refused::<ChannelPropose>(ChannelPropose::Signed, event, channel@, channel.kept(), out@, e);
            }
            Err(e)
        },
    }
}

/// Completes the `Funded` stage, or stays in it.
///
/// The stage takes two events, in either order.  The word of the remote peer
/// that the channel is ready is absorbed, and the stage stays.  A depth of
/// the funding transaction is recorded; below the minimum depth the stage
/// stays; from the minimum depth on the remote peer is sent the local word
/// that the channel is ready, and the answer is `Locked`.  Where the remote
/// peer was first, both peers have then confirmed the lock: the channel is
/// operational at once, the broker is told to activate it before the remote
/// peer is sent the local word, and the workflow is complete.
pub fn complete_funded(event: Event, channel: &mut Channel, out: &mut Outbox) -> (res: Result<
    ChannelPropose,
    ProposalError,
>)
    ensures
        completed(
            ChannelPropose::Funded,
            event,
            old(channel)@,
            old(channel).kept(),
            final(channel)@,
            final(channel).kept(),
            old(out)@,
            final(out)@,
            res,
        ),
        res matches Ok(answer) ==> answer == (if final(channel)@.lifecycle == Lifecycle::Funded {
            ChannelPropose::Funded
        } else {
            ChannelPropose::Locked
        }),
        res is Err ==> *final(channel) == *old(channel) && final(out)@ == old(out)@,
{
    match plan_funded(event, &*channel) {
        Ok(pending) => Ok(take(pending, channel, out, Ghost(ChannelPropose::Funded), Ghost(event))),
        Err(e) => {
            proof {
                lemma_refused::<ChannelPropose>(ChannelPropose::Funded, event, channel@, channel.kept(), out@, e);
            }
            Err(e)
        },
    }
}

/// Completes the `Locked` stage, and with it the workflow, on the word of
/// the remote peer that the channel is ready: the channel absorbs it and is
/// operational, and the broker is told to activate it.
pub fn complete_locked(event: Event, channel: &mut Channel, out: &mut Outbox) -> (res: Result<
    (),
    ProposalError,
>)
    ensures
        completed(
            ChannelPropose::Locked,
            event,
            old(channel)@,
            old(channel).kept(),
            final(channel)@,
            final(channel).kept(),
            old(out)@,
            final(out)@,
            res,
        ),
        res is Err ==> *final(channel) == *old(channel) && final(out)@ == old(out)@,
{
    match plan_locked(event, &*channel) {
        Ok(pending) => {
            proof {
                lemma_taken(
                    ChannelPropose::Locked,
                    event,
                    channel@,
                    channel.kept(),
                    pending.record(),
                    pending.kept(),
                    out@,
                    pending.emits(),
                    pending.leads_to(),
                    (),
                );
            }
            take(pending, channel, out, Ghost(ChannelPropose::Locked), Ghost(event));
            Ok(())
        },
        Err(e) => {
            proof {
                lemma_refused::<()>(ChannelPropose::Locked, event, channel@, channel.kept(), out@, e);
            }
            Err(e)
        },
    }
}

/// What the proposal of a channel leaves behind.
///
/// A channel that has left the initial lifecycle is refused, then a channel
/// type with anchor outputs, then amounts that cannot be met, and nothing
/// else.  A refusal changes nothing.  On success the channel is proposed
/// with the amount and the minimum depth of the request and keeps its terms,
/// and the one effect is the `open_channel` that the engine composes on the
/// terms of the request, made on them under the temporary id and on the
/// chain of the channel.  The funding key of the record is the one of that
/// engine.
pub open spec fn initiate_contract<T>(
    request: OpenChannelWith,
    pre: ChannelState,
    held: Kept,
    post: ChannelState,
    kept: Kept,
    emitted: Seq<Effect>,
    res: Result<T, ProposalError>,
) -> bool {
    &&& pre.lifecycle != Lifecycle::Initial ==> (res matches Err(e) && e == ProposalError::Channel(
        ChannelError::LifecycleMismatch { current: pre.lifecycle, required: Lifecycle::Initial },
    ))
    &&& pre.lifecycle == Lifecycle::Initial
        && request.common_params.channel_type.spec_has_anchor_outputs() ==> (res matches Err(e)
        && e == ProposalError::Channel(ChannelError::UnsupportedChannelType))
    &&& pre.lifecycle == Lifecycle::Initial
        && !request.common_params.channel_type.spec_has_anchor_outputs()
        && !crate::channel::valid_funding(
        request.funding_sat,
        request.push_msat,
        request.common_params.feerate_per_kw,
    ) ==> (res matches Err(e) && e == ProposalError::Channel(
        ChannelError::InvalidFunding {
            funding_sat: request.funding_sat,
            push_msat: request.push_msat,
        },
    ))
    &&& pre.lifecycle == Lifecycle::Initial
        && !request.common_params.channel_type.spec_has_anchor_outputs()
        && crate::channel::valid_funding(
        request.funding_sat,
        request.push_msat,
        request.common_params.feerate_per_kw,
    ) ==> res is Ok
    &&& res is Err ==> post == pre && kept == held && emitted.len() == 0
    &&& (res is Ok ==> {
        &&& post == pre.proposed(
            request.funding_sat,
            request.common_params.minimum_depth,
            post.funding_pubkey,
        )
        &&& kept == (Kept { terms: request, ..held })
        &&& emitted.len() == 1
        &&& (emitted[0] matches Effect::Peer(LnMsg::OpenChannel(message)) && (composed(
            made(held.temp_channel_id@, held.chain_hash@, request),
            request,
        ) matches Some((composition, engine)) && message == composition && post.funding_pubkey@
            == engine_funding_key(engine)))
        &&& peer_kinds(emitted) == seq![LnKind::OpenChannel]
    })
    &&& pre.wf() ==> post.wf()
}

/// The contract of a proposal that was worked out.
pub open spec fn proposal_planned(
    request: OpenChannelWith,
    pre: ChannelState,
    held: Kept,
    res: Result<Pending, ProposalError>,
) -> bool {
    match res {
        Ok(pending) => initiate_contract(
            request,
            pre,
            held,
            pending.record(),
            pending.kept(),
            pending.emits(),
            res,
        ) && pending.leads_to() == Some(ChannelPropose::Proposed) && pending.answer()
            == ChannelPropose::Proposed,
        Err(_) => initiate_contract(request, pre, held, pre, held, Seq::empty(), res),
    }
}

impl ChannelPropose {
    /// Works out the proposal of a channel, and leaves the channel as it is:
    /// the proposal takes effect when it is settled.
    pub fn propose(channel: &Channel, request: OpenChannelWith) -> (res: Result<
        Pending,
        ProposalError,
    >)
        ensures
            proposal_planned(request, channel@, channel.kept(), res),
    {
        let (open_channel, change) = match channel.compose_open_channel(request) {
            Ok(composed) => composed,
            Err(e) => {
                return Err(ProposalError::Channel(e));
            },
        };
        let effects = one_effect(Effect::Peer(LnMsg::OpenChannel(open_channel)));
        Ok(
            Pending {
                answer: ChannelPropose::Proposed,
                next: Some(ChannelPropose::Proposed),
                change,
                effects,
            },
        )
    }

    /// Constructs channel proposal state machine
    pub fn with(channel: &mut Channel, out: &mut Outbox, request: OpenChannelWith) -> (res: Result<
        ChannelPropose,
        ProposalError,
    >)
        ensures
            old(out)@.len() <= final(out)@.len(),
            final(out)@.subrange(0, old(out)@.len() as int) == old(out)@,
            initiate_contract(
                request,
                old(channel)@,
                old(channel).kept(),
                final(channel)@,
                final(channel).kept(),
                emitted(old(out)@, final(out)@),
                res,
            ),
            res matches Ok(answer) ==> answer == ChannelPropose::Proposed,
            res is Err ==> *final(channel) == *old(channel) && final(out)@ == old(out)@,
    {
        let ghost before = out@;
        match Self::propose(&*channel, request) {
            Ok(pending) => {
                let ghost emits = pending.emits();
                let Pending { answer, next: _, change, effects } = pending;
                channel.apply(change);
                out.append(effects);
                proof {
                    assert(out@.subrange(0, before.len() as int) =~= before);
                    assert(emitted(before, out@) =~= emits);
                }
                Ok(answer)
            },
            Err(e) => {
                proof {
                    assert(out@.subrange(0, before.len() as int) =~= before);
                    assert(emitted(before, out@) =~= Seq::<Effect>::empty());
                }
                Err(e)
            },
        }
    }

    /// Works out the step on an event, and leaves the channel as it is: the
    /// step takes effect when it is settled.
    pub fn attempt(self, event: Event, channel: &Channel) -> (res: Result<Pending, ProposalError>)
        ensures
            planned(self, event, channel@, channel.kept(), res),
    {
        match self {
            ChannelPropose::Proposed => plan_proposed(event, channel),
            ChannelPropose::Accepted => plan_accepted(event, channel),
            ChannelPropose::Signing => plan_signing(event, channel),
            ChannelPropose::Funding => plan_funding(event, channel),
            ChannelPropose::Signed => plan_signed(event, channel),
            ChannelPropose::Funded => plan_funded(event, channel),
            ChannelPropose::Locked => plan_locked(event, channel),
        }
    }

    /// Advances the workflow by one event: answers the next stage, or `None`
    /// where the workflow is complete.
    pub fn next(self, event: Event, channel: &mut Channel, out: &mut Outbox) -> (res: Result<
        Option<ChannelPropose>,
        ProposalError,
    >)
        ensures
            old(out)@.len() <= final(out)@.len(),
            final(out)@.subrange(0, old(out)@.len() as int) == old(out)@,
            step_contract(
                self,
                event,
                old(channel)@,
                old(channel).kept(),
                final(channel)@,
                final(channel).kept(),
                emitted(old(out)@, final(out)@),
                res,
            ),
            res is Err ==> *final(channel) == *old(channel) && final(out)@ == old(out)@,
    {
        let state = match self {
            ChannelPropose::Proposed => complete_proposed(event, channel, out),
            ChannelPropose::Accepted => complete_accepted(event, channel, out),
            ChannelPropose::Signing => complete_signing(event, channel, out),
            ChannelPropose::Funding => complete_funding(event, channel, out),
            ChannelPropose::Signed => complete_signed(event, channel, out),
            ChannelPropose::Funded => complete_funded(event, channel, out),
            ChannelPropose::Locked => {
                return match complete_locked(event, channel, out) {
                    Ok(_) => Ok(None),
                    Err(e) => Err(e),
                };
            },
        };
        match state {
            Ok(stage) => if channel.lifecycle() == Lifecycle::Active {
                Ok(None)
            } else {
                Ok(Some(stage))
            },
            Err(e) => Err(e),
        }
    }

    /// Whether the stage expects the message.
    pub fn expects(&self, message: &BusMsg) -> (expected: bool)
        ensures
            expected == expects(*self, *message),
    {
        match self {
            ChannelPropose::Proposed => match message {
                BusMsg::Ln(LnMsg::AcceptChannel(_)) => true,
                _ => false,
            },
            ChannelPropose::Accepted => match message {
                BusMsg::Ctl(CtlMsg::FundingConstructed(_)) => true,
                _ => false,
            },
            ChannelPropose::Signing => match message {
                BusMsg::Ctl(CtlMsg::Signed(_)) => true,
                _ => false,
            },
            ChannelPropose::Funding => match message {
                BusMsg::Ln(LnMsg::FundingSigned(_)) => true,
                _ => false,
            },
            ChannelPropose::Signed => match message {
                BusMsg::Ctl(CtlMsg::FundingPublished) => true,
                _ => false,
            },
            ChannelPropose::Funded => match message {
                BusMsg::Ctl(CtlMsg::FundingMined(_)) => true,
                BusMsg::Ln(LnMsg::ChannelReady(_)) => true,
                _ => false,
            },
            ChannelPropose::Locked => match message {
                BusMsg::Ln(LnMsg::ChannelReady(_)) => true,
                _ => false,
            },
        }
    }
}

} // verus!
