//! Laws of the workflow: what holds of every step and of every run, proved
//! from the contracts of the transitions.

use crate::automaton::{expects, step_contract, step_done, step_peer_kinds, valid_step};
use crate::channel::{spec_funding_outpoint, Channel, ChannelState, Kept};
use crate::engine::{funding_script, psbt_txid};
use crate::error::{spec_delivery_error, ProposalError};
use crate::message::{BusMsg, CtlMsg, Effect, Event, LnMsg, ServiceId};
use crate::outbox::{peer_kinds, LnKind};
use crate::stage::{ChannelPropose, Lifecycle};
use vstd::prelude::*;

verus! {

/// An event that a stage does not expect is answered with the error that
/// names the message, the stage and the source, at every stage.
pub proof fn law_unexpected_message(
    stage: ChannelPropose,
    event: Event,
    pre: ChannelState,
    held: Kept,
    post: ChannelState,
    kept: Kept,
    emitted: Seq<Effect>,
    res: Result<Option<ChannelPropose>, ProposalError>,
)
    requires
        step_contract(stage, event, pre, held, post, kept, emitted, res),
        !expects(stage, event.message),
    ensures
        res == Err::<Option<ChannelPropose>, ProposalError>(
            ProposalError::UnexpectedMessage(event.message, stage.spec_lifecycle(), event.source),
        ),
        post == pre,
        kept == held,
        emitted.len() == 0,
{
}

/// A step that fails changes nothing: the record of the channel and what it
/// keeps are what they were, and nothing was emitted.
pub proof fn law_failure_changes_nothing(
    stage: ChannelPropose,
    event: Event,
    pre: ChannelState,
    held: Kept,
    post: ChannelState,
    kept: Kept,
    emitted: Seq<Effect>,
    res: Result<Option<ChannelPropose>, ProposalError>,
)
    requires
        step_contract(stage, event, pre, held, post, kept, emitted, res),
        res is Err,
    ensures
        post == pre,
        kept == held,
        emitted.len() == 0,
{
}

/// At every observable point the stage of the workflow and the lifecycle of
/// the channel agree: a step succeeds only from a channel at the lifecycle of
/// its stage, and leaves the channel at the lifecycle of the next stage, or
/// active where the workflow is complete.
pub proof fn law_stage_and_lifecycle_agree(
    stage: ChannelPropose,
    event: Event,
    pre: ChannelState,
    held: Kept,
    post: ChannelState,
    kept: Kept,
    emitted: Seq<Effect>,
    res: Result<Option<ChannelPropose>, ProposalError>,
)
    requires
        step_contract(stage, event, pre, held, post, kept, emitted, res),
        res is Ok,
    ensures
        pre.lifecycle == stage.spec_lifecycle(),
        res matches Ok(Some(next)) ==> post.lifecycle == next.spec_lifecycle(),
        res matches Ok(None) ==> post.lifecycle == Lifecycle::Active,
{
}

/// The channel changes the kind of its id once, in the step from `Signing`
/// to `Funding`: before that step the id is temporary, after it permanent,
/// and no step gives a channel with a permanent id another id.
pub proof fn law_identity_switches_once(
    stage: ChannelPropose,
    event: Event,
    pre: ChannelState,
    held: Kept,
    post: ChannelState,
    kept: Kept,
    emitted: Seq<Effect>,
    res: Result<Option<ChannelPropose>, ProposalError>,
)
    requires
        step_contract(stage, event, pre, held, post, kept, emitted, res),
        pre.wf(),
    ensures
        post.wf(),
        pre.active_channel_id is Static ==> post.active_channel_id == pre.active_channel_id,
        res is Ok && stage.rank() < ChannelPropose::Signing.rank() ==> post.active_channel_id
            is Temporary,
        res is Ok && stage.rank() >= ChannelPropose::Signing.rank() ==> post.active_channel_id
            is Static,
        res is Ok && stage != ChannelPropose::Signing ==> post.active_channel_id
            == pre.active_channel_id,
        res is Ok && stage == ChannelPropose::Signing ==> pre.active_channel_id is Temporary,
{
}

/// The funding output that the broker is asked to construct pays to the
/// script of the two funding keys: the local one, and the one that the
/// remote peer gave when it accepted the channel.
pub proof fn law_funding_pays_to_both_keys(
    accepted: Event,
    pre: ChannelState,
    post: ChannelState,
    emitted: Seq<Effect>,
)
    requires
        step_done(
            ChannelPropose::Proposed,
            accepted,
            pre,
            post,
            emitted,
            Some(ChannelPropose::Accepted),
        ),
    ensures
        emitted[0] matches Effect::Ctl(ServiceId::LnpBroker, CtlMsg::ConstructFunding(request)) && (
        post.remote_funding_pubkey matches Some(key) && funding_script(
            pre.funding_amount,
            pre.funding_pubkey@,
            key@,
        ) == Some(request.script_pubkey@)),
        Channel::spec_funding_script_pubkey(post) is Some,
{
}

/// The funding transaction id that `funding_created` carries is the id of
/// the transaction of the funding PSBT: what the step from `Accepted` took
/// from the PSBT is what the step from `Signing` sends, together with the
/// index of the output that the PSBT marks.
pub proof fn law_funding_txid_round_trip(
    constructed: Event,
    signed: Event,
    accepted: ChannelState,
    signing: ChannelState,
    funding: ChannelState,
    first: Seq<Effect>,
    second: Seq<Effect>,
)
    requires
        step_done(
            ChannelPropose::Accepted,
            constructed,
            accepted,
            signing,
            first,
            Some(ChannelPropose::Signing),
        ),
        step_done(
            ChannelPropose::Signing,
            signed,
            signing,
            funding,
            second,
            Some(ChannelPropose::Funding),
        ),
    ensures
        constructed.message matches BusMsg::Ctl(CtlMsg::FundingConstructed(psbt)) && (
        second[2] matches Effect::Peer(LnMsg::FundingCreated(message)) && psbt_txid(psbt.raw@)
            == Some(message.funding_txid@) && spec_funding_outpoint(psbt.raw@) == Ok::<
            (Seq<u8>, u16),
            crate::error::ChannelError,
        >((message.funding_txid@, message.funding_output_index))),
{
}

/// Where the bus refuses to register the channel under its permanent id,
/// the handshake fails with the error of the identity swap and
/// `funding_created` has not left: the registration is the first effect of
/// the step from `Signing`, and `funding_created` the last.
pub proof fn law_refused_identity_sends_nothing(
    signed: Event,
    pre: ChannelState,
    post: ChannelState,
    emitted: Seq<Effect>,
)
    requires
        step_done(
            ChannelPropose::Signing,
            signed,
            pre,
            post,
            emitted,
            Some(ChannelPropose::Funding),
        ),
    ensures
        spec_delivery_error(emitted[0]) == ProposalError::IdentitySwapFailed,
        emitted.len() == 3,
        emitted[2] matches Effect::Peer(LnMsg::FundingCreated(_)),
{
}

/// A step emits one peer message at most.
pub proof fn law_one_peer_message_per_step(stage: ChannelPropose, next: Option<ChannelPropose>)
    ensures
        step_peer_kinds(stage, next).len() <= 1,
{
}

/// The peer messages that a workflow at a stage has still to emit before it
/// is complete.
pub open spec fn remaining_peer_kinds(stage: ChannelPropose) -> Seq<LnKind> {
    match stage {
        ChannelPropose::Proposed | ChannelPropose::Accepted | ChannelPropose::Signing => seq![
            LnKind::FundingCreated,
            LnKind::ChannelReady,
        ],
        ChannelPropose::Funding | ChannelPropose::Signed | ChannelPropose::Funded => seq![
            LnKind::ChannelReady,
        ],
        ChannelPropose::Locked => Seq::empty(),
    }
}

/// The stage that follows the `i`-th stage of a run, or nothing behind the
/// last one.
pub open spec fn next_in_run(stages: Seq<ChannelPropose>, i: int) -> Option<ChannelPropose> {
    if i + 1 < stages.len() {
        Some(stages[i + 1])
    } else {
        None
    }
}

/// A successful run from the proposal to the end: it starts at `Proposed`,
/// every stage is followed by one that a valid step leads to, and the last
/// stage is one from which the workflow can end.
pub open spec fn valid_run(stages: Seq<ChannelPropose>) -> bool {
    &&& stages.len() > 0
    &&& stages[0] == ChannelPropose::Proposed
    &&& forall|i: int| 0 <= i < stages.len() ==> valid_step(stages[i], #[trigger] next_in_run(stages, i))
}

/// The emissions along a run record its steps: the peer messages among the
/// effects of every step are those of the step.
pub open spec fn run_emissions(stages: Seq<ChannelPropose>, emissions: Seq<Seq<Effect>>) -> bool {
    &&& emissions.len() == stages.len()
    &&& forall|i: int|
        0 <= i < stages.len() ==> peer_kinds(#[trigger] emissions[i]) == step_peer_kinds(
            stages[i],
            next_in_run(stages, i),
        )
}

/// The kinds of the peer messages among the effects of some steps, in their
/// order.
pub open spec fn run_peer_kinds(emissions: Seq<Seq<Effect>>) -> Seq<LnKind>
    decreases emissions.len(),
{
    if emissions.len() == 0 {
        Seq::empty()
    } else {
        run_peer_kinds(emissions.drop_last()) + peer_kinds(emissions.last())
    }
}

proof fn lemma_step_keeps_total(stage: ChannelPropose, next: Option<ChannelPropose>)
    requires
        valid_step(stage, next),
    ensures
        step_peer_kinds(stage, next) + (match next {
            Some(stage) => remaining_peer_kinds(stage),
            None => Seq::empty(),
        }) =~= remaining_peer_kinds(stage),
{
}

proof fn lemma_run_prefix(stages: Seq<ChannelPropose>, emissions: Seq<Seq<Effect>>, i: int)
    requires
        valid_run(stages),
        run_emissions(stages, emissions),
        0 <= i <= stages.len(),
    ensures
        run_peer_kinds(emissions.subrange(0, i)) + (if i < stages.len() {
            remaining_peer_kinds(stages[i])
        } else {
            Seq::empty()
        }) =~= seq![LnKind::FundingCreated, LnKind::ChannelReady],
    decreases i,
{
    if i > 0 {
        lemma_run_prefix(stages, emissions, i - 1);
        let next = next_in_run(stages, i - 1);
        assert(valid_step(stages[i - 1], next));
        lemma_step_keeps_total(stages[i - 1], next);
        let prefix = emissions.subrange(0, i);
        assert(prefix.drop_last() =~= emissions.subrange(0, i - 1));
        assert(prefix.last() == emissions[i - 1]);
        assert(peer_kinds(emissions[i - 1]) == step_peer_kinds(stages[i - 1], next));
    }
}

/// Over every successful run, from the proposal, which emits `open_channel`,
/// to the end, the peer messages emitted are `open_channel`,
/// `funding_created` and `channel_ready`, in this order and no others.
pub proof fn law_peer_messages_of_run(stages: Seq<ChannelPropose>, emissions: Seq<Seq<Effect>>)
    requires
        valid_run(stages),
        run_emissions(stages, emissions),
    ensures
        seq![LnKind::OpenChannel] + run_peer_kinds(emissions) == seq![
            LnKind::OpenChannel,
            LnKind::FundingCreated,
            LnKind::ChannelReady,
        ],
{
    lemma_run_prefix(stages, emissions, stages.len() as int);
    assert(emissions.subrange(0, stages.len() as int) =~= emissions);
    assert(seq![LnKind::OpenChannel] + run_peer_kinds(emissions) =~= seq![
        LnKind::OpenChannel,
        LnKind::FundingCreated,
        LnKind::ChannelReady,
    ]);
}

} // verus!
