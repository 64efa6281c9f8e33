//! What holds of every turn: laws of the transition table and of checkpoints.

use vstd::prelude::*;

use super::slots::{results_are_prefix, slot_edits_are_compatible};
use super::transition::{answers, permits, same_local_action, BatchView};
use super::validation::{binding, checked, first_checkpoint};
use super::{is_cache_operation_id, successor, TurnCheckpointView, TurnStateView};
use crate::clock::Timestamp;
use crate::content::{input_message, UserInputView};
use crate::error::RuntimeErrorView;
use crate::interaction::InteractionResponseView;
use crate::store::SessionSnapshotView;

verus! {

/// Nothing comes after a state that has crossed its terminal boundary.
pub proof fn terminal_states_are_final(from: TurnStateView, to: TurnStateView)
    requires
        from.is_over(),
        permits(from, to),
    ensures
        from == to,
{
}

/// No state leads into an accepted state: a turn is accepted once.
pub proof fn a_turn_is_accepted_once(from: TurnStateView, to: TurnStateView)
    requires
        to.is_initial(),
        permits(from, to),
    ensures
        from == to,
{
}

/// Every state at work may be completed with any result.
pub proof fn work_can_always_be_completed(from: TurnStateView, to: TurnStateView)
    requires
        from.is_working(),
        to is Completing,
    ensures
        permits(from, to),
{
}

/// A completing turn only finishes: the result and the visible output that it
/// is completed with are those that are published and committed.
pub proof fn a_completed_result_is_final(from: TurnStateView, to: TurnStateView)
    requires
        from.is_finishing(),
        permits(from, to),
    ensures
        to.is_finishing(),
        to.finishing_visibility() == from.finishing_visibility(),
        from matches TurnStateView::Completing { finish, .. } ==> {
            (to matches TurnStateView::Completing { finish: next, .. } ==> finish == next) && (
            to matches TurnStateView::PublishingTerminal { finish: next, .. } ==> finish == next)
        },
        from matches TurnStateView::PublishingTerminal { finish, .. } ==> {
            (to matches TurnStateView::PublishingTerminal { finish: next, .. } ==> finish == next)
                && (to matches TurnStateView::Terminal { finish: next, .. } ==> finish == next)
        },
{
}

/// A different payload within one state is permitted only for pending approval
/// edits, the growing committed-result prefix while tools execute, a renewed
/// preparation of a local action, and an interaction that gets its answer; nothing
/// else of the payload changes with it.
pub proof fn a_state_changes_within_itself_only_as_stated(from: TurnStateView, to: TurnStateView)
    requires
        permits(from, to),
        from != to,
    ensures
        !(from is Accepted && to is Accepted),
        !(from is InternalAccepted && to is InternalAccepted),
        !(from is LocalActionAccepted && to is LocalActionAccepted),
        !(from is LocalActionExecuting && to is LocalActionExecuting),
        !(from is LocalActionOutcomeReady && to is LocalActionOutcomeReady),
        !(from is LocalActionResultReady && to is LocalActionResultReady),
        !(from is Planning && to is Planning),
        !(from is CallingModel && to is CallingModel),
        !(from is ModelResponseReady && to is ModelResponseReady),
        !(from is ToolOutcomeReady && to is ToolOutcomeReady),
        !(from is PublishingTerminal && to is PublishingTerminal),
        !(from is Terminal && to is Terminal),
        !(from is CacheOperationPrepared && to is CacheOperationPrepared),
        !(from is CacheOperationStarted && to is CacheOperationStarted),
        !(from is CacheOperationResultReady && to is CacheOperationResultReady),
        !(from is CacheOperationTerminal && to is CacheOperationTerminal),
        !(from is Completing && to is Completing),
        from matches TurnStateView::AwaitingApproval { slots, .. } ==> (
        to matches TurnStateView::AwaitingApproval { slots: next_slots, .. } ==> {
            &&& slot_edits_are_compatible(slots, next_slots)
            &&& to.batch() == Some(BatchView { slots: next_slots, ..from.batch()->0 })
        }),
        from is ExecutingTools && to is ExecutingTools ==> {
            &&& from.batch() == to.batch()
            &&& from.committed()->0.is_prefix_of(to.committed()->0)
            &&& from.committed()->0.len() < to.committed()->0.len()
        },
        from is LocalActionPrepared && to is LocalActionPrepared ==> same_local_action(from, to),
        from matches TurnStateView::AwaitingInteraction { response, .. } ==> (
        to matches TurnStateView::AwaitingInteraction { request, response: answer, .. } ==> {
            &&& response is None
            &&& answers(answer, request)
            &&& to == with_answer(from, answer)
        }),
{
}

/// The state with another answer to its interaction.
pub open spec fn with_answer(
    state: TurnStateView,
    answer: Option<InteractionResponseView>,
) -> TurnStateView {
    match state {
        TurnStateView::AwaitingInteraction {
            request_id,
            source_calls,
            slots,
            completed,
            interaction_index,
            request,
            step,
            ..
        } => TurnStateView::AwaitingInteraction {
            request_id,
            source_calls,
            slots,
            completed,
            interaction_index,
            request,
            response: answer,
            step,
        },
        _ => state,
    }
}

/// The tool-loop step never goes back.
pub proof fn steps_never_go_back(from: TurnStateView, to: TurnStateView)
    requires
        permits(from, to),
        from.step() is Some,
        to.step() is Some,
    ensures
        from.step()->0 <= to.step()->0,
{
}

/// A local action that may have run is never prepared or accepted again, so it
/// is never run twice.
pub proof fn executing_actions_are_not_replayed(from: TurnStateView, to: TurnStateView)
    requires
        from is LocalActionExecuting || from is LocalActionOutcomeReady
            || from is LocalActionResultReady,
        permits(from, to),
    ensures
        !(to is LocalActionAccepted),
        !(to is LocalActionPrepared),
        to is LocalActionExecuting ==> from == to,
{
}

/// A local action keeps its request, call id, and tool name from acceptance to
/// its result.
pub proof fn a_local_action_keeps_its_identity(from: TurnStateView, to: TurnStateView)
    requires
        permits(from, to),
        from.local_action() is Some,
        to.local_action() is Some,
    ensures
        same_local_action(from, to),
{
}

/// A batch keeps its request, its calls, and its step while it is worked on.
pub proof fn a_batch_keeps_its_calls(from: TurnStateView, to: TurnStateView)
    requires
        permits(from, to),
        from.batch() is Some,
        to.batch() is Some,
    ensures
        from.batch()->0.request_id == to.batch()->0.request_id,
        from.batch()->0.source_calls == to.batch()->0.source_calls,
        from.batch()->0.step == to.batch()->0.step,
{
}

/// Once a batch executes, its slots do not change any more.
pub proof fn an_executing_batch_keeps_its_slots(from: TurnStateView, to: TurnStateView)
    requires
        permits(from, to),
        from.committed() is Some,
        to.batch() is Some,
    ensures
        from.batch() == to.batch(),
{
}

/// Committed results are never lost or reordered: those of the next state
/// begin with those of this one.
pub proof fn committed_results_only_grow(from: TurnStateView, to: TurnStateView)
    requires
        permits(from, to),
        from.committed() is Some,
        to.committed() is Some,
    ensures
        from.committed()->0.is_prefix_of(to.committed()->0),
{
    let (a, b) = (from.committed()->0, to.committed()->0);
    if a == b {
        assert(a =~= b.subrange(0, a.len() as int));
    }
}

/// Results that grow keep answering the source calls in order.
pub proof fn committed_results_stay_in_order(from: TurnStateView, to: TurnStateView)
    requires
        permits(from, to),
        from.committed() is Some,
        to.committed() is Some,
        results_are_prefix(from.batch()->0.source_calls, from.committed()->0),
    ensures
        results_are_prefix(to.batch()->0.source_calls, to.committed()->0),
{
}

/// The next planning step comes only after every call of the batch has its
/// result, in order.
pub proof fn a_step_ends_with_all_results(from: TurnStateView, to: TurnStateView)
    requires
        from.batch() is Some,
        to is Planning,
        permits(from, to),
    ensures
        from.committed() matches Some(completed) && completed.len()
            == from.batch()->0.source_calls.len() && results_are_prefix(
            from.batch()->0.source_calls,
            completed,
        ),
{
}

/// A provider call is made for a planned step only, and its response belongs
/// to the request that was called.
pub proof fn a_response_belongs_to_its_request(from: TurnStateView, to: TurnStateView)
    requires
        permits(from, to),
        to is ModelResponseReady,
        from != to,
    ensures
        from matches TurnStateView::CallingModel { request_id, .. } && to
            matches TurnStateView::ModelResponseReady { request_id: next, .. } && request_id
            == next,
{
}

/// A cache operation keeps its identity, lane, and fingerprint, and never goes
/// back over the provider-start barrier.
pub proof fn a_cache_operation_keeps_its_identity(from: TurnStateView, to: TurnStateView)
    requires
        permits(from, to),
        from.cache_operation() is Some,
    ensures
        to.cache_operation() is Some,
        to.cache_operation()->0.operation == from.cache_operation()->0.operation,
        to.cache_operation()->0.identity == from.cache_operation()->0.identity,
        to.cache_operation()->0.purpose == from.cache_operation()->0.purpose,
        to.cache_operation()->0.fingerprint == from.cache_operation()->0.fingerprint,
        !(from is CacheOperationPrepared) ==> !(to is CacheOperationPrepared),
{
}

/// A valid checkpoint's fingerprint is that of its operation: a checkpoint
/// whose state, boundary, input, or visible output was changed without the
/// fingerprint that goes with it is not valid.
pub proof fn a_valid_checkpoint_is_bound_to_its_operation(checkpoint: TurnCheckpointView)
    requires
        checkpoint.is_valid(),
    ensures
        checkpoint.operation_fingerprint == binding(
            checkpoint.state,
            checkpoint.active_history_start,
            checkpoint.internal_input,
            checkpoint.visible_output,
        ),
{
}

/// A valid checkpoint never holds a malformed cache operation or result.
pub proof fn a_valid_checkpoint_holds_no_malformed_cache_operation(checkpoint: TurnCheckpointView)
    requires
        checkpoint.is_valid(),
    ensures
        checkpoint.state.cache_operation() matches Some(operation) ==> {
            &&& operation.fault() is None
            &&& is_cache_operation_id(operation.operation)
        },
        checkpoint.state matches TurnStateView::CacheOperationResultReady { result, .. }
            ==> result.fault() is None,
        checkpoint.state matches TurnStateView::CacheOperationTerminal { result, .. }
            ==> result.fault() is None,
{
}

/// Reapplying a valid checkpoint's own state returns that checkpoint, whatever
/// the snapshot of the session, the event sequence, and the time.
pub proof fn reapplication_is_idempotent(
    checkpoint: TurnCheckpointView,
    snapshot: SessionSnapshotView,
    event_sequence: u64,
    updated: Timestamp,
)
    requires
        checkpoint.is_valid(),
        snapshot.id == checkpoint.session,
    ensures
        checkpoint.transitioned(
            checkpoint.state,
            snapshot,
            checkpoint.active_history_start,
            checkpoint.visible_output,
            event_sequence,
            updated,
        ) == Ok::<TurnCheckpointView, RuntimeErrorView>(checkpoint),
{
}

/// A transition that succeeds gives a valid checkpoint of the same turn, with
/// the same deadline, boundary, and input, and no less visible output.
pub proof fn a_transition_keeps_the_turn(
    checkpoint: TurnCheckpointView,
    next: TurnStateView,
    snapshot: SessionSnapshotView,
    active_history_start: usize,
    visible_output: bool,
    event_sequence: u64,
    updated: Timestamp,
)
    ensures
        checkpoint.transitioned(
            next,
            snapshot,
            active_history_start,
            visible_output,
            event_sequence,
            updated,
        ) matches Ok(after) ==> {
            &&& after.is_valid()
            &&& after.session == checkpoint.session
            &&& after.turn == checkpoint.turn
            &&& after.deadline == checkpoint.deadline
            &&& after.active_history_start == checkpoint.active_history_start
            &&& after.internal_input == checkpoint.internal_input
            &&& checkpoint.visible_output ==> after.visible_output
            &&& after.state == next
        },
{
}

/// What a transition to another state writes is accepted as the successor of
/// the checkpoint that it came from, as long as the event sequence does not go
/// back.
pub proof fn a_transition_gives_the_successor(
    checkpoint: TurnCheckpointView,
    next: TurnStateView,
    snapshot: SessionSnapshotView,
    active_history_start: usize,
    visible_output: bool,
    event_sequence: u64,
    updated: Timestamp,
)
    requires
        next != checkpoint.state,
        event_sequence >= checkpoint.watermark.event_sequence,
    ensures
        checkpoint.transitioned(
            next,
            snapshot,
            active_history_start,
            visible_output,
            event_sequence,
            updated,
        ) matches Ok(after) ==> checkpoint.successor_fault(after) is None,
{
}

/// A successor stays in its turn: identity, deadline, boundary, and input are
/// unchanged, the revision and the sequence advance by one, the event
/// watermark and the visible output never go back, and the table permits the
/// step.
pub proof fn a_successor_stays_in_its_turn(
    checkpoint: TurnCheckpointView,
    next: TurnCheckpointView,
)
    requires
        checkpoint.successor_fault(next) is None,
    ensures
        checkpoint.is_valid(),
        next.is_valid(),
        next.session == checkpoint.session,
        next.turn == checkpoint.turn,
        next.deadline == checkpoint.deadline,
        next.active_history_start == checkpoint.active_history_start,
        next.internal_input == checkpoint.internal_input,
        checkpoint.visible_output ==> next.visible_output,
        next.state_revision == successor(checkpoint.state_revision),
        next.watermark.checkpoint_sequence == successor(checkpoint.watermark.checkpoint_sequence),
        next.watermark.event_sequence >= checkpoint.watermark.event_sequence,
        permits(checkpoint.state, next.state),
{
}

/// A turn whose input is already the message of the history at its boundary is
/// accepted.
pub proof fn matching_input_is_accepted(
    turn: Seq<char>,
    input: UserInputView,
    snapshot: SessionSnapshotView,
    active_history_start: usize,
    deadline: Option<Timestamp>,
    checkpoint_sequence: u64,
    event_sequence: u64,
    updated: Timestamp,
)
    requires
        active_history_start < snapshot.history.len(),
        snapshot.history[active_history_start as int] == input_message(input),
        checkpoint_sequence > 0,
    ensures
        checked(
            first_checkpoint(
                turn,
                TurnStateView::Accepted { input },
                None,
                snapshot,
                active_history_start,
                deadline,
                checkpoint_sequence,
                event_sequence,
                updated,
            ),
        ) is Ok,
{
}

} // verus!
