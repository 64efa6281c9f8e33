//! What the operations on checkpoints give back, call by call.

use vstd::prelude::*;

use super::recovery::{
    a_cache_operation_is_bounded_and_digested, a_cache_result_gives_the_reasons_of_its_outcome,
    a_checkpoint_is_valid_exactly_when_recoverable, a_local_action_is_accepted_at_the_end,
    a_successor_is_the_next_checkpoint_of_the_turn, a_transition_takes_the_step_or_stays,
    a_turn_is_accepted_at_its_own_message, an_internal_turn_is_accepted_with_its_input, are_metrics,
    is_a_digest, is_first_of, is_next_number, is_recoverable, lemma_names, may_be_asked_for,
    names_an_operation, takes_the_step,
};
use super::steps::{
    an_approval_decides_slot_by_slot, any_choice_of_an_approval_may_execute, is_result_of,
    is_sound_batch,
};
use super::transition::permits;
use super::{
    CacheOperationCheckpoint, CacheOperationResultCheckpoint, CheckpointWatermark,
    ToolSlotCheckpoint, ToolSlotCheckpointView, TurnCheckpoint, TurnState, TurnStateView,
};
use crate::clock::{Deadline, Timestamp};
use crate::content::{InternalTurnInput, Role, ToolCall, UserInput};
use crate::error::RuntimeError;
use crate::event::CacheOperationOutcome;
use crate::ids::{CacheOperationId, RequestId, ToolCallId, TurnId};
use crate::provider::ProviderAttemptPurpose;
use crate::store::SessionSnapshot;

verus! {

/// A batch that awaits approval, and whose slots are those of its calls, may execute with
/// nothing completed for every choice per slot of keeping what is there or putting a result
/// of the call in place of a prepared action.
pub proof fn an_approved_batch_may_execute(from: TurnState, to: TurnState, allowed: bool)
    requires
        call_ensures(TurnState::can_transition_to, (&from, &to), allowed),
        from@ is AwaitingApproval,
        to@ is ExecutingTools,
        is_sound_batch(
            from@->AwaitingApproval_source_calls,
            from@->AwaitingApproval_slots,
        ),
    ensures
        ({
            let (calls, slots) = (
                from@->AwaitingApproval_source_calls,
                from@->AwaitingApproval_slots,
            );
            let chosen = to@->ExecutingTools_slots;
            let is_chosen = chosen.len() == slots.len() && forall|i: int|
                0 <= i < slots.len() ==> {
                    ||| #[trigger] chosen[i] == slots[i]
                    ||| {
                        &&& slots[i] is Prepared
                        &&& chosen[i] matches ToolSlotCheckpointView::CanonicalResult(result)
                            && is_result_of(result, calls[i])
                    }
                };
            allowed <==> {
                &&& to@->ExecutingTools_request_id == from@->AwaitingApproval_request_id
                &&& to@->ExecutingTools_source_calls == calls
                &&& to@->ExecutingTools_step == from@->AwaitingApproval_step
                &&& to@->ExecutingTools_completed.len() == 0
                &&& is_chosen
            }
        }),
{
    let (request, calls, slots, step) = (
        from@->AwaitingApproval_request_id,
        from@->AwaitingApproval_source_calls,
        from@->AwaitingApproval_slots,
        from@->AwaitingApproval_step,
    );
    let chosen = to@->ExecutingTools_slots;
    an_approval_decides_slot_by_slot(
        request,
        calls,
        slots,
        step,
        to@->ExecutingTools_request_id,
        to@->ExecutingTools_source_calls,
        chosen,
        to@->ExecutingTools_completed,
        to@->ExecutingTools_step,
    );
    let is_chosen = chosen.len() == slots.len() && forall|i: int|
        0 <= i < slots.len() ==> {
            ||| #[trigger] chosen[i] == slots[i]
            ||| {
                &&& slots[i] is Prepared
                &&& chosen[i] matches ToolSlotCheckpointView::CanonicalResult(result)
                    && is_result_of(result, calls[i])
            }
        };
    if is_chosen {
        any_choice_of_an_approval_may_execute(request, calls, slots, step, chosen);
        assert(to@->ExecutingTools_completed.len() == 0 ==> to@->ExecutingTools_completed
            =~= Seq::empty());
    }
    if allowed {
        assert forall|i: int| 0 <= i < slots.len() implies {
            ||| #[trigger] chosen[i] == slots[i]
            ||| {
                &&& slots[i] is Prepared
                &&& chosen[i] matches ToolSlotCheckpointView::CanonicalResult(result)
                    && is_result_of(result, calls[i])
            }
        } by {
            assert(super::steps::is_decided_slot(slots[i], chosen[i]));
            assert(super::steps::is_slot_of(slots[i], calls[i]));
        }
    }
}

/// A state may go on to another exactly when the step is permitted.
pub proof fn a_state_goes_on_as_permitted(from: TurnState, to: TurnState, allowed: bool)
    requires
        call_ensures(TurnState::can_transition_to, (&from, &to), allowed),
    ensures
        allowed <==> permits(from@, to@),
        from@ == to@ ==> allowed,
{
}

/// A state is over exactly when the turn or the cache operation has come to its end; and
/// exactly then nothing but itself may follow.
pub proof fn a_state_is_over_at_its_end(state: TurnState, over: bool)
    requires
        call_ensures(TurnState::is_terminal, (&state,), over),
    ensures
        over <==> state@ is Terminal || state@ is CacheOperationTerminal,
{
}

/// A checkpoint is valid exactly when it can be recovered from.
pub proof fn validating_finds_what_can_be_recovered(
    checkpoint: TurnCheckpoint,
    r: Result<(), RuntimeError>,
)
    requires
        call_ensures(TurnCheckpoint::validate, (&checkpoint,), r),
    ensures
        r is Ok <==> is_recoverable(checkpoint@),
{
    a_checkpoint_is_valid_exactly_when_recoverable(checkpoint@);
}

/// A checkpoint is accepted as a successor exactly when it is the next one of the turn.
pub proof fn validating_a_successor_finds_the_next(
    checkpoint: TurnCheckpoint,
    next: TurnCheckpoint,
    r: Result<(), RuntimeError>,
)
    requires
        call_ensures(TurnCheckpoint::validate_successor, (&checkpoint, &next), r),
    ensures
        r is Ok <==> {
            let (c, n) = (checkpoint@, next@);
            &&& is_recoverable(c)
            &&& is_recoverable(n)
            &&& c.session == n.session
            &&& c.turn == n.turn
            &&& c.deadline == n.deadline
            &&& c.active_history_start == n.active_history_start
            &&& c.internal_input == n.internal_input
            &&& c.visible_output ==> n.visible_output
            &&& is_next_number(c.state_revision, n.state_revision)
            &&& is_next_number(c.watermark.checkpoint_sequence, n.watermark.checkpoint_sequence)
            &&& c.watermark.event_sequence <= n.watermark.event_sequence
            &&& permits(c.state, n.state)
        },
{
    a_successor_is_the_next_checkpoint_of_the_turn(checkpoint@, next@);
}

/// A transition with progress gives the checkpoint that takes the step, or the checkpoint
/// itself where it stays, and nothing else; and it does not where the step may not be asked
/// for or is not permitted.
pub proof fn advancing_takes_the_step(
    checkpoint: TurnCheckpoint,
    next: TurnState,
    snapshot: SessionSnapshot,
    active_history_start: usize,
    visible_output: bool,
    event_sequence: u64,
    updated: Timestamp,
    r: Result<TurnCheckpoint, RuntimeError>,
)
    requires
        call_ensures(
            TurnCheckpoint::transition_with_progress,
            (
                &checkpoint,
                next,
                snapshot,
                active_history_start,
                visible_output,
                event_sequence,
                updated,
            ),
            r,
        ),
    ensures
        ({
            let c = checkpoint@;
            let asked = may_be_asked_for(
                c,
                next@,
                snapshot@,
                active_history_start,
                visible_output,
            );
            let stays = next@ == c.state && visible_output == c.visible_output;
            &&& r is Ok ==> asked && permits(c.state, next@)
            &&& asked && stays ==> (r matches Ok(given) && given@ == c)
            &&& r matches Ok(given) ==> {
                &&& is_recoverable(given@)
                &&& !stays ==> takes_the_step(
                    c,
                    given@,
                    next@,
                    snapshot@,
                    visible_output,
                    event_sequence,
                    updated,
                )
            }
        }),
{
    a_transition_takes_the_step_or_stays(
        checkpoint@,
        next@,
        snapshot@,
        active_history_start,
        visible_output,
        event_sequence,
        updated,
    );
}

/// A plain transition keeps the boundary and the visible output as they are.
pub proof fn a_plain_transition_keeps_the_progress(
    checkpoint: TurnCheckpoint,
    next: TurnState,
    snapshot: SessionSnapshot,
    event_sequence: u64,
    updated: Timestamp,
    r: Result<TurnCheckpoint, RuntimeError>,
)
    requires
        call_ensures(
            TurnCheckpoint::transition,
            (&checkpoint, next, snapshot, event_sequence, updated),
            r,
        ),
    ensures
        r matches Ok(given) ==> {
            &&& given@.active_history_start == checkpoint@.active_history_start
            &&& given@.visible_output == checkpoint@.visible_output
            &&& given@.state == next@
            &&& permits(checkpoint@.state, next@)
            &&& next@ == checkpoint@.state ==> given@ == checkpoint@
            &&& next@ != checkpoint@.state ==> takes_the_step(
                checkpoint@,
                given@,
                next@,
                snapshot@,
                checkpoint@.visible_output,
                event_sequence,
                updated,
            )
        },
{
    a_transition_takes_the_step_or_stays(
        checkpoint@,
        next@,
        snapshot@,
        checkpoint@.active_history_start,
        checkpoint@.visible_output,
        event_sequence,
        updated,
    );
}

/// A turn is accepted exactly when the message at its boundary is the input.
pub proof fn accepting_needs_the_message_of_the_input(
    turn: TurnId,
    input: UserInput,
    snapshot: SessionSnapshot,
    active_history_start: usize,
    deadline: Deadline,
    checkpoint_sequence: u64,
    event_sequence: u64,
    updated: Timestamp,
    r: Result<TurnCheckpoint, RuntimeError>,
)
    requires
        call_ensures(
            TurnCheckpoint::accepted,
            (
                turn,
                input,
                snapshot,
                active_history_start,
                deadline,
                checkpoint_sequence,
                event_sequence,
                updated,
            ),
            r,
        ),
    ensures
        ({
            let (history, at) = (snapshot@.history, active_history_start as int);
            r is Ok <==> {
                &&& checkpoint_sequence >= 1
                &&& at < history.len()
                &&& history[at].role == Role::User
                &&& history[at].content == input@.parts
            }
        }),
        r matches Ok(c) ==> is_first_of(
            c@,
            turn@,
            (TurnStateView::Accepted { input: input@ }),
            None,
            snapshot@,
            active_history_start,
            deadline@,
            checkpoint_sequence,
            event_sequence,
            updated,
        ),
{
    a_turn_is_accepted_at_its_own_message(
        turn@,
        input@,
        snapshot@,
        active_history_start,
        deadline@,
        checkpoint_sequence,
        event_sequence,
        updated,
    );
}

/// An internal turn is accepted exactly when its input has no defect and its boundary lies
/// in the history.
pub proof fn accepting_an_internal_turn_needs_a_sound_input(
    turn: TurnId,
    input: InternalTurnInput,
    snapshot: SessionSnapshot,
    active_history_start: usize,
    deadline: Deadline,
    checkpoint_sequence: u64,
    event_sequence: u64,
    updated: Timestamp,
    r: Result<TurnCheckpoint, RuntimeError>,
)
    requires
        call_ensures(
            TurnCheckpoint::internal_accepted,
            (
                turn,
                input,
                snapshot,
                active_history_start,
                deadline,
                checkpoint_sequence,
                event_sequence,
                updated,
            ),
            r,
        ),
    ensures
        r is Ok <==> {
            &&& input@.defect is None
            &&& checkpoint_sequence >= 1
            &&& active_history_start <= snapshot@.history.len()
        },
        r matches Ok(c) ==> is_first_of(
            c@,
            turn@,
            (TurnStateView::InternalAccepted { input: input@ }),
            Some(input@),
            snapshot@,
            active_history_start,
            deadline@,
            checkpoint_sequence,
            event_sequence,
            updated,
        ),
{
    an_internal_turn_is_accepted_with_its_input(
        turn@,
        input@,
        snapshot@,
        active_history_start,
        deadline@,
        checkpoint_sequence,
        event_sequence,
        updated,
    );
}

/// A local action is accepted at the end of the history.
pub proof fn accepting_a_local_action_stands_at_the_end(
    turn: TurnId,
    request_id: RequestId,
    call: ToolCall,
    snapshot: SessionSnapshot,
    deadline: Deadline,
    checkpoint_sequence: u64,
    event_sequence: u64,
    updated: Timestamp,
    r: Result<TurnCheckpoint, RuntimeError>,
)
    requires
        snapshot@.history.len() <= usize::MAX,
        call_ensures(
            TurnCheckpoint::local_action,
            (
                turn,
                request_id,
                call,
                snapshot,
                deadline,
                checkpoint_sequence,
                event_sequence,
                updated,
            ),
            r,
        ),
    ensures
        r is Ok <==> checkpoint_sequence >= 1,
        r matches Ok(c) ==> is_first_of(
            c@,
            turn@,
            (TurnStateView::LocalActionAccepted { request_id: request_id@, call: call@ }),
            None,
            snapshot@,
            snapshot@.history.len() as usize,
            deadline@,
            checkpoint_sequence,
            event_sequence,
            updated,
        ),
{
    a_local_action_is_accepted_at_the_end(
        turn@,
        request_id@,
        call@,
        snapshot@,
        deadline@,
        checkpoint_sequence,
        event_sequence,
        updated,
    );
}

/// The journal is cut off at the watermark before recovery, unless all is over.
pub proof fn truncation_stands_at_the_watermark(checkpoint: TurnCheckpoint, r: Option<u64>)
    requires
        call_ensures(TurnCheckpoint::journal_truncation_sequence, (&checkpoint,), r),
    ensures
        ({
            let state = checkpoint@.state;
            if state is Terminal || state is CacheOperationTerminal {
                r is None
            } else {
                r == Some(checkpoint@.watermark.event_sequence)
            }
        }),
{
}

/// A watermark that is scoped to a turn and advanced keeps the turn, is numbered one higher,
/// and stands at the given event.
pub proof fn a_watermark_is_scoped_and_goes_on(
    checkpoint_sequence: u64,
    event_sequence: u64,
    turn: TurnId,
    next_event: u64,
    made: CheckpointWatermark,
    scoped: CheckpointWatermark,
    advanced: CheckpointWatermark,
)
    requires
        call_ensures(CheckpointWatermark::new, (checkpoint_sequence, event_sequence), made),
        call_ensures(CheckpointWatermark::scoped_to, (made, turn), scoped),
        call_ensures(CheckpointWatermark::next, (scoped, next_event), advanced),
    ensures
        made@.checkpoint_sequence == checkpoint_sequence,
        made@.event_sequence == event_sequence,
        made@.journal_turn is None,
        scoped@.checkpoint_sequence == checkpoint_sequence,
        scoped@.event_sequence == event_sequence,
        scoped@.journal_turn == Some(turn@),
        is_next_number(checkpoint_sequence, advanced@.checkpoint_sequence),
        advanced@.event_sequence == next_event,
        advanced@.journal_turn == Some(turn@),
{
}

/// A slot is of the call whose id and tool it was prepared for, or whose result it holds.
pub proof fn a_slot_is_named_by_what_it_holds(
    slot: ToolSlotCheckpoint,
    id: &ToolCallId,
    tool: &str,
)
    requires
        call_ensures(ToolSlotCheckpoint::call_id, (&slot,), id),
        call_ensures(ToolSlotCheckpoint::tool_name, (&slot,), tool),
    ensures
        match slot@ {
            ToolSlotCheckpointView::Prepared(prepared) => id@ == prepared.call_id && tool@
                == prepared.tool,
            ToolSlotCheckpointView::CanonicalResult(result) => id@ == result.call_id && tool@
                == result.name,
        },
{
}

/// The id of a cache operation is valid exactly when it is bounded and of plain characters.
pub proof fn validating_an_operation_id_bounds_it(
    operation: CacheOperationId,
    r: Result<(), RuntimeError>,
)
    requires
        call_ensures(super::validate_cache_operation_id, (&operation,), r),
    ensures
        r is Ok <==> names_an_operation(operation@),
{
    lemma_names(operation@);
}

/// A cache operation is valid exactly when its identity has no defect, its id is bounded, its
/// fingerprint is a digest, and it is not of the ordinary lane.
pub proof fn validating_a_cache_operation_bounds_it(
    operation: CacheOperationCheckpoint,
    r: Result<(), RuntimeError>,
)
    requires
        call_ensures(CacheOperationCheckpoint::validate, (&operation,), r),
    ensures
        r is Ok <==> {
            &&& operation@.identity.defect is None
            &&& names_an_operation(operation@.operation)
            &&& is_a_digest(operation@.fingerprint)
            &&& operation@.purpose != ProviderAttemptPurpose::Ordinary
        },
{
    a_cache_operation_is_bounded_and_digested(operation@);
}

/// The result of a cache operation is valid exactly when its metrics are bounded, its evidence
/// has no defect, and its reasons go with its outcome.
pub proof fn validating_a_cache_result_bounds_it(
    result: CacheOperationResultCheckpoint,
    r: Result<(), RuntimeError>,
)
    requires
        call_ensures(CacheOperationResultCheckpoint::validate, (&result,), r),
    ensures
        r is Ok <==> {
            let rejected = result@.outcome == CacheOperationOutcome::Rejected;
            &&& are_metrics(result@.metrics)
            &&& rejected <==> result@.rejection_reason is Some
            &&& rejected ==> result@.terminal_reason is None
            &&& result@.evidence matches Some(evidence) ==> evidence.defect is None
        },
{
    a_cache_result_gives_the_reasons_of_its_outcome(result@);
}

} // verus!
