//! What makes a checkpoint one to recover from, and what its successors keep.

use vstd::prelude::*;
use vstd::utf8::encode_utf8;

use super::steps::{
    are_first_results, asks_for_the_next_call, is_preparation_of, is_result_of, is_sound_batch,
    lemma_next_call, lemma_vocabulary,
};
use super::transition::permits;
use super::validation::{binding, checked, first_checkpoint, first_internal};
use super::{
    CacheOperationCheckpointView, CacheOperationResultCheckpointView, CheckpointWatermarkView,
    TurnCheckpointView, TurnStateView,
};
use crate::clock::Timestamp;
use crate::content::{InternalTurnInputView, Role, ToolCallView, UserInputView};
use crate::error::{ErrorKind, RuntimeErrorView};
use crate::event::CacheOperationOutcome;
use crate::provider::ProviderAttemptPurpose;
use crate::store::SessionSnapshotView;
use crate::text::{decimal, in_class, ByteClass};

verus! {

/// Whether the byte is a lower-case letter or a digit.
pub open spec fn is_lower_or_digit(byte: u8) -> bool {
    0x61 <= byte <= 0x7a || 0x30 <= byte <= 0x39
}

/// Whether the text has from one to `most` bytes.
pub open spec fn has_bytes_up_to(text: Seq<char>, most: nat) -> bool {
    1 <= encode_utf8(text).len() <= most
}

/// Whether the text is the identity of a cache operation: up to 256 bytes of letters,
/// digits, dots, underscores, colons, and hyphens.
pub open spec fn names_an_operation(text: Seq<char>) -> bool {
    &&& has_bytes_up_to(text, 256)
    &&& forall|i: int|
        0 <= i < encode_utf8(text).len() ==> {
            let byte = #[trigger] encode_utf8(text)[i];
            ||| is_lower_or_digit(byte)
            ||| 0x41 <= byte <= 0x5a
            ||| byte == 0x2e
            ||| byte == 0x5f
            ||| byte == 0x3a
            ||| byte == 0x2d
        }
}

/// Whether the text is a digest: 64 lower-case hexadecimal digits.
pub open spec fn is_a_digest(text: Seq<char>) -> bool {
    &&& encode_utf8(text).len() == 64
    &&& forall|i: int|
        0 <= i < encode_utf8(text).len() ==> {
            let byte = #[trigger] encode_utf8(text)[i];
            0x61 <= byte <= 0x66 || 0x30 <= byte <= 0x39
        }
}

/// Whether the text names a metric: up to 128 bytes of lower-case letters, digits, and
/// underscores.
pub open spec fn names_a_metric(text: Seq<char>) -> bool {
    &&& has_bytes_up_to(text, 128)
    &&& forall|i: int|
        0 <= i < encode_utf8(text).len() ==> {
            let byte = #[trigger] encode_utf8(text)[i];
            is_lower_or_digit(byte) || byte == 0x5f
        }
}

pub proof fn lemma_names(text: Seq<char>)
    ensures
        super::is_cache_operation_id(text) <==> names_an_operation(text),
        super::is_metric_key(text) <==> names_a_metric(text),
        encode_utf8(text).len() == 64 && crate::text::all_of_class(ByteClass::LowerHex, text)
            <==> is_a_digest(text),
{
    if super::is_cache_operation_id(text) {
        assert forall|i: int| 0 <= i < encode_utf8(text).len() implies {
            let byte = #[trigger] encode_utf8(text)[i];
            ||| is_lower_or_digit(byte)
            ||| 0x41 <= byte <= 0x5a
            ||| byte == 0x2e
            ||| byte == 0x5f
            ||| byte == 0x3a
            ||| byte == 0x2d
        } by {
            assert(in_class(ByteClass::Token, encode_utf8(text)[i]));
        }
    }
    if super::is_metric_key(text) {
        assert forall|i: int| 0 <= i < encode_utf8(text).len() implies {
            let byte = #[trigger] encode_utf8(text)[i];
            is_lower_or_digit(byte) || byte == 0x5f
        } by {
            assert(in_class(ByteClass::LowerSnake, encode_utf8(text)[i]));
        }
    }
    if crate::text::all_of_class(ByteClass::LowerHex, text) {
        assert forall|i: int| 0 <= i < encode_utf8(text).len() implies {
            let byte = #[trigger] encode_utf8(text)[i];
            0x61 <= byte <= 0x66 || 0x30 <= byte <= 0x39
        } by {
            assert(in_class(ByteClass::LowerHex, encode_utf8(text)[i]));
        }
    }
}

/// Whether the error is a plain conflict with that message.
pub open spec fn is_conflict(e: Option<RuntimeErrorView>, message: Seq<char>) -> bool {
    e matches Some(error) && error.kind == ErrorKind::Conflict && error.message == message
        && !error.retryable && error.metadata.len() == 0
}

/// A cache operation is well-formed exactly when its identity has no defect, its id is
/// bounded, its fingerprint is a digest, and it is not of the ordinary lane; a defect
/// is told in that order.
pub proof fn a_cache_operation_is_bounded_and_digested(operation: CacheOperationCheckpointView)
    ensures
        operation.fault() is None <==> {
            &&& operation.identity.defect is None
            &&& names_an_operation(operation.operation)
            &&& is_a_digest(operation.fingerprint)
            &&& operation.purpose != ProviderAttemptPurpose::Ordinary
        },
        operation.identity.defect matches Some(text) ==> is_conflict(operation.fault(), text),
        operation.identity.defect is None && !names_an_operation(operation.operation)
            ==> is_conflict(
            operation.fault(),
            "cache operation identity is empty, too long, or malformed"@,
        ),
        operation.identity.defect is None && names_an_operation(operation.operation)
            && !is_a_digest(operation.fingerprint) ==> is_conflict(
            operation.fault(),
            "cache checkpoint operation fingerprint is invalid"@,
        ),
{
    lemma_names(operation.operation);
    lemma_names(operation.fingerprint);
}

/// Whether there are up to 64 metrics, each with a name.
pub open spec fn are_metrics(metrics: Seq<(Seq<char>, u64)>) -> bool {
    &&& metrics.len() <= 64
    &&& forall|i: int| 0 <= i < metrics.len() ==> names_a_metric((#[trigger] metrics[i]).0)
}

proof fn lemma_metrics(metrics: Seq<(Seq<char>, u64)>)
    ensures
        super::metrics_are_bounded(metrics) <==> are_metrics(metrics),
{
    assert forall|i: int| 0 <= i < metrics.len() implies (super::is_metric_key(
        (#[trigger] metrics[i]).0,
    ) <==> names_a_metric(metrics[i].0)) by {
        lemma_names(metrics[i].0);
    }
}

/// The result of a cache operation is well-formed exactly when its metrics are bounded,
/// its evidence has no defect, and a rejection, and nothing else, has a reason for
/// being rejected, and no other reason.
pub proof fn a_cache_result_gives_the_reasons_of_its_outcome(
    result: CacheOperationResultCheckpointView,
)
    ensures
        result.fault() is None <==> {
            &&& are_metrics(result.metrics)
            &&& result.outcome == CacheOperationOutcome::Rejected <==> result.rejection_reason
                is Some
            &&& result.outcome == CacheOperationOutcome::Rejected ==> result.terminal_reason
                is None
            &&& result.evidence matches Some(evidence) ==> evidence.defect is None
        },
        !are_metrics(result.metrics) ==> is_conflict(
            result.fault(),
            "cache checkpoint metrics exceed bounded limits"@,
        ),
        are_metrics(result.metrics) && result.outcome == CacheOperationOutcome::Rejected && (
        result.rejection_reason is None || result.terminal_reason is Some) ==> is_conflict(
            result.fault(),
            "rejected cache checkpoint has invalid terminal reasons"@,
        ),
        are_metrics(result.metrics) && result.outcome != CacheOperationOutcome::Rejected
            && result.rejection_reason is Some ==> is_conflict(
            result.fault(),
            "admitted cache checkpoint cannot carry a rejection reason"@,
        ),
{
    lemma_metrics(result.metrics);
}

/// Whether the state is one that a turn begins with.
pub open spec fn is_a_beginning(state: TurnStateView) -> bool {
    state is Accepted || state is InternalAccepted || state is LocalActionAccepted
}

/// Whether the state is one of a local action.
pub open spec fn is_of_a_local_action(state: TurnStateView) -> bool {
    ||| state is LocalActionAccepted
    ||| state is LocalActionPrepared
    ||| state is LocalActionExecuting
    ||| state is LocalActionOutcomeReady
    ||| state is LocalActionResultReady
}

/// Whether the state is one of a turn that comes to its end.
pub open spec fn is_an_end(state: TurnStateView) -> bool {
    state is Completing || state is PublishingTerminal || state is Terminal
}

/// Whether the checkpoint is one of this schema, of its session, and numbered from one
/// on, with no revision only at its beginning.
pub open spec fn is_identified(c: TurnCheckpointView) -> bool {
    &&& c.schema_version == 3
    &&& c.transition_revision == 4
    &&& c.watermark.checkpoint_sequence >= 1
    &&& c.state_revision == 0 <==> is_a_beginning(c.state)
    &&& c.snapshot.id == c.session
}

/// Whether the internal input of the checkpoint goes with its state.
pub open spec fn has_its_input(c: TurnCheckpointView) -> bool {
    &&& c.internal_input matches Some(input) ==> input.defect is None
    &&& c.state matches TurnStateView::InternalAccepted { input } ==> c.internal_input == Some(
        input,
    )
    &&& c.state is Accepted || c.state is LocalActionAccepted ==> c.internal_input is None
}

/// Whether the history boundary of the checkpoint goes with its state: a local action
/// stands at the end of the history, an internal turn anywhere in it, and any other turn
/// at a message, which is the accepted input while that is what the state holds.
pub open spec fn has_its_boundary(c: TurnCheckpointView) -> bool {
    let end = c.snapshot.history.len();
    if c.internal_input is Some {
        c.active_history_start <= end
    } else if is_of_a_local_action(c.state) {
        c.active_history_start == end
    } else if is_an_end(c.state) {
        c.active_history_start <= end
    } else {
        &&& c.active_history_start < end
        &&& c.state matches TurnStateView::Accepted { input } ==> {
            let message = c.snapshot.history[c.active_history_start as int];
            message.role == Role::User && message.content == input.parts
        }
    }
}

/// Whether what the checkpoint says of its progress goes with its state.
pub open spec fn has_its_progress(c: TurnCheckpointView) -> bool {
    &&& c.state matches TurnStateView::LocalActionPrepared { call, prepared, .. }
        ==> is_preparation_of(prepared, call)
    &&& c.state matches TurnStateView::LocalActionExecuting { call, prepared, .. }
        ==> is_preparation_of(prepared, call)
    &&& c.state matches TurnStateView::LocalActionResultReady { call, result, .. }
        ==> is_result_of(result, call)
    &&& c.state matches TurnStateView::ModelResponseReady { response, .. } ==> (
    response.text.len() == 0 || c.visible_output)
    &&& c.state matches TurnStateView::Completing { visible_output, .. } ==> visible_output
        == c.visible_output
    &&& c.state matches TurnStateView::PublishingTerminal { visible_output, .. }
        ==> visible_output == c.visible_output
    &&& c.state matches TurnStateView::Terminal { visible_output, .. } ==> visible_output
        == c.visible_output
    &&& c.operation_fingerprint == binding(
        c.state,
        c.active_history_start,
        c.internal_input,
        c.visible_output,
    )
}

/// Whether the tool batch of the checkpoint is sound.
pub open spec fn has_a_sound_batch(c: TurnCheckpointView) -> bool {
    &&& c.state matches TurnStateView::AwaitingApproval { source_calls, slots, .. }
        ==> is_sound_batch(source_calls, slots)
    &&& c.state matches TurnStateView::ExecutingTools { source_calls, slots, completed, .. }
        ==> is_sound_batch(source_calls, slots) && are_first_results(completed, source_calls)
    &&& c.state matches TurnStateView::ToolOutcomeReady {
        source_calls,
        slots,
        completed,
        outcome_index,
        ..
    } ==> {
        &&& is_sound_batch(source_calls, slots)
        &&& are_first_results(completed, source_calls)
        &&& outcome_index == completed.len()
        &&& outcome_index < source_calls.len()
    }
    &&& c.state matches TurnStateView::AwaitingInteraction {
        source_calls,
        slots,
        completed,
        interaction_index,
        request,
        response,
        ..
    } ==> {
        &&& asks_for_the_next_call(request, source_calls, slots, completed, interaction_index)
        &&& request.origin.session == c.session
        &&& request.origin.turn == c.turn
        &&& response matches Some(answer) ==> answer.request == request.id && answer.defect
            is None
    }
}

/// Whether the cache operation of the checkpoint, and its result, are well-formed.
pub open spec fn has_a_sound_cache_operation(c: TurnCheckpointView) -> bool {
    &&& c.state matches TurnStateView::CacheOperationPrepared { operation } ==> operation.fault()
        is None
    &&& c.state matches TurnStateView::CacheOperationStarted { operation } ==> operation.fault()
        is None
    &&& c.state matches TurnStateView::CacheOperationResultReady { operation, result }
        ==> operation.fault() is None && result.fault() is None
    &&& c.state matches TurnStateView::CacheOperationTerminal { operation, result }
        ==> operation.fault() is None && result.fault() is None
}

/// Whether the checkpoint is one to recover from.
pub open spec fn is_recoverable(c: TurnCheckpointView) -> bool {
    &&& is_identified(c)
    &&& has_its_input(c)
    &&& has_its_boundary(c)
    &&& has_its_progress(c)
    &&& has_a_sound_batch(c)
    &&& has_a_sound_cache_operation(c)
}

proof fn lemma_batch_fault(c: TurnCheckpointView)
    ensures
        c.batch_fault() is None <==> has_a_sound_batch(c),
{
    match c.state {
        TurnStateView::AwaitingApproval { source_calls, slots, .. } => {
            lemma_vocabulary(source_calls, slots, Seq::empty(), Seq::empty());
        },
        TurnStateView::ExecutingTools { source_calls, slots, completed, .. } => {
            lemma_vocabulary(source_calls, slots, completed, completed);
        },
        TurnStateView::ToolOutcomeReady { source_calls, slots, completed, .. } => {
            lemma_vocabulary(source_calls, slots, completed, completed);
        },
        TurnStateView::AwaitingInteraction {
            source_calls,
            slots,
            completed,
            interaction_index,
            request,
            ..
        } => {
            lemma_next_call(request, source_calls, slots, completed, interaction_index);
        },
        _ => {},
    }
}

/// A checkpoint is valid exactly when it is one to recover from: of this schema and its
/// session, with the input, the history boundary, the progress, the batch, and the cache
/// operation that go with its state.
pub proof fn a_checkpoint_is_valid_exactly_when_recoverable(c: TurnCheckpointView)
    ensures
        c.fault() is None <==> is_recoverable(c),
        c.is_valid() <==> is_recoverable(c),
{
    lemma_batch_fault(c);
    assert(c.identity_fault() is None <==> is_identified(c));
    assert(c.input_fault() is None <==> has_its_input(c));
    assert(c.input_fault() is None ==> (c.history_fault() is None <==> has_its_boundary(c)));
    assert(c.progress_fault() is None <==> has_its_progress(c));
    assert(c.cache_fault() is None <==> has_a_sound_cache_operation(c));
}

/// Whether the internal input of the checkpoint has a defect.
pub open spec fn has_defective_input(c: TurnCheckpointView) -> bool {
    c.internal_input matches Some(input) && input.defect is Some
}

/// Whether the preparation that the state holds is one of the call that it holds.
pub open spec fn prepares_its_call(state: TurnStateView) -> bool {
    match state {
        TurnStateView::LocalActionPrepared { call, prepared, .. } => is_preparation_of(
            prepared,
            call,
        ),
        TurnStateView::LocalActionExecuting { call, prepared, .. } => is_preparation_of(
            prepared,
            call,
        ),
        _ => false,
    }
}

/// Whether the end that the state is shows output.
pub open spec fn shows_output(state: TurnStateView) -> bool {
    match state {
        TurnStateView::Completing { visible_output, .. } => visible_output,
        TurnStateView::PublishingTerminal { visible_output, .. } => visible_output,
        TurnStateView::Terminal { visible_output, .. } => visible_output,
        _ => false,
    }
}

/// The first thing that keeps a checkpoint from being one to recover from is told: schema,
/// revision, numbering, beginning, and session, and then its input, its boundary, and its
/// progress, and at last its batch and its cache operation.
pub proof fn a_fault_tells_of_the_first_thing_wrong(c: TurnCheckpointView)
    ensures
        c.schema_version == 3 && c.transition_revision == 4 && c.watermark.checkpoint_sequence == 0
            ==> is_conflict(c.fault(), "checkpoint sequence must start at one"@),
        c.schema_version == 3 && c.transition_revision == 4 && c.watermark.checkpoint_sequence != 0
            && (c.state_revision == 0) != is_a_beginning(c.state) ==> is_conflict(
            c.fault(),
            "only an accepted checkpoint may have state revision zero"@,
        ),
        c.schema_version == 3 && c.transition_revision == 4 && c.watermark.checkpoint_sequence != 0
            && (c.state_revision == 0) == is_a_beginning(c.state) && c.snapshot.id != c.session
            ==> is_conflict(c.fault(), "checkpoint snapshot/session identity mismatch"@),
        c.schema_version != 3 ==> is_conflict(
            c.fault(),
            "unsupported checkpoint schema "@ + decimal(c.schema_version as nat) + "; expected "@
                + decimal(3),
        ),
        c.schema_version == 3 && c.transition_revision != 4 ==> is_conflict(
            c.fault(),
            "unsupported turn transition revision "@ + decimal(c.transition_revision as nat)
                + "; expected "@ + decimal(4),
        ),
        is_identified(c) && has_defective_input(c) ==> c.fault() == c.internal_input->0.defect,
        is_identified(c) && !has_defective_input(c) && !has_its_input(c) ==> is_conflict(
            c.fault(),
            if c.state is InternalAccepted {
                "internal accepted state does not match checkpoint input"@
            } else {
                "ordinary accepted state cannot carry internal input"@
            },
        ),
        is_identified(c) && has_its_input(c) && !has_its_boundary(c) ==> is_conflict(
            c.fault(),
            if c.internal_input is Some {
                "internal-turn history boundary exceeds canonical history"@
            } else if is_of_a_local_action(c.state) {
                "local-action checkpoint changed canonical history"@
            } else if c.active_history_start >= c.snapshot.history.len() {
                "checkpoint active history boundary is outside canonical history"@
            } else {
                "accepted checkpoint input does not match canonical history"@
            },
        ),
        is_identified(c) && has_its_input(c) && has_its_boundary(c) && !has_its_progress(c)
            ==> is_conflict(
            c.fault(),
            if (c.state is LocalActionPrepared || c.state is LocalActionExecuting)
                && !prepares_its_call(c.state) {
                "local-action preparation does not match its source call"@
            } else if c.state is LocalActionResultReady && !is_result_of(
                c.state->LocalActionResultReady_result,
                c.state->LocalActionResultReady_call,
            ) {
                "local-action result does not match its source call"@
            } else if c.state is ModelResponseReady
                && c.state->ModelResponseReady_response.text.len() > 0 && !c.visible_output {
                "durable visible model output is missing from checkpoint progress"@
            } else if is_an_end(c.state) && shows_output(c.state) != c.visible_output {
                "terminal state and checkpoint visible-output progress disagree"@
            } else {
                "checkpoint operation fingerprint mismatch"@
            },
        ),
        is_identified(c) && has_its_input(c) && has_its_boundary(c) && has_its_progress(c)
            && has_a_sound_batch(c) ==> c.fault() == c.cache_fault(),
{
    lemma_batch_fault(c);
}

/// Whether `after` is one more than `before`, which only the last number is not.
pub open spec fn is_next_number(before: u64, after: u64) -> bool {
    if before == u64::MAX {
        after == before
    } else {
        after == before + 1
    }
}

/// A checkpoint is an immediate successor exactly when both can be recovered from, the
/// session, the turn, the schema, the deadline, the boundary, and the input are the same,
/// both numbers go up by one, neither the events nor the visible output go back, and the
/// step is permitted.
pub proof fn a_successor_is_the_next_checkpoint_of_the_turn(
    c: TurnCheckpointView,
    next: TurnCheckpointView,
)
    ensures
        c.successor_fault(next) is None <==> {
            &&& is_recoverable(c)
            &&& is_recoverable(next)
            &&& c.session == next.session
            &&& c.turn == next.turn
            &&& c.deadline == next.deadline
            &&& c.active_history_start == next.active_history_start
            &&& c.internal_input == next.internal_input
            &&& c.visible_output ==> next.visible_output
            &&& is_next_number(c.state_revision, next.state_revision)
            &&& is_next_number(
                c.watermark.checkpoint_sequence,
                next.watermark.checkpoint_sequence,
            )
            &&& c.watermark.event_sequence <= next.watermark.event_sequence
            &&& permits(c.state, next.state)
        },
        !is_recoverable(c) ==> c.successor_fault(next) == c.fault(),
        is_recoverable(c) && !is_recoverable(next) ==> c.successor_fault(next) == next.fault(),
        is_recoverable(c) && is_recoverable(next) ==> (c.successor_fault(next) matches Some(e)
            ==> e.kind == ErrorKind::Conflict && !e.retryable),
{
    a_checkpoint_is_valid_exactly_when_recoverable(c);
    a_checkpoint_is_valid_exactly_when_recoverable(next);
}

/// Whether `after` is the checkpoint that takes the step: the new state, snapshot,
/// visibility, and time, the next numbers, and all else as it was.
pub open spec fn takes_the_step(
    c: TurnCheckpointView,
    after: TurnCheckpointView,
    next: TurnStateView,
    snapshot: SessionSnapshotView,
    visible_output: bool,
    event_sequence: u64,
    updated: Timestamp,
) -> bool {
    &&& after.schema_version == c.schema_version
    &&& after.transition_revision == c.transition_revision
    &&& after.session == c.session
    &&& after.turn == c.turn
    &&& is_next_number(c.state_revision, after.state_revision)
    &&& after.operation_fingerprint == binding(
        next,
        c.active_history_start,
        c.internal_input,
        visible_output,
    )
    &&& after.active_history_start == c.active_history_start
    &&& after.internal_input == c.internal_input
    &&& after.visible_output == visible_output
    &&& after.state == next
    &&& after.snapshot == snapshot
    &&& after.deadline == c.deadline
    &&& is_next_number(c.watermark.checkpoint_sequence, after.watermark.checkpoint_sequence)
    &&& after.watermark.event_sequence == event_sequence
    &&& after.watermark.journal_turn == c.watermark.journal_turn
    &&& after.updated == updated
}

/// Whether a step may be asked for: the checkpoint can be recovered from, the boundary
/// stays, the snapshot is of the session, and visible output is not taken back and comes
/// only with a response that has a text.
pub open spec fn may_be_asked_for(
    c: TurnCheckpointView,
    next: TurnStateView,
    snapshot: SessionSnapshotView,
    active_history_start: usize,
    visible_output: bool,
) -> bool {
    &&& is_recoverable(c)
    &&& active_history_start == c.active_history_start
    &&& c.visible_output ==> visible_output
    &&& visible_output && !c.visible_output ==> (next matches TurnStateView::ModelResponseReady {
        response,
        ..
    } && response.text.len() > 0)
    &&& snapshot.id == c.session
}

/// A transition that changes neither the state nor the visible output gives back the
/// checkpoint itself. Any other one gives the checkpoint that takes the step, exactly
/// when the step may be asked for, is permitted, and leads to a checkpoint that can be
/// recovered from.
pub proof fn a_transition_takes_the_step_or_stays(
    c: TurnCheckpointView,
    next: TurnStateView,
    snapshot: SessionSnapshotView,
    active_history_start: usize,
    visible_output: bool,
    event_sequence: u64,
    updated: Timestamp,
)
    ensures
        ({
            let r = c.transitioned(
                next,
                snapshot,
                active_history_start,
                visible_output,
                event_sequence,
                updated,
            );
            let asked = may_be_asked_for(c, next, snapshot, active_history_start, visible_output);
            let stays = next == c.state && visible_output == c.visible_output;
            &&& !asked ==> r is Err
            &&& asked && stays ==> r == Ok::<TurnCheckpointView, RuntimeErrorView>(c)
            &&& asked && !stays && !permits(c.state, next) ==> r is Err
            &&& asked && !stays && permits(c.state, next) ==> exists|after: TurnCheckpointView|
                {
                    &&& #[trigger] takes_the_step(
                        c,
                        after,
                        next,
                        snapshot,
                        visible_output,
                        event_sequence,
                        updated,
                    )
                    &&& r is Ok <==> is_recoverable(after)
                    &&& r matches Ok(given) ==> given == after
                    &&& r matches Err(e) ==> after.fault() == Some(e)
                }
            &&& !is_recoverable(c) ==> r == Err::<TurnCheckpointView, RuntimeErrorView>(
                c.fault()->0,
            )
            &&& is_recoverable(c) && !asked ==> r->Err_0.kind == ErrorKind::Conflict
        }),
{
    a_checkpoint_is_valid_exactly_when_recoverable(c);
    let after = c.advanced(next, snapshot, visible_output, event_sequence, updated);
    a_checkpoint_is_valid_exactly_when_recoverable(after);
    assert(active_history_start == c.active_history_start ==> takes_the_step(
        c,
        after,
        next,
        snapshot,
        visible_output,
        event_sequence,
        updated,
    ));
}

/// The next watermark is numbered one higher and stands at the given event; the turn
/// that it is scoped to stays.
pub proof fn a_watermark_goes_up_by_one(watermark: CheckpointWatermarkView, event_sequence: u64)
    ensures
        is_next_number(
            watermark.checkpoint_sequence,
            watermark.advanced(event_sequence).checkpoint_sequence,
        ),
        watermark.advanced(event_sequence).event_sequence == event_sequence,
        watermark.advanced(event_sequence).journal_turn == watermark.journal_turn,
{
}

/// The events from the watermark on are discarded before recovery, unless the turn or
/// the cache operation is over.
pub proof fn a_journal_is_kept_only_of_what_is_over(c: TurnCheckpointView)
    ensures
        c.truncation() is None <==> c.state is Terminal || c.state is CacheOperationTerminal,
        c.truncation() matches Some(sequence) ==> sequence == c.watermark.event_sequence,
{
}

/// Whether the checkpoint is the first of the turn: in the state, with the input and the
/// boundary, without visible output or progress, and bound to just that.
pub open spec fn is_first_of(
    c: TurnCheckpointView,
    turn: Seq<char>,
    state: TurnStateView,
    internal_input: Option<InternalTurnInputView>,
    snapshot: SessionSnapshotView,
    active_history_start: usize,
    deadline: Option<Timestamp>,
    checkpoint_sequence: u64,
    event_sequence: u64,
    updated: Timestamp,
) -> bool {
    &&& c.schema_version == 3
    &&& c.transition_revision == 4
    &&& c.session == snapshot.id
    &&& c.turn == turn
    &&& c.state_revision == 0
    &&& c.operation_fingerprint == binding(state, active_history_start, internal_input, false)
    &&& c.active_history_start == active_history_start
    &&& c.internal_input == internal_input
    &&& !c.visible_output
    &&& c.state == state
    &&& c.snapshot == snapshot
    &&& c.deadline == deadline
    &&& c.watermark.checkpoint_sequence == checkpoint_sequence
    &&& c.watermark.event_sequence == event_sequence
    &&& c.watermark.journal_turn is None
    &&& c.updated == updated
}

/// A turn is accepted exactly when the message at its boundary is the user's input and
/// its checkpoints are numbered from one on; what it begins with is its first checkpoint.
pub proof fn a_turn_is_accepted_at_its_own_message(
    turn: Seq<char>,
    input: UserInputView,
    snapshot: SessionSnapshotView,
    active_history_start: usize,
    deadline: Option<Timestamp>,
    checkpoint_sequence: u64,
    event_sequence: u64,
    updated: Timestamp,
)
    ensures
        ({
            let state = TurnStateView::Accepted { input };
            let r = checked(
                first_checkpoint(
                    turn,
                    state,
                    None,
                    snapshot,
                    active_history_start,
                    deadline,
                    checkpoint_sequence,
                    event_sequence,
                    updated,
                ),
            );
            let at = active_history_start as int;
            &&& r is Ok <==> {
                &&& checkpoint_sequence >= 1
                &&& at < snapshot.history.len()
                &&& snapshot.history[at].role == Role::User
                &&& snapshot.history[at].content == input.parts
            }
            &&& r matches Ok(c) ==> is_first_of(
                c,
                turn,
                state,
                None,
                snapshot,
                active_history_start,
                deadline,
                checkpoint_sequence,
                event_sequence,
                updated,
            )
            &&& r matches Err(e) ==> e.kind == ErrorKind::Conflict
        }),
{
}

/// An internal turn is accepted exactly when its input has no defect, its boundary lies
/// in the history, and its checkpoints are numbered from one on; the checkpoint holds the
/// input twice, in its state and for the turn.
pub proof fn an_internal_turn_is_accepted_with_its_input(
    turn: Seq<char>,
    input: InternalTurnInputView,
    snapshot: SessionSnapshotView,
    active_history_start: usize,
    deadline: Option<Timestamp>,
    checkpoint_sequence: u64,
    event_sequence: u64,
    updated: Timestamp,
)
    ensures
        ({
            let r = first_internal(
                turn,
                input,
                snapshot,
                active_history_start,
                deadline,
                checkpoint_sequence,
                event_sequence,
                updated,
            );
            &&& r is Ok <==> {
                &&& input.defect is None
                &&& checkpoint_sequence >= 1
                &&& active_history_start <= snapshot.history.len()
            }
            &&& input.defect matches Some(e) ==> r == Err::<TurnCheckpointView, RuntimeErrorView>(e)
            &&& r matches Ok(c) ==> is_first_of(
                c,
                turn,
                (TurnStateView::InternalAccepted { input }),
                Some(input),
                snapshot,
                active_history_start,
                deadline,
                checkpoint_sequence,
                event_sequence,
                updated,
            )
        }),
{
}

/// A local action is accepted whenever its checkpoints are numbered from one on; it
/// stands at the end of the history.
pub proof fn a_local_action_is_accepted_at_the_end(
    turn: Seq<char>,
    request_id: Seq<char>,
    call: ToolCallView,
    snapshot: SessionSnapshotView,
    deadline: Option<Timestamp>,
    checkpoint_sequence: u64,
    event_sequence: u64,
    updated: Timestamp,
)
    requires
        snapshot.history.len() <= usize::MAX,
    ensures
        ({
            let state = TurnStateView::LocalActionAccepted { request_id, call };
            let end = snapshot.history.len() as usize;
            let r = checked(
                first_checkpoint(
                    turn,
                    state,
                    None,
                    snapshot,
                    end,
                    deadline,
                    checkpoint_sequence,
                    event_sequence,
                    updated,
                ),
            );
            &&& r is Ok <==> checkpoint_sequence >= 1
            &&& r matches Ok(c) ==> is_first_of(
                c,
                turn,
                state,
                None,
                snapshot,
                end,
                deadline,
                checkpoint_sequence,
                event_sequence,
                updated,
            )
        }),
{
}

/// A state has a stable name of its own.
pub proof fn states_have_stable_names(x: TurnStateView)
    ensures
        x is Accepted ==> x.label() == "accepted"@,
        x is InternalAccepted ==> x.label() == "internal_accepted"@,
        x is LocalActionAccepted ==> x.label() == "local_action_accepted"@,
        x is LocalActionPrepared ==> x.label() == "local_action_prepared"@,
        x is LocalActionExecuting ==> x.label() == "local_action_executing"@,
        x is LocalActionOutcomeReady ==> x.label() == "local_action_outcome_ready"@,
        x is LocalActionResultReady ==> x.label() == "local_action_result_ready"@,
        x is Planning ==> x.label() == "planning"@,
        x is CallingModel ==> x.label() == "calling_model"@,
        x is ModelResponseReady ==> x.label() == "model_response_ready"@,
        x is AwaitingApproval ==> x.label() == "awaiting_approval"@,
        x is AwaitingInteraction ==> x.label() == "awaiting_interaction"@,
        x is ToolOutcomeReady ==> x.label() == "tool_outcome_ready"@,
        x is ExecutingTools ==> x.label() == "executing_tools"@,
        x is Completing ==> x.label() == "completing"@,
        x is PublishingTerminal ==> x.label() == "publishing_terminal"@,
        x is Terminal ==> x.label() == "terminal"@,
        x is CacheOperationPrepared ==> x.label() == "cache_operation_prepared"@,
        x is CacheOperationStarted ==> x.label() == "cache_operation_started"@,
        x is CacheOperationResultReady ==> x.label() == "cache_operation_result_ready"@,
        x is CacheOperationTerminal ==> x.label() == "cache_operation_terminal"@,
{
}

} // verus!
