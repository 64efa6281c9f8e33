//! The steps that a turn may take, one by one.

use vstd::prelude::*;

use super::slots::{results_are_prefix, slots_match};
use super::transition::permits;
use super::{
    AssembledModelResponseView, CacheOperationCheckpointView, CacheOperationResultCheckpointView,
    ToolSlotCheckpointView, TurnStateView,
};
use crate::content::{InternalTurnInputView, ToolCallView, ToolResultBlockView, UserInputView};
use crate::event::{CacheOperationOutcome, TurnFinishView};
use crate::fingerprint::fingerprint_of;
use crate::interaction::{InteractionRequestView, InteractionResponseView};
use crate::provider::{ProviderErrorKind, ProviderRequestView};
use crate::tool::{PreparedToolCallView, ToolOutcomeView};

verus! {

/// Whether a result is one of the call: it has the call's id and name.
pub open spec fn is_result_of(result: ToolResultBlockView, call: ToolCallView) -> bool {
    result.call_id == call.id && result.name == call.name
}

/// Whether a preparation is one of the call, and as it was fingerprinted.
pub open spec fn is_preparation_of(prepared: PreparedToolCallView, call: ToolCallView) -> bool {
    &&& prepared.call_id == call.id
    &&& prepared.tool == call.name
    &&& prepared.fingerprint == fingerprint_of(prepared.content_fields())
}

/// Whether a slot is one of the call.
pub open spec fn is_slot_of(slot: ToolSlotCheckpointView, call: ToolCallView) -> bool {
    match slot {
        ToolSlotCheckpointView::Prepared(prepared) => is_preparation_of(prepared, call),
        ToolSlotCheckpointView::CanonicalResult(result) => is_result_of(result, call),
    }
}

/// Whether every call has a slot of its own, at its place, and no two calls share an
/// id.
pub open spec fn is_sound_batch(
    calls: Seq<ToolCallView>,
    slots: Seq<ToolSlotCheckpointView>,
) -> bool {
    &&& calls.len() == slots.len()
    &&& forall|i: int|
        #![trigger calls[i]]
        #![trigger slots[i]]
        0 <= i < calls.len() ==> is_slot_of(slots[i], calls[i])
    &&& forall|i: int, j: int|
        0 <= i < j < calls.len() ==> (#[trigger] calls[i]).id != (#[trigger] calls[j]).id
}

/// Whether the results are those of the first calls, in order.
pub open spec fn are_first_results(
    results: Seq<ToolResultBlockView>,
    calls: Seq<ToolCallView>,
) -> bool {
    &&& results.len() <= calls.len()
    &&& forall|i: int| 0 <= i < results.len() ==> is_result_of(#[trigger] results[i], calls[i])
}

/// Whether `more` begins with the results that there are.
pub open spec fn continues_results(
    results: Seq<ToolResultBlockView>,
    more: Seq<ToolResultBlockView>,
) -> bool {
    &&& results.len() <= more.len()
    &&& forall|i: int| 0 <= i < results.len() ==> #[trigger] more[i] == results[i]
}

/// Whether a host's decision on a pending slot may leave `after`: a prepared action is
/// kept exactly as it is or becomes a result of the same call, and a result stays.
pub open spec fn is_decided_slot(
    before: ToolSlotCheckpointView,
    after: ToolSlotCheckpointView,
) -> bool {
    match before {
        ToolSlotCheckpointView::Prepared(prepared) => {
            ||| after == before
            ||| after matches ToolSlotCheckpointView::CanonicalResult(result) && result.call_id
                == prepared.call_id && result.name == prepared.tool
        },
        ToolSlotCheckpointView::CanonicalResult(_) => after == before,
    }
}

/// Whether a pending slot may be edited into `after`: a prepared action into another
/// one of the same call and tool, and a result not at all.
pub open spec fn is_edited_slot(
    before: ToolSlotCheckpointView,
    after: ToolSlotCheckpointView,
) -> bool {
    match (before, after) {
        (ToolSlotCheckpointView::Prepared(a), ToolSlotCheckpointView::Prepared(b)) => a.call_id
            == b.call_id && a.tool == b.tool,
        (ToolSlotCheckpointView::CanonicalResult(_), _) => after == before,
        _ => false,
    }
}

/// Whether an answer is one to the request, and without a defect.
pub open spec fn is_answer_to(
    answer: Option<InteractionResponseView>,
    request: InteractionRequestView,
) -> bool {
    answer matches Some(given) && given.request == request.id && given.defect is None
}

/// Whether the request is one of the next call without a result, which was prepared
/// without authority or effects.
pub open spec fn asks_for_the_next_call(
    request: InteractionRequestView,
    calls: Seq<ToolCallView>,
    slots: Seq<ToolSlotCheckpointView>,
    completed: Seq<ToolResultBlockView>,
    index: usize,
) -> bool {
    &&& is_sound_batch(calls, slots)
    &&& are_first_results(completed, calls)
    &&& index == completed.len()
    &&& index < calls.len()
    &&& request.defect is None
    &&& request.origin.call == calls[index as int].id
    &&& slots[index as int] matches ToolSlotCheckpointView::Prepared(prepared) && {
        &&& prepared.required_permissions.len() == 0
        &&& prepared.effects.writes.len() == 0
        &&& !prepared.effects.spawns
    }
}

/// Whether `after` is the results that there are and one of the next call.
pub open spec fn adds_the_next_result(
    calls: Seq<ToolCallView>,
    before: Seq<ToolResultBlockView>,
    after: Seq<ToolResultBlockView>,
) -> bool {
    &&& after.len() == before.len() + 1
    &&& continues_results(before, after)
    &&& are_first_results(after, calls)
}

pub proof fn lemma_vocabulary(
    calls: Seq<ToolCallView>,
    slots: Seq<ToolSlotCheckpointView>,
    results: Seq<ToolResultBlockView>,
    more: Seq<ToolResultBlockView>,
)
    ensures
        slots_match(calls, slots) <==> is_sound_batch(calls, slots),
        results_are_prefix(calls, results) <==> are_first_results(results, calls),
        results_are_prefix(calls, more) <==> are_first_results(more, calls),
        results.is_prefix_of(more) <==> continues_results(results, more),
{
    if slots_match(calls, slots) {
        assert forall|i: int|
            #![trigger calls[i]]
            #![trigger slots[i]]
            0 <= i < calls.len() implies is_slot_of(slots[i], calls[i]) by {
            assert(super::slots::slot_matches(calls[i], slots[i]));
        }
    }
    if is_sound_batch(calls, slots) {
        assert forall|i: int| 0 <= i < calls.len() implies super::slots::slot_matches(
            #[trigger] calls[i],
            slots[i],
        ) by {
            assert(is_slot_of(slots[i], calls[i]));
        }
    }
    if results_are_prefix(calls, results) {
        assert forall|i: int| 0 <= i < results.len() implies is_result_of(
            #[trigger] results[i],
            calls[i],
        ) by {
            assert(super::slots::result_answers(calls[i], results[i]));
        }
    }
    if results.is_prefix_of(more) {
        assert forall|i: int| 0 <= i < results.len() implies #[trigger] more[i] == results[i] by {
            assert(more.subrange(0, results.len() as int)[i] == more[i]);
        }
    }
    if continues_results(results, more) {
        assert(results =~= more.subrange(0, results.len() as int));
    }
}

/// A turn that was accepted is planned from the first step on.
pub proof fn an_accepted_turn_is_planned_from_the_start(
    input: UserInputView,
    internal: InternalTurnInputView,
    step: u32,
)
    ensures
        permits((TurnStateView::Accepted { input }), (TurnStateView::Planning { step })) <==> step
            == 0,
        permits(
            (TurnStateView::InternalAccepted { input: internal }),
            (TurnStateView::Planning { step }),
        ) <==> step == 0,
{
}

/// A local action that was accepted may be prepared: under the same request, for a call
/// of the same id and name, with an intact preparation of that call.
pub proof fn an_accepted_action_may_be_prepared(
    request: Seq<char>,
    call: ToolCallView,
    next_request: Seq<char>,
    next_call: ToolCallView,
    prepared: PreparedToolCallView,
)
    ensures
        permits(
            (TurnStateView::LocalActionAccepted { request_id: request, call }),
            (TurnStateView::LocalActionPrepared {
                request_id: next_request,
                call: next_call,
                prepared,
            }),
        ) <==> {
            &&& request == next_request
            &&& call.id == next_call.id
            &&& call.name == next_call.name
            &&& is_preparation_of(prepared, next_call)
        },
{
}

/// A prepared local action may be prepared anew, under the same request, for a call of
/// the same id and name; or stay as it is.
pub proof fn a_preparation_may_be_renewed(
    request: Seq<char>,
    call: ToolCallView,
    before: PreparedToolCallView,
    next_request: Seq<char>,
    next_call: ToolCallView,
    prepared: PreparedToolCallView,
)
    ensures
        permits(
            (TurnStateView::LocalActionPrepared { request_id: request, call, prepared: before }),
            (TurnStateView::LocalActionPrepared {
                request_id: next_request,
                call: next_call,
                prepared,
            }),
        ) <==> {
            ||| request == next_request && call == next_call && before == prepared
            ||| {
                &&& request == next_request
                &&& call.id == next_call.id
                &&& call.name == next_call.name
                &&& is_preparation_of(prepared, next_call)
            }
        },
{
}

/// A prepared local action executes exactly as it was prepared.
pub proof fn a_prepared_action_executes_as_prepared(
    request: Seq<char>,
    call: ToolCallView,
    before: PreparedToolCallView,
    next_request: Seq<char>,
    next_call: ToolCallView,
    prepared: PreparedToolCallView,
)
    ensures
        permits(
            (TurnStateView::LocalActionPrepared { request_id: request, call, prepared: before }),
            (TurnStateView::LocalActionExecuting {
                request_id: next_request,
                call: next_call,
                prepared,
            }),
        ) <==> {
            &&& request == next_request
            &&& call.id == next_call.id
            &&& call.name == next_call.name
            &&& before == prepared
        },
{
}

/// An executing local action may come to an outcome, whatever it is, of the same call.
pub proof fn an_executing_action_has_an_outcome(
    request: Seq<char>,
    call: ToolCallView,
    prepared: PreparedToolCallView,
    next_request: Seq<char>,
    next_call: ToolCallView,
    outcome: ToolOutcomeView,
)
    ensures
        permits(
            (TurnStateView::LocalActionExecuting { request_id: request, call, prepared }),
            (TurnStateView::LocalActionOutcomeReady {
                request_id: next_request,
                call: next_call,
                outcome,
            }),
        ) <==> {
            &&& request == next_request
            &&& call.id == next_call.id
            &&& call.name == next_call.name
        },
{
}

/// A local action may come to its result from any state before that, with a result of
/// the call under the same request.
pub proof fn a_local_action_may_come_to_its_result(
    from: TurnStateView,
    request: Seq<char>,
    call: ToolCallView,
    next_request: Seq<char>,
    next_call: ToolCallView,
    result: ToolResultBlockView,
)
    requires
        match from {
            TurnStateView::LocalActionAccepted { request_id, call: own } => request_id == request
                && own == call,
            TurnStateView::LocalActionPrepared { request_id, call: own, .. } => request_id
                == request && own == call,
            TurnStateView::LocalActionExecuting { request_id, call: own, .. } => request_id
                == request && own == call,
            TurnStateView::LocalActionOutcomeReady { request_id, call: own, .. } => request_id
                == request && own == call,
            _ => false,
        },
    ensures
        permits(
            from,
            (TurnStateView::LocalActionResultReady {
                request_id: next_request,
                call: next_call,
                result,
            }),
        ) <==> {
            &&& request == next_request
            &&& call.id == next_call.id
            &&& call.name == next_call.name
            &&& is_result_of(result, next_call)
        },
{
}

/// A planned step calls the model for that step, with any request.
pub proof fn a_planned_step_calls_the_model(
    step: u32,
    request_id: Seq<char>,
    request: ProviderRequestView,
    next: u32,
)
    ensures
        permits(
            (TurnStateView::Planning { step }),
            (TurnStateView::CallingModel { request_id, request, step: next }),
        ) <==> {
            step == next
        },
{
}

/// A call of the model is answered by a response to that very request, at that step.
pub proof fn a_call_is_answered_by_its_own_response(
    request_id: Seq<char>,
    request: ProviderRequestView,
    step: u32,
    next_request: Seq<char>,
    response: AssembledModelResponseView,
    next: u32,
)
    ensures
        permits(
            (TurnStateView::CallingModel { request_id, request, step }),
            (TurnStateView::ModelResponseReady { request_id: next_request, response, step: next }),
        ) <==> {
            request_id == next_request && step == next
        },
{
}

/// A response goes back to planning the same step exactly when it calls no tool.
pub proof fn a_response_without_calls_is_planned_again(
    request_id: Seq<char>,
    response: AssembledModelResponseView,
    step: u32,
    next: u32,
)
    ensures
        permits(
            (TurnStateView::ModelResponseReady { request_id, response, step }),
            (TurnStateView::Planning { step: next }),
        ) <==> {
            response.tool_calls.len() == 0 && step == next
        },
{
}

/// The calls of a response may await approval: all of them, as they are, each with a
/// slot of its own.
pub proof fn a_response_may_await_approval(
    request_id: Seq<char>,
    response: AssembledModelResponseView,
    step: u32,
    next_request: Seq<char>,
    calls: Seq<ToolCallView>,
    slots: Seq<ToolSlotCheckpointView>,
    next: u32,
)
    ensures
        permits(
            (TurnStateView::ModelResponseReady { request_id, response, step }),
            (TurnStateView::AwaitingApproval {
                request_id: next_request,
                source_calls: calls,
                slots,
                step: next,
            }),
        ) <==> {
            &&& request_id == next_request
            &&& step == next
            &&& calls == response.tool_calls
            &&& is_sound_batch(calls, slots)
        },
{
    lemma_vocabulary(calls, slots, Seq::empty(), Seq::empty());
}

/// The calls of a response may be executed: all of them, as they are, each with a slot
/// of its own, and none with a result yet.
pub proof fn a_response_may_be_executed(
    request_id: Seq<char>,
    response: AssembledModelResponseView,
    step: u32,
    next_request: Seq<char>,
    calls: Seq<ToolCallView>,
    slots: Seq<ToolSlotCheckpointView>,
    completed: Seq<ToolResultBlockView>,
    next: u32,
)
    ensures
        permits(
            (TurnStateView::ModelResponseReady { request_id, response, step }),
            (TurnStateView::ExecutingTools {
                request_id: next_request,
                source_calls: calls,
                slots,
                completed,
                step: next,
            }),
        ) <==> {
            &&& request_id == next_request
            &&& step == next
            &&& calls == response.tool_calls
            &&& completed.len() == 0
            &&& is_sound_batch(calls, slots)
        },
{
    lemma_vocabulary(calls, slots, Seq::empty(), Seq::empty());
}

/// While a batch awaits approval, its prepared actions may be edited into others of the
/// same call; its results stay, and so does the batch.
pub proof fn pending_slots_may_be_edited(
    request_id: Seq<char>,
    calls: Seq<ToolCallView>,
    slots: Seq<ToolSlotCheckpointView>,
    step: u32,
    next_request: Seq<char>,
    next_calls: Seq<ToolCallView>,
    next_slots: Seq<ToolSlotCheckpointView>,
    next: u32,
)
    ensures
        permits(
            (TurnStateView::AwaitingApproval { request_id, source_calls: calls, slots, step }),
            (TurnStateView::AwaitingApproval {
                request_id: next_request,
                source_calls: next_calls,
                slots: next_slots,
                step: next,
            }),
        ) <==> {
            &&& request_id == next_request
            &&& calls == next_calls
            &&& step == next
            &&& slots == next_slots || {
                &&& slots.len() == next_slots.len()
                &&& forall|i: int|
                    0 <= i < slots.len() ==> is_edited_slot(#[trigger] slots[i], next_slots[i])
            }
        },
{
    if slots.len() == next_slots.len() {
        assert forall|i: int| 0 <= i < slots.len() implies (super::slots::slot_edit_is_compatible(
            #[trigger] slots[i],
            next_slots[i],
        ) <==> is_edited_slot(slots[i], next_slots[i])) by {
        }
    }
}

/// A batch that awaited approval executes exactly as it was decided, slot by slot: each
/// prepared action is kept as it is or replaced by a result of its call, each result
/// stays, and nothing is completed yet. Any such choice is permitted.
pub proof fn an_approval_decides_slot_by_slot(
    request_id: Seq<char>,
    calls: Seq<ToolCallView>,
    slots: Seq<ToolSlotCheckpointView>,
    step: u32,
    next_request: Seq<char>,
    next_calls: Seq<ToolCallView>,
    next_slots: Seq<ToolSlotCheckpointView>,
    completed: Seq<ToolResultBlockView>,
    next: u32,
)
    ensures
        permits(
            (TurnStateView::AwaitingApproval { request_id, source_calls: calls, slots, step }),
            (TurnStateView::ExecutingTools {
                request_id: next_request,
                source_calls: next_calls,
                slots: next_slots,
                completed,
                step: next,
            }),
        ) <==> {
            &&& request_id == next_request
            &&& calls == next_calls
            &&& step == next
            &&& completed.len() == 0
            &&& slots.len() == next_slots.len()
            &&& forall|i: int|
                0 <= i < slots.len() ==> is_decided_slot(#[trigger] slots[i], next_slots[i])
        },
{
    if slots.len() == next_slots.len() {
        assert forall|i: int| 0 <= i < slots.len() implies (super::slots::slot_resolves_exactly(
            #[trigger] slots[i],
            next_slots[i],
        ) <==> is_decided_slot(slots[i], next_slots[i])) by {
        }
    }
}

/// From every batch that awaits approval and whose slots are those of its calls, any choice
/// per slot of keeping what is there or putting a result of the call in place of a prepared
/// action may execute, with nothing completed; and the slots stay those of the calls.
pub proof fn any_choice_of_an_approval_may_execute(
    request_id: Seq<char>,
    calls: Seq<ToolCallView>,
    slots: Seq<ToolSlotCheckpointView>,
    step: u32,
    chosen: Seq<ToolSlotCheckpointView>,
)
    requires
        is_sound_batch(calls, slots),
        chosen.len() == slots.len(),
        forall|i: int|
            0 <= i < slots.len() ==> {
                ||| #[trigger] chosen[i] == slots[i]
                ||| {
                    &&& slots[i] is Prepared
                    &&& chosen[i] matches ToolSlotCheckpointView::CanonicalResult(result)
                        && is_result_of(result, calls[i])
                }
            },
    ensures
        permits(
            (TurnStateView::AwaitingApproval { request_id, source_calls: calls, slots, step }),
            (TurnStateView::ExecutingTools {
                request_id,
                source_calls: calls,
                slots: chosen,
                completed: Seq::empty(),
                step,
            }),
        ),
        is_sound_batch(calls, chosen),
{
    assert forall|i: int| 0 <= i < slots.len() implies is_decided_slot(
        #[trigger] slots[i],
        chosen[i],
    ) by {
        assert(chosen[i] == chosen[i]);
        assert(is_slot_of(slots[i], calls[i]));
    }
    assert forall|i: int|
        #![trigger calls[i]]
        #![trigger chosen[i]]
        0 <= i < calls.len() implies is_slot_of(chosen[i], calls[i]) by {
        assert(is_slot_of(slots[i], calls[i]));
    }
    an_approval_decides_slot_by_slot(
        request_id,
        calls,
        slots,
        step,
        request_id,
        calls,
        chosen,
        Seq::empty(),
        step,
    );
}

/// While tools execute, results of the next calls are added, at least one, in order;
/// what was committed stays, and so does the batch.
pub proof fn executing_tools_commits_results_in_order(
    request_id: Seq<char>,
    calls: Seq<ToolCallView>,
    slots: Seq<ToolSlotCheckpointView>,
    completed: Seq<ToolResultBlockView>,
    step: u32,
    next_request: Seq<char>,
    next_calls: Seq<ToolCallView>,
    next_slots: Seq<ToolSlotCheckpointView>,
    more: Seq<ToolResultBlockView>,
    next: u32,
)
    ensures
        permits(
            (TurnStateView::ExecutingTools {
                request_id,
                source_calls: calls,
                slots,
                completed,
                step,
            }),
            (TurnStateView::ExecutingTools {
                request_id: next_request,
                source_calls: next_calls,
                slots: next_slots,
                completed: more,
                step: next,
            }),
        ) <==> {
            &&& request_id == next_request
            &&& calls == next_calls
            &&& slots == next_slots
            &&& step == next
            &&& completed == more || {
                &&& completed.len() < more.len()
                &&& continues_results(completed, more)
                &&& are_first_results(more, calls)
            }
        },
{
    lemma_vocabulary(calls, slots, completed, more);
}

/// While tools execute, the next call without a result may ask the host: a valid
/// request of that call, prepared without authority or effects, and not yet answered;
/// the batch and its results stay.
pub proof fn executing_tools_may_ask_the_host(
    request_id: Seq<char>,
    calls: Seq<ToolCallView>,
    slots: Seq<ToolSlotCheckpointView>,
    completed: Seq<ToolResultBlockView>,
    step: u32,
    next_request: Seq<char>,
    next_calls: Seq<ToolCallView>,
    next_slots: Seq<ToolSlotCheckpointView>,
    more: Seq<ToolResultBlockView>,
    index: usize,
    request: InteractionRequestView,
    response: Option<InteractionResponseView>,
    next: u32,
)
    ensures
        permits(
            (TurnStateView::ExecutingTools {
                request_id,
                source_calls: calls,
                slots,
                completed,
                step,
            }),
            (TurnStateView::AwaitingInteraction {
                request_id: next_request,
                source_calls: next_calls,
                slots: next_slots,
                completed: more,
                interaction_index: index,
                request,
                response,
                step: next,
            }),
        ) <==> {
            &&& request_id == next_request
            &&& calls == next_calls
            &&& slots == next_slots
            &&& completed == more
            &&& step == next
            &&& response is None
            &&& asks_for_the_next_call(request, calls, slots, completed, index)
        },
{
    lemma_vocabulary(calls, slots, completed, more);
    lemma_next_call(request, calls, slots, completed, index);
}

/// While tools execute, the next call without a result may come to an outcome, whatever
/// it is; the batch and its results stay.
pub proof fn executing_tools_may_have_an_outcome(
    request_id: Seq<char>,
    calls: Seq<ToolCallView>,
    slots: Seq<ToolSlotCheckpointView>,
    completed: Seq<ToolResultBlockView>,
    step: u32,
    next_request: Seq<char>,
    next_calls: Seq<ToolCallView>,
    next_slots: Seq<ToolSlotCheckpointView>,
    more: Seq<ToolResultBlockView>,
    index: usize,
    outcome: ToolOutcomeView,
    next: u32,
)
    ensures
        permits(
            (TurnStateView::ExecutingTools {
                request_id,
                source_calls: calls,
                slots,
                completed,
                step,
            }),
            (TurnStateView::ToolOutcomeReady {
                request_id: next_request,
                source_calls: next_calls,
                slots: next_slots,
                completed: more,
                outcome_index: index,
                outcome,
                step: next,
            }),
        ) <==> {
            &&& request_id == next_request
            &&& calls == next_calls
            &&& slots == next_slots
            &&& completed == more
            &&& step == next
            &&& index == completed.len()
            &&& index < calls.len()
        },
{
}

/// A batch goes on to plan the next step exactly when every call has its result, in
/// order. Only from the last step there is does the step stay.
pub proof fn a_finished_batch_goes_on_to_the_next_step(
    request_id: Seq<char>,
    calls: Seq<ToolCallView>,
    slots: Seq<ToolSlotCheckpointView>,
    completed: Seq<ToolResultBlockView>,
    step: u32,
    next: u32,
)
    ensures
        permits(
            (TurnStateView::ExecutingTools {
                request_id,
                source_calls: calls,
                slots,
                completed,
                step,
            }),
            (TurnStateView::Planning { step: next }),
        ) <==> {
            &&& completed.len() == calls.len()
            &&& are_first_results(completed, calls)
            &&& step < u32::MAX ==> next == step + 1
            &&& step == u32::MAX ==> next == step
        },
{
    lemma_vocabulary(calls, slots, completed, completed);
}

/// An interaction without an answer may get one that answers its request; nothing else
/// of it changes.
pub proof fn an_interaction_is_answered_once(
    request_id: Seq<char>,
    calls: Seq<ToolCallView>,
    slots: Seq<ToolSlotCheckpointView>,
    completed: Seq<ToolResultBlockView>,
    index: usize,
    request: InteractionRequestView,
    response: Option<InteractionResponseView>,
    step: u32,
    next_request: Seq<char>,
    next_calls: Seq<ToolCallView>,
    next_slots: Seq<ToolSlotCheckpointView>,
    more: Seq<ToolResultBlockView>,
    next_index: usize,
    asked: InteractionRequestView,
    answer: Option<InteractionResponseView>,
    next: u32,
)
    ensures
        permits(
            (TurnStateView::AwaitingInteraction {
                request_id,
                source_calls: calls,
                slots,
                completed,
                interaction_index: index,
                request,
                response,
                step,
            }),
            (TurnStateView::AwaitingInteraction {
                request_id: next_request,
                source_calls: next_calls,
                slots: next_slots,
                completed: more,
                interaction_index: next_index,
                request: asked,
                response: answer,
                step: next,
            }),
        ) <==> {
            &&& request_id == next_request
            &&& calls == next_calls
            &&& slots == next_slots
            &&& completed == more
            &&& index == next_index
            &&& request == asked
            &&& step == next
            &&& response == answer || (response is None && is_answer_to(answer, request))
        },
{
}

/// An interaction that was answered commits exactly one result, that of its own call,
/// and the batch goes on.
pub proof fn an_answered_interaction_commits_its_result(
    request_id: Seq<char>,
    calls: Seq<ToolCallView>,
    slots: Seq<ToolSlotCheckpointView>,
    completed: Seq<ToolResultBlockView>,
    index: usize,
    request: InteractionRequestView,
    response: Option<InteractionResponseView>,
    step: u32,
    next_request: Seq<char>,
    next_calls: Seq<ToolCallView>,
    next_slots: Seq<ToolSlotCheckpointView>,
    more: Seq<ToolResultBlockView>,
    next: u32,
)
    ensures
        permits(
            (TurnStateView::AwaitingInteraction {
                request_id,
                source_calls: calls,
                slots,
                completed,
                interaction_index: index,
                request,
                response,
                step,
            }),
            (TurnStateView::ExecutingTools {
                request_id: next_request,
                source_calls: next_calls,
                slots: next_slots,
                completed: more,
                step: next,
            }),
        ) <==> {
            &&& request_id == next_request
            &&& calls == next_calls
            &&& slots == next_slots
            &&& step == next
            &&& index == completed.len()
            &&& is_answer_to(response, request)
            &&& adds_the_next_result(calls, completed, more)
        },
{
    lemma_vocabulary(calls, slots, completed, more);
}

/// An interaction may come to an outcome of its own call, with an answer to its request
/// or without any.
pub proof fn an_interaction_may_have_an_outcome(
    request_id: Seq<char>,
    calls: Seq<ToolCallView>,
    slots: Seq<ToolSlotCheckpointView>,
    completed: Seq<ToolResultBlockView>,
    index: usize,
    request: InteractionRequestView,
    response: Option<InteractionResponseView>,
    step: u32,
    next_request: Seq<char>,
    next_calls: Seq<ToolCallView>,
    next_slots: Seq<ToolSlotCheckpointView>,
    more: Seq<ToolResultBlockView>,
    next_index: usize,
    outcome: ToolOutcomeView,
    next: u32,
)
    ensures
        permits(
            (TurnStateView::AwaitingInteraction {
                request_id,
                source_calls: calls,
                slots,
                completed,
                interaction_index: index,
                request,
                response,
                step,
            }),
            (TurnStateView::ToolOutcomeReady {
                request_id: next_request,
                source_calls: next_calls,
                slots: next_slots,
                completed: more,
                outcome_index: next_index,
                outcome,
                step: next,
            }),
        ) <==> {
            &&& request_id == next_request
            &&& calls == next_calls
            &&& slots == next_slots
            &&& completed == more
            &&& step == next
            &&& index == next_index
            &&& response is None || is_answer_to(response, request)
        },
{
}

/// An outcome is committed as exactly one result, that of the next call, and the batch
/// goes on.
pub proof fn an_outcome_is_committed_as_the_next_result(
    request_id: Seq<char>,
    calls: Seq<ToolCallView>,
    slots: Seq<ToolSlotCheckpointView>,
    completed: Seq<ToolResultBlockView>,
    index: usize,
    outcome: ToolOutcomeView,
    step: u32,
    next_request: Seq<char>,
    next_calls: Seq<ToolCallView>,
    next_slots: Seq<ToolSlotCheckpointView>,
    more: Seq<ToolResultBlockView>,
    next: u32,
)
    ensures
        permits(
            (TurnStateView::ToolOutcomeReady {
                request_id,
                source_calls: calls,
                slots,
                completed,
                outcome_index: index,
                outcome,
                step,
            }),
            (TurnStateView::ExecutingTools {
                request_id: next_request,
                source_calls: next_calls,
                slots: next_slots,
                completed: more,
                step: next,
            }),
        ) <==> {
            &&& request_id == next_request
            &&& calls == next_calls
            &&& slots == next_slots
            &&& step == next
            &&& index == completed.len()
            &&& adds_the_next_result(calls, completed, more)
        },
{
    lemma_vocabulary(calls, slots, completed, more);
}

/// What was completed is published: the same result, with the same visibility.
pub proof fn a_completed_turn_is_published_as_completed(
    finish: TurnFinishView,
    visible_output: bool,
    provider_error_kind: Option<ProviderErrorKind>,
    next: TurnFinishView,
    next_visible: bool,
)
    ensures
        permits(
            (TurnStateView::Completing { finish, visible_output, provider_error_kind }),
            (TurnStateView::PublishingTerminal { finish: next, visible_output: next_visible }),
        ) <==> {
            finish == next && visible_output == next_visible
        },
{
}

/// What was published is final: the same result, with the same visibility.
pub proof fn a_published_turn_is_over(
    finish: TurnFinishView,
    visible_output: bool,
    next: TurnFinishView,
    next_visible: bool,
)
    ensures
        permits(
            (TurnStateView::PublishingTerminal { finish, visible_output }),
            (TurnStateView::Terminal { finish: next, visible_output: next_visible }),
        ) <==> {
            finish == next && visible_output == next_visible
        },
{
}

/// A prepared cache operation that has not been attempted starts as the same operation,
/// with a request and a first attempt.
pub proof fn a_prepared_cache_operation_is_started_once(
    a: CacheOperationCheckpointView,
    b: CacheOperationCheckpointView,
)
    ensures
        permits(
            (TurnStateView::CacheOperationPrepared { operation: a }),
            (TurnStateView::CacheOperationStarted { operation: b }),
        ) <==> {
            &&& a.operation == b.operation
            &&& a.identity == b.identity
            &&& a.purpose == b.purpose
            &&& a.fingerprint == b.fingerprint
            &&& a.expected_read_tokens == b.expected_read_tokens
            &&& a.request == b.request
            &&& a.attempt is None
            &&& b.request is Some
            &&& b.attempt is Some
        },
{
}

/// A prepared cache operation comes to a result without a start only as rejected.
pub proof fn a_prepared_cache_operation_may_be_rejected(
    a: CacheOperationCheckpointView,
    b: CacheOperationCheckpointView,
    result: CacheOperationResultCheckpointView,
)
    ensures
        permits(
            (TurnStateView::CacheOperationPrepared { operation: a }),
            (TurnStateView::CacheOperationResultReady { operation: b, result }),
        ) <==> {
            &&& a.operation == b.operation
            &&& a.identity == b.identity
            &&& a.purpose == b.purpose
            &&& a.fingerprint == b.fingerprint
            &&& a.expected_read_tokens == b.expected_read_tokens
            &&& a.request == b.request
            &&& a.attempt == b.attempt
            &&& result.outcome == CacheOperationOutcome::Rejected
        },
{
}

/// A started cache operation comes to a result of the same attempt, which is no
/// rejection.
pub proof fn a_started_cache_operation_is_not_rejected(
    a: CacheOperationCheckpointView,
    b: CacheOperationCheckpointView,
    result: CacheOperationResultCheckpointView,
)
    ensures
        permits(
            (TurnStateView::CacheOperationStarted { operation: a }),
            (TurnStateView::CacheOperationResultReady { operation: b, result }),
        ) <==> {
            &&& a.operation == b.operation
            &&& a.identity == b.identity
            &&& a.purpose == b.purpose
            &&& a.fingerprint == b.fingerprint
            &&& a.expected_read_tokens == b.expected_read_tokens
            &&& a.request == b.request
            &&& a.attempt == b.attempt
            &&& b.request is Some
            &&& b.attempt is Some
            &&& result.outcome != CacheOperationOutcome::Rejected
        },
{
}

/// The result of a cache operation is final.
pub proof fn a_cache_result_is_final(
    a: CacheOperationCheckpointView,
    result: CacheOperationResultCheckpointView,
    b: CacheOperationCheckpointView,
    next: CacheOperationResultCheckpointView,
)
    ensures
        permits(
            (TurnStateView::CacheOperationResultReady { operation: a, result }),
            (TurnStateView::CacheOperationTerminal { operation: b, result: next }),
        ) <==> {
            &&& a.operation == b.operation
            &&& a.identity == b.identity
            &&& a.purpose == b.purpose
            &&& a.fingerprint == b.fingerprint
            &&& a.expected_read_tokens == b.expected_read_tokens
            &&& a.request == b.request
            &&& a.attempt == b.attempt
            &&& result == next
        },
{
}

/// Whether the state is one in which the turn is at work.
pub open spec fn is_at_work(state: TurnStateView) -> bool {
    ||| state is Accepted
    ||| state is InternalAccepted
    ||| state is LocalActionAccepted
    ||| state is LocalActionPrepared
    ||| state is LocalActionExecuting
    ||| state is LocalActionOutcomeReady
    ||| state is LocalActionResultReady
    ||| state is Planning
    ||| state is CallingModel
    ||| state is ModelResponseReady
    ||| state is AwaitingApproval
    ||| state is AwaitingInteraction
    ||| state is ToolOutcomeReady
    ||| state is ExecutingTools
}

/// A turn at work may be completed at any time, with any result; no other state but a
/// completing one itself may.
pub proof fn only_a_turn_at_work_is_completed(from: TurnStateView, to: TurnStateView)
    requires
        to is Completing,
    ensures
        permits(from, to) <==> from == to || is_at_work(from),
{
}

/// Any state may stay as it is, and no step leads from one state to another but those
/// that are told of here.
pub proof fn there_are_no_other_steps(from: TurnStateView, to: TurnStateView)
    ensures
        permits(from, from),
        permits(from, to) && from != to ==> {
            ||| from is Accepted && to is Planning
            ||| from is InternalAccepted && to is Planning
            ||| from is LocalActionAccepted && to is LocalActionPrepared
            ||| from is LocalActionAccepted && to is LocalActionResultReady
            ||| from is LocalActionPrepared && to is LocalActionPrepared
            ||| from is LocalActionPrepared && to is LocalActionExecuting
            ||| from is LocalActionPrepared && to is LocalActionResultReady
            ||| from is LocalActionExecuting && to is LocalActionOutcomeReady
            ||| from is LocalActionExecuting && to is LocalActionResultReady
            ||| from is LocalActionOutcomeReady && to is LocalActionResultReady
            ||| from is Planning && to is CallingModel
            ||| from is CallingModel && to is ModelResponseReady
            ||| from is ModelResponseReady && to is AwaitingApproval
            ||| from is ModelResponseReady && to is ExecutingTools
            ||| from is ModelResponseReady && to is Planning
            ||| from is AwaitingApproval && to is AwaitingApproval
            ||| from is AwaitingApproval && to is ExecutingTools
            ||| from is ExecutingTools && to is ExecutingTools
            ||| from is ExecutingTools && to is AwaitingInteraction
            ||| from is ExecutingTools && to is ToolOutcomeReady
            ||| from is ExecutingTools && to is Planning
            ||| from is AwaitingInteraction && to is AwaitingInteraction
            ||| from is AwaitingInteraction && to is ExecutingTools
            ||| from is AwaitingInteraction && to is ToolOutcomeReady
            ||| from is ToolOutcomeReady && to is ExecutingTools
            ||| from is Completing && to is PublishingTerminal
            ||| from is PublishingTerminal && to is Terminal
            ||| from is CacheOperationPrepared && to is CacheOperationStarted
            ||| from is CacheOperationPrepared && to is CacheOperationResultReady
            ||| from is CacheOperationStarted && to is CacheOperationResultReady
            ||| from is CacheOperationResultReady && to is CacheOperationTerminal
            ||| is_at_work(from) && to is Completing
        },
{
}

pub proof fn lemma_next_call(
    request: InteractionRequestView,
    calls: Seq<ToolCallView>,
    slots: Seq<ToolSlotCheckpointView>,
    completed: Seq<ToolResultBlockView>,
    index: usize,
)
    ensures
        super::slots::interaction_is_aligned(calls, slots, completed, index as int, request)
            <==> asks_for_the_next_call(request, calls, slots, completed, index),
{
    lemma_vocabulary(calls, slots, completed, completed);
    if is_sound_batch(calls, slots) && index < calls.len() {
        assert(is_slot_of(slots[index as int], calls[index as int]));
    }
}

} // verus!
