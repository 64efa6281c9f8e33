//! The transition table of the turn machine.

use vstd::prelude::*;

use super::slots::{
    approval_slot_edits_are_compatible, approval_slots_resolve_exactly, interaction_is_aligned,
    interaction_state_valid, is_prepared_for, local_call_successor, prepared_matches_call,
    result_answers, result_matches_call, results_are_prefix, results_complete, results_form_prefix,
    slot_edits_are_compatible, slots_correspond, slots_match, slots_resolve_exactly,
};
use super::{
    AssembledModelResponse, CacheOperationCheckpoint, CacheOperationCheckpointView,
    ToolSlotCheckpoint, ToolSlotCheckpointView, TurnState, TurnStateView, TURN_TRANSITION_REVISION,
};
use crate::content::{ToolCall, ToolCallView, ToolResultBlock, ToolResultBlockView};
use crate::error::RuntimeErrorView;
use crate::event::CacheOperationOutcome;
use crate::fingerprint::{
    fingerprint_of, group_absorb, lemma_concat_assoc, Encoded, Fingerprint, FingerprintHasher,
};
use crate::ids::RequestId;
use crate::interaction::{
    InteractionRequest, InteractionRequestView, InteractionResponse, InteractionResponseView,
};
use crate::record::{begins_with, Record};
use crate::text::decimal_text;

verus! {

/// One tool batch: the request, its calls, their slots, and the step.
pub struct BatchView {
    pub request_id: Seq<char>,
    pub source_calls: Seq<ToolCallView>,
    pub slots: Seq<ToolSlotCheckpointView>,
    pub step: u32,
}

/// The step after `step`, or `step` if there is none after it.
pub open spec fn next_step(step: u32) -> u32 {
    if step < u32::MAX {
        (step + 1) as u32
    } else {
        step
    }
}

/// Whether a response, where there is one, answers `request`.
pub open spec fn answers(
    response: Option<InteractionResponseView>,
    request: InteractionRequestView,
) -> bool {
    response matches Some(answer) && answer.validity_for(request)
        == Ok::<(), RuntimeErrorView>(())
}

impl TurnStateView {
    /// Whether the turn has been accepted but nothing was done for it yet.
    pub open spec fn is_initial(self) -> bool {
        self is Accepted || self is InternalAccepted || self is LocalActionAccepted
    }

    /// Whether the turn is at work: accepted and not yet completing. Such a
    /// state may be completed at any time.
    pub open spec fn is_working(self) -> bool {
        match self {
            TurnStateView::Completing { .. } | TurnStateView::PublishingTerminal { .. }
            | TurnStateView::Terminal { .. } => false,
            TurnStateView::CacheOperationPrepared { .. }
            | TurnStateView::CacheOperationStarted { .. }
            | TurnStateView::CacheOperationResultReady { .. }
            | TurnStateView::CacheOperationTerminal { .. } => false,
            _ => true,
        }
    }

    /// Whether the state has crossed its terminal protected boundary.
    pub open spec fn is_over(self) -> bool {
        self is Terminal || self is CacheOperationTerminal
    }

    /// The request and call of a local action.
    pub open spec fn local_action(self) -> Option<(Seq<char>, ToolCallView)> {
        match self {
            TurnStateView::LocalActionAccepted { request_id, call } => Some((request_id, call)),
            TurnStateView::LocalActionPrepared { request_id, call, .. } => Some((request_id, call)),
            TurnStateView::LocalActionExecuting { request_id, call, .. } => Some(
                (request_id, call),
            ),
            TurnStateView::LocalActionOutcomeReady { request_id, call, .. } => Some(
                (request_id, call),
            ),
            TurnStateView::LocalActionResultReady { request_id, call, .. } => Some(
                (request_id, call),
            ),
            _ => None,
        }
    }

    /// The tool batch that the state works on.
    pub open spec fn batch(self) -> Option<BatchView> {
        match self {
            TurnStateView::AwaitingApproval { request_id, source_calls, slots, step } => Some(
                BatchView { request_id, source_calls, slots, step },
            ),
            TurnStateView::AwaitingInteraction {
                request_id,
                source_calls,
                slots,
                step,
                ..
            } => Some(BatchView { request_id, source_calls, slots, step }),
            TurnStateView::ToolOutcomeReady { request_id, source_calls, slots, step, .. } => Some(
                BatchView { request_id, source_calls, slots, step },
            ),
            TurnStateView::ExecutingTools { request_id, source_calls, slots, step, .. } => Some(
                BatchView { request_id, source_calls, slots, step },
            ),
            _ => None,
        }
    }

    /// The results that a batch at work has committed.
    pub open spec fn committed(self) -> Option<Seq<ToolResultBlockView>> {
        match self {
            TurnStateView::AwaitingInteraction { completed, .. } => Some(completed),
            TurnStateView::ToolOutcomeReady { completed, .. } => Some(completed),
            TurnStateView::ExecutingTools { completed, .. } => Some(completed),
            _ => None,
        }
    }

    /// The tool-loop step that the state belongs to.
    pub open spec fn step(self) -> Option<u32> {
        match self {
            TurnStateView::Planning { step } => Some(step),
            TurnStateView::CallingModel { step, .. } => Some(step),
            TurnStateView::ModelResponseReady { step, .. } => Some(step),
            _ => match self.batch() {
                Some(batch) => Some(batch.step),
                None => None,
            },
        }
    }

    /// The operation of a cache operation state.
    pub open spec fn cache_operation(self) -> Option<CacheOperationCheckpointView> {
        match self {
            TurnStateView::CacheOperationPrepared { operation } => Some(operation),
            TurnStateView::CacheOperationStarted { operation } => Some(operation),
            TurnStateView::CacheOperationResultReady { operation, .. } => Some(operation),
            TurnStateView::CacheOperationTerminal { operation, .. } => Some(operation),
            _ => None,
        }
    }
}

/// Whether the two local states belong to the same request and call.
pub open spec fn same_local_action(from: TurnStateView, to: TurnStateView) -> bool {
    match (from.local_action(), to.local_action()) {
        (Some((request, call)), Some((next_request, next_call))) => request == next_request
            && call.id == next_call.id && call.name == next_call.name,
        _ => false,
    }
}

/// Whether the two states work on the very same batch.
pub open spec fn same_batch(from: TurnStateView, to: TurnStateView) -> bool {
    from.batch() is Some && from.batch() == to.batch()
}

/// Whether two cache states are of one operation: the same id, cache identity,
/// purpose, fingerprint, and expectation.
pub open spec fn same_cache_identity(
    a: CacheOperationCheckpointView,
    b: CacheOperationCheckpointView,
) -> bool {
    &&& a.operation == b.operation
    &&& a.identity == b.identity
    &&& a.purpose == b.purpose
    &&& a.fingerprint == b.fingerprint
    &&& a.expected_read_tokens == b.expected_read_tokens
}

/// Whether two cache states are of one operation, with the same request and
/// attempt.
pub open spec fn same_cache_attempt(
    a: CacheOperationCheckpointView,
    b: CacheOperationCheckpointView,
) -> bool {
    same_cache_identity(a, b) && a.request == b.request && a.attempt == b.attempt
}

/// Whether a response's calls went, slot by slot, into the batch of `to`.
pub open spec fn opens_batch(
    request_id: Seq<char>,
    calls: Seq<ToolCallView>,
    step: u32,
    to: TurnStateView,
) -> bool {
    to.batch() matches Some(batch) && {
        &&& batch.request_id == request_id
        &&& batch.step == step
        &&& batch.source_calls == calls
        &&& slots_match(calls, batch.slots)
    }
}

/// Whether `after` is `before` with one result more, in source order.
pub open spec fn commits_one(
    calls: Seq<ToolCallView>,
    before: Seq<ToolResultBlockView>,
    after: Seq<ToolResultBlockView>,
) -> bool {
    &&& after.len() == before.len() + 1
    &&& before.is_prefix_of(after)
    &&& results_are_prefix(calls, after)
}

/// Whether the table has a step from `from` to a different state `to`: for
/// each state, what may come directly before it.
pub open spec fn advances(from: TurnStateView, to: TurnStateView) -> bool {
    match to {
        TurnStateView::Accepted { .. } | TurnStateView::InternalAccepted { .. }
        | TurnStateView::LocalActionAccepted { .. } => false,
        TurnStateView::LocalActionPrepared { call, prepared, .. } => {
            &&& from is LocalActionAccepted || from is LocalActionPrepared
            &&& same_local_action(from, to)
            &&& is_prepared_for(prepared, call)
        },
        TurnStateView::LocalActionExecuting { prepared: executing, .. } => {
            &&& same_local_action(from, to)
            &&& from matches TurnStateView::LocalActionPrepared { prepared, .. } && prepared
                == executing
        },
        TurnStateView::LocalActionOutcomeReady { .. } => {
            from is LocalActionExecuting && same_local_action(from, to)
        },
        TurnStateView::LocalActionResultReady { call, result, .. } => {
            &&& !(from is LocalActionResultReady)
            &&& same_local_action(from, to)
            &&& result_answers(call, result)
        },
        TurnStateView::Planning { step: next } => match from {
            TurnStateView::Accepted { .. } | TurnStateView::InternalAccepted { .. } => next == 0,
            TurnStateView::ModelResponseReady { response, step, .. } => next == step
                && response.tool_calls.len() == 0,
            TurnStateView::ExecutingTools { source_calls, completed, step, .. } => next
                == next_step(step) && source_calls.len() == completed.len() && results_are_prefix(
                source_calls,
                completed,
            ),
            _ => false,
        },
        TurnStateView::CallingModel { step: next, .. } => {
            from matches TurnStateView::Planning { step } && step == next
        },
        TurnStateView::ModelResponseReady { request_id: next_request, step: next, .. } => {
            from matches TurnStateView::CallingModel { request_id, step, .. } && request_id
                == next_request && step == next
        },
        TurnStateView::AwaitingApproval { slots: next_slots, .. } => match from {
            TurnStateView::ModelResponseReady { request_id, response, step } => opens_batch(
                request_id,
                response.tool_calls,
                step,
                to,
            ),
            TurnStateView::AwaitingApproval { request_id, source_calls, slots, step } => {
                &&& to.batch() == Some(
                    BatchView { request_id, source_calls, slots: next_slots, step },
                )
                &&& slot_edits_are_compatible(slots, next_slots)
            },
            _ => false,
        },
        TurnStateView::AwaitingInteraction {
            source_calls,
            slots,
            completed: next_completed,
            interaction_index,
            request,
            response: next_response,
            ..
        } => match from {
            TurnStateView::ExecutingTools { completed, .. } => {
                &&& same_batch(from, to)
                &&& completed == next_completed
                &&& next_response is None
                &&& interaction_is_aligned(
                    source_calls,
                    slots,
                    completed,
                    interaction_index as int,
                    request,
                )
            },
            TurnStateView::AwaitingInteraction {
                completed,
                interaction_index: index,
                request: asked,
                response,
                ..
            } => {
                &&& same_batch(from, to)
                &&& completed == next_completed
                &&& index == interaction_index
                &&& asked == request
                &&& response is None
                &&& answers(next_response, request)
            },
            _ => false,
        },
        TurnStateView::ToolOutcomeReady { completed: next_completed, outcome_index, .. } => match from {
            TurnStateView::ExecutingTools { source_calls, completed, .. } => {
                &&& same_batch(from, to)
                &&& completed == next_completed
                &&& outcome_index == completed.len()
                &&& outcome_index < source_calls.len()
            },
            TurnStateView::AwaitingInteraction {
                completed,
                interaction_index,
                request,
                response,
                ..
            } => {
                &&& same_batch(from, to)
                &&& completed == next_completed
                &&& interaction_index == outcome_index
                &&& response is None || answers(response, request)
            },
            _ => false,
        },
        TurnStateView::ExecutingTools { slots: next_slots, completed: next_completed, .. } => match from {
            TurnStateView::ModelResponseReady { request_id, response, step } => {
                &&& opens_batch(request_id, response.tool_calls, step, to)
                &&& next_completed.len() == 0
            },
            TurnStateView::AwaitingApproval { request_id, source_calls, slots, step } => {
                &&& to.batch() == Some(
                    BatchView { request_id, source_calls, slots: next_slots, step },
                )
                &&& slots_resolve_exactly(slots, next_slots)
                &&& next_completed.len() == 0
            },
            TurnStateView::ExecutingTools { source_calls, completed, .. } => {
                &&& same_batch(from, to)
                &&& completed.len() < next_completed.len()
                &&& completed.is_prefix_of(next_completed)
                &&& results_are_prefix(source_calls, next_completed)
            },
            TurnStateView::AwaitingInteraction {
                source_calls,
                completed,
                interaction_index,
                request,
                response,
                ..
            } => {
                &&& same_batch(from, to)
                &&& answers(response, request)
                &&& commits_one(source_calls, completed, next_completed)
                &&& interaction_index == completed.len()
            },
            TurnStateView::ToolOutcomeReady { source_calls, completed, outcome_index, .. } => {
                &&& same_batch(from, to)
                &&& outcome_index == completed.len()
                &&& commits_one(source_calls, completed, next_completed)
            },
            _ => false,
        },
        TurnStateView::Completing { .. } => from.is_working(),
        TurnStateView::PublishingTerminal { finish: next_finish, visible_output: next_visible } => {
            from matches TurnStateView::Completing { finish, visible_output, .. } && finish
                == next_finish && visible_output == next_visible
        },
        TurnStateView::Terminal { finish: next_finish, visible_output: next_visible } => {
            from matches TurnStateView::PublishingTerminal { finish, visible_output } && finish
                == next_finish && visible_output == next_visible
        },
        TurnStateView::CacheOperationPrepared { .. } => false,
        TurnStateView::CacheOperationStarted { operation: started } => {
            from matches TurnStateView::CacheOperationPrepared { operation } && {
                &&& same_cache_identity(operation, started)
                &&& operation.request == started.request
                &&& operation.attempt is None
                &&& started.request is Some
                &&& started.attempt is Some
            }
        },
        TurnStateView::CacheOperationResultReady { operation: ready, result } => match from {
            TurnStateView::CacheOperationPrepared { operation } => {
                &&& same_cache_attempt(operation, ready)
                &&& result.outcome == CacheOperationOutcome::Rejected
            },
            TurnStateView::CacheOperationStarted { operation } => {
                &&& same_cache_attempt(operation, ready)
                &&& result.outcome != CacheOperationOutcome::Rejected
                &&& ready.request is Some
                &&& ready.attempt is Some
            },
            _ => false,
        },
        TurnStateView::CacheOperationTerminal { operation: over, result: final_result } => {
            from matches TurnStateView::CacheOperationResultReady { operation, result } && {
                &&& same_cache_attempt(operation, over)
                &&& result == final_result
            }
        },
    }
}

/// Whether the transition table permits `from -> to`. Exact equality is always
/// idempotent.
pub open spec fn permits(from: TurnStateView, to: TurnStateView) -> bool {
    from == to || advances(from, to)
}

/// The fields that a state's operation fingerprint covers.
pub open spec fn operation_fields(state: TurnStateView) -> Seq<Seq<char>> {
    seq!["turn_state_operation"@] + seq![crate::text::decimal(TURN_TRANSITION_REVISION as nat)]
        + <TurnState as Encoded>::fields(state)
}

/// The fields of an operation bind the exact state: states with the same fields
/// are the same. Two operation fingerprints agree on different states only where
/// the digest itself collides.
pub proof fn operation_fields_determine_the_state(a: TurnStateView, b: TurnStateView)
    requires
        operation_fields(a) == operation_fields(b),
    ensures
        a == b,
{
    broadcast use lemma_concat_assoc;

    let none = Seq::<Seq<char>>::empty();
    let (p, q) = (TurnState::fields(a), TurnState::fields(b));
    let (title, revision) = (
        "turn_state_operation"@,
        crate::text::decimal(TURN_TRANSITION_REVISION as nat),
    );
    String::lemma_decodable(title, title, seq![revision] + p, seq![revision] + q);
    String::lemma_decodable(revision, revision, p, q);
    assert(p + none =~= p);
    assert(q + none =~= q);
    TurnState::lemma_decodable(a, b, none, none);
}

fn same_batch_parts(
    request_id: &RequestId,
    source_calls: &Vec<ToolCall>,
    slots: &Vec<ToolSlotCheckpoint>,
    step: u32,
    next_request: &RequestId,
    next_source_calls: &Vec<ToolCall>,
    next_slots: &Vec<ToolSlotCheckpoint>,
    next_step: u32,
) -> (r: bool)
    ensures
        r == (request_id@ == next_request@ && source_calls.deep_view()
            == next_source_calls.deep_view() && slots.deep_view() == next_slots.deep_view() && step
            == next_step),
{
    request_id.same(next_request) && step == next_step && source_calls.same(next_source_calls)
        && slots.same(next_slots)
}

fn is_answered(response: &Option<InteractionResponse>, request: &InteractionRequest) -> (r: bool)
    ensures
        r == answers(response.deep_view(), request@),
{
    match response {
        Some(answer) => answer.validate_for(request).is_ok(),
        None => false,
    }
}

fn commits_one_result(
    source_calls: &Vec<ToolCall>,
    completed: &Vec<ToolResultBlock>,
    next_completed: &Vec<ToolResultBlock>,
) -> (r: bool)
    ensures
        r == commits_one(
            source_calls.deep_view(),
            completed.deep_view(),
            next_completed.deep_view(),
        ),
{
    next_completed.len() > completed.len() && next_completed.len() - completed.len() == 1
        && begins_with(next_completed, completed) && results_form_prefix(
        source_calls,
        next_completed,
    )
}

fn cache_operation_same_identity(
    current: &CacheOperationCheckpoint,
    next: &CacheOperationCheckpoint,
) -> (r: bool)
    ensures
        r == same_cache_identity(current@, next@),
{
    current.operation.same(&next.operation) && current.identity.same(&next.identity)
        && current.purpose.same(&next.purpose) && current.fingerprint.same(&next.fingerprint)
        && current.expected_read_tokens.same(&next.expected_read_tokens)
}

fn cache_operation_same_attempt(
    current: &CacheOperationCheckpoint,
    next: &CacheOperationCheckpoint,
) -> (r: bool)
    ensures
        r == same_cache_attempt(current@, next@),
{
    cache_operation_same_identity(current, next) && current.request.same(&next.request)
        && current.attempt.same(&next.attempt)
}

fn cache_operation_started_successor(
    current: &CacheOperationCheckpoint,
    next: &CacheOperationCheckpoint,
) -> (r: bool)
    ensures
        r == (same_cache_identity(current@, next@) && current@.request == next@.request
            && current@.attempt is None && next@.request is Some && next@.attempt is Some),
{
    cache_operation_same_identity(current, next) && current.request.same(&next.request)
        && current.attempt.is_none() && next.request.is_some() && next.attempt.is_some()
}

impl TurnState {
    fn local_action_advances_to(&self, next: &TurnState) -> (r: bool)
        requires
            self@.local_action() is Some,
            !(next@ is Completing),
        ensures
            r == advances(self@, next@),
    {
        match (self, next) {
            (
                TurnState::LocalActionAccepted { request_id, call },
                TurnState::LocalActionPrepared {
                    request_id: next_request,
                    call: next_call,
                    prepared,
                },
            ) => local_call_successor(request_id, call, next_request, next_call)
                && prepared_matches_call(prepared, next_call),
            (
                TurnState::LocalActionAccepted { request_id, call },
                TurnState::LocalActionResultReady {
                    request_id: next_request,
                    call: next_call,
                    result,
                },
            ) => local_call_successor(request_id, call, next_request, next_call)
                && result_matches_call(result, next_call),
            (
                TurnState::LocalActionPrepared { request_id, call, .. },
                TurnState::LocalActionPrepared {
                    request_id: next_request,
                    call: next_call,
                    prepared: next_prepared,
                },
            ) => local_call_successor(request_id, call, next_request, next_call)
                && prepared_matches_call(next_prepared, next_call),
            (
                TurnState::LocalActionPrepared { request_id, call, prepared },
                TurnState::LocalActionExecuting {
                    request_id: next_request,
                    call: next_call,
                    prepared: next_prepared,
                },
            ) => local_call_successor(request_id, call, next_request, next_call) && prepared.same(
                next_prepared,
            ),
            (
                TurnState::LocalActionPrepared { request_id, call, .. },
                TurnState::LocalActionResultReady {
                    request_id: next_request,
                    call: next_call,
                    result,
                },
            ) => local_call_successor(request_id, call, next_request, next_call)
                && result_matches_call(result, next_call),
            (
                TurnState::LocalActionExecuting { request_id, call, .. },
                TurnState::LocalActionOutcomeReady {
                    request_id: next_request,
                    call: next_call,
                    ..
                },
            ) => local_call_successor(request_id, call, next_request, next_call),
            (
                TurnState::LocalActionExecuting { request_id, call, .. },
                TurnState::LocalActionResultReady {
                    request_id: next_request,
                    call: next_call,
                    result,
                },
            ) => local_call_successor(request_id, call, next_request, next_call)
                && result_matches_call(result, next_call),
            (
                TurnState::LocalActionOutcomeReady { request_id, call, .. },
                TurnState::LocalActionResultReady {
                    request_id: next_request,
                    call: next_call,
                    result,
                },
            ) => local_call_successor(request_id, call, next_request, next_call)
                && result_matches_call(result, next_call),
            _ => false,
        }
    }

    fn response_advances_to(
        request_id: &RequestId,
        response: &AssembledModelResponse,
        step: u32,
        next: &TurnState,
    ) -> (r: bool)
        requires
            !(next@ is Completing),
        ensures
            r == advances(
                (TurnStateView::ModelResponseReady {
                    request_id: request_id@,
                    response: response@,
                    step,
                }),
                next@,
            ),
    {
        match next {
            TurnState::AwaitingApproval {
                request_id: next_request,
                source_calls,
                slots,
                step: next_step,
            } => request_id.same(next_request) && step == *next_step && source_calls.same(
                &response.tool_calls,
            ) && slots_correspond(&response.tool_calls, slots),
            TurnState::ExecutingTools {
                request_id: next_request,
                source_calls,
                slots,
                completed,
                step: next_step,
            } => request_id.same(next_request) && step == *next_step && source_calls.same(
                &response.tool_calls,
            ) && completed.len() == 0 && slots_correspond(&response.tool_calls, slots),
            TurnState::Planning { step: next_step } => response.tool_calls.len() == 0 && step
                == *next_step,
            _ => false,
        }
    }

    fn approval_advances_to(
        request_id: &RequestId,
        source_calls: &Vec<ToolCall>,
        slots: &Vec<ToolSlotCheckpoint>,
        step: u32,
        next: &TurnState,
    ) -> (r: bool)
        requires
            !(next@ is Completing),
        ensures
            r == advances(
                (TurnStateView::AwaitingApproval {
                    request_id: request_id@,
                    source_calls: source_calls.deep_view(),
                    slots: slots.deep_view(),
                    step,
                }),
                next@,
            ),
    {
        match next {
            TurnState::AwaitingApproval {
                request_id: next_request,
                source_calls: next_source_calls,
                slots: next_slots,
                step: next_step,
            } => request_id.same(next_request) && step == *next_step && source_calls.same(
                next_source_calls,
            ) && approval_slot_edits_are_compatible(slots, next_slots),
            TurnState::ExecutingTools {
                request_id: next_request,
                source_calls: next_source_calls,
                slots: next_slots,
                completed,
                step: next_step,
            } => request_id.same(next_request) && step == *next_step && source_calls.same(
                next_source_calls,
            ) && approval_slots_resolve_exactly(slots, next_slots) && completed.len() == 0,
            _ => false,
        }
    }

    fn execution_advances_to(&self, next: &TurnState) -> (r: bool)
        requires
            self@ is ExecutingTools,
            !(next@ is Completing),
        ensures
            r == advances(self@, next@),
    {
        match (self, next) {
            (
                TurnState::ExecutingTools { request_id, source_calls, slots, completed, step },
                TurnState::ExecutingTools {
                    request_id: next_request,
                    source_calls: next_source_calls,
                    slots: next_slots,
                    completed: next_completed,
                    step: next_step,
                },
            ) => same_batch_parts(
                request_id,
                source_calls,
                slots,
                *step,
                next_request,
                next_source_calls,
                next_slots,
                *next_step,
            ) && next_completed.len() > completed.len() && begins_with(next_completed, completed)
                && results_form_prefix(source_calls, next_completed),
            (
                TurnState::ExecutingTools { request_id, source_calls, slots, completed, step },
                TurnState::AwaitingInteraction {
                    request_id: next_request,
                    source_calls: next_source_calls,
                    slots: next_slots,
                    completed: next_completed,
                    interaction_index,
                    request,
                    response,
                    step: next_step,
                },
            ) => same_batch_parts(
                request_id,
                source_calls,
                slots,
                *step,
                next_request,
                next_source_calls,
                next_slots,
                *next_step,
            ) && completed.same(next_completed) && response.is_none() && interaction_state_valid(
                source_calls,
                slots,
                completed,
                *interaction_index,
                request,
            ),
            (
                TurnState::ExecutingTools { request_id, source_calls, slots, completed, step },
                TurnState::ToolOutcomeReady {
                    request_id: next_request,
                    source_calls: next_source_calls,
                    slots: next_slots,
                    completed: next_completed,
                    outcome_index,
                    step: next_step,
                    ..
                },
            ) => same_batch_parts(
                request_id,
                source_calls,
                slots,
                *step,
                next_request,
                next_source_calls,
                next_slots,
                *next_step,
            ) && completed.same(next_completed) && *outcome_index == completed.len()
                && *outcome_index < source_calls.len(),
            (
                TurnState::ExecutingTools { source_calls, completed, step, .. },
                TurnState::Planning { step: next_step },
            ) => *next_step == step.saturating_add(1) && results_complete(source_calls, completed),
            _ => false,
        }
    }

    fn interaction_advances_to(&self, next: &TurnState) -> (r: bool)
        requires
            self@ is AwaitingInteraction,
            !(next@ is Completing),
        ensures
            r == advances(self@, next@),
    {
        match (self, next) {
            (
                TurnState::AwaitingInteraction {
                    request_id,
                    source_calls,
                    slots,
                    completed,
                    interaction_index,
                    request,
                    response,
                    step,
                },
                TurnState::AwaitingInteraction {
                    request_id: next_request,
                    source_calls: next_source_calls,
                    slots: next_slots,
                    completed: next_completed,
                    interaction_index: next_index,
                    request: next_interaction,
                    response: next_response,
                    step: next_step,
                },
            ) => same_batch_parts(
                request_id,
                source_calls,
                slots,
                *step,
                next_request,
                next_source_calls,
                next_slots,
                *next_step,
            ) && completed.same(next_completed) && *interaction_index == *next_index
                && request.same(next_interaction) && response.is_none() && is_answered(
                next_response,
                request,
            ),
            (
                TurnState::AwaitingInteraction {
                    request_id,
                    source_calls,
                    slots,
                    completed,
                    interaction_index,
                    request,
                    response,
                    step,
                },
                TurnState::ExecutingTools {
                    request_id: next_request,
                    source_calls: next_source_calls,
                    slots: next_slots,
                    completed: next_completed,
                    step: next_step,
                },
            ) => same_batch_parts(
                request_id,
                source_calls,
                slots,
                *step,
                next_request,
                next_source_calls,
                next_slots,
                *next_step,
            ) && is_answered(response, request) && commits_one_result(
                source_calls,
                completed,
                next_completed,
            ) && *interaction_index == completed.len(),
            (
                TurnState::AwaitingInteraction {
                    request_id,
                    source_calls,
                    slots,
                    completed,
                    interaction_index,
                    request,
                    response,
                    step,
                },
                TurnState::ToolOutcomeReady {
                    request_id: next_request,
                    source_calls: next_source_calls,
                    slots: next_slots,
                    completed: next_completed,
                    outcome_index,
                    step: next_step,
                    ..
                },
            ) => same_batch_parts(
                request_id,
                source_calls,
                slots,
                *step,
                next_request,
                next_source_calls,
                next_slots,
                *next_step,
            ) && completed.same(next_completed) && *interaction_index == *outcome_index && (
            response.is_none() || is_answered(response, request)),
            _ => false,
        }
    }

    fn outcome_advances_to(&self, next: &TurnState) -> (r: bool)
        requires
            self@ is ToolOutcomeReady,
            !(next@ is Completing),
        ensures
            r == advances(self@, next@),
    {
        match (self, next) {
            (
                TurnState::ToolOutcomeReady {
                    request_id,
                    source_calls,
                    slots,
                    completed,
                    outcome_index,
                    step,
                    ..
                },
                TurnState::ExecutingTools {
                    request_id: next_request,
                    source_calls: next_source_calls,
                    slots: next_slots,
                    completed: next_completed,
                    step: next_step,
                },
            ) => same_batch_parts(
                request_id,
                source_calls,
                slots,
                *step,
                next_request,
                next_source_calls,
                next_slots,
                *next_step,
            ) && *outcome_index == completed.len() && commits_one_result(
                source_calls,
                completed,
                next_completed,
            ),
            _ => false,
        }
    }

    fn cache_operation_advances_to(&self, next: &TurnState) -> (r: bool)
        requires
            self@.cache_operation() is Some,
        ensures
            r == advances(self@, next@),
    {
        match (self, next) {
            (
                TurnState::CacheOperationPrepared { operation },
                TurnState::CacheOperationStarted { operation: next_operation },
            ) => cache_operation_started_successor(operation, next_operation),
            (
                TurnState::CacheOperationPrepared { operation },
                TurnState::CacheOperationResultReady { operation: next_operation, result },
            ) => cache_operation_same_attempt(operation, next_operation) && result.outcome
                == CacheOperationOutcome::Rejected,
            (
                TurnState::CacheOperationStarted { operation },
                TurnState::CacheOperationResultReady { operation: next_operation, result },
            ) => cache_operation_same_attempt(operation, next_operation) && result.outcome
                != CacheOperationOutcome::Rejected && next_operation.request.is_some()
                && next_operation.attempt.is_some(),
            (
                TurnState::CacheOperationResultReady { operation, result },
                TurnState::CacheOperationTerminal {
                    operation: next_operation,
                    result: next_result,
                },
            ) => cache_operation_same_attempt(operation, next_operation) && result.same(
                next_result,
            ),
            _ => false,
        }
    }

    /// Whether the direct transition table permits `self -> next`.
    ///
    /// Exact equality is always idempotent. A different payload within the
    /// same state is permitted only for pending approval edits, a renewed
    /// local preparation, an interaction that gets its answer, and the growing
    /// committed-result prefix while tools execute.
    pub fn can_transition_to(&self, next: &TurnState) -> (r: bool)
        ensures
            r == permits(self@, next@),
    {
        if self.same(next) {
            return true;
        }
        if let TurnState::Completing { .. } = next {
            return self.is_at_work();
        }
        match self {
            TurnState::Accepted { .. } | TurnState::InternalAccepted { .. } => match next {
                TurnState::Planning { step } => *step == 0,
                _ => false,
            },
            TurnState::LocalActionAccepted { .. } | TurnState::LocalActionPrepared { .. }
            | TurnState::LocalActionExecuting { .. } | TurnState::LocalActionOutcomeReady { .. }
            | TurnState::LocalActionResultReady { .. } => self.local_action_advances_to(next),
            TurnState::Planning { step } => match next {
                TurnState::CallingModel { step: next_step, .. } => *step == *next_step,
                _ => false,
            },
            TurnState::CallingModel { request_id, step, .. } => match next {
                TurnState::ModelResponseReady {
                    request_id: next_request,
                    step: next_step,
                    ..
                } => request_id.same(next_request) && *step == *next_step,
                _ => false,
            },
            TurnState::ModelResponseReady { request_id, response, step } => {
                TurnState::response_advances_to(request_id, response, *step, next)
            },
            TurnState::AwaitingApproval { request_id, source_calls, slots, step } => {
                TurnState::approval_advances_to(request_id, source_calls, slots, *step, next)
            },
            TurnState::AwaitingInteraction { .. } => self.interaction_advances_to(next),
            TurnState::ToolOutcomeReady { .. } => self.outcome_advances_to(next),
            TurnState::ExecutingTools { .. } => self.execution_advances_to(next),
            TurnState::Completing { finish, visible_output, .. } => match next {
                TurnState::PublishingTerminal {
                    finish: next_finish,
                    visible_output: next_visible,
                } => finish.same(next_finish) && *visible_output == *next_visible,
                _ => false,
            },
            TurnState::PublishingTerminal { finish, visible_output } => match next {
                TurnState::Terminal { finish: next_finish, visible_output: next_visible } => {
                    finish.same(next_finish) && *visible_output == *next_visible
                },
                _ => false,
            },
            TurnState::Terminal { .. } => false,
            TurnState::CacheOperationPrepared { .. } | TurnState::CacheOperationStarted { .. }
            | TurnState::CacheOperationResultReady { .. }
            | TurnState::CacheOperationTerminal { .. } => self.cache_operation_advances_to(next),
        }
    }

    fn is_at_work(&self) -> (r: bool)
        ensures
            r == self@.is_working(),
    {
        match self {
            TurnState::Completing { .. } | TurnState::PublishingTerminal { .. }
            | TurnState::Terminal { .. } => false,
            TurnState::CacheOperationPrepared { .. } | TurnState::CacheOperationStarted { .. }
            | TurnState::CacheOperationResultReady { .. }
            | TurnState::CacheOperationTerminal { .. } => false,
            _ => true,
        }
    }

    /// Fingerprint of the external operation or committed state represented by
    /// this state. It is stable across process restarts.
    pub fn operation_fingerprint(&self) -> (r: Fingerprint)
        ensures
            r@ == fingerprint_of(operation_fields(self@)),
    {
        broadcast use group_absorb;

        let mut hasher = FingerprintHasher::new();
        hasher.field("turn_state_operation");
        hasher.field(decimal_text(TURN_TRANSITION_REVISION as u64).as_str());
        self.encode(&mut hasher);
        hasher.finish()
    }

    /// Whether this state has crossed its terminal protected boundary and
    /// therefore permits a subsequent turn checkpoint in the same session.
    pub fn is_terminal(&self) -> (r: bool)
        ensures
            r == self@.is_over(),
    {
        match self {
            TurnState::Terminal { .. } | TurnState::CacheOperationTerminal { .. } => true,
            _ => false,
        }
    }
}

} // verus!
