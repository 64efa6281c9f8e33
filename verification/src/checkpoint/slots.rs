//! How the calls of a tool batch, their slots, and their results go together.

use vstd::prelude::*;

use super::{ToolSlotCheckpoint, ToolSlotCheckpointView};
use crate::collections::TextSet;
use crate::content::{ToolCall, ToolCallView, ToolResultBlock, ToolResultBlockView};
use crate::error::RuntimeErrorView;
use crate::ids::RequestId;
use crate::interaction::{InteractionRequest, InteractionRequestView};
use crate::record::Record;
use crate::text::same_text;
use crate::tool::{PreparedToolCall, PreparedToolCallView};

verus! {

/// Whether no two calls share an id.
pub open spec fn calls_are_distinct(calls: Seq<ToolCallView>) -> bool {
    forall|i: int, j: int|
        0 <= i < j < calls.len() ==> (#[trigger] calls[i]).id != (#[trigger] calls[j]).id
}

/// Whether `slot` is an intact disposition of `call`.
pub open spec fn slot_matches(call: ToolCallView, slot: ToolSlotCheckpointView) -> bool {
    call.id == slot.call_id() && call.name == slot.tool_name() && slot.is_intact()
}

/// Whether the calls are distinct and each slot is an intact disposition of
/// the call at its place.
pub open spec fn slots_match(
    calls: Seq<ToolCallView>,
    slots: Seq<ToolSlotCheckpointView>,
) -> bool {
    &&& calls.len() == slots.len()
    &&& calls_are_distinct(calls)
    &&& forall|i: int|
        0 <= i < calls.len() ==> slot_matches(#[trigger] calls[i], slots[i])
}

/// Whether `result` answers `call`.
pub open spec fn result_answers(call: ToolCallView, result: ToolResultBlockView) -> bool {
    call.id == result.call_id && call.name == result.name
}

/// Whether the results answer the first calls, in order.
pub open spec fn results_are_prefix(
    calls: Seq<ToolCallView>,
    results: Seq<ToolResultBlockView>,
) -> bool {
    &&& results.len() <= calls.len()
    &&& forall|i: int|
        0 <= i < results.len() ==> result_answers(calls[i], #[trigger] results[i])
}

/// Whether an edit may replace slot `current` by `next` while approval is
/// pending: a prepared action by another for the same call, a result only by
/// itself.
pub open spec fn slot_edit_is_compatible(
    current: ToolSlotCheckpointView,
    next: ToolSlotCheckpointView,
) -> bool {
    match (current, next) {
        (ToolSlotCheckpointView::Prepared(a), ToolSlotCheckpointView::Prepared(b)) => a.call_id
            == b.call_id && a.tool == b.tool,
        (
            ToolSlotCheckpointView::CanonicalResult(a),
            ToolSlotCheckpointView::CanonicalResult(b),
        ) => a == b,
        _ => false,
    }
}

/// Whether every slot of `next` is a compatible edit of that of `current`.
pub open spec fn slot_edits_are_compatible(
    current: Seq<ToolSlotCheckpointView>,
    next: Seq<ToolSlotCheckpointView>,
) -> bool {
    &&& current.len() == next.len()
    &&& forall|i: int|
        0 <= i < current.len() ==> slot_edit_is_compatible(#[trigger] current[i], next[i])
}

/// Whether approval may turn slot `pending` into `resolved`: a prepared action
/// stays exactly what it was or becomes a result of the same call, a result
/// stays itself.
pub open spec fn slot_resolves_exactly(
    pending: ToolSlotCheckpointView,
    resolved: ToolSlotCheckpointView,
) -> bool {
    match (pending, resolved) {
        (
            ToolSlotCheckpointView::Prepared(a),
            ToolSlotCheckpointView::CanonicalResult(b),
        ) => a.call_id == b.call_id && a.tool == b.name,
        _ => pending == resolved,
    }
}

/// Whether approval may turn the slots `pending` into `resolved`.
pub open spec fn slots_resolve_exactly(
    pending: Seq<ToolSlotCheckpointView>,
    resolved: Seq<ToolSlotCheckpointView>,
) -> bool {
    &&& pending.len() == resolved.len()
    &&& forall|i: int|
        0 <= i < pending.len() ==> slot_resolves_exactly(#[trigger] pending[i], resolved[i])
}

/// Whether `prepared` is an intact preparation of `call`.
pub open spec fn is_prepared_for(prepared: PreparedToolCallView, call: ToolCallView) -> bool {
    prepared.call_id == call.id && prepared.tool == call.name && prepared.is_intact()
}

/// Whether `prepared` is a preparation, without authority or effects, of the
/// call that `request` comes from.
pub open spec fn is_interaction_slot(
    call: ToolCallView,
    slot: ToolSlotCheckpointView,
    request: InteractionRequestView,
) -> bool {
    slot matches ToolSlotCheckpointView::Prepared(prepared) && {
        &&& prepared.call_id == call.id
        &&& prepared.required_permissions.len() == 0
        &&& prepared.effects.writes.len() == 0
        &&& !prepared.effects.spawns
        &&& request.origin.call == call.id
    }
}

/// Whether an interaction is aligned with its batch: the slots and results fit
/// the calls, the interaction is the next call without a result, that call was
/// prepared without authority or effects, and the request is valid.
pub open spec fn interaction_is_aligned(
    calls: Seq<ToolCallView>,
    slots: Seq<ToolSlotCheckpointView>,
    completed: Seq<ToolResultBlockView>,
    index: int,
    request: InteractionRequestView,
) -> bool {
    &&& slots_match(calls, slots)
    &&& results_are_prefix(calls, completed)
    &&& index == completed.len()
    &&& index < calls.len()
    &&& is_interaction_slot(calls[index], slots[index], request)
    &&& request.validity() == Ok::<(), RuntimeErrorView>(())
}

/// Whether the slots correspond to their source calls.
pub fn slots_correspond(source_calls: &Vec<ToolCall>, slots: &Vec<ToolSlotCheckpoint>) -> (r: bool)
    ensures
        r == slots_match(source_calls.deep_view(), slots.deep_view()),
{
    let ghost calls = source_calls.deep_view();
    let ghost views = slots.deep_view();
    if source_calls.len() != slots.len() {
        return false;
    }
    let mut seen = TextSet::new();
    let mut i: usize = 0;
    while i < source_calls.len()
        invariant
            i <= source_calls.len() == slots.len(),
            calls == source_calls.deep_view(),
            views == slots.deep_view(),
            forall|id: Seq<char>| #[trigger]
                seen@.contains(id) <==> exists|k: int|
                    0 <= k < i && (#[trigger] calls[k]).id == id,
            forall|a: int, b: int|
                0 <= a < b < i ==> (#[trigger] calls[a]).id != (#[trigger] calls[b]).id,
            forall|k: int| 0 <= k < i ==> slot_matches(#[trigger] calls[k], views[k]),
        decreases source_calls.len() - i,
    {
        let source = &source_calls[i];
        let slot = &slots[i];
        if seen.contains(source.id.as_str()) {
            proof {
                let k = choose|k: int| 0 <= k < i && (#[trigger] calls[k]).id == source.id@;
                assert(calls[k].id == calls[i as int].id);
            }
            return false;
        }
        let ghost before = seen@;
        seen.insert(source.id.as_str());
        let intact = match slot {
            ToolSlotCheckpoint::Prepared(prepared) => prepared.verify_fingerprint(),
            ToolSlotCheckpoint::CanonicalResult(_) => true,
        };
        if !(source.id.same(slot.call_id()) && same_text(source.name.as_str(), slot.tool_name())
            && intact) {
            assert(!slot_matches(calls[i as int], views[i as int]));
            return false;
        }
        assert forall|id: Seq<char>| #[trigger] seen@.contains(id) <==> exists|k: int|
            0 <= k < i + 1 && (#[trigger] calls[k]).id == id by {
            if seen@.contains(id) {
                if before.contains(id) {
                    let k = choose|k: int| 0 <= k < i && (#[trigger] calls[k]).id == id;
                    assert(calls[k].id == id);
                } else {
                    assert(calls[i as int].id == id);
                }
            }
            if exists|k: int| 0 <= k < i + 1 && (#[trigger] calls[k]).id == id {
                let k = choose|k: int| 0 <= k < i + 1 && (#[trigger] calls[k]).id == id;
                if k < i {
                    assert(before.contains(id));
                }
            }
        }
        assert forall|a: int, b: int| 0 <= a < b < i + 1 implies (#[trigger] calls[a]).id != (
        #[trigger] calls[b]).id by {
            if b == i && calls[a].id == calls[b].id {
                assert(before.contains(calls[b].id));
            }
        }
        i = i + 1;
    }
    true
}

/// Whether the next local state belongs to the same request and call.
pub fn local_call_successor(
    request: &RequestId,
    call: &ToolCall,
    next_request: &RequestId,
    next_call: &ToolCall,
) -> (r: bool)
    ensures
        r == (request@ == next_request@ && call@.id == next_call@.id && call@.name
            == next_call@.name),
{
    request.same(next_request) && call.id.same(&next_call.id) && call.name.same(&next_call.name)
}

/// Whether `prepared` is an intact preparation of `call`.
pub fn prepared_matches_call(prepared: &PreparedToolCall, call: &ToolCall) -> (r: bool)
    ensures
        r == is_prepared_for(prepared@, call@),
{
    prepared.call_id().same(&call.id) && same_text(prepared.tool(), call.name.as_str())
        && prepared.verify_fingerprint()
}

/// Whether `result` answers `call`.
pub fn result_matches_call(result: &ToolResultBlock, call: &ToolCall) -> (r: bool)
    ensures
        r == result_answers(call@, result@),
{
    result.call_id.same(&call.id) && result.name.same(&call.name)
}

/// Whether the results answer the first calls, in order.
pub fn results_form_prefix(
    source_calls: &Vec<ToolCall>,
    completed: &Vec<ToolResultBlock>,
) -> (r: bool)
    ensures
        r == results_are_prefix(source_calls.deep_view(), completed.deep_view()),
{
    let ghost calls = source_calls.deep_view();
    let ghost results = completed.deep_view();
    if completed.len() > source_calls.len() {
        return false;
    }
    let mut i: usize = 0;
    while i < completed.len()
        invariant
            i <= completed.len() <= source_calls.len(),
            calls == source_calls.deep_view(),
            results == completed.deep_view(),
            forall|k: int| 0 <= k < i ==> result_answers(calls[k], #[trigger] results[k]),
        decreases completed.len() - i,
    {
        if !result_matches_call(&completed[i], &source_calls[i]) {
            assert(!result_answers(calls[i as int], results[i as int]));
            return false;
        }
        i = i + 1;
    }
    true
}

/// Whether every call has its result, in order.
pub fn results_complete(
    source_calls: &Vec<ToolCall>,
    completed: &Vec<ToolResultBlock>,
) -> (r: bool)
    ensures
        r == (source_calls.deep_view().len() == completed.deep_view().len() && results_are_prefix(
            source_calls.deep_view(),
            completed.deep_view(),
        )),
{
    source_calls.len() == completed.len() && results_form_prefix(source_calls, completed)
}

/// Whether the slots of `next` are compatible edits of those of `current`.
pub fn approval_slot_edits_are_compatible(
    current: &Vec<ToolSlotCheckpoint>,
    next: &Vec<ToolSlotCheckpoint>,
) -> (r: bool)
    ensures
        r == slot_edits_are_compatible(current.deep_view(), next.deep_view()),
{
    if current.len() != next.len() {
        return false;
    }
    let ghost a = current.deep_view();
    let ghost b = next.deep_view();
    let mut i: usize = 0;
    while i < current.len()
        invariant
            i <= current.len() == next.len(),
            a == current.deep_view(),
            b == next.deep_view(),
            forall|k: int| 0 <= k < i ==> slot_edit_is_compatible(#[trigger] a[k], b[k]),
        decreases current.len() - i,
    {
        let compatible = match (&current[i], &next[i]) {
            (ToolSlotCheckpoint::Prepared(x), ToolSlotCheckpoint::Prepared(y)) => x.call_id().same(
                y.call_id(),
            ) && same_text(x.tool(), y.tool()),
            (
                ToolSlotCheckpoint::CanonicalResult(x),
                ToolSlotCheckpoint::CanonicalResult(y),
            ) => x.same(y),
            _ => false,
        };
        if !compatible {
            assert(!slot_edit_is_compatible(a[i as int], b[i as int]));
            return false;
        }
        i = i + 1;
    }
    true
}

/// Whether approval may turn the slots `pending` into `resolved`.
pub fn approval_slots_resolve_exactly(
    pending: &Vec<ToolSlotCheckpoint>,
    resolved: &Vec<ToolSlotCheckpoint>,
) -> (r: bool)
    ensures
        r == slots_resolve_exactly(pending.deep_view(), resolved.deep_view()),
{
    if pending.len() != resolved.len() {
        return false;
    }
    let ghost a = pending.deep_view();
    let ghost b = resolved.deep_view();
    let mut i: usize = 0;
    while i < pending.len()
        invariant
            i <= pending.len() == resolved.len(),
            a == pending.deep_view(),
            b == resolved.deep_view(),
            forall|k: int| 0 <= k < i ==> slot_resolves_exactly(#[trigger] a[k], b[k]),
        decreases pending.len() - i,
    {
        let exact = match (&pending[i], &resolved[i]) {
            (ToolSlotCheckpoint::Prepared(x), ToolSlotCheckpoint::Prepared(y)) => x.same(y),
            (ToolSlotCheckpoint::Prepared(x), ToolSlotCheckpoint::CanonicalResult(y)) => {
                x.call_id().same(&y.call_id) && same_text(x.tool(), y.name.as_str())
            },
            (
                ToolSlotCheckpoint::CanonicalResult(x),
                ToolSlotCheckpoint::CanonicalResult(y),
            ) => x.same(y),
            _ => false,
        };
        if !exact {
            assert(!slot_resolves_exactly(a[i as int], b[i as int]));
            return false;
        }
        i = i + 1;
    }
    true
}

/// Whether an interaction is aligned with its batch.
pub fn interaction_state_valid(
    source_calls: &Vec<ToolCall>,
    slots: &Vec<ToolSlotCheckpoint>,
    completed: &Vec<ToolResultBlock>,
    interaction_index: usize,
    request: &InteractionRequest,
) -> (r: bool)
    ensures
        r == interaction_is_aligned(
            source_calls.deep_view(),
            slots.deep_view(),
            completed.deep_view(),
            interaction_index as int,
            request@,
        ),
{
    if !slots_correspond(source_calls, slots) || !results_form_prefix(source_calls, completed)
        || interaction_index != completed.len() || interaction_index >= source_calls.len() {
        return false;
    }
    let source = &source_calls[interaction_index];
    let aligned = match &slots[interaction_index] {
        ToolSlotCheckpoint::Prepared(prepared) => prepared.call_id().same(&source.id)
            && !prepared.needs_permission() && prepared.effects().is_empty()
            && request.origin().call().same(&source.id),
        ToolSlotCheckpoint::CanonicalResult(_) => false,
    };
    aligned && request.validate().is_ok()
}

/// An approval that resolves slots exactly leaves every slot matching its call.
pub proof fn resolved_slots_match_their_calls(
    calls: Seq<ToolCallView>,
    pending: Seq<ToolSlotCheckpointView>,
    resolved: Seq<ToolSlotCheckpointView>,
)
    requires
        slots_match(calls, pending),
        slots_resolve_exactly(pending, resolved),
    ensures
        slots_match(calls, resolved),
{
    assert forall|i: int| 0 <= i < calls.len() implies slot_matches(
        #[trigger] calls[i],
        resolved[i],
    ) by {
        assert(slot_matches(calls[i], pending[i]));
        assert(slot_resolves_exactly(pending[i], resolved[i]));
    }
}

} // verus!
