//! Validation of checkpoints and of their successors.

use vstd::prelude::*;
use vstd::string::StringExecFns;

use super::slots::{
    interaction_is_aligned, interaction_state_valid, is_prepared_for, prepared_matches_call,
    result_answers, result_matches_call, results_are_prefix, results_form_prefix, slots_correspond,
    slots_match,
};
use super::transition::{operation_fields, permits};
use super::{
    successor, CheckpointWatermark, CheckpointWatermarkView, TurnCheckpoint, TurnCheckpointView,
    TurnState, TurnStateView, CHECKPOINT_SCHEMA_VERSION, TURN_TRANSITION_REVISION,
};
use crate::clock::{Deadline, Timestamp};
use crate::content::{
    input_message, InternalTurnInput, InternalTurnInputView, ToolCall, UserInput,
};
use crate::error::{conflict_error, outcome_view, verdict, RuntimeError, RuntimeErrorView};
use crate::fingerprint::{
    fingerprint_of, group_absorb, lemma_concat_assoc, Encoded, Fingerprint, FingerprintHasher,
};
use crate::ids::{RequestId, TurnId};
use crate::record::Record;
use crate::store::{SessionSnapshot, SessionSnapshotView};
use crate::text::{decimal, decimal_text, lemma_decimal_determines};

verus! {

/// The fields that bind a checkpoint to its operation.
pub open spec fn checkpoint_fields(
    state: TurnStateView,
    active_history_start: usize,
    internal_input: Option<InternalTurnInputView>,
    visible_output: bool,
) -> Seq<Seq<char>> {
    seq!["turn_checkpoint_operation"@] + seq![decimal(TURN_TRANSITION_REVISION as nat)] + seq![
        decimal(active_history_start as nat),
    ] + seq![visibility_text(visible_output)] + seq![fingerprint_of(operation_fields(state))]
        + input_fields(internal_input)
}

/// Whether there is visible output, as a text.
pub open spec fn visibility_text(visible_output: bool) -> Seq<char> {
    if visible_output {
        "visible"@
    } else {
        "not_visible"@
    }
}

/// The fields of an internal input, a single empty one if there is none.
pub open spec fn input_fields(internal_input: Option<InternalTurnInputView>) -> Seq<Seq<char>> {
    match internal_input {
        Some(input) => <InternalTurnInput as Encoded>::fields(input),
        None => seq![""@],
    }
}

/// The fields that bind a checkpoint are those of one operation only: the state's
/// operation fingerprint, the boundary, the input, and the visible output can be
/// read back from them.
pub proof fn checkpoint_fields_determine_the_operation(
    a: TurnCheckpointView,
    b: TurnCheckpointView,
)
    requires
        checkpoint_fields(
            a.state,
            a.active_history_start,
            a.internal_input,
            a.visible_output,
        ) == checkpoint_fields(
            b.state,
            b.active_history_start,
            b.internal_input,
            b.visible_output,
        ),
    ensures
        fingerprint_of(operation_fields(a.state)) == fingerprint_of(operation_fields(b.state)),
        a.active_history_start == b.active_history_start,
        a.internal_input == b.internal_input,
        a.visible_output == b.visible_output,
{
    broadcast use lemma_concat_assoc;

    let none = Seq::<Seq<char>>::empty();
    let (title, revision) = (
        "turn_checkpoint_operation"@,
        decimal(TURN_TRANSITION_REVISION as nat),
    );
    let (start, other_start) = (
        decimal(a.active_history_start as nat),
        decimal(b.active_history_start as nat),
    );
    let (visible, other_visible) = (
        visibility_text(a.visible_output),
        visibility_text(b.visible_output),
    );
    let (digest, other_digest) = (
        fingerprint_of(operation_fields(a.state)),
        fingerprint_of(operation_fields(b.state)),
    );
    let (x, y) = (input_fields(a.internal_input), input_fields(b.internal_input));
    let (x1, y1) = (seq![digest] + x, seq![other_digest] + y);
    let (x2, y2) = (seq![visible] + x1, seq![other_visible] + y1);
    let (x3, y3) = (seq![start] + x2, seq![other_start] + y2);
    String::lemma_decodable(title, title, seq![revision] + x3, seq![revision] + y3);
    String::lemma_decodable(revision, revision, x3, y3);
    String::lemma_decodable(start, other_start, x2, y2);
    String::lemma_decodable(visible, other_visible, x1, y1);
    String::lemma_decodable(digest, other_digest, x, y);
    lemma_decimal_determines(a.active_history_start as nat, b.active_history_start as nat);
    reveal_strlit("visible");
    reveal_strlit("not_visible");
    assert("visible"@.len() == 7);
    assert("not_visible"@.len() == 11);
    lemma_input_fields(a.internal_input, b.internal_input);
}

proof fn lemma_input_fields(
    a: Option<InternalTurnInputView>,
    b: Option<InternalTurnInputView>,
)
    requires
        input_fields(a) == input_fields(b),
    ensures
        a == b,
{
    let none = Seq::<Seq<char>>::empty();
    reveal_strlit("");
    reveal_strlit("goal");
    reveal_strlit("delegation");
    reveal_strlit("host");
    assert(""@.len() == 0);
    assert("goal"@.len() == 4);
    assert("delegation"@.len() == 10);
    assert("host"@.len() == 4);
    assert(a is Some ==> input_fields(a)[0].len() > 0);
    assert(b is Some ==> input_fields(b)[0].len() > 0);
    if let (Some(v), Some(w)) = (a, b) {
        let (p, q) = (InternalTurnInput::fields(v), InternalTurnInput::fields(w));
        assert(p + none =~= p);
        assert(q + none =~= q);
        InternalTurnInput::lemma_decodable(v, w, none, none);
    }
}

/// The fingerprint that binds a checkpoint to its operation.
pub open spec fn binding(
    state: TurnStateView,
    active_history_start: usize,
    internal_input: Option<InternalTurnInputView>,
    visible_output: bool,
) -> Seq<char> {
    fingerprint_of(checkpoint_fields(state, active_history_start, internal_input, visible_output))
}

/// Computes the fingerprint that binds a checkpoint to its operation.
pub fn checkpoint_operation_fingerprint(
    state: &TurnState,
    active_history_start: usize,
    internal_input: Option<&InternalTurnInput>,
    visible_output: bool,
) -> (r: Fingerprint)
    ensures
        r@ == binding(
            state@,
            active_history_start,
            internal_input.deep_view(),
            visible_output,
        ),
{
    broadcast use group_absorb;

    let mut hasher = FingerprintHasher::new();
    hasher.field("turn_checkpoint_operation");
    hasher.field(decimal_text(TURN_TRANSITION_REVISION as u64).as_str());
    hasher.field(decimal_text(active_history_start as u64).as_str());
    hasher.field(
        if visible_output {
            "visible"
        } else {
            "not_visible"
        },
    );
    hasher.nested(&state.operation_fingerprint());
    match internal_input {
        Some(input) => {
            input.encode(&mut hasher);
        },
        None => {
            hasher.field("");
        },
    }
    hasher.finish()
}

impl TurnStateView {
    /// The name of the state.
    pub open spec fn label(self) -> Seq<char> {
        match self {
            TurnStateView::Accepted { .. } => "accepted"@,
            TurnStateView::InternalAccepted { .. } => "internal_accepted"@,
            TurnStateView::LocalActionAccepted { .. } => "local_action_accepted"@,
            TurnStateView::LocalActionPrepared { .. } => "local_action_prepared"@,
            TurnStateView::LocalActionExecuting { .. } => "local_action_executing"@,
            TurnStateView::LocalActionOutcomeReady { .. } => "local_action_outcome_ready"@,
            TurnStateView::LocalActionResultReady { .. } => "local_action_result_ready"@,
            TurnStateView::Planning { .. } => "planning"@,
            TurnStateView::CallingModel { .. } => "calling_model"@,
            TurnStateView::ModelResponseReady { .. } => "model_response_ready"@,
            TurnStateView::AwaitingApproval { .. } => "awaiting_approval"@,
            TurnStateView::AwaitingInteraction { .. } => "awaiting_interaction"@,
            TurnStateView::ToolOutcomeReady { .. } => "tool_outcome_ready"@,
            TurnStateView::ExecutingTools { .. } => "executing_tools"@,
            TurnStateView::Completing { .. } => "completing"@,
            TurnStateView::PublishingTerminal { .. } => "publishing_terminal"@,
            TurnStateView::Terminal { .. } => "terminal"@,
            TurnStateView::CacheOperationPrepared { .. } => "cache_operation_prepared"@,
            TurnStateView::CacheOperationStarted { .. } => "cache_operation_started"@,
            TurnStateView::CacheOperationResultReady { .. } => "cache_operation_result_ready"@,
            TurnStateView::CacheOperationTerminal { .. } => "cache_operation_terminal"@,
        }
    }

    /// Whether the state is one of a local action at work.
    pub open spec fn is_local_action(self) -> bool {
        self.local_action() is Some
    }

    /// Whether the state commits or publishes the turn's result.
    pub open spec fn is_finishing(self) -> bool {
        self is Completing || self is PublishingTerminal || self is Terminal
    }

    /// The visible-output flag of a finishing state.
    pub open spec fn finishing_visibility(self) -> Option<bool> {
        match self {
            TurnStateView::Completing { visible_output, .. } => Some(visible_output),
            TurnStateView::PublishingTerminal { visible_output, .. } => Some(visible_output),
            TurnStateView::Terminal { visible_output, .. } => Some(visible_output),
            _ => None,
        }
    }

    /// Whether the state holds a model response with visible text.
    pub open spec fn has_visible_response(self) -> bool {
        self matches TurnStateView::ModelResponseReady { response, .. } && response.text.len() > 0
    }
}

/// The name of a state.
pub fn state_name(state: &TurnState) -> (r: &'static str)
    ensures
        r@ == state@.label(),
{
    match state {
        TurnState::Accepted { .. } => "accepted",
        TurnState::InternalAccepted { .. } => "internal_accepted",
        TurnState::LocalActionAccepted { .. } => "local_action_accepted",
        TurnState::LocalActionPrepared { .. } => "local_action_prepared",
        TurnState::LocalActionExecuting { .. } => "local_action_executing",
        TurnState::LocalActionOutcomeReady { .. } => "local_action_outcome_ready",
        TurnState::LocalActionResultReady { .. } => "local_action_result_ready",
        TurnState::Planning { .. } => "planning",
        TurnState::CallingModel { .. } => "calling_model",
        TurnState::ModelResponseReady { .. } => "model_response_ready",
        TurnState::AwaitingApproval { .. } => "awaiting_approval",
        TurnState::AwaitingInteraction { .. } => "awaiting_interaction",
        TurnState::ToolOutcomeReady { .. } => "tool_outcome_ready",
        TurnState::ExecutingTools { .. } => "executing_tools",
        TurnState::Completing { .. } => "completing",
        TurnState::PublishingTerminal { .. } => "publishing_terminal",
        TurnState::Terminal { .. } => "terminal",
        TurnState::CacheOperationPrepared { .. } => "cache_operation_prepared",
        TurnState::CacheOperationStarted { .. } => "cache_operation_started",
        TurnState::CacheOperationResultReady { .. } => "cache_operation_result_ready",
        TurnState::CacheOperationTerminal { .. } => "cache_operation_terminal",
    }
}

impl TurnCheckpointView {
    /// Where the journal is cut off before recovery, if it is.
    pub open spec fn truncation(self) -> Option<u64> {
        if self.state.is_over() {
            None
        } else {
            Some(self.watermark.event_sequence)
        }
    }

    /// What is wrong with the versions, sequence numbers, and identities.
    pub open spec fn identity_fault(self) -> Option<RuntimeErrorView> {
        if self.schema_version != CHECKPOINT_SCHEMA_VERSION {
            Some(
                conflict_error(
                    "unsupported checkpoint schema "@ + decimal(self.schema_version as nat)
                        + "; expected "@ + decimal(CHECKPOINT_SCHEMA_VERSION as nat),
                ),
            )
        } else if self.transition_revision != TURN_TRANSITION_REVISION {
            Some(
                conflict_error(
                    "unsupported turn transition revision "@ + decimal(
                        self.transition_revision as nat,
                    ) + "; expected "@ + decimal(TURN_TRANSITION_REVISION as nat),
                ),
            )
        } else if self.watermark.checkpoint_sequence == 0 {
            Some(conflict_error("checkpoint sequence must start at one"@))
        } else if (self.state_revision == 0) != self.state.is_initial() {
            Some(conflict_error("only an accepted checkpoint may have state revision zero"@))
        } else if self.snapshot.id != self.session {
            Some(conflict_error("checkpoint snapshot/session identity mismatch"@))
        } else {
            None
        }
    }

    /// What is wrong with the internal input.
    pub open spec fn input_fault(self) -> Option<RuntimeErrorView> {
        match self.internal_input {
            Some(input) if input.validity() is Err => Some(input.validity()->Err_0),
            _ => match self.state {
                TurnStateView::InternalAccepted { input } if self.internal_input != Some(
                    input,
                ) => Some(
                    conflict_error("internal accepted state does not match checkpoint input"@),
                ),
                TurnStateView::Accepted { .. } | TurnStateView::LocalActionAccepted { .. } => {
                    if self.internal_input is Some {
                        Some(conflict_error("ordinary accepted state cannot carry internal input"@))
                    } else {
                        None
                    }
                },
                _ => None,
            },
        }
    }

    /// Whether the checkpoint is one of a local action, which owns the end of
    /// the history: by its state, or, once the turn finishes, by its boundary.
    pub open spec fn belongs_to_local_action(self) -> bool {
        self.internal_input is None && (self.state.is_local_action() || (self.state.is_finishing()
            && self.active_history_start == self.snapshot.history.len()))
    }

    /// What is wrong with the history boundary.
    pub open spec fn history_fault(self) -> Option<RuntimeErrorView> {
        if self.belongs_to_local_action() {
            if self.active_history_start != self.snapshot.history.len() {
                Some(conflict_error("local-action checkpoint changed canonical history"@))
            } else {
                None
            }
        } else if self.internal_input is Some {
            if self.active_history_start > self.snapshot.history.len() {
                Some(conflict_error("internal-turn history boundary exceeds canonical history"@))
            } else {
                None
            }
        } else if self.active_history_start >= self.snapshot.history.len() {
            Some(
                conflict_error("checkpoint active history boundary is outside canonical history"@),
            )
        } else if self.state matches TurnStateView::Accepted { input }
            && self.snapshot.history[self.active_history_start as int] != input_message(input) {
            Some(conflict_error("accepted checkpoint input does not match canonical history"@))
        } else {
            None
        }
    }

    /// What is wrong with a local action's preparation or result, with the
    /// visible-output progress, or with the operation fingerprint.
    pub open spec fn progress_fault(self) -> Option<RuntimeErrorView> {
        if self.state matches TurnStateView::LocalActionPrepared { call, prepared, .. }
            && !is_prepared_for(prepared, call) {
            Some(conflict_error("local-action preparation does not match its source call"@))
        } else if self.state matches TurnStateView::LocalActionExecuting { call, prepared, .. }
            && !is_prepared_for(prepared, call) {
            Some(conflict_error("local-action preparation does not match its source call"@))
        } else if self.state matches TurnStateView::LocalActionResultReady { call, result, .. }
            && !result_answers(call, result) {
            Some(conflict_error("local-action result does not match its source call"@))
        } else if self.state.has_visible_response() && !self.visible_output {
            Some(
                conflict_error("durable visible model output is missing from checkpoint progress"@),
            )
        } else if self.state.finishing_visibility() matches Some(visible) && visible
            != self.visible_output {
            Some(
                conflict_error("terminal state and checkpoint visible-output progress disagree"@),
            )
        } else if self.operation_fingerprint != binding(
            self.state,
            self.active_history_start,
            self.internal_input,
            self.visible_output,
        ) {
            Some(conflict_error("checkpoint operation fingerprint mismatch"@))
        } else {
            None
        }
    }

    /// What is wrong with the tool batch.
    pub open spec fn batch_fault(self) -> Option<RuntimeErrorView> {
        let slots_fault = Some(
            conflict_error("checkpoint tool slots do not correspond to their source calls"@),
        );
        let prefix_fault = Some(
            conflict_error("checkpoint tool results are not an ordered source-call prefix"@),
        );
        match self.state {
            TurnStateView::AwaitingApproval { source_calls, slots, .. } => {
                if !slots_match(source_calls, slots) {
                    slots_fault
                } else {
                    None
                }
            },
            TurnStateView::ExecutingTools { source_calls, slots, completed, .. } => {
                if !slots_match(source_calls, slots) {
                    slots_fault
                } else if !results_are_prefix(source_calls, completed) {
                    prefix_fault
                } else {
                    None
                }
            },
            TurnStateView::ToolOutcomeReady {
                source_calls,
                slots,
                completed,
                outcome_index,
                ..
            } => {
                if !slots_match(source_calls, slots) {
                    slots_fault
                } else if !results_are_prefix(source_calls, completed) {
                    prefix_fault
                } else if outcome_index != completed.len() || outcome_index >= source_calls.len() {
                    Some(
                        conflict_error(
                            "checkpoint raw tool outcome is not the next canonical source slot"@,
                        ),
                    )
                } else {
                    None
                }
            },
            TurnStateView::AwaitingInteraction {
                source_calls,
                slots,
                completed,
                interaction_index,
                request,
                response,
                ..
            } => {
                if !interaction_is_aligned(
                    source_calls,
                    slots,
                    completed,
                    interaction_index as int,
                    request,
                ) {
                    Some(
                        conflict_error(
                            "checkpoint interaction state is not aligned with its source call"@,
                        ),
                    )
                } else if request.origin.session != self.session || request.origin.turn
                    != self.turn {
                    Some(
                        conflict_error(
                            "checkpoint interaction belongs to another session or turn"@,
                        ),
                    )
                } else if response matches Some(answer) && answer.validity_for(request) is Err {
                    Some(response->0.validity_for(request)->Err_0)
                } else {
                    None
                }
            },
            _ => None,
        }
    }

    /// What is wrong with the cache operation of the state and with its result.
    pub open spec fn cache_fault(self) -> Option<RuntimeErrorView> {
        match self.state {
            TurnStateView::CacheOperationPrepared { operation }
            | TurnStateView::CacheOperationStarted { operation } => operation.fault(),
            TurnStateView::CacheOperationResultReady { operation, result }
            | TurnStateView::CacheOperationTerminal { operation, result } => {
                if operation.fault() is Some {
                    operation.fault()
                } else {
                    result.fault()
                }
            },
            _ => None,
        }
    }

    /// The first thing that is wrong with the checkpoint, if anything is.
    pub open spec fn fault(self) -> Option<RuntimeErrorView> {
        if self.identity_fault() is Some {
            self.identity_fault()
        } else if self.input_fault() is Some {
            self.input_fault()
        } else if self.history_fault() is Some {
            self.history_fault()
        } else if self.progress_fault() is Some {
            self.progress_fault()
        } else if self.batch_fault() is Some {
            self.batch_fault()
        } else {
            self.cache_fault()
        }
    }

    /// Whether nothing is wrong with the checkpoint.
    pub open spec fn is_valid(self) -> bool {
        self.fault() is None
    }

    /// The first thing that keeps `next` from being the immediate successor of
    /// the checkpoint, if anything does.
    pub open spec fn successor_fault(self, next: TurnCheckpointView) -> Option<RuntimeErrorView> {
        if self.fault() is Some {
            self.fault()
        } else if next.fault() is Some {
            next.fault()
        } else if self.session != next.session || self.turn != next.turn {
            Some(conflict_error("checkpoint successor belongs to another session or turn"@))
        } else if self.schema_version != next.schema_version || self.transition_revision
            != next.transition_revision {
            Some(conflict_error("checkpoint successor changed schema or transition revision"@))
        } else if self.deadline != next.deadline || self.active_history_start
            != next.active_history_start || self.internal_input != next.internal_input {
            Some(conflict_error("checkpoint successor changed immutable turn progress"@))
        } else if self.visible_output && !next.visible_output {
            Some(conflict_error("checkpoint successor regressed committed visible output"@))
        } else if next.state_revision != successor(self.state_revision)
            || next.watermark.checkpoint_sequence != successor(
            self.watermark.checkpoint_sequence,
        ) {
            Some(conflict_error("checkpoint successor skipped or repeated a state revision"@))
        } else if next.watermark.event_sequence < self.watermark.event_sequence {
            Some(conflict_error("checkpoint successor regressed its event watermark"@))
        } else if !permits(self.state, next.state) {
            Some(
                conflict_error(
                    "invalid checkpoint successor from "@ + self.state.label() + " to "@
                        + next.state.label(),
                ),
            )
        } else {
            None
        }
    }

    /// What keeps the checkpoint from a transition, before the transition
    /// table is asked.
    pub open spec fn transition_fault(
        self,
        next: TurnStateView,
        snapshot: SessionSnapshotView,
        active_history_start: usize,
        visible_output: bool,
    ) -> Option<RuntimeErrorView> {
        if self.fault() is Some {
            self.fault()
        } else if active_history_start != self.active_history_start {
            Some(conflict_error("checkpoint transition changed the accepted history boundary"@))
        } else if self.visible_output && !visible_output {
            Some(conflict_error("checkpoint transition regressed committed visible output"@))
        } else if !self.visible_output && visible_output && !next.has_visible_response() {
            Some(
                conflict_error(
                    "checkpoint visible output advanced without a durable model response"@,
                ),
            )
        } else if snapshot.id != self.session {
            Some(conflict_error("checkpoint transition snapshot belongs to another session"@))
        } else {
            None
        }
    }

    /// The checkpoint that a transition writes.
    pub open spec fn advanced(
        self,
        next: TurnStateView,
        snapshot: SessionSnapshotView,
        visible_output: bool,
        event_sequence: u64,
        updated: Timestamp,
    ) -> TurnCheckpointView {
        TurnCheckpointView {
            state_revision: successor(self.state_revision),
            operation_fingerprint: binding(
                next,
                self.active_history_start,
                self.internal_input,
                visible_output,
            ),
            visible_output,
            state: next,
            snapshot,
            watermark: self.watermark.advanced(event_sequence),
            updated,
            ..self
        }
    }

    /// What a transition gives: an error, the checkpoint itself where the
    /// state and the visible output stay what they are, or the advanced
    /// checkpoint.
    pub open spec fn transitioned(
        self,
        next: TurnStateView,
        snapshot: SessionSnapshotView,
        active_history_start: usize,
        visible_output: bool,
        event_sequence: u64,
        updated: Timestamp,
    ) -> Result<TurnCheckpointView, RuntimeErrorView> {
        let advanced = self.advanced(next, snapshot, visible_output, event_sequence, updated);
        match self.transition_fault(next, snapshot, active_history_start, visible_output) {
            Some(e) => Err(e),
            None => if self.state == next && self.visible_output == visible_output {
                Ok(self)
            } else if !permits(self.state, next) {
                Err(
                    conflict_error(
                        "invalid turn transition from "@ + self.state.label() + " to "@
                            + next.label(),
                    ),
                )
            } else if advanced.fault() is Some {
                Err(advanced.fault()->0)
            } else {
                Ok(advanced)
            },
        }
    }
}

/// The first checkpoint of a turn.
pub open spec fn first_checkpoint(
    turn: Seq<char>,
    state: TurnStateView,
    internal_input: Option<InternalTurnInputView>,
    snapshot: SessionSnapshotView,
    active_history_start: usize,
    deadline: Option<Timestamp>,
    checkpoint_sequence: u64,
    event_sequence: u64,
    updated: Timestamp,
) -> TurnCheckpointView {
    TurnCheckpointView {
        schema_version: CHECKPOINT_SCHEMA_VERSION,
        transition_revision: TURN_TRANSITION_REVISION,
        session: snapshot.id,
        turn,
        state_revision: 0,
        operation_fingerprint: binding(state, active_history_start, internal_input, false),
        active_history_start,
        internal_input,
        visible_output: false,
        state,
        snapshot,
        deadline,
        watermark: CheckpointWatermarkView {
            checkpoint_sequence,
            event_sequence,
            journal_turn: None,
        },
        updated,
    }
}

/// What accepting an internal turn gives.
pub open spec fn first_internal(
    turn: Seq<char>,
    input: InternalTurnInputView,
    snapshot: SessionSnapshotView,
    active_history_start: usize,
    deadline: Option<Timestamp>,
    checkpoint_sequence: u64,
    event_sequence: u64,
    updated: Timestamp,
) -> Result<TurnCheckpointView, RuntimeErrorView> {
    if input.validity() is Err {
        Err(input.validity()->Err_0)
    } else {
        checked(
            first_checkpoint(
                turn,
                TurnStateView::InternalAccepted { input },
                Some(input),
                snapshot,
                active_history_start,
                deadline,
                checkpoint_sequence,
                event_sequence,
                updated,
            ),
        )
    }
}

/// A checkpoint that is handed out only if nothing is wrong with it.
pub open spec fn checked(checkpoint: TurnCheckpointView) -> Result<
    TurnCheckpointView,
    RuntimeErrorView,
> {
    match checkpoint.fault() {
        Some(e) => Err(e),
        None => Ok(checkpoint),
    }
}

/// What an operation that gives a checkpoint returned.
pub open spec fn checkpoint_view(r: Result<TurnCheckpoint, RuntimeError>) -> Result<
    TurnCheckpointView,
    RuntimeErrorView,
> {
    match r {
        Ok(checkpoint) => Ok(checkpoint@),
        Err(e) => Err(e@),
    }
}

fn unsupported(what: &str, found: u32, expected: u32) -> (r: RuntimeError)
    ensures
        r@ == conflict_error(
            what@ + decimal(found as nat) + "; expected "@ + decimal(expected as nat),
        ),
{
    let mut message = what.to_owned();
    message.append(decimal_text(found as u64).as_str());
    message.append("; expected ");
    message.append(decimal_text(expected as u64).as_str());
    RuntimeError::conflict(message.as_str())
}

fn invalid_step(what: &str, from: &TurnState, to: &TurnState) -> (r: RuntimeError)
    ensures
        r@ == conflict_error(what@ + from@.label() + " to "@ + to@.label()),
{
    let mut message = what.to_owned();
    message.append(state_name(from));
    message.append(" to ");
    message.append(state_name(to));
    RuntimeError::conflict(message.as_str())
}

impl TurnState {
    fn is_accepted(&self) -> (r: bool)
        ensures
            r == self@.is_initial(),
    {
        match self {
            TurnState::Accepted { .. } | TurnState::InternalAccepted { .. }
            | TurnState::LocalActionAccepted { .. } => true,
            _ => false,
        }
    }

    fn response_is_visible(&self) -> (r: bool)
        ensures
            r == self@.has_visible_response(),
    {
        match self {
            TurnState::ModelResponseReady { response, .. } => !response.text.as_str().is_empty(),
            _ => false,
        }
    }
}

impl TurnCheckpoint {
    /// Event-journal truncation boundary required before recovery.
    ///
    /// `Some(sequence)` means discard every durable observer record at or
    /// after that sequence before resuming this non-terminal checkpoint. A
    /// terminal checkpoint returns `None`: its terminal event is already in
    /// the durable journal prefix and must be retained.
    pub fn journal_truncation_sequence(&self) -> (r: Option<u64>)
        ensures
            r == self@.truncation(),
    {
        if self.state.is_terminal() {
            None
        } else {
            Some(self.watermark.event_sequence)
        }
    }

    /// Creates the first checkpoint for an accepted turn.
    pub fn accepted(
        turn: TurnId,
        input: UserInput,
        snapshot: SessionSnapshot,
        active_history_start: usize,
        deadline: Deadline,
        checkpoint_sequence: u64,
        event_sequence: u64,
        updated: Timestamp,
    ) -> (r: Result<TurnCheckpoint, RuntimeError>)
        ensures
            checkpoint_view(r) == checked(
                first_checkpoint(
                    turn@,
                    TurnStateView::Accepted { input: input@ },
                    None,
                    snapshot@,
                    active_history_start,
                    deadline@,
                    checkpoint_sequence,
                    event_sequence,
                    updated,
                ),
            ),
    {
        let state = TurnState::Accepted { input };
        TurnCheckpoint::first(
            turn,
            state,
            None,
            snapshot,
            active_history_start,
            deadline,
            checkpoint_sequence,
            event_sequence,
            updated,
        )
    }

    /// Creates the first checkpoint for an attributed internal turn.
    pub fn internal_accepted(
        turn: TurnId,
        input: InternalTurnInput,
        snapshot: SessionSnapshot,
        active_history_start: usize,
        deadline: Deadline,
        checkpoint_sequence: u64,
        event_sequence: u64,
        updated: Timestamp,
    ) -> (r: Result<TurnCheckpoint, RuntimeError>)
        ensures
            checkpoint_view(r) == first_internal(
                turn@,
                input@,
                snapshot@,
                active_history_start,
                deadline@,
                checkpoint_sequence,
                event_sequence,
                updated,
            ),
    {
        if let Err(error) = input.validate() {
            return Err(error);
        }
        let state = TurnState::InternalAccepted { input: input.copied() };
        TurnCheckpoint::first(
            turn,
            state,
            Some(input),
            snapshot,
            active_history_start,
            deadline,
            checkpoint_sequence,
            event_sequence,
            updated,
        )
    }

    /// Creates the first checkpoint for an explicit local tool action.
    ///
    /// Unlike a provider turn, this action owns the history boundary at the
    /// end of the snapshot and appends no synthetic user message.
    pub fn local_action(
        turn: TurnId,
        request_id: RequestId,
        call: ToolCall,
        snapshot: SessionSnapshot,
        deadline: Deadline,
        checkpoint_sequence: u64,
        event_sequence: u64,
        updated: Timestamp,
    ) -> (r: Result<TurnCheckpoint, RuntimeError>)
        ensures
            checkpoint_view(r) == checked(
                first_checkpoint(
                    turn@,
                    TurnStateView::LocalActionAccepted { request_id: request_id@, call: call@ },
                    None,
                    snapshot@,
                    snapshot@.history.len() as usize,
                    deadline@,
                    checkpoint_sequence,
                    event_sequence,
                    updated,
                ),
            ),
    {
        let active_history_start = snapshot.history.len();
        let state = TurnState::LocalActionAccepted { request_id, call };
        TurnCheckpoint::first(
            turn,
            state,
            None,
            snapshot,
            active_history_start,
            deadline,
            checkpoint_sequence,
            event_sequence,
            updated,
        )
    }

    fn first(
        turn: TurnId,
        state: TurnState,
        internal_input: Option<InternalTurnInput>,
        snapshot: SessionSnapshot,
        active_history_start: usize,
        deadline: Deadline,
        checkpoint_sequence: u64,
        event_sequence: u64,
        updated: Timestamp,
    ) -> (r: Result<TurnCheckpoint, RuntimeError>)
        ensures
            checkpoint_view(r) == checked(
                first_checkpoint(
                    turn@,
                    state@,
                    internal_input.deep_view(),
                    snapshot@,
                    active_history_start,
                    deadline@,
                    checkpoint_sequence,
                    event_sequence,
                    updated,
                ),
            ),
    {
        let operation_fingerprint = checkpoint_operation_fingerprint(
            &state,
            active_history_start,
            internal_input.as_ref(),
            false,
        );
        let checkpoint = TurnCheckpoint {
            schema_version: CHECKPOINT_SCHEMA_VERSION,
            transition_revision: TURN_TRANSITION_REVISION,
            session: snapshot.id.copied(),
            turn,
            state_revision: 0,
            operation_fingerprint,
            active_history_start,
            internal_input,
            visible_output: false,
            state,
            snapshot,
            deadline,
            watermark: CheckpointWatermark::new(checkpoint_sequence, event_sequence),
            updated,
        };
        match checkpoint.validate() {
            Ok(()) => Ok(checkpoint),
            Err(error) => Err(error),
        }
    }

    /// Advances through the explicit transition table.
    ///
    /// Reapplying the exact current state is idempotent and returns the
    /// existing checkpoint unchanged. Any different permitted state advances
    /// both state and checkpoint sequence once.
    pub fn transition(
        &self,
        next: TurnState,
        snapshot: SessionSnapshot,
        event_sequence: u64,
        updated: Timestamp,
    ) -> (r: Result<TurnCheckpoint, RuntimeError>)
        ensures
            checkpoint_view(r) == self@.transitioned(
                next@,
                snapshot@,
                self@.active_history_start,
                self@.visible_output,
                event_sequence,
                updated,
            ),
    {
        self.transition_with_progress(
            next,
            snapshot,
            self.active_history_start,
            self.visible_output,
            event_sequence,
            updated,
        )
    }

    /// Advances while explicitly binding canonical-history and visible-output
    /// progress needed for exact recovery.
    pub fn transition_with_progress(
        &self,
        next: TurnState,
        snapshot: SessionSnapshot,
        active_history_start: usize,
        visible_output: bool,
        event_sequence: u64,
        updated: Timestamp,
    ) -> (r: Result<TurnCheckpoint, RuntimeError>)
        ensures
            checkpoint_view(r) == self@.transitioned(
                next@,
                snapshot@,
                active_history_start,
                visible_output,
                event_sequence,
                updated,
            ),
    {
        if let Err(error) = self.validate() {
            return Err(error);
        }
        if active_history_start != self.active_history_start {
            return Err(
                RuntimeError::conflict(
                    "checkpoint transition changed the accepted history boundary",
                ),
            );
        }
        if self.visible_output && !visible_output {
            return Err(
                RuntimeError::conflict("checkpoint transition regressed committed visible output"),
            );
        }
        if !self.visible_output && visible_output && !next.response_is_visible() {
            return Err(
                RuntimeError::conflict(
                    "checkpoint visible output advanced without a durable model response",
                ),
            );
        }
        if !snapshot.id.same(&self.session) {
            return Err(
                RuntimeError::conflict("checkpoint transition snapshot belongs to another session"),
            );
        }
        if self.state.same(&next) && self.visible_output == visible_output {
            return Ok(self.copied());
        }
        if !self.state.can_transition_to(&next) {
            return Err(invalid_step("invalid turn transition from ", &self.state, &next));
        }
        let operation_fingerprint = checkpoint_operation_fingerprint(
            &next,
            active_history_start,
            self.internal_input.as_ref(),
            visible_output,
        );
        let checkpoint = TurnCheckpoint {
            schema_version: self.schema_version,
            transition_revision: self.transition_revision,
            session: self.session.copied(),
            turn: self.turn.copied(),
            state_revision: self.state_revision.saturating_add(1),
            operation_fingerprint,
            active_history_start,
            internal_input: self.internal_input.copied(),
            visible_output,
            state: next,
            snapshot,
            deadline: self.deadline,
            watermark: self.watermark.copied().next(event_sequence),
            updated,
        };
        match checkpoint.validate() {
            Ok(()) => Ok(checkpoint),
            Err(error) => Err(error),
        }
    }

    fn validate_identity(&self) -> (r: Result<(), RuntimeError>)
        ensures
            outcome_view(r) == verdict(self@.identity_fault()),
    {
        if self.schema_version != CHECKPOINT_SCHEMA_VERSION {
            return Err(
                unsupported(
                    "unsupported checkpoint schema ",
                    self.schema_version,
                    CHECKPOINT_SCHEMA_VERSION,
                ),
            );
        }
        if self.transition_revision != TURN_TRANSITION_REVISION {
            return Err(
                unsupported(
                    "unsupported turn transition revision ",
                    self.transition_revision,
                    TURN_TRANSITION_REVISION,
                ),
            );
        }
        if self.watermark.checkpoint_sequence == 0 {
            return Err(RuntimeError::conflict("checkpoint sequence must start at one"));
        }
        if (self.state_revision == 0) != self.state.is_accepted() {
            return Err(
                RuntimeError::conflict("only an accepted checkpoint may have state revision zero"),
            );
        }
        if !self.snapshot.id.same(&self.session) {
            return Err(RuntimeError::conflict("checkpoint snapshot/session identity mismatch"));
        }
        Ok(())
    }

    fn validate_input(&self) -> (r: Result<(), RuntimeError>)
        ensures
            outcome_view(r) == verdict(self@.input_fault()),
    {
        if let Some(input) = &self.internal_input {
            if let Err(error) = input.validate() {
                return Err(error);
            }
        }
        match &self.state {
            TurnState::InternalAccepted { input } => {
                let matches_input = match &self.internal_input {
                    Some(own) => own.same(input),
                    None => false,
                };
                if !matches_input {
                    return Err(
                        RuntimeError::conflict(
                            "internal accepted state does not match checkpoint input",
                        ),
                    );
                }
            },
            TurnState::Accepted { .. } | TurnState::LocalActionAccepted { .. } => {
                if self.internal_input.is_some() {
                    return Err(
                        RuntimeError::conflict(
                            "ordinary accepted state cannot carry internal input",
                        ),
                    );
                }
            },
            _ => {},
        }
        Ok(())
    }

    fn validate_history(&self) -> (r: Result<(), RuntimeError>)
        ensures
            outcome_view(r) == verdict(self@.history_fault()),
    {
        let internal_turn = self.internal_input.is_some();
        let at_the_end = self.active_history_start == self.snapshot.history.len();
        let local_action = !internal_turn && match &self.state {
            TurnState::LocalActionAccepted { .. } | TurnState::LocalActionPrepared { .. }
            | TurnState::LocalActionExecuting { .. } | TurnState::LocalActionOutcomeReady { .. }
            | TurnState::LocalActionResultReady { .. } => true,
            TurnState::Completing { .. } | TurnState::PublishingTerminal { .. }
            | TurnState::Terminal { .. } => at_the_end,
            _ => false,
        };
        if local_action {
            if !at_the_end {
                return Err(
                    RuntimeError::conflict("local-action checkpoint changed canonical history"),
                );
            }
        } else if internal_turn {
            if self.active_history_start > self.snapshot.history.len() {
                return Err(
                    RuntimeError::conflict(
                        "internal-turn history boundary exceeds canonical history",
                    ),
                );
            }
        } else {
            if self.active_history_start >= self.snapshot.history.len() {
                return Err(
                    RuntimeError::conflict(
                        "checkpoint active history boundary is outside canonical history",
                    ),
                );
            }
            if let TurnState::Accepted { input } = &self.state {
                let message = input.copied().into_message();
                if !self.snapshot.history[self.active_history_start].same(&message) {
                    return Err(
                        RuntimeError::conflict(
                            "accepted checkpoint input does not match canonical history",
                        ),
                    );
                }
            }
        }
        Ok(())
    }

    fn validate_progress(&self) -> (r: Result<(), RuntimeError>)
        ensures
            outcome_view(r) == verdict(self@.progress_fault()),
    {
        match &self.state {
            TurnState::LocalActionPrepared { call, prepared, .. }
            | TurnState::LocalActionExecuting { call, prepared, .. } => {
                if !prepared_matches_call(prepared, call) {
                    return Err(
                        RuntimeError::conflict(
                            "local-action preparation does not match its source call",
                        ),
                    );
                }
            },
            TurnState::LocalActionResultReady { call, result, .. } => {
                if !result_matches_call(result, call) {
                    return Err(
                        RuntimeError::conflict(
                            "local-action result does not match its source call",
                        ),
                    );
                }
            },
            _ => {},
        }
        if self.state.response_is_visible() && !self.visible_output {
            return Err(
                RuntimeError::conflict(
                    "durable visible model output is missing from checkpoint progress",
                ),
            );
        }
        match &self.state {
            TurnState::Completing { visible_output, .. }
            | TurnState::PublishingTerminal { visible_output, .. }
            | TurnState::Terminal { visible_output, .. } => {
                if *visible_output != self.visible_output {
                    return Err(
                        RuntimeError::conflict(
                            "terminal state and checkpoint visible-output progress disagree",
                        ),
                    );
                }
            },
            _ => {},
        }
        let expected = checkpoint_operation_fingerprint(
            &self.state,
            self.active_history_start,
            self.internal_input.as_ref(),
            self.visible_output,
        );
        if !self.operation_fingerprint.same(&expected) {
            return Err(RuntimeError::conflict("checkpoint operation fingerprint mismatch"));
        }
        Ok(())
    }

    fn validate_batch(&self) -> (r: Result<(), RuntimeError>)
        ensures
            outcome_view(r) == verdict(self@.batch_fault()),
    {
        match &self.state {
            TurnState::AwaitingApproval { source_calls, slots, .. }
            | TurnState::ExecutingTools { source_calls, slots, .. }
            | TurnState::ToolOutcomeReady { source_calls, slots, .. } => {
                if !slots_correspond(source_calls, slots) {
                    return Err(
                        RuntimeError::conflict(
                            "checkpoint tool slots do not correspond to their source calls",
                        ),
                    );
                }
            },
            _ => {},
        }
        match &self.state {
            TurnState::ExecutingTools { source_calls, completed, .. }
            | TurnState::ToolOutcomeReady { source_calls, completed, .. } => {
                if !results_form_prefix(source_calls, completed) {
                    return Err(
                        RuntimeError::conflict(
                            "checkpoint tool results are not an ordered source-call prefix",
                        ),
                    );
                }
            },
            _ => {},
        }
        if let TurnState::ToolOutcomeReady { source_calls, completed, outcome_index, .. } =
            &self.state {
            if *outcome_index != completed.len() || *outcome_index >= source_calls.len() {
                return Err(
                    RuntimeError::conflict(
                        "checkpoint raw tool outcome is not the next canonical source slot",
                    ),
                );
            }
        }
        if let TurnState::AwaitingInteraction {
            source_calls,
            slots,
            completed,
            interaction_index,
            request,
            response,
            ..
        } = &self.state {
            if !interaction_state_valid(
                source_calls,
                slots,
                completed,
                *interaction_index,
                request,
            ) {
                return Err(
                    RuntimeError::conflict(
                        "checkpoint interaction state is not aligned with its source call",
                    ),
                );
            }
            if !request.origin().session().same(&self.session) || !request.origin().turn().same(
                &self.turn,
            ) {
                return Err(
                    RuntimeError::conflict(
                        "checkpoint interaction belongs to another session or turn",
                    ),
                );
            }
            if let Some(answer) = response {
                if let Err(error) = answer.validate_for(request) {
                    return Err(error);
                }
            }
        }
        Ok(())
    }

    fn validate_cache_operation(&self) -> (r: Result<(), RuntimeError>)
        ensures
            outcome_view(r) == verdict(self@.cache_fault()),
    {
        match &self.state {
            TurnState::CacheOperationPrepared { operation }
            | TurnState::CacheOperationStarted { operation } => operation.validate(),
            TurnState::CacheOperationResultReady { operation, result }
            | TurnState::CacheOperationTerminal { operation, result } => {
                if let Err(error) = operation.validate() {
                    return Err(error);
                }
                result.validate()
            },
            _ => Ok(()),
        }
    }

    /// Validates schema compatibility, identity, and operation fingerprints.
    pub fn validate(&self) -> (r: Result<(), RuntimeError>)
        ensures
            outcome_view(r) == verdict(self@.fault()),
    {
        if let Err(error) = self.validate_identity() {
            return Err(error);
        }
        if let Err(error) = self.validate_input() {
            return Err(error);
        }
        if let Err(error) = self.validate_history() {
            return Err(error);
        }
        if let Err(error) = self.validate_progress() {
            return Err(error);
        }
        if let Err(error) = self.validate_batch() {
            return Err(error);
        }
        self.validate_cache_operation()
    }

    /// Validates that `next` is the one immediate successor of `self`.
    ///
    /// Stores use this before replacing their latest record so a caller cannot
    /// splice a separately valid checkpoint across requests, steps, or
    /// transition revisions.
    pub fn validate_successor(&self, next: &TurnCheckpoint) -> (r: Result<(), RuntimeError>)
        ensures
            outcome_view(r) == verdict(self@.successor_fault(next@)),
    {
        if let Err(error) = self.validate() {
            return Err(error);
        }
        if let Err(error) = next.validate() {
            return Err(error);
        }
        if !self.session.same(&next.session) || !self.turn.same(&next.turn) {
            return Err(
                RuntimeError::conflict("checkpoint successor belongs to another session or turn"),
            );
        }
        if self.schema_version != next.schema_version || self.transition_revision
            != next.transition_revision {
            return Err(
                RuntimeError::conflict(
                    "checkpoint successor changed schema or transition revision",
                ),
            );
        }
        if !self.deadline.same(&next.deadline) || self.active_history_start
            != next.active_history_start || !self.internal_input.same(&next.internal_input) {
            return Err(
                RuntimeError::conflict("checkpoint successor changed immutable turn progress"),
            );
        }
        if self.visible_output && !next.visible_output {
            return Err(
                RuntimeError::conflict("checkpoint successor regressed committed visible output"),
            );
        }
        if next.state_revision != self.state_revision.saturating_add(1)
            || next.watermark.checkpoint_sequence
            != self.watermark.checkpoint_sequence.saturating_add(1) {
            return Err(
                RuntimeError::conflict("checkpoint successor skipped or repeated a state revision"),
            );
        }
        if next.watermark.event_sequence < self.watermark.event_sequence {
            return Err(
                RuntimeError::conflict("checkpoint successor regressed its event watermark"),
            );
        }
        if !self.state.can_transition_to(&next.state) {
            return Err(
                invalid_step("invalid checkpoint successor from ", &self.state, &next.state),
            );
        }
        Ok(())
    }
}

} // verus!
