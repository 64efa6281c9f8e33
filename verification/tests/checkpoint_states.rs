//! Local actions, interactions, internal turns, and cache operations.

use agent_runtime_core::checkpoint::validation::checkpoint_operation_fingerprint;
use agent_runtime_core::checkpoint::{
    validate_cache_operation_id, AssembledModelResponse, CacheOperationCheckpoint,
    CacheOperationResultCheckpoint, CheckpointWatermark, ToolSlotCheckpoint, TurnCheckpoint,
    TurnState,
};
use agent_runtime_core::clock::{Deadline, Timestamp};
use agent_runtime_core::collections::TextMap;
use agent_runtime_core::content::{
    ContentPart, InternalTurnInput, InternalTurnSource, Message, ToolCall, ToolResultBlock,
    UserInput,
};
use agent_runtime_core::error::RuntimeError;
use agent_runtime_core::event::{
    CacheOperationOutcome, CacheOperationReason, CacheState, TurnFinish,
};
use agent_runtime_core::ids::{
    AttemptId, CacheOperationId, InteractionRequestId, QuestionId, RequestId, SessionId,
    ToolCallId, TurnId,
};
use agent_runtime_core::interaction::{
    InteractionOrigin, InteractionOutcomeKind, InteractionRequest, InteractionResponse,
    InteractionSensitivity,
};
use agent_runtime_core::json::Json;
use agent_runtime_core::provider::{
    CacheAvailabilityEvidence, CacheIdentity, FinishReason, ProviderAttemptPurpose,
};
use agent_runtime_core::security::{Permission, PermissionSet, SecurityResource};
use agent_runtime_core::store::{SessionIdentityState, SessionSnapshot};
use agent_runtime_core::tool::{PreparedToolCall, ToolCallDisplay, ToolEffects, ToolOutcome};
use agent_runtime_core::usage::UsageLedger;

fn snapshot() -> SessionSnapshot {
    SessionSnapshot {
        id: SessionId::new("session-1"),
        history: vec![Message::user("hello")],
        usage: UsageLedger::new(),
        identity: SessionIdentityState::default(),
        manifests: Vec::new(),
        extension_state: TextMap::new(),
        updated: Timestamp::zero(),
    }
}

fn call(id: &str) -> ToolCall {
    ToolCall {
        id: ToolCallId::new(id),
        name: "ask".into(),
        arguments: Json::parse("{}").unwrap(),
    }
}

fn prepared(call: &ToolCall, permissions: PermissionSet) -> PreparedToolCall {
    PreparedToolCall::new(
        call.id.clone(),
        &call.name,
        call.arguments.clone(),
        permissions,
        SecurityResource::other("tool", &call.name),
        ToolEffects::default(),
        ToolCallDisplay::new("Run"),
    )
}

fn result(call: &ToolCall) -> ToolResultBlock {
    ToolResultBlock {
        call_id: call.id.clone(),
        name: call.name.clone(),
        content: vec![ContentPart::text("done")],
        is_error: false,
    }
}

fn outcome() -> ToolOutcome {
    ToolOutcome { content: vec![ContentPart::text("done")], is_error: false }
}

fn request_id() -> RequestId {
    RequestId::new("request-a")
}

fn local_action() -> TurnCheckpoint {
    TurnCheckpoint::local_action(
        TurnId::new("turn-1"),
        request_id(),
        call("call-1"),
        snapshot(),
        Deadline::never(),
        1,
        3,
        Timestamp::zero(),
    )
    .unwrap()
}

fn step(from: &TurnCheckpoint, state: TurnState) -> Result<TurnCheckpoint, RuntimeError> {
    from.transition(state, snapshot(), from.watermark.event_sequence + 1, Timestamp(1))
}

#[test]
fn a_local_action_runs_to_its_end() {
    let accepted = local_action();
    assert_eq!(accepted.active_history_start, 1);
    let source = call("call-1");
    let ready = prepared(&source, PermissionSet::new());
    let executing = TurnState::LocalActionExecuting {
        request_id: request_id(),
        call: source.clone(),
        prepared: ready.clone(),
    };
    assert_eq!(
        step(&accepted, executing.clone()).unwrap_err().message,
        "invalid turn transition from local_action_accepted to local_action_executing"
    );
    let prepared_state = TurnState::LocalActionPrepared {
        request_id: request_id(),
        call: source.clone(),
        prepared: ready,
    };
    let first = step(&accepted, prepared_state.clone()).unwrap();
    let second = step(&first, executing).unwrap();
    assert_eq!(second.state_revision, 2);
    assert_eq!(second.watermark, CheckpointWatermark::new(3, 5));
    assert!(step(&second, prepared_state).is_err());
    let third = step(
        &second,
        TurnState::LocalActionOutcomeReady {
            request_id: request_id(),
            call: source.clone(),
            outcome: outcome(),
        },
    )
    .unwrap();
    let fourth = step(
        &third,
        TurnState::LocalActionResultReady {
            request_id: request_id(),
            call: source.clone(),
            result: result(&source),
        },
    )
    .unwrap();
    let last = step(
        &fourth,
        TurnState::Completing {
            finish: TurnFinish::Completed,
            visible_output: false,
            provider_error_kind: None,
        },
    )
    .unwrap();
    assert_eq!(third.validate_successor(&fourth), Ok(()));
    assert_eq!(fourth.validate_successor(&last), Ok(()));
}

#[test]
fn a_local_action_keeps_history_and_call() {
    let accepted = local_action();
    let other = call("call-2");
    let spliced = TurnState::LocalActionPrepared {
        request_id: request_id(),
        call: other.clone(),
        prepared: prepared(&other, PermissionSet::new()),
    };
    assert!(!accepted.state.can_transition_to(&spliced));

    let mut longer = snapshot();
    longer.history.push(Message::user("more"));
    let source = call("call-1");
    let state = TurnState::LocalActionPrepared {
        request_id: request_id(),
        call: source.clone(),
        prepared: prepared(&source, PermissionSet::new()),
    };
    assert_eq!(
        accepted.transition(state, longer, 4, Timestamp(1)).unwrap_err().message,
        "local-action checkpoint changed canonical history"
    );

    let mismatched = TurnState::LocalActionResultReady {
        request_id: request_id(),
        call: source,
        result: result(&other),
    };
    assert!(!accepted.state.can_transition_to(&mismatched));
}

#[test]
fn an_internal_turn_carries_its_input() {
    let input = InternalTurnInput {
        source: InternalTurnSource::Goal { goal: "goal-1".into() },
        parts: vec![ContentPart::text("continue")],
        defect: None,
    };
    let accept = |input: InternalTurnInput, start: usize| {
        TurnCheckpoint::internal_accepted(
            TurnId::new("turn-1"),
            input,
            snapshot(),
            start,
            Deadline::never(),
            1,
            3,
            Timestamp::zero(),
        )
    };
    let accepted = accept(input.clone(), 1).unwrap();
    assert_eq!(accepted.internal_input, Some(input.clone()));
    assert_eq!(
        accept(input.clone(), 2).unwrap_err().message,
        "internal-turn history boundary exceeds canonical history"
    );
    let mut defective = input;
    defective.defect = Some(RuntimeError::config("empty"));
    assert_eq!(accept(defective, 1), Err(RuntimeError::config("empty")));

    let mut bare = accepted.clone();
    bare.internal_input = None;
    assert_eq!(
        bare.validate().unwrap_err().message,
        "internal accepted state does not match checkpoint input"
    );
    let next = step(&accepted, TurnState::Planning { step: 0 }).unwrap();
    assert_eq!(next.internal_input, accepted.internal_input);
}

fn question(source: &ToolCall) -> InteractionRequest {
    InteractionRequest {
        id: InteractionRequestId::new("ask-1"),
        origin: InteractionOrigin {
            session: SessionId::new("session-1"),
            turn: TurnId::new("turn-1"),
            call: source.id.clone(),
        },
        questions: vec![QuestionId::new("q-1")],
        sensitivity: InteractionSensitivity::Ordinary,
        defect: None,
    }
}

fn answer(request: &str) -> InteractionResponse {
    InteractionResponse {
        request: InteractionRequestId::new(request),
        outcome: InteractionOutcomeKind::Answered,
        answers: Json::parse("{\"q-1\": \"yes\"}").unwrap(),
        defect: None,
    }
}

fn executing(permissions: PermissionSet) -> TurnState {
    let source = call("call-1");
    TurnState::ExecutingTools {
        request_id: request_id(),
        source_calls: vec![source.clone()],
        slots: vec![ToolSlotCheckpoint::Prepared(prepared(&source, permissions))],
        completed: Vec::new(),
        step: 4,
    }
}

fn waiting(permissions: PermissionSet, response: Option<InteractionResponse>) -> TurnState {
    let source = call("call-1");
    TurnState::AwaitingInteraction {
        request_id: request_id(),
        source_calls: vec![source.clone()],
        slots: vec![ToolSlotCheckpoint::Prepared(prepared(&source, permissions))],
        completed: Vec::new(),
        interaction_index: 0,
        request: question(&source),
        response,
        step: 4,
    }
}

#[test]
fn an_interaction_waits_for_its_answer() {
    let source = call("call-1");
    let asked = waiting(PermissionSet::new(), None);
    let answered = waiting(PermissionSet::new(), Some(answer("ask-1")));
    let misdirected = waiting(PermissionSet::new(), Some(answer("ask-2")));
    assert!(executing(PermissionSet::new()).can_transition_to(&asked));
    assert!(!executing(PermissionSet::new()).can_transition_to(&answered));
    assert!(asked.can_transition_to(&answered));
    assert!(!asked.can_transition_to(&misdirected));
    assert!(!answered.can_transition_to(&asked));

    let done = TurnState::ExecutingTools {
        request_id: request_id(),
        source_calls: vec![source.clone()],
        slots: vec![ToolSlotCheckpoint::Prepared(prepared(&source, PermissionSet::new()))],
        completed: vec![result(&source)],
        step: 4,
    };
    assert!(answered.can_transition_to(&done));
    assert!(!asked.can_transition_to(&done));
    assert!(done.can_transition_to(&TurnState::Planning { step: 5 }));
    assert!(!done.can_transition_to(&TurnState::Planning { step: 4 }));

    // A call with authority of its own is no interaction.
    let powerful = PermissionSet::single(Permission::FsRead);
    assert!(!executing(powerful.clone()).can_transition_to(&waiting(powerful, None)));
}

#[test]
fn a_raw_outcome_is_the_next_call() {
    let source = call("call-1");
    let raw = |index: usize| TurnState::ToolOutcomeReady {
        request_id: request_id(),
        source_calls: vec![source.clone()],
        slots: vec![ToolSlotCheckpoint::Prepared(prepared(&source, PermissionSet::new()))],
        completed: Vec::new(),
        outcome_index: index,
        outcome: outcome(),
        step: 4,
    };
    assert!(executing(PermissionSet::new()).can_transition_to(&raw(0)));
    assert!(!executing(PermissionSet::new()).can_transition_to(&raw(1)));
    assert!(waiting(PermissionSet::new(), None).can_transition_to(&raw(0)));
    assert!(!waiting(PermissionSet::new(), Some(answer("ask-2"))).can_transition_to(&raw(0)));
}

#[test]
fn a_response_without_calls_returns_to_planning() {
    let response = |tool_calls: Vec<ToolCall>| TurnState::ModelResponseReady {
        request_id: request_id(),
        response: AssembledModelResponse {
            attempt: AttemptId::new("attempt-1"),
            text: String::new(),
            reasoning: Vec::new(),
            finish: FinishReason::Stop,
            advertised_tools: Vec::new(),
            tool_calls,
        },
        step: 2,
    };
    assert!(response(Vec::new()).can_transition_to(&TurnState::Planning { step: 2 }));
    assert!(!response(Vec::new()).can_transition_to(&TurnState::Planning { step: 3 }));
    assert!(!response(vec![call("call-1")]).can_transition_to(&TurnState::Planning { step: 2 }));
}

fn operation(attempt: Option<&str>) -> CacheOperationCheckpoint {
    CacheOperationCheckpoint {
        operation: CacheOperationId::new("op:1"),
        request: Some(request_id()),
        attempt: attempt.map(AttemptId::new),
        identity: CacheIdentity { digest: "abc".into(), defect: None },
        purpose: ProviderAttemptPurpose::CacheMaintenance,
        fingerprint: "0a".repeat(32),
        preflight_rejection: None,
        expected_read_tokens: Some(12),
    }
}

fn cache_result(outcome: CacheOperationOutcome) -> CacheOperationResultCheckpoint {
    CacheOperationResultCheckpoint {
        outcome,
        state: CacheState::Eligible,
        evidence: None,
        metrics: TextMap::new(),
        rejection_reason: None,
        terminal_reason: None,
    }
}

#[test]
fn a_cache_operation_starts_before_it_completes() {
    let prepared = TurnState::CacheOperationPrepared { operation: operation(None) };
    let started = TurnState::CacheOperationStarted { operation: operation(Some("attempt-1")) };
    let ready = |attempt: Option<&str>, outcome: CacheOperationOutcome| {
        TurnState::CacheOperationResultReady {
            operation: operation(attempt),
            result: cache_result(outcome),
        }
    };
    let over = TurnState::CacheOperationTerminal {
        operation: operation(Some("attempt-1")),
        result: cache_result(CacheOperationOutcome::Completed),
    };
    assert!(prepared.can_transition_to(&started));
    assert!(prepared.can_transition_to(&ready(None, CacheOperationOutcome::Rejected)));
    assert!(!prepared.can_transition_to(&ready(None, CacheOperationOutcome::Completed)));
    assert!(started.can_transition_to(&ready(Some("attempt-1"), CacheOperationOutcome::Completed)));
    assert!(!started.can_transition_to(&ready(Some("attempt-2"), CacheOperationOutcome::Completed)));
    assert!(!started.can_transition_to(&ready(Some("attempt-1"), CacheOperationOutcome::Rejected)));
    assert!(ready(Some("attempt-1"), CacheOperationOutcome::Completed).can_transition_to(&over));
    assert!(over.is_terminal());
    assert!(!started.is_terminal());
}

#[test]
fn cache_operations_are_validated() {
    assert_eq!(operation(None).validate(), Ok(()));
    assert_eq!(validate_cache_operation_id(&CacheOperationId::new("a.B_9:-")), Ok(()));
    for id in ["", "with space", "é"] {
        assert!(validate_cache_operation_id(&CacheOperationId::new(id)).is_err());
    }
    assert!(validate_cache_operation_id(&CacheOperationId::new(&"x".repeat(256))).is_ok());
    assert!(validate_cache_operation_id(&CacheOperationId::new(&"x".repeat(257))).is_err());

    let mut upper = operation(None);
    upper.fingerprint = "0A".repeat(32);
    assert_eq!(
        upper.validate().unwrap_err().message,
        "cache checkpoint operation fingerprint is invalid"
    );
    let mut ordinary = operation(None);
    ordinary.purpose = ProviderAttemptPurpose::Ordinary;
    assert_eq!(
        ordinary.validate().unwrap_err().message,
        "ordinary provider attempts cannot use cache checkpoints"
    );
    let mut defective = operation(None);
    defective.identity.defect = Some("no digest".into());
    assert_eq!(defective.validate(), Err(RuntimeError::conflict("no digest")));
}

#[test]
fn cache_results_are_validated() {
    assert_eq!(cache_result(CacheOperationOutcome::Completed).validate(), Ok(()));
    assert_eq!(
        cache_result(CacheOperationOutcome::Rejected).validate().unwrap_err().message,
        "rejected cache checkpoint has invalid terminal reasons"
    );
    let mut admitted = cache_result(CacheOperationOutcome::Completed);
    admitted.rejection_reason = Some(CacheOperationReason::Unsupported);
    assert_eq!(
        admitted.validate().unwrap_err().message,
        "admitted cache checkpoint cannot carry a rejection reason"
    );
    let mut metrics = cache_result(CacheOperationOutcome::Completed);
    metrics.metrics.insert("read_tokens", 3);
    assert_eq!(metrics.validate(), Ok(()));
    metrics.metrics.insert("Read", 3);
    assert_eq!(
        metrics.validate().unwrap_err().message,
        "cache checkpoint metrics exceed bounded limits"
    );
    let mut evidence = cache_result(CacheOperationOutcome::Completed);
    evidence.evidence = Some(CacheAvailabilityEvidence {
        identity: CacheIdentity { digest: "abc".into(), defect: None },
        read_tokens: None,
        write_tokens: None,
        defect: Some("stale".into()),
    });
    assert_eq!(
        evidence.validate().unwrap_err().message,
        "cache checkpoint evidence is invalid"
    );
}

#[test]
fn watermarks_advance_by_one() {
    let scoped = CheckpointWatermark::new(4, 9).scoped_to(TurnId::new("turn-1"));
    let next = scoped.next(12);
    assert_eq!((next.checkpoint_sequence, next.event_sequence), (5, 12));
    assert_eq!(next.journal_turn, Some(TurnId::new("turn-1")));
    assert_eq!(CheckpointWatermark::new(u64::MAX, 0).next(0).checkpoint_sequence, u64::MAX);
}

#[test]
fn a_checkpoint_from_another_revision_is_named() {
    let mut checkpoint = local_action();
    checkpoint.schema_version = 9;
    assert_eq!(
        checkpoint.validate().unwrap_err().message,
        "unsupported checkpoint schema 9; expected 3"
    );
    let mut revised = local_action();
    revised.transition_revision = 1;
    assert_eq!(
        revised.validate().unwrap_err().message,
        "unsupported turn transition revision 1; expected 4"
    );
}

#[test]
fn operation_fingerprints_follow_the_state() {
    let planning = TurnState::Planning { step: 0 };
    assert_eq!(
        planning.operation_fingerprint(),
        TurnState::Planning { step: 0 }.operation_fingerprint()
    );
    assert_ne!(
        planning.operation_fingerprint(),
        TurnState::Planning { step: 1 }.operation_fingerprint()
    );
}

fn cache_checkpoint(state: TurnState) -> TurnCheckpoint {
    let accepted = TurnCheckpoint::accepted(
        TurnId::new("turn-1"),
        UserInput::text("hello"),
        snapshot(),
        0,
        Deadline::never(),
        1,
        4,
        Timestamp(7),
    )
    .unwrap();
    let operation_fingerprint = checkpoint_operation_fingerprint(&state, 0, None, false);
    TurnCheckpoint { state, state_revision: 1, operation_fingerprint, ..accepted }
}

#[test]
fn a_checkpoint_with_a_malformed_cache_operation_is_not_valid() {
    let malformed = || CacheOperationCheckpoint {
        operation: CacheOperationId::new("op 1"),
        ..operation(Some("attempt-1"))
    };
    let completed = || cache_result(CacheOperationOutcome::Completed);
    let good = [
        TurnState::CacheOperationPrepared { operation: operation(None) },
        TurnState::CacheOperationStarted { operation: operation(Some("attempt-1")) },
        TurnState::CacheOperationResultReady {
            operation: operation(Some("attempt-1")),
            result: completed(),
        },
        TurnState::CacheOperationTerminal {
            operation: operation(Some("attempt-1")),
            result: completed(),
        },
    ];
    for state in good {
        assert_eq!(cache_checkpoint(state).validate(), Ok(()));
    }
    let bad = [
        TurnState::CacheOperationPrepared { operation: malformed() },
        TurnState::CacheOperationStarted { operation: malformed() },
        TurnState::CacheOperationResultReady { operation: malformed(), result: completed() },
        TurnState::CacheOperationTerminal { operation: malformed(), result: completed() },
    ];
    for state in bad {
        assert_eq!(
            cache_checkpoint(state).validate().unwrap_err().message,
            "cache operation identity is empty, too long, or malformed"
        );
    }
    let rejected = cache_checkpoint(TurnState::CacheOperationTerminal {
        operation: operation(Some("attempt-1")),
        result: cache_result(CacheOperationOutcome::Rejected),
    });
    assert_eq!(
        rejected.validate().unwrap_err().message,
        "rejected cache checkpoint has invalid terminal reasons"
    );
}

#[test]
fn the_journal_of_a_finished_cache_operation_is_kept() {
    let result = || cache_result(CacheOperationOutcome::Completed);
    let over = cache_checkpoint(TurnState::CacheOperationTerminal {
        operation: operation(Some("attempt-1")),
        result: result(),
    });
    assert!(over.state.is_terminal());
    assert_eq!(over.journal_truncation_sequence(), None);
    let ready = cache_checkpoint(TurnState::CacheOperationResultReady {
        operation: operation(Some("attempt-1")),
        result: result(),
    });
    assert_eq!(ready.journal_truncation_sequence(), Some(4));
}

#[test]
fn operation_fingerprints_tell_prepared_actions_apart() {
    let call = call("call-1");
    let state = |permissions: Vec<Permission>, kind: &str, name: &str, effects: ToolEffects| {
        TurnState::LocalActionPrepared {
            request_id: request_id(),
            call: call.clone(),
            prepared: PreparedToolCall::new(
                call.id.clone(),
                &call.name,
                call.arguments.clone(),
                PermissionSet::from_list(permissions),
                SecurityResource::other(kind, name),
                effects,
                ToolCallDisplay::new("Ask"),
            ),
        }
    };
    let custom = |name: &str| vec![Permission::Custom(name.into())];
    let states = [
        state(custom("other"), "k", "1", ToolEffects::read_only()),
        state(Vec::new(), "other", "k", ToolEffects::read_only().with_write("0")),
        state(custom("fs_read"), "k", "1", ToolEffects::read_only()),
        state(vec![Permission::FsRead], "k", "1", ToolEffects::read_only()),
        state(Vec::new(), "k", "1", ToolEffects::read_only()),
    ];
    for (i, a) in states.iter().enumerate() {
        for (j, b) in states.iter().enumerate() {
            assert_eq!(a.operation_fingerprint() == b.operation_fingerprint(), i == j);
        }
    }
}
