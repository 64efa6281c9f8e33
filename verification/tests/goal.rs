//! Persistent goals.

use agent_runtime_core::clock::Timestamp;
use agent_runtime_core::error::ErrorKind;
use agent_runtime_core::goal::{
    GoalCommandResult, GoalState, GoalStatus, GoalStoppedReason, GoalUsageProvenance,
    MAX_GOAL_OBJECTIVE_CHARS, MAX_GOAL_REASON_CHARS,
};
use agent_runtime_core::ids::GoalId;

fn goal() -> GoalState {
    GoalState::new(
        GoalId::new("goal-1"),
        "Ship the goal system",
        Some(100),
        Timestamp(10),
        2,
        None,
    )
    .unwrap()
}

#[test]
fn validates_bounds_and_positive_budget() {
    assert!(GoalState::new(GoalId::new("goal-1"), "", None, Timestamp::zero(), 0, None).is_err());
    assert!(GoalState::new(
        GoalId::new("goal-1"),
        "objective",
        Some(0),
        Timestamp::zero(),
        0,
        None,
    )
    .is_err());
}

#[test]
fn stale_mutation_and_model_owned_statuses_fail_closed() {
    let mut state = goal();
    let (id, generation) = (state.id.clone(), state.generation);
    assert!(state
        .edit(&GoalId::new("other"), generation, "new".into(), Timestamp(11))
        .is_err());
    assert!(state
        .model_update(&id, generation, GoalStatus::Paused, None, Timestamp(11))
        .is_err());
    assert_eq!(state, goal());
}

#[test]
fn budget_limited_resume_requires_more_budget() {
    let mut state = goal();
    state.usage.charged_tokens = Some(120);
    state
        .stop(
            GoalStatus::BudgetLimited,
            GoalStoppedReason::new("budget_reached", None).unwrap(),
            Timestamp(11),
        )
        .unwrap();
    let (id, generation) = (state.id.clone(), state.generation);
    assert!(state.resume(&id, generation, Timestamp(12)).is_err());
    state.set_budget(&id, generation, Some(200), Timestamp(13)).unwrap();
    let generation = state.generation;
    state.resume(&id, generation, Timestamp(14)).unwrap();
    assert_eq!(state.status, GoalStatus::Active);
}

#[test]
fn model_complete_and_block_are_the_only_model_owned_terminals() {
    let mut blocked = goal();
    let (id, generation) = (blocked.id.clone(), blocked.generation);
    blocked
        .model_update(
            &id,
            generation,
            GoalStatus::Blocked,
            Some(GoalStoppedReason::new("dependency_unavailable", None).unwrap()),
            Timestamp(11),
        )
        .unwrap();
    assert_eq!(blocked.status, GoalStatus::Blocked);
    assert_eq!(
        blocked.stopped_reason.as_ref().map(|reason| reason.code.as_str()),
        Some("dependency_unavailable")
    );

    let mut complete = goal();
    complete
        .model_update(&id, generation, GoalStatus::Complete, None, Timestamp(11))
        .unwrap();
    assert_eq!(complete.status, GoalStatus::Complete);
    assert!(complete.stopped_reason.is_none());
}

#[test]
fn a_change_moves_the_goal_on_by_one_generation() {
    let mut state = goal();
    let id = state.id.clone();
    state.pause(&id, 1, Timestamp(11)).unwrap();
    assert_eq!(state.status, GoalStatus::Paused);
    assert_eq!((state.generation, state.updated_at), (2, Timestamp(11)));
    assert_eq!(
        state.pause(&id, 1, Timestamp(12)).unwrap_err().message,
        "stale goal identity or generation"
    );
    assert_eq!(
        state.pause(&id, 2, Timestamp(12)).unwrap_err().message,
        "only an active goal can be paused"
    );
    state.resume(&id, 2, Timestamp(13)).unwrap();
    let mut expected = goal();
    expected.generation = 3;
    expected.updated_at = Timestamp(13);
    assert_eq!(state, expected);
}

#[test]
fn a_complete_goal_takes_no_more_changes() {
    let mut state = goal();
    let id = state.id.clone();
    state.model_update(&id, 1, GoalStatus::Complete, None, Timestamp(11)).unwrap();
    let complete = state.clone();
    assert_eq!(
        state.edit(&id, 2, "more".into(), Timestamp(12)).unwrap_err().message,
        "complete goal cannot be edited"
    );
    assert_eq!(
        state.set_budget(&id, 2, None, Timestamp(12)).unwrap_err().message,
        "complete goal budget cannot be changed"
    );
    assert_eq!(
        state.resume(&id, 2, Timestamp(12)).unwrap_err().message,
        "goal status cannot be resumed"
    );
    let reason = GoalStoppedReason::new("late", None).unwrap();
    assert_eq!(state.stop(GoalStatus::Blocked, reason, Timestamp(12)), Ok(()));
    assert_eq!(state, complete);
}

#[test]
fn a_budget_change_preserves_status() {
    let mut state = goal();
    let id = state.id.clone();
    state.usage.charged_tokens = Some(40);
    assert_eq!(state.remaining_budget(), Some(60));
    state.set_budget(&id, 1, Some(40), Timestamp(11)).unwrap();
    let mut expected = goal();
    expected.usage.charged_tokens = Some(40);
    expected.token_budget = Some(40);
    expected.generation = 2;
    expected.updated_at = Timestamp(11);
    assert_eq!(state, expected);
    assert_eq!(state.remaining_budget(), Some(0));
    assert_eq!(
        state.set_budget(&id, 2, Some(0), Timestamp(12)).unwrap_err().message,
        "goal token budget must be positive"
    );
    assert_eq!(state, expected);
}

#[test]
fn a_resume_needs_budget_and_trustworthy_usage() {
    let mut state = goal();
    let id = state.id.clone();
    state.usage.charged_tokens = Some(120);
    let reason = GoalStoppedReason::new("budget_reached", None).unwrap();
    state.stop(GoalStatus::BudgetLimited, reason, Timestamp(11)).unwrap();
    assert_eq!(
        state.resume(&id, 2, Timestamp(12)).unwrap_err().message,
        "goal requires a raised or removed budget before resume"
    );
    state.usage.provenance = GoalUsageProvenance::Unknown;
    assert_eq!(
        state.resume(&id, 2, Timestamp(12)).unwrap_err().message,
        "budgeted goal cannot resume without trustworthy accounting"
    );
    state.set_budget(&id, 2, None, Timestamp(13)).unwrap();
    assert_eq!(state.status, GoalStatus::BudgetLimited);
    state.resume(&id, 3, Timestamp(14)).unwrap();
    assert_eq!(state.remaining_budget(), None);
}

#[test]
fn untrustworthy_usage_leaves_no_remaining_budget() {
    let mut state = goal();
    state.usage.charged_tokens = Some(40);
    assert_eq!(state.remaining_budget(), Some(60));
    state.usage.charged_tokens = Some(140);
    assert_eq!(state.remaining_budget(), Some(0));
    state.usage.provenance = GoalUsageProvenance::Unknown;
    assert_eq!(state.remaining_budget(), None);
    state.usage.provenance = GoalUsageProvenance::ProviderReported;
    state.usage.charged_tokens = None;
    assert_eq!(state.remaining_budget(), None);
}

#[test]
fn an_edit_out_of_bounds_is_reported_and_kept() {
    let mut state = goal();
    let id = state.id.clone();
    let error = state.edit(&id, 1, "  ".into(), Timestamp(11)).unwrap_err();
    assert_eq!(error.kind, ErrorKind::Tool);
    assert_eq!(error.message, "goal objective must contain 1..=4096 characters");
    assert_eq!(state.objective, "  ");
    assert_eq!(state.generation, 2);

    let mut long = goal();
    assert_eq!(
        long.edit(&id, 1, "é".repeat(MAX_GOAL_OBJECTIVE_CHARS), Timestamp(11)),
        Ok(())
    );
    assert!(long.edit(&id, 2, "é".repeat(MAX_GOAL_OBJECTIVE_CHARS + 1), Timestamp(12)).is_err());
}

#[test]
fn malformed_states_are_named() {
    let mut schema = goal();
    schema.schema_version = 7;
    assert_eq!(
        schema.validate().unwrap_err().message,
        "goal state schema 7 is incompatible with 1"
    );
    let mut generation = goal();
    generation.generation = 0;
    assert_eq!(
        generation.validate().unwrap_err().message,
        "goal generation must start at one"
    );
    let mut active = goal();
    active.stopped_reason = Some(GoalStoppedReason::new("x", None).unwrap());
    assert_eq!(
        active.validate().unwrap_err().message,
        "active goal cannot retain a stopped reason"
    );
    active.status = GoalStatus::Complete;
    assert_eq!(
        active.validate().unwrap_err().message,
        "complete goal cannot retain a stopped reason"
    );
    assert_eq!(
        GoalStoppedReason::new("", None).unwrap_err().message,
        "goal reason code must contain 1..=1024 characters"
    );
    assert_eq!(
        GoalStoppedReason::new("x", Some("d".repeat(MAX_GOAL_REASON_CHARS + 1)))
            .unwrap_err()
            .message,
        "goal reason detail exceeds 1024 characters"
    );
}

#[test]
fn refused_updates_are_named() {
    let mut state = goal();
    let id = state.id.clone();
    assert_eq!(
        state.model_update(&id, 1, GoalStatus::Blocked, None, Timestamp(11)).unwrap_err().message,
        "blocked goal update requires a bounded reason"
    );
    assert_eq!(
        state.model_update(&id, 1, GoalStatus::Active, None, Timestamp(11)).unwrap_err().message,
        "model goal update may set only complete or blocked"
    );
    let reason = GoalStoppedReason::new("x", None).unwrap();
    let error = state.stop(GoalStatus::Paused, reason, Timestamp(11)).unwrap_err();
    assert_eq!(error.kind, ErrorKind::Internal);
    assert_eq!(state, goal());
}

#[test]
fn a_projection_leaves_accounting_out() {
    let state = goal();
    let projection = state.projection();
    assert_eq!(projection.objective, "Ship the goal system");
    assert_eq!(projection.status.as_str(), "active");
    assert!(projection.status.is_active() && !projection.status.is_complete());
    assert_eq!(projection.usage.provenance.as_str(), "provider_reported");
    assert_eq!(GoalCommandResult::from_state(Some(&state)).goal, Some(projection));
    assert_eq!(GoalCommandResult::from_state(None).goal, None);
}
