//! Child-session specifications.

use agent_runtime_core::content::UserInput;
use agent_runtime_core::delegation::{
    ChildLimits, ChildModelSelection, ChildSpec, ToolViewScope, WorkspacePolicy,
};
use agent_runtime_core::error::ErrorKind;
use agent_runtime_core::provider::ModelId;

fn spec() -> ChildSpec {
    ChildSpec {
        task: UserInput::text("review the diff"),
        model: ChildModelSelection::Inherit,
        limits: ChildLimits::turns(1),
        tools: ToolViewScope::ReadOnly,
        workspace: WorkspacePolicy::ReadOnlyView,
    }
}

#[test]
fn a_valid_spec_passes() {
    spec().validate().expect("valid spec");
}

#[test]
fn invalid_specs_are_rejected() {
    let mut empty_task = spec();
    empty_task.task.parts.clear();
    assert!(empty_task.validate().is_err());

    let mut zero_turns = spec();
    zero_turns.limits.max_turns = 0;
    assert!(zero_turns.validate().is_err());

    let mut empty_names = spec();
    empty_names.tools = ToolViewScope::Named { names: Vec::new() };
    assert!(empty_names.validate().is_err());

    let mut empty_dir = spec();
    empty_dir.workspace = WorkspacePolicy::ExplicitDirectory { path: String::new() };
    assert!(empty_dir.validate().is_err());
}

#[test]
fn zero_budgets_and_an_empty_model_are_rejected() {
    let mut no_tokens = spec();
    no_tokens.limits.max_tokens = Some(0);
    let error = no_tokens.validate().unwrap_err();
    assert_eq!(error.kind, ErrorKind::Config);
    assert_eq!(error.message, "child spec token budget must be greater than zero");

    let mut no_time = spec();
    no_time.limits.deadline_ms = Some(0);
    assert_eq!(
        no_time.validate().unwrap_err().message,
        "child spec deadline must be greater than zero"
    );

    let mut no_model = spec();
    no_model.model =
        ChildModelSelection::Explicit { provider: Some("p".into()), model: ModelId::new("") };
    assert_eq!(
        no_model.validate().unwrap_err().message,
        "child spec explicit model must not be empty"
    );

    let mut named = spec();
    named.limits.max_tokens = Some(1);
    named.limits.deadline_ms = Some(1);
    named.tools = ToolViewScope::Named { names: vec!["read".into()] };
    named.workspace = WorkspacePolicy::ExplicitDirectory { path: "/w".into() };
    named.model = ChildModelSelection::Explicit { provider: None, model: ModelId::new("m") };
    assert_eq!(named.validate(), Ok(()));
}
