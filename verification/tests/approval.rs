//! Approval requests and the shipped approval policies.

use agent_runtime_core::approval::{
    AllowAll, ApprovalDecision, ApprovalOrigin, ApprovalRequest, DenyAll, UnavailableApproval,
};
use agent_runtime_core::clock::{Deadline, Timestamp};
use agent_runtime_core::ids::{RequestId, SessionId, ToolCallId, TurnId};
use agent_runtime_core::json::Json;
use agent_runtime_core::security::{PermissionSet, SecurityResource};
use agent_runtime_core::tool::{PreparedToolCall, ToolCallDisplay, ToolEffects, WriteScope};

fn request(name: &str, effects: ToolEffects) -> ApprovalRequest {
    ApprovalRequest::new(
        PreparedToolCall::new(
            ToolCallId::new("c"),
            name,
            Json::parse("null").unwrap(),
            PermissionSet::new(),
            SecurityResource::other("tool", name),
            effects,
            ToolCallDisplay::new(&format!("Run {name}")),
        ),
        Deadline::never(),
        ApprovalOrigin::new(SessionId::new("s"), RequestId::new("r")),
    )
}

#[test]
fn spawns_process_is_distinguishable_from_a_plain_write() {
    let write = request("write", ToolEffects::read_only().with_write("/w"));
    let spawn = request("spawn", ToolEffects::new(vec![]).with_spawn());
    assert!(!write.spawns_process());
    assert!(spawn.spawns_process());
    assert_eq!(write.write_scopes(), vec![WriteScope::new("/w")]);
    assert!(spawn.write_scopes().is_empty());
}

#[test]
fn deny_all_is_fail_closed() {
    let req = request("write", ToolEffects::read_only().with_write("/w"));
    assert!(!DenyAll.decide(&req).is_allowed());
    assert!(AllowAll.decide(&req).is_allowed());
    assert!(matches!(
        UnavailableApproval.decide(&req),
        ApprovalDecision::Unavailable { .. }
    ));
}

#[test]
fn only_an_allowance_allows() {
    let arguments = Json::parse("{}").unwrap();
    for decision in [
        ApprovalDecision::deny("no"),
        ApprovalDecision::Edit { arguments },
        ApprovalDecision::TimedOut,
        ApprovalDecision::Cancelled,
        ApprovalDecision::unavailable("no surface"),
    ] {
        assert!(!decision.is_allowed());
    }
    assert!(ApprovalDecision::Allow.is_allowed());
    assert_eq!(
        DenyAll.decide(&request("x", ToolEffects::read_only())),
        ApprovalDecision::Deny { reason: "no approval policy configured".into() }
    );
}

#[test]
fn an_origin_names_the_pending_action() {
    let origin = ApprovalOrigin::new(SessionId::new("s"), RequestId::new("r"));
    assert_eq!(origin.turn(), None);
    let origin = origin.with_turn(TurnId::new("t"));
    assert_eq!(origin.session().as_str(), "s");
    assert_eq!(origin.request().as_str(), "r");
    assert_eq!(origin.turn(), Some(&TurnId::new("t")));

    let req = request("read", ToolEffects::read_only());
    assert_eq!(req.deadline(), Deadline::never());
    assert_ne!(req.deadline(), Deadline::at(Timestamp(1)));
    assert_eq!(req.prepared().tool(), "read");
    assert_eq!(req.origin().session().as_str(), "s");
}

#[test]
fn a_prepared_call_carries_its_fingerprint() {
    let first = request("write", ToolEffects::read_only().with_write("/w"));
    let same = request("write", ToolEffects::read_only().with_write("/w"));
    let other = request("write", ToolEffects::read_only().with_write("/x"));
    assert_eq!(first.prepared().fingerprint(), same.prepared().fingerprint());
    assert_ne!(first.prepared().fingerprint(), other.prepared().fingerprint());
}
