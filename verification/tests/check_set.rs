//! Composition, presentation, and enforcement bounds of check sets.

use agent_runtime_core::check_set::{
    ActionClass, CheckReport, CheckSetError, CheckSetOutcome, CheckStatus, EnforcementLimits,
    RevocationTarget, SecurityCheckSet, SecurityCheckSetBuilder,
};
use agent_runtime_core::clock::{Deadline, Timestamp};
use agent_runtime_core::collections::TextMap;
use agent_runtime_core::fingerprint::Fingerprint;
use agent_runtime_core::grant::{
    AuthorizationDecision, CapabilityGrant, ConstraintDimension, ConstraintValue, DecisionCode,
    GrantConstraints, SecurityCheckId, SecurityCheckMode, SecurityCheckOutcome,
    SecurityCheckRevision, SecuritySignal,
};
use agent_runtime_core::ids::{SessionId, TenantId};
use agent_runtime_core::security::{
    AuthorizationRequest, CheckSetRevision, Permission, PermissionSet, SecurityAction,
    SecurityContext, SecurityEvidence, SecurityResource, SecuritySubject, TrustClass,
};

fn subject() -> SecuritySubject {
    SecuritySubject::new("user-1")
}

fn session() -> SessionId {
    SessionId::new("s-1")
}

fn class(name: &str) -> ActionClass {
    ActionClass::new(name)
}

fn resource() -> SecurityResource {
    SecurityResource::filesystem("workspace", vec!["a".into()])
}

fn context(revision: &CheckSetRevision) -> SecurityContext {
    SecurityContext::new(subject(), session(), TenantId::new("t-1"), revision.clone())
}

fn request_for(
    revision: &CheckSetRevision,
    resource: SecurityResource,
    requested: PermissionSet,
) -> AuthorizationRequest {
    AuthorizationRequest::new(
        context(revision),
        SecurityAction::new("fs.open"),
        resource,
        requested,
        Deadline::never(),
        SecurityEvidence::new(TrustClass::UserContent, Fingerprint::of("guard")),
    )
}

fn request(set: &SecurityCheckSet, permission: Permission) -> AuthorizationRequest {
    request_for(set.revision(), resource(), PermissionSet::single(permission))
}

fn allow() -> SecurityCheckOutcome {
    SecurityCheckOutcome::Allow { constraints: GrantConstraints::unconstrained() }
}

fn deny(code: &str) -> SecurityCheckOutcome {
    SecurityCheckOutcome::Deny { code: DecisionCode::other(code) }
}

fn approve() -> SecurityCheckOutcome {
    SecurityCheckOutcome::RequireApproval { constraints: GrantConstraints::unconstrained() }
}

fn gave(outcome: SecurityCheckOutcome) -> CheckReport {
    CheckReport { declared_coverage: None, started: true, status: CheckStatus::Outcome(outcome) }
}

fn ended(status: CheckStatus) -> CheckReport {
    CheckReport { declared_coverage: None, started: true, status }
}

/// A sealed set with what each of its checks is scripted to report.
struct Scripted {
    set: SecurityCheckSet,
    script: Vec<(String, CheckReport)>,
    policy: TextMap<SecurityCheckRevision>,
    invocations: Vec<String>,
}

struct Script {
    builder: SecurityCheckSetBuilder,
    script: Vec<(String, CheckReport)>,
}

impl Script {
    fn new(limits: EnforcementLimits) -> Script {
        Script { builder: SecurityCheckSetBuilder::new(limits), script: Vec::new() }
    }

    fn check(
        mut self,
        id: &str,
        report: CheckReport,
        mode: SecurityCheckMode,
        coverage: PermissionSet,
        action_class: &str,
    ) -> Script {
        self.builder.register(
            SecurityCheckId::new(id),
            SecurityCheckRevision::new("v1"),
            mode,
            coverage,
            class(action_class),
        );
        self.script.push((id.to_owned(), report));
        self
    }

    fn seal(self) -> Scripted {
        Scripted {
            set: self.builder.seal().ok().unwrap(),
            script: self.script,
            policy: TextMap::new(),
            invocations: Vec::new(),
        }
    }
}

impl Scripted {
    fn authorize_at(&mut self, request: &AuthorizationRequest, now: Timestamp) -> CheckSetOutcome {
        if let Some(outcome) = self.set.open_request(request, now) {
            return outcome;
        }
        let mut reports = Vec::new();
        for index in 0..self.set.check_count() {
            let id = self.set.check_id(index);
            if self.set.should_evaluate(index, now) {
                self.invocations.push(id.as_str().to_owned());
            }
            let (_, report) = self.script.iter().find(|(name, _)| name == id.as_str()).unwrap();
            reports.push(report.clone());
        }
        self.set.settle(request, &reports, &self.policy, now)
    }

    fn authorize(&mut self, request: &AuthorizationRequest) -> CheckSetOutcome {
        self.authorize_at(request, Timestamp(1_000))
    }

    fn allowed(&mut self, request: &AuthorizationRequest) -> CapabilityGrant {
        match self.authorize(request).decision {
            AuthorizationDecision::Allow { grant } => grant,
            other => panic!("expected allow, got {other:?}"),
        }
    }
}

fn denied_with(outcome: &CheckSetOutcome, code: DecisionCode) -> bool {
    match &outcome.decision {
        AuthorizationDecision::Deny { code: given } => *given == code,
        _ => false,
    }
}

fn fs_read_set() -> Scripted {
    Script::new(EnforcementLimits::default())
        .check(
            "fs-allow",
            gave(allow()),
            SecurityCheckMode::Authoritative,
            PermissionSet::single(Permission::FsRead),
            "fs",
        )
        .seal()
}

#[test]
fn check_set_an_enforcing_deny_wins_over_an_allow() {
    let mut scripted = Script::new(EnforcementLimits::default())
        .check(
            "allow",
            gave(allow()),
            SecurityCheckMode::Authoritative,
            PermissionSet::single(Permission::FsRead),
            "fs",
        )
        .check(
            "deny",
            gave(deny("blocked")),
            SecurityCheckMode::RequiredConstraint,
            PermissionSet::single(Permission::FsRead),
            "fs",
        )
        .seal();
    let req = request(&scripted.set, Permission::FsRead);
    let outcome = scripted.authorize(&req);
    assert!(denied_with(&outcome, DecisionCode::EnforcingCheckDenied));
}

#[test]
fn check_set_partial_permission_coverage_denies_the_whole_request() {
    let mut scripted = Script::new(EnforcementLimits::default())
        .check(
            "fs-allow",
            gave(allow()),
            SecurityCheckMode::Authoritative,
            PermissionSet::single(Permission::FsWrite),
            "fs",
        )
        .check(
            "net-constraint",
            gave(allow()),
            SecurityCheckMode::RequiredConstraint,
            PermissionSet::single(Permission::NetHttp),
            "net",
        )
        .seal();
    let requested = PermissionSet::from_list(vec![Permission::FsWrite, Permission::NetHttp]);
    let req = request_for(scripted.set.revision(), resource(), requested);
    let outcome = scripted.authorize(&req);
    assert!(denied_with(&outcome, DecisionCode::MissingAuthoritativeCoverage));
}

#[test]
fn check_set_two_authoritative_checks_with_conflicting_constraints_deny() {
    let low = SecurityCheckOutcome::Allow {
        constraints: GrantConstraints::unconstrained().with(
            ConstraintDimension::ByteSize,
            ConstraintValue::Range { min: 0, max: 1_048_576 },
        ),
    };
    let high = SecurityCheckOutcome::Allow {
        constraints: GrantConstraints::unconstrained().with(
            ConstraintDimension::ByteSize,
            ConstraintValue::Range { min: 10_485_760, max: u64::MAX },
        ),
    };
    let mut scripted = Script::new(EnforcementLimits::default())
        .check(
            "low",
            gave(low),
            SecurityCheckMode::Authoritative,
            PermissionSet::single(Permission::FsWrite),
            "fs",
        )
        .check(
            "high",
            gave(high),
            SecurityCheckMode::Authoritative,
            PermissionSet::single(Permission::FsWrite),
            "fs",
        )
        .seal();
    let req = request(&scripted.set, Permission::FsWrite);
    let outcome = scripted.authorize(&req);
    assert!(denied_with(&outcome, DecisionCode::ConstraintMeetEmpty));
}

#[test]
fn check_set_only_advisory_checks_denies_for_missing_coverage() {
    let mut scripted = Script::new(EnforcementLimits::default())
        .check(
            "watcher",
            gave(SecurityCheckOutcome::Signal {
                findings: vec![SecuritySignal::new("low-risk", "observed")],
            }),
            SecurityCheckMode::Advisory,
            PermissionSet::single(Permission::FsWrite),
            "fs",
        )
        .seal();
    let req = request(&scripted.set, Permission::FsWrite);
    let outcome = scripted.authorize(&req);
    assert!(denied_with(&outcome, DecisionCode::MissingAuthoritativeCoverage));
}

#[test]
fn check_set_advisory_check_cannot_self_declare_authoritative() {
    let mut scripted = Script::new(EnforcementLimits::default())
        .check(
            "rogue",
            gave(allow()),
            SecurityCheckMode::Advisory,
            PermissionSet::single(Permission::FsWrite),
            "fs",
        )
        .seal();
    let req = request(&scripted.set, Permission::FsWrite);
    let outcome = scripted.authorize(&req);
    assert!(denied_with(&outcome, DecisionCode::MissingAuthoritativeCoverage));
}

#[test]
fn check_set_unknown_permission_denies() {
    let mut scripted = fs_read_set();
    let req = request(&scripted.set, Permission::NetHttp);
    let outcome = scripted.authorize(&req);
    assert!(denied_with(&outcome, DecisionCode::UnknownPermission));
}

#[test]
fn check_set_require_approval_when_an_enforcing_check_requires_it() {
    let mut scripted = Script::new(EnforcementLimits::default())
        .check(
            "fs-allow",
            gave(allow()),
            SecurityCheckMode::Authoritative,
            PermissionSet::single(Permission::FsWrite),
            "fs",
        )
        .check(
            "narrow",
            gave(SecurityCheckOutcome::RequireApproval {
                constraints: GrantConstraints::unconstrained()
                    .with(ConstraintDimension::UseCount, ConstraintValue::exactly(1)),
            }),
            SecurityCheckMode::RequiredConstraint,
            PermissionSet::single(Permission::FsWrite),
            "fs",
        )
        .seal();
    let req = request(&scripted.set, Permission::FsWrite);
    match scripted.authorize(&req).decision {
        AuthorizationDecision::RequireApproval { eligible } => {
            assert_eq!(eligible.max_uses(), 1);
        }
        other => panic!("expected RequireApproval, got {other:?}"),
    }
}

#[test]
fn check_set_approval_cannot_override_an_enforcing_denial() {
    let mut scripted = Script::new(EnforcementLimits::default())
        .check(
            "deny",
            gave(deny("endpoint_blocked")),
            SecurityCheckMode::Authoritative,
            PermissionSet::single(Permission::NetHttp),
            "net",
        )
        .check(
            "would_approve",
            gave(approve()),
            SecurityCheckMode::RequiredConstraint,
            PermissionSet::single(Permission::NetHttp),
            "net",
        )
        .seal();
    let req = request(&scripted.set, Permission::NetHttp);
    let outcome = scripted.authorize(&req);
    assert!(denied_with(&outcome, DecisionCode::EnforcingCheckDenied));
}

#[test]
fn check_set_resolve_approval_cannot_widen_the_eligible_grant() {
    let mut scripted = Script::new(EnforcementLimits::default())
        .check(
            "fs-allow",
            gave(allow()),
            SecurityCheckMode::Authoritative,
            PermissionSet::single(Permission::FsWrite),
            "fs",
        )
        .check(
            "needs-approval",
            gave(approve()),
            SecurityCheckMode::RequiredConstraint,
            PermissionSet::single(Permission::FsWrite),
            "fs",
        )
        .seal();
    let req = request(&scripted.set, Permission::FsWrite);
    let outcome = scripted.authorize(&req);
    let AuthorizationDecision::RequireApproval { eligible } = outcome.decision else {
        panic!("expected RequireApproval");
    };
    assert_eq!(eligible.permissions(), &PermissionSet::single(Permission::FsWrite));
    let remaining_before = eligible.remaining_uses();

    let denied = scripted.set.resolve_approval(eligible, false);
    assert!(matches!(
        denied,
        AuthorizationDecision::Deny { code: DecisionCode::ApprovalDenied }
    ));
    assert_eq!(remaining_before, scripted.set.limits().default_max_uses);

    // A second, independent composition: a rejected approval has changed
    // neither the sealed check set nor a later grant's scope.
    let outcome2 = scripted.authorize(&req);
    let AuthorizationDecision::RequireApproval { eligible: eligible2 } = outcome2.decision else {
        panic!("expected RequireApproval");
    };
    let approved = scripted.set.resolve_approval(eligible2, true);
    assert!(matches!(approved, AuthorizationDecision::Allow { .. }));
}

#[test]
fn check_set_declared_coverage_can_only_narrow_host_assigned_coverage() {
    let host_assigned = PermissionSet::from_list(vec![Permission::FsRead, Permission::FsWrite]);
    let attempted_widen = PermissionSet::from_list(vec![Permission::FsWrite, Permission::NetHttp]);
    let mut report = gave(allow());
    report.declared_coverage = Some(attempted_widen);
    let mut scripted = Script::new(EnforcementLimits::default())
        .check("narrowing", report, SecurityCheckMode::Authoritative, host_assigned, "fs")
        .seal();

    let fs_write_req = request(&scripted.set, Permission::FsWrite);
    let allowed = scripted.authorize(&fs_write_req);
    assert!(matches!(allowed.decision, AuthorizationDecision::Allow { .. }));

    let fs_read_req = request(&scripted.set, Permission::FsRead);
    let narrowed_away = scripted.authorize(&fs_read_req);
    assert!(denied_with(&narrowed_away, DecisionCode::UnknownPermission));

    let net_req = request(&scripted.set, Permission::NetHttp);
    let never_widened = scripted.authorize(&net_req);
    assert!(denied_with(&never_widened, DecisionCode::UnknownPermission));
}

#[test]
fn check_set_audit_output_is_sorted_by_check_id() {
    let mut script = Script::new(EnforcementLimits::default());
    for id in ["zebra", "apple", "mid"] {
        script = script.check(
            id,
            gave(allow()),
            SecurityCheckMode::Authoritative,
            PermissionSet::single(Permission::FsRead),
            "fs",
        );
    }
    let mut scripted = script.seal();
    let req = request(&scripted.set, Permission::FsRead);
    let outcome = scripted.authorize(&req);
    let ids: Vec<&str> = outcome.checks.iter().map(|c| c.id.as_str()).collect();
    assert_eq!(ids, vec!["apple", "mid", "zebra"]);
}

#[test]
fn check_set_stale_check_set_revision_denies_without_evaluating_checks() {
    let mut scripted = fs_read_set();
    let stale = CheckSetRevision::new("not-the-current-revision");
    let req = request_for(&stale, resource(), PermissionSet::single(Permission::FsRead));
    let outcome = scripted.authorize(&req);
    assert!(denied_with(&outcome, DecisionCode::GrantRevisionOrEpochStale));
    assert!(outcome.checks.is_empty());
    assert!(scripted.invocations.is_empty());
}

#[test]
fn check_set_present_denies_a_different_resource() {
    let mut scripted = fs_read_set();
    let req = request(&scripted.set, Permission::FsRead);
    let mut grant = scripted.allowed(&req);

    let other_resource = SecurityResource::filesystem("workspace", vec!["b".into()]);
    let replay = request_for(
        scripted.set.revision(),
        other_resource,
        PermissionSet::single(Permission::FsRead),
    );
    let result = scripted.set.present(&mut grant, &replay, &scripted.policy, Timestamp::zero());
    assert_eq!(result, Err(DecisionCode::GrantResourceNotCovered));
    assert_eq!(grant.remaining_uses(), grant.max_uses());
}

#[test]
fn check_set_present_denies_a_different_subject() {
    let mut scripted = fs_read_set();
    let req = request(&scripted.set, Permission::FsRead);
    let mut grant = scripted.allowed(&req);

    let mut other = req.clone();
    other.context.subject = SecuritySubject::new("someone-else");
    let result = scripted.set.present(&mut grant, &other, &scripted.policy, Timestamp::zero());
    assert_eq!(result, Err(DecisionCode::GrantSubjectOrSessionMismatch));
}

#[test]
fn check_set_grant_use_count_exhaustion_denies_the_second_presentation() {
    let mut scripted = Script::new(EnforcementLimits::default())
        .check(
            "fs-allow",
            gave(SecurityCheckOutcome::Allow {
                constraints: GrantConstraints::unconstrained()
                    .with(ConstraintDimension::UseCount, ConstraintValue::exactly(1)),
            }),
            SecurityCheckMode::Authoritative,
            PermissionSet::single(Permission::FsRead),
            "fs",
        )
        .seal();
    let req = request(&scripted.set, Permission::FsRead);
    let mut grant = scripted.allowed(&req);
    assert_eq!(grant.max_uses(), 1);

    let policy = TextMap::new();
    assert_eq!(scripted.set.present(&mut grant, &req, &policy, Timestamp::zero()), Ok(()));
    assert_eq!(
        scripted.set.present(&mut grant, &req, &policy, Timestamp::zero()),
        Err(DecisionCode::GrantUseCountExhausted)
    );
}

fn duplicate_check_id() -> Option<CheckSetError> {
    let mut builder = SecurityCheckSetBuilder::new(EnforcementLimits::default());
    for revision in ["v1", "v2"] {
        builder.register(
            SecurityCheckId::new("dup"),
            SecurityCheckRevision::new(revision),
            SecurityCheckMode::Authoritative,
            PermissionSet::single(Permission::FsRead),
            class("fs"),
        );
    }
    builder.seal().err()
}

#[test]
fn check_set_duplicate_check_id_is_rejected_even_with_a_different_revision() {
    assert_eq!(
        duplicate_check_id(),
        Some(CheckSetError::DuplicateCheckId(SecurityCheckId::new("dup")))
    );
}

#[test]
fn tests_duplicate_check_id_is_rejected_even_with_a_different_revision() {
    let err = duplicate_check_id().unwrap();
    assert_eq!(err, CheckSetError::DuplicateCheckId(SecurityCheckId::new("dup")));
    assert!(err.to_text().contains("dup"));
}

fn crowded_class() -> Option<CheckSetError> {
    let limits = EnforcementLimits {
        max_checks_per_action_class: 1,
        ..EnforcementLimits::default()
    };
    let mut builder = SecurityCheckSet::builder(limits);
    for id in ["a", "b"] {
        builder.register(
            SecurityCheckId::new(id),
            SecurityCheckRevision::new("v1"),
            SecurityCheckMode::Authoritative,
            PermissionSet::single(Permission::FsRead),
            class("fs"),
        );
    }
    builder.seal().err()
}

#[test]
fn check_set_action_class_ceiling_is_enforced_at_seal() {
    assert_eq!(
        crowded_class(),
        Some(CheckSetError::ActionClassCeilingExceeded {
            class: class("fs"),
            limit: 1,
            registered: 2,
        })
    );
}

#[test]
fn tests_action_class_ceiling_is_enforced_at_seal() {
    assert_eq!(
        crowded_class().unwrap(),
        CheckSetError::ActionClassCeilingExceeded {
            class: class("fs"),
            limit: 1,
            registered: 2,
        }
    );
}

#[test]
fn check_set_composition_is_identical_across_registration_order_permutations() {
    let orderings: [[usize; 3]; 6] =
        [[0, 1, 2], [0, 2, 1], [1, 0, 2], [1, 2, 0], [2, 0, 1], [2, 1, 0]];
    let checks: Vec<(&str, SecurityCheckMode, SecurityCheckOutcome)> = vec![
        ("a", SecurityCheckMode::Authoritative, allow()),
        (
            "b",
            SecurityCheckMode::RequiredConstraint,
            SecurityCheckOutcome::Allow {
                constraints: GrantConstraints::unconstrained().with(
                    ConstraintDimension::UseCount,
                    ConstraintValue::Range { min: 1, max: 5 },
                ),
            },
        ),
        (
            "c",
            SecurityCheckMode::RequiredConstraint,
            SecurityCheckOutcome::Allow {
                constraints: GrantConstraints::unconstrained().with(
                    ConstraintDimension::ByteSize,
                    ConstraintValue::Range { min: 0, max: 100 },
                ),
            },
        ),
    ];

    let mut results = Vec::new();
    for ordering in orderings {
        let mut script = Script::new(EnforcementLimits::default());
        for i in ordering {
            let (id, mode, outcome) = &checks[i];
            script = script.check(
                id,
                gave(outcome.clone()),
                *mode,
                PermissionSet::single(Permission::FsRead),
                "fs",
            );
        }
        let mut scripted = script.seal();
        let req = request(&scripted.set, Permission::FsRead);
        let grant = scripted.allowed(&req);
        results.push((scripted.set.revision().clone(), grant.max_uses(), grant.expiry()));
    }
    assert!(results.windows(2).all(|w| w[0] == w[1]));
    assert_eq!(results[0].1, 5);
}

#[test]
fn check_set_revoked_but_unexpired_and_unconsumed_grant_is_denied() {
    let mut scripted = fs_read_set();
    let req = request(&scripted.set, Permission::FsRead);
    let mut grant = scripted.allowed(&req);
    assert!(grant.remaining_uses() > 0);

    scripted.set.revoke(RevocationTarget::Subject(subject()));
    let result = scripted.set.present(&mut grant, &req, &scripted.policy, Timestamp::zero());
    assert_eq!(result, Err(DecisionCode::GrantRevoked));
}

#[test]
fn check_set_revoke_by_session_denies_presentation() {
    let mut scripted = fs_read_set();
    let req = request(&scripted.set, Permission::FsRead);
    let mut grant = scripted.allowed(&req);
    scripted.set.revoke(RevocationTarget::Session(session()));
    assert_eq!(
        scripted.set.present(&mut grant, &req, &scripted.policy, Timestamp::zero()),
        Err(DecisionCode::GrantRevoked)
    );
}

#[test]
fn check_set_revoke_by_grant_fingerprint_denies_only_that_grant() {
    let mut scripted = fs_read_set();
    let req = request(&scripted.set, Permission::FsRead);
    let mut grant = scripted.allowed(&req);
    let narrower = request_for(
        scripted.set.revision(),
        SecurityResource::filesystem("workspace", vec!["a".into(), "b".into()]),
        PermissionSet::single(Permission::FsRead),
    );
    let mut other = scripted.allowed(&narrower);
    scripted.set.revoke(RevocationTarget::Grant(grant.fingerprint()));
    let policy = TextMap::new();
    assert_eq!(
        scripted.set.present(&mut grant, &req, &policy, Timestamp::zero()),
        Err(DecisionCode::GrantRevoked)
    );
    assert_eq!(
        scripted.set.present(&mut other, &narrower, &policy, Timestamp::zero()),
        Ok(())
    );
}

#[test]
fn check_set_policy_data_revision_change_invalidates_a_grant_without_a_check_set_change() {
    let mut scripted = Script::new(EnforcementLimits::default())
        .check(
            "allowlist",
            gave(allow()),
            SecurityCheckMode::RequiredConstraint,
            PermissionSet::single(Permission::FsRead),
            "fs",
        )
        .check(
            "fs-allow",
            gave(allow()),
            SecurityCheckMode::Authoritative,
            PermissionSet::single(Permission::FsRead),
            "fs",
        )
        .seal();
    scripted.policy.insert("allowlist", SecurityCheckRevision::new("v1"));
    let req = request(&scripted.set, Permission::FsRead);
    let mut grant = scripted.allowed(&req);
    let revision_before_change = scripted.set.revision().clone();

    scripted.policy.insert("allowlist", SecurityCheckRevision::new("v2"));

    assert_eq!(scripted.set.revision(), &revision_before_change);
    assert_eq!(
        scripted.set.present(&mut grant, &req, &scripted.policy, Timestamp::zero()),
        Err(DecisionCode::GrantRevisionOrEpochStale)
    );
    scripted.policy.insert("allowlist", SecurityCheckRevision::new("v1"));
    assert_eq!(
        scripted.set.present(&mut grant, &req, &scripted.policy, Timestamp::zero()),
        Ok(())
    );
}

#[test]
fn check_set_per_session_authorization_rate_ceiling_denies_structurally() {
    let limits = EnforcementLimits {
        max_requests_per_session_window: 1,
        session_window_millis: 60_000,
        ..EnforcementLimits::default()
    };
    let mut scripted = Script::new(limits)
        .check(
            "fs-allow",
            gave(allow()),
            SecurityCheckMode::Authoritative,
            PermissionSet::single(Permission::FsRead),
            "fs",
        )
        .seal();
    let req = request(&scripted.set, Permission::FsRead);

    let first = scripted.authorize_at(&req, Timestamp::zero());
    assert!(matches!(first.decision, AuthorizationDecision::Allow { .. }));

    let second = scripted.authorize_at(&req, Timestamp::zero());
    assert!(denied_with(&second, DecisionCode::CeilingExceeded));
    assert_eq!(scripted.invocations.len(), 1);

    // Past the rolling window the first request no longer counts: the ceiling
    // denies only within the window.
    let third = scripted.authorize_at(&req, Timestamp(60_000));
    assert!(matches!(third.decision, AuthorizationDecision::Allow { .. }));
    assert_eq!(scripted.invocations.len(), 2);
}

#[test]
fn the_session_rate_window_rolls() {
    let limits = EnforcementLimits {
        max_requests_per_session_window: 2,
        session_window_millis: 60_000,
        ..EnforcementLimits::default()
    };
    let mut scripted = Script::new(limits)
        .check(
            "fs-allow",
            gave(allow()),
            SecurityCheckMode::Authoritative,
            PermissionSet::single(Permission::FsRead),
            "fs",
        )
        .seal();
    let req = request(&scripted.set, Permission::FsRead);
    let asked = [
        (0, true),
        (59_999, true),
        (60_000, true),
        (60_001, false),
        (119_998, false),
        (119_999, true),
        (119_999, false),
        (120_000, true),
        (500_000, true),
        (500_000, true),
        (500_000, false),
    ];
    for (at, admitted) in asked {
        let outcome = scripted.authorize_at(&req, Timestamp(at));
        if admitted {
            assert!(matches!(outcome.decision, AuthorizationDecision::Allow { .. }));
        } else {
            assert!(denied_with(&outcome, DecisionCode::CeilingExceeded));
        }
    }
    assert_eq!(scripted.invocations.len(), 7);
}

#[test]
fn check_set_advisory_signal_retention_is_bounded_per_session() {
    let limits = EnforcementLimits {
        max_advisory_signals_per_session: 2,
        ..EnforcementLimits::default()
    };
    let mut script = Script::new(limits).check(
        "fs-allow",
        gave(allow()),
        SecurityCheckMode::Authoritative,
        PermissionSet::single(Permission::FsRead),
        "fs",
    );
    for id in ["s1", "s2", "s3"] {
        script = script.check(
            id,
            gave(SecurityCheckOutcome::Signal {
                findings: vec![SecuritySignal::new("low-risk", "observed")],
            }),
            SecurityCheckMode::Advisory,
            PermissionSet::new(),
            "advisory",
        );
    }
    let mut scripted = script.seal();
    let req = request(&scripted.set, Permission::FsRead);
    let outcome = scripted.authorize(&req);
    assert!(matches!(outcome.decision, AuthorizationDecision::Allow { .. }));
    assert_eq!(outcome.advisory_findings.len(), 2);
    assert_eq!(outcome.advisory_findings[0].check.as_str(), "s1");
    assert_eq!(outcome.advisory_findings[1].check.as_str(), "s2");
    assert_eq!(scripted.set.advisory_signals_dropped(&session()), 1);
}

#[test]
fn check_set_a_panicking_check_denies_without_poisoning_composer_state() {
    let mut scripted = Script::new(EnforcementLimits::default())
        .check(
            "boom",
            ended(CheckStatus::Panicked),
            SecurityCheckMode::Authoritative,
            PermissionSet::single(Permission::FsRead),
            "fs",
        )
        .check(
            "net-allow",
            gave(allow()),
            SecurityCheckMode::Authoritative,
            PermissionSet::single(Permission::NetHttp),
            "net",
        )
        .seal();
    let fs_req = request(&scripted.set, Permission::FsRead);
    let fs_outcome = scripted.authorize(&fs_req);
    assert!(denied_with(&fs_outcome, DecisionCode::EnforcingCheckUnavailable));

    // An unrelated request, for which the check does not panic, succeeds.
    scripted.script[0].1 = gave(SecurityCheckOutcome::NotApplicable);
    let net_req = request(&scripted.set, Permission::NetHttp);
    let net_outcome = scripted.authorize(&net_req);
    assert!(matches!(net_outcome.decision, AuthorizationDecision::Allow { .. }));

    scripted.script[0].1 = ended(CheckStatus::Panicked);
    let fs_again = scripted.authorize(&fs_req);
    assert!(denied_with(&fs_again, DecisionCode::EnforcingCheckUnavailable));
}

#[test]
fn check_set_required_constraint_timeout_denies_while_advisory_timeout_is_recorded_only() {
    let limits = EnforcementLimits {
        consecutive_failure_threshold: 1_000,
        ..EnforcementLimits::default()
    };
    for (id, mode) in [
        ("slow-advisory", SecurityCheckMode::Advisory),
        ("slow-required", SecurityCheckMode::RequiredConstraint),
    ] {
        let mut scripted = Script::new(limits)
            .check(
                "fs-allow",
                gave(allow()),
                SecurityCheckMode::Authoritative,
                PermissionSet::single(Permission::FsRead),
                "fs",
            )
            .check(
                id,
                ended(CheckStatus::TimedOut),
                mode,
                PermissionSet::single(Permission::FsRead),
                "slow",
            )
            .seal();
        let req = request(&scripted.set, Permission::FsRead);
        let outcome = scripted.authorize(&req);
        if mode == SecurityCheckMode::Advisory {
            assert!(matches!(outcome.decision, AuthorizationDecision::Allow { .. }));
        } else {
            assert!(denied_with(&outcome, DecisionCode::EnforcingCheckUnavailable));
        }
        let audit = outcome.checks.iter().find(|c| c.id.as_str() == id).unwrap();
        assert_eq!(audit.status, CheckStatus::TimedOut);
    }
}

#[test]
fn check_set_a_check_exceeding_the_failure_threshold_short_circuits_without_invoking_its_body() {
    let limits = EnforcementLimits {
        consecutive_failure_threshold: 2,
        fast_path_window_millis: 60_000,
        ..EnforcementLimits::default()
    };
    let mut scripted = Script::new(limits)
        .check(
            "slow",
            ended(CheckStatus::TimedOut),
            SecurityCheckMode::Authoritative,
            PermissionSet::single(Permission::FsRead),
            "fs",
        )
        .seal();
    let req = request(&scripted.set, Permission::FsRead);
    for expected in 1..=3usize {
        let outcome = scripted.authorize(&req);
        assert!(denied_with(&outcome, DecisionCode::EnforcingCheckUnavailable));
        assert_eq!(scripted.invocations.len(), expected);
    }
    let outcome = scripted.authorize(&req);
    assert!(denied_with(&outcome, DecisionCode::EnforcingCheckUnavailable));
    assert_eq!(outcome.checks[0].status, CheckStatus::FastPathDenied);
    assert_eq!(scripted.invocations.len(), 3);

    // After the fast-path window the check is invoked again, and a success
    // closes the circuit.
    scripted.script[0].1 = gave(allow());
    let outcome = scripted.authorize_at(&req, Timestamp(61_000));
    assert!(matches!(outcome.decision, AuthorizationDecision::Allow { .. }));
    assert_eq!(scripted.invocations.len(), 4);
}

#[test]
fn an_evaluation_that_never_started_does_not_count_as_a_failure() {
    let limits = EnforcementLimits {
        consecutive_failure_threshold: 0,
        ..EnforcementLimits::default()
    };
    let mut waiting = ended(CheckStatus::TimedOut);
    waiting.started = false;
    let mut scripted = Script::new(limits)
        .check(
            "queued",
            waiting,
            SecurityCheckMode::Authoritative,
            PermissionSet::single(Permission::FsRead),
            "fs",
        )
        .seal();
    let req = request(&scripted.set, Permission::FsRead);
    for _ in 0..3 {
        let outcome = scripted.authorize(&req);
        assert!(denied_with(&outcome, DecisionCode::EnforcingCheckUnavailable));
        assert_eq!(outcome.checks[0].status, CheckStatus::TimedOut);
    }
}

#[test]
fn an_enforcing_check_that_only_signals_is_invalid() {
    let mut scripted = Script::new(EnforcementLimits::default())
        .check(
            "confused",
            gave(SecurityCheckOutcome::Signal { findings: Vec::new() }),
            SecurityCheckMode::RequiredConstraint,
            PermissionSet::single(Permission::FsRead),
            "fs",
        )
        .seal();
    let req = request(&scripted.set, Permission::FsRead);
    let outcome = scripted.authorize(&req);
    assert!(denied_with(&outcome, DecisionCode::InvalidCheckOutput));
}

#[test]
fn cancellation_comes_before_the_deadline() {
    let passed = Deadline::at(Timestamp(5));
    assert_eq!(
        SecurityCheckSet::interruption(true, passed, Timestamp(9)),
        Some(CheckStatus::Cancelled)
    );
    assert_eq!(
        SecurityCheckSet::interruption(false, passed, Timestamp(5)),
        Some(CheckStatus::TimedOut)
    );
    assert_eq!(SecurityCheckSet::interruption(false, passed, Timestamp(4)), None);
}

#[test]
fn present_reports_the_first_failed_clause() {
    let mut scripted = fs_read_set();
    let req = request(&scripted.set, Permission::FsRead);
    let mut grant = scripted.allowed(&req);
    let policy = TextMap::new();

    let mut more = req.clone();
    more.requested = PermissionSet::from_list(vec![Permission::FsRead, Permission::FsWrite]);
    assert_eq!(
        scripted.set.present(&mut grant, &more, &policy, Timestamp::zero()),
        Err(DecisionCode::GrantPermissionNotCovered)
    );

    let mut other_set = req.clone();
    other_set.context.check_set_revision = CheckSetRevision::new("another");
    assert_eq!(
        scripted.set.present(&mut grant, &other_set, &policy, Timestamp::zero()),
        Err(DecisionCode::GrantRevisionOrEpochStale)
    );

    // Issued at 1_000 with the default time to live.
    assert_eq!(
        scripted.set.present(&mut grant, &req, &policy, Timestamp(301_000)),
        Err(DecisionCode::GrantExpired)
    );
    assert_eq!(grant.remaining_uses(), 1);
    assert_eq!(
        scripted.set.present(&mut grant, &req, &policy, Timestamp(300_999)),
        Ok(())
    );
}

#[test]
fn advisory_signals_over_the_byte_bound_are_dropped() {
    let limits = EnforcementLimits {
        max_advisory_signal_bytes_per_session: 10,
        ..EnforcementLimits::default()
    };
    let mut scripted = Script::new(limits)
        .check(
            "watch",
            gave(SecurityCheckOutcome::Signal {
                findings: vec![
                    SecuritySignal::new("code", "detail"),
                    SecuritySignal::new("x", ""),
                ],
            }),
            SecurityCheckMode::Advisory,
            PermissionSet::new(),
            "advisory",
        )
        .seal();
    let req = request(&scripted.set, Permission::FsRead);
    let outcome = scripted.authorize(&req);
    assert_eq!(outcome.advisory_findings.len(), 1);
    assert_eq!(outcome.advisory_findings[0].signal.code, "code");
    assert_eq!(scripted.set.advisory_signals_dropped(&session()), 1);
    assert_eq!(scripted.set.advisory_signals_dropped(&SessionId::new("s-2")), 0);
}

#[test]
fn authorize_settles_in_one_step() {
    let mut scripted = fs_read_set();
    let req = request(&scripted.set, Permission::FsRead);
    let reports = vec![gave(allow())];
    let policy = TextMap::new();
    let outcome = scripted.set.authorize(&req, &reports, &policy, Timestamp(7));
    assert!(matches!(outcome.decision, AuthorizationDecision::Allow { .. }));
}

#[test]
fn evaluations_are_counted_one_by_one() {
    let limits = EnforcementLimits {
        consecutive_failure_threshold: 1,
        fast_path_window_millis: 100,
        ..EnforcementLimits::default()
    };
    let mut set = Script::new(limits)
        .check(
            "fs",
            gave(allow()),
            SecurityCheckMode::Authoritative,
            PermissionSet::single(Permission::FsRead),
            "fs",
        )
        .check("watch", gave(allow()), SecurityCheckMode::Advisory, PermissionSet::new(), "fs")
        .seal()
        .set;
    assert!(CheckStatus::Panicked.is_failure());
    assert!(!CheckStatus::FastPathDenied.is_failure());
    set.record_circuit_result(0, Timestamp(10), &CheckStatus::TimedOut);
    assert!(set.should_evaluate(0, Timestamp(10)));
    set.record_circuit_result(0, Timestamp(10), &CheckStatus::Cancelled);
    assert!(!set.should_evaluate(0, Timestamp(109)));
    assert!(set.should_evaluate(0, Timestamp(110)));
    set.record_circuit_result(0, Timestamp(110), &CheckStatus::Outcome(allow()));
    set.record_circuit_result(0, Timestamp(110), &CheckStatus::Panicked);
    assert!(set.should_evaluate(0, Timestamp(111)));
    for _ in 0..3 {
        set.record_circuit_result(1, Timestamp(10), &CheckStatus::Panicked);
    }
    assert!(set.should_evaluate(1, Timestamp(10)));

    let declared = Some(PermissionSet::single(Permission::FsWrite));
    let evaluation = set.evaluation(0, &declared, CheckStatus::TimedOut);
    assert_eq!(evaluation.id, SecurityCheckId::new("fs"));
    assert_eq!(evaluation.mode, SecurityCheckMode::Authoritative);
    assert!(evaluation.coverage.is_empty());
    assert_eq!(evaluation.status, CheckStatus::TimedOut);
}
