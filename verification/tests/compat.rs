//! The shipped approval authority.

use agent_runtime_core::clock::Deadline;
use agent_runtime_core::compat::LegacyApprovalAuthority;
use agent_runtime_core::fingerprint::Fingerprint;
use agent_runtime_core::grant::{GrantConstraints, SecurityCheckOutcome};
use agent_runtime_core::ids::{SessionId, TenantId};
use agent_runtime_core::security::{
    AuthorizationRequest, CheckSetRevision, Permission, PermissionSet, SecurityAction,
    SecurityContext, SecurityEvidence, SecurityResource, SecuritySubject, TrustClass,
};

fn request(requested: PermissionSet) -> AuthorizationRequest {
    AuthorizationRequest::new(
        SecurityContext::new(
            SecuritySubject::new("s"),
            SessionId::new("sess"),
            TenantId::new("t"),
            CheckSetRevision::new("cs-1"),
        ),
        SecurityAction::new("tool.write"),
        SecurityResource::other("tool", "write"),
        requested,
        Deadline::never(),
        SecurityEvidence::new(TrustClass::ExternalContent, Fingerprint::of("test")),
    )
}

#[test]
fn covered_permissions_always_require_approval() {
    let check = LegacyApprovalAuthority::new();
    for permission in [Permission::FsWrite, Permission::ProcessSpawn, Permission::NetHttp] {
        let outcome = check.evaluate(&request(PermissionSet::single(permission)));
        assert_eq!(
            outcome,
            SecurityCheckOutcome::RequireApproval {
                constraints: GrantConstraints::unconstrained(),
            }
        );
    }
}

#[test]
fn uncovered_permission_is_not_applicable() {
    let check = LegacyApprovalAuthority::new();
    let outcome = check.evaluate(&request(PermissionSet::single(Permission::CredentialUse)));
    assert_eq!(outcome, SecurityCheckOutcome::NotApplicable);
}

#[test]
fn one_covered_permission_is_enough() {
    let check = LegacyApprovalAuthority::default();
    let mixed = PermissionSet::from_list(vec![Permission::FsRead, Permission::NetHttp]);
    assert!(matches!(
        check.evaluate(&request(mixed)),
        SecurityCheckOutcome::RequireApproval { .. }
    ));
    assert_eq!(
        check.evaluate(&request(PermissionSet::new())),
        SecurityCheckOutcome::NotApplicable
    );
    assert_eq!(check.id().as_str(), "legacy-approval-authority");
    assert_eq!(check.revision().as_str(), "v1");
    assert_eq!(check.declared_coverage(), Some(check.coverage().clone()));
}
