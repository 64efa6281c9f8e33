//! Constraints, grants, and what a grant covers.

use agent_runtime_core::clock::{Deadline, Timestamp};
use agent_runtime_core::collections::TextSet;
use agent_runtime_core::fingerprint::{Fingerprint, FingerprintHasher};
use agent_runtime_core::grant::{
    CapabilityGrant, ConstraintDimension, ConstraintValue, GrantConstraints, PolicyEpoch,
    SecurityCheckId, SecurityCheckMode, SecurityCheckRevision, SecuritySignal,
};
use agent_runtime_core::ids::{SessionId, TenantId};
use agent_runtime_core::security::{
    AuthorizationRequest, CheckSetRevision, Permission, PermissionSet, SecurityAction,
    SecurityContext, SecurityEvidence, SecurityResource, SecuritySubject, TrustClass,
};

fn context() -> SecurityContext {
    SecurityContext::new(
        SecuritySubject::new("user-1"),
        SessionId::new("s-1"),
        TenantId::new("tenant-1"),
        CheckSetRevision::new("cs-1"),
    )
}

fn request(resource: SecurityResource, requested: PermissionSet) -> AuthorizationRequest {
    AuthorizationRequest::new(
        context(),
        SecurityAction::new("fs.open"),
        resource,
        requested,
        Deadline::never(),
        SecurityEvidence::new(TrustClass::UserContent, Fingerprint::of("guard")),
    )
}

fn grant(resource: SecurityResource, permissions: PermissionSet, max_uses: u32) -> CapabilityGrant {
    CapabilityGrant::issue(
        &context(),
        SecurityAction::new("fs.open"),
        resource,
        permissions,
        PolicyEpoch::new(CheckSetRevision::new("cs-1")),
        Deadline::never(),
        max_uses,
    )
}

fn one_of(items: &[&str]) -> ConstraintValue {
    let mut set = TextSet::new();
    for item in items {
        set.insert(item);
    }
    ConstraintValue::OneOf(set)
}

#[test]
fn constraint_value_meet_is_commutative() {
    let pairs = [
        (ConstraintValue::Top, ConstraintValue::Range { min: 0, max: 10 }),
        (
            ConstraintValue::Range { min: 0, max: 10 },
            ConstraintValue::Range { min: 5, max: 20 },
        ),
        (one_of(&["a", "b"]), one_of(&["b", "c"])),
        (ConstraintValue::Bottom, ConstraintValue::Top),
        (ConstraintValue::Range { min: 0, max: 1 }, one_of(&["x"])),
    ];
    for (a, b) in pairs {
        assert_eq!(a.meet(&b), b.meet(&a), "meet must be commutative for {a:?} / {b:?}");
    }
}

#[test]
fn constraint_value_meet_is_associative() {
    let a = ConstraintValue::Range { min: 0, max: 100 };
    let b = ConstraintValue::Range { min: 10, max: 50 };
    let c = ConstraintValue::Range { min: 20, max: 200 };
    assert_eq!(a.meet(&b).meet(&c), a.meet(&b.meet(&c)));
}

#[test]
fn constraint_value_meet_is_order_independent_under_every_permutation() {
    let a = ConstraintValue::Range { min: 0, max: 100 };
    let b = ConstraintValue::Range { min: 10, max: 50 };
    let c = ConstraintValue::Range { min: 20, max: 200 };
    let expected = a.meet(&b).meet(&c);

    let orderings: [[&ConstraintValue; 3]; 6] = [
        [&a, &b, &c],
        [&a, &c, &b],
        [&b, &a, &c],
        [&b, &c, &a],
        [&c, &a, &b],
        [&c, &b, &a],
    ];
    for ordering in orderings {
        let folded =
            ordering.into_iter().fold(ConstraintValue::Top, |acc, value| acc.meet(value));
        assert_eq!(folded, expected);
    }
}

#[test]
fn empty_meet_on_any_dimension_denies() {
    let low = GrantConstraints::unconstrained().with(
        ConstraintDimension::ByteSize,
        ConstraintValue::Range { min: 0, max: 1_048_576 },
    );
    let high = GrantConstraints::unconstrained().with(
        ConstraintDimension::ByteSize,
        ConstraintValue::Range { min: 10_485_760, max: u64::MAX },
    );
    let composed = low.meet(&high);
    assert!(composed.is_unsatisfiable());
}

#[test]
fn grant_constraints_meet_is_order_independent_across_permuted_check_orderings() {
    let a = GrantConstraints::unconstrained()
        .with(ConstraintDimension::UseCount, ConstraintValue::exactly(5))
        .with(ConstraintDimension::ByteSize, ConstraintValue::Range { min: 0, max: 1_000 });
    let b = GrantConstraints::unconstrained()
        .with(ConstraintDimension::ByteSize, ConstraintValue::Range { min: 100, max: 900 });
    let c = GrantConstraints::unconstrained()
        .with(ConstraintDimension::UseCount, ConstraintValue::Range { min: 1, max: 5 });

    let expected = a.meet(&b).meet(&c);
    let orderings: [[&GrantConstraints; 3]; 6] = [
        [&a, &b, &c],
        [&a, &c, &b],
        [&b, &a, &c],
        [&b, &c, &a],
        [&c, &a, &b],
        [&c, &b, &a],
    ];
    for ordering in orderings {
        let folded = ordering
            .into_iter()
            .fold(GrantConstraints::unconstrained(), |acc, value| acc.meet(value));
        assert_eq!(folded, expected);
    }
}

#[test]
fn meets_have_exact_values() {
    assert_eq!(
        ConstraintValue::Range { min: 0, max: 10 }.meet(&ConstraintValue::Range { min: 5, max: 20 }),
        ConstraintValue::Range { min: 5, max: 10 }
    );
    assert_eq!(one_of(&["a", "b"]).meet(&one_of(&["b", "c"])), one_of(&["b"]));
    assert_eq!(one_of(&["a"]).meet(&one_of(&["c"])), ConstraintValue::Bottom);
    assert_eq!(
        ConstraintValue::Range { min: 0, max: 1 }.meet(&one_of(&["x"])),
        ConstraintValue::Bottom
    );
    assert_eq!(ConstraintValue::exactly(5), ConstraintValue::Range { min: 5, max: 5 });
    let constraints = GrantConstraints::default()
        .with(ConstraintDimension::Endpoint, one_of(&["GET"]))
        .with(ConstraintDimension::other("region"), ConstraintValue::Top);
    assert_eq!(constraints.get(&ConstraintDimension::Endpoint), one_of(&["GET"]));
    assert_eq!(constraints.get(&ConstraintDimension::ByteSize), ConstraintValue::Top);
    assert!(!constraints.is_unsatisfiable());
}

#[test]
fn covers_accepts_an_exact_match() {
    let resource = SecurityResource::filesystem("workspace", vec!["a".into()]);
    let g = grant(resource.clone(), PermissionSet::single(Permission::FsRead), 1);
    let req = request(resource, PermissionSet::single(Permission::FsRead));
    assert!(g.covers(&req, Timestamp::zero()));
}

#[test]
fn covers_rejects_a_different_subject() {
    let resource = SecurityResource::filesystem("workspace", vec!["a".into()]);
    let g = grant(resource.clone(), PermissionSet::single(Permission::FsRead), 1);
    let mut req = request(resource, PermissionSet::single(Permission::FsRead));
    req.context.subject = SecuritySubject::new("someone-else");
    assert!(!g.covers(&req, Timestamp::zero()));
}

#[test]
fn covers_rejects_a_different_session() {
    let resource = SecurityResource::filesystem("workspace", vec!["a".into()]);
    let g = grant(resource.clone(), PermissionSet::single(Permission::FsRead), 1);
    let mut req = request(resource, PermissionSet::single(Permission::FsRead));
    req.context.session = SessionId::new("s-2");
    assert!(!g.covers(&req, Timestamp::zero()));
}

#[test]
fn covers_rejects_a_different_resource() {
    let resource = SecurityResource::filesystem("workspace", vec!["a".into()]);
    let g = grant(resource, PermissionSet::single(Permission::FsRead), 1);
    let other = SecurityResource::filesystem("workspace", vec!["b".into()]);
    let req = request(other, PermissionSet::single(Permission::FsRead));
    assert!(!g.covers(&req, Timestamp::zero()));
}

#[test]
fn covers_rejects_a_different_method() {
    let resource = SecurityResource::network("https://api.example.test", "POST", vec!["v1".into()]);
    let g = grant(resource, PermissionSet::single(Permission::NetHttp), 1);
    let other = SecurityResource::network("https://api.example.test", "GET", vec!["v1".into()]);
    let req = request(other, PermissionSet::single(Permission::NetHttp));
    assert!(!g.covers(&req, Timestamp::zero()));
}

#[test]
fn covers_accepts_a_narrower_filesystem_request_within_the_granted_scope() {
    let resource = SecurityResource::filesystem("workspace", vec![]);
    let g = grant(resource, PermissionSet::single(Permission::FsRead), 1);
    let narrower =
        SecurityResource::filesystem("workspace", vec!["generated".into(), "out.txt".into()]);
    let req = request(narrower, PermissionSet::single(Permission::FsRead));
    assert!(g.covers(&req, Timestamp::zero()));
}

#[test]
fn covers_rejects_an_uncovered_permission() {
    let resource = SecurityResource::filesystem("workspace", vec!["a".into()]);
    let g = grant(resource.clone(), PermissionSet::single(Permission::FsRead), 1);
    let req = request(resource, PermissionSet::single(Permission::FsWrite));
    assert!(!g.covers(&req, Timestamp::zero()));
}

#[test]
fn grant_grant_use_count_exhaustion_denies_the_second_presentation() {
    let resource = SecurityResource::filesystem("workspace", vec!["a".into()]);
    let mut g = grant(resource.clone(), PermissionSet::single(Permission::FsRead), 1);
    let req = request(resource, PermissionSet::single(Permission::FsRead));

    assert!(g.covers(&req, Timestamp::zero()));
    assert!(g.consume());
    assert_eq!(g.remaining_uses(), 0);

    // A second presentation is denied, and does not renew, refresh, or
    // reissue use count.
    assert!(!g.covers(&req, Timestamp::zero()));
    assert!(!g.consume());
    assert_eq!(g.remaining_uses(), 0);
}

#[test]
fn covers_rejects_an_expired_grant() {
    let resource = SecurityResource::filesystem("workspace", vec!["a".into()]);
    let g = CapabilityGrant::issue(
        &context(),
        SecurityAction::new("fs.open"),
        resource.clone(),
        PermissionSet::single(Permission::FsRead),
        PolicyEpoch::new(CheckSetRevision::new("cs-1")),
        Deadline::at(Timestamp(100)),
        1,
    );
    let req = request(resource, PermissionSet::single(Permission::FsRead));
    assert!(g.covers(&req, Timestamp(50)));
    assert!(!g.covers(&req, Timestamp(100)));
}

#[test]
fn epoch_is_current_detects_a_policy_data_revision_change_without_a_check_set_change() {
    let resource = SecurityResource::filesystem("workspace", vec!["a".into()]);
    let epoch = PolicyEpoch::new(CheckSetRevision::new("cs-1")).with_policy_data_revision(
        SecurityCheckId::new("fs-allowlist"),
        SecurityCheckRevision::new("v1"),
    );
    let g = CapabilityGrant::issue(
        &context(),
        SecurityAction::new("fs.open"),
        resource,
        PermissionSet::single(Permission::FsRead),
        epoch.clone(),
        Deadline::never(),
        1,
    );
    assert!(g.epoch_is_current(&epoch));

    let updated = PolicyEpoch::new(CheckSetRevision::new("cs-1")).with_policy_data_revision(
        SecurityCheckId::new("fs-allowlist"),
        SecurityCheckRevision::new("v2"),
    );
    assert!(!g.epoch_is_current(&updated));
}

#[test]
fn a_fingerprint_does_not_change_with_use() {
    let resource = SecurityResource::filesystem("workspace", vec!["a".into()]);
    let mut g = grant(resource.clone(), PermissionSet::single(Permission::FsRead), 2);
    let other = grant(resource, PermissionSet::single(Permission::FsWrite), 2);
    let before = g.fingerprint();
    assert!(g.consume());
    assert_eq!(g.fingerprint(), before);
    assert_ne!(other.fingerprint(), before);
    assert_eq!((g.max_uses(), g.remaining_uses()), (2, 1));
    assert_eq!(g.subject().as_str(), "user-1");
    assert_eq!(g.action().as_str(), "fs.open");
}

#[test]
fn resources_contain_narrower_ones_of_their_kind() {
    let tree = SecurityResource::network("https://api.example.test", "GET", vec!["v1".into()]);
    let leaf = SecurityResource::network(
        "https://api.example.test",
        "GET",
        vec!["v1".into(), "jobs".into()],
    );
    assert!(tree.contains(&leaf));
    assert!(!leaf.contains(&tree));
    assert!(!tree.contains(&SecurityResource::credential("cred-a")));
    assert!(SecurityResource::credential("cred-a").contains(&SecurityResource::credential("cred-a")));
    assert!(!SecurityResource::other("tool", "a").contains(&SecurityResource::other("tool", "b")));
}

#[test]
fn permission_sets_are_sets() {
    let a = PermissionSet::from_list(vec![
        Permission::NetHttp,
        Permission::FsRead,
        Permission::NetHttp,
    ]);
    let b = PermissionSet::from_list(vec![Permission::FsRead, Permission::NetHttp]);
    assert_eq!(a, b);
    let read = PermissionSet::single(Permission::FsRead);
    assert!(read.is_subset(&a) && !a.is_subset(&read));
    assert_eq!(a.intersection(&read), read);
    assert_eq!(read.union(&PermissionSet::single(Permission::NetHttp)), a);
    assert!(PermissionSet::new().is_empty());
    assert!(SecurityCheckMode::Authoritative.is_enforcing());
    assert!(!SecurityCheckMode::Advisory.is_enforcing());
    assert_eq!(SecuritySignal::new("c", "d").code, "c");
}

#[test]
fn fingerprints_have_exact_values() {
    assert_eq!(Fingerprint::of("").as_str(), "af63bd4c8601b7df");
    assert_eq!(Fingerprint::of("a").as_str(), "089be307b544f397");
    assert_eq!(Fingerprint::of("foobar").as_str(), "345322a7168b996a");
    let mut hasher = FingerprintHasher::new();
    hasher.pair("a", "b");
    assert_eq!(hasher.finish().as_str(), "b669398214474f8a");
    assert_eq!(Fingerprint::of("ab").as_str(), "e72001190541f8b8");
}

#[test]
fn host_defined_names_are_listed() {
    let constraints = GrantConstraints::unconstrained()
        .with(ConstraintDimension::UseCount, ConstraintValue::Range { min: 0, max: 3 })
        .with(ConstraintDimension::other("region"), ConstraintValue::Bottom)
        .with(ConstraintDimension::other("open"), ConstraintValue::Top);
    assert_eq!(constraints.named().len(), 1);
    assert_eq!(constraints.named().get("region"), Some(&ConstraintValue::Bottom));
    assert_eq!(constraints.named().get("open"), None);

    let permissions = PermissionSet::from_list(vec![
        Permission::Custom("deploy".into()),
        Permission::FsRead,
        Permission::Custom("bill".into()),
    ]);
    assert_eq!(
        permissions.to_list(),
        [
            Permission::FsRead,
            Permission::Custom("bill".into()),
            Permission::Custom("deploy".into()),
        ]
    );
}
