//! Concrete instances of the library's general properties.

use agent_runtime_core::artifact::{
    ArtifactChunk, ArtifactDigest, ArtifactId, ArtifactProvenance, ArtifactRead, ArtifactRef,
    ArtifactRetention, ArtifactSensitivity,
};
use agent_runtime_core::broker::FilesystemError;
use agent_runtime_core::cancel::{CancelReason, Cancellation, CancellationTree};
use agent_runtime_core::check_set::{
    ActionClass, CheckReport, CheckStatus, EnforcementLimits, SecurityCheckSet,
};
use agent_runtime_core::checkpoint::{TurnCheckpoint, TurnState};
use agent_runtime_core::clock::{Deadline, Timestamp};
use agent_runtime_core::collections::{TextMap, TextSet};
use agent_runtime_core::content::{Message, UserInput};
use agent_runtime_core::event::lcm::LcmLifecycleMetadata;
use agent_runtime_core::event::TurnFinish;
use agent_runtime_core::fingerprint::Fingerprint;
use agent_runtime_core::grant::{
    AuthorizationDecision, ConstraintDimension, ConstraintValue, DecisionCode, GrantConstraints,
    SecurityCheckId, SecurityCheckMode, SecurityCheckOutcome, SecurityCheckRevision,
};
use agent_runtime_core::ids::{SessionId, TenantId, TurnId};
use agent_runtime_core::security::{
    AuthorizationRequest, Permission, PermissionSet, SecurityAction, SecurityContext,
    SecurityEvidence, SecurityResource, SecuritySubject, TrustClass,
};
use agent_runtime_core::store::{SessionIdentityState, SessionSnapshot};
use agent_runtime_core::usage::UsageLedger;

#[test]
fn the_earliest_of_two_deadlines_expires_with_either() {
    let (a, b) = (Deadline::at(Timestamp(5)), Deadline::at(Timestamp(9)));
    assert_eq!(a.earliest(b), b.earliest(a));
    for millis in [4, 5, 8, 9, 10] {
        let now = Timestamp(millis);
        assert_eq!(
            a.earliest(b).is_expired_at(now),
            a.is_expired_at(now) || b.is_expired_at(now)
        );
        assert_eq!(a.is_expired_at(now), a.remaining_millis_at(now) == Some(0));
    }
    assert!(a.is_expired_at(Timestamp(5)) && a.is_expired_at(Timestamp(6)));
}

#[test]
fn constraints_have_a_top_and_a_bottom() {
    let mut items = TextSet::new();
    items.insert("a");
    for value in [
        ConstraintValue::Top,
        ConstraintValue::Bottom,
        ConstraintValue::Range { min: 1, max: 2 },
        ConstraintValue::OneOf(items),
    ] {
        assert_eq!(value.meet(&ConstraintValue::Top), value);
        assert_eq!(value.meet(&ConstraintValue::Bottom), ConstraintValue::Bottom);
        assert_eq!(value.meet(&value), value);
    }
    let some = GrantConstraints::unconstrained()
        .with(ConstraintDimension::UseCount, ConstraintValue::exactly(3));
    assert_eq!(some.meet(&GrantConstraints::unconstrained()), some);
    let none = some.meet(
        &GrantConstraints::unconstrained()
            .with(ConstraintDimension::UseCount, ConstraintValue::exactly(4)),
    );
    assert!(none.is_unsatisfiable());
    assert!(none.meet(&some).is_unsatisfiable());
}

#[test]
fn scopes_nest() {
    let outer = SecurityResource::filesystem("workspace", vec![]);
    let middle = SecurityResource::filesystem("workspace", vec!["a".into()]);
    let inner = SecurityResource::filesystem("workspace", vec!["a".into(), "b".into()]);
    for scope in [&outer, &middle, &inner] {
        assert!(scope.contains(scope));
    }
    assert!(outer.contains(&middle) && middle.contains(&inner) && outer.contains(&inner));
    assert!(!SecurityResource::filesystem("other", vec![]).contains(&middle));
}

#[test]
fn filesystem_failures_are_all_the_same() {
    let failures = [FilesystemError, FilesystemError];
    assert_eq!(failures[0], failures[1]);
}

#[test]
fn cancellation_stays() {
    let mut tree = CancellationTree::new();
    let root = Cancellation::new(&mut tree);
    let child = root.child(&mut tree);
    root.cancel(&mut tree, CancelReason::Timeout);
    let sibling = root.child(&mut tree);
    sibling.cancel(&mut tree, CancelReason::Shutdown);
    assert_eq!(child.reason(&tree), Some(CancelReason::Timeout));
    assert_eq!(sibling.reason(&tree), Some(CancelReason::Shutdown));
    assert!(root.is_cancelled(&tree) && child.is_cancelled(&tree));
}

#[test]
fn a_covered_range_is_counted() {
    let range = |start: u64, end: u64, count: u32| LcmLifecycleMetadata {
        covered_start: Some(start),
        covered_end: Some(end),
        covered_count: Some(count),
        ..Default::default()
    };
    assert!(range(3, 3, 1).validate().is_ok());
    assert!(range(3, 7, 5).validate().is_ok());
    assert!(range(3, 7, 4).validate().is_err());
    assert!(range(0, u64::MAX, 0).validate().is_err());
}

#[test]
fn a_valid_page_ends_where_the_next_one_starts() {
    let reference = ArtifactRef {
        id: ArtifactId::new("a-1").unwrap(),
        digest: ArtifactDigest::new("sha256", "00ff").unwrap(),
        media_type: "text/plain".into(),
        byte_length: 6,
        sensitivity: ArtifactSensitivity::Public,
        retention: ArtifactRetention::Session,
        provenance: ArtifactProvenance::new(SessionId::new("s-1"), "tool-output"),
    };
    let page = |offset: u64, bytes: &[u8], next_offset: Option<u64>| {
        let read = ArtifactRead {
            session: SessionId::new("s-1"),
            id: reference.id.clone(),
            offset,
            limit: 4,
        };
        ArtifactChunk { reference: reference.clone(), bytes: bytes.to_vec(), offset, next_offset }
            .validate_for(&read)
            .is_ok()
    };
    assert!(page(0, b"abcd", Some(4)));
    assert!(page(4, b"ef", None));
    assert!(!page(0, b"abcd", Some(5)));
    assert!(!page(0, b"abcd", None));
    assert!(!page(4, b"ef", Some(6)));
    assert!(!page(4, b"efg", None));
}

fn snapshot() -> SessionSnapshot {
    SessionSnapshot {
        id: SessionId::new("session-1"),
        history: vec![Message::user("hello")],
        usage: UsageLedger::new(),
        identity: SessionIdentityState::default(),
        manifests: Vec::new(),
        extension_state: TextMap::new(),
        updated: Timestamp::zero(),
    }
}

fn accepted(input: &str) -> Option<TurnCheckpoint> {
    TurnCheckpoint::accepted(
        TurnId::new("turn-1"),
        UserInput::text(input),
        snapshot(),
        0,
        Deadline::at(Timestamp(50)),
        1,
        3,
        Timestamp::zero(),
    )
    .ok()
}

#[test]
fn matching_input_is_what_gets_accepted() {
    assert!(accepted("hello").is_some());
    assert!(accepted("goodbye").is_none());
}

#[test]
fn a_transition_gives_a_successor_in_the_same_turn() {
    let first = accepted("hello").unwrap();
    let next = first
        .transition(TurnState::Planning { step: 0 }, snapshot(), 4, Timestamp(1))
        .unwrap();
    assert_eq!(first.validate_successor(&next), Ok(()));
    assert_eq!((&next.session, &next.turn), (&first.session, &first.turn));
    assert_eq!(next.deadline, first.deadline);
    assert_eq!(next.state_revision, first.state_revision + 1);
    assert!(next.validate_successor(&first).is_err());
    assert!(first.validate_successor(&first).is_err());
    // A turn is accepted once.
    assert!(!next.state.can_transition_to(&first.state));
}

#[test]
fn finished_turns_stay_finished() {
    let finish = || TurnFinish::Completed;
    let completing = TurnState::Completing {
        finish: finish(),
        visible_output: true,
        provider_error_kind: None,
    };
    let publishing = TurnState::PublishingTerminal { finish: finish(), visible_output: true };
    let terminal = TurnState::Terminal { finish: finish(), visible_output: true };
    let planning = TurnState::Planning { step: 3 };
    assert!(planning.can_transition_to(&completing));
    assert!(completing.can_transition_to(&publishing));
    assert!(publishing.can_transition_to(&terminal));
    assert!(terminal.can_transition_to(&terminal));
    for next in [&planning, &completing, &publishing] {
        assert!(!terminal.can_transition_to(next));
    }
    assert!(!publishing.can_transition_to(&completing));
    // The result that was committed is the one that is published.
    let hidden = TurnState::PublishingTerminal { finish: finish(), visible_output: false };
    assert!(!completing.can_transition_to(&hidden));
}

fn check_set(limits: EnforcementLimits, advisory_first: bool) -> SecurityCheckSet {
    let mut builder = SecurityCheckSet::builder(limits);
    let coverage = PermissionSet::single(Permission::FsRead);
    let mut register = |id: &str, mode: SecurityCheckMode| {
        builder.register(
            SecurityCheckId::new(id),
            SecurityCheckRevision::new("v1"),
            mode,
            coverage.clone(),
            ActionClass::new("fs"),
        );
    };
    if advisory_first {
        register("watch", SecurityCheckMode::Advisory);
    }
    register("allow", SecurityCheckMode::Authoritative);
    if !advisory_first {
        register("watch", SecurityCheckMode::Advisory);
    }
    builder.seal().ok().unwrap()
}

fn request(set: &SecurityCheckSet, session: &str) -> AuthorizationRequest {
    AuthorizationRequest::new(
        SecurityContext::new(
            SecuritySubject::new("user-1"),
            SessionId::new(session),
            TenantId::new("tenant-1"),
            set.revision().clone(),
        ),
        SecurityAction::new("fs.open"),
        SecurityResource::filesystem("workspace", vec!["a".into()]),
        PermissionSet::single(Permission::FsRead),
        Deadline::never(),
        SecurityEvidence::new(TrustClass::UserContent, Fingerprint::of("guard")),
    )
}

fn reports(advice: SecurityCheckOutcome) -> Vec<CheckReport> {
    let allow =
        SecurityCheckOutcome::Allow { constraints: GrantConstraints::unconstrained() };
    [allow, advice]
        .into_iter()
        .map(|outcome| CheckReport {
            declared_coverage: None,
            started: true,
            status: CheckStatus::Outcome(outcome),
        })
        .collect()
}

#[test]
fn advice_and_registration_order_do_not_decide() {
    let first = check_set(EnforcementLimits::default(), true);
    let mut second = check_set(EnforcementLimits::default(), false);
    assert_eq!(first.revision(), second.revision());
    let policy = TextMap::new();
    for (index, advice) in [
        SecurityCheckOutcome::NotApplicable,
        SecurityCheckOutcome::Deny { code: DecisionCode::other("no") },
        SecurityCheckOutcome::Signal { findings: Vec::new() },
    ]
    .into_iter()
    .enumerate()
    {
        let session = format!("s-{index}");
        let req = request(&second, &session);
        let outcome = second.authorize(&req, &reports(advice), &policy, Timestamp(1));
        let AuthorizationDecision::Allow { grant } = outcome.decision else { unreachable!() };
        // The grant is of exactly what was requested.
        assert_eq!(grant.permissions(), &req.requested);
        assert_eq!(grant.resource(), &req.resource);
        assert_eq!(outcome.checks[0].id.as_str(), "allow");
        assert_eq!(outcome.checks[1].id.as_str(), "watch");
    }
}

#[test]
fn one_session_does_not_use_up_anothers_requests() {
    let limits = EnforcementLimits {
        max_requests_per_session_window: 1,
        ..EnforcementLimits::default()
    };
    let mut set = check_set(limits, true);
    let policy = TextMap::new();
    let mut allowed = |session: &str, now: u64| {
        let req = request(&set, session);
        let outcome = set.authorize(
            &req,
            &reports(SecurityCheckOutcome::NotApplicable),
            &policy,
            Timestamp(now),
        );
        matches!(outcome.decision, AuthorizationDecision::Allow { .. })
    };
    assert!(allowed("s-1", 1));
    assert!(!allowed("s-1", 2));
    assert!(allowed("s-2", 2));
    assert!(allowed("s-1", 1 + limits.session_window_millis));
}
