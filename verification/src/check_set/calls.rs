//! What the operations of a check set give back, call by call.

use vstd::prelude::*;

use super::compose::composed_constraints;
use super::decisions::{
    a_check_contributes_within_its_registration,
    a_grant_covers_only_the_request_that_it_is_bound_to, a_grant_is_of_the_request,
    a_grant_never_outlives_its_constraints, a_presented_grant_has_to_be_bound_current_and_good,
    a_recorded_result_moves_one_circuit, a_request_that_is_not_let_in_is_denied,
    a_sealed_set_holds_what_was_registered, a_use_is_taken_from_what_is_left, circuit_is_open,
    circuit_of, grant_of, is_admissible, is_binding, is_bound_to, is_circuit_after, is_denied,
    is_good_at, is_ranged, is_tightest, lemma_lies_within, lies_within, of_class,
    sealing_refuses_repeated_ids_and_full_classes, share_an_id,
    the_epoch_holds_what_binding_checks_declare,
};
use super::{
    registration_fields, revision_fields, ActionClass, CheckEvaluation, CheckReport,
    CheckReportView, CheckSetError, CheckSetErrorView, CheckSetOutcome, CheckStatus,
    CheckStatusView, RegistrationView, RevocationTarget, RevocationTargetView, SecurityCheckSet,
    SecurityCheckSetBuilder, SecurityCheckSetView,
};
use crate::clock::{Deadline, Timestamp};
use crate::collections::TextMap;
use crate::grant::{
    value_of, AuthorizationDecision, AuthorizationDecisionView, CapabilityGrant,
    CapabilityGrantView, ConstraintDimensionView, ConstraintValueView, DecisionCode,
    DecisionCodeView, PolicyEpoch, SecurityCheckId, SecurityCheckMode, SecurityCheckRevision,
};
use crate::security::{
    permission_sequence, slugs, AuthorizationRequest, AuthorizationRequestView, PermissionSet,
    PermissionView,
};

verus! {

/// Whether the request asks only for permissions that the grant has.
pub open spec fn asks_within(
    grant: CapabilityGrantView,
    request: AuthorizationRequestView,
) -> bool {
    forall|p: PermissionView|
        request.requested.contains(p) ==> #[trigger] grant.permissions.contains(p)
}

/// A grant that covers a request is bound to the very subject, session, action, and
/// check-set revision of it; and it covers it exactly when, besides, the resource lies
/// within its own, every permission asked for is its own, it has not expired, and it has
/// a use left.
pub proof fn covering_needs_the_very_request(
    grant: CapabilityGrant,
    request: AuthorizationRequest,
    now: Timestamp,
    covered: bool,
)
    requires
        call_ensures(CapabilityGrant::covers, (&grant, &request, now), covered),
    ensures
        grant@.subject != request@.context.subject ==> !covered,
        grant@.session != request@.context.session ==> !covered,
        grant@.action != request@.action ==> !covered,
        grant@.check_set_revision != request@.context.check_set_revision ==> !covered,
        covered <==> {
            &&& is_bound_to(grant@, request@)
            &&& lies_within(grant@.resource, request@.resource)
            &&& asks_within(grant@, request@)
            &&& is_good_at(grant@, now)
        },
{
    a_grant_covers_only_the_request_that_it_is_bound_to(grant@, request@, now);
}

/// Presenting a grant is refused, and takes no use of it, if it is bound to another
/// subject, session, action, or check-set revision than the request's. It is accepted,
/// for one use, exactly when the grant covers the request, was made under the policy that
/// is in force, and was not revoked.
pub proof fn presenting_needs_the_very_request(
    set: SecurityCheckSet,
    grant: &mut CapabilityGrant,
    request: AuthorizationRequest,
    policy: TextMap<SecurityCheckRevision>,
    now: Timestamp,
    r: Result<(), DecisionCode>,
    covered: bool,
)
    requires
        call_ensures(SecurityCheckSet::present, (&set, grant, &request, &policy, now), r),
        call_ensures(CapabilityGrant::covers, (&*old(grant), &request, now), covered),
    ensures
        !is_bound_to(old(grant)@, request@) ==> r is Err,
        r is Ok <==> {
            &&& covered
            &&& old(grant)@.policy_epoch == set@.epoch(policy.dict())
            &&& !set@.revoked_subjects.contains(old(grant)@.subject)
            &&& !set@.revoked_sessions.contains(old(grant)@.session)
            &&& !set@.revoked_grants.contains(
                crate::fingerprint::fingerprint_of(old(grant)@.audit_fields()),
            )
        },
        r is Err ==> final(grant)@ == old(grant)@,
        r is Ok ==> {
            &&& final(grant)@.remaining_uses + 1 == old(grant)@.remaining_uses
            &&& final(grant)@ == (CapabilityGrantView {
                remaining_uses: final(grant)@.remaining_uses,
                ..old(grant)@
            })
        },
{
    a_grant_covers_only_the_request_that_it_is_bound_to(old(grant)@, request@, now);
    a_presented_grant_has_to_be_bound_current_and_good(
        set@,
        old(grant)@,
        request@,
        policy.dict(),
        now,
    );
}

/// What keeps a grant from being accepted is told by its own code, the first that holds of
/// revocation, another party or action, another resource, another permission, another
/// revision or policy, expiry, and a lack of uses.
pub proof fn a_refused_presentation_tells_the_first_reason(
    set: SecurityCheckSet,
    grant: &mut CapabilityGrant,
    request: AuthorizationRequest,
    policy: TextMap<SecurityCheckRevision>,
    now: Timestamp,
    r: Result<(), DecisionCode>,
)
    requires
        call_ensures(SecurityCheckSet::present, (&set, grant, &request, &policy, now), r),
    ensures
        ({
            let held = old(grant)@;
            let revoked = {
                ||| set@.revoked_subjects.contains(held.subject)
                ||| set@.revoked_sessions.contains(held.session)
                ||| set@.revoked_grants.contains(
                    crate::fingerprint::fingerprint_of(held.audit_fields()),
                )
            };
            let same_party = held.subject == request@.context.subject && held.session
                == request@.context.session && held.action == request@.action;
            let within = lies_within(held.resource, request@.resource);
            let asked = asks_within(held, request@);
            let current = held.check_set_revision == request@.context.check_set_revision
                && held.policy_epoch == set@.epoch(policy.dict());
            let over = held.expiry matches Some(end) && end.0 <= now.0;
            r matches Err(code) ==> code@ == (if revoked {
                DecisionCodeView::GrantRevoked
            } else if !same_party {
                DecisionCodeView::GrantSubjectOrSessionMismatch
            } else if !within {
                DecisionCodeView::GrantResourceNotCovered
            } else if !asked {
                DecisionCodeView::GrantPermissionNotCovered
            } else if !current {
                DecisionCodeView::GrantRevisionOrEpochStale
            } else if over {
                DecisionCodeView::GrantExpired
            } else {
                DecisionCodeView::GrantUseCountExhausted
            })
        }),
{
    lemma_lies_within(old(grant)@.resource, request@.resource);
    a_presented_grant_has_to_be_bound_current_and_good(
        set@,
        old(grant)@,
        request@,
        policy.dict(),
        now,
    );
}

/// A use is taken exactly when there is one, and nothing but the number of uses changes.
pub proof fn consuming_takes_one_use(grant: &mut CapabilityGrant, taken: bool)
    requires
        call_ensures(CapabilityGrant::consume, (grant,), taken),
    ensures
        taken <==> old(grant)@.remaining_uses > 0,
        final(grant)@.remaining_uses + (if taken {
            1int
        } else {
            0
        }) == old(grant)@.remaining_uses,
        final(grant)@ == (CapabilityGrantView {
            remaining_uses: final(grant)@.remaining_uses,
            ..old(grant)@
        }),
{
    a_use_is_taken_from_what_is_left(old(grant)@);
}

/// Whether the grant ends where the tightest time window that a check imposed ends, and,
/// where none imposed any, when the default time to live is over; and whether its uses are
/// as many as the tightest bound on them allows, and else the default.
pub open spec fn is_bounded_as_imposed(
    set: SecurityCheckSetView,
    reports: Seq<CheckReportView>,
    now: Timestamp,
    grant: CapabilityGrantView,
) -> bool {
    let window = ConstraintDimensionView::TimeWindow;
    let uses = ConstraintDimensionView::UseCount;
    let ttl = set.limits.default_grant_ttl_millis;
    &&& grant.expiry matches Some(end) && (if is_ranged(set, reports, now, window) {
        is_tightest(set, reports, now, window, end.0)
    } else if now.0 + ttl <= u64::MAX {
        end.0 == now.0 + ttl
    } else {
        end.0 == u64::MAX
    })
    &&& is_ranged(set, reports, now, uses) ==> exists|bound: u64| #[trigger]
        is_tightest(set, reports, now, uses, bound) && (if bound <= u32::MAX {
            grant.max_uses == bound
        } else {
            grant.max_uses == u32::MAX
        })
    &&& !is_ranged(set, reports, now, uses) ==> grant.max_uses == set.limits.default_max_uses
    &&& grant.remaining_uses == grant.max_uses
}

/// Whether the grant is of exactly what was requested, by whom it was requested, under the
/// revision and the policy in force.
pub open spec fn is_granted_as_requested(
    set: SecurityCheckSetView,
    request: AuthorizationRequestView,
    policy: Map<Seq<char>, Seq<char>>,
    grant: CapabilityGrantView,
) -> bool {
    &&& grant.subject == request.context.subject
    &&& grant.session == request.context.session
    &&& grant.action == request.action
    &&& grant.resource == request.resource
    &&& grant.permissions == request.requested
    &&& grant.policy_epoch == set.epoch(policy)
}

/// A grant that an authorization issues or makes eligible is of exactly what was requested
/// and never outlives what the checks imposed; and only a request that is let in gets one.
pub proof fn authorizing_grants_within_the_constraints(
    set: &mut SecurityCheckSet,
    request: AuthorizationRequest,
    reports: Vec<CheckReport>,
    policy: TextMap<SecurityCheckRevision>,
    now: Timestamp,
    r: CheckSetOutcome,
)
    requires
        reports.deep_view().len() == old(set)@.checks.len(),
        call_ensures(SecurityCheckSet::authorize, (set, &request, &reports, &policy, now), r),
    ensures
        grant_of(r@.decision) matches Some(grant) ==> {
            &&& is_granted_as_requested(old(set)@, request@, policy.dict(), grant)
            &&& grant.check_set_revision == old(set)@.revision
            &&& is_bounded_as_imposed(old(set)@, reports.deep_view(), now, grant)
            &&& is_admissible(old(set)@, request@, now)
        },
{
    let (before, given) = (old(set)@, reports.deep_view());
    a_grant_never_outlives_its_constraints(before, request@, given, policy.dict(), now);
    a_grant_is_of_the_request(before, request@, given, policy.dict(), now);
    a_request_that_is_not_let_in_is_denied(before, request@, given, policy.dict(), now);
}

proof fn lemma_evaluations_ignore_admission(
    set: SecurityCheckSetView,
    request: AuthorizationRequestView,
    reports: Seq<CheckReportView>,
    now: Timestamp,
)
    ensures
        set.admitting(request, now).evaluations(reports, now) == set.evaluations(reports, now),
{
    assert(set.admitting(request, now).evaluations(reports, now) =~= set.evaluations(
        reports,
        now,
    ));
}

/// A grant that settling the reports issues or makes eligible is of exactly what was
/// requested. Where the composed time window is a range, the grant has expired from the end
/// of the range on and not before; only without such a range does the default time to live
/// apply.
pub proof fn settling_grants_within_the_constraints(
    set: &mut SecurityCheckSet,
    request: AuthorizationRequest,
    reports: Vec<CheckReport>,
    policy: TextMap<SecurityCheckRevision>,
    now: Timestamp,
    then: Timestamp,
    r: CheckSetOutcome,
)
    requires
        reports.deep_view().len() == old(set)@.checks.len(),
        call_ensures(SecurityCheckSet::settle, (set, &request, &reports, &policy, now), r),
    ensures
        grant_of(r@.decision) matches Some(grant) ==> {
            let composed = composed_constraints(old(set)@.evaluations(reports.deep_view(), now));
            let has_expired = grant.expiry matches Some(end) && end.0 <= then.0;
            &&& is_granted_as_requested(old(set)@, request@, policy.dict(), grant)
            &&& is_bounded_as_imposed(old(set)@, reports.deep_view(), now, grant)
            &&& match value_of(composed, ConstraintDimensionView::TimeWindow) {
                ConstraintValueView::Range { max, .. } => has_expired <==> max <= then.0,
                _ => {
                    let lives = now.0 + old(set)@.limits.default_grant_ttl_millis;
                    has_expired <==> lives <= then.0 || then.0 == u64::MAX
                },
            }
        },
{
    let (before, given) = (old(set)@, reports.deep_view());
    lemma_evaluations_ignore_admission(before, request@, given, now);
    super::decisions::lemma_tightest(
        before,
        request@,
        given,
        now,
        ConstraintDimensionView::TimeWindow,
    );
    super::decisions::lemma_tightest(
        before,
        request@,
        given,
        now,
        ConstraintDimensionView::UseCount,
    );
    let composed = composed_constraints(before.evaluations(given, now));
    if let ConstraintValueView::Range { max, .. } = value_of(
        composed,
        ConstraintDimensionView::UseCount,
    ) {
        assert(is_tightest(before, given, now, ConstraintDimensionView::UseCount, max));
    }
    if grant_of(r@.decision) is Some {
        assert(!(value_of(composed, ConstraintDimensionView::TimeWindow) is Bottom));
        assert(!(value_of(composed, ConstraintDimensionView::UseCount) is Bottom));
    }
}

/// Approving an eligible grant issues that very grant; not approving it denies the request.
pub proof fn approving_issues_the_very_grant(
    set: SecurityCheckSet,
    eligible: CapabilityGrant,
    approved: bool,
    r: AuthorizationDecision,
)
    requires
        call_ensures(SecurityCheckSet::resolve_approval, (&set, eligible, approved), r),
    ensures
        approved ==> r@ == (AuthorizationDecisionView::Allow { grant: eligible@ }),
        !approved ==> is_denied(r@, DecisionCodeView::ApprovalDenied),
{
}

/// Revoking a target adds it to those that are revoked, and changes nothing else: neither
/// what else is revoked nor anything that decides.
pub proof fn revoking_adds_the_target(
    set: &mut SecurityCheckSet,
    target: RevocationTarget,
    other: Seq<char>,
)
    requires
        call_ensures(SecurityCheckSet::revoke, (set, target), ()),
    ensures
        final(set)@.revoked_subjects.contains(other) <==> old(set)@.revoked_subjects.contains(other)
            || target@ == RevocationTargetView::Subject(other),
        final(set)@.revoked_sessions.contains(other) <==> old(set)@.revoked_sessions.contains(other)
            || target@ == RevocationTargetView::Session(other),
        final(set)@.revoked_grants.contains(other) <==> old(set)@.revoked_grants.contains(other)
            || target@ == RevocationTargetView::Grant(other),
        final(set)@ == (SecurityCheckSetView {
            revoked_subjects: final(set)@.revoked_subjects,
            revoked_sessions: final(set)@.revoked_sessions,
            revoked_grants: final(set)@.revoked_grants,
            ..old(set)@
        }),
{
}

/// A request is turned away before any check is asked exactly when it was made under another
/// revision or the session has asked too often; and is then denied for that, with nothing
/// audited.
pub proof fn opening_turns_away_what_is_not_admissible(
    set: &mut SecurityCheckSet,
    request: AuthorizationRequest,
    now: Timestamp,
    r: Option<CheckSetOutcome>,
)
    requires
        call_ensures(SecurityCheckSet::open_request, (set, &request, now), r),
    ensures
        r is None <==> is_admissible(old(set)@, request@, now),
        r matches Some(outcome) ==> {
            &&& outcome@.checks.len() == 0
            &&& outcome@.advisory_findings.len() == 0
            &&& is_denied(
                outcome@.decision,
                if request@.context.check_set_revision != old(set)@.revision {
                    DecisionCodeView::GrantRevisionOrEpochStale
                } else {
                    DecisionCodeView::CeilingExceeded
                },
            )
        },
        final(set)@.checks == old(set)@.checks,
        final(set)@.circuits == old(set)@.circuits,
        final(set)@.revision == old(set)@.revision,
        final(set)@.limits == old(set)@.limits,
        final(set)@.revoked_subjects == old(set)@.revoked_subjects,
        final(set)@.revoked_sessions == old(set)@.revoked_sessions,
        final(set)@.revoked_grants == old(set)@.revoked_grants,
{
    super::decisions::lemma_recent(old(set)@, request@.context.session, now);
}

/// An evaluation is interrupted as cancelled if it was cancelled, else as timed out from the
/// deadline on, and else not at all.
pub proof fn interrupting_goes_by_cancellation_and_deadline(
    cancelled: bool,
    deadline: Deadline,
    now: Timestamp,
    r: Option<CheckStatus>,
)
    requires
        call_ensures(SecurityCheckSet::interruption, (cancelled, deadline, now), r),
    ensures
        ({
            let late = deadline@ matches Some(at) && at.0 <= now.0;
            &&& cancelled ==> r.deep_view() == Some(CheckStatusView::Cancelled)
            &&& !cancelled && late ==> r.deep_view() == Some(CheckStatusView::TimedOut)
            &&& !cancelled && !late ==> r is None
        }),
{
}

/// Registering a check adds it behind those that are registered, just as it was given.
pub proof fn registering_adds_the_check(
    builder: &mut SecurityCheckSetBuilder,
    id: SecurityCheckId,
    revision: SecurityCheckRevision,
    mode: SecurityCheckMode,
    coverage: PermissionSet,
    action_class: ActionClass,
)
    requires
        call_ensures(
            SecurityCheckSetBuilder::register,
            (builder, id, revision, mode, coverage, action_class),
            (),
        ),
    ensures
        ({
            let (before, after) = (old(builder)@.registrations, final(builder)@.registrations);
            let added = after[before.len() as int];
            &&& after.len() == before.len() + 1
            &&& forall|i: int| 0 <= i < before.len() ==> #[trigger] after[i] == before[i]
            &&& added.id == id@
            &&& added.revision == revision@
            &&& added.mode == mode
            &&& added.coverage == coverage@
            &&& added.action_class == action_class@
        }),
        final(builder)@.limits == old(builder)@.limits,
{
}

/// Sealing succeeds exactly when no id is registered twice and no class has too many checks; the
/// set then holds just what was registered, with nothing revoked or counted.
pub proof fn sealing_holds_what_was_registered(
    builder: SecurityCheckSetBuilder,
    registration: RegistrationView,
    r: Result<SecurityCheckSet, CheckSetError>,
)
    requires
        call_ensures(SecurityCheckSetBuilder::seal, (builder,), r),
    ensures
        r is Ok ==> {
            &&& !share_an_id(builder@.registrations)
            &&& forall|class: Seq<char>|
                (#[trigger] of_class(builder@.registrations, class)).len()
                    <= builder@.limits.max_checks_per_action_class
        },
        r matches Err(e) ==> match e@ {
            CheckSetErrorView::DuplicateCheckId(id) => share_an_id(builder@.registrations),
            CheckSetErrorView::ActionClassCeilingExceeded { class, limit, registered } => {
                &&& limit == builder@.limits.max_checks_per_action_class
                &&& registered == of_class(builder@.registrations, class).len()
                &&& registered > limit
            },
        },
        r matches Ok(set) ==> {
            &&& builder@.registrations.contains(registration) <==> set@.checks.contains(
                (registration.id, registration),
            )
            &&& set@.limits == builder@.limits
            &&& set@.revoked_subjects == Set::<Seq<char>>::empty()
            &&& set@.revoked_sessions == Set::<Seq<char>>::empty()
            &&& set@.revoked_grants == Set::<Seq<char>>::empty()
        },
{
    match r {
        Ok(set) => {
            a_sealed_set_holds_what_was_registered(builder@, set@, registration);
            sealing_refuses_repeated_ids_and_full_classes(
                builder@,
                set@,
                CheckSetErrorView::DuplicateCheckId(Seq::empty()),
            );
        },
        Err(e) => {
            sealing_refuses_repeated_ids_and_full_classes(
                builder@,
                super::fresh_set(Seq::empty(), builder@.limits),
                e@,
            );
            if let CheckSetErrorView::DuplicateCheckId(id) = e@ {
                let (i, j) = choose|i: int, j: int|
                    0 <= i < j < builder@.registrations.len() && (
                    #[trigger] builder@.registrations[i]).id == id && (
                    #[trigger] builder@.registrations[j]).id == id;
                assert(builder@.registrations[i].id == builder@.registrations[j].id);
            }
        },
    }
}

/// A check is asked unless it is binding and its circuit is open.
pub proof fn a_check_is_asked_unless_its_circuit_is_open(
    set: SecurityCheckSet,
    index: usize,
    now: Timestamp,
    r: bool,
)
    requires
        index < set@.checks.len(),
        call_ensures(SecurityCheckSet::should_evaluate, (&set, index, now), r),
    ensures
        r <==> !(is_binding(set@, index as int) && circuit_is_open(set@, index as int, now)),
{
}

/// Recording a result moves the circuit of that check if it is binding, and changes nothing else.
pub proof fn recording_moves_one_circuit(
    set: &mut SecurityCheckSet,
    index: usize,
    now: Timestamp,
    status: CheckStatus,
    other: Seq<char>,
)
    requires
        index < old(set)@.checks.len(),
        call_ensures(SecurityCheckSet::record_circuit_result, (set, index, now, &status), ()),
    ensures
        ({
            let (before, after) = (old(set)@, final(set)@);
            let id = before.checks[index as int].0;
            &&& is_binding(before, index as int) ==> is_circuit_after(
                circuit_of(before, id),
                circuit_of(after, id),
                before.limits,
                status@,
                now,
            )
            &&& other != id || !is_binding(before, index as int) ==> circuit_of(after, other)
                == circuit_of(before, other)
            &&& after == (SecurityCheckSetView { circuits: after.circuits, ..before })
        }),
{
    a_recorded_result_moves_one_circuit(old(set)@, index as int, status@, now, other);
}

/// A check contributes under its own id and mode, and only for permissions that both the host and,
/// where it declares any, the check itself named.
pub proof fn a_check_contributes_what_it_may(
    set: SecurityCheckSet,
    index: usize,
    declared: Option<PermissionSet>,
    status: CheckStatus,
    p: PermissionView,
    r: CheckEvaluation,
)
    requires
        index < set@.checks.len(),
        call_ensures(SecurityCheckSet::evaluation, (&set, index, &declared, status), r),
    ensures
        r@.id == set@.checks[index as int].0,
        r@.mode == set@.checks[index as int].1.mode,
        r@.status == status@,
        r@.coverage.contains(p) <==> set@.checks[index as int].1.coverage.contains(p) && (
        declared matches Some(own) ==> own@.contains(p)),
{
    a_check_contributes_within_its_registration(
        set@,
        index as int,
        declared.deep_view(),
        status@,
        p,
    );
}

/// A check's own coverage narrows what the host assigned, and never widens it.
pub proof fn coverage_is_only_narrowed(
    coverage: PermissionSet,
    declared: Option<PermissionSet>,
    p: PermissionView,
    r: PermissionSet,
)
    requires
        call_ensures(super::effective_coverage, (&coverage, &declared), r),
    ensures
        r@.contains(p) <==> coverage@.contains(p) && (declared matches Some(own) ==> own@.contains(
            p,
        )),
{
}

/// An evaluation failed exactly when it timed out, was cancelled, or panicked.
pub proof fn a_failure_gave_no_outcome(status: CheckStatus, r: bool)
    requires
        call_ensures(CheckStatus::is_failure, (&status,), r),
    ensures
        r <==> status@ is TimedOut || status@ is Cancelled || status@ is Panicked,
        r ==> !(status@ is Outcome),
{
}

/// The policy that is in force is of the set's revision, with the revision that each binding check
/// declares of its data, and of no other check.
pub proof fn the_current_epoch_is_of_binding_checks(
    set: SecurityCheckSet,
    policy: TextMap<SecurityCheckRevision>,
    entry: (Seq<char>, Seq<char>),
    r: PolicyEpoch,
)
    requires
        call_ensures(SecurityCheckSet::current_policy_epoch, (&set, &policy), r),
    ensures
        r@.check_set_revision == set@.revision,
        r@.policy_data_revisions.contains(entry) <==> {
            &&& policy.dict().dom().contains(entry.0)
            &&& policy.dict()[entry.0] == entry.1
            &&& exists|i: int|
                0 <= i < set@.checks.len() && #[trigger] set@.checks[i].0 == entry.0 && is_binding(
                    set@,
                    i,
                )
        },
{
    the_epoch_holds_what_binding_checks_declare(set@, policy.dict(), entry);
}

proof fn lemma_revision_fields(checks: Seq<(Seq<char>, RegistrationView)>, k: int)
    requires
        0 <= k < checks.len(),
    ensures
        revision_fields(checks) == revision_fields(checks.subrange(0, k)) + registration_fields(
            checks[k].1,
        ) + fields_from(checks, k + 1),
    decreases checks.len(),
{
    let n = checks.len() as int;
    let before = checks.drop_last();
    if k == n - 1 {
        assert(checks.subrange(0, k) =~= before);
        assert(fields_from(checks, n) =~= Seq::<Seq<char>>::empty());
        assert(revision_fields(checks) =~= revision_fields(checks.subrange(0, k))
            + registration_fields(checks[k].1) + fields_from(checks, k + 1));
    } else {
        lemma_revision_fields(before, k);
        assert(before.subrange(0, k) =~= checks.subrange(0, k));
        assert(checks.subrange(k + 1, n).drop_last() =~= before.subrange(k + 1, n - 1));
        assert(checks.subrange(k + 1, n).last() == checks.last());
        assert(revision_fields(checks) =~= revision_fields(checks.subrange(0, k))
            + registration_fields(checks[k].1) + fields_from(checks, k + 1));
    }
}

/// The fields of the checks from `from` on.
spec fn fields_from(checks: Seq<(Seq<char>, RegistrationView)>, from: int) -> Seq<Seq<char>> {
    revision_fields(checks.subrange(from, checks.len() as int))
}

/// The revision of a set is taken of every registration in full: of two sets that differ in one
/// registration only, its fields are the same only if the id, the mode, the class, the revision,
/// and the names of the permissions are.
pub proof fn a_revision_is_of_every_registration_in_full(
    checks: Seq<(Seq<char>, RegistrationView)>,
    k: int,
    changed: RegistrationView,
)
    requires
        0 <= k < checks.len(),
        revision_fields(checks) == revision_fields(checks.update(k, (checks[k].0, changed))),
    ensures
        ({
            let own = checks[k].1;
            &&& changed.id == own.id
            &&& changed.mode == own.mode
            &&& changed.action_class == own.action_class
            &&& changed.revision == own.revision
            &&& slugs(permission_sequence(changed.coverage)) == slugs(
                permission_sequence(own.coverage),
            )
        }),
{
    let other = checks.update(k, (checks[k].0, changed));
    let n = checks.len() as int;
    lemma_revision_fields(checks, k);
    lemma_revision_fields(other, k);
    assert(other.subrange(0, k) =~= checks.subrange(0, k));
    assert(other.subrange(k + 1, n) =~= checks.subrange(k + 1, n));
    let front = revision_fields(checks.subrange(0, k));
    let back = fields_from(checks, k + 1);
    let (a, b) = (registration_fields(checks[k].1), registration_fields(changed));
    let (x, y) = (front + a + back, front + b + back);
    assert(x == y);
    assert(x.len() == front.len() + a.len() + back.len());
    assert(y.len() == front.len() + b.len() + back.len());
    assert(a =~= x.subrange(front.len() as int, (front.len() + a.len()) as int));
    assert(b =~= y.subrange(front.len() as int, (front.len() + b.len()) as int));
    assert(a[0] == checks[k].1.id && b[0] == changed.id);
    assert(a[1] == checks[k].1.mode.slug() && b[1] == changed.mode.slug());
    assert(a[2] == checks[k].1.action_class && b[2] == changed.action_class);
    assert(a[3] == checks[k].1.revision && b[3] == changed.revision);
    assert(a.subrange(4, a.len() as int) =~= slugs(permission_sequence(checks[k].1.coverage)));
    assert(b.subrange(4, b.len() as int) =~= slugs(permission_sequence(changed.coverage)));
    reveal_strlit("authoritative");
    reveal_strlit("required_constraint");
    reveal_strlit("advisory");
    assert("authoritative"@.len() == 13);
    assert("required_constraint"@.len() == 19);
    assert("advisory"@.len() == 8);
}

/// A grant that composing evaluations issues or makes eligible is of exactly what was requested,
/// and has expired from the end of the composed time window on and not before; without a window it
/// lives as long as the default. Only findings are remembered.
pub proof fn composing_grants_within_the_constraints(
    set: &mut SecurityCheckSet,
    request: AuthorizationRequest,
    evaluations: Vec<CheckEvaluation>,
    policy: TextMap<SecurityCheckRevision>,
    now: Timestamp,
    then: Timestamp,
    r: CheckSetOutcome,
)
    requires
        call_ensures(SecurityCheckSet::compose, (set, &request, evaluations, &policy, now), r),
    ensures
        grant_of(r@.decision) matches Some(grant) ==> {
            let composed = composed_constraints(evaluations.deep_view());
            let has_expired = grant.expiry matches Some(end) && end.0 <= then.0;
            &&& is_granted_as_requested(old(set)@, request@, policy.dict(), grant)
            &&& match value_of(composed, ConstraintDimensionView::TimeWindow) {
                ConstraintValueView::Range { max, .. } => has_expired <==> max <= then.0,
                _ => {
                    let lives = now.0 + old(set)@.limits.default_grant_ttl_millis;
                    has_expired <==> lives <= then.0 || then.0 == u64::MAX
                },
            }
            &&& match value_of(composed, ConstraintDimensionView::UseCount) {
                ConstraintValueView::Range { max, .. } => {
                    &&& grant.max_uses <= max
                    &&& grant.max_uses == max || grant.max_uses == u32::MAX
                },
                _ => grant.max_uses == old(set)@.limits.default_max_uses,
            }
        },
        r@.checks.len() == evaluations.deep_view().len(),
        final(set)@ == (SecurityCheckSetView { sessions: final(set)@.sessions, ..old(set)@ }),
{
}

} // verus!
