//! What holds of a check set as a whole.

use vstd::prelude::*;

use super::compose::{
    approval_is_required, composed_constraints, covered_permissions, denial, known_permissions,
    raised_findings,
};
use super::{
    after_findings, by_id, elapsed, enforced_policy, fresh_set, ids_are_distinct, is_enforced,
    recent, repeats_earlier, retained_findings, AdvisoryFindingView, CheckEvaluationView,
    CheckReportView, CircuitBreakerView, EnforcementLimits, RegistrationView, RevocationTargetView,
    SecurityCheckSetView, SessionStateView,
};
use crate::clock::{later, Timestamp};
use crate::collections::{dict, lemma_dict_determines_entries, ordered_keys};
use crate::fingerprint::fingerprint_of;
use crate::grant::{
    constraints_meet_is_associative, constraints_meet_is_commutative, is_impossible,
    meet_constraints, AuthorizationDecisionView, CapabilityGrantView, DecisionCodeView,
    GrantConstraintsView, SecurityCheckMode,
};
use crate::security::{AuthorizationRequestView, PermissionView};

verus! {

proof fn lemma_by_id(registrations: Seq<RegistrationView>)
    requires
        ids_are_distinct(registrations),
    ensures
        forall|k: Seq<char>| #[trigger]
            by_id(registrations).dom().contains(k) ==> registrations.contains(
                by_id(registrations)[k],
            ) && by_id(registrations)[k].id == k,
        forall|r: RegistrationView| #[trigger]
            registrations.contains(r) ==> by_id(registrations).dom().contains(r.id)
                && by_id(registrations)[r.id] == r,
    decreases registrations.len(),
{
    if registrations.len() > 0 {
        let rest = registrations.drop_last();
        let last = registrations.last();
        let map = by_id(registrations);
        assert forall|i: int| 0 <= i < rest.len() implies !repeats_earlier(rest, i) by {
            if repeats_earlier(rest, i) {
                let j = choose|j: int| 0 <= j < i && (#[trigger] rest[j]).id == rest[i].id;
                assert(registrations[j].id == registrations[i].id);
                assert(repeats_earlier(registrations, i));
            }
        }
        lemma_by_id(rest);
        assert forall|k: Seq<char>| #[trigger] map.dom().contains(k) implies registrations.contains(
            map[k],
        ) && map[k].id == k by {
            if k == last.id {
                assert(registrations[registrations.len() - 1] == last);
            } else {
                assert(by_id(rest).dom().contains(k));
                let i = choose|i: int| 0 <= i < rest.len() && rest[i] == map[k];
                assert(registrations[i] == map[k]);
            }
        }
        assert forall|r: RegistrationView| #[trigger] registrations.contains(r) implies map.dom().contains(
            r.id,
        ) && map[r.id] == r by {
            let i = choose|i: int| 0 <= i < registrations.len() && registrations[i] == r;
            if i < rest.len() {
                assert(rest[i] == r);
                assert(rest.contains(r));
                if r.id == last.id {
                    assert(registrations[i].id == registrations[registrations.len() - 1].id);
                    assert(repeats_earlier(registrations, registrations.len() - 1));
                }
            }
        }
    }
}

/// The order of registration does not matter: sealing the same registrations
/// in another order gives the same checks, the same composed revision, and the
/// same set.
pub proof fn registration_order_does_not_matter(
    a: Seq<RegistrationView>,
    b: Seq<RegistrationView>,
    limits: EnforcementLimits,
    sealed_a: SecurityCheckSetView,
    sealed_b: SecurityCheckSetView,
)
    requires
        forall|r: RegistrationView| #[trigger] a.contains(r) <==> b.contains(r),
        ids_are_distinct(a),
        ids_are_distinct(b),
        ordered_keys(sealed_a.checks),
        dict(sealed_a.checks) == by_id(a),
        sealed_a == fresh_set(sealed_a.checks, limits),
        ordered_keys(sealed_b.checks),
        dict(sealed_b.checks) == by_id(b),
        sealed_b == fresh_set(sealed_b.checks, limits),
    ensures
        sealed_a.checks == sealed_b.checks,
        sealed_a.revision == sealed_b.revision,
        sealed_a == sealed_b,
{
    lemma_by_id(a);
    lemma_by_id(b);
    assert forall|k: Seq<char>| by_id(a).dom().contains(k) == by_id(b).dom().contains(k) by {
        if by_id(a).dom().contains(k) {
            assert(b.contains(by_id(a)[k]));
        }
        if by_id(b).dom().contains(k) {
            assert(a.contains(by_id(b)[k]));
        }
    }
    assert forall|k: Seq<char>| by_id(a).dom().contains(k) implies by_id(a)[k] == by_id(b)[k] by {
        assert(b.contains(by_id(a)[k]));
    }
    assert(by_id(a) =~= by_id(b));
    lemma_dict_determines_entries(sealed_a.checks, sealed_b.checks);
}

/// An enforcing denial wins, whatever the other checks say.
pub proof fn an_enforcing_denial_wins(
    set: SecurityCheckSetView,
    request: AuthorizationRequestView,
    evaluations: Seq<CheckEvaluationView>,
    policy: Map<Seq<char>, Seq<char>>,
    now: Timestamp,
    i: int,
)
    requires
        0 <= i < evaluations.len(),
        evaluations[i].denies(),
    ensures
        set.decision(request, evaluations, policy, now) == (AuthorizationDecisionView::Deny {
            code: DecisionCodeView::EnforcingCheckDenied,
        }),
{
}

/// An enforcing check without an outcome denies, whatever the other checks
/// say.
pub proof fn an_unavailable_enforcing_check_denies(
    set: SecurityCheckSetView,
    request: AuthorizationRequestView,
    evaluations: Seq<CheckEvaluationView>,
    policy: Map<Seq<char>, Seq<char>>,
    now: Timestamp,
    i: int,
)
    requires
        0 <= i < evaluations.len(),
        evaluations[i].is_unavailable(),
    ensures
        set.decision(request, evaluations, policy, now) is Deny,
{
}

/// What is not denied is fully covered by authoritative checks that let it
/// pass, under constraints that can be met, and no enforcing check objects.
pub proof fn what_is_not_denied_is_covered(
    set: SecurityCheckSetView,
    request: AuthorizationRequestView,
    evaluations: Seq<CheckEvaluationView>,
    policy: Map<Seq<char>, Seq<char>>,
    now: Timestamp,
)
    requires
        !(set.decision(request, evaluations, policy, now) is Deny),
    ensures
        request.requested.subset_of(covered_permissions(evaluations)),
        !is_impossible(composed_constraints(evaluations)),
        forall|i: int|
            0 <= i < evaluations.len() ==> {
                &&& !(#[trigger] evaluations[i]).denies()
                &&& !evaluations[i].is_unavailable()
                &&& !evaluations[i].is_invalid()
            },
{
}

/// Nothing is allowed by default: where no authoritative check lets the
/// request pass, a request for any permission at all is denied.
pub proof fn nothing_is_allowed_by_default(
    set: SecurityCheckSetView,
    request: AuthorizationRequestView,
    evaluations: Seq<CheckEvaluationView>,
    policy: Map<Seq<char>, Seq<char>>,
    now: Timestamp,
    permission: PermissionView,
)
    requires
        request.requested.contains(permission),
        forall|i: int|
            0 <= i < evaluations.len() ==> !(#[trigger] evaluations[i]).grants_coverage(),
    ensures
        set.decision(request, evaluations, policy, now) is Deny,
{
    assert(!covered_permissions(evaluations).contains(permission));
}

/// A grant is of exactly what was requested: its subject, session, action,
/// resource, and permissions, under the request's check-set revision and the
/// current policy epoch.
pub proof fn a_grant_is_of_what_was_requested(
    set: SecurityCheckSetView,
    request: AuthorizationRequestView,
    evaluations: Seq<CheckEvaluationView>,
    policy: Map<Seq<char>, Seq<char>>,
    now: Timestamp,
)
    ensures
        match set.decision(request, evaluations, policy, now) {
            AuthorizationDecisionView::Allow { grant } => {
                &&& !approval_is_required(evaluations)
                &&& was_requested(set, grant, request, policy)
            },
            AuthorizationDecisionView::RequireApproval { eligible } => {
                &&& approval_is_required(evaluations)
                &&& was_requested(set, eligible, request, policy)
            },
            AuthorizationDecisionView::Deny { code } => denial(request.requested, evaluations)
                == Some(code),
        },
{
}

/// Whether `grant` is of what `request` asks for, under the policy epoch.
pub open spec fn was_requested(
    set: SecurityCheckSetView,
    grant: CapabilityGrantView,
    request: AuthorizationRequestView,
    policy: Map<Seq<char>, Seq<char>>,
) -> bool {
    &&& grant.subject == request.context.subject
    &&& grant.session == request.context.session
    &&& grant.action == request.action
    &&& grant.resource == request.resource
    &&& grant.permissions == request.requested
    &&& grant.check_set_revision == request.context.check_set_revision
    &&& grant.policy_epoch == set.epoch(policy)
}

/// Whether two evaluations differ at most in what an advisory check
/// contributed.
pub open spec fn differ_in_advice(a: CheckEvaluationView, b: CheckEvaluationView) -> bool {
    ||| a == b
    ||| {
        &&& a.mode == SecurityCheckMode::Advisory
        &&& b.mode == SecurityCheckMode::Advisory
        &&& a.coverage == b.coverage
    }
}

/// What an advisory check says never changes the decision.
pub proof fn advice_does_not_decide(
    set: SecurityCheckSetView,
    request: AuthorizationRequestView,
    a: Seq<CheckEvaluationView>,
    b: Seq<CheckEvaluationView>,
    policy: Map<Seq<char>, Seq<char>>,
    now: Timestamp,
)
    requires
        a.len() == b.len(),
        forall|i: int| 0 <= i < a.len() ==> differ_in_advice(#[trigger] a[i], b[i]),
    ensures
        set.decision(request, a, policy, now) == set.decision(request, b, policy, now),
{
    lemma_advice_does_not_constrain(a, b);
    lemma_same_verdicts(request.requested, a, b);
}

proof fn lemma_advice_does_not_constrain(
    a: Seq<CheckEvaluationView>,
    b: Seq<CheckEvaluationView>,
)
    requires
        a.len() == b.len(),
        forall|i: int| 0 <= i < a.len() ==> differ_in_advice(#[trigger] a[i], b[i]),
    ensures
        composed_constraints(a) == composed_constraints(b),
    decreases a.len(),
{
    if a.len() > 0 {
        assert forall|i: int| 0 <= i < a.drop_last().len() implies differ_in_advice(
            #[trigger] a.drop_last()[i],
            b.drop_last()[i],
        ) by {
            assert(differ_in_advice(a[i], b[i]));
        }
        lemma_advice_does_not_constrain(a.drop_last(), b.drop_last());
        assert(differ_in_advice(a[a.len() - 1], b[a.len() - 1]));
    }
}

proof fn lemma_same_verdicts(
    requested: Set<PermissionView>,
    a: Seq<CheckEvaluationView>,
    b: Seq<CheckEvaluationView>,
)
    requires
        a.len() == b.len(),
        forall|i: int| 0 <= i < a.len() ==> differ_in_advice(#[trigger] a[i], b[i]),
        composed_constraints(a) == composed_constraints(b),
    ensures
        denial(requested, a) == denial(requested, b),
        approval_is_required(a) == approval_is_required(b),
{
    assert forall|i: int| 0 <= i < a.len() implies {
        &&& (#[trigger] a[i]).denies() == b[i].denies()
        &&& a[i].is_unavailable() == b[i].is_unavailable()
        &&& a[i].is_invalid() == b[i].is_invalid()
        &&& a[i].asks_approval() == b[i].asks_approval()
        &&& a[i].grants_coverage() == b[i].grants_coverage()
        &&& a[i].coverage == b[i].coverage
    } by {
        assert(differ_in_advice(a[i], b[i]));
    }
    lemma_verdicts_follow(requested, a, b);
    assert forall|i: int| 0 <= i < b.len() implies {
        &&& (#[trigger] b[i]).denies() == a[i].denies()
        &&& b[i].is_unavailable() == a[i].is_unavailable()
        &&& b[i].is_invalid() == a[i].is_invalid()
        &&& b[i].asks_approval() == a[i].asks_approval()
        &&& b[i].grants_coverage() == a[i].grants_coverage()
        &&& b[i].coverage == a[i].coverage
    } by {
        assert(differ_in_advice(a[i], b[i]));
    }
    lemma_verdicts_follow(requested, b, a);
    assert(known_permissions(a) =~= known_permissions(b));
    assert(covered_permissions(a) =~= covered_permissions(b));
}

proof fn lemma_verdicts_follow(
    requested: Set<PermissionView>,
    a: Seq<CheckEvaluationView>,
    b: Seq<CheckEvaluationView>,
)
    requires
        a.len() == b.len(),
        forall|i: int|
            0 <= i < a.len() ==> {
                &&& (#[trigger] a[i]).denies() == b[i].denies()
                &&& a[i].is_unavailable() == b[i].is_unavailable()
                &&& a[i].is_invalid() == b[i].is_invalid()
                &&& a[i].asks_approval() == b[i].asks_approval()
                &&& a[i].grants_coverage() == b[i].grants_coverage()
                &&& a[i].coverage == b[i].coverage
            },
    ensures
        (exists|i: int| 0 <= i < a.len() && (#[trigger] a[i]).denies()) ==> (exists|i: int|
            0 <= i < b.len() && (#[trigger] b[i]).denies()),
        (exists|i: int| 0 <= i < a.len() && (#[trigger] a[i]).is_unavailable()) ==> (exists|i: int|
            0 <= i < b.len() && (#[trigger] b[i]).is_unavailable()),
        (exists|i: int| 0 <= i < a.len() && (#[trigger] a[i]).is_invalid()) ==> (exists|i: int|
            0 <= i < b.len() && (#[trigger] b[i]).is_invalid()),
        approval_is_required(a) ==> approval_is_required(b),
        known_permissions(a).subset_of(known_permissions(b)),
        covered_permissions(a).subset_of(covered_permissions(b)),
{
    if exists|i: int| 0 <= i < a.len() && (#[trigger] a[i]).denies() {
        let i = choose|i: int| 0 <= i < a.len() && (#[trigger] a[i]).denies();
        assert(b[i].denies());
    }
    if exists|i: int| 0 <= i < a.len() && (#[trigger] a[i]).is_unavailable() {
        let i = choose|i: int| 0 <= i < a.len() && (#[trigger] a[i]).is_unavailable();
        assert(b[i].is_unavailable());
    }
    if exists|i: int| 0 <= i < a.len() && (#[trigger] a[i]).is_invalid() {
        let i = choose|i: int| 0 <= i < a.len() && (#[trigger] a[i]).is_invalid();
        assert(b[i].is_invalid());
    }
    if approval_is_required(a) {
        let i = choose|i: int| 0 <= i < a.len() && (#[trigger] a[i]).asks_approval();
        assert(b[i].asks_approval());
    }
    assert forall|p: PermissionView| known_permissions(a).contains(p) implies known_permissions(
        b,
    ).contains(p) by {
        let i = choose|i: int| 0 <= i < a.len() && (#[trigger] a[i]).coverage.contains(p);
        assert(b[i].coverage.contains(p));
    }
    assert forall|p: PermissionView| covered_permissions(a).contains(p) implies covered_permissions(
        b,
    ).contains(p) by {
        let i = choose|i: int|
            0 <= i < a.len() && (#[trigger] a[i]).grants_coverage() && a[i].coverage.contains(p);
        assert(b[i].grants_coverage());
    }
}

spec fn constrained_by(
    constraints: GrantConstraintsView,
    evaluation: CheckEvaluationView,
) -> GrantConstraintsView {
    match evaluation.passes_under() {
        Some(imposed) => meet_constraints(constraints, imposed),
        None => constraints,
    }
}

proof fn lemma_constraining_commutes(
    constraints: GrantConstraintsView,
    x: CheckEvaluationView,
    y: CheckEvaluationView,
)
    ensures
        constrained_by(constrained_by(constraints, x), y) == constrained_by(
            constrained_by(constraints, y),
            x,
        ),
{
    if let (Some(a), Some(b)) = (x.passes_under(), y.passes_under()) {
        constraints_meet_is_associative(constraints, a, b);
        constraints_meet_is_associative(constraints, b, a);
        constraints_meet_is_commutative(a, b);
    }
}

proof fn lemma_constraints_without_one(evaluations: Seq<CheckEvaluationView>, i: int)
    requires
        0 <= i < evaluations.len(),
    ensures
        composed_constraints(evaluations) == constrained_by(
            composed_constraints(evaluations.remove(i)),
            evaluations[i],
        ),
    decreases evaluations.len(),
{
    let rest = evaluations.drop_last();
    if i == evaluations.len() - 1 {
        assert(evaluations.remove(i) =~= rest);
    } else {
        lemma_constraints_without_one(rest, i);
        assert(evaluations.remove(i).drop_last() =~= rest.remove(i));
        assert(evaluations.remove(i).last() == evaluations.last());
        lemma_constraining_commutes(
            composed_constraints(rest.remove(i)),
            evaluations[i],
            evaluations.last(),
        );
    }
}

proof fn lemma_constraints_ignore_order(
    a: Seq<CheckEvaluationView>,
    b: Seq<CheckEvaluationView>,
)
    requires
        a.to_multiset() == b.to_multiset(),
    ensures
        composed_constraints(a) == composed_constraints(b),
    decreases a.len(),
{
    broadcast use vstd::seq_lib::group_to_multiset_ensures;

    assert(a.len() == a.to_multiset().len());
    assert(b.len() == b.to_multiset().len());
    if a.len() > 0 {
        let last = a.last();
        assert(a.contains(last)) by {
            assert(a[a.len() - 1] == last);
        }
        assert(b.to_multiset().count(last) > 0);
        assert(b.contains(last));
        let i = choose|i: int| 0 <= i < b.len() && b[i] == last;
        assert(a.remove(a.len() - 1) =~= a.drop_last());
        assert(a.drop_last().to_multiset() =~= a.to_multiset().remove(last));
        assert(b.remove(i).to_multiset() =~= b.to_multiset().remove(last));
        lemma_constraints_ignore_order(a.drop_last(), b.remove(i));
        lemma_constraints_without_one(b, i);
    }
}

/// The decision does not depend on the order in which the checks' parts are
/// composed.
pub proof fn composition_order_does_not_matter(
    set: SecurityCheckSetView,
    request: AuthorizationRequestView,
    a: Seq<CheckEvaluationView>,
    b: Seq<CheckEvaluationView>,
    policy: Map<Seq<char>, Seq<char>>,
    now: Timestamp,
)
    requires
        a.to_multiset() == b.to_multiset(),
    ensures
        set.decision(request, a, policy, now) == set.decision(request, b, policy, now),
{
    broadcast use vstd::seq_lib::group_to_multiset_ensures;

    lemma_constraints_ignore_order(a, b);
    assert forall|e: CheckEvaluationView| #[trigger] a.contains(e) implies b.contains(e) by {
        assert(b.to_multiset().count(e) > 0);
    }
    assert forall|e: CheckEvaluationView| #[trigger] b.contains(e) implies a.contains(e) by {
        assert(a.to_multiset().count(e) > 0);
    }
    lemma_verdicts_of_members(a, b);
    lemma_verdicts_of_members(b, a);
    assert(known_permissions(a) =~= known_permissions(b));
    assert(covered_permissions(a) =~= covered_permissions(b));
}

proof fn lemma_verdicts_of_members(a: Seq<CheckEvaluationView>, b: Seq<CheckEvaluationView>)
    requires
        forall|e: CheckEvaluationView| #[trigger] a.contains(e) ==> b.contains(e),
    ensures
        (exists|i: int| 0 <= i < a.len() && (#[trigger] a[i]).denies()) ==> (exists|i: int|
            0 <= i < b.len() && (#[trigger] b[i]).denies()),
        (exists|i: int| 0 <= i < a.len() && (#[trigger] a[i]).is_unavailable()) ==> (exists|i: int|
            0 <= i < b.len() && (#[trigger] b[i]).is_unavailable()),
        (exists|i: int| 0 <= i < a.len() && (#[trigger] a[i]).is_invalid()) ==> (exists|i: int|
            0 <= i < b.len() && (#[trigger] b[i]).is_invalid()),
        approval_is_required(a) ==> approval_is_required(b),
        known_permissions(a).subset_of(known_permissions(b)),
        covered_permissions(a).subset_of(covered_permissions(b)),
{
    if exists|i: int| 0 <= i < a.len() && (#[trigger] a[i]).denies() {
        let i = choose|i: int| 0 <= i < a.len() && (#[trigger] a[i]).denies();
        assert(a.contains(a[i]));
        let j = choose|j: int| 0 <= j < b.len() && b[j] == a[i];
        assert(b[j].denies());
    }
    if exists|i: int| 0 <= i < a.len() && (#[trigger] a[i]).is_unavailable() {
        let i = choose|i: int| 0 <= i < a.len() && (#[trigger] a[i]).is_unavailable();
        assert(a.contains(a[i]));
        let j = choose|j: int| 0 <= j < b.len() && b[j] == a[i];
        assert(b[j].is_unavailable());
    }
    if exists|i: int| 0 <= i < a.len() && (#[trigger] a[i]).is_invalid() {
        let i = choose|i: int| 0 <= i < a.len() && (#[trigger] a[i]).is_invalid();
        assert(a.contains(a[i]));
        let j = choose|j: int| 0 <= j < b.len() && b[j] == a[i];
        assert(b[j].is_invalid());
    }
    if approval_is_required(a) {
        let i = choose|i: int| 0 <= i < a.len() && (#[trigger] a[i]).asks_approval();
        assert(a.contains(a[i]));
        let j = choose|j: int| 0 <= j < b.len() && b[j] == a[i];
        assert(b[j].asks_approval());
    }
    assert forall|p: PermissionView| known_permissions(a).contains(p) implies known_permissions(
        b,
    ).contains(p) by {
        let i = choose|i: int| 0 <= i < a.len() && (#[trigger] a[i]).coverage.contains(p);
        assert(a.contains(a[i]));
        let j = choose|j: int| 0 <= j < b.len() && b[j] == a[i];
        assert(b[j].coverage.contains(p));
    }
    assert forall|p: PermissionView| covered_permissions(a).contains(p) implies covered_permissions(
        b,
    ).contains(p) by {
        let i = choose|i: int|
            0 <= i < a.len() && (#[trigger] a[i]).grants_coverage() && a[i].coverage.contains(p);
        assert(a.contains(a[i]));
        let j = choose|j: int| 0 <= j < b.len() && b[j] == a[i];
        assert(b[j].grants_coverage());
    }
}

/// The audit trail lists the checks in the order of their ids.
pub proof fn audits_are_in_order(
    set: SecurityCheckSetView,
    request: AuthorizationRequestView,
    reports: Seq<CheckReportView>,
    policy: Map<Seq<char>, Seq<char>>,
    now: Timestamp,
    i: int,
    j: int,
)
    requires
        ordered_keys(set.checks),
        0 <= i < j < set.checks.len(),
    ensures
        ({
            let trail = set.composed(request, set.evaluations(reports, now), policy, now).checks;
            &&& trail.len() == set.checks.len()
            &&& crate::text::text_before(trail[i].id, trail[j].id)
        }),
{
    assert(crate::text::text_before(set.checks[i].0, set.checks[j].0));
}

/// Whether revoking `target` concerns `grant`.
pub open spec fn concerns(target: RevocationTargetView, grant: CapabilityGrantView) -> bool {
    match target {
        RevocationTargetView::Subject(subject) => grant.subject == subject,
        RevocationTargetView::Session(session) => grant.session == session,
        RevocationTargetView::Grant(fingerprint) => fingerprint_of(grant.audit_fields())
            == fingerprint,
    }
}

/// A revoked grant is refused from then on, and a revocation concerns nothing
/// but its target.
pub proof fn a_revoked_grant_is_refused(
    set: SecurityCheckSetView,
    target: RevocationTargetView,
    grant: CapabilityGrantView,
    request: AuthorizationRequestView,
    policy: Map<Seq<char>, Seq<char>>,
    now: Timestamp,
)
    ensures
        concerns(target, grant) ==> set.revoking(target).presentation_fault(
            grant,
            request,
            policy,
            now,
        ) == Some(DecisionCodeView::GrantRevoked),
        !concerns(target, grant) ==> set.revoking(target).presentation_fault(
            grant,
            request,
            policy,
            now,
        ) == set.presentation_fault(grant, request, policy, now),
{
}

/// Nothing takes a revocation back: neither a later revocation nor a later
/// authorization.
pub proof fn a_revocation_is_permanent(
    set: SecurityCheckSetView,
    grant: CapabilityGrantView,
    target: RevocationTargetView,
    request: AuthorizationRequestView,
    reports: Seq<CheckReportView>,
    now: Timestamp,
)
    requires
        set.has_revoked(grant),
    ensures
        set.revoking(target).has_revoked(grant),
        set.admitting(request, now).has_revoked(grant),
        set.settled(request, reports, now).has_revoked(grant),
{
}

/// A grant is only accepted for a request that it covers.
pub proof fn an_accepted_grant_covers_the_request(
    set: SecurityCheckSetView,
    grant: CapabilityGrantView,
    request: AuthorizationRequestView,
    policy: Map<Seq<char>, Seq<char>>,
    now: Timestamp,
)
    ensures
        set.presentation_fault(grant, request, policy, now) is None <==> {
            &&& grant.covers_at(request, now)
            &&& grant.policy_epoch == set.epoch(policy)
            &&& !set.has_revoked(grant)
        },
{
}

/// A grant can be presented as often as it has uses, and not once more.
pub proof fn a_grant_runs_out(
    set: SecurityCheckSetView,
    grant: CapabilityGrantView,
    request: AuthorizationRequestView,
    policy: Map<Seq<char>, Seq<char>>,
    now: Timestamp,
)
    requires
        set.presentation_fault(grant, request, policy, now) is None,
    ensures
        ({
            let used = CapabilityGrantView {
                remaining_uses: (grant.remaining_uses - 1) as u32,
                ..grant
            };
            set.presentation_fault(used, request, policy, now) == (if grant.remaining_uses == 1 {
                Some(DecisionCodeView::GrantUseCountExhausted)
            } else {
                None
            })
        }),
{
    let used = CapabilityGrantView { remaining_uses: (grant.remaining_uses - 1) as u32, ..grant };
    assert(used.audit_fields() == grant.audit_fields());
}

proof fn lemma_enforced_policy(
    checks: Seq<(Seq<char>, RegistrationView)>,
    policy: Map<Seq<char>, Seq<char>>,
    id: Seq<char>,
)
    ensures
        dict(enforced_policy(checks, policy)).dom().contains(id) <==> (policy.dom().contains(id)
            && is_enforced(checks, id)),
        dict(enforced_policy(checks, policy)).dom().contains(id) ==> dict(
            enforced_policy(checks, policy),
        )[id] == policy[id],
    decreases checks.len(),
{
    if checks.len() > 0 {
        let rest = checks.drop_last();
        let before = enforced_policy(rest, policy);
        let key = checks.last().0;
        lemma_enforced_policy(rest, policy, id);
        assert(before.push((key, policy[key])).drop_last() =~= before);
        if is_enforced(rest, id) {
            let i = choose|i: int|
                0 <= i < rest.len() && (#[trigger] rest[i]).0 == id && rest[i].1.mode.enforces();
            assert(checks[i].0 == id);
        }
        if is_enforced(checks, id) {
            let i = choose|i: int|
                0 <= i < checks.len() && (#[trigger] checks[i]).0 == id
                    && checks[i].1.mode.enforces();
            if i < rest.len() {
                assert(rest[i].0 == id);
            }
        }
        if checks.last().1.mode.enforces() && key == id {
            assert(checks[checks.len() - 1].0 == id);
        }
    }
}

/// A change in the policy-data revision of one enforcing check invalidates
/// every grant of the earlier epoch, though the check set is the same.
pub proof fn a_policy_change_invalidates_grants(
    set: SecurityCheckSetView,
    grant: CapabilityGrantView,
    request: AuthorizationRequestView,
    before: Map<Seq<char>, Seq<char>>,
    after: Map<Seq<char>, Seq<char>>,
    now: Timestamp,
    id: Seq<char>,
)
    requires
        grant.policy_epoch == set.epoch(before),
        is_enforced(set.checks, id),
        before.dom().contains(id) != after.dom().contains(id) || (before.dom().contains(id)
            && before[id] != after[id]),
    ensures
        grant.policy_epoch != set.epoch(after),
        set.presentation_fault(grant, request, after, now) is Some,
{
    lemma_enforced_policy(set.checks, before, id);
    lemma_enforced_policy(set.checks, after, id);
}

/// What checks that do not enforce declare has no part in the policy epoch.
pub proof fn advisory_policy_is_not_in_the_epoch(
    set: SecurityCheckSetView,
    before: Map<Seq<char>, Seq<char>>,
    after: Map<Seq<char>, Seq<char>>,
)
    requires
        forall|id: Seq<char>| #[trigger]
            is_enforced(set.checks, id) ==> (before.dom().contains(id) == after.dom().contains(id)
                && (before.dom().contains(id) ==> before[id] == after[id])),
    ensures
        set.epoch(before) == set.epoch(after),
{
    lemma_same_enforced_policy(set.checks, before, after);
}

proof fn lemma_same_enforced_policy(
    checks: Seq<(Seq<char>, RegistrationView)>,
    before: Map<Seq<char>, Seq<char>>,
    after: Map<Seq<char>, Seq<char>>,
)
    requires
        forall|id: Seq<char>| #[trigger]
            is_enforced(checks, id) ==> (before.dom().contains(id) == after.dom().contains(id) && (
            before.dom().contains(id) ==> before[id] == after[id])),
    ensures
        enforced_policy(checks, before) == enforced_policy(checks, after),
    decreases checks.len(),
{
    if checks.len() > 0 {
        let rest = checks.drop_last();
        assert forall|id: Seq<char>| #[trigger] is_enforced(rest, id) implies is_enforced(
            checks,
            id,
        ) by {
            let i = choose|i: int|
                0 <= i < rest.len() && (#[trigger] rest[i]).0 == id && rest[i].1.mode.enforces();
            assert(checks[i].0 == id);
        }
        lemma_same_enforced_policy(rest, before, after);
        if checks.last().1.mode.enforces() {
            assert(checks[checks.len() - 1].0 == checks.last().0);
            assert(is_enforced(checks, checks.last().0));
        }
    }
}

/// The set after a session asked for an authorization at each of `times` in
/// turn.
pub open spec fn asked_at(
    set: SecurityCheckSetView,
    session: Seq<char>,
    times: Seq<Timestamp>,
) -> SecurityCheckSetView
    decreases times.len(),
{
    if times.len() == 0 {
        set
    } else {
        asked_at(set, session, times.drop_last()).asked(session, times.last())
    }
}

/// Those of `times` at which the session's request is admitted.
pub open spec fn admitted_at(
    set: SecurityCheckSetView,
    session: Seq<char>,
    times: Seq<Timestamp>,
) -> Seq<Timestamp>
    decreases times.len(),
{
    if times.len() == 0 {
        Seq::empty()
    } else {
        let before = admitted_at(set, session, times.drop_last());
        if asked_at(set, session, times.drop_last()).rate_exceeded(session, times.last()) {
            before
        } else {
            before.push(times.last())
        }
    }
}

/// Whether no instant is earlier than one before it.
pub open spec fn in_time_order(times: Seq<Timestamp>) -> bool {
    forall|i: int, j: int|
        0 <= i < j < times.len() ==> (#[trigger] times[i]).0 <= (#[trigger] times[j]).0
}

/// Those of the instants from `start` on that are within `width` milliseconds of
/// it.
pub open spec fn within(instants: Seq<Timestamp>, start: int, width: u64) -> Seq<Timestamp> {
    instants.filter(|at: Timestamp| start <= at.0 < start + width)
}

proof fn lemma_stricter_filter<T>(items: Seq<T>, p: spec_fn(T) -> bool, q: spec_fn(T) -> bool)
    requires
        forall|x: T| #[trigger] p(x) ==> q(x),
    ensures
        items.filter(p).len() <= items.filter(q).len(),
        items.filter(q).filter(p) == items.filter(p),
    decreases items.len(),
{
    reveal(Seq::filter);
    if items.len() > 0 {
        let rest = items.drop_last();
        lemma_stricter_filter(rest, p, q);
        if q(items.last()) {
            assert(rest.filter(q).push(items.last()).drop_last() =~= rest.filter(q));
        }
    }
}

proof fn lemma_filter_push<T>(items: Seq<T>, x: T, p: spec_fn(T) -> bool)
    ensures
        items.push(x).filter(p) == (if p(x) {
            items.filter(p).push(x)
        } else {
            items.filter(p)
        }),
{
    reveal(Seq::filter);
    assert(items.push(x).drop_last() =~= items);
}

/// A session's state counts every request that was admitted within the window
/// that ends now: what it has forgotten has left the window for good.
pub proof fn every_recent_request_counts(
    set: SecurityCheckSetView,
    session: Seq<char>,
    times: Seq<Timestamp>,
    now: Timestamp,
)
    requires
        !set.sessions.dom().contains(session),
        in_time_order(times.push(now)),
    ensures
        asked_at(set, session, times).limits == set.limits,
        asked_at(set, session, times).session(session).recent(set.limits, now) == recent(
            admitted_at(set, session, times),
            set.limits.session_window_millis,
            now,
        ),
    decreases times.len(),
{
    let width = set.limits.session_window_millis;
    if times.len() > 0 {
        let (rest, last) = (times.drop_last(), times.last());
        let all = times.push(now);
        assert forall|i: int, j: int| 0 <= i < j < times.len() implies (#[trigger] times[i]).0 <= (
        #[trigger] times[j]).0 by {
            assert(all[i] == times[i] && all[j] == times[j]);
        }
        assert(all[times.len() - 1] == last && all[times.len() as int] == now);
        assert(rest.push(last) =~= times);
        assert forall|i: int, j: int| 0 <= i < j < rest.push(now).len() implies (
        #[trigger] rest.push(now)[i]).0 <= (#[trigger] rest.push(now)[j]).0 by {
            assert(all[i] == times[i]);
        }
        every_recent_request_counts(set, session, rest, last);
        every_recent_request_counts(set, session, rest, now);
        let kept = asked_at(set, session, rest).session(session).admitted;
        let counts_then = |at: Timestamp| elapsed(at, last) < width;
        let counts_now = |at: Timestamp| elapsed(at, now) < width;
        lemma_stricter_filter(kept, counts_now, counts_then);
        lemma_filter_push(kept.filter(counts_then), last, counts_now);
        lemma_filter_push(admitted_at(set, session, rest), last, counts_now);
    }
}

/// The session rate ceiling holds over every rolling window: whenever a session
/// asks, as time goes on, no interval as wide as the window holds more admitted
/// requests than the ceiling allows.
pub proof fn the_rate_ceiling_holds(
    set: SecurityCheckSetView,
    session: Seq<char>,
    times: Seq<Timestamp>,
    start: int,
)
    requires
        !set.sessions.dom().contains(session),
        in_time_order(times),
    ensures
        within(admitted_at(set, session, times), start, set.limits.session_window_millis).len()
            <= set.limits.max_requests_per_session_window,
    decreases times.len(),
{
    let width = set.limits.session_window_millis;
    let inside = |at: Timestamp| start <= at.0 < start + width;
    if times.len() > 0 {
        let (rest, last) = (times.drop_last(), times.last());
        assert(rest.push(last) =~= times);
        assert(in_time_order(rest)) by {
            assert forall|i: int, j: int| 0 <= i < j < rest.len() implies (#[trigger] rest[i]).0
                <= (#[trigger] rest[j]).0 by {
                assert(times[i] == rest[i] && times[j] == rest[j]);
            }
        }
        the_rate_ceiling_holds(set, session, rest, start);
        every_recent_request_counts(set, session, rest, last);
        let before = admitted_at(set, session, rest);
        lemma_filter_push(before, last, inside);
        if inside(last) {
            lemma_stricter_filter(
                before,
                inside,
                |at: Timestamp| elapsed(at, last) < width,
            );
        }
    } else {
        reveal(Seq::filter);
    }
}

/// A request over the ceiling is refused and not counted, any other is counted;
/// what a session's state keeps is bounded by the ceiling.
pub proof fn a_refused_request_is_not_counted(
    state: SessionStateView,
    limits: EnforcementLimits,
    now: Timestamp,
)
    requires
        state.admitted.len() <= limits.max_requests_per_session_window,
    ensures
        state.asked(limits, now).admitted.len() <= limits.max_requests_per_session_window,
        state.is_exhausted(limits, now) ==> state.asked(limits, now).recent(limits, now)
            == state.recent(limits, now),
        !state.is_exhausted(limits, now) && limits.session_window_millis > 0 ==> state.asked(
            limits,
            now,
        ).recent(limits, now) == state.recent(limits, now).push(now),
{
    let counts = |at: Timestamp| elapsed(at, now) < limits.session_window_millis;
    lemma_stricter_filter(state.admitted, counts, counts);
    lemma_filter_push(state.admitted.filter(counts), now, counts);
    state.admitted.lemma_filter_len(counts);
}

/// Settling a request leaves every session's admitted requests as they are: only
/// asking counts.
pub proof fn settling_does_not_count(
    set: SecurityCheckSetView,
    request: AuthorizationRequestView,
    reports: Seq<CheckReportView>,
    now: Timestamp,
    session: Seq<char>,
)
    ensures
        set.settled(request, reports, now).session(session).admitted == set.session(
            session,
        ).admitted,
{
    lemma_findings_do_not_count(
        set.session(request.context.session),
        set.limits,
        raised_findings(set.evaluations(reports, now)),
    );
}

proof fn lemma_findings_do_not_count(
    state: SessionStateView,
    limits: EnforcementLimits,
    findings: Seq<AdvisoryFindingView>,
)
    ensures
        after_findings(state, limits, findings).admitted == state.admitted,
    decreases findings.len(),
{
    if findings.len() > 0 {
        lemma_findings_do_not_count(state, limits, findings.drop_last());
    }
}

/// One session's requests do not count for another.
pub proof fn sessions_are_apart(
    set: SecurityCheckSetView,
    session: Seq<char>,
    other: Seq<char>,
    now: Timestamp,
    later_on: Timestamp,
)
    requires
        session != other,
    ensures
        set.asked(session, now).session(other) == set.session(other),
        set.asked(session, now).rate_exceeded(other, later_on) == set.rate_exceeded(
            other,
            later_on,
        ),
{
}

/// Retained advisory signals stay within the ceilings of the session, and each
/// offered finding is either retained or counted as dropped.
pub proof fn advisory_retention_is_bounded(
    state: SessionStateView,
    limits: EnforcementLimits,
    findings: Seq<AdvisoryFindingView>,
)
    requires
        state.is_bounded(limits),
        state.advisory_signals_dropped + findings.len() <= usize::MAX,
    ensures
        after_findings(state, limits, findings).is_bounded(limits),
        after_findings(state, limits, findings).advisory_signal_count
            == state.advisory_signal_count + retained_findings(state, limits, findings).len(),
        retained_findings(state, limits, findings).len() + after_findings(
            state,
            limits,
            findings,
        ).advisory_signals_dropped == state.advisory_signals_dropped + findings.len(),
    decreases findings.len(),
{
    if findings.len() > 0 {
        advisory_retention_is_bounded(state, limits, findings.drop_last());
    }
}

/// The breaker after `n` failures in a row, each at `now`.
pub open spec fn after_failures(
    circuit: CircuitBreakerView,
    limits: EnforcementLimits,
    now: Timestamp,
    n: nat,
) -> CircuitBreakerView
    decreases n,
{
    if n == 0 {
        circuit
    } else {
        after_failures(circuit, limits, now, (n - 1) as nat).recorded(limits, now, true)
    }
}

/// A closed circuit trips with the first failure over the threshold, not
/// before, and stays so until the fast-path window has passed.
pub proof fn a_circuit_trips_over_the_threshold(
    limits: EnforcementLimits,
    now: Timestamp,
    n: nat,
    at: Timestamp,
)
    requires
        n <= u32::MAX,
    ensures
        ({
            let closed = CircuitBreakerView { consecutive_failures: 0, fast_path_until_millis: 0 };
            let circuit = after_failures(closed, limits, now, n);
            &&& circuit.consecutive_failures == n
            &&& n <= limits.consecutive_failure_threshold ==> !circuit.is_tripped(at)
            &&& n > limits.consecutive_failure_threshold ==> (circuit.is_tripped(at) <==> at.0
                < later(now, limits.fast_path_window_millis).0)
        }),
    decreases n,
{
    if n > 0 {
        a_circuit_trips_over_the_threshold(limits, now, (n - 1) as nat, at);
        if n <= limits.consecutive_failure_threshold {
            a_closed_circuit_has_no_window(limits, now, (n - 1) as nat);
        }
    }
}

/// Up to the threshold, failures leave no fast-path window behind.
pub proof fn a_closed_circuit_has_no_window(limits: EnforcementLimits, now: Timestamp, n: nat)
    requires
        n <= limits.consecutive_failure_threshold,
    ensures
        ({
            let closed = CircuitBreakerView { consecutive_failures: 0, fast_path_until_millis: 0 };
            let circuit = after_failures(closed, limits, now, n);
            circuit.consecutive_failures == n && circuit.fast_path_until_millis == 0
        }),
    decreases n,
{
    if n > 0 {
        a_closed_circuit_has_no_window(limits, now, (n - 1) as nat);
    }
}

/// A success closes the circuit, however many failures there were.
pub proof fn a_success_closes_the_circuit(
    circuit: CircuitBreakerView,
    limits: EnforcementLimits,
    now: Timestamp,
    at: Timestamp,
)
    ensures
        circuit.recorded(limits, now, false).consecutive_failures == 0,
        !circuit.recorded(limits, now, false).is_tripped(at),
{
}

/// A check whose circuit is tripped denies, whatever it would say.
pub proof fn a_tripped_circuit_denies(
    set: SecurityCheckSetView,
    request: AuthorizationRequestView,
    reports: Seq<CheckReportView>,
    policy: Map<Seq<char>, Seq<char>>,
    now: Timestamp,
    i: int,
)
    requires
        0 <= i < set.checks.len(),
        set.skips(i, now),
    ensures
        set.decision(request, set.evaluations(reports, now), policy, now) is Deny,
{
    let evaluations = set.evaluations(reports, now);
    assert(evaluations[i].is_unavailable());
}

} // verus!
