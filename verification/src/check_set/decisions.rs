//! What an authorization decides, told from what was registered, reported, and asked
//! for.

use vstd::prelude::*;

use super::compose::{composed_constraints, findings_of, raised_findings};
use super::{
    after_findings, finding_size, interrupted, resolved_approval, retained_findings,
    AdvisoryFindingView, CheckEvaluationView, CheckReportView, CheckSetErrorView, CheckStatusView,
    CircuitBreakerView, EnforcementLimits, RegistrationView, SecurityCheckSetBuilderView,
    SecurityCheckSetView, SessionStateView,
};
use crate::clock::Timestamp;
use crate::collections::{dict, ordered_keys};
use crate::grant::{
    admits_number, admits_token, meet_admits_what_both_admit, meet_values, value_of,
    AuthorizationDecisionView, CapabilityGrantView, ConstraintDimensionView, ConstraintValueView,
    DecisionCodeView, GrantConstraintsView, SecurityCheckMode, SecurityCheckOutcomeView,
};
use crate::security::{AuthorizationRequestView, PermissionView, SecurityResourceView};

verus! {

/// Whether the check at `i` is authoritative or a required constraint.
pub open spec fn is_binding(set: SecurityCheckSetView, i: int) -> bool {
    set.checks[i].1.mode == SecurityCheckMode::Authoritative || set.checks[i].1.mode
        == SecurityCheckMode::RequiredConstraint
}

/// Whether the circuit of the check at `i` is open at `now`.
pub open spec fn circuit_is_open(set: SecurityCheckSetView, i: int, now: Timestamp) -> bool {
    let id = set.checks[i].0;
    set.circuits.dom().contains(id) && now.0 < set.circuits[id].fast_path_until_millis
}

/// The outcome that counts of the check at `i`, if it gave one.
pub open spec fn outcome_of(
    set: SecurityCheckSetView,
    reports: Seq<CheckReportView>,
    i: int,
    now: Timestamp,
) -> Option<SecurityCheckOutcomeView> {
    if is_binding(set, i) && circuit_is_open(set, i, now) {
        None
    } else {
        match reports[i].status {
            CheckStatusView::Outcome(outcome) => Some(outcome),
            _ => None,
        }
    }
}

/// The constraints that a passing outcome imposes, if it is one.
pub open spec fn imposed(outcome: Option<SecurityCheckOutcomeView>) -> Option<
    GrantConstraintsView,
> {
    match outcome {
        Some(SecurityCheckOutcomeView::Allow { constraints }) => Some(constraints),
        Some(SecurityCheckOutcomeView::RequireApproval { constraints }) => Some(constraints),
        _ => None,
    }
}

/// What the check at `i` imposes on a dimension: nothing if it is not binding or
/// did not let the request pass.
pub open spec fn imposed_on(
    set: SecurityCheckSetView,
    reports: Seq<CheckReportView>,
    i: int,
    now: Timestamp,
    dimension: ConstraintDimensionView,
) -> ConstraintValueView {
    if !is_binding(set, i) {
        ConstraintValueView::Top
    } else {
        match imposed(outcome_of(set, reports, i, now)) {
            Some(constraints) => if constraints.dom().contains(dimension) {
                constraints[dimension]
            } else {
                ConstraintValueView::Top
            },
            None => ConstraintValueView::Top,
        }
    }
}

/// Whether the check at `i` is there for permission `p`: the host assigned it, and
/// the check did not disclaim it.
pub open spec fn is_responsible(
    set: SecurityCheckSetView,
    reports: Seq<CheckReportView>,
    i: int,
    p: PermissionView,
) -> bool {
    &&& set.checks[i].1.coverage.contains(p)
    &&& reports[i].declared_coverage matches Some(own) ==> own.contains(p)
}

/// Whether an authoritative check is responsible for `p` and lets the request pass.
pub open spec fn is_granted_by(
    set: SecurityCheckSetView,
    reports: Seq<CheckReportView>,
    i: int,
    now: Timestamp,
    p: PermissionView,
) -> bool {
    &&& set.checks[i].1.mode == SecurityCheckMode::Authoritative
    &&& imposed(outcome_of(set, reports, i, now)) is Some
    &&& is_responsible(set, reports, i, p)
}

/// Whether a constraint value is well-formed: a range that is not reversed, or a set
/// with something in it.
pub open spec fn is_well_formed(value: ConstraintValueView) -> bool {
    match value {
        ConstraintValueView::Range { min, max } => min <= max,
        ConstraintValueView::OneOf(tokens) => exists|token: Seq<char>| tokens.contains(token),
        _ => true,
    }
}

/// Whether every constraint that is imposed on the dimension is well-formed.
pub open spec fn are_well_formed(
    set: SecurityCheckSetView,
    reports: Seq<CheckReportView>,
    now: Timestamp,
    dimension: ConstraintDimensionView,
) -> bool {
    forall|i: int|
        0 <= i < set.checks.len() ==> is_well_formed(
            #[trigger] imposed_on(set, reports, i, now, dimension),
        )
}

/// Whether number `n` is within what every check imposes on the dimension.
pub open spec fn all_admit_number(
    set: SecurityCheckSetView,
    reports: Seq<CheckReportView>,
    now: Timestamp,
    dimension: ConstraintDimensionView,
    n: u64,
) -> bool {
    forall|i: int|
        0 <= i < set.checks.len() ==> admits_number(
            #[trigger] imposed_on(set, reports, i, now, dimension),
            n,
        )
}

/// Whether the token is within what every check imposes on the dimension.
pub open spec fn all_admit_token(
    set: SecurityCheckSetView,
    reports: Seq<CheckReportView>,
    now: Timestamp,
    dimension: ConstraintDimensionView,
    token: Seq<char>,
) -> bool {
    forall|i: int|
        0 <= i < set.checks.len() ==> admits_token(
            #[trigger] imposed_on(set, reports, i, now, dimension),
            token,
        )
}

/// Whether no number and no token is within what the checks impose together.
pub open spec fn nothing_satisfies(
    set: SecurityCheckSetView,
    reports: Seq<CheckReportView>,
    now: Timestamp,
    dimension: ConstraintDimensionView,
) -> bool {
    &&& forall|n: u64| !#[trigger] all_admit_number(set, reports, now, dimension, n)
    &&& forall|token: Seq<char>| !#[trigger] all_admit_token(set, reports, now, dimension, token)
}

/// The requests of the session that were admitted less than a window before `now`.
pub open spec fn requests_in_window(
    set: SecurityCheckSetView,
    session: Seq<char>,
    now: Timestamp,
) -> Seq<Timestamp> {
    if set.sessions.dom().contains(session) {
        set.sessions[session].admitted.filter(
            |at: Timestamp|
                0 < set.limits.session_window_millis && now.0 < at.0
                    + set.limits.session_window_millis,
        )
    } else {
        Seq::empty()
    }
}

/// Whether the request comes under the set's revision and within the rate that its
/// session is allowed.
pub open spec fn is_admissible(
    set: SecurityCheckSetView,
    request: AuthorizationRequestView,
    now: Timestamp,
) -> bool {
    &&& request.context.check_set_revision == set.revision
    &&& requests_in_window(set, request.context.session, now).len()
        < set.limits.max_requests_per_session_window
}

proof fn lemma_same_filter<T>(items: Seq<T>, p: spec_fn(T) -> bool, q: spec_fn(T) -> bool)
    requires
        forall|x: T| #[trigger] p(x) == q(x),
    ensures
        items.filter(p) == items.filter(q),
    decreases items.len(),
{
    reveal(Seq::filter);
    if items.len() > 0 {
        lemma_same_filter(items.drop_last(), p, q);
    }
}

pub proof fn lemma_recent(set: SecurityCheckSetView, session: Seq<char>, now: Timestamp)
    ensures
        set.session(session).recent(set.limits, now) == requests_in_window(set, session, now),
{
    let width = set.limits.session_window_millis;
    let state = set.session(session);
    if set.sessions.dom().contains(session) {
        lemma_same_filter(
            state.admitted,
            |at: Timestamp| super::elapsed(at, now) < width,
            |at: Timestamp| 0 < width && now.0 < at.0 + width,
        );
    } else {
        reveal(Seq::filter);
    }
}

/// Whether a binding check denies the request.
pub open spec fn objects(
    set: SecurityCheckSetView,
    reports: Seq<CheckReportView>,
    i: int,
    now: Timestamp,
) -> bool {
    is_binding(set, i) && (outcome_of(set, reports, i, now) matches Some(outcome)
        && outcome is Deny)
}

/// Whether a binding check gives no outcome.
pub open spec fn is_silent(
    set: SecurityCheckSetView,
    reports: Seq<CheckReportView>,
    i: int,
    now: Timestamp,
) -> bool {
    is_binding(set, i) && outcome_of(set, reports, i, now) is None
}

/// Whether a binding check gives signals in place of a decision.
pub open spec fn only_signals(
    set: SecurityCheckSetView,
    reports: Seq<CheckReportView>,
    i: int,
    now: Timestamp,
) -> bool {
    is_binding(set, i) && (outcome_of(set, reports, i, now) matches Some(outcome)
        && outcome is Signal)
}

/// Whether a binding check asks for approval.
pub open spec fn wants_approval(
    set: SecurityCheckSetView,
    reports: Seq<CheckReportView>,
    i: int,
    now: Timestamp,
) -> bool {
    is_binding(set, i) && (outcome_of(set, reports, i, now) matches Some(outcome)
        && outcome is RequireApproval)
}

/// Whether no check is responsible for `p`.
pub open spec fn is_nobodys(
    set: SecurityCheckSetView,
    reports: Seq<CheckReportView>,
    p: PermissionView,
) -> bool {
    forall|i: int| 0 <= i < set.checks.len() ==> !#[trigger] is_responsible(set, reports, i, p)
}

/// Whether no authoritative check grants `p`.
pub open spec fn is_not_granted(
    set: SecurityCheckSetView,
    reports: Seq<CheckReportView>,
    now: Timestamp,
    p: PermissionView,
) -> bool {
    forall|i: int|
        0 <= i < set.checks.len() ==> !#[trigger] is_granted_by(set, reports, i, now, p)
}

/// What an evaluation imposes on a dimension.
spec fn constraint_at(
    evaluation: CheckEvaluationView,
    dimension: ConstraintDimensionView,
) -> ConstraintValueView {
    match evaluation.passes_under() {
        Some(constraints) => value_of(constraints, dimension),
        None => ConstraintValueView::Top,
    }
}

proof fn lemma_composed_admits(
    evaluations: Seq<CheckEvaluationView>,
    d: ConstraintDimensionView,
    n: u64,
    token: Seq<char>,
)
    ensures
        admits_number(value_of(composed_constraints(evaluations), d), n) <==> (forall|i: int|
            0 <= i < evaluations.len() ==> admits_number(
                constraint_at(#[trigger] evaluations[i], d),
                n,
            )),
        admits_token(value_of(composed_constraints(evaluations), d), token) <==> (forall|i: int|
            0 <= i < evaluations.len() ==> admits_token(
                constraint_at(#[trigger] evaluations[i], d),
                token,
            )),
    decreases evaluations.len(),
{
    if evaluations.len() > 0 {
        let rest = evaluations.drop_last();
        let last = evaluations.last();
        lemma_composed_admits(rest, d, n, token);
        meet_admits_what_both_admit(
            value_of(composed_constraints(rest), d),
            constraint_at(last, d),
            n,
            token,
        );
        assert(forall|i: int| 0 <= i < rest.len() ==> rest[i] == #[trigger] evaluations[i]);
        assert(evaluations[evaluations.len() - 1] == last);
        assert forall|i: int| 0 <= i < rest.len() && (forall|k: int|
            0 <= k < evaluations.len() ==> admits_number(
                constraint_at(#[trigger] evaluations[k], d),
                n,
            )) implies admits_number(constraint_at(#[trigger] rest[i], d), n) by {
            assert(evaluations[i] == rest[i]);
        }
        assert forall|i: int| 0 <= i < rest.len() && (forall|k: int|
            0 <= k < evaluations.len() ==> admits_token(
                constraint_at(#[trigger] evaluations[k], d),
                token,
            )) implies admits_token(constraint_at(#[trigger] rest[i], d), token) by {
            assert(evaluations[i] == rest[i]);
        }
    }
}

proof fn lemma_meet_well_formed(a: ConstraintValueView, b: ConstraintValueView)
    requires
        is_well_formed(a),
        is_well_formed(b),
    ensures
        is_well_formed(meet_values(a, b)),
{
    if let ConstraintValueView::OneOf(tokens) = meet_values(a, b) {
        if forall|t: Seq<char>| !(#[trigger] tokens.contains(t)) {
            assert(tokens =~= Set::<Seq<char>>::empty());
        }
    }
}

proof fn lemma_composed_well_formed(
    evaluations: Seq<CheckEvaluationView>,
    d: ConstraintDimensionView,
)
    requires
        forall|i: int|
            0 <= i < evaluations.len() ==> is_well_formed(
                constraint_at(#[trigger] evaluations[i], d),
            ),
    ensures
        is_well_formed(value_of(composed_constraints(evaluations), d)),
    decreases evaluations.len(),
{
    if evaluations.len() > 0 {
        let rest = evaluations.drop_last();
        assert forall|i: int| 0 <= i < rest.len() implies is_well_formed(
            constraint_at(#[trigger] rest[i], d),
        ) by {
            assert(rest[i] == evaluations[i]);
        }
        lemma_composed_well_formed(rest, d);
        assert(is_well_formed(constraint_at(evaluations[evaluations.len() - 1], d)));
        lemma_meet_well_formed(
            value_of(composed_constraints(rest), d),
            constraint_at(evaluations.last(), d),
        );
    }
}

/// Whether `max` is the least upper end of the ranges that are imposed.
spec fn is_least_max(
    evaluations: Seq<CheckEvaluationView>,
    d: ConstraintDimensionView,
    max: u64,
) -> bool {
    &&& exists|i: int|
        0 <= i < evaluations.len() && (constraint_at(
            #[trigger] evaluations[i],
            d,
        ) matches ConstraintValueView::Range { max: m, .. } && m == max)
    &&& forall|i: int|
        0 <= i < evaluations.len() && constraint_at(#[trigger] evaluations[i], d) is Range
            ==> max <= constraint_at(evaluations[i], d)->max
}

proof fn lemma_composed_max(evaluations: Seq<CheckEvaluationView>, d: ConstraintDimensionView)
    ensures
        match value_of(composed_constraints(evaluations), d) {
            ConstraintValueView::Range { max, .. } => is_least_max(evaluations, d, max),
            ConstraintValueView::Bottom => true,
            _ => forall|i: int|
                0 <= i < evaluations.len() ==> !(constraint_at(
                    #[trigger] evaluations[i],
                    d,
                ) is Range),
        },
    decreases evaluations.len(),
{
    if evaluations.len() > 0 {
        let rest = evaluations.drop_last();
        let last = evaluations.last();
        let n = evaluations.len() - 1;
        lemma_composed_max(rest, d);
        let before = value_of(composed_constraints(rest), d);
        let own = constraint_at(last, d);
        let all = value_of(composed_constraints(evaluations), d);
        assert(all == meet_values(before, own));
        assert(evaluations[n] == last);
        assert(forall|i: int| 0 <= i < rest.len() ==> rest[i] == #[trigger] evaluations[i]);
        if let ConstraintValueView::Range { max, .. } = all {
            if before is Range && before->max == max {
                let i = choose|i: int|
                    0 <= i < rest.len() && (constraint_at(
                        #[trigger] rest[i],
                        d,
                    ) matches ConstraintValueView::Range { max: m, .. } && m == max);
                assert(constraint_at(evaluations[i], d)->max == max);
            } else {
                assert(constraint_at(evaluations[n], d)->max == max);
            }
            assert forall|i: int|
                0 <= i < evaluations.len() && constraint_at(
                    #[trigger] evaluations[i],
                    d,
                ) is Range implies max <= constraint_at(evaluations[i], d)->max by {
                if i < n {
                    assert(rest[i] == evaluations[i]);
                }
            }
            assert(is_least_max(evaluations, d, max));
        } else if !(all is Bottom) {
            assert forall|i: int| 0 <= i < evaluations.len() implies !(constraint_at(
                #[trigger] evaluations[i],
                d,
            ) is Range) by {
                if i < n {
                    assert(rest[i] == evaluations[i]);
                }
            }
        }
    }
}

/// What the evaluations of an admitted request hold of what was reported.
proof fn lemma_evaluations(
    set: SecurityCheckSetView,
    request: AuthorizationRequestView,
    reports: Seq<CheckReportView>,
    now: Timestamp,
    i: int,
)
    requires
        0 <= i < set.checks.len(),
    ensures
        ({
            let e = set.admitting(request, now).evaluations(reports, now)[i];
            &&& e.id == set.checks[i].0
            &&& e.mode == set.checks[i].1.mode
            &&& forall|p: PermissionView| #[trigger]
                e.coverage.contains(p) <==> is_responsible(set, reports, i, p)
            &&& e.status == (if is_binding(set, i) && circuit_is_open(set, i, now) {
                CheckStatusView::FastPathDenied
            } else {
                reports[i].status
            })
            &&& e.denies() == objects(set, reports, i, now)
            &&& e.is_unavailable() == is_silent(set, reports, i, now)
            &&& e.is_invalid() == only_signals(set, reports, i, now)
            &&& e.asks_approval() == wants_approval(set, reports, i, now)
            &&& forall|p: PermissionView|
                (e.grants_coverage() && #[trigger] e.coverage.contains(p)) <==> is_granted_by(
                    set,
                    reports,
                    i,
                    now,
                    p,
                )
            &&& forall|d: ConstraintDimensionView| #[trigger]
                constraint_at(e, d) == imposed_on(set, reports, i, now, d)
        }),
{
}

proof fn lemma_composed_by_reports(
    set: SecurityCheckSetView,
    request: AuthorizationRequestView,
    reports: Seq<CheckReportView>,
    now: Timestamp,
    d: ConstraintDimensionView,
)
    ensures
        ({
            let v = value_of(
                composed_constraints(set.admitting(request, now).evaluations(reports, now)),
                d,
            );
            &&& forall|n: u64|
                admits_number(v, n) <==> #[trigger] all_admit_number(set, reports, now, d, n)
            &&& forall|token: Seq<char>|
                admits_token(v, token) <==> #[trigger] all_admit_token(
                    set,
                    reports,
                    now,
                    d,
                    token,
                )
            &&& are_well_formed(set, reports, now, d) ==> (v is Bottom <==> nothing_satisfies(
                set,
                reports,
                now,
                d,
            ))
        }),
{
    let evaluations = set.admitting(request, now).evaluations(reports, now);
    let v = value_of(composed_constraints(evaluations), d);
    assert(evaluations.len() == set.checks.len());
    assert forall|i: int| 0 <= i < set.checks.len() implies constraint_at(
        #[trigger] evaluations[i],
        d,
    ) == imposed_on(set, reports, i, now, d) by {
        lemma_evaluations(set, request, reports, now, i);
    }
    assert forall|n: u64|
        admits_number(v, n) <==> #[trigger] all_admit_number(set, reports, now, d, n) by {
        lemma_composed_admits(evaluations, d, n, Seq::empty());
        if admits_number(v, n) {
            assert forall|i: int| 0 <= i < set.checks.len() implies admits_number(
                #[trigger] imposed_on(set, reports, i, now, d),
                n,
            ) by {
                assert(admits_number(constraint_at(evaluations[i], d), n));
            }
        }
    }
    assert forall|token: Seq<char>|
        admits_token(v, token) <==> #[trigger] all_admit_token(set, reports, now, d, token) by {
        lemma_composed_admits(evaluations, d, 0, token);
        if admits_token(v, token) {
            assert forall|i: int| 0 <= i < set.checks.len() implies admits_token(
                #[trigger] imposed_on(set, reports, i, now, d),
                token,
            ) by {
                assert(admits_token(constraint_at(evaluations[i], d), token));
            }
        }
    }
    if are_well_formed(set, reports, now, d) {
        lemma_composed_well_formed(evaluations, d);
        match v {
            ConstraintValueView::Top => {
                assert(all_admit_number(set, reports, now, d, 0));
            },
            ConstraintValueView::Range { min, .. } => {
                assert(all_admit_number(set, reports, now, d, min));
            },
            ConstraintValueView::OneOf(tokens) => {
                let token = choose|token: Seq<char>| tokens.contains(token);
                assert(all_admit_token(set, reports, now, d, token));
            },
            ConstraintValueView::Bottom => {},
        }
    }
}

/// A request that is let in is denied for the first of these reasons that holds, and
/// only for one of them: a binding check denies it; a binding check gives no
/// outcome, having failed or having its circuit open; a binding check gives signals;
/// no check is responsible for a requested permission; no authoritative check that
/// lets the request pass is responsible for one; nothing satisfies what the checks
/// impose together on some dimension. A request with none of them against it is
/// granted, pending approval exactly when a binding check asks for that.
pub proof fn a_request_is_denied_for_the_first_reason_there_is(
    set: SecurityCheckSetView,
    request: AuthorizationRequestView,
    reports: Seq<CheckReportView>,
    policy: Map<Seq<char>, Seq<char>>,
    now: Timestamp,
)
    requires
        reports.len() == set.checks.len(),
        is_admissible(set, request, now),
        forall|d: ConstraintDimensionView| #[trigger] are_well_formed(set, reports, now, d),
    ensures
        ({
            let decision = set.authorization(request, reports, policy, now).0.decision;
            let n = set.checks.len();
            let denied = exists|i: int| 0 <= i < n && #[trigger] objects(set, reports, i, now);
            let silent = exists|i: int| 0 <= i < n && #[trigger] is_silent(set, reports, i, now);
            let signals = exists|i: int|
                0 <= i < n && #[trigger] only_signals(set, reports, i, now);
            let unknown = exists|p: PermissionView| #[trigger]
                request.requested.contains(p) && is_nobodys(set, reports, p);
            let uncovered = exists|p: PermissionView| #[trigger]
                request.requested.contains(p) && is_not_granted(set, reports, now, p);
            let impossible = exists|d: ConstraintDimensionView| #[trigger]
                nothing_satisfies(set, reports, now, d);
            let approval = exists|i: int|
                0 <= i < n && #[trigger] wants_approval(set, reports, i, now);
            let sound = !denied && !silent && !signals;
            &&& denied ==> is_denied(decision, DecisionCodeView::EnforcingCheckDenied)
            &&& !denied && silent ==> is_denied(
                decision,
                DecisionCodeView::EnforcingCheckUnavailable,
            )
            &&& !denied && !silent && signals ==> is_denied(
                decision,
                DecisionCodeView::InvalidCheckOutput,
            )
            &&& sound && unknown ==> is_denied(decision, DecisionCodeView::UnknownPermission)
            &&& sound && !unknown && uncovered ==> is_denied(
                decision,
                DecisionCodeView::MissingAuthoritativeCoverage,
            )
            &&& sound && !unknown && !uncovered && impossible ==> is_denied(
                decision,
                DecisionCodeView::ConstraintMeetEmpty,
            )
            &&& sound && !unknown && !uncovered && !impossible ==> {
                &&& decision is RequireApproval <==> approval
                &&& decision is Allow <==> !approval
            }
        }),
{
    let admitted = set.admitting(request, now);
    let evaluations = admitted.evaluations(reports, now);
    let n = set.checks.len();
    lemma_recent(set, request.context.session, now);
    assert(evaluations.len() == n);
    assert forall|i: int| 0 <= i < n implies {
        &&& (#[trigger] evaluations[i]).denies() == objects(set, reports, i, now)
        &&& evaluations[i].is_unavailable() == is_silent(set, reports, i, now)
        &&& evaluations[i].is_invalid() == only_signals(set, reports, i, now)
        &&& evaluations[i].asks_approval() == wants_approval(set, reports, i, now)
    } by {
        lemma_evaluations(set, request, reports, now, i);
    }
    if exists|i: int| 0 <= i < n && #[trigger] objects(set, reports, i, now) {
        let i = choose|i: int| 0 <= i < n && #[trigger] objects(set, reports, i, now);
        assert(evaluations[i].denies());
    }
    if exists|i: int| 0 <= i < n && #[trigger] is_silent(set, reports, i, now) {
        let i = choose|i: int| 0 <= i < n && #[trigger] is_silent(set, reports, i, now);
        assert(evaluations[i].is_unavailable());
    }
    if exists|i: int| 0 <= i < n && #[trigger] only_signals(set, reports, i, now) {
        let i = choose|i: int| 0 <= i < n && #[trigger] only_signals(set, reports, i, now);
        assert(evaluations[i].is_invalid());
    }
    if exists|i: int| 0 <= i < n && #[trigger] wants_approval(set, reports, i, now) {
        let i = choose|i: int| 0 <= i < n && #[trigger] wants_approval(set, reports, i, now);
        assert(evaluations[i].asks_approval());
    }
    assert forall|p: PermissionView| #[trigger]
        super::compose::known_permissions(evaluations).contains(p) <==> !is_nobodys(
            set,
            reports,
            p,
        ) by {
        assert forall|i: int| 0 <= i < n implies ((#[trigger] evaluations[i]).coverage.contains(p)
            <==> is_responsible(set, reports, i, p)) by {
            lemma_evaluations(set, request, reports, now, i);
        }
        if !is_nobodys(set, reports, p) {
            let i = choose|i: int| 0 <= i < n && #[trigger] is_responsible(set, reports, i, p);
            assert(evaluations[i].coverage.contains(p));
        }
    }
    assert forall|p: PermissionView| #[trigger]
        super::compose::covered_permissions(evaluations).contains(p) <==> !is_not_granted(
            set,
            reports,
            now,
            p,
        ) by {
        assert forall|i: int| 0 <= i < n implies (((#[trigger] evaluations[i]).grants_coverage()
            && evaluations[i].coverage.contains(p)) <==> is_granted_by(
            set,
            reports,
            i,
            now,
            p,
        )) by {
            lemma_evaluations(set, request, reports, now, i);
        }
        if !is_not_granted(set, reports, now, p) {
            let i = choose|i: int|
                0 <= i < n && #[trigger] is_granted_by(set, reports, i, now, p);
            assert(evaluations[i].grants_coverage());
        }
    }
    assert forall|d: ConstraintDimensionView|
        (#[trigger] value_of(composed_constraints(evaluations), d) is Bottom) <==>
        nothing_satisfies(set, reports, now, d) by {
        assert(are_well_formed(set, reports, now, d));
        lemma_composed_by_reports(set, request, reports, now, d);
    }
    if exists|d: ConstraintDimensionView| #[trigger] nothing_satisfies(set, reports, now, d) {
        let d = choose|d: ConstraintDimensionView| #[trigger]
            nothing_satisfies(set, reports, now, d);
        assert(value_of(composed_constraints(evaluations), d) is Bottom);
    }
}

/// Whether the decision is a denial with `code`.
pub open spec fn is_denied(decision: AuthorizationDecisionView, code: DecisionCodeView) -> bool {
    decision matches AuthorizationDecisionView::Deny { code: given } && given == code
}

/// The grant that a decision issues or makes eligible, if it does.
pub open spec fn grant_of(decision: AuthorizationDecisionView) -> Option<CapabilityGrantView> {
    match decision {
        AuthorizationDecisionView::Allow { grant } => Some(grant),
        AuthorizationDecisionView::RequireApproval { eligible } => Some(eligible),
        AuthorizationDecisionView::Deny { .. } => None,
    }
}

/// Whether some check imposes a range on the dimension.
pub open spec fn is_ranged(
    set: SecurityCheckSetView,
    reports: Seq<CheckReportView>,
    now: Timestamp,
    dimension: ConstraintDimensionView,
) -> bool {
    exists|i: int|
        0 <= i < set.checks.len() && #[trigger] imposed_on(
            set,
            reports,
            i,
            now,
            dimension,
        ) is Range
}

/// Whether `bound` is the least of the upper ends of the ranges that the checks
/// impose on the dimension.
pub open spec fn is_tightest(
    set: SecurityCheckSetView,
    reports: Seq<CheckReportView>,
    now: Timestamp,
    dimension: ConstraintDimensionView,
    bound: u64,
) -> bool {
    &&& exists|i: int|
        0 <= i < set.checks.len() && (#[trigger] imposed_on(
            set,
            reports,
            i,
            now,
            dimension,
        ) matches ConstraintValueView::Range { max, .. } && max == bound)
    &&& forall|i: int|
        0 <= i < set.checks.len() ==> (#[trigger] imposed_on(
            set,
            reports,
            i,
            now,
            dimension,
        ) matches ConstraintValueView::Range { max, .. } ==> bound <= max)
}

pub proof fn lemma_tightest(
    set: SecurityCheckSetView,
    request: AuthorizationRequestView,
    reports: Seq<CheckReportView>,
    now: Timestamp,
    d: ConstraintDimensionView,
)
    ensures
        match value_of(
            composed_constraints(set.admitting(request, now).evaluations(reports, now)),
            d,
        ) {
            ConstraintValueView::Range { max, .. } => {
                &&& is_ranged(set, reports, now, d)
                &&& is_tightest(set, reports, now, d, max)
            },
            ConstraintValueView::Bottom => true,
            _ => !is_ranged(set, reports, now, d),
        },
{
    let evaluations = set.admitting(request, now).evaluations(reports, now);
    assert(evaluations.len() == set.checks.len());
    assert forall|i: int| 0 <= i < set.checks.len() implies constraint_at(
        #[trigger] evaluations[i],
        d,
    ) == imposed_on(set, reports, i, now, d) by {
        lemma_evaluations(set, request, reports, now, i);
    }
    lemma_composed_max(evaluations, d);
    match value_of(composed_constraints(evaluations), d) {
        ConstraintValueView::Range { max, .. } => {
            let i = choose|i: int|
                0 <= i < evaluations.len() && (constraint_at(
                    #[trigger] evaluations[i],
                    d,
                ) matches ConstraintValueView::Range { max: m, .. } && m == max);
            assert(imposed_on(set, reports, i, now, d) is Range);
            assert forall|k: int| 0 <= k < set.checks.len() implies (#[trigger] imposed_on(
                set,
                reports,
                k,
                now,
                d,
            ) matches ConstraintValueView::Range { max: m, .. } ==> max <= m) by {
                assert(constraint_at(evaluations[k], d) == imposed_on(set, reports, k, now, d));
            }
        },
        ConstraintValueView::Bottom => {},
        _ => {
            if is_ranged(set, reports, now, d) {
                let i = choose|i: int|
                    0 <= i < set.checks.len() && #[trigger] imposed_on(
                        set,
                        reports,
                        i,
                        now,
                        d,
                    ) is Range;
                assert(constraint_at(evaluations[i], d) is Range);
            }
        },
    }
}

/// A grant that is issued or made eligible never outlives its composed constraints.
/// Where a check that lets the request pass imposes a time window, the grant expires
/// at the end of the tightest one: it has expired at every instant from then on, and
/// has not before. Only without such a window does it expire the default time to
/// live after it was issued. The same holds of its uses.
pub proof fn a_grant_never_outlives_its_constraints(
    set: SecurityCheckSetView,
    request: AuthorizationRequestView,
    reports: Seq<CheckReportView>,
    policy: Map<Seq<char>, Seq<char>>,
    now: Timestamp,
)
    requires
        reports.len() == set.checks.len(),
    ensures
        grant_of(set.authorization(request, reports, policy, now).0.decision) matches Some(
            grant,
        ) ==> {
            let window = ConstraintDimensionView::TimeWindow;
            let uses = ConstraintDimensionView::UseCount;
            let ttl = set.limits.default_grant_ttl_millis;
            &&& grant.expiry matches Some(end) && {
                &&& is_ranged(set, reports, now, window) ==> is_tightest(
                    set,
                    reports,
                    now,
                    window,
                    end.0,
                )
                &&& !is_ranged(set, reports, now, window) ==> (if now.0 + ttl <= u64::MAX {
                    end.0 == now.0 + ttl
                } else {
                    end.0 == u64::MAX
                })
                &&& forall|t: Timestamp| #[trigger]
                    crate::clock::expired(grant.expiry, t) <==> t.0 >= end.0
            }
            &&& is_ranged(set, reports, now, uses) ==> exists|bound: u64| #[trigger]
                is_tightest(set, reports, now, uses, bound) && (if bound <= u32::MAX {
                    grant.max_uses == bound
                } else {
                    grant.max_uses == u32::MAX
                })
            &&& !is_ranged(set, reports, now, uses) ==> grant.max_uses
                == set.limits.default_max_uses
            &&& grant.remaining_uses == grant.max_uses
        },
{
    let evaluations = set.admitting(request, now).evaluations(reports, now);
    let composed = composed_constraints(evaluations);
    lemma_tightest(set, request, reports, now, ConstraintDimensionView::TimeWindow);
    lemma_tightest(set, request, reports, now, ConstraintDimensionView::UseCount);
    if let ConstraintValueView::Range { max, .. } = value_of(
        composed,
        ConstraintDimensionView::UseCount,
    ) {
        assert(is_tightest(set, reports, now, ConstraintDimensionView::UseCount, max));
    }
    if let Some(grant) = grant_of(set.authorization(request, reports, policy, now).0.decision) {
        assert(!(value_of(composed, ConstraintDimensionView::TimeWindow) is Bottom));
        assert(!(value_of(composed, ConstraintDimensionView::UseCount) is Bottom));
    }
}

/// A grant is of what was asked for, by whom and where, and of nothing else: the
/// request's subject, session, action, resource, and permissions, under the set's
/// revision.
pub proof fn a_grant_is_of_the_request(
    set: SecurityCheckSetView,
    request: AuthorizationRequestView,
    reports: Seq<CheckReportView>,
    policy: Map<Seq<char>, Seq<char>>,
    now: Timestamp,
)
    ensures
        grant_of(set.authorization(request, reports, policy, now).0.decision) matches Some(
            grant,
        ) ==> {
            &&& grant.subject == request.context.subject
            &&& grant.session == request.context.session
            &&& grant.action == request.action
            &&& grant.resource == request.resource
            &&& grant.permissions == request.requested
            &&& grant.check_set_revision == set.revision
            &&& grant.policy_epoch.check_set_revision == set.revision
            &&& grant.policy_epoch == set.epoch(policy)
        },
{
}

/// A request under another revision, or over the rate of its session, is denied
/// before any check is looked at: with its own code, an empty audit trail, and no
/// findings. Such a request under another revision leaves the set as it was.
pub proof fn a_request_that_is_not_let_in_is_denied(
    set: SecurityCheckSetView,
    request: AuthorizationRequestView,
    reports: Seq<CheckReportView>,
    policy: Map<Seq<char>, Seq<char>>,
    now: Timestamp,
)
    ensures
        ({
            let (outcome, after) = set.authorization(request, reports, policy, now);
            let stale = request.context.check_set_revision != set.revision;
            &&& stale ==> is_denied(outcome.decision, DecisionCodeView::GrantRevisionOrEpochStale)
                && after == set
            &&& !stale && !is_admissible(set, request, now) ==> is_denied(
                outcome.decision,
                DecisionCodeView::CeilingExceeded,
            )
            &&& !is_admissible(set, request, now) ==> {
                &&& outcome.checks.len() == 0
                &&& outcome.advisory_findings.len() == 0
                &&& after.circuits == set.circuits
            }
        }),
{
    lemma_recent(set, request.context.session, now);
}

/// The audit trail of a request that is let in tells of every check, in the order of
/// their ids, under which mode it stands and what came of it: what it reported, or
/// that its open circuit stood in for it.
pub proof fn the_audit_trail_tells_of_every_check(
    set: SecurityCheckSetView,
    request: AuthorizationRequestView,
    reports: Seq<CheckReportView>,
    policy: Map<Seq<char>, Seq<char>>,
    now: Timestamp,
    i: int,
)
    requires
        is_admissible(set, request, now),
        0 <= i < set.checks.len(),
    ensures
        ({
            let trail = set.authorization(request, reports, policy, now).0.checks;
            &&& trail.len() == set.checks.len()
            &&& trail[i].id == set.checks[i].0
            &&& trail[i].mode == set.checks[i].1.mode
            &&& is_binding(set, i) && circuit_is_open(set, i, now) ==> trail[i].status
                == CheckStatusView::FastPathDenied
            &&& !is_binding(set, i) || !circuit_is_open(set, i, now) ==> trail[i].status
                == reports[i].status
        }),
{
    lemma_recent(set, request.context.session, now);
    lemma_evaluations(set, request, reports, now, i);
}

/// Authorizing changes nothing of a set but its circuits and the state of the
/// session that asks: checks, ceilings, revision, and revocations stay, and so does
/// every other session.
pub proof fn an_authorization_touches_only_circuits_and_the_session(
    set: SecurityCheckSetView,
    request: AuthorizationRequestView,
    reports: Seq<CheckReportView>,
    policy: Map<Seq<char>, Seq<char>>,
    now: Timestamp,
    other: Seq<char>,
)
    ensures
        ({
            let after = set.authorization(request, reports, policy, now).1;
            &&& after.checks == set.checks
            &&& after.limits == set.limits
            &&& after.revision == set.revision
            &&& after.revoked_subjects == set.revoked_subjects
            &&& after.revoked_sessions == set.revoked_sessions
            &&& after.revoked_grants == set.revoked_grants
            &&& other != request.context.session ==> {
                &&& after.sessions.dom().contains(other) == set.sessions.dom().contains(other)
                &&& set.sessions.dom().contains(other) ==> after.sessions[other]
                    == set.sessions[other]
            }
        }),
{
}

/// A request counts exactly when it is let in: then the session's count of requests
/// in the window goes up by this one, else it stays; what has left the window is
/// forgotten.
pub proof fn a_request_that_is_let_in_counts(
    set: SecurityCheckSetView,
    request: AuthorizationRequestView,
    reports: Seq<CheckReportView>,
    policy: Map<Seq<char>, Seq<char>>,
    now: Timestamp,
)
    requires
        request.context.check_set_revision == set.revision,
    ensures
        ({
            let session = request.context.session;
            let after = set.authorization(request, reports, policy, now).1;
            let before = requests_in_window(set, session, now);
            &&& after.sessions.dom().contains(session)
            &&& is_admissible(set, request, now) ==> after.sessions[session].admitted
                == before.push(now)
            &&& !is_admissible(set, request, now) ==> after.sessions[session].admitted == before
        }),
{
    let admitted = set.admitting(request, now);
    lemma_recent(set, request.context.session, now);
    super::laws::settling_does_not_count(
        admitted,
        request,
        reports,
        now,
        request.context.session,
    );
}

/// Whether the evaluation of a check came to nothing.
pub open spec fn came_to_nothing(status: CheckStatusView) -> bool {
    match status {
        CheckStatusView::TimedOut | CheckStatusView::Cancelled | CheckStatusView::Panicked => true,
        _ => false,
    }
}

/// Whether `after` is what a circuit comes to from `before` when an evaluation ends
/// with `status` at `now`: one that came to nothing counts, and keeps the circuit
/// open for the fast-path window once there were more of them in a row than the
/// threshold; any other closes the circuit.
pub open spec fn is_circuit_after(
    before: CircuitBreakerView,
    after: CircuitBreakerView,
    limits: EnforcementLimits,
    status: CheckStatusView,
    now: Timestamp,
) -> bool {
    if came_to_nothing(status) {
        &&& before.consecutive_failures < u32::MAX ==> after.consecutive_failures
            == before.consecutive_failures + 1
        &&& before.consecutive_failures == u32::MAX ==> after.consecutive_failures == u32::MAX
        &&& after.consecutive_failures <= limits.consecutive_failure_threshold
            ==> after.fast_path_until_millis == before.fast_path_until_millis
        &&& after.consecutive_failures > limits.consecutive_failure_threshold ==> (if now.0
            + limits.fast_path_window_millis <= u64::MAX {
            after.fast_path_until_millis == now.0 + limits.fast_path_window_millis
        } else {
            after.fast_path_until_millis == u64::MAX
        })
    } else {
        after.consecutive_failures == 0 && after.fast_path_until_millis == 0
    }
}

/// The circuit of a check, closed if nothing is known of it.
pub open spec fn circuit_of(set: SecurityCheckSetView, id: Seq<char>) -> CircuitBreakerView {
    if set.circuits.dom().contains(id) {
        set.circuits[id]
    } else {
        CircuitBreakerView { consecutive_failures: 0, fast_path_until_millis: 0 }
    }
}

proof fn lemma_circuits_after(
    set: SecurityCheckSetView,
    reports: Seq<CheckReportView>,
    n: nat,
    now: Timestamp,
    i: int,
)
    requires
        ordered_keys(set.checks),
        n <= set.checks.len(),
        0 <= i < set.checks.len(),
    ensures
        ({
            let circuits = set.circuits_after(reports, n, now);
            let id = set.checks[i].0;
            if i < n && set.checks[i].1.mode.enforces() && !set.skips(i, now) && reports[i].started {
                circuits.dom().contains(id) && circuits[id] == set.circuit(id).recorded(
                    set.limits,
                    now,
                    reports[i].status.is_failure(),
                )
            } else {
                &&& circuits.dom().contains(id) == set.circuits.dom().contains(id)
                &&& circuits.dom().contains(id) ==> circuits[id] == set.circuits[id]
            }
        }),
    decreases n,
{
    if n > 0 {
        lemma_circuits_after(set, reports, (n - 1) as nat, now, i);
        let k = n - 1;
        if k != i {
            crate::text::lemma_text_order(set.checks[i].0, set.checks[k].0, set.checks[i].0);
            if k < i {
                assert(crate::text::text_before(set.checks[k].0, set.checks[i].0));
            } else {
                assert(crate::text::text_before(set.checks[i].0, set.checks[k].0));
            }
            crate::text::lemma_text_order(set.checks[i].0, set.checks[i].0, set.checks[i].0);
        }
    }
}

/// An authorization moves the circuit of a binding check exactly when the check was
/// invoked: by what its own evaluation came to. Every other check's circuit stays.
pub proof fn an_authorization_moves_the_circuits_of_invoked_checks(
    set: SecurityCheckSetView,
    request: AuthorizationRequestView,
    reports: Seq<CheckReportView>,
    policy: Map<Seq<char>, Seq<char>>,
    now: Timestamp,
    i: int,
)
    requires
        ordered_keys(set.checks),
        is_admissible(set, request, now),
        0 <= i < set.checks.len(),
    ensures
        ({
            let after = set.authorization(request, reports, policy, now).1;
            let id = set.checks[i].0;
            if is_binding(set, i) && !circuit_is_open(set, i, now) && reports[i].started {
                is_circuit_after(
                    circuit_of(set, id),
                    circuit_of(after, id),
                    set.limits,
                    reports[i].status,
                    now,
                )
            } else {
                circuit_of(after, id) == circuit_of(set, id)
            }
        }),
{
    let admitted = set.admitting(request, now);
    lemma_recent(set, request.context.session, now);
    lemma_circuits_after(admitted, reports, set.checks.len(), now, i);
}

/// Recording how an evaluation ended moves the circuit of that check alone, and only
/// if the check is binding.
pub proof fn a_recorded_result_moves_one_circuit(
    set: SecurityCheckSetView,
    i: int,
    status: CheckStatusView,
    now: Timestamp,
    other: Seq<char>,
)
    requires
        0 <= i < set.checks.len(),
    ensures
        ({
            let after = set.recording(i, status, now);
            let id = set.checks[i].0;
            &&& is_binding(set, i) ==> is_circuit_after(
                circuit_of(set, id),
                circuit_of(after, id),
                set.limits,
                status,
                now,
            )
            &&& other != id || !is_binding(set, i) ==> circuit_of(after, other) == circuit_of(
                set,
                other,
            )
            &&& after == (SecurityCheckSetView { circuits: after.circuits, ..set })
        }),
{
}

/// A check is invoked unless it is binding and its circuit is open.
pub proof fn only_an_open_circuit_keeps_a_check_from_being_invoked(
    set: SecurityCheckSetView,
    i: int,
    now: Timestamp,
)
    requires
        0 <= i < set.checks.len(),
    ensures
        set.skips(i, now) <==> is_binding(set, i) && circuit_is_open(set, i, now),
{
}

/// A check contributes under its own id and mode, with the coverage that the host
/// assigned and the check does not disclaim, and with what its evaluation came to.
pub proof fn a_check_contributes_within_its_registration(
    set: SecurityCheckSetView,
    i: int,
    declared: Option<Set<PermissionView>>,
    status: CheckStatusView,
    p: PermissionView,
)
    requires
        0 <= i < set.checks.len(),
    ensures
        ({
            let e = set.contribution(i, declared, status);
            &&& e.id == set.checks[i].0
            &&& e.mode == set.checks[i].1.mode
            &&& e.status == status
            &&& e.coverage.contains(p) <==> set.checks[i].1.coverage.contains(p) && (
            declared matches Some(own) ==> own.contains(p))
        }),
{
}

/// Whether the finding is a signal that the advisory check at `i` reported.
pub open spec fn is_raised_by(
    set: SecurityCheckSetView,
    reports: Seq<CheckReportView>,
    i: int,
    finding: AdvisoryFindingView,
) -> bool {
    &&& set.checks[i].1.mode == SecurityCheckMode::Advisory
    &&& finding.check == set.checks[i].0
    &&& reports[i].status matches CheckStatusView::Outcome(
        SecurityCheckOutcomeView::Signal { findings },
    ) && findings.contains(finding.signal)
}

proof fn lemma_raised(evaluations: Seq<CheckEvaluationView>, finding: AdvisoryFindingView)
    ensures
        raised_findings(evaluations).contains(finding) <==> exists|i: int|
            0 <= i < evaluations.len() && findings_of(#[trigger] evaluations[i]).contains(finding),
    decreases evaluations.len(),
{
    if evaluations.len() > 0 {
        let rest = evaluations.drop_last();
        lemma_raised(rest, finding);
        vstd::seq_lib::lemma_seq_concat_contains_all_elements(
            raised_findings(rest),
            findings_of(evaluations.last()),
            finding,
        );
        assert(evaluations[evaluations.len() - 1] == evaluations.last());
        if exists|i: int|
            0 <= i < rest.len() && findings_of(#[trigger] rest[i]).contains(finding) {
            let i = choose|i: int|
                0 <= i < rest.len() && findings_of(#[trigger] rest[i]).contains(finding);
            assert(evaluations[i] == rest[i]);
        }
        if exists|i: int|
            0 <= i < evaluations.len() && findings_of(#[trigger] evaluations[i]).contains(
                finding,
            ) {
            let i = choose|i: int|
                0 <= i < evaluations.len() && findings_of(#[trigger] evaluations[i]).contains(
                    finding,
                );
            if i < rest.len() {
                assert(rest[i] == evaluations[i]);
            }
        }
    }
}

proof fn lemma_findings_of(
    set: SecurityCheckSetView,
    request: AuthorizationRequestView,
    reports: Seq<CheckReportView>,
    now: Timestamp,
    i: int,
    finding: AdvisoryFindingView,
)
    requires
        0 <= i < set.checks.len(),
    ensures
        findings_of(
            set.admitting(request, now).evaluations(reports, now)[i],
        ).contains(finding) <==> is_raised_by(set, reports, i, finding),
{
    lemma_evaluations(set, request, reports, now, i);
    let e = set.admitting(request, now).evaluations(reports, now)[i];
    if let CheckStatusView::Outcome(SecurityCheckOutcomeView::Signal { findings }) = e.status {
        if e.mode == SecurityCheckMode::Advisory {
            let all = findings_of(e);
            assert(all.len() == findings.len());
            assert(forall|k: int|
                0 <= k < findings.len() ==> (#[trigger] all[k]).signal == findings[k]
                    && all[k].check == e.id);
            if all.contains(finding) {
                let k = choose|k: int| 0 <= k < all.len() && all[k] == finding;
                assert(findings[k] == finding.signal);
            }
            if is_raised_by(set, reports, i, finding) {
                let k = choose|k: int| 0 <= k < findings.len() && findings[k] == finding.signal;
                assert(all[k].signal == finding.signal);
                assert(all[k] == finding);
            }
        }
    }
}

proof fn lemma_retained(
    state: SessionStateView,
    limits: EnforcementLimits,
    findings: Seq<AdvisoryFindingView>,
    finding: AdvisoryFindingView,
)
    ensures
        retained_findings(state, limits, findings).contains(finding) ==> findings.contains(
            finding,
        ),
    decreases findings.len(),
{
    if findings.len() > 0 {
        let rest = findings.drop_last();
        lemma_retained(state, limits, rest, finding);
        let before = retained_findings(state, limits, rest);
        if before.push(findings.last()).contains(finding) {
            let k = choose|k: int|
                0 <= k < before.push(findings.last()).len() && before.push(findings.last())[k]
                    == finding;
            if k < before.len() {
                assert(before[k] == finding);
                assert(before.contains(finding));
            }
        }
        if rest.contains(finding) {
            let k = choose|k: int| 0 <= k < rest.len() && rest[k] == finding;
            assert(findings[k] == finding);
        }
        assert(findings[findings.len() - 1] == findings.last());
    }
}

/// Every finding that comes out was raised by an advisory check in its own name, and
/// every signal of an advisory check is among the findings, or the session's ceiling
/// left no room for it.
pub proof fn findings_are_the_signals_of_advisory_checks(
    set: SecurityCheckSetView,
    request: AuthorizationRequestView,
    reports: Seq<CheckReportView>,
    policy: Map<Seq<char>, Seq<char>>,
    now: Timestamp,
    finding: AdvisoryFindingView,
)
    requires
        is_admissible(set, request, now),
    ensures
        ({
            let (outcome, after) = set.authorization(request, reports, policy, now);
            let raised = exists|i: int|
                0 <= i < set.checks.len() && #[trigger] is_raised_by(set, reports, i, finding);
            let session = request.context.session;
            let dropped_before = if set.sessions.dom().contains(session) {
                set.sessions[session].advisory_signals_dropped
            } else {
                0
            };
            &&& outcome.advisory_findings.contains(finding) ==> raised
            &&& raised && !outcome.advisory_findings.contains(finding) ==> {
                &&& after.sessions.dom().contains(session)
                &&& after.sessions[session].advisory_signals_dropped > dropped_before
                    || dropped_before == usize::MAX
            }
        }),
{
    let admitted = set.admitting(request, now);
    let evaluations = admitted.evaluations(reports, now);
    let all = raised_findings(evaluations);
    let session = request.context.session;
    let state = admitted.session(session);
    lemma_recent(set, session, now);
    lemma_raised(evaluations, finding);
    lemma_retained(state, set.limits, all, finding);
    assert forall|i: int| 0 <= i < set.checks.len() implies (findings_of(
        #[trigger] evaluations[i],
    ).contains(finding) <==> is_raised_by(set, reports, i, finding)) by {
        lemma_findings_of(set, request, reports, now, i, finding);
    }
    if exists|i: int|
        0 <= i < set.checks.len() && #[trigger] is_raised_by(set, reports, i, finding) {
        let i = choose|i: int|
            0 <= i < set.checks.len() && #[trigger] is_raised_by(set, reports, i, finding);
        assert(findings_of(evaluations[i]).contains(finding));
        if !retained_findings(state, set.limits, all).contains(finding) {
            lemma_not_retained_is_dropped(state, set.limits, all, finding);
        }
    }
}

proof fn lemma_not_retained_is_dropped(
    state: SessionStateView,
    limits: EnforcementLimits,
    findings: Seq<AdvisoryFindingView>,
    finding: AdvisoryFindingView,
)
    requires
        findings.contains(finding),
        !retained_findings(state, limits, findings).contains(finding),
    ensures
        after_findings(state, limits, findings).advisory_signals_dropped
            > state.advisory_signals_dropped || state.advisory_signals_dropped == usize::MAX,
    decreases findings.len(),
{
    let rest = findings.drop_last();
    let before = retained_findings(state, limits, rest);
    lemma_drops_only_grow(state, limits, rest);
    if rest.contains(finding) {
        if before.contains(finding) {
            let k = choose|k: int| 0 <= k < before.len() && before[k] == finding;
            assert(before.push(findings.last())[k] == finding);
        }
        lemma_not_retained_is_dropped(state, limits, rest, finding);
        lemma_drops_only_grow(state, limits, findings);
    } else {
        let k = choose|k: int| 0 <= k < findings.len() && findings[k] == finding;
        if k < rest.len() {
            assert(rest[k] == finding);
        }
        assert(findings.last() == finding);
        assert(before.push(finding)[before.len() as int] == finding);
    }
}

proof fn lemma_drops_only_grow(
    state: SessionStateView,
    limits: EnforcementLimits,
    findings: Seq<AdvisoryFindingView>,
)
    ensures
        after_findings(state, limits, findings).advisory_signals_dropped
            >= state.advisory_signals_dropped,
    decreases findings.len(),
{
    if findings.len() > 0 {
        lemma_drops_only_grow(state, limits, findings.drop_last());
    }
}

/// A signal is retained exactly when the session has retained fewer signals than it
/// may and its text still fits into the bytes that it may keep; a retained signal
/// counts by one and by its bytes, a dropped one as dropped, and neither counts for
/// anything else.
pub proof fn a_signal_is_retained_while_there_is_room(
    state: SessionStateView,
    limits: EnforcementLimits,
    findings: Seq<AdvisoryFindingView>,
    finding: AdvisoryFindingView,
)
    ensures
        ({
            let so_far = after_findings(state, limits, findings);
            let after = after_findings(state, limits, findings.push(finding));
            let kept = retained_findings(state, limits, findings);
            let size = finding_size(finding);
            let fits = so_far.advisory_signal_count < limits.max_advisory_signals_per_session && (
            if so_far.advisory_signal_bytes + size <= usize::MAX {
                so_far.advisory_signal_bytes + size <= limits.max_advisory_signal_bytes_per_session
            } else {
                usize::MAX <= limits.max_advisory_signal_bytes_per_session
            });
            &&& fits ==> {
                &&& retained_findings(state, limits, findings.push(finding)) == kept.push(finding)
                &&& after.advisory_signal_count == so_far.advisory_signal_count + 1
                &&& so_far.advisory_signal_bytes + size <= usize::MAX
                    ==> after.advisory_signal_bytes == so_far.advisory_signal_bytes + size
                &&& after.advisory_signals_dropped == so_far.advisory_signals_dropped
            }
            &&& !fits ==> {
                &&& retained_findings(state, limits, findings.push(finding)) == kept
                &&& after.advisory_signal_count == so_far.advisory_signal_count
                &&& after.advisory_signal_bytes == so_far.advisory_signal_bytes
                &&& so_far.advisory_signals_dropped < usize::MAX ==> after.advisory_signals_dropped
                    == so_far.advisory_signals_dropped + 1
            }
            &&& after.admitted == so_far.admitted
        }),
{
    assert(findings.push(finding).drop_last() =~= findings);
}

/// The size of a finding is that of its texts.
pub proof fn the_size_of_a_finding_is_that_of_its_texts(finding: AdvisoryFindingView)
    ensures
        ({
            let code = vstd::utf8::encode_utf8(finding.signal.code).len();
            let detail = vstd::utf8::encode_utf8(finding.signal.detail).len();
            code + detail <= usize::MAX ==> finding_size(finding) == code + detail
        }),
{
}

/// A cancelled evaluation ends as cancelled, one past its deadline as timed out, and
/// any other is let run.
pub proof fn an_evaluation_is_interrupted_by_cancellation_or_deadline(
    cancelled: bool,
    deadline: Option<Timestamp>,
    now: Timestamp,
)
    ensures
        ({
            let status = interrupted(cancelled, deadline, now);
            let late = deadline matches Some(at) && at.0 <= now.0;
            &&& status == Some(CheckStatusView::Cancelled) <==> cancelled
            &&& status == Some(CheckStatusView::TimedOut) <==> !cancelled && late
            &&& status is None <==> !cancelled && !late
        }),
{
}

/// An approval brings out the very grant that was eligible, and a refusal brings out
/// none.
pub proof fn an_approval_changes_nothing_of_the_grant(
    eligible: CapabilityGrantView,
    approved: bool,
)
    ensures
        grant_of(resolved_approval(eligible, approved)) == (if approved {
            Some(eligible)
        } else {
            None
        }),
        approved ==> resolved_approval(eligible, approved) is Allow,
        !approved ==> is_denied(
            resolved_approval(eligible, approved),
            DecisionCodeView::ApprovalDenied,
        ),
{
}

/// Whether `inner` is `outer` or lies below it.
pub open spec fn lies_within(outer: SecurityResourceView, inner: SecurityResourceView) -> bool {
    match (outer, inner) {
        (
            SecurityResourceView::Filesystem { mount, segments },
            SecurityResourceView::Filesystem { mount: other_mount, segments: path },
        ) => mount == other_mount && starts_with(path, segments),
        (
            SecurityResourceView::Network { endpoint, method, segments },
            SecurityResourceView::Network {
                endpoint: other_endpoint,
                method: other_method,
                segments: path,
            },
        ) => endpoint == other_endpoint && method == other_method && starts_with(path, segments),
        (
            SecurityResourceView::Credential { reference },
            SecurityResourceView::Credential { reference: other_reference },
        ) => reference == other_reference,
        (
            SecurityResourceView::Other { kind, name },
            SecurityResourceView::Other { kind: other_kind, name: other_name },
        ) => kind == other_kind && name == other_name,
        _ => false,
    }
}

/// Whether the path begins with the segments.
pub open spec fn starts_with(path: Seq<Seq<char>>, segments: Seq<Seq<char>>) -> bool {
    &&& segments.len() <= path.len()
    &&& forall|i: int| 0 <= i < segments.len() ==> #[trigger] path[i] == segments[i]
}

pub proof fn lemma_lies_within(outer: SecurityResourceView, inner: SecurityResourceView)
    ensures
        crate::security::scope_contains(outer, inner) <==> lies_within(outer, inner),
{
    match (outer, inner) {
        (
            SecurityResourceView::Filesystem { segments, .. },
            SecurityResourceView::Filesystem { segments: path, .. },
        ) => {
            lemma_starts_with(path, segments);
        },
        (
            SecurityResourceView::Network { segments, .. },
            SecurityResourceView::Network { segments: path, .. },
        ) => {
            lemma_starts_with(path, segments);
        },
        _ => {},
    }
}

proof fn lemma_starts_with(path: Seq<Seq<char>>, segments: Seq<Seq<char>>)
    ensures
        segments.is_prefix_of(path) <==> starts_with(path, segments),
{
    if segments.is_prefix_of(path) {
        assert forall|i: int| 0 <= i < segments.len() implies #[trigger] path[i]
            == segments[i] by {
            assert(path.subrange(0, segments.len() as int)[i] == path[i]);
        }
    }
    if starts_with(path, segments) {
        assert(segments =~= path.subrange(0, segments.len() as int));
    }
}

/// Whether the grant is bound to the very subject, session, action, and check-set
/// revision of the request.
pub open spec fn is_bound_to(
    grant: CapabilityGrantView,
    request: AuthorizationRequestView,
) -> bool {
    &&& grant.subject == request.context.subject
    &&& grant.session == request.context.session
    &&& grant.action == request.action
    &&& grant.check_set_revision == request.context.check_set_revision
}

/// Whether the grant is still good at `now`: before its expiry, with a use left.
pub open spec fn is_good_at(grant: CapabilityGrantView, now: Timestamp) -> bool {
    &&& grant.expiry matches Some(end) ==> now.0 < end.0
    &&& grant.remaining_uses >= 1
}

/// A grant covers a request exactly when it is bound to the request's own subject,
/// session, action, and check-set revision, the requested resource is its own or lies
/// below it, every requested permission is among its own, and it is still good. If
/// any one of the four differs, it does not cover the request.
pub proof fn a_grant_covers_only_the_request_that_it_is_bound_to(
    grant: CapabilityGrantView,
    request: AuthorizationRequestView,
    now: Timestamp,
)
    ensures
        grant.covers_at(request, now) <==> {
            &&& is_bound_to(grant, request)
            &&& lies_within(grant.resource, request.resource)
            &&& forall|p: PermissionView|
                request.requested.contains(p) ==> #[trigger] grant.permissions.contains(p)
            &&& is_good_at(grant, now)
        },
{
    lemma_lies_within(grant.resource, request.resource);
}

/// Presenting a grant succeeds exactly when neither the grant nor its subject nor its
/// session was revoked, the grant is bound to the request and covers it, its policy
/// epoch is the current one, and it is still good. It then uses up one use and
/// changes nothing else; a refusal changes nothing at all.
pub proof fn a_presented_grant_has_to_be_bound_current_and_good(
    set: SecurityCheckSetView,
    grant: CapabilityGrantView,
    request: AuthorizationRequestView,
    policy: Map<Seq<char>, Seq<char>>,
    now: Timestamp,
)
    ensures
        ({
            let (left, fault) = set.presented(grant, request, policy, now);
            let revoked = {
                ||| set.revoked_subjects.contains(grant.subject)
                ||| set.revoked_sessions.contains(grant.session)
                ||| set.revoked_grants.contains(
                    crate::fingerprint::fingerprint_of(grant.audit_fields()),
                )
            };
            let accepted = {
                &&& !revoked
                &&& is_bound_to(grant, request)
                &&& lies_within(grant.resource, request.resource)
                &&& forall|p: PermissionView|
                    request.requested.contains(p) ==> #[trigger] grant.permissions.contains(p)
                &&& grant.policy_epoch == set.epoch(policy)
                &&& is_good_at(grant, now)
            };
            let same_party = grant.subject == request.context.subject && grant.session
                == request.context.session && grant.action == request.action;
            &&& fault is None <==> accepted
            &&& accepted ==> {
                &&& left.remaining_uses == grant.remaining_uses - 1
                &&& left == (CapabilityGrantView { remaining_uses: left.remaining_uses, ..grant })
            }
            &&& !accepted ==> left == grant
            &&& fault == Some(DecisionCodeView::GrantRevoked) <==> revoked
            &&& fault == Some(DecisionCodeView::GrantSubjectOrSessionMismatch) <==> !revoked
                && !same_party
            &&& fault == Some(DecisionCodeView::GrantResourceNotCovered) <==> !revoked
                && same_party && !lies_within(grant.resource, request.resource)
            &&& fault == Some(DecisionCodeView::GrantExpired) ==> (grant.expiry matches Some(end)
                && end.0 <= now.0)
            &&& fault == Some(DecisionCodeView::GrantUseCountExhausted) ==> grant.remaining_uses
                == 0
            &&& fault == Some(DecisionCodeView::GrantPermissionNotCovered) ==> exists|
                p: PermissionView,
            |
                request.requested.contains(p) && !#[trigger] grant.permissions.contains(p)
            &&& fault == Some(DecisionCodeView::GrantRevisionOrEpochStale)
                ==> grant.check_set_revision != request.context.check_set_revision
                || grant.policy_epoch != set.epoch(policy)
        }),
{
    lemma_lies_within(grant.resource, request.resource);
}

/// Consuming takes exactly one use from a grant that has one left, and changes
/// nothing else; a grant without uses is left as it is.
pub proof fn a_use_is_taken_from_what_is_left(grant: CapabilityGrantView)
    ensures
        ({
            let (after, taken) = grant.consumed();
            &&& taken <==> grant.remaining_uses >= 1
            &&& taken ==> after.remaining_uses + 1 == grant.remaining_uses
            &&& !taken ==> after.remaining_uses == grant.remaining_uses
            &&& after.subject == grant.subject
            &&& after.session == grant.session
            &&& after.action == grant.action
            &&& after.resource == grant.resource
            &&& after.permissions == grant.permissions
            &&& after.check_set_revision == grant.check_set_revision
            &&& after.policy_epoch == grant.policy_epoch
            &&& after.expiry == grant.expiry
            &&& after.max_uses == grant.max_uses
        }),
{
}

/// The policy epoch holds the set's revision and, of every binding check that
/// declares one, the policy-data revision that it declares; nothing else.
pub proof fn the_epoch_holds_what_binding_checks_declare(
    set: SecurityCheckSetView,
    policy: Map<Seq<char>, Seq<char>>,
    entry: (Seq<char>, Seq<char>),
)
    ensures
        ({
            let epoch = set.epoch(policy);
            &&& epoch.check_set_revision == set.revision
            &&& epoch.policy_data_revisions.contains(entry) <==> {
                &&& policy.dom().contains(entry.0)
                &&& policy[entry.0] == entry.1
                &&& exists|i: int|
                    0 <= i < set.checks.len() && #[trigger] set.checks[i].0 == entry.0
                        && is_binding(set, i)
            }
        }),
{
    lemma_epoch_entries(set, set.checks.len() as int, policy, entry);
    assert(set.checks.subrange(0, set.checks.len() as int) =~= set.checks);
}

proof fn lemma_epoch_entries(
    set: SecurityCheckSetView,
    n: int,
    policy: Map<Seq<char>, Seq<char>>,
    entry: (Seq<char>, Seq<char>),
)
    requires
        0 <= n <= set.checks.len(),
    ensures
        super::enforced_policy(set.checks.subrange(0, n), policy).contains(entry) <==> {
            &&& policy.dom().contains(entry.0)
            &&& policy[entry.0] == entry.1
            &&& exists|i: int|
                0 <= i < n && #[trigger] set.checks[i].0 == entry.0 && is_binding(set, i)
        },
    decreases n,
{
    if n > 0 {
        lemma_epoch_entries(set, n - 1, policy, entry);
        let checks = set.checks.subrange(0, n);
        assert(checks.drop_last() =~= set.checks.subrange(0, n - 1));
        let before = super::enforced_policy(checks.drop_last(), policy);
        let id = checks.last().0;
        assert(checks.last() == set.checks[n - 1]);
        let added = (id, policy[id]);
        assert(before.push(added).contains(entry) <==> before.contains(entry) || added == entry)
            by {
            assert(before.push(added)[before.len() as int] == added);
            if before.contains(entry) {
                let k = choose|k: int| 0 <= k < before.len() && before[k] == entry;
                assert(before.push(added)[k] == entry);
            }
            if before.push(added).contains(entry) {
                let k = choose|k: int|
                    0 <= k < before.push(added).len() && before.push(added)[k] == entry;
                if k < before.len() {
                    assert(before[k] == entry);
                }
            }
        }
    }
}

/// Whether two of the registrations share an id.
pub open spec fn share_an_id(registrations: Seq<RegistrationView>) -> bool {
    exists|i: int, j: int|
        0 <= i < j < registrations.len() && (#[trigger] registrations[i]).id == (
        #[trigger] registrations[j]).id
}

/// The registrations of a class.
pub open spec fn of_class(
    registrations: Seq<RegistrationView>,
    class: Seq<char>,
) -> Seq<RegistrationView> {
    registrations.filter(|r: RegistrationView| r.action_class == class)
}

proof fn lemma_class_count(registrations: Seq<RegistrationView>, class: Seq<char>)
    ensures
        super::class_count(registrations, class) == of_class(registrations, class).len(),
    decreases registrations.len(),
{
    reveal(Seq::filter);
    if registrations.len() > 0 {
        lemma_class_count(registrations.drop_last(), class);
    }
}

/// Sealing succeeds only if no two registrations share an id and no class has more of
/// them than the ceiling, and fails only if one of the two is not so: for an id that
/// was registered twice, or for a class that has too many, with their number.
pub proof fn sealing_refuses_repeated_ids_and_full_classes(
    builder: SecurityCheckSetBuilderView,
    set: SecurityCheckSetView,
    error: CheckSetErrorView,
)
    ensures
        builder.seals_into(set) ==> {
            &&& !share_an_id(builder.registrations)
            &&& forall|class: Seq<char>|
                (#[trigger] of_class(builder.registrations, class)).len()
                    <= builder.limits.max_checks_per_action_class
        },
        builder.is_refused_for(error) ==> match error {
            CheckSetErrorView::DuplicateCheckId(id) => exists|i: int, j: int|
                0 <= i < j < builder.registrations.len() && (
                #[trigger] builder.registrations[i]).id == id && (
                #[trigger] builder.registrations[j]).id == id,
            CheckSetErrorView::ActionClassCeilingExceeded { class, limit, registered } => {
                &&& !share_an_id(builder.registrations)
                &&& limit == builder.limits.max_checks_per_action_class
                &&& registered == of_class(builder.registrations, class).len()
                &&& registered > limit
            },
        },
{
    let registrations = builder.registrations;
    if super::ids_are_distinct(registrations) && share_an_id(registrations) {
        let (i, j) = choose|i: int, j: int|
            0 <= i < j < registrations.len() && (#[trigger] registrations[i]).id == (
            #[trigger] registrations[j]).id;
        assert(super::repeats_earlier(registrations, j));
    }
    assert forall|class: Seq<char>|
        (#[trigger] of_class(registrations, class)).len() == super::class_count(
            registrations,
            class,
        ) by {
        lemma_class_count(registrations, class);
    }
    if builder.is_refused_for(error) {
        match error {
            CheckSetErrorView::DuplicateCheckId(id) => {
                let j = choose|j: int| #[trigger]
                    super::is_first_duplicate(registrations, j) && registrations[j].id == id;
                let i = choose|i: int|
                    0 <= i < j && (#[trigger] registrations[i]).id == registrations[j].id;
                assert(registrations[i].id == id && registrations[j].id == id);
            },
            CheckSetErrorView::ActionClassCeilingExceeded { class, .. } => {
                lemma_class_count(registrations, class);
            },
        }
    }
}

/// A sealed set holds each check as it was registered, in the order of the ids, and
/// nothing else, under the ceilings that the builder was made with; nothing is
/// revoked, no circuit is open, and no session has used anything.
pub proof fn a_sealed_set_holds_what_was_registered(
    builder: SecurityCheckSetBuilderView,
    set: SecurityCheckSetView,
    registration: RegistrationView,
)
    requires
        builder.seals_into(set),
    ensures
        set.limits == builder.limits,
        ordered_keys(set.checks),
        builder.registrations.contains(registration) <==> set.checks.contains(
            (registration.id, registration),
        ),
        forall|i: int|
            0 <= i < set.checks.len() ==> (#[trigger] set.checks[i]).0 == set.checks[i].1.id,
        set.circuits.dom() == Set::<Seq<char>>::empty(),
        set.sessions.dom() == Set::<Seq<char>>::empty(),
        set.revoked_subjects == Set::<Seq<char>>::empty(),
        set.revoked_sessions == Set::<Seq<char>>::empty(),
        set.revoked_grants == Set::<Seq<char>>::empty(),
{
    let registrations = builder.registrations;
    let map = super::by_id(registrations);
    assert(set.circuits.dom() =~= Set::<Seq<char>>::empty());
    assert(set.sessions.dom() =~= Set::<Seq<char>>::empty());
    crate::collections::lemma_dict(set.checks);
    lemma_by_id(registrations);
    assert forall|i: int| 0 <= i < set.checks.len() implies (#[trigger] set.checks[i]).0
        == set.checks[i].1.id by {
        let key = set.checks[i].0;
        assert(dict(set.checks).dom().contains(key));
        assert(map.dom().contains(key));
        assert(map[key] == set.checks[i].1);
    }
    let entry = (registration.id, registration);
    if registrations.contains(registration) {
        let k = choose|k: int| 0 <= k < registrations.len() && registrations[k] == registration;
        assert(registrations[k].id == registration.id);
        assert(map.dom().contains(registration.id));
        lemma_by_id_of(registrations, k);
        assert(dict(set.checks).dom().contains(registration.id));
        let i = choose|i: int|
            0 <= i < set.checks.len() && (#[trigger] set.checks[i]).0 == registration.id;
        assert(set.checks[i] == entry);
    }
    if set.checks.contains(entry) {
        let i = choose|i: int| 0 <= i < set.checks.len() && set.checks[i] == entry;
        assert(dict(set.checks).dom().contains(registration.id));
        assert(map[registration.id] == registration);
    }
}

proof fn lemma_by_id(registrations: Seq<RegistrationView>)
    ensures
        forall|key: Seq<char>| #[trigger]
            super::by_id(registrations).dom().contains(key) ==> super::by_id(registrations)[key].id
                == key && registrations.contains(super::by_id(registrations)[key]),
        forall|k: int|
            0 <= k < registrations.len() ==> super::by_id(registrations).dom().contains(
                (#[trigger] registrations[k]).id,
            ),
    decreases registrations.len(),
{
    if registrations.len() > 0 {
        let rest = registrations.drop_last();
        lemma_by_id(rest);
        assert forall|key: Seq<char>| #[trigger]
            super::by_id(registrations).dom().contains(key) implies super::by_id(
            registrations,
        )[key].id == key && registrations.contains(super::by_id(registrations)[key]) by {
            if key == registrations.last().id {
                assert(registrations[registrations.len() - 1] == registrations.last());
            } else {
                assert(super::by_id(rest).dom().contains(key));
                let r = super::by_id(rest)[key];
                let k = choose|k: int| 0 <= k < rest.len() && rest[k] == r;
                assert(registrations[k] == r);
            }
        }
        assert forall|k: int| 0 <= k < registrations.len() implies super::by_id(
            registrations,
        ).dom().contains((#[trigger] registrations[k]).id) by {
            if k < rest.len() {
                assert(rest[k] == registrations[k]);
            }
        }
    }
}

proof fn lemma_by_id_of(registrations: Seq<RegistrationView>, k: int)
    requires
        super::ids_are_distinct(registrations),
        0 <= k < registrations.len(),
    ensures
        super::by_id(registrations)[registrations[k].id] == registrations[k],
    decreases registrations.len(),
{
    let rest = registrations.drop_last();
    if k < rest.len() {
        assert forall|i: int| 0 <= i < rest.len() implies !super::repeats_earlier(rest, i) by {
            assert(!super::repeats_earlier(registrations, i));
            if super::repeats_earlier(rest, i) {
                let j = choose|j: int| 0 <= j < i && (#[trigger] rest[j]).id == rest[i].id;
                assert(registrations[j].id == registrations[i].id);
            }
        }
        lemma_by_id_of(rest, k);
        assert(rest[k] == registrations[k]);
        assert(!super::repeats_earlier(registrations, registrations.len() - 1));
        assert(registrations[k].id != registrations[registrations.len() - 1].id);
    }
}

} // verus!
