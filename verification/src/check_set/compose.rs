//! Composition of what the checks of a set contributed to one request.

use vstd::prelude::*;

use super::{
    AdvisoryFinding, AdvisoryFindingView, CheckAudit, CheckAuditView, CheckEvaluation,
    CheckEvaluationView, CheckStatus, CheckStatusView,
};
use crate::grant::{
    is_impossible, meet_constraints, DecisionCode, DecisionCodeView, GrantConstraints,
    GrantConstraintsView, SecurityCheckMode, SecurityCheckOutcome, SecurityCheckOutcomeView,
    SecuritySignalView,
};
use crate::record::Record;
use crate::security::{PermissionSet, PermissionView};

verus! {

impl CheckEvaluationView {
    /// Whether the check is enforcing and denied the request.
    pub open spec fn denies(self) -> bool {
        self.mode.enforces() && (self.status matches CheckStatusView::Outcome(o) && o is Deny)
    }

    /// Whether the check is enforcing and gave no outcome.
    pub open spec fn is_unavailable(self) -> bool {
        self.mode.enforces() && !(self.status is Outcome)
    }

    /// Whether the check is enforcing but gave signals, which only advisory
    /// checks may.
    pub open spec fn is_invalid(self) -> bool {
        self.mode.enforces() && (self.status matches CheckStatusView::Outcome(o) && o is Signal)
    }

    /// Whether the check is enforcing and asks for approval.
    pub open spec fn asks_approval(self) -> bool {
        self.mode.enforces() && (self.status matches CheckStatusView::Outcome(o)
            && o is RequireApproval)
    }

    /// The constraints under which an enforcing check lets the request pass,
    /// if it does.
    pub open spec fn passes_under(self) -> Option<GrantConstraintsView> {
        if !self.mode.enforces() {
            None
        } else {
            match self.status {
                CheckStatusView::Outcome(
                    SecurityCheckOutcomeView::Allow { constraints },
                ) => Some(constraints),
                CheckStatusView::Outcome(
                    SecurityCheckOutcomeView::RequireApproval { constraints },
                ) => Some(constraints),
                _ => None,
            }
        }
    }

    /// Whether the check, being authoritative, covers what it lets pass.
    pub open spec fn grants_coverage(self) -> bool {
        self.mode == SecurityCheckMode::Authoritative && self.passes_under() is Some
    }
}

/// The permissions in some check's coverage.
pub open spec fn known_permissions(evaluations: Seq<CheckEvaluationView>) -> Set<PermissionView> {
    Set::new(
        |p: PermissionView|
            exists|i: int|
                0 <= i < evaluations.len() && (#[trigger] evaluations[i]).coverage.contains(p),
    )
}

/// The permissions covered by an authoritative check that lets the request
/// pass.
pub open spec fn covered_permissions(
    evaluations: Seq<CheckEvaluationView>,
) -> Set<PermissionView> {
    Set::new(
        |p: PermissionView|
            exists|i: int|
                0 <= i < evaluations.len() && (#[trigger] evaluations[i]).grants_coverage()
                    && evaluations[i].coverage.contains(p),
    )
}

/// The meet of the constraints of all enforcing checks that let the request
/// pass.
pub open spec fn composed_constraints(
    evaluations: Seq<CheckEvaluationView>,
) -> GrantConstraintsView
    decreases evaluations.len(),
{
    if evaluations.len() == 0 {
        GrantConstraintsView::empty()
    } else {
        let before = composed_constraints(evaluations.drop_last());
        match evaluations.last().passes_under() {
            Some(constraints) => meet_constraints(before, constraints),
            None => before,
        }
    }
}

/// Whether an enforcing check asks for approval.
pub open spec fn approval_is_required(evaluations: Seq<CheckEvaluationView>) -> bool {
    exists|i: int| 0 <= i < evaluations.len() && (#[trigger] evaluations[i]).asks_approval()
}

/// Why the request for `requested` is denied, if it is: the first of an
/// enforcing denial, an enforcing check without an outcome, an enforcing check
/// with an invalid one, a permission that no check knows, a permission that no
/// authoritative check covers, and constraints that nothing satisfies.
pub open spec fn denial(
    requested: Set<PermissionView>,
    evaluations: Seq<CheckEvaluationView>,
) -> Option<DecisionCodeView> {
    if exists|i: int| 0 <= i < evaluations.len() && (#[trigger] evaluations[i]).denies() {
        Some(DecisionCodeView::EnforcingCheckDenied)
    } else if exists|i: int|
        0 <= i < evaluations.len() && (#[trigger] evaluations[i]).is_unavailable() {
        Some(DecisionCodeView::EnforcingCheckUnavailable)
    } else if exists|i: int| 0 <= i < evaluations.len() && (#[trigger] evaluations[i]).is_invalid() {
        Some(DecisionCodeView::InvalidCheckOutput)
    } else if !requested.subset_of(known_permissions(evaluations)) {
        Some(DecisionCodeView::UnknownPermission)
    } else if !requested.subset_of(covered_permissions(evaluations)) {
        Some(DecisionCodeView::MissingAuthoritativeCoverage)
    } else if is_impossible(composed_constraints(evaluations)) {
        Some(DecisionCodeView::ConstraintMeetEmpty)
    } else {
        None
    }
}

/// The signals of an advisory check as findings.
pub open spec fn findings_of(evaluation: CheckEvaluationView) -> Seq<AdvisoryFindingView> {
    match evaluation.status {
        CheckStatusView::Outcome(SecurityCheckOutcomeView::Signal { findings }) => {
            if evaluation.mode == SecurityCheckMode::Advisory {
                findings.map_values(
                    |signal: SecuritySignalView|
                        AdvisoryFindingView { check: evaluation.id, signal },
                )
            } else {
                Seq::empty()
            }
        },
        _ => Seq::empty(),
    }
}

/// The findings of all advisory checks, in order.
pub open spec fn raised_findings(evaluations: Seq<CheckEvaluationView>) -> Seq<AdvisoryFindingView>
    decreases evaluations.len(),
{
    if evaluations.len() == 0 {
        Seq::empty()
    } else {
        raised_findings(evaluations.drop_last()) + findings_of(evaluations.last())
    }
}

/// The audit trail of the checks.
pub open spec fn audits(evaluations: Seq<CheckEvaluationView>) -> Seq<CheckAuditView> {
    evaluations.map_values(
        |e: CheckEvaluationView| CheckAuditView { id: e.id, mode: e.mode, status: e.status },
    )
}

/// What the composition of the checks comes to.
pub struct Judgement {
    /// Why the request is denied, if it is.
    pub code: Option<DecisionCode>,
    /// The composed constraints.
    pub constraints: GrantConstraints,
    /// Whether an enforcing check asks for approval.
    pub requires_approval: bool,
}

/// Composes what the checks contributed to a request for `requested`.
pub fn judge(requested: &PermissionSet, evaluations: &Vec<CheckEvaluation>) -> (r: Judgement)
    ensures
        r.code.deep_view() == denial(requested@, evaluations.deep_view()),
        r.constraints@ == composed_constraints(evaluations.deep_view()),
        r.requires_approval == approval_is_required(evaluations.deep_view()),
{
    let ghost views = evaluations.deep_view();
    let mut denied = false;
    let mut unavailable = false;
    let mut invalid = false;
    let mut requires_approval = false;
    let mut constraints = GrantConstraints::unconstrained();
    let mut known = PermissionSet::new();
    let mut covered = PermissionSet::new();
    let mut i: usize = 0;
    assert(views.subrange(0, 0) =~= Seq::<CheckEvaluationView>::empty());
    while i < evaluations.len()
        invariant
            i <= evaluations.len(),
            views == evaluations.deep_view(),
            denied == (exists|j: int| 0 <= j < i && (#[trigger] views[j]).denies()),
            unavailable == (exists|j: int| 0 <= j < i && (#[trigger] views[j]).is_unavailable()),
            invalid == (exists|j: int| 0 <= j < i && (#[trigger] views[j]).is_invalid()),
            requires_approval == (exists|j: int|
                0 <= j < i && (#[trigger] views[j]).asks_approval()),
            constraints@ == composed_constraints(views.subrange(0, i as int)),
            forall|p: PermissionView| #[trigger]
                known@.contains(p) <==> exists|j: int|
                    0 <= j < i && (#[trigger] views[j]).coverage.contains(p),
            forall|p: PermissionView| #[trigger]
                covered@.contains(p) <==> exists|j: int|
                    0 <= j < i && (#[trigger] views[j]).grants_coverage()
                        && views[j].coverage.contains(p),
        decreases evaluations.len() - i,
    {
        let ghost known_before = known@;
        let ghost covered_before = covered@;
        let evaluation = &evaluations[i];
        proof {
            let items = views.subrange(0, i + 1);
            assert(items.drop_last() =~= views.subrange(0, i as int));
            assert(items.last() == views[i as int]);
            assert(views[i as int] == evaluation@);
        }
        known = known.union(&evaluation.coverage);
        let authoritative = match evaluation.mode {
            SecurityCheckMode::Authoritative => true,
            _ => false,
        };
        if evaluation.mode.is_enforcing() {
            match &evaluation.status {
                CheckStatus::Outcome(outcome) => match outcome {
                    SecurityCheckOutcome::NotApplicable => {},
                    SecurityCheckOutcome::Signal { .. } => {
                        invalid = true;
                    },
                    SecurityCheckOutcome::Deny { .. } => {
                        denied = true;
                    },
                    SecurityCheckOutcome::Allow { constraints: imposed } => {
                        constraints = constraints.meet(imposed);
                        if authoritative {
                            covered = covered.union(&evaluation.coverage);
                        }
                    },
                    SecurityCheckOutcome::RequireApproval { constraints: imposed } => {
                        constraints = constraints.meet(imposed);
                        requires_approval = true;
                        if authoritative {
                            covered = covered.union(&evaluation.coverage);
                        }
                    },
                },
                _ => {
                    unavailable = true;
                },
            }
        }
        proof {
            assert forall|p: PermissionView| #[trigger] known@.contains(p) <==> exists|j: int|
                0 <= j < i + 1 && (#[trigger] views[j]).coverage.contains(p) by {
                if known@.contains(p) {
                    if known_before.contains(p) {
                        let j = choose|j: int|
                            0 <= j < i && (#[trigger] views[j]).coverage.contains(p);
                        assert(views[j].coverage.contains(p));
                    } else {
                        assert(views[i as int].coverage.contains(p));
                    }
                }
                if exists|j: int| 0 <= j < i + 1 && (#[trigger] views[j]).coverage.contains(p) {
                    let j = choose|j: int|
                        0 <= j < i + 1 && (#[trigger] views[j]).coverage.contains(p);
                    if j < i {
                        assert(known_before.contains(p));
                    }
                }
            }
            assert forall|p: PermissionView| #[trigger] covered@.contains(p) <==> exists|j: int|
                0 <= j < i + 1 && (#[trigger] views[j]).grants_coverage()
                    && views[j].coverage.contains(p) by {
                if covered@.contains(p) {
                    if covered_before.contains(p) {
                        let j = choose|j: int|
                            0 <= j < i && (#[trigger] views[j]).grants_coverage()
                                && views[j].coverage.contains(p);
                        assert(views[j].grants_coverage());
                    } else {
                        assert(views[i as int].grants_coverage());
                    }
                }
                if exists|j: int|
                    0 <= j < i + 1 && (#[trigger] views[j]).grants_coverage()
                        && views[j].coverage.contains(p) {
                    let j = choose|j: int|
                        0 <= j < i + 1 && (#[trigger] views[j]).grants_coverage()
                            && views[j].coverage.contains(p);
                    if j < i {
                        assert(covered_before.contains(p));
                    }
                }
            }
        }
        i = i + 1;
    }
    proof {
        assert(views.subrange(0, views.len() as int) =~= views);
        assert(known@ =~= known_permissions(views));
        assert(covered@ =~= covered_permissions(views));
    }
    let code = if denied {
        Some(DecisionCode::EnforcingCheckDenied)
    } else if unavailable {
        Some(DecisionCode::EnforcingCheckUnavailable)
    } else if invalid {
        Some(DecisionCode::InvalidCheckOutput)
    } else if !requested.is_subset(&known) {
        Some(DecisionCode::UnknownPermission)
    } else if !requested.is_subset(&covered) {
        Some(DecisionCode::MissingAuthoritativeCoverage)
    } else if constraints.is_unsatisfiable() {
        Some(DecisionCode::ConstraintMeetEmpty)
    } else {
        None
    };
    Judgement { code, constraints, requires_approval }
}

/// Collects the findings of the advisory checks.
pub fn collect_findings(evaluations: &Vec<CheckEvaluation>) -> (r: Vec<AdvisoryFinding>)
    ensures
        r.deep_view() == raised_findings(evaluations.deep_view()),
{
    let ghost views = evaluations.deep_view();
    let mut out: Vec<AdvisoryFinding> = Vec::new();
    let mut i: usize = 0;
    assert(views.subrange(0, 0) =~= Seq::<CheckEvaluationView>::empty());
    assert(out.deep_view() =~= Seq::<AdvisoryFindingView>::empty());
    while i < evaluations.len()
        invariant
            i <= evaluations.len(),
            views == evaluations.deep_view(),
            out.deep_view() == raised_findings(views.subrange(0, i as int)),
        decreases evaluations.len() - i,
    {
        let evaluation = &evaluations[i];
        let ghost before = out.deep_view();
        let ghost own = findings_of(evaluation@);
        proof {
            let items = views.subrange(0, i + 1);
            assert(items.drop_last() =~= views.subrange(0, i as int));
            assert(items.last() == evaluation@);
        }
        let advisory = match evaluation.mode {
            SecurityCheckMode::Advisory => true,
            _ => false,
        };
        if advisory {
            if let CheckStatus::Outcome(SecurityCheckOutcome::Signal { findings }) =
                &evaluation.status {
                let mut j: usize = 0;
                assert(out.deep_view() =~= before + own.subrange(0, 0));
                while j < findings.len()
                    invariant
                        j <= findings.len() == own.len(),
                        own == findings_of(evaluation@),
                        evaluation@.mode == SecurityCheckMode::Advisory,
                        evaluation@.status == CheckStatusView::Outcome(
                            SecurityCheckOutcomeView::Signal { findings: findings.deep_view() },
                        ),
                        out.deep_view() == before + own.subrange(0, j as int),
                    decreases findings.len() - j,
                {
                    let ghost so_far = out.deep_view();
                    let finding = AdvisoryFinding {
                        check: evaluation.id.copied(),
                        signal: findings[j].copied(),
                    };
                    let ghost view = finding@;
                    out.push(finding);
                    proof {
                        assert(view == own[j as int]);
                        assert(out.deep_view() =~= so_far.push(view));
                        assert(own.subrange(0, j + 1) =~= own.subrange(0, j as int).push(
                            own[j as int],
                        ));
                        assert(out.deep_view() =~= before + own.subrange(0, j + 1));
                    }
                    j = j + 1;
                }
                assert(own.subrange(0, own.len() as int) =~= own);
            } else {
                assert(before + own =~= before);
            }
        } else {
            assert(before + own =~= before);
        }
        i = i + 1;
    }
    assert(views.subrange(0, views.len() as int) =~= views);
    out
}

/// Records the audit trail of the checks.
pub fn audit(evaluations: &Vec<CheckEvaluation>) -> (r: Vec<CheckAudit>)
    ensures
        r.deep_view() == audits(evaluations.deep_view()),
{
    let ghost views = evaluations.deep_view();
    let mut out: Vec<CheckAudit> = Vec::new();
    let mut i: usize = 0;
    assert(out.deep_view() =~= audits(views).subrange(0, 0));
    while i < evaluations.len()
        invariant
            i <= evaluations.len(),
            views == evaluations.deep_view(),
            out.deep_view() == audits(views).subrange(0, i as int),
        decreases evaluations.len() - i,
    {
        let ghost before = out.deep_view();
        let evaluation = &evaluations[i];
        let record = CheckAudit {
            id: evaluation.id.copied(),
            mode: evaluation.mode,
            status: evaluation.status.copied(),
        };
        let ghost view = record@;
        out.push(record);
        proof {
            assert(view == audits(views)[i as int]);
            assert(out.deep_view() =~= before.push(view));
            assert(audits(views).subrange(0, i + 1) =~= audits(views).subrange(0, i as int).push(
                audits(views)[i as int],
            ));
        }
        i = i + 1;
    }
    assert(audits(views).subrange(0, views.len() as int) =~= audits(views));
    out
}

} // verus!
