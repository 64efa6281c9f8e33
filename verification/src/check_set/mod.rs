//! The runtime-owned [`SecurityCheckSet`]: a sealed composer of registered
//! security checks.
//!
//! The host assigns each check's mode and permission coverage at registration;
//! what a check declares itself can only narrow its coverage. Registrations are
//! kept in the order of their ids, so the composed revision, the audit trail,
//! and the composed decision do not depend on the order of registration.
//! Composed evaluation stops at
//! [`AuthorizationDecision::RequireApproval`]: a caller that consults approval
//! reports the result through [`SecurityCheckSet::resolve_approval`].
//! Revocation and the current policy epoch are looked at on every presentation
//! of a grant.

use vstd::prelude::*;

use vstd::string::StringExecFns;
use vstd::utf8::encode_utf8;

use self::compose::{
    approval_is_required, audit, audits, collect_findings, composed_constraints, denial, judge,
    raised_findings,
};
use crate::clock::{expired, later, Deadline, Timestamp};
use crate::collections::{
    dict, lemma_dict, lemma_dict_determines_entries, ordered_keys, TextMap, TextSet,
};
use crate::fingerprint::{
    absorb_all, fingerprint_of, group_absorb, Fingerprint, FingerprintHasher,
};
use crate::grant::{
    issued, value_of, AuthorizationDecision, AuthorizationDecisionView, CapabilityGrant,
    CapabilityGrantView, ConstraintDimension, ConstraintDimensionView, ConstraintValue,
    ConstraintValueView, DecisionCode, DecisionCodeView, GrantConstraints, GrantConstraintsView,
    PolicyEpoch, PolicyEpochView, SecurityCheckId, SecurityCheckMode, SecurityCheckOutcome,
    SecurityCheckOutcomeView, SecurityCheckRevision, SecuritySignal, SecuritySignalView,
};
use crate::ids::SessionId;
use crate::record::Record;
use crate::security::{
    permission_sequence, scope_contains, slugs, AuthorizationRequest, AuthorizationRequestView,
    CheckSetRevision, PermissionSet, PermissionView, SecuritySubject,
};
use crate::text::{byte_len, decimal, decimal_text, text_before};

pub mod calls;
pub mod compose;
pub mod decisions;
pub mod laws;

verus! {

/// A host-assigned label grouping registered checks for the per-action-class
/// registration ceiling.
#[derive(Debug, PartialEq, Eq, PartialOrd, Ord, Hash)]
pub struct ActionClass {
    text: String,
}

impl DeepView for ActionClass {
    type V = Seq<char>;

    closed spec fn deep_view(&self) -> Seq<char> {
        self.text@
    }
}

impl View for ActionClass {
    type V = Seq<char>;

    open spec fn view(&self) -> Seq<char> {
        self.deep_view()
    }
}

impl Record for ActionClass {
    fn same(&self, other: &Self) -> (r: bool) {
        self.text.same(&other.text)
    }

    fn copied(&self) -> (r: Self) {
        ActionClass { text: self.text.copied() }
    }
}

impl Clone for ActionClass {
    fn clone(&self) -> (r: Self)
        ensures
            r@ == self@,
    {
        self.copied()
    }
}

impl ActionClass {
    /// Wraps the text.
    pub fn new(text: &str) -> (r: ActionClass)
        ensures
            r@ == text@,
    {
        ActionClass { text: text.to_owned() }
    }

    /// The wrapped text.
    pub fn as_str(&self) -> (r: &str)
        ensures
            r@ == self@,
    {
        self.text.as_str()
    }
}

/// Host-configured ceilings on the enforcement path.
#[derive(Debug, Clone, Copy, PartialEq, Eq, Structural)]
pub struct EnforcementLimits {
    /// The maximum number of checks registered under one [`ActionClass`].
    pub max_checks_per_action_class: usize,
    /// The maximum number of check evaluations running concurrently across the
    /// whole check set at once.
    pub max_concurrent_evaluations: usize,
    /// The maximum number of authorizations one session may ask for within
    /// [`EnforcementLimits::session_window_millis`], a rolling window.
    pub max_requests_per_session_window: u32,
    /// The width, in milliseconds, of the rolling window that
    /// [`EnforcementLimits::max_requests_per_session_window`] is measured over.
    pub session_window_millis: u64,
    /// The maximum number of advisory signals retained per session across
    /// evaluations.
    pub max_advisory_signals_per_session: usize,
    /// The maximum total bytes of advisory signal text retained per session
    /// across evaluations.
    pub max_advisory_signal_bytes_per_session: usize,
    /// The number of consecutive failures an enforcing check may accumulate
    /// before the structural fast path trips for it.
    pub consecutive_failure_threshold: u32,
    /// How long, in milliseconds, a tripped fast path stays tripped.
    pub fast_path_window_millis: u64,
    /// The grant TTL used when the composed time window is unconstrained.
    pub default_grant_ttl_millis: u64,
    /// The grant use count used when the composed use count is unconstrained.
    pub default_max_uses: u32,
}

impl Default for EnforcementLimits {
    fn default() -> (r: EnforcementLimits)
        ensures
            r.max_checks_per_action_class == 32,
            r.max_concurrent_evaluations == 16,
            r.max_requests_per_session_window == 120,
            r.session_window_millis == 60_000,
            r.max_advisory_signals_per_session == 256,
            r.max_advisory_signal_bytes_per_session == 65_536,
            r.consecutive_failure_threshold == 3,
            r.fast_path_window_millis == 30_000,
            r.default_grant_ttl_millis == 300_000,
            r.default_max_uses == 1,
    {
        EnforcementLimits {
            max_checks_per_action_class: 32,
            max_concurrent_evaluations: 16,
            max_requests_per_session_window: 120,
            session_window_millis: 60_000,
            max_advisory_signals_per_session: 256,
            max_advisory_signal_bytes_per_session: 65_536,
            consecutive_failure_threshold: 3,
            fast_path_window_millis: 30_000,
            default_grant_ttl_millis: 300_000,
            default_max_uses: 1,
        }
    }
}

/// Why sealing a [`SecurityCheckSetBuilder`] failed.
#[derive(Debug, PartialEq, Eq)]
pub enum CheckSetError {
    /// Two registrations share the same [`SecurityCheckId`].
    DuplicateCheckId(SecurityCheckId),
    /// An [`ActionClass`] has more registered checks than
    /// [`EnforcementLimits::max_checks_per_action_class`] allows.
    ActionClassCeilingExceeded {
        /// The offending class.
        class: ActionClass,
        /// The configured ceiling.
        limit: usize,
        /// How many checks were registered under it.
        registered: usize,
    },
}

/// What a [`CheckSetError`] holds.
pub enum CheckSetErrorView {
    DuplicateCheckId(Seq<char>),
    ActionClassCeilingExceeded { class: Seq<char>, limit: usize, registered: usize },
}

impl DeepView for CheckSetError {
    type V = CheckSetErrorView;

    open spec fn deep_view(&self) -> CheckSetErrorView {
        match self {
            CheckSetError::DuplicateCheckId(x0) => CheckSetErrorView::DuplicateCheckId(
                x0.deep_view(),
            ),
            CheckSetError::ActionClassCeilingExceeded { class, limit, registered } => {
                CheckSetErrorView::ActionClassCeilingExceeded {
                    class: class.deep_view(),
                    limit: limit.deep_view(),
                    registered: registered.deep_view(),
                }
            },
        }
    }
}

impl View for CheckSetError {
    type V = CheckSetErrorView;

    open spec fn view(&self) -> CheckSetErrorView {
        self.deep_view()
    }
}

impl Record for CheckSetError {
    fn same(&self, other: &Self) -> (r: bool) {
        match (self, other) {
            (CheckSetError::DuplicateCheckId(x0), CheckSetError::DuplicateCheckId(x0_b)) => {
                x0.same(x0_b)
            },
            (
                CheckSetError::ActionClassCeilingExceeded { class, limit, registered },
                CheckSetError::ActionClassCeilingExceeded {
                    class: class_b,
                    limit: limit_b,
                    registered: registered_b,
                },
            ) => class.same(class_b) && limit.same(limit_b) && registered.same(registered_b),
            _ => false,
        }
    }

    fn copied(&self) -> (r: Self) {
        match self {
            CheckSetError::DuplicateCheckId(x0) => CheckSetError::DuplicateCheckId(x0.copied()),
            CheckSetError::ActionClassCeilingExceeded { class, limit, registered } => {
                CheckSetError::ActionClassCeilingExceeded {
                    class: class.copied(),
                    limit: limit.copied(),
                    registered: registered.copied(),
                }
            },
        }
    }
}

impl Clone for CheckSetError {
    fn clone(&self) -> (r: Self)
        ensures
            r@ == self@,
    {
        self.copied()
    }
}

impl CheckSetErrorView {
    /// The error as text.
    pub open spec fn text(self) -> Seq<char> {
        match self {
            CheckSetErrorView::DuplicateCheckId(id) => "duplicate security check id `"@ + id + "`"@,
            CheckSetErrorView::ActionClassCeilingExceeded { class, limit, registered } => {
                "action class `"@ + class + "` has "@ + decimal(registered as nat)
                    + " registered checks, exceeding the ceiling of "@ + decimal(limit as nat)
            },
        }
    }
}

impl CheckSetError {
    /// The error as text.
    pub fn to_text(&self) -> (r: String)
        ensures
            r@ == self@.text(),
    {
        match self {
            CheckSetError::DuplicateCheckId(id) => {
                let mut out = "duplicate security check id `".to_owned();
                out.append(id.as_str());
                out.append("`");
                out
            },
            CheckSetError::ActionClassCeilingExceeded { class, limit, registered } => {
                let mut out = "action class `".to_owned();
                out.append(class.as_str());
                out.append("` has ");
                out.append(decimal_text(*registered as u64).as_str());
                out.append(" registered checks, exceeding the ceiling of ");
                out.append(decimal_text(*limit as u64).as_str());
                out
            },
        }
    }
}

/// One registered check: what it is, and what the host assigned to it.
#[derive(Debug, PartialEq, Eq)]
pub struct Registration {
    /// The check's stable identifier.
    pub id: SecurityCheckId,
    /// The check's own content revision.
    pub revision: SecurityCheckRevision,
    /// The host-assigned mode.
    pub mode: SecurityCheckMode,
    /// The host-assigned coverage.
    pub coverage: PermissionSet,
    /// The class that counts towards the registration ceiling.
    pub action_class: ActionClass,
}

/// What a [`Registration`] holds.
pub struct RegistrationView {
    pub id: Seq<char>,
    pub revision: Seq<char>,
    pub mode: SecurityCheckMode,
    pub coverage: Set<PermissionView>,
    pub action_class: Seq<char>,
}

impl DeepView for Registration {
    type V = RegistrationView;

    open spec fn deep_view(&self) -> RegistrationView {
        RegistrationView {
            id: self.id.deep_view(),
            revision: self.revision.deep_view(),
            mode: self.mode.deep_view(),
            coverage: self.coverage.deep_view(),
            action_class: self.action_class.deep_view(),
        }
    }
}

impl View for Registration {
    type V = RegistrationView;

    open spec fn view(&self) -> RegistrationView {
        self.deep_view()
    }
}

impl Record for Registration {
    fn same(&self, other: &Self) -> (r: bool) {
        self.id.same(&other.id)
            && self.revision.same(&other.revision)
            && self.mode.same(&other.mode)
            && self.coverage.same(&other.coverage)
            && self.action_class.same(&other.action_class)
    }

    fn copied(&self) -> (r: Self) {
        Registration {
            id: self.id.copied(),
            revision: self.revision.copied(),
            mode: self.mode.copied(),
            coverage: self.coverage.copied(),
            action_class: self.action_class.copied(),
        }
    }
}

impl Clone for Registration {
    fn clone(&self) -> (r: Self)
        ensures
            r@ == self@,
    {
        self.copied()
    }
}

/// A registration's coverage, narrowed by what the check itself declares:
/// never widened, since what the host did not assign is discarded.
pub open spec fn narrowed(
    coverage: Set<PermissionView>,
    declared: Option<Set<PermissionView>>,
) -> Set<PermissionView> {
    match declared {
        Some(own) => coverage.intersect(own),
        None => coverage,
    }
}

/// The coverage that counts for a check.
pub fn effective_coverage(
    coverage: &PermissionSet,
    declared: &Option<PermissionSet>,
) -> (r: PermissionSet)
    ensures
        r@ == narrowed(coverage@, declared.deep_view()),
{
    match declared {
        Some(own) => coverage.intersection(own),
        None => coverage.copied(),
    }
}

/// A check never widens the coverage that the host assigned to it.
pub proof fn declared_coverage_only_narrows(
    coverage: Set<PermissionView>,
    declared: Option<Set<PermissionView>>,
)
    ensures
        narrowed(coverage, declared).subset_of(coverage),
{
}

/// Whether the registration at `i` repeats the id of an earlier one.
pub open spec fn repeats_earlier(registrations: Seq<RegistrationView>, i: int) -> bool {
    exists|j: int| 0 <= j < i && (#[trigger] registrations[j]).id == registrations[i].id
}

/// Whether `i` is the first registration that repeats an earlier id.
pub open spec fn is_first_duplicate(registrations: Seq<RegistrationView>, i: int) -> bool {
    &&& 0 <= i < registrations.len()
    &&& repeats_earlier(registrations, i)
    &&& forall|k: int| 0 <= k < i ==> !repeats_earlier(registrations, k)
}

/// Whether no two registrations share an id.
pub open spec fn ids_are_distinct(registrations: Seq<RegistrationView>) -> bool {
    forall|i: int| 0 <= i < registrations.len() ==> !repeats_earlier(registrations, i)
}

/// How many registrations are in `class`.
pub open spec fn class_count(registrations: Seq<RegistrationView>, class: Seq<char>) -> nat
    decreases registrations.len(),
{
    if registrations.len() == 0 {
        0
    } else {
        class_count(registrations.drop_last(), class) + (if registrations.last().action_class
            == class {
            1nat
        } else {
            0nat
        })
    }
}

/// The registrations by their ids.
pub open spec fn by_id(registrations: Seq<RegistrationView>) -> Map<Seq<char>, RegistrationView>
    decreases registrations.len(),
{
    if registrations.len() == 0 {
        Map::empty()
    } else {
        by_id(registrations.drop_last()).insert(registrations.last().id, registrations.last())
    }
}

/// The fields of one registration in the composed revision.
pub open spec fn registration_fields(registration: RegistrationView) -> Seq<Seq<char>> {
    seq![registration.id] + seq![registration.mode.slug()] + seq![registration.action_class]
        + seq![registration.revision] + slugs(permission_sequence(registration.coverage))
}

/// The fields of the composed revision: those of every registration, in the
/// order of the ids.
pub open spec fn revision_fields(checks: Seq<(Seq<char>, RegistrationView)>) -> Seq<Seq<char>>
    decreases checks.len(),
{
    if checks.len() == 0 {
        Seq::empty()
    } else {
        revision_fields(checks.drop_last()) + registration_fields(checks.last().1)
    }
}

/// The composed revision of a check set.
pub open spec fn composed_revision(checks: Seq<(Seq<char>, RegistrationView)>) -> Seq<char> {
    fingerprint_of(revision_fields(checks))
}

fn compute_revision(checks: &TextMap<Registration>) -> (r: CheckSetRevision)
    ensures
        r@ == composed_revision(checks@),
{
    broadcast use group_absorb;

    let mut hasher = FingerprintHasher::new();
    let ghost entries = checks@;
    let count: usize = checks.len();
    let mut i: usize = 0;
    assert(entries.subrange(0, 0) =~= Seq::<(Seq<char>, RegistrationView)>::empty());
    while i < count
        invariant
            i <= count == entries.len(),
            entries == checks@,
            hasher@ == absorb_all(
                crate::fingerprint::EMPTY_DIGEST,
                revision_fields(entries.subrange(0, i as int)),
            ),
        decreases count - i,
    {
        broadcast use group_absorb;

        proof {
            let items = entries.subrange(0, i + 1);
            assert(items.drop_last() =~= entries.subrange(0, i as int));
            assert(items.last() == entries[i as int]);
        }
        let registration = checks.value_at(i);
        hasher.field(registration.id.as_str());
        hasher.field(registration.mode.as_str());
        hasher.field(registration.action_class.as_str());
        hasher.field(registration.revision.as_str());
        registration.coverage.fingerprint_into(&mut hasher);
        i = i + 1;
    }
    assert(entries.subrange(0, entries.len() as int) =~= entries);
    CheckSetRevision::new(hasher.finish().as_str())
}

/// Accumulates check registrations and seals them into a [`SecurityCheckSet`].
///
/// Registration never fails; every conflict is detected once, at
/// [`SecurityCheckSetBuilder::seal`].
pub struct SecurityCheckSetBuilder {
    registrations: Vec<Registration>,
    limits: EnforcementLimits,
}

/// What a [`SecurityCheckSetBuilder`] holds.
pub struct SecurityCheckSetBuilderView {
    pub registrations: Seq<RegistrationView>,
    pub limits: EnforcementLimits,
}

impl View for SecurityCheckSetBuilder {
    type V = SecurityCheckSetBuilderView;

    closed spec fn view(&self) -> SecurityCheckSetBuilderView {
        SecurityCheckSetBuilderView {
            registrations: self.registrations.deep_view(),
            limits: self.limits,
        }
    }
}

impl SecurityCheckSetBuilderView {
    /// Whether sealing gives `set`.
    pub open spec fn seals_into(self, set: SecurityCheckSetView) -> bool {
        &&& ids_are_distinct(self.registrations)
        &&& forall|class: Seq<char>| #[trigger]
            class_count(self.registrations, class) <= self.limits.max_checks_per_action_class
        &&& ordered_keys(set.checks)
        &&& dict(set.checks) == by_id(self.registrations)
        &&& set == fresh_set(set.checks, self.limits)
    }

    /// Whether sealing fails with `error`: for the first id that is registered
    /// again, or else for the first class, in order, with too many checks.
    pub open spec fn is_refused_for(self, error: CheckSetErrorView) -> bool {
        match error {
            CheckSetErrorView::DuplicateCheckId(id) => exists|i: int| #[trigger]
                is_first_duplicate(self.registrations, i) && self.registrations[i].id == id,
            CheckSetErrorView::ActionClassCeilingExceeded { class, limit, registered } => {
                &&& ids_are_distinct(self.registrations)
                &&& limit == self.limits.max_checks_per_action_class
                &&& registered == class_count(self.registrations, class)
                &&& registered > limit
                &&& forall|other: Seq<char>| #[trigger]
                    class_count(self.registrations, other) > limit ==> !text_before(other, class)
            },
        }
    }
}

impl SecurityCheckSetBuilder {
    /// An empty builder with the given ceilings.
    pub fn new(limits: EnforcementLimits) -> (r: SecurityCheckSetBuilder)
        ensures
            r@ == (SecurityCheckSetBuilderView { registrations: Seq::empty(), limits }),
    {
        let registrations: Vec<Registration> = Vec::new();
        assert(registrations.deep_view() =~= Seq::<RegistrationView>::empty());
        SecurityCheckSetBuilder { registrations, limits }
    }

    /// Registers one check under a host-assigned `mode`, host-assigned
    /// `coverage`, and `action_class`.
    pub fn register(
        &mut self,
        id: SecurityCheckId,
        revision: SecurityCheckRevision,
        mode: SecurityCheckMode,
        coverage: PermissionSet,
        action_class: ActionClass,
    )
        ensures
            final(self)@ == (SecurityCheckSetBuilderView {
                registrations: old(self)@.registrations.push(
                    RegistrationView {
                        id: id@,
                        revision: revision@,
                        mode,
                        coverage: coverage@,
                        action_class: action_class@,
                    },
                ),
                ..old(self)@
            }),
    {
        let ghost before = self.registrations.deep_view();
        let registration = Registration { id, revision, mode, coverage, action_class };
        let ghost view = registration@;
        self.registrations.push(registration);
        assert(self.registrations.deep_view() =~= before.push(view));
    }

    /// Seals every registration into an immutable [`SecurityCheckSet`].
    ///
    /// Fails if any check id is registered more than once, or an
    /// [`ActionClass`] exceeds
    /// [`EnforcementLimits::max_checks_per_action_class`].
    pub fn seal(self) -> (r: Result<SecurityCheckSet, CheckSetError>)
        ensures
            match r {
                Ok(set) => self@.seals_into(set@),
                Err(e) => self@.is_refused_for(e@),
            },
    {
        let ghost regs = self@.registrations;
        let mut checks: TextMap<Registration> = TextMap::new();
        let mut class_counts: TextMap<usize> = TextMap::new();
        let mut i: usize = 0;
        assert(regs.subrange(0, 0) =~= Seq::<RegistrationView>::empty());
        while i < self.registrations.len()
            invariant
                i <= self.registrations.len(),
                regs == self.registrations.deep_view(),
                regs == self@.registrations,
                ordered_keys(checks@),
                ordered_keys(class_counts@),
                checks.dict() == by_id(regs.subrange(0, i as int)),
                forall|k: Seq<char>| #[trigger]
                    checks.dict().dom().contains(k) <==> exists|j: int|
                        0 <= j < i && (#[trigger] regs[j]).id == k,
                forall|k: int| 0 <= k < i ==> !repeats_earlier(regs, k),
                forall|class: Seq<char>| #[trigger]
                    counted(class_counts.dict(), class) == class_count(
                        regs.subrange(0, i as int),
                        class,
                    ),
            decreases self.registrations.len() - i,
        {
            let registration = &self.registrations[i];
            if checks.contains_key(registration.id.as_str()) {
                proof {
                    let j = choose|j: int|
                        0 <= j < i && (#[trigger] regs[j]).id == registration.id@;
                    assert(regs[j].id == regs[i as int].id);
                    assert(is_first_duplicate(regs, i as int));
                    assert(regs[i as int].id == registration.id@);
                }
                return Err(CheckSetError::DuplicateCheckId(registration.id.copied()));
            }
            let ghost before = checks.dict();
            let ghost counts = class_counts.dict();
            let count: usize = match class_counts.get(registration.action_class.as_str()) {
                Some(n) => *n,
                None => 0,
            };
            proof {
                lemma_class_count_bound(regs.subrange(0, i as int), registration.action_class@);
                assert(counted(counts, registration.action_class@) == count);
            }
            class_counts.insert(registration.action_class.as_str(), count + 1);
            checks.insert(registration.id.as_str(), registration.copied());
            proof {
                let items = regs.subrange(0, i + 1);
                assert(items.drop_last() =~= regs.subrange(0, i as int));
                assert(items.last() == regs[i as int]);
                assert forall|k: Seq<char>| #[trigger] checks.dict().dom().contains(k) <==> exists|
                    j: int,
                | 0 <= j < i + 1 && (#[trigger] regs[j]).id == k by {
                    if checks.dict().dom().contains(k) {
                        if k == regs[i as int].id {
                        } else {
                            assert(before.dom().contains(k));
                            let j = choose|j: int| 0 <= j < i && (#[trigger] regs[j]).id == k;
                            assert(regs[j].id == k);
                        }
                    }
                    if exists|j: int| 0 <= j < i + 1 && (#[trigger] regs[j]).id == k {
                        let j = choose|j: int| 0 <= j < i + 1 && (#[trigger] regs[j]).id == k;
                        if j < i {
                            assert(before.dom().contains(k));
                        }
                    }
                }
                assert(!repeats_earlier(regs, i as int)) by {
                    if repeats_earlier(regs, i as int) {
                        let j = choose|j: int|
                            0 <= j < i && (#[trigger] regs[j]).id == regs[i as int].id;
                        assert(before.dom().contains(regs[i as int].id));
                    }
                }
                assert forall|class: Seq<char>| #[trigger]
                    counted(class_counts.dict(), class) == class_count(items, class) by {
                    assert(
                        counted(counts, class) == class_count(regs.subrange(0, i as int), class)
                    );
                }
            }
            i = i + 1;
        }
        assert(regs.subrange(0, regs.len() as int) =~= regs);
        let limit: usize = self.limits.max_checks_per_action_class;
        let classes: usize = class_counts.len();
        proof {
            lemma_dict(class_counts@);
        }
        let mut n: usize = 0;
        while n < classes
            invariant
                n <= classes == class_counts@.len(),
                limit == self.limits.max_checks_per_action_class,
                limit == self@.limits.max_checks_per_action_class,
                regs == self@.registrations,
                ids_are_distinct(regs),
                ordered_keys(class_counts@),
                forall|class: Seq<char>| #[trigger]
                    counted(class_counts.dict(), class) == class_count(regs, class),
                forall|j: int|
                    0 <= j < class_counts@.len() ==> class_counts.dict().dom().contains(
                        (#[trigger] class_counts@[j]).0,
                    ) && class_counts.dict()[class_counts@[j].0] == class_counts@[j].1,
                forall|k: Seq<char>| #[trigger]
                    class_counts.dict().dom().contains(k) ==> exists|j: int|
                        0 <= j < class_counts@.len() && (#[trigger] class_counts@[j]).0 == k,
                forall|j: int| 0 <= j < n ==> (#[trigger] class_counts@[j]).1 <= limit,
            decreases classes - n,
        {
            let count: usize = *class_counts.value_at(n);
            if count > limit {
                let class = ActionClass::new(class_counts.key_at(n));
                proof {
                    let name = class_counts@[n as int].0;
                    assert(class_counts.dict().dom().contains(name));
                    assert(counted(class_counts.dict(), name) == class_count(regs, name));
                    assert forall|other: Seq<char>| #[trigger]
                        class_count(regs, other) > limit implies !text_before(other, name) by {
                        assert(counted(class_counts.dict(), other) == class_count(regs, other));
                        assert(class_counts.dict().dom().contains(other));
                        let j = choose|j: int|
                            0 <= j < class_counts@.len() && (#[trigger] class_counts@[j]).0
                                == other;
                        assert(class_counts.dict()[class_counts@[j].0] == class_counts@[j].1);
                        assert(j >= n);
                        crate::text::lemma_text_order(name, other, name);
                        if j > n {
                            assert(text_before(class_counts@[n as int].0, class_counts@[j].0));
                        }
                    }
                }
                return Err(
                    CheckSetError::ActionClassCeilingExceeded { class, limit, registered: count },
                );
            }
            n = n + 1;
        }
        proof {
            assert forall|class: Seq<char>| #[trigger] class_count(regs, class) <= limit by {
                assert(counted(class_counts.dict(), class) == class_count(regs, class));
                if class_counts.dict().dom().contains(class) {
                    let j = choose|j: int|
                        0 <= j < class_counts@.len() && (#[trigger] class_counts@[j]).0 == class;
                    assert(class_counts.dict()[class_counts@[j].0] == class_counts@[j].1);
                }
            }
        }
        let revision = compute_revision(&checks);
        let set = SecurityCheckSet {
            revision,
            checks,
            limits: self.limits,
            circuits: TextMap::new(),
            sessions: TextMap::new(),
            revoked_subjects: TextSet::new(),
            revoked_sessions: TextSet::new(),
            revoked_grants: TextSet::new(),
        };
        Ok(set)
    }
}

/// The count under `class`, zero if there is none.
spec fn counted(counts: Map<Seq<char>, usize>, class: Seq<char>) -> nat {
    if counts.dom().contains(class) {
        counts[class] as nat
    } else {
        0
    }
}

proof fn lemma_class_count_bound(registrations: Seq<RegistrationView>, class: Seq<char>)
    ensures
        class_count(registrations, class) <= registrations.len(),
    decreases registrations.len(),
{
    if registrations.len() > 0 {
        lemma_class_count_bound(registrations.drop_last(), class);
    }
}

/// The recent failures of one enforcing check.
#[derive(Debug, PartialEq, Eq)]
pub struct CircuitBreaker {
    /// Failures since the last success.
    pub consecutive_failures: u32,
    /// Until when the check is not invoked; zero if it is.
    pub fast_path_until_millis: u64,
}

/// What a [`CircuitBreaker`] holds.
pub struct CircuitBreakerView {
    pub consecutive_failures: u32,
    pub fast_path_until_millis: u64,
}

impl DeepView for CircuitBreaker {
    type V = CircuitBreakerView;

    open spec fn deep_view(&self) -> CircuitBreakerView {
        CircuitBreakerView {
            consecutive_failures: self.consecutive_failures.deep_view(),
            fast_path_until_millis: self.fast_path_until_millis.deep_view(),
        }
    }
}

impl View for CircuitBreaker {
    type V = CircuitBreakerView;

    open spec fn view(&self) -> CircuitBreakerView {
        self.deep_view()
    }
}

impl Record for CircuitBreaker {
    fn same(&self, other: &Self) -> (r: bool) {
        self.consecutive_failures.same(&other.consecutive_failures)
            && self.fast_path_until_millis.same(&other.fast_path_until_millis)
    }

    fn copied(&self) -> (r: Self) {
        CircuitBreaker {
            consecutive_failures: self.consecutive_failures.copied(),
            fast_path_until_millis: self.fast_path_until_millis.copied(),
        }
    }
}

impl Clone for CircuitBreaker {
    fn clone(&self) -> (r: Self)
        ensures
            r@ == self@,
    {
        self.copied()
    }
}

/// What one session has used of its ceilings.
#[derive(Debug, PartialEq, Eq)]
pub struct SessionState {
    /// When each request that still counts was admitted.
    pub admitted: Vec<Timestamp>,
    /// Advisory signals retained.
    pub advisory_signal_count: usize,
    /// Bytes of advisory signal text retained.
    pub advisory_signal_bytes: usize,
    /// Advisory signals dropped.
    pub advisory_signals_dropped: usize,
}

/// What a [`SessionState`] holds.
pub struct SessionStateView {
    pub admitted: Seq<Timestamp>,
    pub advisory_signal_count: usize,
    pub advisory_signal_bytes: usize,
    pub advisory_signals_dropped: usize,
}

impl DeepView for SessionState {
    type V = SessionStateView;

    open spec fn deep_view(&self) -> SessionStateView {
        SessionStateView {
            admitted: self.admitted.deep_view(),
            advisory_signal_count: self.advisory_signal_count.deep_view(),
            advisory_signal_bytes: self.advisory_signal_bytes.deep_view(),
            advisory_signals_dropped: self.advisory_signals_dropped.deep_view(),
        }
    }
}

impl View for SessionState {
    type V = SessionStateView;

    open spec fn view(&self) -> SessionStateView {
        self.deep_view()
    }
}

impl Record for SessionState {
    fn same(&self, other: &Self) -> (r: bool) {
        self.admitted.same(&other.admitted)
            && self.advisory_signal_count.same(&other.advisory_signal_count)
            && self.advisory_signal_bytes.same(&other.advisory_signal_bytes)
            && self.advisory_signals_dropped.same(&other.advisory_signals_dropped)
    }

    fn copied(&self) -> (r: Self) {
        SessionState {
            admitted: self.admitted.copied(),
            advisory_signal_count: self.advisory_signal_count.copied(),
            advisory_signal_bytes: self.advisory_signal_bytes.copied(),
            advisory_signals_dropped: self.advisory_signals_dropped.copied(),
        }
    }
}

impl Clone for SessionState {
    fn clone(&self) -> (r: Self)
        ensures
            r@ == self@,
    {
        self.copied()
    }
}

/// What one registered check contributed to one request's evaluation: either its
/// own outcome, or the boundary condition that stood in for one.
#[derive(Debug, PartialEq, Eq)]
pub enum CheckStatus {
    /// The check returned a result before its deadline.
    Outcome(SecurityCheckOutcome),
    /// The check did not return before the request's deadline elapsed.
    TimedOut,
    /// Evaluation was cancelled before the check returned.
    Cancelled,
    /// The check panicked while evaluating; the panic did not propagate.
    Panicked,
    /// The check exceeded
    /// [`EnforcementLimits::consecutive_failure_threshold`] recently enough
    /// that its body was not invoked at all.
    FastPathDenied,
}

/// What a [`CheckStatus`] holds.
pub enum CheckStatusView {
    Outcome(SecurityCheckOutcomeView),
    TimedOut,
    Cancelled,
    Panicked,
    FastPathDenied,
}

impl DeepView for CheckStatus {
    type V = CheckStatusView;

    open spec fn deep_view(&self) -> CheckStatusView {
        match self {
            CheckStatus::Outcome(x0) => CheckStatusView::Outcome(x0.deep_view()),
            CheckStatus::TimedOut => CheckStatusView::TimedOut,
            CheckStatus::Cancelled => CheckStatusView::Cancelled,
            CheckStatus::Panicked => CheckStatusView::Panicked,
            CheckStatus::FastPathDenied => CheckStatusView::FastPathDenied,
        }
    }
}

impl View for CheckStatus {
    type V = CheckStatusView;

    open spec fn view(&self) -> CheckStatusView {
        self.deep_view()
    }
}

impl Record for CheckStatus {
    fn same(&self, other: &Self) -> (r: bool) {
        match (self, other) {
            (CheckStatus::Outcome(x0), CheckStatus::Outcome(x0_b)) => x0.same(x0_b),
            (CheckStatus::TimedOut, CheckStatus::TimedOut) => true,
            (CheckStatus::Cancelled, CheckStatus::Cancelled) => true,
            (CheckStatus::Panicked, CheckStatus::Panicked) => true,
            (CheckStatus::FastPathDenied, CheckStatus::FastPathDenied) => true,
            _ => false,
        }
    }

    fn copied(&self) -> (r: Self) {
        match self {
            CheckStatus::Outcome(x0) => CheckStatus::Outcome(x0.copied()),
            CheckStatus::TimedOut => CheckStatus::TimedOut,
            CheckStatus::Cancelled => CheckStatus::Cancelled,
            CheckStatus::Panicked => CheckStatus::Panicked,
            CheckStatus::FastPathDenied => CheckStatus::FastPathDenied,
        }
    }
}

impl Clone for CheckStatus {
    fn clone(&self) -> (r: Self)
        ensures
            r@ == self@,
    {
        self.copied()
    }
}

/// One check's recorded contribution to a composed [`CheckSetOutcome`].
#[derive(Debug, PartialEq, Eq)]
pub struct CheckAudit {
    /// The check's stable identifier.
    pub id: SecurityCheckId,
    /// The host-assigned mode it was registered under.
    pub mode: SecurityCheckMode,
    /// What it contributed.
    pub status: CheckStatus,
}

/// What a [`CheckAudit`] holds.
pub struct CheckAuditView {
    pub id: Seq<char>,
    pub mode: SecurityCheckMode,
    pub status: CheckStatusView,
}

impl DeepView for CheckAudit {
    type V = CheckAuditView;

    open spec fn deep_view(&self) -> CheckAuditView {
        CheckAuditView {
            id: self.id.deep_view(),
            mode: self.mode.deep_view(),
            status: self.status.deep_view(),
        }
    }
}

impl View for CheckAudit {
    type V = CheckAuditView;

    open spec fn view(&self) -> CheckAuditView {
        self.deep_view()
    }
}

impl Record for CheckAudit {
    fn same(&self, other: &Self) -> (r: bool) {
        self.id.same(&other.id)
            && self.mode.same(&other.mode)
            && self.status.same(&other.status)
    }

    fn copied(&self) -> (r: Self) {
        CheckAudit {
            id: self.id.copied(),
            mode: self.mode.copied(),
            status: self.status.copied(),
        }
    }
}

impl Clone for CheckAudit {
    fn clone(&self) -> (r: Self)
        ensures
            r@ == self@,
    {
        self.copied()
    }
}

/// One advisory finding retained for a session, attributed to the check that
/// emitted it.
#[derive(Debug, PartialEq, Eq)]
pub struct AdvisoryFinding {
    /// The advisory check that emitted the finding.
    pub check: SecurityCheckId,
    /// The finding itself.
    pub signal: SecuritySignal,
}

/// What a [`AdvisoryFinding`] holds.
pub struct AdvisoryFindingView {
    pub check: Seq<char>,
    pub signal: SecuritySignalView,
}

impl DeepView for AdvisoryFinding {
    type V = AdvisoryFindingView;

    open spec fn deep_view(&self) -> AdvisoryFindingView {
        AdvisoryFindingView {
            check: self.check.deep_view(),
            signal: self.signal.deep_view(),
        }
    }
}

impl View for AdvisoryFinding {
    type V = AdvisoryFindingView;

    open spec fn view(&self) -> AdvisoryFindingView {
        self.deep_view()
    }
}

impl Record for AdvisoryFinding {
    fn same(&self, other: &Self) -> (r: bool) {
        self.check.same(&other.check)
            && self.signal.same(&other.signal)
    }

    fn copied(&self) -> (r: Self) {
        AdvisoryFinding {
            check: self.check.copied(),
            signal: self.signal.copied(),
        }
    }
}

impl Clone for AdvisoryFinding {
    fn clone(&self) -> (r: Self)
        ensures
            r@ == self@,
    {
        self.copied()
    }
}

/// The full result of one authorization: the composed decision plus the
/// per-check audit trail, in the order of the ids, and the advisory findings
/// retained within the session's ceiling.
#[derive(Debug)]
pub struct CheckSetOutcome {
    /// The composed decision.
    pub decision: AuthorizationDecision,
    /// Every registered check's contribution, in the order of the ids.
    pub checks: Vec<CheckAudit>,
    /// Advisory findings retained within this session's ceiling.
    pub advisory_findings: Vec<AdvisoryFinding>,
}

/// What a [`CheckSetOutcome`] holds.
pub struct CheckSetOutcomeView {
    pub decision: AuthorizationDecisionView,
    pub checks: Seq<CheckAuditView>,
    pub advisory_findings: Seq<AdvisoryFindingView>,
}

impl View for CheckSetOutcome {
    type V = CheckSetOutcomeView;

    open spec fn view(&self) -> CheckSetOutcomeView {
        CheckSetOutcomeView {
            decision: self.decision@,
            checks: self.checks.deep_view(),
            advisory_findings: self.advisory_findings.deep_view(),
        }
    }
}

/// Which principal, session, or grant an explicit revoke targets.
#[derive(Debug, PartialEq, Eq)]
pub enum RevocationTarget {
    /// Every grant attributed to this subject.
    Subject(SecuritySubject),
    /// Every grant bound to this session.
    Session(SessionId),
    /// One specific grant, addressed by its fingerprint.
    Grant(Fingerprint),
}

/// What a [`RevocationTarget`] holds.
pub enum RevocationTargetView {
    Subject(Seq<char>),
    Session(Seq<char>),
    Grant(Seq<char>),
}

impl DeepView for RevocationTarget {
    type V = RevocationTargetView;

    open spec fn deep_view(&self) -> RevocationTargetView {
        match self {
            RevocationTarget::Subject(x0) => RevocationTargetView::Subject(x0.deep_view()),
            RevocationTarget::Session(x0) => RevocationTargetView::Session(x0.deep_view()),
            RevocationTarget::Grant(x0) => RevocationTargetView::Grant(x0.deep_view()),
        }
    }
}

impl View for RevocationTarget {
    type V = RevocationTargetView;

    open spec fn view(&self) -> RevocationTargetView {
        self.deep_view()
    }
}

impl Record for RevocationTarget {
    fn same(&self, other: &Self) -> (r: bool) {
        match (self, other) {
            (RevocationTarget::Subject(x0), RevocationTarget::Subject(x0_b)) => x0.same(x0_b),
            (RevocationTarget::Session(x0), RevocationTarget::Session(x0_b)) => x0.same(x0_b),
            (RevocationTarget::Grant(x0), RevocationTarget::Grant(x0_b)) => x0.same(x0_b),
            _ => false,
        }
    }

    fn copied(&self) -> (r: Self) {
        match self {
            RevocationTarget::Subject(x0) => RevocationTarget::Subject(x0.copied()),
            RevocationTarget::Session(x0) => RevocationTarget::Session(x0.copied()),
            RevocationTarget::Grant(x0) => RevocationTarget::Grant(x0.copied()),
        }
    }
}

impl Clone for RevocationTarget {
    fn clone(&self) -> (r: Self)
        ensures
            r@ == self@,
    {
        self.copied()
    }
}

impl CheckStatus {
    /// Whether the evaluation failed: it timed out, was cancelled, or panicked.
    pub fn is_failure(&self) -> (r: bool)
        ensures
            r == self@.is_failure(),
    {
        match self {
            CheckStatus::TimedOut | CheckStatus::Cancelled | CheckStatus::Panicked => true,
            _ => false,
        }
    }
}

/// What a check gave when it was asked: its own narrowing of its coverage,
/// whether its evaluation was started before the deadline and a cancellation,
/// and how it ended.
#[derive(Debug, PartialEq, Eq)]
pub struct CheckReport {
    /// The coverage that the check declares, if it narrows it.
    pub declared_coverage: Option<PermissionSet>,
    /// Whether the evaluation was started. One that never was says nothing of the
    /// check, so it does not count for its circuit breaker.
    pub started: bool,
    /// How the evaluation ended.
    pub status: CheckStatus,
}

/// What a [`CheckReport`] holds.
pub struct CheckReportView {
    pub declared_coverage: Option<Set<PermissionView>>,
    pub started: bool,
    pub status: CheckStatusView,
}

impl DeepView for CheckReport {
    type V = CheckReportView;

    open spec fn deep_view(&self) -> CheckReportView {
        CheckReportView {
            declared_coverage: self.declared_coverage.deep_view(),
            started: self.started.deep_view(),
            status: self.status.deep_view(),
        }
    }
}

impl View for CheckReport {
    type V = CheckReportView;

    open spec fn view(&self) -> CheckReportView {
        self.deep_view()
    }
}

impl Record for CheckReport {
    fn same(&self, other: &Self) -> (r: bool) {
        self.declared_coverage.same(&other.declared_coverage)
            && self.started.same(&other.started)
            && self.status.same(&other.status)
    }

    fn copied(&self) -> (r: Self) {
        CheckReport {
            declared_coverage: self.declared_coverage.copied(),
            started: self.started.copied(),
            status: self.status.copied(),
        }
    }
}

impl Clone for CheckReport {
    fn clone(&self) -> (r: Self)
        ensures
            r@ == self@,
    {
        self.copied()
    }
}

/// One check's part in a composition.
#[derive(Debug, PartialEq, Eq)]
pub struct CheckEvaluation {
    /// The check's stable identifier.
    pub id: SecurityCheckId,
    /// The host-assigned mode.
    pub mode: SecurityCheckMode,
    /// The coverage that counts for it.
    pub coverage: PermissionSet,
    /// What it contributed.
    pub status: CheckStatus,
}

/// What a [`CheckEvaluation`] holds.
pub struct CheckEvaluationView {
    pub id: Seq<char>,
    pub mode: SecurityCheckMode,
    pub coverage: Set<PermissionView>,
    pub status: CheckStatusView,
}

impl DeepView for CheckEvaluation {
    type V = CheckEvaluationView;

    open spec fn deep_view(&self) -> CheckEvaluationView {
        CheckEvaluationView {
            id: self.id.deep_view(),
            mode: self.mode.deep_view(),
            coverage: self.coverage.deep_view(),
            status: self.status.deep_view(),
        }
    }
}

impl View for CheckEvaluation {
    type V = CheckEvaluationView;

    open spec fn view(&self) -> CheckEvaluationView {
        self.deep_view()
    }
}

impl Record for CheckEvaluation {
    fn same(&self, other: &Self) -> (r: bool) {
        self.id.same(&other.id)
            && self.mode.same(&other.mode)
            && self.coverage.same(&other.coverage)
            && self.status.same(&other.status)
    }

    fn copied(&self) -> (r: Self) {
        CheckEvaluation {
            id: self.id.copied(),
            mode: self.mode.copied(),
            coverage: self.coverage.copied(),
            status: self.status.copied(),
        }
    }
}

impl Clone for CheckEvaluation {
    fn clone(&self) -> (r: Self)
        ensures
            r@ == self@,
    {
        self.copied()
    }
}

/// A runtime-owned, sealed composer of registered security checks.
pub struct SecurityCheckSet {
    revision: CheckSetRevision,
    checks: TextMap<Registration>,
    limits: EnforcementLimits,
    circuits: TextMap<CircuitBreaker>,
    sessions: TextMap<SessionState>,
    revoked_subjects: TextSet,
    revoked_sessions: TextSet,
    revoked_grants: TextSet,
}

/// What a [`SecurityCheckSet`] holds: its composed revision and registrations,
/// its ceilings, the circuit breakers by check, the sessions by id, and what
/// was revoked.
pub struct SecurityCheckSetView {
    pub revision: Seq<char>,
    pub checks: Seq<(Seq<char>, RegistrationView)>,
    pub limits: EnforcementLimits,
    pub circuits: Map<Seq<char>, CircuitBreakerView>,
    pub sessions: Map<Seq<char>, SessionStateView>,
    pub revoked_subjects: Set<Seq<char>>,
    pub revoked_sessions: Set<Seq<char>>,
    pub revoked_grants: Set<Seq<char>>,
}

impl View for SecurityCheckSet {
    type V = SecurityCheckSetView;

    closed spec fn view(&self) -> SecurityCheckSetView {
        SecurityCheckSetView {
            revision: self.revision@,
            checks: self.checks@,
            limits: self.limits,
            circuits: self.circuits.dict(),
            sessions: self.sessions.dict(),
            revoked_subjects: self.revoked_subjects@,
            revoked_sessions: self.revoked_sessions@,
            revoked_grants: self.revoked_grants@,
        }
    }
}

/// A sealed set that nothing has happened to yet.
pub open spec fn fresh_set(
    checks: Seq<(Seq<char>, RegistrationView)>,
    limits: EnforcementLimits,
) -> SecurityCheckSetView {
    SecurityCheckSetView {
        revision: composed_revision(checks),
        checks,
        limits,
        circuits: Map::empty(),
        sessions: Map::empty(),
        revoked_subjects: Set::empty(),
        revoked_sessions: Set::empty(),
        revoked_grants: Set::empty(),
    }
}

/// The milliseconds from `from` to `to`, zero if `to` is not later.
pub open spec fn elapsed(from: Timestamp, to: Timestamp) -> u64 {
    if to.0 >= from.0 {
        (to.0 - from.0) as u64
    } else {
        0
    }
}

/// The state of a session that has used nothing.
pub open spec fn fresh_session() -> SessionStateView {
    SessionStateView {
        admitted: Seq::empty(),
        advisory_signal_count: 0,
        advisory_signal_bytes: 0,
        advisory_signals_dropped: 0,
    }
}

/// Those of the instants that lie within the last `width` milliseconds.
pub open spec fn recent(instants: Seq<Timestamp>, width: u64, now: Timestamp) -> Seq<Timestamp> {
    instants.filter(|at: Timestamp| elapsed(at, now) < width)
}

fn recent_of(instants: &Vec<Timestamp>, width: u64, now: Timestamp) -> (r: Vec<Timestamp>)
    ensures
        r@ == recent(instants@, width, now),
{
    let ghost counts = |at: Timestamp| elapsed(at, now) < width;
    let mut r: Vec<Timestamp> = Vec::new();
    let mut i: usize = 0;
    assert(instants@.subrange(0, 0).filter(counts) =~= Seq::<Timestamp>::empty()) by {
        reveal(Seq::filter);
    }
    while i < instants.len()
        invariant
            i <= instants.len(),
            counts == (|at: Timestamp| elapsed(at, now) < width),
            r@ == instants@.subrange(0, i as int).filter(counts),
        decreases instants.len() - i,
    {
        let at = instants[i];
        assert(instants@.subrange(0, i + 1).filter(counts) == (if counts(at) {
            r@.push(at)
        } else {
            r@
        })) by {
            reveal(Seq::filter);
            assert(instants@.subrange(0, i + 1).drop_last() =~= instants@.subrange(0, i as int));
        }
        if now.as_millis().saturating_sub(at.as_millis()) < width {
            r.push(at);
        }
        i = i + 1;
    }
    assert(instants@.subrange(0, instants@.len() as int) =~= instants@);
    r
}

impl SessionStateView {
    /// The requests admitted within the window that ends at `now`.
    pub open spec fn recent(self, limits: EnforcementLimits, now: Timestamp) -> Seq<Timestamp> {
        recent(self.admitted, limits.session_window_millis, now)
    }

    /// Whether the window that ends at `now` has no request left.
    pub open spec fn is_exhausted(self, limits: EnforcementLimits, now: Timestamp) -> bool {
        self.recent(limits, now).len() >= limits.max_requests_per_session_window
    }

    /// The state after a request was asked for: it is admitted unless the window
    /// is exhausted, and requests that have left the window are forgotten.
    pub open spec fn asked(self, limits: EnforcementLimits, now: Timestamp) -> SessionStateView {
        let recent = self.recent(limits, now);
        SessionStateView {
            admitted: if self.is_exhausted(limits, now) {
                recent
            } else {
                recent.push(now)
            },
            ..self
        }
    }

    /// Whether a signal of `size` bytes still fits.
    pub open spec fn has_room(self, limits: EnforcementLimits, size: usize) -> bool {
        &&& self.advisory_signal_count < limits.max_advisory_signals_per_session
        &&& saturating_sum(self.advisory_signal_bytes, size)
            <= limits.max_advisory_signal_bytes_per_session
    }

    /// Whether the retained signals are within the ceilings.
    pub open spec fn is_bounded(self, limits: EnforcementLimits) -> bool {
        &&& self.advisory_signal_count <= limits.max_advisory_signals_per_session
        &&& self.advisory_signal_bytes <= limits.max_advisory_signal_bytes_per_session
    }

    /// The state after a signal of `size` bytes was retained or dropped.
    pub open spec fn offered(self, limits: EnforcementLimits, size: usize) -> SessionStateView {
        if self.has_room(limits, size) {
            SessionStateView {
                advisory_signal_count: (self.advisory_signal_count + 1) as usize,
                advisory_signal_bytes: saturating_sum(self.advisory_signal_bytes, size),
                ..self
            }
        } else {
            SessionStateView {
                advisory_signals_dropped: saturating_sum(self.advisory_signals_dropped, 1),
                ..self
            }
        }
    }
}

/// The sum, or the largest number there is.
pub open spec fn saturating_sum(a: usize, b: usize) -> usize {
    if a + b <= usize::MAX {
        (a + b) as usize
    } else {
        usize::MAX
    }
}

/// The bytes of text of a finding.
pub open spec fn finding_size(finding: AdvisoryFindingView) -> usize {
    saturating_sum(
        encode_utf8(finding.signal.code).len() as usize,
        encode_utf8(finding.signal.detail).len() as usize,
    )
}

/// The session state after the findings were offered, in order.
pub open spec fn after_findings(
    state: SessionStateView,
    limits: EnforcementLimits,
    findings: Seq<AdvisoryFindingView>,
) -> SessionStateView
    decreases findings.len(),
{
    if findings.len() == 0 {
        state
    } else {
        after_findings(state, limits, findings.drop_last()).offered(
            limits,
            finding_size(findings.last()),
        )
    }
}

/// The findings that are retained when they are offered in order.
pub open spec fn retained_findings(
    state: SessionStateView,
    limits: EnforcementLimits,
    findings: Seq<AdvisoryFindingView>,
) -> Seq<AdvisoryFindingView>
    decreases findings.len(),
{
    if findings.len() == 0 {
        Seq::empty()
    } else {
        let before = retained_findings(state, limits, findings.drop_last());
        if after_findings(state, limits, findings.drop_last()).has_room(
            limits,
            finding_size(findings.last()),
        ) {
            before.push(findings.last())
        } else {
            before
        }
    }
}

impl CircuitBreakerView {
    /// Whether the check is not invoked at `now`.
    pub open spec fn is_tripped(self, now: Timestamp) -> bool {
        self.fast_path_until_millis != 0 && now.0 < self.fast_path_until_millis
    }

    /// The breaker after an evaluation: a success resets it; a failure counts,
    /// and trips it once there are more in a row than the threshold.
    pub open spec fn recorded(
        self,
        limits: EnforcementLimits,
        now: Timestamp,
        failed: bool,
    ) -> CircuitBreakerView {
        if failed {
            let failures: u32 = if self.consecutive_failures < u32::MAX {
                (self.consecutive_failures + 1) as u32
            } else {
                u32::MAX
            };
            CircuitBreakerView {
                consecutive_failures: failures,
                fast_path_until_millis: if failures > limits.consecutive_failure_threshold {
                    later(now, limits.fast_path_window_millis).0
                } else {
                    self.fast_path_until_millis
                },
            }
        } else {
            CircuitBreakerView { consecutive_failures: 0, fast_path_until_millis: 0 }
        }
    }
}

impl CheckStatusView {
    /// Whether the evaluation failed: it timed out, was cancelled, or panicked.
    pub open spec fn is_failure(self) -> bool {
        self is TimedOut || self is Cancelled || self is Panicked
    }
}

/// Whether `id` is registered with an enforcing mode.
pub open spec fn is_enforced(checks: Seq<(Seq<char>, RegistrationView)>, id: Seq<char>) -> bool {
    exists|i: int|
        0 <= i < checks.len() && (#[trigger] checks[i]).0 == id && checks[i].1.mode.enforces()
}

/// The policy-data revisions of the enforcing checks, in the order of the ids.
pub open spec fn enforced_policy(
    checks: Seq<(Seq<char>, RegistrationView)>,
    policy: Map<Seq<char>, Seq<char>>,
) -> Seq<(Seq<char>, Seq<char>)>
    decreases checks.len(),
{
    if checks.len() == 0 {
        Seq::empty()
    } else {
        let before = enforced_policy(checks.drop_last(), policy);
        let id = checks.last().0;
        if checks.last().1.mode.enforces() && policy.dom().contains(id) {
            before.push((id, policy[id]))
        } else {
            before
        }
    }
}

proof fn lemma_enforced_policy_is_ordered(
    checks: Seq<(Seq<char>, RegistrationView)>,
    policy: Map<Seq<char>, Seq<char>>,
)
    requires
        ordered_keys(checks),
    ensures
        ordered_keys(enforced_policy(checks, policy)),
        forall|i: int|
            0 <= i < enforced_policy(checks, policy).len() ==> exists|j: int|
                0 <= j < checks.len() && (#[trigger] checks[j]).0 == (
                #[trigger] enforced_policy(checks, policy)[i]).0,
    decreases checks.len(),
{
    if checks.len() > 0 {
        let rest = checks.drop_last();
        let before = enforced_policy(rest, policy);
        let all = enforced_policy(checks, policy);
        lemma_enforced_policy_is_ordered(rest, policy);
        assert forall|i: int| 0 <= i < all.len() implies exists|j: int|
            0 <= j < checks.len() && (#[trigger] checks[j]).0 == (#[trigger] all[i]).0 by {
            if i < before.len() {
                assert(all[i] == before[i]);
                let j = choose|j: int| 0 <= j < rest.len() && (#[trigger] rest[j]).0 == before[i].0;
                assert(checks[j] == rest[j]);
            } else {
                assert(checks[checks.len() - 1].0 == all[i].0);
            }
        }
        assert forall|i: int, j: int| 0 <= i < j < all.len() implies text_before(
            #[trigger] all[i].0,
            #[trigger] all[j].0,
        ) by {
            assert(all[i] == before[i]);
            if j < before.len() {
                assert(all[j] == before[j]);
            } else {
                let k = choose|k: int| 0 <= k < rest.len() && (#[trigger] rest[k]).0 == before[i].0;
                assert(checks[k] == rest[k]);
                assert(checks[checks.len() - 1].0 == all[j].0);
            }
        }
    }
}

impl SecurityCheckSetView {
    /// The state of a session, a fresh one if nothing is known of it.
    pub open spec fn session(self, session: Seq<char>) -> SessionStateView {
        if self.sessions.dom().contains(session) {
            self.sessions[session]
        } else {
            fresh_session()
        }
    }

    /// The circuit breaker of a check, a closed one if nothing is known of it.
    pub open spec fn circuit(self, id: Seq<char>) -> CircuitBreakerView {
        if self.circuits.dom().contains(id) {
            self.circuits[id]
        } else {
            CircuitBreakerView { consecutive_failures: 0, fast_path_until_millis: 0 }
        }
    }

    /// Whether the check at `i` is enforcing and not invoked at `now`.
    pub open spec fn skips(self, i: int, now: Timestamp) -> bool {
        self.checks[i].1.mode.enforces() && self.circuit(self.checks[i].0).is_tripped(now)
    }

    /// The set after a session asked for an authorization.
    pub open spec fn asked(self, session: Seq<char>, now: Timestamp) -> SecurityCheckSetView {
        SecurityCheckSetView {
            sessions: self.sessions.insert(
                session,
                self.session(session).asked(self.limits, now),
            ),
            ..self
        }
    }

    /// Whether as many requests of the session as the ceiling allows, or more,
    /// were admitted within the window that ends at `now`.
    pub open spec fn rate_exceeded(self, session: Seq<char>, now: Timestamp) -> bool {
        self.session(session).is_exhausted(self.limits, now)
    }

    /// The policy epoch: the composed revision, plus the policy-data revision
    /// that each enforcing check currently declares.
    pub open spec fn epoch(self, policy: Map<Seq<char>, Seq<char>>) -> PolicyEpochView {
        PolicyEpochView {
            check_set_revision: self.revision,
            policy_data_revisions: enforced_policy(self.checks, policy),
        }
    }

    /// Whether the grant, its subject, or its session was revoked.
    pub open spec fn has_revoked(self, grant: CapabilityGrantView) -> bool {
        ||| self.revoked_subjects.contains(grant.subject)
        ||| self.revoked_sessions.contains(grant.session)
        ||| self.revoked_grants.contains(fingerprint_of(grant.audit_fields()))
    }

    /// The set after `target` was revoked.
    pub open spec fn revoking(self, target: RevocationTargetView) -> SecurityCheckSetView {
        match target {
            RevocationTargetView::Subject(subject) => SecurityCheckSetView {
                revoked_subjects: self.revoked_subjects.insert(subject),
                ..self
            },
            RevocationTargetView::Session(session) => SecurityCheckSetView {
                revoked_sessions: self.revoked_sessions.insert(session),
                ..self
            },
            RevocationTargetView::Grant(fingerprint) => SecurityCheckSetView {
                revoked_grants: self.revoked_grants.insert(fingerprint),
                ..self
            },
        }
    }

    /// Why presenting `grant` for `request` is denied, if it is: the first of
    /// revocation, another subject, session or action, an uncovered resource,
    /// an uncovered permission, another check-set revision, a stale policy
    /// epoch, expiry, and an exhausted use count.
    pub open spec fn presentation_fault(
        self,
        grant: CapabilityGrantView,
        request: AuthorizationRequestView,
        policy: Map<Seq<char>, Seq<char>>,
        now: Timestamp,
    ) -> Option<DecisionCodeView> {
        if self.has_revoked(grant) {
            Some(DecisionCodeView::GrantRevoked)
        } else if grant.subject != request.context.subject || grant.session
            != request.context.session || grant.action != request.action {
            Some(DecisionCodeView::GrantSubjectOrSessionMismatch)
        } else if !scope_contains(grant.resource, request.resource) {
            Some(DecisionCodeView::GrantResourceNotCovered)
        } else if !request.requested.subset_of(grant.permissions) {
            Some(DecisionCodeView::GrantPermissionNotCovered)
        } else if grant.check_set_revision != request.context.check_set_revision {
            Some(DecisionCodeView::GrantRevisionOrEpochStale)
        } else if grant.policy_epoch != self.epoch(policy) {
            Some(DecisionCodeView::GrantRevisionOrEpochStale)
        } else if expired(grant.expiry, now) {
            Some(DecisionCodeView::GrantExpired)
        } else if grant.remaining_uses == 0 {
            Some(DecisionCodeView::GrantUseCountExhausted)
        } else {
            None
        }
    }

    /// The grant after it was presented, and why that was denied, if it was.
    pub open spec fn presented(
        self,
        grant: CapabilityGrantView,
        request: AuthorizationRequestView,
        policy: Map<Seq<char>, Seq<char>>,
        now: Timestamp,
    ) -> (CapabilityGrantView, Option<DecisionCodeView>) {
        match self.presentation_fault(grant, request, policy, now) {
            Some(code) => (grant, Some(code)),
            None => (grant.consumed().0, None),
        }
    }

    /// What the check at `i` contributes with the coverage that it declares and how
    /// its evaluation ended.
    pub open spec fn contribution(
        self,
        i: int,
        declared_coverage: Option<Set<PermissionView>>,
        status: CheckStatusView,
    ) -> CheckEvaluationView {
        CheckEvaluationView {
            id: self.checks[i].0,
            mode: self.checks[i].1.mode,
            coverage: narrowed(self.checks[i].1.coverage, declared_coverage),
            status,
        }
    }

    /// The set after an evaluation of the check at `i` ended with `status`. Only
    /// enforcing checks have a circuit breaker.
    pub open spec fn recording(
        self,
        i: int,
        status: CheckStatusView,
        now: Timestamp,
    ) -> SecurityCheckSetView {
        if self.checks[i].1.mode.enforces() {
            let id = self.checks[i].0;
            SecurityCheckSetView {
                circuits: self.circuits.insert(
                    id,
                    self.circuit(id).recorded(self.limits, now, status.is_failure()),
                ),
                ..self
            }
        } else {
            self
        }
    }

    /// What the check at `i` contributed, given its report: nothing of its own
    /// where it was not invoked.
    pub open spec fn evaluation(
        self,
        i: int,
        report: CheckReportView,
        now: Timestamp,
    ) -> CheckEvaluationView {
        self.contribution(
            i,
            report.declared_coverage,
            if self.skips(i, now) {
                CheckStatusView::FastPathDenied
            } else {
                report.status
            },
        )
    }

    /// What every check contributed, in the order of the ids.
    pub open spec fn evaluations(
        self,
        reports: Seq<CheckReportView>,
        now: Timestamp,
    ) -> Seq<CheckEvaluationView> {
        Seq::new(self.checks.len(), |i: int| self.evaluation(i, reports[i], now))
    }

    /// The circuit breakers after the first `n` reports.
    pub open spec fn circuits_after(
        self,
        reports: Seq<CheckReportView>,
        n: nat,
        now: Timestamp,
    ) -> Map<Seq<char>, CircuitBreakerView>
        decreases n,
    {
        if n == 0 {
            self.circuits
        } else {
            let before = self.circuits_after(reports, (n - 1) as nat, now);
            let i = n - 1;
            if self.checks[i].1.mode.enforces() && !self.skips(i, now) && reports[i].started {
                let id = self.checks[i].0;
                before.insert(
                    id,
                    self.circuit(id).recorded(
                        self.limits,
                        now,
                        reports[i].status.is_failure(),
                    ),
                )
            } else {
                before
            }
        }
    }

    /// The set after the findings of an evaluation were retained or dropped.
    pub open spec fn with_findings(
        self,
        session: Seq<char>,
        findings: Seq<AdvisoryFindingView>,
    ) -> SecurityCheckSetView {
        if findings.len() == 0 {
            self
        } else {
            SecurityCheckSetView {
                sessions: self.sessions.insert(
                    session,
                    after_findings(self.session(session), self.limits, findings),
                ),
                ..self
            }
        }
    }

    /// The expiry and use count of a grant under the composed constraints.
    pub open spec fn bounds(
        self,
        constraints: GrantConstraintsView,
        now: Timestamp,
    ) -> (Option<Timestamp>, u32) {
        (
            Some(
                match value_of(constraints, ConstraintDimensionView::TimeWindow) {
                    ConstraintValueView::Range { max, .. } => Timestamp(max),
                    _ => later(now, self.limits.default_grant_ttl_millis),
                },
            ),
            match value_of(constraints, ConstraintDimensionView::UseCount) {
                ConstraintValueView::Range { max, .. } => if max <= u32::MAX {
                    max as u32
                } else {
                    u32::MAX
                },
                _ => self.limits.default_max_uses,
            },
        )
    }

    /// The decision on `request`, given what every check contributed: a denial
    /// where there is a reason for one, else a grant of exactly what was
    /// requested, within the composed bounds, pending approval if an enforcing
    /// check asks for it.
    pub open spec fn decision(
        self,
        request: AuthorizationRequestView,
        evaluations: Seq<CheckEvaluationView>,
        policy: Map<Seq<char>, Seq<char>>,
        now: Timestamp,
    ) -> AuthorizationDecisionView {
        match denial(request.requested, evaluations) {
            Some(code) => AuthorizationDecisionView::Deny { code },
            None => {
                let (expiry, max_uses) = self.bounds(composed_constraints(evaluations), now);
                let grant = issued(
                    request.context,
                    request.action,
                    request.resource,
                    request.requested,
                    self.epoch(policy),
                    expiry,
                    max_uses,
                );
                if approval_is_required(evaluations) {
                    AuthorizationDecisionView::RequireApproval { eligible: grant }
                } else {
                    AuthorizationDecisionView::Allow { grant }
                }
            },
        }
    }

    /// The outcome of composing what every check contributed.
    pub open spec fn composed(
        self,
        request: AuthorizationRequestView,
        evaluations: Seq<CheckEvaluationView>,
        policy: Map<Seq<char>, Seq<char>>,
        now: Timestamp,
    ) -> CheckSetOutcomeView {
        CheckSetOutcomeView {
            decision: self.decision(request, evaluations, policy, now),
            checks: audits(evaluations),
            advisory_findings: retained_findings(
                self.session(request.context.session),
                self.limits,
                raised_findings(evaluations),
            ),
        }
    }

    /// The set after the reports of an evaluation were settled.
    pub open spec fn settled(
        self,
        request: AuthorizationRequestView,
        reports: Seq<CheckReportView>,
        now: Timestamp,
    ) -> SecurityCheckSetView {
        let recorded = SecurityCheckSetView {
            circuits: self.circuits_after(reports, self.checks.len(), now),
            ..self
        };
        recorded.with_findings(
            request.context.session,
            raised_findings(self.evaluations(reports, now)),
        )
    }

    /// Why `request` is denied before any check is evaluated, if it is.
    pub open spec fn admission_fault(
        self,
        request: AuthorizationRequestView,
        now: Timestamp,
    ) -> Option<DecisionCodeView> {
        if request.context.check_set_revision != self.revision {
            Some(DecisionCodeView::GrantRevisionOrEpochStale)
        } else if self.rate_exceeded(request.context.session, now) {
            Some(DecisionCodeView::CeilingExceeded)
        } else {
            None
        }
    }

    /// The set after `request` was admitted or refused: a request under another
    /// revision leaves it alone, any other counts for its session.
    pub open spec fn admitting(
        self,
        request: AuthorizationRequestView,
        now: Timestamp,
    ) -> SecurityCheckSetView {
        if request.context.check_set_revision != self.revision {
            self
        } else {
            self.asked(request.context.session, now)
        }
    }
}

/// The decision on an eligible grant once it was approved or not.
pub open spec fn resolved_approval(
    eligible: CapabilityGrantView,
    approved: bool,
) -> AuthorizationDecisionView {
    if approved {
        AuthorizationDecisionView::Allow { grant: eligible }
    } else {
        AuthorizationDecisionView::Deny { code: DecisionCodeView::ApprovalDenied }
    }
}

/// How an evaluation ends that is not let run at `now`, if it is not.
pub open spec fn interrupted(
    cancelled: bool,
    deadline: Option<Timestamp>,
    now: Timestamp,
) -> Option<CheckStatusView> {
    if cancelled {
        Some(CheckStatusView::Cancelled)
    } else if expired(deadline, now) {
        Some(CheckStatusView::TimedOut)
    } else {
        None
    }
}

impl SecurityCheckSetView {
    /// The outcome of authorizing `request` with what the checks report, and the
    /// set afterwards.
    pub open spec fn authorization(
        self,
        request: AuthorizationRequestView,
        reports: Seq<CheckReportView>,
        policy: Map<Seq<char>, Seq<char>>,
        now: Timestamp,
    ) -> (CheckSetOutcomeView, SecurityCheckSetView) {
        let admitted = self.admitting(request, now);
        match self.admission_fault(request, now) {
            Some(code) => (refused(code), admitted),
            None => (
                admitted.composed(request, admitted.evaluations(reports, now), policy, now),
                admitted.settled(request, reports, now),
            ),
        }
    }
}

/// The outcome of a request that is denied before any check is evaluated.
pub open spec fn refused(code: DecisionCodeView) -> CheckSetOutcomeView {
    CheckSetOutcomeView {
        decision: AuthorizationDecisionView::Deny { code },
        checks: Seq::empty(),
        advisory_findings: Seq::empty(),
    }
}

impl SecurityCheckSet {
    /// A fresh builder with the given ceilings.
    pub fn builder(limits: EnforcementLimits) -> (r: SecurityCheckSetBuilder)
        ensures
            r@ == (SecurityCheckSetBuilderView { registrations: Seq::empty(), limits }),
    {
        SecurityCheckSetBuilder::new(limits)
    }

    /// This check set's composed revision: a fingerprint over every
    /// registration, in the order of the ids, so that it is the same whatever
    /// the order of registration.
    pub fn revision(&self) -> (r: &CheckSetRevision)
        ensures
            r@ == self@.revision,
    {
        &self.revision
    }

    /// This check set's configured ceilings.
    pub fn limits(&self) -> (r: EnforcementLimits)
        ensures
            r == self@.limits,
    {
        self.limits
    }

    /// The number of registered checks.
    pub fn check_count(&self) -> (r: usize)
        ensures
            r == self@.checks.len(),
            ordered_keys(self@.checks),
    {
        self.checks.len()
    }

    /// How many advisory signals have been dropped for `session` after its
    /// retention ceiling was reached.
    pub fn advisory_signals_dropped(&self, session: &SessionId) -> (r: usize)
        ensures
            r == self@.session(session@).advisory_signals_dropped,
    {
        match self.sessions.get(session.as_str()) {
            Some(state) => state.advisory_signals_dropped,
            None => 0,
        }
    }

    /// The current policy epoch, given the policy-data revision that each check
    /// declares now. It does not depend on any specific request, so that an
    /// epoch computed at issuance is comparable to one recomputed later.
    pub fn current_policy_epoch(&self, policy: &TextMap<SecurityCheckRevision>) -> (r: PolicyEpoch)
        ensures
            r@ == self@.epoch(policy.dict()),
    {
        let ghost checks = self@.checks;
        let ghost declared = policy.dict();
        let mut epoch = PolicyEpoch::new(self.revision.copied());
        let count: usize = self.checks.len();
        let mut i: usize = 0;
        assert(checks.subrange(0, 0) =~= Seq::<(Seq<char>, RegistrationView)>::empty());
        while i < count
            invariant
                i <= count == checks.len(),
                checks == self.checks@,
                declared == policy.dict(),
                epoch@.check_set_revision == self.revision@,
                ordered_keys(epoch@.policy_data_revisions),
                dict(epoch@.policy_data_revisions) == dict(
                    enforced_policy(checks.subrange(0, i as int), declared),
                ),
            decreases count - i,
        {
            let id = self.checks.key_at(i);
            proof {
                let items = checks.subrange(0, i + 1);
                let before = enforced_policy(checks.subrange(0, i as int), declared);
                assert(items.drop_last() =~= checks.subrange(0, i as int));
                assert(items.last() == checks[i as int]);
                assert(before.push((id@, declared[id@])).drop_last() =~= before);
            }
            if self.checks.value_at(i).mode.is_enforcing() {
                if let Some(revision) = policy.get(id) {
                    epoch = epoch.with_policy_data_revision(
                        SecurityCheckId::new(id),
                        revision.copied(),
                    );
                }
            }
            i = i + 1;
        }
        proof {
            assert(checks.subrange(0, checks.len() as int) =~= checks);
            lemma_enforced_policy_is_ordered(checks, declared);
            lemma_dict_determines_entries(
                epoch@.policy_data_revisions,
                enforced_policy(checks, declared),
            );
        }
        epoch
    }

    /// Records `target` as revoked, for every later
    /// [`SecurityCheckSet::present`].
    pub fn revoke(&mut self, target: RevocationTarget)
        ensures
            final(self)@ == old(self)@.revoking(target@),
    {
        match target {
            RevocationTarget::Subject(subject) => {
                self.revoked_subjects.insert(subject.as_str());
            },
            RevocationTarget::Session(session) => {
                self.revoked_sessions.insert(session.as_str());
            },
            RevocationTarget::Grant(fingerprint) => {
                self.revoked_grants.insert(fingerprint.as_str());
            },
        }
    }

    fn is_revoked(&self, grant: &CapabilityGrant) -> (r: bool)
        ensures
            r == self@.has_revoked(grant@),
    {
        self.revoked_subjects.contains(grant.subject().as_str()) || self.revoked_sessions.contains(
            grant.session().as_str(),
        ) || self.revoked_grants.contains(grant.fingerprint().as_str())
    }

    /// Validates and consumes one use of an already-issued `grant` against
    /// `request`, without minting a new grant. `policy` holds the policy-data
    /// revision that each check declares now. A denial does not consume or
    /// alter the grant.
    pub fn present(
        &self,
        grant: &mut CapabilityGrant,
        request: &AuthorizationRequest,
        policy: &TextMap<SecurityCheckRevision>,
        now: Timestamp,
    ) -> (r: Result<(), DecisionCode>)
        ensures
            ({
                let (left, fault) = self@.presented(old(grant)@, request@, policy.dict(), now);
                &&& final(grant)@ == left
                &&& match fault {
                    Some(code) => r matches Err(e) && e@ == code,
                    None => r is Ok,
                }
            }),
    {
        if self.is_revoked(grant) {
            return Err(DecisionCode::GrantRevoked);
        }
        if !grant.subject().same(&request.context.subject) || !grant.session().same(
            &request.context.session,
        ) || !grant.action().same(&request.action) {
            return Err(DecisionCode::GrantSubjectOrSessionMismatch);
        }
        if !grant.resource().contains(&request.resource) {
            return Err(DecisionCode::GrantResourceNotCovered);
        }
        if !request.requested.is_subset(grant.permissions()) {
            return Err(DecisionCode::GrantPermissionNotCovered);
        }
        if !grant.check_set_revision().same(&request.context.check_set_revision) {
            return Err(DecisionCode::GrantRevisionOrEpochStale);
        }
        if !grant.epoch_is_current(&self.current_policy_epoch(policy)) {
            return Err(DecisionCode::GrantRevisionOrEpochStale);
        }
        if grant.expiry().is_expired_at(now) {
            return Err(DecisionCode::GrantExpired);
        }
        if !grant.consume() {
            return Err(DecisionCode::GrantUseCountExhausted);
        }
        Ok(())
    }

    /// Accepts or rejects an `eligible` grant produced by
    /// [`AuthorizationDecision::RequireApproval`]. Approval cannot widen it:
    /// nothing but the very grant comes out.
    pub fn resolve_approval(
        &self,
        eligible: CapabilityGrant,
        approved: bool,
    ) -> (r: AuthorizationDecision)
        ensures
            r@ == resolved_approval(eligible@, approved),
    {
        if approved {
            AuthorizationDecision::Allow { grant: eligible }
        } else {
            AuthorizationDecision::Deny { code: DecisionCode::ApprovalDenied }
        }
    }

    fn session_state(&self, session: &SessionId) -> (r: SessionState)
        ensures
            r@ == self@.session(session@),
    {
        match self.sessions.get(session.as_str()) {
            Some(state) => state.copied(),
            None => {
                let admitted: Vec<Timestamp> = Vec::new();
                assert(admitted.deep_view() =~= Seq::<Timestamp>::empty());
                SessionState {
                    admitted,
                    advisory_signal_count: 0,
                    advisory_signal_bytes: 0,
                    advisory_signals_dropped: 0,
                }
            },
        }
    }

    fn check_session_rate(&mut self, session: &SessionId, now: Timestamp) -> (r: Option<
        DecisionCode,
    >)
        ensures
            final(self)@ == old(self)@.asked(session@, now),
            r is Some == old(self)@.rate_exceeded(session@, now),
            r matches Some(code) ==> code@ == DecisionCodeView::CeilingExceeded,
    {
        let ghost before = self@;
        let mut state = self.session_state(session);
        assert(state.admitted.deep_view() =~= state.admitted@);
        let mut admitted = recent_of(&state.admitted, self.limits.session_window_millis, now);
        let ceiling = self.limits.max_requests_per_session_window as usize;
        let exceeded = admitted.len() >= ceiling;
        if !exceeded {
            admitted.push(now);
        }
        assert(admitted.deep_view() =~= admitted@);
        state.admitted = admitted;
        self.sessions.insert(session.as_str(), state);
        assert(self@.sessions =~= before.asked(session@, now).sessions);
        if exceeded {
            Some(DecisionCode::CeilingExceeded)
        } else {
            None
        }
    }

    /// Denies `request` structurally, before any check is evaluated, when it
    /// carries a stale check-set revision or the session's authorization rate
    /// ceiling is exceeded. Gives nothing when the checks are to be evaluated.
    pub fn open_request(&mut self, request: &AuthorizationRequest, now: Timestamp) -> (r: Option<
        CheckSetOutcome,
    >)
        ensures
            final(self)@ == old(self)@.admitting(request@, now),
            match old(self)@.admission_fault(request@, now) {
                Some(code) => r matches Some(outcome) && outcome@ == refused(code),
                None => r is None,
            },
    {
        let code = if !request.context.check_set_revision.same(&self.revision) {
            DecisionCode::GrantRevisionOrEpochStale
        } else {
            match self.check_session_rate(&request.context.session, now) {
                Some(code) => code,
                None => {
                    return None;
                },
            }
        };
        let checks: Vec<CheckAudit> = Vec::new();
        let advisory_findings: Vec<AdvisoryFinding> = Vec::new();
        assert(checks.deep_view() =~= Seq::<CheckAuditView>::empty());
        assert(advisory_findings.deep_view() =~= Seq::<AdvisoryFindingView>::empty());
        Some(
            CheckSetOutcome {
                decision: AuthorizationDecision::Deny { code },
                checks,
                advisory_findings,
            },
        )
    }

    fn circuit_is_tripped(&self, id: &str, now: Timestamp) -> (r: bool)
        ensures
            r == self@.circuit(id@).is_tripped(now),
    {
        match self.circuits.get(id) {
            Some(circuit) => circuit.fast_path_until_millis != 0 && now.as_millis()
                < circuit.fast_path_until_millis,
            None => false,
        }
    }

    /// Whether the check at `index`, in the order of the ids, is to be invoked
    /// at `now`. One that failed too often in a row is not.
    pub fn should_evaluate(&self, index: usize, now: Timestamp) -> (r: bool)
        requires
            index < self@.checks.len(),
        ensures
            r == !self@.skips(index as int, now),
    {
        !(self.checks.value_at(index).mode.is_enforcing() && self.circuit_is_tripped(
            self.checks.key_at(index),
            now,
        ))
    }

    /// What ends a wait for a check before the check itself does: a cancellation
    /// first, then the request's deadline.
    pub fn interruption(cancelled: bool, deadline: Deadline, now: Timestamp) -> (r: Option<
        CheckStatus,
    >)
        ensures
            r.deep_view() == interrupted(cancelled, deadline@, now),
    {
        if cancelled {
            Some(CheckStatus::Cancelled)
        } else if deadline.is_expired_at(now) {
            Some(CheckStatus::TimedOut)
        } else {
            None
        }
    }

    /// The id of the check at `index`, in the order of the ids.
    pub fn check_id(&self, index: usize) -> (r: SecurityCheckId)
        requires
            index < self@.checks.len(),
        ensures
            r@ == self@.checks[index as int].0,
    {
        SecurityCheckId::new(self.checks.key_at(index))
    }

    fn circuit_after(&self, id: &str, now: Timestamp, failed: bool) -> (r: CircuitBreaker)
        ensures
            r@ == self@.circuit(id@).recorded(self@.limits, now, failed),
    {
        let (failures, until): (u32, u64) = match self.circuits.get(id) {
            Some(circuit) => (circuit.consecutive_failures, circuit.fast_path_until_millis),
            None => (0, 0),
        };
        if failed {
            let consecutive_failures: u32 = failures.saturating_add(1);
            CircuitBreaker {
                consecutive_failures,
                fast_path_until_millis: if consecutive_failures
                    > self.limits.consecutive_failure_threshold {
                    now.as_millis().saturating_add(self.limits.fast_path_window_millis)
                } else {
                    until
                },
            }
        } else {
            CircuitBreaker { consecutive_failures: 0, fast_path_until_millis: 0 }
        }
    }

    /// Counts an evaluation of the check at `index` for its circuit breaker, where
    /// the check is enforcing: the evaluation was asked for at `now`, was started,
    /// and ended with `status`.
    pub fn record_circuit_result(&mut self, index: usize, now: Timestamp, status: &CheckStatus)
        requires
            index < old(self)@.checks.len(),
        ensures
            final(self)@ == old(self)@.recording(index as int, status@, now),
    {
        let ghost before = self@;
        if self.checks.value_at(index).mode.is_enforcing() {
            let id = self.checks.key_at(index).to_owned();
            let circuit = self.circuit_after(id.as_str(), now, status.is_failure());
            self.circuits.insert(id.as_str(), circuit);
            assert(self@.circuits =~= before.recording(index as int, status@, now).circuits);
        }
    }

    /// What the check at `index` contributes with the coverage that it declares and
    /// how its evaluation ended.
    pub fn evaluation(
        &self,
        index: usize,
        declared_coverage: &Option<PermissionSet>,
        status: CheckStatus,
    ) -> (r: CheckEvaluation)
        requires
            index < self@.checks.len(),
        ensures
            r@ == self@.contribution(index as int, declared_coverage.deep_view(), status@),
    {
        let registration = self.checks.value_at(index);
        CheckEvaluation {
            id: SecurityCheckId::new(self.checks.key_at(index)),
            mode: registration.mode,
            coverage: effective_coverage(&registration.coverage, declared_coverage),
            status,
        }
    }

    /// What every check contributed, and the circuit breakers after it.
    fn evaluate_reports(&self, reports: &Vec<CheckReport>, now: Timestamp) -> (r: (
        Vec<CheckEvaluation>,
        TextMap<CircuitBreaker>,
    ))
        requires
            reports.deep_view().len() == self@.checks.len(),
        ensures
            r.0.deep_view() == self@.evaluations(reports.deep_view(), now),
            r.1.dict() == self@.circuits_after(reports.deep_view(), self@.checks.len(), now),
    {
        let ghost views = reports.deep_view();
        let mut evaluations: Vec<CheckEvaluation> = Vec::new();
        let mut circuits = self.circuits.copied();
        let mut i: usize = 0;
        assert(evaluations.deep_view() =~= self@.evaluations(views, now).subrange(0, 0));
        while i < reports.len()
            invariant
                i <= reports.len(),
                views == reports.deep_view(),
                views.len() == self@.checks.len(),
                evaluations.deep_view() == self@.evaluations(views, now).subrange(0, i as int),
                circuits.dict() == self@.circuits_after(views, i as nat, now),
            decreases reports.len() - i,
        {
            let ghost before = evaluations.deep_view();
            let report = &reports[i];
            let invoked = self.should_evaluate(i, now);
            let status = if invoked {
                report.status.copied()
            } else {
                CheckStatus::FastPathDenied
            };
            if self.checks.value_at(i).mode.is_enforcing() && invoked && report.started {
                let id = self.checks.key_at(i);
                circuits.insert(id, self.circuit_after(id, now, report.status.is_failure()));
            }
            let evaluation = self.evaluation(i, &report.declared_coverage, status);
            let ghost view = evaluation@;
            evaluations.push(evaluation);
            proof {
                let all = self@.evaluations(views, now);
                assert(view == all[i as int]);
                assert(evaluations.deep_view() =~= before.push(view));
                assert(all.subrange(0, i + 1) =~= all.subrange(0, i as int).push(all[i as int]));
            }
            i = i + 1;
        }
        proof {
            let all = self@.evaluations(views, now);
            assert(all.subrange(0, all.len() as int) =~= all);
        }
        (evaluations, circuits)
    }

    fn grant_bounds(&self, constraints: &GrantConstraints, now: Timestamp) -> (r: (Deadline, u32))
        ensures
            (r.0@, r.1) == self@.bounds(constraints@, now),
    {
        let expiry = match constraints.get(&ConstraintDimension::TimeWindow) {
            ConstraintValue::Range { max, .. } => Deadline::at(Timestamp(max)),
            _ => Deadline::at(now.plus_millis(self.limits.default_grant_ttl_millis)),
        };
        let max_uses: u32 = match constraints.get(&ConstraintDimension::UseCount) {
            ConstraintValue::Range { max, .. } => if max <= u32::MAX as u64 {
                max as u32
            } else {
                u32::MAX
            },
            _ => self.limits.default_max_uses,
        };
        (expiry, max_uses)
    }

    fn bound_advisory_signals(
        &mut self,
        session: &SessionId,
        findings: Vec<AdvisoryFinding>,
    ) -> (r: Vec<AdvisoryFinding>)
        ensures
            final(self)@ == old(self)@.with_findings(session@, findings.deep_view()),
            r.deep_view() == retained_findings(
                old(self)@.session(session@),
                old(self)@.limits,
                findings.deep_view(),
            ),
    {
        let ghost before = self@;
        let ghost offered = findings.deep_view();
        if findings.len() == 0 {
            assert(findings.deep_view() =~= Seq::<AdvisoryFindingView>::empty());
            return findings;
        }
        let mut state = self.session_state(session);
        let ghost start = state@;
        let mut kept: Vec<AdvisoryFinding> = Vec::new();
        let mut i: usize = 0;
        assert(offered.subrange(0, 0) =~= Seq::<AdvisoryFindingView>::empty());
        assert(kept.deep_view() =~= Seq::<AdvisoryFindingView>::empty());
        while i < findings.len()
            invariant
                i <= findings.len(),
                offered == findings.deep_view(),
                before == self@,
                state@ == after_findings(start, before.limits, offered.subrange(0, i as int)),
                kept.deep_view() == retained_findings(
                    start,
                    before.limits,
                    offered.subrange(0, i as int),
                ),
            decreases findings.len() - i,
        {
            let ghost kept_before = kept.deep_view();
            let finding = &findings[i];
            proof {
                let items = offered.subrange(0, i + 1);
                assert(items.drop_last() =~= offered.subrange(0, i as int));
                assert(items.last() == finding@);
            }
            let size: usize = byte_len(finding.signal.code.as_str()).saturating_add(
                byte_len(finding.signal.detail.as_str()),
            );
            let total: usize = state.advisory_signal_bytes.saturating_add(size);
            if state.advisory_signal_count >= self.limits.max_advisory_signals_per_session || total
                > self.limits.max_advisory_signal_bytes_per_session {
                state.advisory_signals_dropped = state.advisory_signals_dropped.saturating_add(1);
            } else {
                state.advisory_signal_count = state.advisory_signal_count + 1;
                state.advisory_signal_bytes = total;
                kept.push(finding.copied());
                assert(kept.deep_view() =~= kept_before.push(finding@));
            }
            i = i + 1;
        }
        assert(offered.subrange(0, offered.len() as int) =~= offered);
        self.sessions.insert(session.as_str(), state);
        assert(self@.sessions =~= before.with_findings(session@, offered).sessions);
        kept
    }

    /// Composes what every check contributed into the outcome of a request.
    pub fn compose(
        &mut self,
        request: &AuthorizationRequest,
        evaluations: Vec<CheckEvaluation>,
        policy: &TextMap<SecurityCheckRevision>,
        now: Timestamp,
    ) -> (r: CheckSetOutcome)
        ensures
            r@ == old(self)@.composed(request@, evaluations.deep_view(), policy.dict(), now),
            final(self)@ == old(self)@.with_findings(
                request@.context.session,
                raised_findings(evaluations.deep_view()),
            ),
    {
        let judgement = judge(&request.requested, &evaluations);
        let decision = match judgement.code {
            Some(code) => AuthorizationDecision::Deny { code },
            None => {
                let epoch = self.current_policy_epoch(policy);
                let (expiry, max_uses) = self.grant_bounds(&judgement.constraints, now);
                let grant = CapabilityGrant::issue(
                    &request.context,
                    request.action.copied(),
                    request.resource.copied(),
                    request.requested.copied(),
                    epoch,
                    expiry,
                    max_uses,
                );
                if judgement.requires_approval {
                    AuthorizationDecision::RequireApproval { eligible: grant }
                } else {
                    AuthorizationDecision::Allow { grant }
                }
            },
        };
        let advisory_findings = self.bound_advisory_signals(
            &request.context.session,
            collect_findings(&evaluations),
        );
        CheckSetOutcome { decision, checks: audit(&evaluations), advisory_findings }
    }

    /// Settles a request that was opened, once its checks were evaluated with no
    /// other request in between: `reports` holds what each check gave, in the order
    /// of the ids, and `policy` the policy-data revision that each declares now. The
    /// report of a check that was not to be invoked is not looked at, but for its
    /// declared coverage.
    pub fn settle(
        &mut self,
        request: &AuthorizationRequest,
        reports: &Vec<CheckReport>,
        policy: &TextMap<SecurityCheckRevision>,
        now: Timestamp,
    ) -> (r: CheckSetOutcome)
        requires
            reports.deep_view().len() == old(self)@.checks.len(),
        ensures
            r@ == old(self)@.composed(
                request@,
                old(self)@.evaluations(reports.deep_view(), now),
                policy.dict(),
                now,
            ),
            final(self)@ == old(self)@.settled(request@, reports.deep_view(), now),
    {
        let (evaluations, circuits) = self.evaluate_reports(reports, now);
        self.circuits = circuits;
        self.compose(request, evaluations, policy, now)
    }

    /// Authorizes `request` against every registered check, given what each
    /// check gives when it is asked: the request is admitted, and settled if it
    /// was.
    pub fn authorize(
        &mut self,
        request: &AuthorizationRequest,
        reports: &Vec<CheckReport>,
        policy: &TextMap<SecurityCheckRevision>,
        now: Timestamp,
    ) -> (r: CheckSetOutcome)
        requires
            reports.deep_view().len() == old(self)@.checks.len(),
        ensures
            (r@, final(self)@) == old(self)@.authorization(
                request@,
                reports.deep_view(),
                policy.dict(),
                now,
            ),
    {
        match self.open_request(request, now) {
            Some(outcome) => outcome,
            None => self.settle(request, reports, policy, now),
        }
    }
}

} // verus!
