//! Versioned, host-neutral persistent goal contracts.

use vstd::prelude::*;

use vstd::string::{StrSliceExecFns, StringExecFns};

use crate::clock::Timestamp;
use crate::error::{
    conflict_error, outcome_view, plain_error, verdict, ErrorKind, RuntimeError, RuntimeErrorView,
};
use crate::ids::{GoalId, TurnId};
use crate::record::Record;
use crate::text::{decimal, decimal_text, is_blank, is_blank_text, is_white_space};

verus! {

/// Persisted goal-state wire version.
pub const GOAL_STATE_SCHEMA_VERSION: u32 = 1;

/// Maximum direct objective length.
pub const MAX_GOAL_OBJECTIVE_CHARS: usize = 4_096;

/// Maximum safe stopped-reason code or detail length.
pub const MAX_GOAL_REASON_CHARS: usize = 1_024;

/// Lifecycle status of one persistent goal.
#[derive(Debug, Clone, Copy, PartialEq, Eq, Structural)]
pub enum GoalStatus {
    /// Eligible for process-scoped automatic continuation.
    Active,
    /// Stopped by explicit user control or interruption.
    Paused,
    /// Stopped because continuing is not currently safe or possible.
    Blocked,
    /// Stopped by an external provider or account usage limit.
    UsageLimited,
    /// Stopped after observed charged usage reached the requested budget.
    BudgetLimited,
    /// The objective is genuinely achieved.
    Complete,
}

impl DeepView for GoalStatus {
    type V = GoalStatus;

    open spec fn deep_view(&self) -> GoalStatus {
        *self
    }
}

impl Record for GoalStatus {
    fn same(&self, other: &Self) -> (r: bool) {
        *self == *other
    }

    fn copied(&self) -> (r: Self) {
        *self
    }
}

impl GoalStatus {
    /// Stable lowercase status spelling used by local projections.
    pub open spec fn slug(self) -> Seq<char> {
        match self {
            GoalStatus::Active => "active"@,
            GoalStatus::Paused => "paused"@,
            GoalStatus::Blocked => "blocked"@,
            GoalStatus::UsageLimited => "usage_limited"@,
            GoalStatus::BudgetLimited => "budget_limited"@,
            GoalStatus::Complete => "complete"@,
        }
    }

    /// Stable lowercase status spelling used by local projections.
    pub fn as_str(self) -> (r: &'static str)
        ensures
            r@ == self.slug(),
    {
        match self {
            GoalStatus::Active => "active",
            GoalStatus::Paused => "paused",
            GoalStatus::Blocked => "blocked",
            GoalStatus::UsageLimited => "usage_limited",
            GoalStatus::BudgetLimited => "budget_limited",
            GoalStatus::Complete => "complete",
        }
    }

    /// Whether this status can schedule another automatic turn.
    pub fn is_active(self) -> (r: bool)
        ensures
            r == (self == GoalStatus::Active),
    {
        self == GoalStatus::Active
    }

    /// Whether a new goal may replace this one.
    pub fn is_complete(self) -> (r: bool)
        ensures
            r == (self == GoalStatus::Complete),
    {
        self == GoalStatus::Complete
    }
}

/// Provenance of the charged-token projection.
#[derive(Debug, Clone, Copy, PartialEq, Eq, Structural)]
pub enum GoalUsageProvenance {
    /// Every attributable provider boundary supplied trustworthy counters.
    ProviderReported,
    /// At least one required provider boundary lacked trustworthy counters.
    Unknown,
}

impl DeepView for GoalUsageProvenance {
    type V = GoalUsageProvenance;

    open spec fn deep_view(&self) -> GoalUsageProvenance {
        *self
    }
}

impl Record for GoalUsageProvenance {
    fn same(&self, other: &Self) -> (r: bool) {
        *self == *other
    }

    fn copied(&self) -> (r: Self) {
        *self
    }
}

impl GoalUsageProvenance {
    /// Stable lowercase provenance spelling used by local projections.
    pub open spec fn slug(self) -> Seq<char> {
        match self {
            GoalUsageProvenance::ProviderReported => "provider_reported"@,
            GoalUsageProvenance::Unknown => "unknown"@,
        }
    }

    /// Stable lowercase provenance spelling used by local projections.
    pub fn as_str(self) -> (r: &'static str)
        ensures
            r@ == self.slug(),
    {
        match self {
            GoalUsageProvenance::ProviderReported => "provider_reported",
            GoalUsageProvenance::Unknown => "unknown",
        }
    }
}

/// Token and time usage owned by one goal.
#[derive(Debug, PartialEq, Eq)]
pub struct GoalTokenUsage {
    /// Known charged tokens. `None` means total usage is unknown.
    pub charged_tokens: Option<u64>,
    /// Evidence class for `charged_tokens`.
    pub provenance: GoalUsageProvenance,
    /// Derived milliseconds spent actively serving attributable goal turns.
    pub active_elapsed_ms: u64,
}

/// What a [`GoalTokenUsage`] holds.
pub struct GoalTokenUsageView {
    pub charged_tokens: Option<u64>,
    pub provenance: GoalUsageProvenance,
    pub active_elapsed_ms: u64,
}

impl DeepView for GoalTokenUsage {
    type V = GoalTokenUsageView;

    open spec fn deep_view(&self) -> GoalTokenUsageView {
        GoalTokenUsageView {
            charged_tokens: self.charged_tokens.deep_view(),
            provenance: self.provenance.deep_view(),
            active_elapsed_ms: self.active_elapsed_ms.deep_view(),
        }
    }
}

impl View for GoalTokenUsage {
    type V = GoalTokenUsageView;

    open spec fn view(&self) -> GoalTokenUsageView {
        self.deep_view()
    }
}

impl Record for GoalTokenUsage {
    fn same(&self, other: &Self) -> (r: bool) {
        self.charged_tokens.same(&other.charged_tokens)
            && self.provenance.same(&other.provenance)
            && self.active_elapsed_ms.same(&other.active_elapsed_ms)
    }

    fn copied(&self) -> (r: Self) {
        GoalTokenUsage {
            charged_tokens: self.charged_tokens.copied(),
            provenance: self.provenance.copied(),
            active_elapsed_ms: self.active_elapsed_ms.copied(),
        }
    }
}

impl Clone for GoalTokenUsage {
    fn clone(&self) -> (r: Self)
        ensures
            r@ == self@,
    {
        self.copied()
    }
}

/// The usage of a goal that has used nothing.
pub open spec fn no_usage() -> GoalTokenUsageView {
    GoalTokenUsageView {
        charged_tokens: Some(0),
        provenance: GoalUsageProvenance::ProviderReported,
        active_elapsed_ms: 0,
    }
}

impl Default for GoalTokenUsage {
    fn default() -> (r: GoalTokenUsage)
        ensures
            r@ == no_usage(),
    {
        GoalTokenUsage {
            charged_tokens: Some(0),
            provenance: GoalUsageProvenance::ProviderReported,
            active_elapsed_ms: 0,
        }
    }
}

/// Bounded redaction-safe category and optional detail for a stopped goal.
#[derive(Debug, PartialEq, Eq)]
pub struct GoalStoppedReason {
    /// Stable machine-readable reason category.
    pub code: String,
    /// Optional bounded human-readable detail.
    pub detail: Option<String>,
}

/// What a [`GoalStoppedReason`] holds.
pub struct GoalStoppedReasonView {
    pub code: Seq<char>,
    pub detail: Option<Seq<char>>,
}

impl DeepView for GoalStoppedReason {
    type V = GoalStoppedReasonView;

    open spec fn deep_view(&self) -> GoalStoppedReasonView {
        GoalStoppedReasonView {
            code: self.code.deep_view(),
            detail: self.detail.deep_view(),
        }
    }
}

impl View for GoalStoppedReason {
    type V = GoalStoppedReasonView;

    open spec fn view(&self) -> GoalStoppedReasonView {
        self.deep_view()
    }
}

impl Record for GoalStoppedReason {
    fn same(&self, other: &Self) -> (r: bool) {
        self.code.same(&other.code)
            && self.detail.same(&other.detail)
    }

    fn copied(&self) -> (r: Self) {
        GoalStoppedReason {
            code: self.code.copied(),
            detail: self.detail.copied(),
        }
    }
}

impl Clone for GoalStoppedReason {
    fn clone(&self) -> (r: Self)
        ensures
            r@ == self@,
    {
        self.copied()
    }
}

impl GoalStoppedReasonView {
    /// What is wrong with the reason's bounds, if anything.
    pub open spec fn fault(self) -> Option<RuntimeErrorView> {
        if is_blank_text(self.code) || self.code.len() > MAX_GOAL_REASON_CHARS {
            Some(tool_error("goal reason code must contain 1..=1024 characters"@))
        } else if self.detail matches Some(detail) && detail.len() > MAX_GOAL_REASON_CHARS {
            Some(tool_error("goal reason detail exceeds 1024 characters"@))
        } else {
            None
        }
    }
}

/// A plain [`ErrorKind::Tool`] error.
pub open spec fn tool_error(message: Seq<char>) -> RuntimeErrorView {
    plain_error(ErrorKind::Tool, message)
}

impl GoalStoppedReason {
    /// Creates and validates a stopped reason.
    pub fn new(code: &str, detail: Option<String>) -> (r: Result<GoalStoppedReason, RuntimeError>)
        ensures
            ({
                let reason = GoalStoppedReasonView { code: code@, detail: detail.deep_view() };
                match r {
                    Ok(made) => reason.fault() is None && made@ == reason,
                    Err(e) => reason.fault() == Some(e@),
                }
            }),
    {
        let reason = GoalStoppedReason { code: code.to_owned(), detail };
        match reason.validate() {
            Ok(()) => Ok(reason),
            Err(e) => Err(e),
        }
    }

    /// Validates reason bounds.
    pub fn validate(&self) -> (r: Result<(), RuntimeError>)
        ensures
            outcome_view(r) == verdict(self@.fault()),
    {
        if is_blank(self.code.as_str()) || self.code.as_str().unicode_len()
            > MAX_GOAL_REASON_CHARS {
            return Err(RuntimeError::tool("goal reason code must contain 1..=1024 characters"));
        }
        if let Some(detail) = &self.detail {
            if detail.as_str().unicode_len() > MAX_GOAL_REASON_CHARS {
                return Err(RuntimeError::tool("goal reason detail exceeds 1024 characters"));
            }
        }
        Ok(())
    }
}

/// Protected bookkeeping used to account an append-only session usage ledger.
#[derive(Debug, PartialEq, Eq)]
pub struct GoalAccountingState {
    /// First not-yet-accounted session usage record.
    pub usage_cursor: usize,
    /// A goal created during this turn starts after that turn's preceding work.
    pub created_in_turn: Option<TurnId>,
    /// Last turn whose terminal time and usage boundary was applied.
    pub last_accounted_turn: Option<TurnId>,
    /// Turn that changed an active goal into a stopped or complete state before
    /// terminal accounting ran.
    pub transitioned_in_turn: Option<TurnId>,
    /// Turn for which at least one trustworthy provider usage record was already
    /// consumed at an earlier tool boundary.
    pub provider_evidence_in_turn: Option<TurnId>,
}

/// What a [`GoalAccountingState`] holds.
pub struct GoalAccountingStateView {
    pub usage_cursor: usize,
    pub created_in_turn: Option<Seq<char>>,
    pub last_accounted_turn: Option<Seq<char>>,
    pub transitioned_in_turn: Option<Seq<char>>,
    pub provider_evidence_in_turn: Option<Seq<char>>,
}

impl DeepView for GoalAccountingState {
    type V = GoalAccountingStateView;

    open spec fn deep_view(&self) -> GoalAccountingStateView {
        GoalAccountingStateView {
            usage_cursor: self.usage_cursor.deep_view(),
            created_in_turn: self.created_in_turn.deep_view(),
            last_accounted_turn: self.last_accounted_turn.deep_view(),
            transitioned_in_turn: self.transitioned_in_turn.deep_view(),
            provider_evidence_in_turn: self.provider_evidence_in_turn.deep_view(),
        }
    }
}

impl View for GoalAccountingState {
    type V = GoalAccountingStateView;

    open spec fn view(&self) -> GoalAccountingStateView {
        self.deep_view()
    }
}

impl Record for GoalAccountingState {
    fn same(&self, other: &Self) -> (r: bool) {
        self.usage_cursor.same(&other.usage_cursor)
            && self.created_in_turn.same(&other.created_in_turn)
            && self.last_accounted_turn.same(&other.last_accounted_turn)
            && self.transitioned_in_turn.same(&other.transitioned_in_turn)
            && self.provider_evidence_in_turn.same(&other.provider_evidence_in_turn)
    }

    fn copied(&self) -> (r: Self) {
        GoalAccountingState {
            usage_cursor: self.usage_cursor.copied(),
            created_in_turn: self.created_in_turn.copied(),
            last_accounted_turn: self.last_accounted_turn.copied(),
            transitioned_in_turn: self.transitioned_in_turn.copied(),
            provider_evidence_in_turn: self.provider_evidence_in_turn.copied(),
        }
    }
}

impl Clone for GoalAccountingState {
    fn clone(&self) -> (r: Self)
        ensures
            r@ == self@,
    {
        self.copied()
    }
}

impl Default for GoalAccountingState {
    fn default() -> (r: GoalAccountingState)
        ensures
            r@ == (GoalAccountingStateView {
                usage_cursor: 0,
                created_in_turn: None,
                last_accounted_turn: None,
                transitioned_in_turn: None,
                provider_evidence_in_turn: None,
            }),
    {
        GoalAccountingState {
            usage_cursor: 0,
            created_in_turn: None,
            last_accounted_turn: None,
            transitioned_in_turn: None,
            provider_evidence_in_turn: None,
        }
    }
}

/// Canonical persisted goal state.
#[derive(Debug, PartialEq, Eq)]
pub struct GoalState {
    /// Wire schema version.
    pub schema_version: u32,
    /// Stable goal identity.
    pub id: GoalId,
    /// Monotonic state generation.
    pub generation: u64,
    /// Bounded objective.
    pub objective: String,
    /// Current lifecycle status.
    pub status: GoalStatus,
    /// Optional positive observed token budget.
    pub token_budget: Option<u64>,
    /// Provider-reported or unknown token evidence, and derived time evidence.
    pub usage: GoalTokenUsage,
    /// Goal creation time.
    pub created_at: Timestamp,
    /// Last committed state change.
    pub updated_at: Timestamp,
    /// Bounded stopped reason when neither active nor complete.
    pub stopped_reason: Option<GoalStoppedReason>,
    /// Protected append-only-ledger accounting cursor.
    pub accounting: GoalAccountingState,
}

/// What a [`GoalState`] holds.
pub struct GoalStateView {
    pub schema_version: u32,
    pub id: Seq<char>,
    pub generation: u64,
    pub objective: Seq<char>,
    pub status: GoalStatus,
    pub token_budget: Option<u64>,
    pub usage: GoalTokenUsageView,
    pub created_at: Timestamp,
    pub updated_at: Timestamp,
    pub stopped_reason: Option<GoalStoppedReasonView>,
    pub accounting: GoalAccountingStateView,
}

impl DeepView for GoalState {
    type V = GoalStateView;

    open spec fn deep_view(&self) -> GoalStateView {
        GoalStateView {
            schema_version: self.schema_version.deep_view(),
            id: self.id.deep_view(),
            generation: self.generation.deep_view(),
            objective: self.objective.deep_view(),
            status: self.status.deep_view(),
            token_budget: self.token_budget.deep_view(),
            usage: self.usage.deep_view(),
            created_at: self.created_at.deep_view(),
            updated_at: self.updated_at.deep_view(),
            stopped_reason: self.stopped_reason.deep_view(),
            accounting: self.accounting.deep_view(),
        }
    }
}

impl View for GoalState {
    type V = GoalStateView;

    open spec fn view(&self) -> GoalStateView {
        self.deep_view()
    }
}

impl Record for GoalState {
    fn same(&self, other: &Self) -> (r: bool) {
        self.schema_version.same(&other.schema_version)
            && self.id.same(&other.id)
            && self.generation.same(&other.generation)
            && self.objective.same(&other.objective)
            && self.status.same(&other.status)
            && self.token_budget.same(&other.token_budget)
            && self.usage.same(&other.usage)
            && self.created_at.same(&other.created_at)
            && self.updated_at.same(&other.updated_at)
            && self.stopped_reason.same(&other.stopped_reason)
            && self.accounting.same(&other.accounting)
    }

    fn copied(&self) -> (r: Self) {
        GoalState {
            schema_version: self.schema_version.copied(),
            id: self.id.copied(),
            generation: self.generation.copied(),
            objective: self.objective.copied(),
            status: self.status.copied(),
            token_budget: self.token_budget.copied(),
            usage: self.usage.copied(),
            created_at: self.created_at.copied(),
            updated_at: self.updated_at.copied(),
            stopped_reason: self.stopped_reason.copied(),
            accounting: self.accounting.copied(),
        }
    }
}

impl Clone for GoalState {
    fn clone(&self) -> (r: Self)
        ensures
            r@ == self@,
    {
        self.copied()
    }
}

/// Bounded public projection used by events and consumers.
#[derive(Debug, PartialEq, Eq)]
pub struct GoalProjection {
    /// Stable goal identity.
    pub id: GoalId,
    /// Monotonic state generation.
    pub generation: u64,
    /// Bounded objective.
    pub objective: String,
    /// Current lifecycle status.
    pub status: GoalStatus,
    /// Optional positive observed token budget.
    pub token_budget: Option<u64>,
    /// Provider-reported or unknown token evidence, and derived time evidence.
    pub usage: GoalTokenUsage,
    /// Goal creation time.
    pub created_at: Timestamp,
    /// Last committed state change.
    pub updated_at: Timestamp,
    /// Bounded stopped reason when neither active nor complete.
    pub stopped_reason: Option<GoalStoppedReason>,
}

/// What a [`GoalProjection`] holds.
pub struct GoalProjectionView {
    pub id: Seq<char>,
    pub generation: u64,
    pub objective: Seq<char>,
    pub status: GoalStatus,
    pub token_budget: Option<u64>,
    pub usage: GoalTokenUsageView,
    pub created_at: Timestamp,
    pub updated_at: Timestamp,
    pub stopped_reason: Option<GoalStoppedReasonView>,
}

impl DeepView for GoalProjection {
    type V = GoalProjectionView;

    open spec fn deep_view(&self) -> GoalProjectionView {
        GoalProjectionView {
            id: self.id.deep_view(),
            generation: self.generation.deep_view(),
            objective: self.objective.deep_view(),
            status: self.status.deep_view(),
            token_budget: self.token_budget.deep_view(),
            usage: self.usage.deep_view(),
            created_at: self.created_at.deep_view(),
            updated_at: self.updated_at.deep_view(),
            stopped_reason: self.stopped_reason.deep_view(),
        }
    }
}

impl View for GoalProjection {
    type V = GoalProjectionView;

    open spec fn view(&self) -> GoalProjectionView {
        self.deep_view()
    }
}

impl Record for GoalProjection {
    fn same(&self, other: &Self) -> (r: bool) {
        self.id.same(&other.id)
            && self.generation.same(&other.generation)
            && self.objective.same(&other.objective)
            && self.status.same(&other.status)
            && self.token_budget.same(&other.token_budget)
            && self.usage.same(&other.usage)
            && self.created_at.same(&other.created_at)
            && self.updated_at.same(&other.updated_at)
            && self.stopped_reason.same(&other.stopped_reason)
    }

    fn copied(&self) -> (r: Self) {
        GoalProjection {
            id: self.id.copied(),
            generation: self.generation.copied(),
            objective: self.objective.copied(),
            status: self.status.copied(),
            token_budget: self.token_budget.copied(),
            usage: self.usage.copied(),
            created_at: self.created_at.copied(),
            updated_at: self.updated_at.copied(),
            stopped_reason: self.stopped_reason.copied(),
        }
    }
}

impl Clone for GoalProjection {
    fn clone(&self) -> (r: Self)
        ensures
            r@ == self@,
    {
        self.copied()
    }
}

impl GoalStateView {
    /// What is wrong with the state, if anything: the first of its schema, its
    /// bounds, and its lifecycle.
    pub open spec fn fault(self) -> Option<RuntimeErrorView> {
        if self.schema_version != GOAL_STATE_SCHEMA_VERSION {
            Some(
                conflict_error(
                    "goal state schema "@ + decimal(self.schema_version as nat)
                        + " is incompatible with "@ + decimal(GOAL_STATE_SCHEMA_VERSION as nat),
                ),
            )
        } else if is_blank_text(self.objective) || self.objective.len()
            > MAX_GOAL_OBJECTIVE_CHARS {
            Some(tool_error("goal objective must contain 1..=4096 characters"@))
        } else if self.token_budget == Some(0u64) {
            Some(tool_error("goal token budget must be positive"@))
        } else if self.generation == 0 {
            Some(conflict_error("goal generation must start at one"@))
        } else if self.stopped_reason matches Some(reason) && reason.fault() is Some {
            self.stopped_reason->Some_0.fault()
        } else if self.status == GoalStatus::Active && self.stopped_reason is Some {
            Some(conflict_error("active goal cannot retain a stopped reason"@))
        } else if self.status == GoalStatus::Complete && self.stopped_reason is Some {
            Some(conflict_error("complete goal cannot retain a stopped reason"@))
        } else {
            None
        }
    }

    /// The consumer projection, without accounting.
    pub open spec fn projection(self) -> GoalProjectionView {
        GoalProjectionView {
            id: self.id,
            generation: self.generation,
            objective: self.objective,
            status: self.status,
            token_budget: self.token_budget,
            usage: self.usage,
            created_at: self.created_at,
            updated_at: self.updated_at,
            stopped_reason: self.stopped_reason,
        }
    }

    /// Whether known usage has reached a budget.
    pub open spec fn budget_is_spent(self) -> bool {
        &&& self.token_budget is Some
        &&& self.usage.charged_tokens is Some
        &&& self.usage.charged_tokens->Some_0 >= self.token_budget->Some_0
    }

    /// The tokens left of the budget, as far as that is known.
    pub open spec fn remaining(self) -> Option<u64> {
        match (self.token_budget, self.usage.charged_tokens, self.usage.provenance) {
            (Some(budget), Some(used), GoalUsageProvenance::ProviderReported) => Some(
                if used <= budget {
                    (budget - used) as u64
                } else {
                    0u64
                },
            ),
            _ => None,
        }
    }

    /// The state one generation later.
    pub open spec fn advanced(self, now: Timestamp) -> GoalStateView {
        GoalStateView {
            generation: if self.generation < u64::MAX {
                (self.generation + 1) as u64
            } else {
                u64::MAX
            },
            updated_at: now,
            ..self
        }
    }

    /// Whether a request names this very state.
    pub open spec fn is_named(self, id: Seq<char>, generation: u64) -> bool {
        self.id == id && self.generation == generation
    }

    /// The state and the error after a change that was refused.
    pub open spec fn refusing(self, e: RuntimeErrorView) -> (
        GoalStateView,
        Option<RuntimeErrorView>,
    ) {
        (self, Some(e))
    }

    /// The state and the error after a change: the next generation, and what
    /// is wrong with it.
    pub open spec fn committing(self, now: Timestamp) -> (GoalStateView, Option<RuntimeErrorView>) {
        (self.advanced(now), self.advanced(now).fault())
    }

    /// The state and the error after an edit of the objective.
    pub open spec fn editing(
        self,
        id: Seq<char>,
        generation: u64,
        objective: Seq<char>,
        now: Timestamp,
    ) -> (GoalStateView, Option<RuntimeErrorView>) {
        if !self.is_named(id, generation) {
            self.refusing(stale())
        } else if self.status == GoalStatus::Complete {
            self.refusing(conflict_error("complete goal cannot be edited"@))
        } else {
            (GoalStateView { objective, ..self }).committing(now)
        }
    }

    /// The state and the error after a change of the budget. The status stays.
    pub open spec fn budgeting(
        self,
        id: Seq<char>,
        generation: u64,
        token_budget: Option<u64>,
        now: Timestamp,
    ) -> (GoalStateView, Option<RuntimeErrorView>) {
        if !self.is_named(id, generation) {
            self.refusing(stale())
        } else if self.status == GoalStatus::Complete {
            self.refusing(conflict_error("complete goal budget cannot be changed"@))
        } else if token_budget == Some(0u64) {
            self.refusing(tool_error("goal token budget must be positive"@))
        } else {
            (GoalStateView { token_budget, ..self }).committing(now)
        }
    }

    /// The state and the error after a pause.
    pub open spec fn pausing(self, id: Seq<char>, generation: u64, now: Timestamp) -> (
        GoalStateView,
        Option<RuntimeErrorView>,
    ) {
        if !self.is_named(id, generation) {
            self.refusing(stale())
        } else if self.status != GoalStatus::Active {
            self.refusing(conflict_error("only an active goal can be paused"@))
        } else {
            (GoalStateView {
                status: GoalStatus::Paused,
                stopped_reason: Some(plain_reason("user_paused"@)),
                ..self
            }).committing(now)
        }
    }

    /// The state and the error after a resume.
    pub open spec fn resuming(self, id: Seq<char>, generation: u64, now: Timestamp) -> (
        GoalStateView,
        Option<RuntimeErrorView>,
    ) {
        if !self.is_named(id, generation) {
            self.refusing(stale())
        } else if self.status == GoalStatus::Active || self.status == GoalStatus::Complete {
            self.refusing(conflict_error("goal status cannot be resumed"@))
        } else if self.token_budget is Some && self.usage.provenance
            == GoalUsageProvenance::Unknown {
            self.refusing(
                conflict_error("budgeted goal cannot resume without trustworthy accounting"@),
            )
        } else if self.budget_is_spent() {
            self.refusing(
                conflict_error("goal requires a raised or removed budget before resume"@),
            )
        } else {
            (GoalStateView {
                status: GoalStatus::Active,
                stopped_reason: None,
                ..self
            }).committing(now)
        }
    }

    /// The state and the error after a model's update.
    pub open spec fn updating(
        self,
        id: Seq<char>,
        generation: u64,
        status: GoalStatus,
        reason: Option<GoalStoppedReasonView>,
        now: Timestamp,
    ) -> (GoalStateView, Option<RuntimeErrorView>) {
        if !self.is_named(id, generation) {
            self.refusing(stale())
        } else if self.status != GoalStatus::Active {
            self.refusing(conflict_error("only an active goal accepts a model update"@))
        } else {
            match status {
                GoalStatus::Complete => (GoalStateView {
                    status: GoalStatus::Complete,
                    stopped_reason: None,
                    ..self
                }).committing(now),
                GoalStatus::Blocked => match reason {
                    None => self.refusing(
                        tool_error("blocked goal update requires a bounded reason"@),
                    ),
                    Some(given) => match given.fault() {
                        Some(e) => self.refusing(e),
                        None => (GoalStateView {
                            status: GoalStatus::Blocked,
                            stopped_reason: Some(given),
                            ..self
                        }).committing(now),
                    },
                },
                _ => self.refusing(
                    tool_error("model goal update may set only complete or blocked"@),
                ),
            }
        }
    }

    /// The state and the error after a stop by the runtime: a goal that is not
    /// active is left alone.
    pub open spec fn stopping(
        self,
        status: GoalStatus,
        reason: GoalStoppedReasonView,
        now: Timestamp,
    ) -> (GoalStateView, Option<RuntimeErrorView>) {
        if self.status != GoalStatus::Active {
            (self, None)
        } else if status != GoalStatus::Blocked && status != GoalStatus::UsageLimited && status
            != GoalStatus::BudgetLimited {
            self.refusing(plain_error(ErrorKind::Internal, "invalid runtime goal stop status"@))
        } else {
            (GoalStateView { status, stopped_reason: Some(reason), ..self }).committing(now)
        }
    }
}

/// The error for a request that does not name the current state.
pub open spec fn stale() -> RuntimeErrorView {
    conflict_error("stale goal identity or generation"@)
}

/// A stopped reason without detail.
pub open spec fn plain_reason(code: Seq<char>) -> GoalStoppedReasonView {
    GoalStoppedReasonView { code, detail: None }
}

/// A first goal, active, at an accounting boundary.
pub open spec fn first_goal(
    id: Seq<char>,
    objective: Seq<char>,
    token_budget: Option<u64>,
    now: Timestamp,
    usage_cursor: usize,
    created_in_turn: Option<Seq<char>>,
) -> GoalStateView {
    GoalStateView {
        schema_version: GOAL_STATE_SCHEMA_VERSION,
        id,
        generation: 1,
        objective,
        status: GoalStatus::Active,
        token_budget,
        usage: no_usage(),
        created_at: now,
        updated_at: now,
        stopped_reason: None,
        accounting: GoalAccountingStateView {
            usage_cursor,
            created_in_turn,
            last_accounted_turn: None,
            transitioned_in_turn: None,
            provider_evidence_in_turn: None,
        },
    }
}

fn spent(token_budget: Option<u64>, charged_tokens: Option<u64>) -> (r: bool)
    ensures
        r == (token_budget is Some && charged_tokens is Some && charged_tokens->Some_0
            >= token_budget->Some_0),
{
    match (token_budget, charged_tokens) {
        (Some(budget), Some(used)) => used >= budget,
        _ => false,
    }
}

impl GoalState {
    /// Creates an active first goal at an exact accounting boundary.
    pub fn new(
        id: GoalId,
        objective: &str,
        token_budget: Option<u64>,
        now: Timestamp,
        usage_cursor: usize,
        created_in_turn: Option<TurnId>,
    ) -> (r: Result<GoalState, RuntimeError>)
        ensures
            ({
                let goal = first_goal(
                    id@,
                    objective@,
                    token_budget,
                    now,
                    usage_cursor,
                    created_in_turn.deep_view(),
                );
                match r {
                    Ok(state) => goal.fault() is None && state@ == goal,
                    Err(e) => goal.fault() == Some(e@),
                }
            }),
    {
        let state = GoalState {
            schema_version: GOAL_STATE_SCHEMA_VERSION,
            id,
            generation: 1,
            objective: objective.to_owned(),
            status: GoalStatus::Active,
            token_budget,
            usage: GoalTokenUsage::default(),
            created_at: now,
            updated_at: now,
            stopped_reason: None,
            accounting: GoalAccountingState {
                usage_cursor,
                created_in_turn,
                last_accounted_turn: None,
                transitioned_in_turn: None,
                provider_evidence_in_turn: None,
            },
        };
        match state.validate() {
            Ok(()) => Ok(state),
            Err(e) => Err(e),
        }
    }

    /// Validates schema, bounds, lifecycle, and accounting invariants.
    pub fn validate(&self) -> (r: Result<(), RuntimeError>)
        ensures
            outcome_view(r) == verdict(self@.fault()),
    {
        if self.schema_version != GOAL_STATE_SCHEMA_VERSION {
            let mut message = "goal state schema ".to_owned();
            message.append(decimal_text(self.schema_version as u64).as_str());
            message.append(" is incompatible with ");
            message.append(decimal_text(GOAL_STATE_SCHEMA_VERSION as u64).as_str());
            return Err(RuntimeError::conflict(message.as_str()));
        }
        if is_blank(self.objective.as_str()) || self.objective.as_str().unicode_len()
            > MAX_GOAL_OBJECTIVE_CHARS {
            return Err(RuntimeError::tool("goal objective must contain 1..=4096 characters"));
        }
        if let Some(budget) = self.token_budget {
            if budget == 0 {
                return Err(RuntimeError::tool("goal token budget must be positive"));
            }
        }
        if self.generation == 0 {
            return Err(RuntimeError::conflict("goal generation must start at one"));
        }
        if let Some(reason) = &self.stopped_reason {
            if let Err(e) = reason.validate() {
                return Err(e);
            }
        }
        if self.status == GoalStatus::Active && self.stopped_reason.is_some() {
            return Err(RuntimeError::conflict("active goal cannot retain a stopped reason"));
        }
        if self.status == GoalStatus::Complete && self.stopped_reason.is_some() {
            return Err(RuntimeError::conflict("complete goal cannot retain a stopped reason"));
        }
        Ok(())
    }

    /// Returns a bounded consumer and event projection without accounting
    /// cursors.
    pub fn projection(&self) -> (r: GoalProjection)
        ensures
            r@ == self@.projection(),
    {
        GoalProjection {
            id: self.id.copied(),
            generation: self.generation,
            objective: self.objective.copied(),
            status: self.status,
            token_budget: self.token_budget,
            usage: self.usage.copied(),
            created_at: self.created_at,
            updated_at: self.updated_at,
            stopped_reason: self.stopped_reason.copied(),
        }
    }

    /// Remaining reported budget, when both budget and usage are trustworthy.
    pub fn remaining_budget(&self) -> (r: Option<u64>)
        ensures
            r == self@.remaining(),
    {
        match (self.token_budget, self.usage.charged_tokens, self.usage.provenance) {
            (Some(budget), Some(used), GoalUsageProvenance::ProviderReported) => Some(
                budget.saturating_sub(used),
            ),
            _ => None,
        }
    }

    /// Validates an optimistic-concurrency pair of identity and generation.
    pub fn validate_identity(&self, id: &GoalId, generation: u64) -> (r: Result<(), RuntimeError>)
        ensures
            outcome_view(r) == (if self@.is_named(id@, generation) {
                Ok(())
            } else {
                Err(stale())
            }),
    {
        if !self.id.same(id) || self.generation != generation {
            return Err(RuntimeError::conflict("stale goal identity or generation"));
        }
        Ok(())
    }

    fn advance(&mut self, now: Timestamp)
        ensures
            final(self)@ == old(self)@.advanced(now),
    {
        self.generation = self.generation.saturating_add(1);
        self.updated_at = now;
    }

    /// Edits the objective without changing the status. An objective out of
    /// bounds is reported, and is in the state all the same.
    pub fn edit(
        &mut self,
        id: &GoalId,
        generation: u64,
        objective: String,
        now: Timestamp,
    ) -> (r: Result<(), RuntimeError>)
        ensures
            (final(self)@, outcome_view(r)) == ({
                let (state, fault) = old(self)@.editing(id@, generation, objective@, now);
                (state, verdict(fault))
            }),
    {
        if let Err(e) = self.validate_identity(id, generation) {
            return Err(e);
        }
        if self.status.is_complete() {
            return Err(RuntimeError::conflict("complete goal cannot be edited"));
        }
        self.objective = objective;
        self.advance(now);
        self.validate()
    }

    /// Changes the optional observed token budget while preserving status.
    pub fn set_budget(
        &mut self,
        id: &GoalId,
        generation: u64,
        token_budget: Option<u64>,
        now: Timestamp,
    ) -> (r: Result<(), RuntimeError>)
        ensures
            (final(self)@, outcome_view(r)) == ({
                let (state, fault) = old(self)@.budgeting(id@, generation, token_budget, now);
                (state, verdict(fault))
            }),
    {
        if let Err(e) = self.validate_identity(id, generation) {
            return Err(e);
        }
        if self.status.is_complete() {
            return Err(RuntimeError::conflict("complete goal budget cannot be changed"));
        }
        if let Some(budget) = token_budget {
            if budget == 0 {
                return Err(RuntimeError::tool("goal token budget must be positive"));
            }
        }
        self.token_budget = token_budget;
        self.advance(now);
        self.validate()
    }

    /// Pauses an active goal.
    pub fn pause(&mut self, id: &GoalId, generation: u64, now: Timestamp) -> (r: Result<
        (),
        RuntimeError,
    >)
        ensures
            (final(self)@, outcome_view(r)) == ({
                let (state, fault) = old(self)@.pausing(id@, generation, now);
                (state, verdict(fault))
            }),
    {
        if let Err(e) = self.validate_identity(id, generation) {
            return Err(e);
        }
        if self.status != GoalStatus::Active {
            return Err(RuntimeError::conflict("only an active goal can be paused"));
        }
        self.status = GoalStatus::Paused;
        self.stopped_reason = Some(
            GoalStoppedReason { code: "user_paused".to_owned(), detail: None },
        );
        self.advance(now);
        self.validate()
    }

    /// Resumes a valid stopped goal.
    pub fn resume(&mut self, id: &GoalId, generation: u64, now: Timestamp) -> (r: Result<
        (),
        RuntimeError,
    >)
        ensures
            (final(self)@, outcome_view(r)) == ({
                let (state, fault) = old(self)@.resuming(id@, generation, now);
                (state, verdict(fault))
            }),
    {
        if let Err(e) = self.validate_identity(id, generation) {
            return Err(e);
        }
        if self.status == GoalStatus::Active || self.status == GoalStatus::Complete {
            return Err(RuntimeError::conflict("goal status cannot be resumed"));
        }
        if self.token_budget.is_some() && self.usage.provenance == GoalUsageProvenance::Unknown {
            return Err(
                RuntimeError::conflict(
                    "budgeted goal cannot resume without trustworthy accounting",
                ),
            );
        }
        if spent(self.token_budget, self.usage.charged_tokens) {
            return Err(
                RuntimeError::conflict("goal requires a raised or removed budget before resume"),
            );
        }
        self.status = GoalStatus::Active;
        self.stopped_reason = None;
        self.advance(now);
        self.validate()
    }

    /// Applies a model-owned complete or blocked transition.
    pub fn model_update(
        &mut self,
        id: &GoalId,
        generation: u64,
        status: GoalStatus,
        reason: Option<GoalStoppedReason>,
        now: Timestamp,
    ) -> (r: Result<(), RuntimeError>)
        ensures
            (final(self)@, outcome_view(r)) == ({
                let (state, fault) = old(self)@.updating(
                    id@,
                    generation,
                    status,
                    reason.deep_view(),
                    now,
                );
                (state, verdict(fault))
            }),
    {
        if let Err(e) = self.validate_identity(id, generation) {
            return Err(e);
        }
        if self.status != GoalStatus::Active {
            return Err(RuntimeError::conflict("only an active goal accepts a model update"));
        }
        match status {
            GoalStatus::Complete => {
                self.status = GoalStatus::Complete;
                self.stopped_reason = None;
            },
            GoalStatus::Blocked => {
                let given = match reason {
                    Some(given) => given,
                    None => {
                        return Err(
                            RuntimeError::tool("blocked goal update requires a bounded reason"),
                        );
                    },
                };
                if let Err(e) = given.validate() {
                    return Err(e);
                }
                self.status = GoalStatus::Blocked;
                self.stopped_reason = Some(given);
            },
            _ => {
                return Err(
                    RuntimeError::tool("model goal update may set only complete or blocked"),
                );
            },
        }
        self.advance(now);
        self.validate()
    }

    /// Stops an active goal under a runtime-owned status and reason.
    pub fn stop(
        &mut self,
        status: GoalStatus,
        reason: GoalStoppedReason,
        now: Timestamp,
    ) -> (r: Result<(), RuntimeError>)
        ensures
            (final(self)@, outcome_view(r)) == ({
                let (state, fault) = old(self)@.stopping(status, reason@, now);
                (state, verdict(fault))
            }),
    {
        if self.status != GoalStatus::Active {
            return Ok(());
        }
        if status != GoalStatus::Blocked && status != GoalStatus::UsageLimited && status
            != GoalStatus::BudgetLimited {
            return Err(RuntimeError::internal("invalid runtime goal stop status"));
        }
        self.status = status;
        self.stopped_reason = Some(reason);
        self.advance(now);
        self.validate()
    }
}

/// Typed host-owned goal mutation request.
#[derive(Debug, PartialEq, Eq)]
pub enum GoalCommand {
    /// Create the first goal or replace a complete goal.
    Create {
        /// Bounded objective.
        objective: String,
        /// Optional positive observed token budget.
        token_budget: Option<u64>,
    },
    /// Edit an unfinished goal objective.
    Edit {
        /// Expected goal identity.
        id: GoalId,
        /// Expected state generation.
        generation: u64,
        /// Replacement bounded objective.
        objective: String,
    },
    /// Set or remove an unfinished goal budget.
    SetBudget {
        /// Expected goal identity.
        id: GoalId,
        /// Expected state generation.
        generation: u64,
        /// Positive budget or `None` to remove it.
        token_budget: Option<u64>,
    },
    /// Pause an active goal.
    Pause {
        /// Expected goal identity.
        id: GoalId,
        /// Expected state generation.
        generation: u64,
    },
    /// Resume a stopped goal.
    Resume {
        /// Expected goal identity.
        id: GoalId,
        /// Expected state generation.
        generation: u64,
    },
    /// Clear the current goal without implying completion.
    Clear {
        /// Expected goal identity.
        id: GoalId,
        /// Expected state generation.
        generation: u64,
    },
}

/// What a [`GoalCommand`] holds.
pub enum GoalCommandView {
    Create { objective: Seq<char>, token_budget: Option<u64> },
    Edit { id: Seq<char>, generation: u64, objective: Seq<char> },
    SetBudget { id: Seq<char>, generation: u64, token_budget: Option<u64> },
    Pause { id: Seq<char>, generation: u64 },
    Resume { id: Seq<char>, generation: u64 },
    Clear { id: Seq<char>, generation: u64 },
}

impl DeepView for GoalCommand {
    type V = GoalCommandView;

    open spec fn deep_view(&self) -> GoalCommandView {
        match self {
            GoalCommand::Create { objective, token_budget } => GoalCommandView::Create {
                objective: objective.deep_view(),
                token_budget: token_budget.deep_view(),
            },
            GoalCommand::Edit { id, generation, objective } => GoalCommandView::Edit {
                id: id.deep_view(),
                generation: generation.deep_view(),
                objective: objective.deep_view(),
            },
            GoalCommand::SetBudget { id, generation, token_budget } => GoalCommandView::SetBudget {
                id: id.deep_view(),
                generation: generation.deep_view(),
                token_budget: token_budget.deep_view(),
            },
            GoalCommand::Pause { id, generation } => GoalCommandView::Pause {
                id: id.deep_view(),
                generation: generation.deep_view(),
            },
            GoalCommand::Resume { id, generation } => GoalCommandView::Resume {
                id: id.deep_view(),
                generation: generation.deep_view(),
            },
            GoalCommand::Clear { id, generation } => GoalCommandView::Clear {
                id: id.deep_view(),
                generation: generation.deep_view(),
            },
        }
    }
}

impl View for GoalCommand {
    type V = GoalCommandView;

    open spec fn view(&self) -> GoalCommandView {
        self.deep_view()
    }
}

impl Record for GoalCommand {
    fn same(&self, other: &Self) -> (r: bool) {
        match (self, other) {
            (
                GoalCommand::Create { objective, token_budget },
                GoalCommand::Create { objective: objective_b, token_budget: token_budget_b },
            ) => objective.same(objective_b) && token_budget.same(token_budget_b),
            (
                GoalCommand::Edit { id, generation, objective },
                GoalCommand::Edit { id: id_b, generation: generation_b, objective: objective_b },
            ) => id.same(id_b) && generation.same(generation_b) && objective.same(objective_b),
            (
                GoalCommand::SetBudget { id, generation, token_budget },
                GoalCommand::SetBudget {
                    id: id_b,
                    generation: generation_b,
                    token_budget: token_budget_b,
                },
            ) => id.same(id_b)
                && generation.same(generation_b)
                && token_budget.same(token_budget_b),
            (
                GoalCommand::Pause { id, generation },
                GoalCommand::Pause { id: id_b, generation: generation_b },
            ) => id.same(id_b) && generation.same(generation_b),
            (
                GoalCommand::Resume { id, generation },
                GoalCommand::Resume { id: id_b, generation: generation_b },
            ) => id.same(id_b) && generation.same(generation_b),
            (
                GoalCommand::Clear { id, generation },
                GoalCommand::Clear { id: id_b, generation: generation_b },
            ) => id.same(id_b) && generation.same(generation_b),
            _ => false,
        }
    }

    fn copied(&self) -> (r: Self) {
        match self {
            GoalCommand::Create { objective, token_budget } => GoalCommand::Create {
                objective: objective.copied(),
                token_budget: token_budget.copied(),
            },
            GoalCommand::Edit { id, generation, objective } => GoalCommand::Edit {
                id: id.copied(),
                generation: generation.copied(),
                objective: objective.copied(),
            },
            GoalCommand::SetBudget { id, generation, token_budget } => GoalCommand::SetBudget {
                id: id.copied(),
                generation: generation.copied(),
                token_budget: token_budget.copied(),
            },
            GoalCommand::Pause { id, generation } => GoalCommand::Pause {
                id: id.copied(),
                generation: generation.copied(),
            },
            GoalCommand::Resume { id, generation } => GoalCommand::Resume {
                id: id.copied(),
                generation: generation.copied(),
            },
            GoalCommand::Clear { id, generation } => GoalCommand::Clear {
                id: id.copied(),
                generation: generation.copied(),
            },
        }
    }
}

impl Clone for GoalCommand {
    fn clone(&self) -> (r: Self)
        ensures
            r@ == self@,
    {
        self.copied()
    }
}

/// Result of one serialized host-owned goal command.
#[derive(Debug, PartialEq, Eq)]
pub struct GoalCommandResult {
    /// Current bounded projection, or `None` after a successful clear.
    pub goal: Option<GoalProjection>,
}

/// What a [`GoalCommandResult`] holds.
pub struct GoalCommandResultView {
    pub goal: Option<GoalProjectionView>,
}

impl DeepView for GoalCommandResult {
    type V = GoalCommandResultView;

    open spec fn deep_view(&self) -> GoalCommandResultView {
        GoalCommandResultView {
            goal: self.goal.deep_view(),
        }
    }
}

impl View for GoalCommandResult {
    type V = GoalCommandResultView;

    open spec fn view(&self) -> GoalCommandResultView {
        self.deep_view()
    }
}

impl Record for GoalCommandResult {
    fn same(&self, other: &Self) -> (r: bool) {
        self.goal.same(&other.goal)
    }

    fn copied(&self) -> (r: Self) {
        GoalCommandResult {
            goal: self.goal.copied(),
        }
    }
}

impl Clone for GoalCommandResult {
    fn clone(&self) -> (r: Self)
        ensures
            r@ == self@,
    {
        self.copied()
    }
}

impl GoalCommandResult {
    /// Builds a result from the current canonical state.
    pub fn from_state(state: Option<&GoalState>) -> (r: GoalCommandResult)
        ensures
            r@.goal == (match state {
                Some(state) => Some(state@.projection()),
                None => None,
            }),
    {
        GoalCommandResult {
            goal: match state {
                Some(state) => Some(state.projection()),
                None => None,
            },
        }
    }
}

/// A change that can be asked of a goal.
#[allow(inconsistent_fields)]
pub enum GoalChange {
    Edit { id: Seq<char>, generation: u64, objective: Seq<char> },
    SetBudget { id: Seq<char>, generation: u64, token_budget: Option<u64> },
    Pause { id: Seq<char>, generation: u64 },
    Resume { id: Seq<char>, generation: u64 },
    ModelUpdate {
        id: Seq<char>,
        generation: u64,
        status: GoalStatus,
        reason: Option<GoalStoppedReasonView>,
    },
    Stop { status: GoalStatus, reason: GoalStoppedReasonView },
}

impl GoalStateView {
    /// The state and the error after a change.
    pub open spec fn changed(self, change: GoalChange, now: Timestamp) -> (
        GoalStateView,
        Option<RuntimeErrorView>,
    ) {
        match change {
            GoalChange::Edit { id, generation, objective } => self.editing(
                id,
                generation,
                objective,
                now,
            ),
            GoalChange::SetBudget { id, generation, token_budget } => self.budgeting(
                id,
                generation,
                token_budget,
                now,
            ),
            GoalChange::Pause { id, generation } => self.pausing(id, generation, now),
            GoalChange::Resume { id, generation } => self.resuming(id, generation, now),
            GoalChange::ModelUpdate { id, generation, status, reason } => self.updating(
                id,
                generation,
                status,
                reason,
                now,
            ),
            GoalChange::Stop { status, reason } => self.stopping(status, reason, now),
        }
    }
}

/// A complete goal is final: no change is applied to it.
pub proof fn a_complete_goal_is_final(state: GoalStateView, change: GoalChange, now: Timestamp)
    requires
        state.status == GoalStatus::Complete,
    ensures
        state.changed(change, now).0 == state,
        !(change is Stop) ==> state.changed(change, now).1 is Some,
{
}

/// A change leaves the goal's identity, its creation time, and its usage and
/// accounting alone.
pub proof fn a_change_keeps_identity_and_usage(
    state: GoalStateView,
    change: GoalChange,
    now: Timestamp,
)
    ensures
        ({
            let after = state.changed(change, now).0;
            &&& after.schema_version == state.schema_version
            &&& after.id == state.id
            &&& after.created_at == state.created_at
            &&& after.usage == state.usage
            &&& after.accounting == state.accounting
        }),
{
}

/// A change is either not applied at all, or moves the goal on by one
/// generation. Only at the last generation there is does the count stay.
pub proof fn generations_go_up_by_one(state: GoalStateView, change: GoalChange, now: Timestamp)
    ensures
        ({
            let after = state.changed(change, now).0;
            ||| after == state
            ||| {
                &&& after.updated_at == now
                &&& after.generation == (if state.generation < u64::MAX {
                    state.generation + 1
                } else {
                    u64::MAX as int
                })
            }
        }),
{
}

/// A change that was refused before it was applied leaves the goal as it was:
/// whatever else it says, a request that names another identity or generation
/// is refused.
pub proof fn a_stale_change_is_refused(state: GoalStateView, change: GoalChange, now: Timestamp)
    requires
        match change {
            GoalChange::Edit { id, generation, .. } => !state.is_named(id, generation),
            GoalChange::SetBudget { id, generation, .. } => !state.is_named(id, generation),
            GoalChange::Pause { id, generation } => !state.is_named(id, generation),
            GoalChange::Resume { id, generation } => !state.is_named(id, generation),
            GoalChange::ModelUpdate { id, generation, .. } => !state.is_named(id, generation),
            GoalChange::Stop { .. } => false,
        },
    ensures
        state.changed(change, now) == (state, Some(stale())),
{
}

/// A request that was applied cannot be applied again: it names a generation
/// that has passed.
pub proof fn a_change_applies_once(
    state: GoalStateView,
    change: GoalChange,
    now: Timestamp,
    later: Timestamp,
)
    requires
        !(change is Stop),
        state.generation < u64::MAX,
        state.changed(change, now).0 != state,
    ensures
        state.changed(change, now).0.changed(change, later) == (
            state.changed(change, now).0,
            Some(stale()),
        ),
{
}

/// What is accepted is valid: a change of a valid goal without an error gives
/// a valid goal.
pub proof fn an_accepted_change_gives_a_valid_goal(
    state: GoalStateView,
    change: GoalChange,
    now: Timestamp,
)
    requires
        state.fault() is None,
        state.changed(change, now).1 is None,
    ensures
        state.changed(change, now).0.fault() is None,
{
}

/// A model can only complete or block a goal, and only an active one.
pub proof fn a_model_only_completes_or_blocks(
    state: GoalStateView,
    id: Seq<char>,
    generation: u64,
    status: GoalStatus,
    reason: Option<GoalStoppedReasonView>,
    now: Timestamp,
)
    requires
        state.updating(id, generation, status, reason, now).1 is None,
    ensures
        state.status == GoalStatus::Active,
        status == GoalStatus::Complete || status == GoalStatus::Blocked,
        state.updating(id, generation, status, reason, now).0.status == status,
{
}

/// A goal that was resumed has budget left, as far as usage is known, and is
/// not budgeted on unknown usage.
pub proof fn a_resumed_goal_has_budget_left(
    state: GoalStateView,
    id: Seq<char>,
    generation: u64,
    now: Timestamp,
)
    requires
        state.resuming(id, generation, now).1 is None,
    ensures
        ({
            let after = state.resuming(id, generation, now).0;
            &&& after.status == GoalStatus::Active
            &&& !after.budget_is_spent()
            &&& after.token_budget is Some ==> after.usage.provenance
                == GoalUsageProvenance::ProviderReported
        }),
{
}

/// A change of the budget of a valid goal that is not complete succeeds for every
/// positive budget and for none at all, and changes nothing but the budget, the
/// generation, and the time: the status and the stopped reason stay.
pub proof fn a_budget_change_keeps_the_status(
    state: GoalStateView,
    token_budget: Option<u64>,
    now: Timestamp,
)
    requires
        state.fault() is None,
        state.status != GoalStatus::Complete,
        token_budget != Some(0u64),
    ensures
        state.budgeting(state.id, state.generation, token_budget, now) == (
            GoalStateView { token_budget, ..state.advanced(now) },
            None::<RuntimeErrorView>,
        ),
{
}

/// Pausing a valid active goal and resuming it gives the same goal, two
/// generations on, where its budget lets it run.
pub proof fn a_pause_can_be_taken_back(
    state: GoalStateView,
    paused_at: Timestamp,
    resumed_at: Timestamp,
)
    requires
        state.fault() is None,
        state.status == GoalStatus::Active,
        state.generation < u64::MAX - 1,
        !state.budget_is_spent(),
        state.token_budget is Some ==> state.usage.provenance
            == GoalUsageProvenance::ProviderReported,
    ensures
        ({
            let (paused, refused) = state.pausing(state.id, state.generation, paused_at);
            let (resumed, again) = paused.resuming(paused.id, paused.generation, resumed_at);
            &&& refused is None
            &&& again is None
            &&& resumed == (GoalStateView {
                generation: (state.generation + 2) as u64,
                updated_at: resumed_at,
                ..state
            })
        }),
{
    reveal_strlit("user_paused");
    assert(!is_white_space("user_paused"@[0]));
}

/// Whether the next generation of `before`, made at `now`, is `after`, whatever
/// else may have changed.
pub open spec fn is_next_generation(
    before: GoalStateView,
    after: GoalStateView,
    now: Timestamp,
) -> bool {
    &&& after.updated_at == now
    &&& before.generation < u64::MAX ==> after.generation == before.generation + 1
    &&& before.generation == u64::MAX ==> after.generation == u64::MAX
    &&& after.schema_version == before.schema_version
    &&& after.id == before.id
    &&& after.created_at == before.created_at
    &&& after.usage == before.usage
    &&& after.accounting == before.accounting
}

/// Whether a text has something to read in it and at most `bound` characters.
pub open spec fn is_readable(text: Seq<char>, bound: int) -> bool {
    &&& exists|i: int| 0 <= i < text.len() && !is_white_space(#[trigger] text[i])
    &&& text.len() <= bound
}

/// A goal is valid exactly when it is of the first schema, has a readable objective
/// of at most 4096 characters, no budget of zero, and a positive generation, and
/// has a stopped reason only while it is stopped: a readable code and a detail of
/// at most 1024 characters each.
pub proof fn a_goal_is_valid_exactly_when_bounded(state: GoalStateView)
    ensures
        state.fault() is None <==> {
            &&& state.schema_version == 1
            &&& is_readable(state.objective, 4096)
            &&& state.token_budget != Some(0u64)
            &&& state.generation >= 1
            &&& state.stopped_reason matches Some(reason) ==> {
                &&& state.status != GoalStatus::Active
                &&& state.status != GoalStatus::Complete
                &&& is_readable(reason.code, 1024)
                &&& reason.detail matches Some(detail) ==> detail.len() <= 1024
            }
        },
        state.fault() matches Some(e) ==> {
            &&& !e.retryable
            &&& e.kind == ErrorKind::Tool || e.kind == ErrorKind::Conflict
        },
{
}

/// An edit that is applied changes nothing but the objective, which becomes the
/// given one, the generation, and the time: status, stopped reason, and budget stay
/// as they were. One that is not applied changes nothing at all. An edit of a valid
/// goal succeeds exactly when it names the goal as it is, the goal is not complete,
/// and the objective is readable and bounded.
pub proof fn an_edit_changes_only_the_objective(
    state: GoalStateView,
    id: Seq<char>,
    generation: u64,
    objective: Seq<char>,
    now: Timestamp,
)
    ensures
        ({
            let (after, refused) = state.editing(id, generation, objective, now);
            let applies = state.id == id && state.generation == generation && state.status
                != GoalStatus::Complete;
            &&& applies ==> {
                &&& is_next_generation(state, after, now)
                &&& after.objective == objective
                &&& after.status == state.status
                &&& after.stopped_reason == state.stopped_reason
                &&& after.token_budget == state.token_budget
            }
            &&& !applies ==> after == state && (refused matches Some(e) && e.kind
                == ErrorKind::Conflict)
            &&& state.fault() is None ==> (refused is None <==> applies && is_readable(
                objective,
                4096,
            ))
        }),
{
}

/// A budget that is set becomes the goal's budget, and nothing else changes but the
/// generation and the time. A refused one changes nothing. Setting the budget of a
/// valid goal succeeds exactly when the goal is named as it is and not complete and
/// the budget is not zero.
pub proof fn a_budget_change_changes_only_the_budget(
    state: GoalStateView,
    id: Seq<char>,
    generation: u64,
    token_budget: Option<u64>,
    now: Timestamp,
)
    ensures
        ({
            let (after, refused) = state.budgeting(id, generation, token_budget, now);
            let applies = state.id == id && state.generation == generation && state.status
                != GoalStatus::Complete && token_budget != Some(0u64);
            &&& applies ==> {
                &&& is_next_generation(state, after, now)
                &&& after.token_budget == token_budget
                &&& after.objective == state.objective
                &&& after.status == state.status
                &&& after.stopped_reason == state.stopped_reason
            }
            &&& !applies ==> after == state && refused is Some
            &&& state.fault() is None ==> (refused is None <==> applies)
        }),
{
}

/// A pause stops an active goal for the user, who is named as the reason, and
/// changes nothing else but the generation and the time. It succeeds on a valid goal
/// exactly when the goal is active and named as it is; refused, it changes nothing.
pub proof fn a_pause_stops_an_active_goal(
    state: GoalStateView,
    id: Seq<char>,
    generation: u64,
    now: Timestamp,
)
    ensures
        ({
            let (after, refused) = state.pausing(id, generation, now);
            let applies = state.id == id && state.generation == generation && state.status
                == GoalStatus::Active;
            &&& applies ==> {
                &&& is_next_generation(state, after, now)
                &&& after.status == GoalStatus::Paused
                &&& after.stopped_reason == Some(
                    GoalStoppedReasonView { code: "user_paused"@, detail: None },
                )
                &&& after.objective == state.objective
                &&& after.token_budget == state.token_budget
            }
            &&& !applies ==> after == state && refused is Some
            &&& state.fault() is None ==> (refused is None <==> applies)
        }),
{
    reveal_strlit("user_paused");
    assert("user_paused"@.len() == 11);
    assert(!is_white_space("user_paused"@[0]));
}

/// A resume sets a stopped goal running again: it is active, without a stopped
/// reason, and otherwise as it was but for the generation and the time. It succeeds
/// on a valid goal exactly when the goal is named as it is, is stopped, and has no
/// budget or one that trustworthy usage has not reached; refused, it changes nothing.
pub proof fn a_resume_sets_a_stopped_goal_running(
    state: GoalStateView,
    id: Seq<char>,
    generation: u64,
    now: Timestamp,
)
    ensures
        ({
            let (after, refused) = state.resuming(id, generation, now);
            let stopped = state.status == GoalStatus::Paused || state.status == GoalStatus::Blocked
                || state.status == GoalStatus::UsageLimited || state.status
                == GoalStatus::BudgetLimited;
            let funded = match state.token_budget {
                None => true,
                Some(budget) => state.usage.provenance == GoalUsageProvenance::ProviderReported && (
                state.usage.charged_tokens matches Some(used) ==> used < budget),
            };
            let applies = state.id == id && state.generation == generation && stopped && funded;
            &&& applies ==> {
                &&& is_next_generation(state, after, now)
                &&& after.status == GoalStatus::Active
                &&& after.stopped_reason is None
                &&& after.objective == state.objective
                &&& after.token_budget == state.token_budget
            }
            &&& !applies ==> after == state && (refused matches Some(e) && e.kind
                == ErrorKind::Conflict)
            &&& state.fault() is None ==> (refused is None <==> applies)
        }),
{
}

/// A model's update completes an active goal, or blocks it for the given reason, and
/// changes nothing else but the generation and the time. It succeeds on a valid goal
/// exactly when the goal is active and named as it is, and the update is to complete
/// it or to block it for a bounded reason; refused, it changes nothing.
pub proof fn a_model_update_completes_or_blocks_as_asked(
    state: GoalStateView,
    id: Seq<char>,
    generation: u64,
    status: GoalStatus,
    reason: Option<GoalStoppedReasonView>,
    now: Timestamp,
)
    ensures
        ({
            let (after, refused) = state.updating(id, generation, status, reason, now);
            let bounded = reason matches Some(given) && {
                &&& is_readable(given.code, 1024)
                &&& given.detail matches Some(detail) ==> detail.len() <= 1024
            };
            let applies = state.id == id && state.generation == generation && state.status
                == GoalStatus::Active && (status == GoalStatus::Complete || (status
                == GoalStatus::Blocked && bounded));
            &&& applies ==> {
                &&& is_next_generation(state, after, now)
                &&& after.status == status
                &&& status == GoalStatus::Complete ==> after.stopped_reason is None
                &&& status == GoalStatus::Blocked ==> after.stopped_reason == reason
                &&& after.objective == state.objective
                &&& after.token_budget == state.token_budget
            }
            &&& !applies ==> after == state && refused is Some
            &&& state.fault() is None ==> (refused is None <==> applies)
        }),
{
}

/// The runtime stops an active goal under the given status and reason, and changes
/// nothing else but the generation and the time. A goal that is not active is left
/// alone, which is no failure. Only the three ways in which the runtime may stop a
/// goal are accepted.
pub proof fn a_stop_stops_an_active_goal_as_asked(
    state: GoalStateView,
    status: GoalStatus,
    reason: GoalStoppedReasonView,
    now: Timestamp,
)
    ensures
        ({
            let (after, refused) = state.stopping(status, reason, now);
            let allowed = status == GoalStatus::Blocked || status == GoalStatus::UsageLimited
                || status == GoalStatus::BudgetLimited;
            let bounded = {
                &&& is_readable(reason.code, 1024)
                &&& reason.detail matches Some(detail) ==> detail.len() <= 1024
            };
            &&& state.status != GoalStatus::Active ==> after == state && refused is None
            &&& state.status == GoalStatus::Active && !allowed ==> after == state && refused is Some
            &&& state.status == GoalStatus::Active && allowed ==> {
                &&& is_next_generation(state, after, now)
                &&& after.status == status
                &&& after.stopped_reason == Some(reason)
                &&& after.objective == state.objective
                &&& after.token_budget == state.token_budget
            }
            &&& state.fault() is None && state.status == GoalStatus::Active ==> (
            refused is None <==> allowed && bounded)
        }),
{
}

/// A new goal is what it was asked to be: active, of the first generation, without
/// usage or a stopped reason, and accounted from the given boundary on. It is valid
/// exactly when its objective is readable and bounded and its budget is not zero.
pub proof fn a_new_goal_is_active_and_unused(
    id: Seq<char>,
    objective: Seq<char>,
    token_budget: Option<u64>,
    now: Timestamp,
    usage_cursor: usize,
    created_in_turn: Option<Seq<char>>,
)
    ensures
        ({
            let goal = first_goal(
                id,
                objective,
                token_budget,
                now,
                usage_cursor,
                created_in_turn,
            );
            &&& goal.id == id
            &&& goal.objective == objective
            &&& goal.token_budget == token_budget
            &&& goal.generation == 1
            &&& goal.status == GoalStatus::Active
            &&& goal.stopped_reason is None
            &&& goal.created_at == now
            &&& goal.updated_at == now
            &&& goal.usage.charged_tokens == Some(0u64)
            &&& goal.usage.provenance == GoalUsageProvenance::ProviderReported
            &&& goal.usage.active_elapsed_ms == 0
            &&& goal.accounting.usage_cursor == usage_cursor
            &&& goal.accounting.created_in_turn == created_in_turn
            &&& goal.accounting.last_accounted_turn is None
            &&& goal.accounting.transitioned_in_turn is None
            &&& goal.accounting.provider_evidence_in_turn is None
            &&& goal.fault() is None <==> is_readable(objective, 4096) && token_budget != Some(0u64)
            &&& goal.remaining() == token_budget
        }),
{
}

/// What remains of a budget is what is not used of it: together they make up the
/// budget, until it is used up. It is known exactly when there is a budget and
/// trustworthy usage.
pub proof fn what_remains_and_what_is_used_make_up_the_budget(state: GoalStateView)
    ensures
        state.remaining() is Some <==> {
            &&& state.token_budget is Some
            &&& state.usage.charged_tokens is Some
            &&& state.usage.provenance == GoalUsageProvenance::ProviderReported
        },
        state.remaining() matches Some(left) ==> {
            let (budget, used) = (state.token_budget->0, state.usage.charged_tokens->0);
            &&& used <= budget ==> left + used == budget
            &&& used > budget ==> left == 0
        },
{
}

/// A projection shows a goal as it is, but for the schema and the accounting.
pub proof fn a_projection_shows_the_goal(state: GoalStateView)
    ensures
        ({
            let shown = state.projection();
            &&& shown.id == state.id
            &&& shown.generation == state.generation
            &&& shown.objective == state.objective
            &&& shown.status == state.status
            &&& shown.token_budget == state.token_budget
            &&& shown.usage == state.usage
            &&& shown.created_at == state.created_at
            &&& shown.updated_at == state.updated_at
            &&& shown.stopped_reason == state.stopped_reason
        }),
{
}

/// A goal status has a stable name of its own.
pub proof fn goal_statuses_have_stable_names(x: GoalStatus)
    ensures
        x == GoalStatus::Active ==> x.slug() == "active"@,
        x == GoalStatus::Paused ==> x.slug() == "paused"@,
        x == GoalStatus::Blocked ==> x.slug() == "blocked"@,
        x == GoalStatus::UsageLimited ==> x.slug() == "usage_limited"@,
        x == GoalStatus::BudgetLimited ==> x.slug() == "budget_limited"@,
        x == GoalStatus::Complete ==> x.slug() == "complete"@,
{
}

/// A provenance of usage has a stable name of its own.
pub proof fn usage_provenances_have_stable_names(x: GoalUsageProvenance)
    ensures
        x == GoalUsageProvenance::ProviderReported ==> x.slug() == "provider_reported"@,
        x == GoalUsageProvenance::Unknown ==> x.slug() == "unknown"@,
{
}

/// What a call was refused with, if it was.
pub open spec fn refusal(r: Result<(), RuntimeError>) -> Option<RuntimeErrorView> {
    match r {
        Ok(()) => None,
        Err(e) => Some(e@),
    }
}

/// Editing a goal changes its objective, which becomes the given one, its generation,
/// and its time, and nothing else; and is refused, with nothing changed, where the goal
/// is another, stale, or complete.
pub proof fn editing_changes_only_the_objective(
    goal: &mut GoalState,
    id: GoalId,
    generation: u64,
    objective: String,
    now: Timestamp,
    r: Result<(), RuntimeError>,
)
    requires
        call_ensures(GoalState::edit, (goal, &id, generation, objective, now), r),
    ensures
        ({
            let (state, after) = (old(goal)@, final(goal)@);
            let refused = refusal(r);
            let applies = state.id == id@ && state.generation == generation && state.status
                != GoalStatus::Complete;
            &&& applies ==> {
                &&& is_next_generation(state, after, now)
                &&& after.objective == objective@
                &&& after.status == state.status
                &&& after.stopped_reason == state.stopped_reason
                &&& after.token_budget == state.token_budget
            }
            &&& !applies ==> after == state && (refused matches Some(e) && e.kind
                == ErrorKind::Conflict)
            &&& state.fault() is None ==> (refused is None <==> applies && is_readable(
                objective@,
                4096,
            ))
        }),
{
    an_edit_changes_only_the_objective(old(goal)@, id@, generation, objective@, now);
}

/// Setting a budget changes the budget, the generation, and the time, and nothing else.
pub proof fn setting_a_budget_changes_only_the_budget(
    goal: &mut GoalState,
    id: GoalId,
    generation: u64,
    token_budget: Option<u64>,
    now: Timestamp,
    r: Result<(), RuntimeError>,
)
    requires
        call_ensures(GoalState::set_budget, (goal, &id, generation, token_budget, now), r),
    ensures
        ({
            let (state, after) = (old(goal)@, final(goal)@);
            let refused = refusal(r);
            let applies = state.id == id@ && state.generation == generation && state.status
                != GoalStatus::Complete && token_budget != Some(0u64);
            &&& applies ==> {
                &&& is_next_generation(state, after, now)
                &&& after.token_budget == token_budget
                &&& after.objective == state.objective
                &&& after.status == state.status
                &&& after.stopped_reason == state.stopped_reason
            }
            &&& !applies ==> after == state && refused is Some
            &&& state.fault() is None ==> (refused is None <==> applies)
        }),
{
    a_budget_change_changes_only_the_budget(old(goal)@, id@, generation, token_budget, now);
}

/// Pausing stops an active goal, and no other.
pub proof fn pausing_stops_an_active_goal(
    goal: &mut GoalState,
    id: GoalId,
    generation: u64,
    now: Timestamp,
    r: Result<(), RuntimeError>,
)
    requires
        call_ensures(GoalState::pause, (goal, &id, generation, now), r),
    ensures
        ({
            let (state, after) = (old(goal)@, final(goal)@);
            let refused = refusal(r);
            let applies = state.id == id@ && state.generation == generation && state.status
                == GoalStatus::Active;
            &&& applies ==> {
                &&& is_next_generation(state, after, now)
                &&& after.status == GoalStatus::Paused
                &&& after.stopped_reason == Some(
                    GoalStoppedReasonView { code: "user_paused"@, detail: None },
                )
                &&& after.objective == state.objective
                &&& after.token_budget == state.token_budget
            }
            &&& !applies ==> after == state && refused is Some
            &&& state.fault() is None ==> (refused is None <==> applies)
        }),
{
    a_pause_stops_an_active_goal(old(goal)@, id@, generation, now);
}

/// Resuming sets a stopped goal with budget left running, and no other.
pub proof fn resuming_sets_a_stopped_goal_running(
    goal: &mut GoalState,
    id: GoalId,
    generation: u64,
    now: Timestamp,
    r: Result<(), RuntimeError>,
)
    requires
        call_ensures(GoalState::resume, (goal, &id, generation, now), r),
    ensures
        ({
            let (state, after) = (old(goal)@, final(goal)@);
            let refused = refusal(r);
            let stopped = state.status == GoalStatus::Paused || state.status == GoalStatus::Blocked
                || state.status == GoalStatus::UsageLimited || state.status
                == GoalStatus::BudgetLimited;
            let funded = match state.token_budget {
                None => true,
                Some(budget) => state.usage.provenance == GoalUsageProvenance::ProviderReported && (
                state.usage.charged_tokens matches Some(used) ==> used < budget),
            };
            let applies = state.id == id@ && state.generation == generation && stopped && funded;
            &&& applies ==> {
                &&& is_next_generation(state, after, now)
                &&& after.status == GoalStatus::Active
                &&& after.stopped_reason is None
                &&& after.objective == state.objective
                &&& after.token_budget == state.token_budget
            }
            &&& !applies ==> after == state && (refused matches Some(e) && e.kind
                == ErrorKind::Conflict)
            &&& state.fault() is None ==> (refused is None <==> applies)
        }),
{
    a_resume_sets_a_stopped_goal_running(old(goal)@, id@, generation, now);
}

/// A model completes an active goal, or blocks it with a bounded reason, and does
/// nothing else to it.
pub proof fn a_model_completes_or_blocks_as_asked(
    goal: &mut GoalState,
    id: GoalId,
    generation: u64,
    status: GoalStatus,
    reason: Option<GoalStoppedReason>,
    now: Timestamp,
    r: Result<(), RuntimeError>,
)
    requires
        call_ensures(GoalState::model_update, (goal, &id, generation, status, reason, now), r),
    ensures
        ({
            let (state, after) = (old(goal)@, final(goal)@);
            let refused = refusal(r);
            let bounded = reason.deep_view() matches Some(given) && {
                &&& is_readable(given.code, 1024)
                &&& given.detail matches Some(detail) ==> detail.len() <= 1024
            };
            let applies = state.id == id@ && state.generation == generation && state.status
                == GoalStatus::Active && (status == GoalStatus::Complete || (status
                == GoalStatus::Blocked && bounded));
            &&& applies ==> {
                &&& is_next_generation(state, after, now)
                &&& after.status == status
                &&& status == GoalStatus::Complete ==> after.stopped_reason is None
                &&& status == GoalStatus::Blocked ==> after.stopped_reason == reason.deep_view()
                &&& after.objective == state.objective
                &&& after.token_budget == state.token_budget
            }
            &&& !applies ==> after == state && refused is Some
            &&& state.fault() is None ==> (refused is None <==> applies)
        }),
{
    a_model_update_completes_or_blocks_as_asked(
        old(goal)@,
        id@,
        generation,
        status,
        reason.deep_view(),
        now,
    );
}

/// Stopping stops an active goal with the given status and reason.
pub proof fn stopping_stops_an_active_goal_as_asked(
    goal: &mut GoalState,
    status: GoalStatus,
    reason: GoalStoppedReason,
    now: Timestamp,
    r: Result<(), RuntimeError>,
)
    requires
        call_ensures(GoalState::stop, (goal, status, reason, now), r),
    ensures
        ({
            let (state, after) = (old(goal)@, final(goal)@);
            let refused = refusal(r);
            let allowed = status == GoalStatus::Blocked || status == GoalStatus::UsageLimited
                || status == GoalStatus::BudgetLimited;
            let bounded = {
                &&& is_readable(reason@.code, 1024)
                &&& reason@.detail matches Some(detail) ==> detail.len() <= 1024
            };
            &&& state.status != GoalStatus::Active ==> after == state && refused is None
            &&& state.status == GoalStatus::Active && !allowed ==> after == state && refused is Some
            &&& state.status == GoalStatus::Active && allowed ==> {
                &&& is_next_generation(state, after, now)
                &&& after.status == status
                &&& after.stopped_reason == Some(reason@)
                &&& after.objective == state.objective
                &&& after.token_budget == state.token_budget
            }
            &&& state.fault() is None && state.status == GoalStatus::Active ==> (
            refused is None <==> allowed && bounded)
        }),
{
    a_stop_stops_an_active_goal_as_asked(old(goal)@, status, reason@, now);
}

/// A goal is made exactly when its objective is readable and its budget, if any, is more
/// than nothing; it is then active, of the first generation, and without any use.
pub proof fn making_a_goal_gives_an_active_one(
    id: GoalId,
    objective: &str,
    token_budget: Option<u64>,
    now: Timestamp,
    usage_cursor: usize,
    created_in_turn: Option<TurnId>,
    r: Result<GoalState, RuntimeError>,
)
    requires
        call_ensures(
            GoalState::new,
            (id, objective, token_budget, now, usage_cursor, created_in_turn),
            r,
        ),
    ensures
        r is Ok <==> is_readable(objective@, 4096) && token_budget != Some(0u64),
        r matches Ok(goal) ==> {
            &&& goal@.id == id@
            &&& goal@.objective == objective@
            &&& goal@.token_budget == token_budget
            &&& goal@.generation == 1
            &&& goal@.status == GoalStatus::Active
            &&& goal@.stopped_reason is None
            &&& goal@.created_at == now
            &&& goal@.updated_at == now
            &&& goal@.usage.charged_tokens == Some(0u64)
            &&& goal@.remaining() == token_budget
        },
{
    a_new_goal_is_active_and_unused(
        id@,
        objective@,
        token_budget,
        now,
        usage_cursor,
        created_in_turn.deep_view(),
    );
}

/// What remains of a budget and what was used of it make up the budget, unless more was
/// used; without a budget, or without knowing the use, nothing is said to remain.
pub proof fn asking_what_remains_counts_what_was_used(goal: GoalState, r: Option<u64>)
    requires
        call_ensures(GoalState::remaining_budget, (&goal,), r),
    ensures
        r matches Some(left) ==> {
            &&& goal@.token_budget matches Some(budget) && goal@.usage.charged_tokens matches Some(
                used,
            ) && (if used <= budget {
                left + used == budget
            } else {
                left == 0
            })
            &&& goal@.usage.provenance == GoalUsageProvenance::ProviderReported
        },
        r is None ==> {
            ||| goal@.token_budget is None
            ||| goal@.usage.charged_tokens is None
            ||| goal@.usage.provenance != GoalUsageProvenance::ProviderReported
        },
{
    what_remains_and_what_is_used_make_up_the_budget(goal@);
}

/// A reason to stop is made exactly when its code is readable and its detail bounded, of just what
/// was given.
pub proof fn making_a_reason_bounds_it(
    code: &str,
    detail: Option<String>,
    r: Result<GoalStoppedReason, RuntimeError>,
)
    requires
        call_ensures(GoalStoppedReason::new, (code, detail), r),
    ensures
        r is Ok <==> is_readable(code@, 1024) && (detail matches Some(text) ==> text@.len()
            <= 1024),
        r matches Ok(made) ==> made@.code == code@ && made@.detail == detail.deep_view(),
{
    if is_blank_text(code@) {
        assert(!is_readable(code@, 1024));
    } else {
        let i = choose|i: int| 0 <= i < code@.len() && !is_white_space(#[trigger] code@[i]);
        assert(!is_white_space(code@[i]));
    }
}

/// A goal has the identity that it is named by exactly when both the id and the generation are its
/// own.
pub proof fn a_goal_is_named_by_its_id_and_generation(
    goal: GoalState,
    id: GoalId,
    generation: u64,
    r: Result<(), RuntimeError>,
)
    requires
        call_ensures(GoalState::validate_identity, (&goal, &id, generation), r),
    ensures
        r is Ok <==> goal@.id == id@ && goal@.generation == generation,
        r matches Err(e) ==> e@.kind == ErrorKind::Conflict,
{
}

/// Only an active goal is active, and only a complete one is complete.
pub proof fn a_status_tells_active_from_complete(status: GoalStatus, active: bool, complete: bool)
    requires
        call_ensures(GoalStatus::is_active, (status,), active),
        call_ensures(GoalStatus::is_complete, (status,), complete),
    ensures
        active <==> status == GoalStatus::Active,
        complete <==> status == GoalStatus::Complete,
        !(active && complete),
{
}

} // verus!
