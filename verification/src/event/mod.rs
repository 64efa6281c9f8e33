//! Versioned runtime events.
//!
//! Every event is wrapped in an [`EventEnvelope`] carrying a [`SCHEMA_VERSION`], a
//! monotonic sequence number, and identity. The semantic [`RuntimeEvent`] payload
//! is what two hosts must agree on for the same runtime behavior; host-specific
//! presentation lives in the envelope's `metadata` and is excluded from
//! [`canonical_payloads`] comparisons.
//!
//! Payloads carry bounded metrics and structured reasons, never secrets, raw skill
//! instructions, or raw fragment content.

use vstd::prelude::*;

use vstd::string::StringExecFns;

use self::lcm::{
    metadata_verdict, LcmLifecycleKind, LcmLifecycleMetadata, LcmLifecycleMetadataError,
    LcmLifecycleMetadataView, LcmLifecycleReason,
};
use crate::cancel::{CancelReason, CancelReasonView};
use crate::clock::Timestamp;
use crate::collections::TextMap;
use crate::content::{InternalTurnSource, InternalTurnSourceView};
use crate::delegation::{WorkspacePolicy, WorkspacePolicyView};
use crate::error::{RuntimeError, RuntimeErrorView};
use crate::fingerprint::{
    group_absorb, lemma_absorb_concat, lemma_absorb_one, lemma_concat_assoc, Encoded,
    FingerprintHasher,
};
use crate::fingerprint::Fingerprint;
use crate::goal::{GoalProjection, GoalProjectionView};
use crate::ids::{
    AttemptId, CacheOperationId, ChildId, EventId, InteractionRequestId, QuestionId, RequestId,
    SessionId, SteerId, ToolCallId, TurnId,
};
use crate::interaction::{InteractionOutcomeKind, InteractionSensitivity};
use crate::json::Json;
use crate::manifest::{
    ActivatedCapability, ActivatedCapabilityView, SegmentId, SummaryCoverage, SummaryCoverageView,
};
use crate::metadata::Metadata;
use crate::provider::{
    CacheAvailabilityEvidence, CacheAvailabilityEvidenceView, CacheIdentity, CacheIdentityView,
    FinishReason, ModelId, ProviderAttemptPurpose, RateLimitSnapshot, RateLimitSnapshotView,
};
use crate::record::Record;
use crate::security::{RegistryId, RegistryIdView, RegistryRevision};
use crate::usage::{UsageRecord, UsageRecordView};

pub mod lcm;

verus! {

/// The schema version of the event vocabulary. Bumped on any breaking change to
/// [`RuntimeEvent`].
pub const SCHEMA_VERSION: u32 = 15;

/// Why a canonical persistent goal projection changed.
#[derive(Debug, Clone, Copy, PartialEq, Eq, Structural)]
pub enum GoalUpdateCause {
    /// A model tool created or updated goal state.
    ModelTool,
    /// A typed host control changed goal state.
    HostControl,
    /// Turn completion reconciled usage, time, or terminal status.
    TurnCommit,
    /// A restored projection was published to an attached host/controller.
    Restored,
    /// The current goal was explicitly cleared.
    Cleared,
}

impl DeepView for GoalUpdateCause {
    type V = GoalUpdateCause;

    open spec fn deep_view(&self) -> GoalUpdateCause {
        *self
    }
}

impl Record for GoalUpdateCause {
    fn same(&self, other: &Self) -> (r: bool) {
        *self == *other
    }

    fn copied(&self) -> (r: Self) {
        *self
    }
}

/// A configured limit the runtime enforces.
#[derive(Debug, Clone, Copy, PartialEq, Eq, Structural)]
pub enum LimitKind {
    /// The maximum number of provider attempts for a single request.
    ProviderAttempts,
    /// The maximum number of tool-execution steps in a turn.
    ToolSteps,
    /// The wall-clock time budget for a turn.
    Time,
    /// The output size budget.
    Output,
}

impl DeepView for LimitKind {
    type V = LimitKind;

    open spec fn deep_view(&self) -> LimitKind {
        *self
    }
}

impl Record for LimitKind {
    fn same(&self, other: &Self) -> (r: bool) {
        *self == *other
    }

    fn copied(&self) -> (r: Self) {
        *self
    }
}

impl Encoded for LimitKind {
    open spec fn fields(view: LimitKind) -> Seq<Seq<char>> {
        seq![
            match view {
                LimitKind::ProviderAttempts => "provider_attempts"@,
                LimitKind::ToolSteps => "tool_steps"@,
                LimitKind::Time => "time"@,
                LimitKind::Output => "output"@,
            },
        ]
    }

    fn encode(&self, hasher: &mut FingerprintHasher) {
        broadcast use group_absorb;

        hasher.field(
            match self {
                LimitKind::ProviderAttempts => "provider_attempts",
                LimitKind::ToolSteps => "tool_steps",
                LimitKind::Time => "time",
                LimitKind::Output => "output",
            },
        );
    }

    proof fn lemma_decodable(a: LimitKind, b: LimitKind, x: Seq<Seq<char>>, y: Seq<Seq<char>>) {
        reveal_strlit("provider_attempts");
        assert("provider_attempts"@.len() == 17);
        reveal_strlit("tool_steps");
        assert("tool_steps"@.len() == 10);
        reveal_strlit("time");
        assert("time"@.len() == 4);
        reveal_strlit("output");
        assert("output"@.len() == 6);
        String::lemma_decodable(Self::fields(a)[0], Self::fields(b)[0], x, y);
        assert(Self::fields(a)[0] == Self::fields(b)[0]);
    }
}

/// How a turn ended.
#[derive(Debug, PartialEq, Eq)]
pub enum TurnFinish {
    /// The turn completed normally.
    Completed,
    /// The turn was cancelled.
    Cancelled {
        /// Why it was cancelled.
        reason: CancelReason,
    },
    /// The turn stopped because a limit was reached.
    LimitReached {
        /// The exhausted limit.
        limit: LimitKind,
    },
    /// A delegated child completed a paired metadata result and returned an
    /// exact task-information request to its parent.
    NeedsInput {
        /// Returned interaction request.
        request: InteractionRequestId,
    },
    /// The turn failed with an error.
    Failed,
}

/// What a [`TurnFinish`] holds.
pub enum TurnFinishView {
    Completed,
    Cancelled { reason: CancelReasonView },
    LimitReached { limit: LimitKind },
    NeedsInput { request: Seq<char> },
    Failed,
}

impl DeepView for TurnFinish {
    type V = TurnFinishView;

    open spec fn deep_view(&self) -> TurnFinishView {
        match self {
            TurnFinish::Completed => TurnFinishView::Completed,
            TurnFinish::Cancelled { reason } => TurnFinishView::Cancelled {
                reason: reason.deep_view(),
            },
            TurnFinish::LimitReached { limit } => TurnFinishView::LimitReached {
                limit: limit.deep_view(),
            },
            TurnFinish::NeedsInput { request } => TurnFinishView::NeedsInput {
                request: request.deep_view(),
            },
            TurnFinish::Failed => TurnFinishView::Failed,
        }
    }
}

impl View for TurnFinish {
    type V = TurnFinishView;

    open spec fn view(&self) -> TurnFinishView {
        self.deep_view()
    }
}

impl Record for TurnFinish {
    fn same(&self, other: &Self) -> (r: bool) {
        match (self, other) {
            (TurnFinish::Completed, TurnFinish::Completed) => true,
            (TurnFinish::Cancelled { reason }, TurnFinish::Cancelled { reason: reason_b }) => {
                reason.same(reason_b)
            },
            (TurnFinish::LimitReached { limit }, TurnFinish::LimitReached { limit: limit_b }) => {
                limit.same(limit_b)
            },
            (TurnFinish::NeedsInput { request }, TurnFinish::NeedsInput { request: request_b }) => {
                request.same(request_b)
            },
            (TurnFinish::Failed, TurnFinish::Failed) => true,
            _ => false,
        }
    }

    fn copied(&self) -> (r: Self) {
        match self {
            TurnFinish::Completed => TurnFinish::Completed,
            TurnFinish::Cancelled { reason } => TurnFinish::Cancelled { reason: reason.copied() },
            TurnFinish::LimitReached { limit } => TurnFinish::LimitReached {
                limit: limit.copied(),
            },
            TurnFinish::NeedsInput { request } => TurnFinish::NeedsInput {
                request: request.copied(),
            },
            TurnFinish::Failed => TurnFinish::Failed,
        }
    }
}

impl Clone for TurnFinish {
    fn clone(&self) -> (r: Self)
        ensures
            r@ == self@,
    {
        self.copied()
    }
}

impl Encoded for TurnFinish {
    open spec fn fields(view: TurnFinishView) -> Seq<Seq<char>> {
        match view {
            TurnFinishView::Completed => seq!["completed"@],
            TurnFinishView::Cancelled { reason } => seq!["cancelled"@]
                + <CancelReason as Encoded>::fields(reason),
            TurnFinishView::LimitReached { limit } => seq!["limit_reached"@]
                + <LimitKind as Encoded>::fields(limit),
            TurnFinishView::NeedsInput { request } => seq!["needs_input"@]
                + <InteractionRequestId as Encoded>::fields(request),
            TurnFinishView::Failed => seq!["failed"@],
        }
    }

    fn encode(&self, hasher: &mut FingerprintHasher) {
        let ghost start = hasher@;
        match self {
            TurnFinish::Completed => {
                hasher.field("completed");
                proof {
                    lemma_absorb_one(start, "completed"@);
                }
            },
            TurnFinish::Cancelled { reason } => {
                hasher.field("cancelled");
                reason.encode(hasher);
                proof {
                    lemma_absorb_one(start, "cancelled"@);
                    let f_reason = <CancelReason as Encoded>::fields(reason.deep_view());
                    lemma_absorb_concat(start, seq!["cancelled"@], f_reason);
                }
            },
            TurnFinish::LimitReached { limit } => {
                hasher.field("limit_reached");
                limit.encode(hasher);
                proof {
                    lemma_absorb_one(start, "limit_reached"@);
                    let f_limit = <LimitKind as Encoded>::fields(limit.deep_view());
                    lemma_absorb_concat(start, seq!["limit_reached"@], f_limit);
                }
            },
            TurnFinish::NeedsInput { request } => {
                hasher.field("needs_input");
                request.encode(hasher);
                proof {
                    lemma_absorb_one(start, "needs_input"@);
                    let f_request = <InteractionRequestId as Encoded>::fields(request.deep_view());
                    lemma_absorb_concat(start, seq!["needs_input"@], f_request);
                }
            },
            TurnFinish::Failed => {
                hasher.field("failed");
                proof {
                    lemma_absorb_one(start, "failed"@);
                }
            },
        }
    }

    proof fn lemma_decodable(
        a: TurnFinishView,
        b: TurnFinishView,
        x: Seq<Seq<char>>,
        y: Seq<Seq<char>>,
    ) {
        broadcast use lemma_concat_assoc;

        reveal_strlit("completed");
        assert("completed"@.len() == 9);
        reveal_strlit("cancelled");
        assert("cancelled"@.len() == 9);
        reveal_strlit("limit_reached");
        assert("limit_reached"@.len() == 13);
        reveal_strlit("needs_input");
        assert("needs_input"@.len() == 11);
        reveal_strlit("failed");
        assert("failed"@.len() == 6);
        assert("completed"@[1] != "cancelled"@[1]);
        assert((Self::fields(a) + x)[0] == Self::fields(a)[0]);
        assert((Self::fields(b) + y)[0] == Self::fields(b)[0]);
        match (a, b) {
            (TurnFinishView::Completed, TurnFinishView::Completed) => {
                String::lemma_decodable("completed"@, "completed"@, x, y);
            },
            (
                TurnFinishView::Cancelled { reason },
                TurnFinishView::Cancelled { reason: other_reason },
            ) => {
                let x1 = CancelReason::fields(reason) + x;
                let y1 = CancelReason::fields(other_reason) + y;
                String::lemma_decodable("cancelled"@, "cancelled"@, x1, y1);
                CancelReason::lemma_decodable(reason, other_reason, x, y);
            },
            (
                TurnFinishView::LimitReached { limit },
                TurnFinishView::LimitReached { limit: other_limit },
            ) => {
                let x1 = LimitKind::fields(limit) + x;
                let y1 = LimitKind::fields(other_limit) + y;
                String::lemma_decodable("limit_reached"@, "limit_reached"@, x1, y1);
                LimitKind::lemma_decodable(limit, other_limit, x, y);
            },
            (
                TurnFinishView::NeedsInput { request },
                TurnFinishView::NeedsInput { request: other_request },
            ) => {
                let x1 = InteractionRequestId::fields(request) + x;
                let y1 = InteractionRequestId::fields(other_request) + y;
                String::lemma_decodable("needs_input"@, "needs_input"@, x1, y1);
                InteractionRequestId::lemma_decodable(request, other_request, x, y);
            },
            (TurnFinishView::Failed, TurnFinishView::Failed) => {
                String::lemma_decodable("failed"@, "failed"@, x, y);
            },
            _ => {},
        }
    }
}

/// How confidently a context plan's token counts were produced.
#[derive(Debug, Clone, Copy, PartialEq, Eq, Structural)]
pub enum EstimationConfidence {
    /// Counts came from an authoritative tokenizer/adapter.
    Exact,
    /// Counts came from a fallback estimator and should be treated as
    /// approximate.
    Estimated,
}

impl DeepView for EstimationConfidence {
    type V = EstimationConfidence;

    open spec fn deep_view(&self) -> EstimationConfidence {
        *self
    }
}

impl Record for EstimationConfidence {
    fn same(&self, other: &Self) -> (r: bool) {
        *self == *other
    }

    fn copied(&self) -> (r: Self) {
        *self
    }
}

/// Provider-neutral cache state derived from a plan and, when available, a
/// provider-reported cache observation.
#[derive(Debug, Clone, Copy, PartialEq, Eq, Structural)]
pub enum CacheState {
    /// The provider cannot honor stable prompt-cache reuse for this plan.
    Unsupported,
    /// Cache reuse is possible, but this attempt supplied no cache evidence.
    Unknown,
    /// The request is eligible for cache reuse, without a positive reusable
    /// expectation or observed cache result establishing a hit/miss.
    Eligible,
    /// Provider cache evidence was observed without a reusable-prefix
    /// shortfall.
    WarmObserved,
    /// Provider cache evidence was observed below the comparable expectation.
    MissObserved,
    /// The provider explicitly reported expiry for this identity.
    Expired,
    /// Synthetic maintenance is suspended after an explicit miss/expiry.
    Suspended,
}

impl DeepView for CacheState {
    type V = CacheState;

    open spec fn deep_view(&self) -> CacheState {
        *self
    }
}

impl Record for CacheState {
    fn same(&self, other: &Self) -> (r: bool) {
        *self == *other
    }

    fn copied(&self) -> (r: Self) {
        *self
    }
}

impl Encoded for CacheState {
    open spec fn fields(view: CacheState) -> Seq<Seq<char>> {
        seq![
            match view {
                CacheState::Unsupported => "unsupported"@,
                CacheState::Unknown => "unknown"@,
                CacheState::Eligible => "eligible"@,
                CacheState::WarmObserved => "warm_observed"@,
                CacheState::MissObserved => "miss_observed"@,
                CacheState::Expired => "expired"@,
                CacheState::Suspended => "suspended"@,
            },
        ]
    }

    fn encode(&self, hasher: &mut FingerprintHasher) {
        broadcast use group_absorb;

        hasher.field(
            match self {
                CacheState::Unsupported => "unsupported",
                CacheState::Unknown => "unknown",
                CacheState::Eligible => "eligible",
                CacheState::WarmObserved => "warm_observed",
                CacheState::MissObserved => "miss_observed",
                CacheState::Expired => "expired",
                CacheState::Suspended => "suspended",
            },
        );
    }

    proof fn lemma_decodable(a: CacheState, b: CacheState, x: Seq<Seq<char>>, y: Seq<Seq<char>>) {
        reveal_strlit("unsupported");
        assert("unsupported"@.len() == 11);
        reveal_strlit("unknown");
        assert("unknown"@.len() == 7);
        reveal_strlit("eligible");
        assert("eligible"@.len() == 8);
        reveal_strlit("warm_observed");
        assert("warm_observed"@.len() == 13);
        reveal_strlit("miss_observed");
        assert("miss_observed"@.len() == 13);
        reveal_strlit("expired");
        assert("expired"@.len() == 7);
        reveal_strlit("suspended");
        assert("suspended"@.len() == 9);
        assert("unknown"@[0] != "expired"@[0]);
        assert("warm_observed"@[0] != "miss_observed"@[0]);
        String::lemma_decodable(Self::fields(a)[0], Self::fields(b)[0], x, y);
        assert(Self::fields(a)[0] == Self::fields(b)[0]);
    }
}

/// Another name for [`CacheState`].
pub type CacheStateKind = CacheState;

/// Why a canonical cache operation was rejected or suspended.
#[derive(Debug, Clone, Copy, PartialEq, Eq, Structural)]
pub enum CacheOperationReason {
    Unsupported,
    MissingConformance,
    MissingAuthority,
    InvalidIdentity,
    BudgetExceeded,
    Cancelled,
    DeadlineExceeded,
    CapabilityChanged,
    IdentityChanged,
    CacheMiss,
    CacheExpired,
    ProtocolViolation,
    Shutdown,
    Conflict,
}

impl DeepView for CacheOperationReason {
    type V = CacheOperationReason;

    open spec fn deep_view(&self) -> CacheOperationReason {
        *self
    }
}

impl Record for CacheOperationReason {
    fn same(&self, other: &Self) -> (r: bool) {
        *self == *other
    }

    fn copied(&self) -> (r: Self) {
        *self
    }
}

impl Encoded for CacheOperationReason {
    open spec fn fields(view: CacheOperationReason) -> Seq<Seq<char>> {
        seq![
            match view {
                CacheOperationReason::Unsupported => "unsupported"@,
                CacheOperationReason::MissingConformance => "missing_conformance"@,
                CacheOperationReason::MissingAuthority => "missing_authority"@,
                CacheOperationReason::InvalidIdentity => "invalid_identity"@,
                CacheOperationReason::BudgetExceeded => "budget_exceeded"@,
                CacheOperationReason::Cancelled => "cancelled"@,
                CacheOperationReason::DeadlineExceeded => "deadline_exceeded"@,
                CacheOperationReason::CapabilityChanged => "capability_changed"@,
                CacheOperationReason::IdentityChanged => "identity_changed"@,
                CacheOperationReason::CacheMiss => "cache_miss"@,
                CacheOperationReason::CacheExpired => "cache_expired"@,
                CacheOperationReason::ProtocolViolation => "protocol_violation"@,
                CacheOperationReason::Shutdown => "shutdown"@,
                CacheOperationReason::Conflict => "conflict"@,
            },
        ]
    }

    fn encode(&self, hasher: &mut FingerprintHasher) {
        broadcast use group_absorb;

        hasher.field(
            match self {
                CacheOperationReason::Unsupported => "unsupported",
                CacheOperationReason::MissingConformance => "missing_conformance",
                CacheOperationReason::MissingAuthority => "missing_authority",
                CacheOperationReason::InvalidIdentity => "invalid_identity",
                CacheOperationReason::BudgetExceeded => "budget_exceeded",
                CacheOperationReason::Cancelled => "cancelled",
                CacheOperationReason::DeadlineExceeded => "deadline_exceeded",
                CacheOperationReason::CapabilityChanged => "capability_changed",
                CacheOperationReason::IdentityChanged => "identity_changed",
                CacheOperationReason::CacheMiss => "cache_miss",
                CacheOperationReason::CacheExpired => "cache_expired",
                CacheOperationReason::ProtocolViolation => "protocol_violation",
                CacheOperationReason::Shutdown => "shutdown",
                CacheOperationReason::Conflict => "conflict",
            },
        );
    }

    proof fn lemma_decodable(
        a: CacheOperationReason,
        b: CacheOperationReason,
        x: Seq<Seq<char>>,
        y: Seq<Seq<char>>,
    ) {
        reveal_strlit("unsupported");
        assert("unsupported"@.len() == 11);
        reveal_strlit("missing_conformance");
        assert("missing_conformance"@.len() == 19);
        reveal_strlit("missing_authority");
        assert("missing_authority"@.len() == 17);
        reveal_strlit("invalid_identity");
        assert("invalid_identity"@.len() == 16);
        reveal_strlit("budget_exceeded");
        assert("budget_exceeded"@.len() == 15);
        reveal_strlit("cancelled");
        assert("cancelled"@.len() == 9);
        reveal_strlit("deadline_exceeded");
        assert("deadline_exceeded"@.len() == 17);
        reveal_strlit("capability_changed");
        assert("capability_changed"@.len() == 18);
        reveal_strlit("identity_changed");
        assert("identity_changed"@.len() == 16);
        reveal_strlit("cache_miss");
        assert("cache_miss"@.len() == 10);
        reveal_strlit("cache_expired");
        assert("cache_expired"@.len() == 13);
        reveal_strlit("protocol_violation");
        assert("protocol_violation"@.len() == 18);
        reveal_strlit("shutdown");
        assert("shutdown"@.len() == 8);
        reveal_strlit("conflict");
        assert("conflict"@.len() == 8);
        assert("missing_authority"@[0] != "deadline_exceeded"@[0]);
        assert("invalid_identity"@[1] != "identity_changed"@[1]);
        assert("capability_changed"@[0] != "protocol_violation"@[0]);
        assert("shutdown"@[0] != "conflict"@[0]);
        String::lemma_decodable(Self::fields(a)[0], Self::fields(b)[0], x, y);
        assert(Self::fields(a)[0] == Self::fields(b)[0]);
    }
}

/// Bounded outcome of one cache operation.
#[derive(Debug, Clone, Copy, PartialEq, Eq, Structural)]
pub enum CacheOperationOutcome {
    Completed,
    Failed,
    Cancelled,
    Rejected,
    Suspended,
}

impl DeepView for CacheOperationOutcome {
    type V = CacheOperationOutcome;

    open spec fn deep_view(&self) -> CacheOperationOutcome {
        *self
    }
}

impl Record for CacheOperationOutcome {
    fn same(&self, other: &Self) -> (r: bool) {
        *self == *other
    }

    fn copied(&self) -> (r: Self) {
        *self
    }
}

impl Encoded for CacheOperationOutcome {
    open spec fn fields(view: CacheOperationOutcome) -> Seq<Seq<char>> {
        seq![
            match view {
                CacheOperationOutcome::Completed => "completed"@,
                CacheOperationOutcome::Failed => "failed"@,
                CacheOperationOutcome::Cancelled => "cancelled"@,
                CacheOperationOutcome::Rejected => "rejected"@,
                CacheOperationOutcome::Suspended => "suspended"@,
            },
        ]
    }

    fn encode(&self, hasher: &mut FingerprintHasher) {
        broadcast use group_absorb;

        hasher.field(
            match self {
                CacheOperationOutcome::Completed => "completed",
                CacheOperationOutcome::Failed => "failed",
                CacheOperationOutcome::Cancelled => "cancelled",
                CacheOperationOutcome::Rejected => "rejected",
                CacheOperationOutcome::Suspended => "suspended",
            },
        );
    }

    proof fn lemma_decodable(
        a: CacheOperationOutcome,
        b: CacheOperationOutcome,
        x: Seq<Seq<char>>,
        y: Seq<Seq<char>>,
    ) {
        reveal_strlit("completed");
        assert("completed"@.len() == 9);
        reveal_strlit("failed");
        assert("failed"@.len() == 6);
        reveal_strlit("cancelled");
        assert("cancelled"@.len() == 9);
        reveal_strlit("rejected");
        assert("rejected"@.len() == 8);
        reveal_strlit("suspended");
        assert("suspended"@.len() == 9);
        assert("completed"@[1] != "cancelled"@[1]);
        assert("completed"@[0] != "suspended"@[0]);
        assert("cancelled"@[0] != "suspended"@[0]);
        String::lemma_decodable(Self::fields(a)[0], Self::fields(b)[0], x, y);
        assert(Self::fields(a)[0] == Self::fields(b)[0]);
    }
}

/// Why compaction ran.
#[derive(Debug, Clone, Copy, PartialEq, Eq, Structural)]
pub enum CompactionReason {
    /// The plan exceeded the policy's high watermark.
    HighWatermarkExceeded,
    /// The plan would not otherwise fit the model's input budget.
    BudgetExceeded,
    /// The host explicitly requested compaction.
    HostRequested,
}

impl DeepView for CompactionReason {
    type V = CompactionReason;

    open spec fn deep_view(&self) -> CompactionReason {
        *self
    }
}

impl Record for CompactionReason {
    fn same(&self, other: &Self) -> (r: bool) {
        *self == *other
    }

    fn copied(&self) -> (r: Self) {
        *self
    }
}

/// Public status of one generic harness todo item.
#[derive(Debug, Clone, Copy, PartialEq, Eq, Structural)]
pub enum PlanItemStatus {
    /// Work has not started.
    Pending,
    /// Work is actively in progress.
    InProgress,
    /// Work completed.
    Completed,
    /// Work was intentionally cancelled.
    Cancelled,
}

impl DeepView for PlanItemStatus {
    type V = PlanItemStatus;

    open spec fn deep_view(&self) -> PlanItemStatus {
        *self
    }
}

impl Record for PlanItemStatus {
    fn same(&self, other: &Self) -> (r: bool) {
        *self == *other
    }

    fn copied(&self) -> (r: Self) {
        *self
    }
}

/// Content handling for a plan projection.
#[derive(Debug, Clone, Copy, PartialEq, Eq, Structural)]
pub enum PlanSensitivity {
    /// Bounded item ids and text may enter the ordinary event stream.
    Public,
    /// Only aggregate counts may enter the ordinary event stream.
    Sensitive,
}

impl DeepView for PlanSensitivity {
    type V = PlanSensitivity;

    open spec fn deep_view(&self) -> PlanSensitivity {
        *self
    }
}

impl Record for PlanSensitivity {
    fn same(&self, other: &Self) -> (r: bool) {
        *self == *other
    }

    fn copied(&self) -> (r: Self) {
        *self
    }
}

/// One bounded public todo projection.
#[derive(Debug, PartialEq, Eq)]
pub struct PlanItemProjection {
    /// Stable item id.
    pub id: String,
    /// Bounded task text.
    pub text: String,
    /// Current status.
    pub status: PlanItemStatus,
    /// Stable terminal reconciliation reason, when the harness closed an
    /// unfinished item rather than guessing it complete.
    pub reason: Option<String>,
}

/// What a [`PlanItemProjection`] holds.
pub struct PlanItemProjectionView {
    pub id: Seq<char>,
    pub text: Seq<char>,
    pub status: PlanItemStatus,
    pub reason: Option<Seq<char>>,
}

impl DeepView for PlanItemProjection {
    type V = PlanItemProjectionView;

    open spec fn deep_view(&self) -> PlanItemProjectionView {
        PlanItemProjectionView {
            id: self.id.deep_view(),
            text: self.text.deep_view(),
            status: self.status.deep_view(),
            reason: self.reason.deep_view(),
        }
    }
}

impl View for PlanItemProjection {
    type V = PlanItemProjectionView;

    open spec fn view(&self) -> PlanItemProjectionView {
        self.deep_view()
    }
}

impl Record for PlanItemProjection {
    fn same(&self, other: &Self) -> (r: bool) {
        self.id.same(&other.id)
            && self.text.same(&other.text)
            && self.status.same(&other.status)
            && self.reason.same(&other.reason)
    }

    fn copied(&self) -> (r: Self) {
        PlanItemProjection {
            id: self.id.copied(),
            text: self.text.copied(),
            status: self.status.copied(),
            reason: self.reason.copied(),
        }
    }
}

impl Clone for PlanItemProjection {
    fn clone(&self) -> (r: Self)
        ensures
            r@ == self@,
    {
        self.copied()
    }
}

/// A coarse context-budget category, used in budget-failure reporting.
#[derive(Debug, Clone, Copy, PartialEq, Eq, Structural)]
pub enum BudgetCategory {
    /// The enforced input token budget.
    Input,
    /// The total context window (input + output).
    Context,
    /// The output token budget.
    Output,
}

impl DeepView for BudgetCategory {
    type V = BudgetCategory;

    open spec fn deep_view(&self) -> BudgetCategory {
        *self
    }
}

impl Record for BudgetCategory {
    fn same(&self, other: &Self) -> (r: bool) {
        *self == *other
    }

    fn copied(&self) -> (r: Self) {
        *self
    }
}

/// Redaction-safe durable child recovery disposition.
#[derive(Debug, Clone, Copy, PartialEq, Eq, Structural)]
pub enum ChildRecoveryState {
    /// Completed child session available for another follow-up.
    Idle,
    /// In-flight execution was lost and remains dormant.
    Interrupted,
    /// Stored child exists but current policy/store compatibility blocks use.
    Blocked,
    /// Lifetime or retention policy expired the record.
    Expired,
    /// The child is terminal and retained only for bounded evidence.
    Terminal,
}

impl DeepView for ChildRecoveryState {
    type V = ChildRecoveryState;

    open spec fn deep_view(&self) -> ChildRecoveryState {
        *self
    }
}

impl Record for ChildRecoveryState {
    fn same(&self, other: &Self) -> (r: bool) {
        *self == *other
    }

    fn copied(&self) -> (r: Self) {
        *self
    }
}

/// Why accepted steering input was discarded: a metadata-only label.
#[derive(Debug, PartialEq, Eq, PartialOrd, Ord, Hash)]
pub struct SteerDiscardReason {
    text: String,
}

impl DeepView for SteerDiscardReason {
    type V = Seq<char>;

    closed spec fn deep_view(&self) -> Seq<char> {
        self.text@
    }
}

impl View for SteerDiscardReason {
    type V = Seq<char>;

    open spec fn view(&self) -> Seq<char> {
        self.deep_view()
    }
}

impl Record for SteerDiscardReason {
    fn same(&self, other: &Self) -> (r: bool) {
        self.text.same(&other.text)
    }

    fn copied(&self) -> (r: Self) {
        SteerDiscardReason { text: self.text.copied() }
    }
}

impl Clone for SteerDiscardReason {
    fn clone(&self) -> (r: Self)
        ensures
            r@ == self@,
    {
        self.copied()
    }
}

impl SteerDiscardReason {
    /// Wraps the text.
    pub fn new(text: &str) -> (r: SteerDiscardReason)
        ensures
            r@ == text@,
    {
        SteerDiscardReason { text: text.to_owned() }
    }

    /// The wrapped text.
    pub fn as_str(&self) -> (r: &str)
        ensures
            r@ == self@,
    {
        self.text.as_str()
    }
}

/// A bounded description of what a delegated child is doing. Identifiers only,
/// never raw content.
#[derive(Debug, PartialEq, Eq)]
pub enum ChildPhase {
    /// The child began a turn.
    TurnStarted,
    /// The child finished a turn (its task outcome follows separately).
    TurnFinished,
    /// A durable child record was rebound to its parent without executing it.
    Recovered {
        /// Stable runtime session holding the child's canonical history.
        child_session: SessionId,
        /// Recovery disposition rendered by hosts without inspecting stores.
        state: ChildRecoveryState,
        /// Whether an exact interrupted turn can be explicitly resumed.
        resumable: bool,
    },
    /// An explicit resume began for one interrupted exact checkpoint.
    ResumeStarted {
        /// Stable child runtime session.
        child_session: SessionId,
    },
    /// A live child execution ended while its durable session remained.
    Interrupted {
        /// Stable child runtime session.
        child_session: SessionId,
        /// Whether an exact checkpoint is available for explicit resume.
        resumable: bool,
    },
}

/// What a [`ChildPhase`] holds.
pub enum ChildPhaseView {
    TurnStarted,
    TurnFinished,
    Recovered { child_session: Seq<char>, state: ChildRecoveryState, resumable: bool },
    ResumeStarted { child_session: Seq<char> },
    Interrupted { child_session: Seq<char>, resumable: bool },
}

impl DeepView for ChildPhase {
    type V = ChildPhaseView;

    open spec fn deep_view(&self) -> ChildPhaseView {
        match self {
            ChildPhase::TurnStarted => ChildPhaseView::TurnStarted,
            ChildPhase::TurnFinished => ChildPhaseView::TurnFinished,
            ChildPhase::Recovered { child_session, state, resumable } => ChildPhaseView::Recovered {
                child_session: child_session.deep_view(),
                state: state.deep_view(),
                resumable: resumable.deep_view(),
            },
            ChildPhase::ResumeStarted { child_session } => ChildPhaseView::ResumeStarted {
                child_session: child_session.deep_view(),
            },
            ChildPhase::Interrupted { child_session, resumable } => ChildPhaseView::Interrupted {
                child_session: child_session.deep_view(),
                resumable: resumable.deep_view(),
            },
        }
    }
}

impl View for ChildPhase {
    type V = ChildPhaseView;

    open spec fn view(&self) -> ChildPhaseView {
        self.deep_view()
    }
}

impl Record for ChildPhase {
    fn same(&self, other: &Self) -> (r: bool) {
        match (self, other) {
            (ChildPhase::TurnStarted, ChildPhase::TurnStarted) => true,
            (ChildPhase::TurnFinished, ChildPhase::TurnFinished) => true,
            (
                ChildPhase::Recovered { child_session, state, resumable },
                ChildPhase::Recovered {
                    child_session: child_session_b,
                    state: state_b,
                    resumable: resumable_b,
                },
            ) => child_session.same(child_session_b)
                && state.same(state_b)
                && resumable.same(resumable_b),
            (
                ChildPhase::ResumeStarted { child_session },
                ChildPhase::ResumeStarted { child_session: child_session_b },
            ) => child_session.same(child_session_b),
            (
                ChildPhase::Interrupted { child_session, resumable },
                ChildPhase::Interrupted { child_session: child_session_b, resumable: resumable_b },
            ) => child_session.same(child_session_b) && resumable.same(resumable_b),
            _ => false,
        }
    }

    fn copied(&self) -> (r: Self) {
        match self {
            ChildPhase::TurnStarted => ChildPhase::TurnStarted,
            ChildPhase::TurnFinished => ChildPhase::TurnFinished,
            ChildPhase::Recovered { child_session, state, resumable } => ChildPhase::Recovered {
                child_session: child_session.copied(),
                state: state.copied(),
                resumable: resumable.copied(),
            },
            ChildPhase::ResumeStarted { child_session } => ChildPhase::ResumeStarted {
                child_session: child_session.copied(),
            },
            ChildPhase::Interrupted { child_session, resumable } => ChildPhase::Interrupted {
                child_session: child_session.copied(),
                resumable: resumable.copied(),
            },
        }
    }
}

impl Clone for ChildPhase {
    fn clone(&self) -> (r: Self)
        ensures
            r@ == self@,
    {
        self.copied()
    }
}

/// The semantic payload of a runtime event. This is the canonical vocabulary
/// every consumer receives regardless of presentation layer.
#[derive(PartialEq, Eq)]
#[allow(inconsistent_fields)]
pub enum RuntimeEvent {
    /// A session was started.
    SessionStarted,
    /// A turn began.
    TurnStarted,
    /// Accepted real-user steering input entered canonical history at a
    /// protected provider/tool boundary. Raw input is deliberately absent.
    TurnSteerCommitted {
        /// Stable steer identity returned at admission.
        steer: SteerId,
        /// One-based FIFO admission ordinal within the serving turn.
        ordinal: u64,
    },
    /// Accepted real-user steering input was discarded during graceful turn
    /// closure before it entered canonical history.
    TurnSteerDiscarded {
        /// Stable steer identity returned at admission.
        steer: SteerId,
        /// One-based FIFO admission ordinal within the serving turn.
        ordinal: u64,
        /// Metadata-only terminal disposition.
        reason: SteerDiscardReason,
    },
    /// A provenance-bearing internal turn began without a user-role message.
    InternalTurnStarted {
        /// Metadata-only source attribution; turn content is absent.
        source: InternalTurnSource,
    },
    /// A sealed registry snapshot was produced for this run.
    RegistrySnapshotSealed {
        /// The sealed snapshot's fingerprint.
        snapshot: Fingerprint,
        /// The total number of sealed entries across all domains.
        entries: u32,
    },
    /// A scoped view was derived from a sealed snapshot.
    ScopedViewDerived {
        /// The snapshot the view was derived from.
        snapshot: Fingerprint,
        /// The derived view's fingerprint.
        view: Fingerprint,
        /// How many entries remain visible after scoping.
        visible_entries: u32,
    },
    /// A model profile was resolved for this run.
    ModelProfileResolved {
        /// The serving provider's name.
        provider: String,
        /// The resolved model id.
        model: ModelId,
        /// The resolved profile's fingerprint.
        profile: Fingerprint,
    },
    /// Capability retrieval ran and produced ranked candidates.
    CapabilityRetrievalPerformed {
        /// The resolver implementation's revision.
        resolver_revision: RegistryRevision,
        /// The embedding/index revision consulted, if retrieval used one.
        index_revision: Option<RegistryRevision>,
        /// Ranked candidate capability ids, most relevant first.
        candidates: Vec<RegistryId>,
    },
    /// A new activation epoch bound a set of capabilities for this run.
    CapabilitiesActivated {
        /// A monotonic counter identifying this activation epoch within the
        /// session.
        epoch: u32,
        /// The capabilities bound in this epoch, in activation order.
        activation: Vec<ActivatedCapability>,
    },
    /// A context plan was assembled.
    ContextPlanned {
        /// The assembled context plan's fingerprint.
        context: Fingerprint,
        /// The accompanying cache plan's fingerprint.
        cache_plan: Fingerprint,
        /// The number of segments in the plan.
        segment_count: u32,
        /// Token totals by segment kind.
        totals: TextMap<u32>,
        /// The counted input tokens the plan consumes. Defaults to zero when
        /// replaying journals written before the field existed.
        input_tokens: u32,
        /// The enforced input token budget the counted tokens were held to.
        input_budget_tokens: u32,
        /// Output/reasoning tokens reserved out of the context window.
        reserved_tokens: u32,
        /// How confidently the token counts were produced.
        confidence: EstimationConfidence,
    },
    /// Compaction changed the context plan.
    ContextCompacted {
        /// The compacted context plan's fingerprint.
        context: Fingerprint,
        /// Why compaction ran.
        reason: CompactionReason,
        /// Segments evicted entirely.
        evicted: Vec<SegmentId>,
        /// New summaries and the segments they replaced.
        summaries: Vec<SummaryCoverage>,
        /// Tokens reclaimed by compaction.
        reclaimed_tokens: u32,
    },
    /// A redaction-safe lifecycle observation from the lossless context
    /// memory (LCM) engine.
    ///
    /// LCM emits one typed phase with bounded metadata instead of exposing
    /// summary bodies, source entries, protected artifacts, credentials, or
    /// authorization grants to the event stream.
    LcmLifecycle {
        /// The lifecycle phase being observed.
        kind: LcmLifecycleKind,
        /// Structured reason, when the phase has one.
        reason: Option<LcmLifecycleReason>,
        /// Bounded identities, revisions, classifications, and token metrics.
        metadata: LcmLifecycleMetadata,
    },
    /// A generic harness todo plan reached a durable tool-result boundary.
    ///
    /// Sensitive plans carry aggregate counts only. Public item content is
    /// bounded by the todo component before it reaches this event.
    PlanUpdated {
        /// Monotonic plan revision inside the session.
        revision: u64,
        /// Content-handling posture.
        sensitivity: PlanSensitivity,
        /// Number of items in each status.
        counts: TextMap<u32>,
        /// Bounded items, present only for a public plan.
        items: Option<Vec<PlanItemProjection>>,
    },
    /// A persistent goal reached a durability-aligned state boundary.
    GoalUpdated {
        /// Why this projection changed.
        cause: GoalUpdateCause,
        /// Whether bounded objective content is present.
        sensitivity: PlanSensitivity,
        /// Current bounded projection, or `None` after explicit clear.
        goal: Option<GoalProjection>,
    },
    /// The cache plan changed.
    CachePlanChanged {
        /// The new cache plan's fingerprint.
        cache_plan: Fingerprint,
        /// Tokens whose cache prefix remained valid.
        preserved_prefix_tokens: u32,
        /// Tokens whose cache prefix was invalidated.
        invalidated_prefix_tokens: u32,
        /// Whether the provider can reuse this plan's stable prefix (either
        /// implicitly or via explicit breakpoints). Individual unhonored
        /// cache classes are recorded in the plan manifest, not here.
        provider_cache_supported: bool,
    },
    /// A context or output budget could not be satisfied.
    BudgetFailure {
        /// The budget category that failed.
        category: BudgetCategory,
        /// The requested token count.
        requested_tokens: u32,
        /// The enforced limit.
        limit_tokens: u32,
    },
    /// A provider attempt began.
    ProviderAttemptStarted {
        /// The logical request.
        request: RequestId,
        /// The attempt id.
        attempt: AttemptId,
        /// The zero-based attempt index.
        index: u32,
        /// The target model.
        model: String,
    },
    /// A fragment of visible output text.
    TextDelta {
        /// The logical request producing this speculative fragment.
        request: RequestId,
        /// The provider attempt producing this speculative fragment.
        attempt: AttemptId,
        /// The text fragment.
        text: String,
    },
    /// A fragment of reasoning.
    ReasoningDelta {
        /// The logical request producing this speculative fragment.
        request: RequestId,
        /// The provider attempt producing this speculative fragment.
        attempt: AttemptId,
        /// The reasoning fragment.
        text: String,
        /// Whether it is redacted.
        redacted: bool,
    },
    /// Speculative text/reasoning from an attempt became canonical.
    ProviderAttemptOutputCommitted {
        /// The logical request.
        request: RequestId,
        /// The committed provider attempt.
        attempt: AttemptId,
    },
    /// Speculative text/reasoning from an attempt was discarded.
    ProviderAttemptOutputDiscarded {
        /// The logical request.
        request: RequestId,
        /// The discarded provider attempt.
        attempt: AttemptId,
    },
    /// A validated tool call was requested by the model.
    ToolCallRequested {
        /// The tool-call id.
        call: ToolCallId,
        /// The tool name.
        name: String,
        /// The validated arguments' top-level key names, sorted. Always
        /// present, so a subscriber can see the call's shape without its
        /// values.
        argument_keys: Vec<String>,
        /// A content fingerprint of the validated arguments, for correlating
        /// identical or differing calls across the event stream without
        /// exposing values. Not a security boundary: it is an unsalted,
        /// non-cryptographic digest (see [`Fingerprint`]), so it can confirm
        /// a guessed low-entropy value.
        argument_fingerprint: Fingerprint,
        /// The arguments verbatim. `None` unless the host's loop
        /// configuration explicitly opts into raw argument visibility, since
        /// arguments may echo secrets a model was induced to reveal or values
        /// sourced from host configuration.
        arguments: Option<Json>,
    },
    /// A checkpointed task-information interaction was presented to a host.
    ///
    /// Prompt text, choices, and answer content remain in protected
    /// checkpoints and never enter the default observability stream.
    InteractionRequested {
        /// Exact request identity.
        request: InteractionRequestId,
        /// Tool call owning the interaction.
        call: ToolCallId,
        /// Number of questions presented.
        question_count: u8,
        /// Content handling requested by the tool.
        sensitivity: InteractionSensitivity,
    },
    /// A host interaction reached one authority-free terminal outcome.
    InteractionResolved {
        /// Exact request identity.
        request: InteractionRequestId,
        /// Tool call owning the interaction.
        call: ToolCallId,
        /// Metadata-only outcome; answer content is deliberately absent.
        outcome: InteractionOutcomeKind,
    },
    /// A tool call finished.
    ToolCallCompleted {
        /// The tool-call id.
        call: ToolCallId,
        /// The tool name.
        name: String,
        /// Whether the tool reported an error.
        is_error: bool,
    },
    /// An explicit capability downgrade was applied.
    Downgrade {
        /// The downgraded capability.
        capability: String,
        /// A human-readable detail.
        detail: String,
    },
    /// A usage observation.
    Usage {
        /// The usage record with provenance.
        record: UsageRecord,
    },
    /// A cache observation.
    CacheObservation {
        /// The logical request that produced this observation, when emitted by
        /// the current runtime. Legacy journal entries omit this field.
        request: Option<RequestId>,
        /// The provider attempt that produced this observation. Legacy journal
        /// entries omit this field.
        attempt: Option<AttemptId>,
        /// The exact cache-plan fingerprint used by the request. Legacy
        /// journal entries omit this field.
        cache_plan: Option<Fingerprint>,
        /// The exact opaque cache identity used by the request. Legacy
        /// journal entries omit this field.
        cache_identity: Option<CacheIdentity>,
        /// Tokens read from cache. `Some(0)` is an explicit provider zero;
        /// `None` means the provider omitted the field.
        read_tokens: Option<u64>,
        /// Tokens written to cache. `Some(0)` is an explicit provider zero;
        /// `None` means the provider omitted the field.
        write_tokens: Option<u64>,
    },
    /// The canonical cache state resolved for one provider attempt.
    CacheStateChanged {
        /// The logical request.
        request: RequestId,
        /// The specific provider attempt.
        attempt: AttemptId,
        /// The exact cache-plan fingerprint used by this attempt.
        cache_plan: Fingerprint,
        /// The exact opaque cache identity used by this attempt.
        cache_identity: Option<CacheIdentity>,
        /// The provider-neutral resolved state.
        state: CacheState,
        /// The comparable preserved-prefix expectation. `None` means no prior
        /// provider-request baseline existed.
        expected_read_tokens: Option<u64>,
        /// The provider-reported cache-read value, preserving field presence.
        observed_read_tokens: Option<u64>,
        /// The provider-reported cache-write value, preserving field presence.
        observed_write_tokens: Option<u64>,
        /// The derived saturating shortfall, when both an expectation and a
        /// read observation were available and the expectation was missed.
        missed_tokens: Option<u64>,
        /// Confidence in the planner's token-count expectation.
        confidence: EstimationConfidence,
    },
    /// A bounded cache operation passed Runtime preflight.
    CacheOperationPrepared {
        /// Stable operation identity.
        operation: CacheOperationId,
        /// Logical request identity, when this operation will stream.
        request: Option<RequestId>,
        /// Exact opaque cache identity.
        identity: CacheIdentity,
        /// Typed operation purpose.
        purpose: ProviderAttemptPurpose,
    },
    /// A cache operation was rejected before provider I/O.
    CacheOperationRejected {
        /// Stable operation identity.
        operation: CacheOperationId,
        /// Logical request allocated for the rejected operation, when one was
        /// available before provider admission.
        request: Option<RequestId>,
        /// Provider attempt attribution. Pre-I/O rejection normally has none.
        attempt: Option<AttemptId>,
        /// Exact opaque cache identity.
        identity: CacheIdentity,
        /// Typed operation purpose.
        purpose: ProviderAttemptPurpose,
        /// Structured redaction-safe reason.
        reason: CacheOperationReason,
    },
    /// A cache operation crossed its provider admission boundary.
    CacheOperationStarted {
        /// Stable operation identity.
        operation: CacheOperationId,
        /// Request/attempt attribution when applicable.
        request: Option<RequestId>,
        attempt: Option<AttemptId>,
        /// Exact opaque cache identity.
        identity: CacheIdentity,
        /// Typed operation purpose.
        purpose: ProviderAttemptPurpose,
    },
    /// A cache operation reached a bounded terminal outcome.
    CacheOperationCompleted {
        /// Stable operation identity.
        operation: CacheOperationId,
        /// Request/attempt attribution when applicable.
        request: Option<RequestId>,
        attempt: Option<AttemptId>,
        /// Exact opaque cache identity.
        identity: CacheIdentity,
        /// Typed operation purpose.
        purpose: ProviderAttemptPurpose,
        /// Terminal outcome.
        outcome: CacheOperationOutcome,
        /// Optional structured terminal reason. This is used for failures or
        /// cancellations after `CacheOperationStarted`; pre-I/O admission
        /// failures continue to use `CacheOperationRejected`.
        reason: Option<CacheOperationReason>,
        /// Bounded aggregate metrics, never raw provider bodies.
        metrics: TextMap<u64>,
    },
    /// Normalized provider evidence was recorded before attempt completion.
    CacheAvailabilityEvidenceRecorded {
        /// Canonical normalized evidence.
        evidence: CacheAvailabilityEvidence,
    },
    /// Synthetic maintenance for an exact identity was suspended after
    /// explicit provider evidence.
    CacheOperationSuspended {
        /// Logical request that produced the explicit suspension, when known.
        request: Option<RequestId>,
        /// Provider attempt that produced the explicit suspension, when known.
        attempt: Option<AttemptId>,
        /// Exact opaque cache identity.
        identity: CacheIdentity,
        /// Operation that produced the suspension, when available.
        operation: Option<CacheOperationId>,
        /// Structured suspension reason.
        reason: CacheOperationReason,
    },
    /// A server-reported limit-state observation for the credential that
    /// served an attempt. Absent windows mean the provider reported nothing,
    /// never that a budget is untouched.
    RateLimitObservation {
        /// The attempt whose response carried the report.
        attempt: AttemptId,
        /// The normalized snapshot.
        snapshot: RateLimitSnapshot,
    },
    /// A provider attempt finished.
    ProviderAttemptFinished {
        /// The attempt id.
        attempt: AttemptId,
        /// The finish reason.
        finish: FinishReason,
        /// Whether a failure was retryable.
        retryable: bool,
    },
    /// A configured limit was reached.
    LimitReached {
        /// The exhausted limit.
        limit: LimitKind,
    },
    /// A structured error occurred.
    Error {
        /// The error.
        error: RuntimeError,
    },
    /// A turn completed.
    TurnCompleted {
        /// How the turn ended.
        finish: TurnFinish,
        /// Whether any visible text was streamed during the turn. `false`
        /// flags a reasoning-only completion: the turn ended without a
        /// user-facing answer: so hosts can react instead of showing
        /// nothing. Serialized only when `false`; absent (older journals,
        /// ordinary turns) means visible output was produced.
        visible_output: bool,
    },
    /// A delegated child session was spawned. Emitted on the parent session's
    /// stream; the envelope's `session` is the parent, the payload names the
    /// child.
    ChildSpawned {
        /// The stable child id.
        child: ChildId,
        /// The child's declared workspace posture.
        workspace: WorkspacePolicy,
        /// The maximum tasks (spawn plus follow-ups) the child may run.
        max_turns: u32,
        /// The child's total token budget, if one was declared.
        max_tokens: Option<u64>,
        /// The child's lifetime deadline in milliseconds from spawn, if one
        /// was declared.
        deadline_ms: Option<u64>,
    },
    /// A delegated child made bounded progress.
    ChildProgress {
        /// The child id.
        child: ChildId,
        /// What the child is doing.
        phase: ChildPhase,
    },
    /// A delegated child is blocked on exact task-information input. Emitted
    /// on the parent stream with metadata only; questionnaire prompts and
    /// answers remain on the protected typed interaction path.
    ChildNeedsInput {
        /// Stable child identity.
        child: ChildId,
        /// Exact child session that owns the request.
        child_session: SessionId,
        /// Child turn blocked on the request.
        turn: TurnId,
        /// Tool call that produced the request.
        call: ToolCallId,
        /// Interaction request identity.
        request: InteractionRequestId,
        /// Question identities in canonical request order.
        question_ids: Vec<QuestionId>,
        /// Content-handling requirement.
        sensitivity: InteractionSensitivity,
    },
    /// A delegated child completed a task. The child remains available for
    /// follow-ups within its limits; this is not a terminal event.
    ChildCompleted {
        /// The child id.
        child: ChildId,
        /// What the child replied: its visible text, or its
        /// non-redacted reasoning when the provider classified the entire
        /// reply as reasoning. Carried in full: progress coalescing must
        /// never drop a final result.
        result: String,
    },
    /// A delegated child stopped. Terminal: emitted exactly once per child.
    ChildStopped {
        /// The child id.
        child: ChildId,
        /// Why the child stopped.
        reason: CancelReason,
    },
    /// A delegated child failed. Terminal: emitted exactly once per child.
    ChildFailed {
        /// The child id.
        child: ChildId,
        /// The failure.
        error: RuntimeError,
    },
    /// The session shut down.
    SessionShutdown,
}

/// What a [`RuntimeEvent`] holds.
#[allow(inconsistent_fields)]
pub enum RuntimeEventView {
    SessionStarted,
    TurnStarted,
    TurnSteerCommitted { steer: Seq<char>, ordinal: u64 },
    TurnSteerDiscarded { steer: Seq<char>, ordinal: u64, reason: Seq<char> },
    InternalTurnStarted { source: InternalTurnSourceView },
    RegistrySnapshotSealed { snapshot: Seq<char>, entries: u32 },
    ScopedViewDerived { snapshot: Seq<char>, view: Seq<char>, visible_entries: u32 },
    ModelProfileResolved { provider: Seq<char>, model: Seq<char>, profile: Seq<char> },
    CapabilityRetrievalPerformed {
        resolver_revision: Seq<char>,
        index_revision: Option<Seq<char>>,
        candidates: Seq<RegistryIdView>,
    },
    CapabilitiesActivated { epoch: u32, activation: Seq<ActivatedCapabilityView> },
    ContextPlanned {
        context: Seq<char>,
        cache_plan: Seq<char>,
        segment_count: u32,
        totals: Seq<(Seq<char>, u32)>,
        input_tokens: u32,
        input_budget_tokens: u32,
        reserved_tokens: u32,
        confidence: EstimationConfidence,
    },
    ContextCompacted {
        context: Seq<char>,
        reason: CompactionReason,
        evicted: Seq<Seq<char>>,
        summaries: Seq<SummaryCoverageView>,
        reclaimed_tokens: u32,
    },
    LcmLifecycle {
        kind: LcmLifecycleKind,
        reason: Option<LcmLifecycleReason>,
        metadata: LcmLifecycleMetadataView,
    },
    PlanUpdated {
        revision: u64,
        sensitivity: PlanSensitivity,
        counts: Seq<(Seq<char>, u32)>,
        items: Option<Seq<PlanItemProjectionView>>,
    },
    GoalUpdated {
        cause: GoalUpdateCause,
        sensitivity: PlanSensitivity,
        goal: Option<GoalProjectionView>,
    },
    CachePlanChanged {
        cache_plan: Seq<char>,
        preserved_prefix_tokens: u32,
        invalidated_prefix_tokens: u32,
        provider_cache_supported: bool,
    },
    BudgetFailure { category: BudgetCategory, requested_tokens: u32, limit_tokens: u32 },
    ProviderAttemptStarted { request: Seq<char>, attempt: Seq<char>, index: u32, model: Seq<char> },
    TextDelta { request: Seq<char>, attempt: Seq<char>, text: Seq<char> },
    ReasoningDelta { request: Seq<char>, attempt: Seq<char>, text: Seq<char>, redacted: bool },
    ProviderAttemptOutputCommitted { request: Seq<char>, attempt: Seq<char> },
    ProviderAttemptOutputDiscarded { request: Seq<char>, attempt: Seq<char> },
    ToolCallRequested {
        call: Seq<char>,
        name: Seq<char>,
        argument_keys: Seq<Seq<char>>,
        argument_fingerprint: Seq<char>,
        arguments: Option<Seq<char>>,
    },
    InteractionRequested {
        request: Seq<char>,
        call: Seq<char>,
        question_count: u8,
        sensitivity: InteractionSensitivity,
    },
    InteractionResolved { request: Seq<char>, call: Seq<char>, outcome: InteractionOutcomeKind },
    ToolCallCompleted { call: Seq<char>, name: Seq<char>, is_error: bool },
    Downgrade { capability: Seq<char>, detail: Seq<char> },
    Usage { record: UsageRecordView },
    CacheObservation {
        request: Option<Seq<char>>,
        attempt: Option<Seq<char>>,
        cache_plan: Option<Seq<char>>,
        cache_identity: Option<CacheIdentityView>,
        read_tokens: Option<u64>,
        write_tokens: Option<u64>,
    },
    CacheStateChanged {
        request: Seq<char>,
        attempt: Seq<char>,
        cache_plan: Seq<char>,
        cache_identity: Option<CacheIdentityView>,
        state: CacheState,
        expected_read_tokens: Option<u64>,
        observed_read_tokens: Option<u64>,
        observed_write_tokens: Option<u64>,
        missed_tokens: Option<u64>,
        confidence: EstimationConfidence,
    },
    CacheOperationPrepared {
        operation: Seq<char>,
        request: Option<Seq<char>>,
        identity: CacheIdentityView,
        purpose: ProviderAttemptPurpose,
    },
    CacheOperationRejected {
        operation: Seq<char>,
        request: Option<Seq<char>>,
        attempt: Option<Seq<char>>,
        identity: CacheIdentityView,
        purpose: ProviderAttemptPurpose,
        reason: CacheOperationReason,
    },
    CacheOperationStarted {
        operation: Seq<char>,
        request: Option<Seq<char>>,
        attempt: Option<Seq<char>>,
        identity: CacheIdentityView,
        purpose: ProviderAttemptPurpose,
    },
    CacheOperationCompleted {
        operation: Seq<char>,
        request: Option<Seq<char>>,
        attempt: Option<Seq<char>>,
        identity: CacheIdentityView,
        purpose: ProviderAttemptPurpose,
        outcome: CacheOperationOutcome,
        reason: Option<CacheOperationReason>,
        metrics: Seq<(Seq<char>, u64)>,
    },
    CacheAvailabilityEvidenceRecorded { evidence: CacheAvailabilityEvidenceView },
    CacheOperationSuspended {
        request: Option<Seq<char>>,
        attempt: Option<Seq<char>>,
        identity: CacheIdentityView,
        operation: Option<Seq<char>>,
        reason: CacheOperationReason,
    },
    RateLimitObservation { attempt: Seq<char>, snapshot: RateLimitSnapshotView },
    ProviderAttemptFinished { attempt: Seq<char>, finish: FinishReason, retryable: bool },
    LimitReached { limit: LimitKind },
    Error { error: RuntimeErrorView },
    TurnCompleted { finish: TurnFinishView, visible_output: bool },
    ChildSpawned {
        child: Seq<char>,
        workspace: WorkspacePolicyView,
        max_turns: u32,
        max_tokens: Option<u64>,
        deadline_ms: Option<u64>,
    },
    ChildProgress { child: Seq<char>, phase: ChildPhaseView },
    ChildNeedsInput {
        child: Seq<char>,
        child_session: Seq<char>,
        turn: Seq<char>,
        call: Seq<char>,
        request: Seq<char>,
        question_ids: Seq<Seq<char>>,
        sensitivity: InteractionSensitivity,
    },
    ChildCompleted { child: Seq<char>, result: Seq<char> },
    ChildStopped { child: Seq<char>, reason: CancelReasonView },
    ChildFailed { child: Seq<char>, error: RuntimeErrorView },
    SessionShutdown,
}

impl DeepView for RuntimeEvent {
    type V = RuntimeEventView;

    open spec fn deep_view(&self) -> RuntimeEventView {
        match self {
            RuntimeEvent::SessionStarted => RuntimeEventView::SessionStarted,
            RuntimeEvent::TurnStarted => RuntimeEventView::TurnStarted,
            RuntimeEvent::TurnSteerCommitted { steer, ordinal } => {
                RuntimeEventView::TurnSteerCommitted {
                    steer: steer.deep_view(),
                    ordinal: ordinal.deep_view(),
                }
            },
            RuntimeEvent::TurnSteerDiscarded { steer, ordinal, reason } => {
                RuntimeEventView::TurnSteerDiscarded {
                    steer: steer.deep_view(),
                    ordinal: ordinal.deep_view(),
                    reason: reason.deep_view(),
                }
            },
            RuntimeEvent::InternalTurnStarted { source } => RuntimeEventView::InternalTurnStarted {
                source: source.deep_view(),
            },
            RuntimeEvent::RegistrySnapshotSealed { snapshot, entries } => {
                RuntimeEventView::RegistrySnapshotSealed {
                    snapshot: snapshot.deep_view(),
                    entries: entries.deep_view(),
                }
            },
            RuntimeEvent::ScopedViewDerived { snapshot, view, visible_entries } => {
                RuntimeEventView::ScopedViewDerived {
                    snapshot: snapshot.deep_view(),
                    view: view.deep_view(),
                    visible_entries: visible_entries.deep_view(),
                }
            },
            RuntimeEvent::ModelProfileResolved { provider, model, profile } => {
                RuntimeEventView::ModelProfileResolved {
                    provider: provider.deep_view(),
                    model: model.deep_view(),
                    profile: profile.deep_view(),
                }
            },
            RuntimeEvent::CapabilityRetrievalPerformed {
                resolver_revision,
                index_revision,
                candidates,
            } => RuntimeEventView::CapabilityRetrievalPerformed {
                resolver_revision: resolver_revision.deep_view(),
                index_revision: index_revision.deep_view(),
                candidates: candidates.deep_view(),
            },
            RuntimeEvent::CapabilitiesActivated { epoch, activation } => {
                RuntimeEventView::CapabilitiesActivated {
                    epoch: epoch.deep_view(),
                    activation: activation.deep_view(),
                }
            },
            RuntimeEvent::ContextPlanned {
                context,
                cache_plan,
                segment_count,
                totals,
                input_tokens,
                input_budget_tokens,
                reserved_tokens,
                confidence,
            } => RuntimeEventView::ContextPlanned {
                context: context.deep_view(),
                cache_plan: cache_plan.deep_view(),
                segment_count: segment_count.deep_view(),
                totals: totals.deep_view(),
                input_tokens: input_tokens.deep_view(),
                input_budget_tokens: input_budget_tokens.deep_view(),
                reserved_tokens: reserved_tokens.deep_view(),
                confidence: confidence.deep_view(),
            },
            RuntimeEvent::ContextCompacted {
                context,
                reason,
                evicted,
                summaries,
                reclaimed_tokens,
            } => RuntimeEventView::ContextCompacted {
                context: context.deep_view(),
                reason: reason.deep_view(),
                evicted: evicted.deep_view(),
                summaries: summaries.deep_view(),
                reclaimed_tokens: reclaimed_tokens.deep_view(),
            },
            RuntimeEvent::LcmLifecycle { kind, reason, metadata } => {
                RuntimeEventView::LcmLifecycle {
                    kind: kind.deep_view(),
                    reason: reason.deep_view(),
                    metadata: metadata.deep_view(),
                }
            },
            RuntimeEvent::PlanUpdated { revision, sensitivity, counts, items } => {
                RuntimeEventView::PlanUpdated {
                    revision: revision.deep_view(),
                    sensitivity: sensitivity.deep_view(),
                    counts: counts.deep_view(),
                    items: items.deep_view(),
                }
            },
            RuntimeEvent::GoalUpdated { cause, sensitivity, goal } => {
                RuntimeEventView::GoalUpdated {
                    cause: cause.deep_view(),
                    sensitivity: sensitivity.deep_view(),
                    goal: goal.deep_view(),
                }
            },
            RuntimeEvent::CachePlanChanged {
                cache_plan,
                preserved_prefix_tokens,
                invalidated_prefix_tokens,
                provider_cache_supported,
            } => RuntimeEventView::CachePlanChanged {
                cache_plan: cache_plan.deep_view(),
                preserved_prefix_tokens: preserved_prefix_tokens.deep_view(),
                invalidated_prefix_tokens: invalidated_prefix_tokens.deep_view(),
                provider_cache_supported: provider_cache_supported.deep_view(),
            },
            RuntimeEvent::BudgetFailure { category, requested_tokens, limit_tokens } => {
                RuntimeEventView::BudgetFailure {
                    category: category.deep_view(),
                    requested_tokens: requested_tokens.deep_view(),
                    limit_tokens: limit_tokens.deep_view(),
                }
            },
            RuntimeEvent::ProviderAttemptStarted { request, attempt, index, model } => {
                RuntimeEventView::ProviderAttemptStarted {
                    request: request.deep_view(),
                    attempt: attempt.deep_view(),
                    index: index.deep_view(),
                    model: model.deep_view(),
                }
            },
            RuntimeEvent::TextDelta { request, attempt, text } => RuntimeEventView::TextDelta {
                request: request.deep_view(),
                attempt: attempt.deep_view(),
                text: text.deep_view(),
            },
            RuntimeEvent::ReasoningDelta { request, attempt, text, redacted } => {
                RuntimeEventView::ReasoningDelta {
                    request: request.deep_view(),
                    attempt: attempt.deep_view(),
                    text: text.deep_view(),
                    redacted: redacted.deep_view(),
                }
            },
            RuntimeEvent::ProviderAttemptOutputCommitted { request, attempt } => {
                RuntimeEventView::ProviderAttemptOutputCommitted {
                    request: request.deep_view(),
                    attempt: attempt.deep_view(),
                }
            },
            RuntimeEvent::ProviderAttemptOutputDiscarded { request, attempt } => {
                RuntimeEventView::ProviderAttemptOutputDiscarded {
                    request: request.deep_view(),
                    attempt: attempt.deep_view(),
                }
            },
            RuntimeEvent::ToolCallRequested {
                call,
                name,
                argument_keys,
                argument_fingerprint,
                arguments,
            } => RuntimeEventView::ToolCallRequested {
                call: call.deep_view(),
                name: name.deep_view(),
                argument_keys: argument_keys.deep_view(),
                argument_fingerprint: argument_fingerprint.deep_view(),
                arguments: arguments.deep_view(),
            },
            RuntimeEvent::InteractionRequested { request, call, question_count, sensitivity } => {
                RuntimeEventView::InteractionRequested {
                    request: request.deep_view(),
                    call: call.deep_view(),
                    question_count: question_count.deep_view(),
                    sensitivity: sensitivity.deep_view(),
                }
            },
            RuntimeEvent::InteractionResolved { request, call, outcome } => {
                RuntimeEventView::InteractionResolved {
                    request: request.deep_view(),
                    call: call.deep_view(),
                    outcome: outcome.deep_view(),
                }
            },
            RuntimeEvent::ToolCallCompleted { call, name, is_error } => {
                RuntimeEventView::ToolCallCompleted {
                    call: call.deep_view(),
                    name: name.deep_view(),
                    is_error: is_error.deep_view(),
                }
            },
            RuntimeEvent::Downgrade { capability, detail } => RuntimeEventView::Downgrade {
                capability: capability.deep_view(),
                detail: detail.deep_view(),
            },
            RuntimeEvent::Usage { record } => RuntimeEventView::Usage {
                record: record.deep_view(),
            },
            RuntimeEvent::CacheObservation {
                request,
                attempt,
                cache_plan,
                cache_identity,
                read_tokens,
                write_tokens,
            } => RuntimeEventView::CacheObservation {
                request: request.deep_view(),
                attempt: attempt.deep_view(),
                cache_plan: cache_plan.deep_view(),
                cache_identity: cache_identity.deep_view(),
                read_tokens: read_tokens.deep_view(),
                write_tokens: write_tokens.deep_view(),
            },
            RuntimeEvent::CacheStateChanged {
                request,
                attempt,
                cache_plan,
                cache_identity,
                state,
                expected_read_tokens,
                observed_read_tokens,
                observed_write_tokens,
                missed_tokens,
                confidence,
            } => RuntimeEventView::CacheStateChanged {
                request: request.deep_view(),
                attempt: attempt.deep_view(),
                cache_plan: cache_plan.deep_view(),
                cache_identity: cache_identity.deep_view(),
                state: state.deep_view(),
                expected_read_tokens: expected_read_tokens.deep_view(),
                observed_read_tokens: observed_read_tokens.deep_view(),
                observed_write_tokens: observed_write_tokens.deep_view(),
                missed_tokens: missed_tokens.deep_view(),
                confidence: confidence.deep_view(),
            },
            RuntimeEvent::CacheOperationPrepared { operation, request, identity, purpose } => {
                RuntimeEventView::CacheOperationPrepared {
                    operation: operation.deep_view(),
                    request: request.deep_view(),
                    identity: identity.deep_view(),
                    purpose: purpose.deep_view(),
                }
            },
            RuntimeEvent::CacheOperationRejected {
                operation,
                request,
                attempt,
                identity,
                purpose,
                reason,
            } => RuntimeEventView::CacheOperationRejected {
                operation: operation.deep_view(),
                request: request.deep_view(),
                attempt: attempt.deep_view(),
                identity: identity.deep_view(),
                purpose: purpose.deep_view(),
                reason: reason.deep_view(),
            },
            RuntimeEvent::CacheOperationStarted {
                operation,
                request,
                attempt,
                identity,
                purpose,
            } => RuntimeEventView::CacheOperationStarted {
                operation: operation.deep_view(),
                request: request.deep_view(),
                attempt: attempt.deep_view(),
                identity: identity.deep_view(),
                purpose: purpose.deep_view(),
            },
            RuntimeEvent::CacheOperationCompleted {
                operation,
                request,
                attempt,
                identity,
                purpose,
                outcome,
                reason,
                metrics,
            } => RuntimeEventView::CacheOperationCompleted {
                operation: operation.deep_view(),
                request: request.deep_view(),
                attempt: attempt.deep_view(),
                identity: identity.deep_view(),
                purpose: purpose.deep_view(),
                outcome: outcome.deep_view(),
                reason: reason.deep_view(),
                metrics: metrics.deep_view(),
            },
            RuntimeEvent::CacheAvailabilityEvidenceRecorded { evidence } => {
                RuntimeEventView::CacheAvailabilityEvidenceRecorded {
                    evidence: evidence.deep_view(),
                }
            },
            RuntimeEvent::CacheOperationSuspended {
                request,
                attempt,
                identity,
                operation,
                reason,
            } => RuntimeEventView::CacheOperationSuspended {
                request: request.deep_view(),
                attempt: attempt.deep_view(),
                identity: identity.deep_view(),
                operation: operation.deep_view(),
                reason: reason.deep_view(),
            },
            RuntimeEvent::RateLimitObservation { attempt, snapshot } => {
                RuntimeEventView::RateLimitObservation {
                    attempt: attempt.deep_view(),
                    snapshot: snapshot.deep_view(),
                }
            },
            RuntimeEvent::ProviderAttemptFinished { attempt, finish, retryable } => {
                RuntimeEventView::ProviderAttemptFinished {
                    attempt: attempt.deep_view(),
                    finish: finish.deep_view(),
                    retryable: retryable.deep_view(),
                }
            },
            RuntimeEvent::LimitReached { limit } => RuntimeEventView::LimitReached {
                limit: limit.deep_view(),
            },
            RuntimeEvent::Error { error } => RuntimeEventView::Error { error: error.deep_view() },
            RuntimeEvent::TurnCompleted { finish, visible_output } => {
                RuntimeEventView::TurnCompleted {
                    finish: finish.deep_view(),
                    visible_output: visible_output.deep_view(),
                }
            },
            RuntimeEvent::ChildSpawned { child, workspace, max_turns, max_tokens, deadline_ms } => {
                RuntimeEventView::ChildSpawned {
                    child: child.deep_view(),
                    workspace: workspace.deep_view(),
                    max_turns: max_turns.deep_view(),
                    max_tokens: max_tokens.deep_view(),
                    deadline_ms: deadline_ms.deep_view(),
                }
            },
            RuntimeEvent::ChildProgress { child, phase } => RuntimeEventView::ChildProgress {
                child: child.deep_view(),
                phase: phase.deep_view(),
            },
            RuntimeEvent::ChildNeedsInput {
                child,
                child_session,
                turn,
                call,
                request,
                question_ids,
                sensitivity,
            } => RuntimeEventView::ChildNeedsInput {
                child: child.deep_view(),
                child_session: child_session.deep_view(),
                turn: turn.deep_view(),
                call: call.deep_view(),
                request: request.deep_view(),
                question_ids: question_ids.deep_view(),
                sensitivity: sensitivity.deep_view(),
            },
            RuntimeEvent::ChildCompleted { child, result } => RuntimeEventView::ChildCompleted {
                child: child.deep_view(),
                result: result.deep_view(),
            },
            RuntimeEvent::ChildStopped { child, reason } => RuntimeEventView::ChildStopped {
                child: child.deep_view(),
                reason: reason.deep_view(),
            },
            RuntimeEvent::ChildFailed { child, error } => RuntimeEventView::ChildFailed {
                child: child.deep_view(),
                error: error.deep_view(),
            },
            RuntimeEvent::SessionShutdown => RuntimeEventView::SessionShutdown,
        }
    }
}

impl View for RuntimeEvent {
    type V = RuntimeEventView;

    open spec fn view(&self) -> RuntimeEventView {
        self.deep_view()
    }
}

impl Record for RuntimeEvent {
    fn same(&self, other: &Self) -> (r: bool) {
        match (self, other) {
            (RuntimeEvent::SessionStarted, RuntimeEvent::SessionStarted) => true,
            (RuntimeEvent::TurnStarted, RuntimeEvent::TurnStarted) => true,
            (
                RuntimeEvent::TurnSteerCommitted { steer, ordinal },
                RuntimeEvent::TurnSteerCommitted { steer: steer_b, ordinal: ordinal_b },
            ) => steer.same(steer_b) && ordinal.same(ordinal_b),
            (
                RuntimeEvent::TurnSteerDiscarded { steer, ordinal, reason },
                RuntimeEvent::TurnSteerDiscarded {
                    steer: steer_b,
                    ordinal: ordinal_b,
                    reason: reason_b,
                },
            ) => steer.same(steer_b) && ordinal.same(ordinal_b) && reason.same(reason_b),
            (
                RuntimeEvent::InternalTurnStarted { source },
                RuntimeEvent::InternalTurnStarted { source: source_b },
            ) => source.same(source_b),
            (
                RuntimeEvent::RegistrySnapshotSealed { snapshot, entries },
                RuntimeEvent::RegistrySnapshotSealed { snapshot: snapshot_b, entries: entries_b },
            ) => snapshot.same(snapshot_b) && entries.same(entries_b),
            (
                RuntimeEvent::ScopedViewDerived { snapshot, view, visible_entries },
                RuntimeEvent::ScopedViewDerived {
                    snapshot: snapshot_b,
                    view: view_b,
                    visible_entries: visible_entries_b,
                },
            ) => snapshot.same(snapshot_b)
                && view.same(view_b)
                && visible_entries.same(visible_entries_b),
            (
                RuntimeEvent::ModelProfileResolved { provider, model, profile },
                RuntimeEvent::ModelProfileResolved {
                    provider: provider_b,
                    model: model_b,
                    profile: profile_b,
                },
            ) => provider.same(provider_b) && model.same(model_b) && profile.same(profile_b),
            (
                RuntimeEvent::CapabilityRetrievalPerformed {
                    resolver_revision,
                    index_revision,
                    candidates,
                },
                RuntimeEvent::CapabilityRetrievalPerformed {
                    resolver_revision: resolver_revision_b,
                    index_revision: index_revision_b,
                    candidates: candidates_b,
                },
            ) => resolver_revision.same(resolver_revision_b)
                && index_revision.same(index_revision_b)
                && candidates.same(candidates_b),
            (
                RuntimeEvent::CapabilitiesActivated { epoch, activation },
                RuntimeEvent::CapabilitiesActivated { epoch: epoch_b, activation: activation_b },
            ) => epoch.same(epoch_b) && activation.same(activation_b),
            (
                RuntimeEvent::ContextPlanned {
                    context,
                    cache_plan,
                    segment_count,
                    totals,
                    input_tokens,
                    input_budget_tokens,
                    reserved_tokens,
                    confidence,
                },
                RuntimeEvent::ContextPlanned {
                    context: context_b,
                    cache_plan: cache_plan_b,
                    segment_count: segment_count_b,
                    totals: totals_b,
                    input_tokens: input_tokens_b,
                    input_budget_tokens: input_budget_tokens_b,
                    reserved_tokens: reserved_tokens_b,
                    confidence: confidence_b,
                },
            ) => context.same(context_b)
                && cache_plan.same(cache_plan_b)
                && segment_count.same(segment_count_b)
                && totals.same(totals_b)
                && input_tokens.same(input_tokens_b)
                && input_budget_tokens.same(input_budget_tokens_b)
                && reserved_tokens.same(reserved_tokens_b)
                && confidence.same(confidence_b),
            (
                RuntimeEvent::ContextCompacted {
                    context,
                    reason,
                    evicted,
                    summaries,
                    reclaimed_tokens,
                },
                RuntimeEvent::ContextCompacted {
                    context: context_b,
                    reason: reason_b,
                    evicted: evicted_b,
                    summaries: summaries_b,
                    reclaimed_tokens: reclaimed_tokens_b,
                },
            ) => context.same(context_b)
                && reason.same(reason_b)
                && evicted.same(evicted_b)
                && summaries.same(summaries_b)
                && reclaimed_tokens.same(reclaimed_tokens_b),
            (
                RuntimeEvent::LcmLifecycle { kind, reason, metadata },
                RuntimeEvent::LcmLifecycle { kind: kind_b, reason: reason_b, metadata: metadata_b },
            ) => kind.same(kind_b) && reason.same(reason_b) && metadata.same(metadata_b),
            (
                RuntimeEvent::PlanUpdated { revision, sensitivity, counts, items },
                RuntimeEvent::PlanUpdated {
                    revision: revision_b,
                    sensitivity: sensitivity_b,
                    counts: counts_b,
                    items: items_b,
                },
            ) => revision.same(revision_b)
                && sensitivity.same(sensitivity_b)
                && counts.same(counts_b)
                && items.same(items_b),
            (
                RuntimeEvent::GoalUpdated { cause, sensitivity, goal },
                RuntimeEvent::GoalUpdated {
                    cause: cause_b,
                    sensitivity: sensitivity_b,
                    goal: goal_b,
                },
            ) => cause.same(cause_b) && sensitivity.same(sensitivity_b) && goal.same(goal_b),
            (
                RuntimeEvent::CachePlanChanged {
                    cache_plan,
                    preserved_prefix_tokens,
                    invalidated_prefix_tokens,
                    provider_cache_supported,
                },
                RuntimeEvent::CachePlanChanged {
                    cache_plan: cache_plan_b,
                    preserved_prefix_tokens: preserved_prefix_tokens_b,
                    invalidated_prefix_tokens: invalidated_prefix_tokens_b,
                    provider_cache_supported: provider_cache_supported_b,
                },
            ) => cache_plan.same(cache_plan_b)
                && preserved_prefix_tokens.same(preserved_prefix_tokens_b)
                && invalidated_prefix_tokens.same(invalidated_prefix_tokens_b)
                && provider_cache_supported.same(provider_cache_supported_b),
            (
                RuntimeEvent::BudgetFailure { category, requested_tokens, limit_tokens },
                RuntimeEvent::BudgetFailure {
                    category: category_b,
                    requested_tokens: requested_tokens_b,
                    limit_tokens: limit_tokens_b,
                },
            ) => category.same(category_b)
                && requested_tokens.same(requested_tokens_b)
                && limit_tokens.same(limit_tokens_b),
            (
                RuntimeEvent::ProviderAttemptStarted { request, attempt, index, model },
                RuntimeEvent::ProviderAttemptStarted {
                    request: request_b,
                    attempt: attempt_b,
                    index: index_b,
                    model: model_b,
                },
            ) => request.same(request_b)
                && attempt.same(attempt_b)
                && index.same(index_b)
                && model.same(model_b),
            (
                RuntimeEvent::TextDelta { request, attempt, text },
                RuntimeEvent::TextDelta { request: request_b, attempt: attempt_b, text: text_b },
            ) => request.same(request_b) && attempt.same(attempt_b) && text.same(text_b),
            (
                RuntimeEvent::ReasoningDelta { request, attempt, text, redacted },
                RuntimeEvent::ReasoningDelta {
                    request: request_b,
                    attempt: attempt_b,
                    text: text_b,
                    redacted: redacted_b,
                },
            ) => request.same(request_b)
                && attempt.same(attempt_b)
                && text.same(text_b)
                && redacted.same(redacted_b),
            (
                RuntimeEvent::ProviderAttemptOutputCommitted { request, attempt },
                RuntimeEvent::ProviderAttemptOutputCommitted {
                    request: request_b,
                    attempt: attempt_b,
                },
            ) => request.same(request_b) && attempt.same(attempt_b),
            (
                RuntimeEvent::ProviderAttemptOutputDiscarded { request, attempt },
                RuntimeEvent::ProviderAttemptOutputDiscarded {
                    request: request_b,
                    attempt: attempt_b,
                },
            ) => request.same(request_b) && attempt.same(attempt_b),
            (
                RuntimeEvent::ToolCallRequested {
                    call,
                    name,
                    argument_keys,
                    argument_fingerprint,
                    arguments,
                },
                RuntimeEvent::ToolCallRequested {
                    call: call_b,
                    name: name_b,
                    argument_keys: argument_keys_b,
                    argument_fingerprint: argument_fingerprint_b,
                    arguments: arguments_b,
                },
            ) => call.same(call_b)
                && name.same(name_b)
                && argument_keys.same(argument_keys_b)
                && argument_fingerprint.same(argument_fingerprint_b)
                && arguments.same(arguments_b),
            (
                RuntimeEvent::InteractionRequested { request, call, question_count, sensitivity },
                RuntimeEvent::InteractionRequested {
                    request: request_b,
                    call: call_b,
                    question_count: question_count_b,
                    sensitivity: sensitivity_b,
                },
            ) => request.same(request_b)
                && call.same(call_b)
                && question_count.same(question_count_b)
                && sensitivity.same(sensitivity_b),
            (
                RuntimeEvent::InteractionResolved { request, call, outcome },
                RuntimeEvent::InteractionResolved {
                    request: request_b,
                    call: call_b,
                    outcome: outcome_b,
                },
            ) => request.same(request_b) && call.same(call_b) && outcome.same(outcome_b),
            (
                RuntimeEvent::ToolCallCompleted { call, name, is_error },
                RuntimeEvent::ToolCallCompleted {
                    call: call_b,
                    name: name_b,
                    is_error: is_error_b,
                },
            ) => call.same(call_b) && name.same(name_b) && is_error.same(is_error_b),
            (
                RuntimeEvent::Downgrade { capability, detail },
                RuntimeEvent::Downgrade { capability: capability_b, detail: detail_b },
            ) => capability.same(capability_b) && detail.same(detail_b),
            (RuntimeEvent::Usage { record }, RuntimeEvent::Usage { record: record_b }) => {
                record.same(record_b)
            },
            (
                RuntimeEvent::CacheObservation {
                    request,
                    attempt,
                    cache_plan,
                    cache_identity,
                    read_tokens,
                    write_tokens,
                },
                RuntimeEvent::CacheObservation {
                    request: request_b,
                    attempt: attempt_b,
                    cache_plan: cache_plan_b,
                    cache_identity: cache_identity_b,
                    read_tokens: read_tokens_b,
                    write_tokens: write_tokens_b,
                },
            ) => request.same(request_b)
                && attempt.same(attempt_b)
                && cache_plan.same(cache_plan_b)
                && cache_identity.same(cache_identity_b)
                && read_tokens.same(read_tokens_b)
                && write_tokens.same(write_tokens_b),
            (
                RuntimeEvent::CacheStateChanged {
                    request,
                    attempt,
                    cache_plan,
                    cache_identity,
                    state,
                    expected_read_tokens,
                    observed_read_tokens,
                    observed_write_tokens,
                    missed_tokens,
                    confidence,
                },
                RuntimeEvent::CacheStateChanged {
                    request: request_b,
                    attempt: attempt_b,
                    cache_plan: cache_plan_b,
                    cache_identity: cache_identity_b,
                    state: state_b,
                    expected_read_tokens: expected_read_tokens_b,
                    observed_read_tokens: observed_read_tokens_b,
                    observed_write_tokens: observed_write_tokens_b,
                    missed_tokens: missed_tokens_b,
                    confidence: confidence_b,
                },
            ) => request.same(request_b)
                && attempt.same(attempt_b)
                && cache_plan.same(cache_plan_b)
                && cache_identity.same(cache_identity_b)
                && state.same(state_b)
                && expected_read_tokens.same(expected_read_tokens_b)
                && observed_read_tokens.same(observed_read_tokens_b)
                && observed_write_tokens.same(observed_write_tokens_b)
                && missed_tokens.same(missed_tokens_b)
                && confidence.same(confidence_b),
            (
                RuntimeEvent::CacheOperationPrepared { operation, request, identity, purpose },
                RuntimeEvent::CacheOperationPrepared {
                    operation: operation_b,
                    request: request_b,
                    identity: identity_b,
                    purpose: purpose_b,
                },
            ) => operation.same(operation_b)
                && request.same(request_b)
                && identity.same(identity_b)
                && purpose.same(purpose_b),
            (
                RuntimeEvent::CacheOperationRejected {
                    operation,
                    request,
                    attempt,
                    identity,
                    purpose,
                    reason,
                },
                RuntimeEvent::CacheOperationRejected {
                    operation: operation_b,
                    request: request_b,
                    attempt: attempt_b,
                    identity: identity_b,
                    purpose: purpose_b,
                    reason: reason_b,
                },
            ) => operation.same(operation_b)
                && request.same(request_b)
                && attempt.same(attempt_b)
                && identity.same(identity_b)
                && purpose.same(purpose_b)
                && reason.same(reason_b),
            (
                RuntimeEvent::CacheOperationStarted {
                    operation,
                    request,
                    attempt,
                    identity,
                    purpose,
                },
                RuntimeEvent::CacheOperationStarted {
                    operation: operation_b,
                    request: request_b,
                    attempt: attempt_b,
                    identity: identity_b,
                    purpose: purpose_b,
                },
            ) => operation.same(operation_b)
                && request.same(request_b)
                && attempt.same(attempt_b)
                && identity.same(identity_b)
                && purpose.same(purpose_b),
            (
                RuntimeEvent::CacheOperationCompleted {
                    operation,
                    request,
                    attempt,
                    identity,
                    purpose,
                    outcome,
                    reason,
                    metrics,
                },
                RuntimeEvent::CacheOperationCompleted {
                    operation: operation_b,
                    request: request_b,
                    attempt: attempt_b,
                    identity: identity_b,
                    purpose: purpose_b,
                    outcome: outcome_b,
                    reason: reason_b,
                    metrics: metrics_b,
                },
            ) => operation.same(operation_b)
                && request.same(request_b)
                && attempt.same(attempt_b)
                && identity.same(identity_b)
                && purpose.same(purpose_b)
                && outcome.same(outcome_b)
                && reason.same(reason_b)
                && metrics.same(metrics_b),
            (
                RuntimeEvent::CacheAvailabilityEvidenceRecorded { evidence },
                RuntimeEvent::CacheAvailabilityEvidenceRecorded { evidence: evidence_b },
            ) => evidence.same(evidence_b),
            (
                RuntimeEvent::CacheOperationSuspended {
                    request,
                    attempt,
                    identity,
                    operation,
                    reason,
                },
                RuntimeEvent::CacheOperationSuspended {
                    request: request_b,
                    attempt: attempt_b,
                    identity: identity_b,
                    operation: operation_b,
                    reason: reason_b,
                },
            ) => request.same(request_b)
                && attempt.same(attempt_b)
                && identity.same(identity_b)
                && operation.same(operation_b)
                && reason.same(reason_b),
            (
                RuntimeEvent::RateLimitObservation { attempt, snapshot },
                RuntimeEvent::RateLimitObservation { attempt: attempt_b, snapshot: snapshot_b },
            ) => attempt.same(attempt_b) && snapshot.same(snapshot_b),
            (
                RuntimeEvent::ProviderAttemptFinished { attempt, finish, retryable },
                RuntimeEvent::ProviderAttemptFinished {
                    attempt: attempt_b,
                    finish: finish_b,
                    retryable: retryable_b,
                },
            ) => attempt.same(attempt_b) && finish.same(finish_b) && retryable.same(retryable_b),
            (
                RuntimeEvent::LimitReached { limit },
                RuntimeEvent::LimitReached { limit: limit_b },
            ) => limit.same(limit_b),
            (RuntimeEvent::Error { error }, RuntimeEvent::Error { error: error_b }) => {
                error.same(error_b)
            },
            (
                RuntimeEvent::TurnCompleted { finish, visible_output },
                RuntimeEvent::TurnCompleted { finish: finish_b, visible_output: visible_output_b },
            ) => finish.same(finish_b) && visible_output.same(visible_output_b),
            (
                RuntimeEvent::ChildSpawned { child, workspace, max_turns, max_tokens, deadline_ms },
                RuntimeEvent::ChildSpawned {
                    child: child_b,
                    workspace: workspace_b,
                    max_turns: max_turns_b,
                    max_tokens: max_tokens_b,
                    deadline_ms: deadline_ms_b,
                },
            ) => child.same(child_b)
                && workspace.same(workspace_b)
                && max_turns.same(max_turns_b)
                && max_tokens.same(max_tokens_b)
                && deadline_ms.same(deadline_ms_b),
            (
                RuntimeEvent::ChildProgress { child, phase },
                RuntimeEvent::ChildProgress { child: child_b, phase: phase_b },
            ) => child.same(child_b) && phase.same(phase_b),
            (
                RuntimeEvent::ChildNeedsInput {
                    child,
                    child_session,
                    turn,
                    call,
                    request,
                    question_ids,
                    sensitivity,
                },
                RuntimeEvent::ChildNeedsInput {
                    child: child_b,
                    child_session: child_session_b,
                    turn: turn_b,
                    call: call_b,
                    request: request_b,
                    question_ids: question_ids_b,
                    sensitivity: sensitivity_b,
                },
            ) => child.same(child_b)
                && child_session.same(child_session_b)
                && turn.same(turn_b)
                && call.same(call_b)
                && request.same(request_b)
                && question_ids.same(question_ids_b)
                && sensitivity.same(sensitivity_b),
            (
                RuntimeEvent::ChildCompleted { child, result },
                RuntimeEvent::ChildCompleted { child: child_b, result: result_b },
            ) => child.same(child_b) && result.same(result_b),
            (
                RuntimeEvent::ChildStopped { child, reason },
                RuntimeEvent::ChildStopped { child: child_b, reason: reason_b },
            ) => child.same(child_b) && reason.same(reason_b),
            (
                RuntimeEvent::ChildFailed { child, error },
                RuntimeEvent::ChildFailed { child: child_b, error: error_b },
            ) => child.same(child_b) && error.same(error_b),
            (RuntimeEvent::SessionShutdown, RuntimeEvent::SessionShutdown) => true,
            _ => false,
        }
    }

    fn copied(&self) -> (r: Self) {
        match self {
            RuntimeEvent::SessionStarted => RuntimeEvent::SessionStarted,
            RuntimeEvent::TurnStarted => RuntimeEvent::TurnStarted,
            RuntimeEvent::TurnSteerCommitted { steer, ordinal } => {
                RuntimeEvent::TurnSteerCommitted {
                    steer: steer.copied(),
                    ordinal: ordinal.copied(),
                }
            },
            RuntimeEvent::TurnSteerDiscarded { steer, ordinal, reason } => {
                RuntimeEvent::TurnSteerDiscarded {
                    steer: steer.copied(),
                    ordinal: ordinal.copied(),
                    reason: reason.copied(),
                }
            },
            RuntimeEvent::InternalTurnStarted { source } => RuntimeEvent::InternalTurnStarted {
                source: source.copied(),
            },
            RuntimeEvent::RegistrySnapshotSealed { snapshot, entries } => {
                RuntimeEvent::RegistrySnapshotSealed {
                    snapshot: snapshot.copied(),
                    entries: entries.copied(),
                }
            },
            RuntimeEvent::ScopedViewDerived { snapshot, view, visible_entries } => {
                RuntimeEvent::ScopedViewDerived {
                    snapshot: snapshot.copied(),
                    view: view.copied(),
                    visible_entries: visible_entries.copied(),
                }
            },
            RuntimeEvent::ModelProfileResolved { provider, model, profile } => {
                RuntimeEvent::ModelProfileResolved {
                    provider: provider.copied(),
                    model: model.copied(),
                    profile: profile.copied(),
                }
            },
            RuntimeEvent::CapabilityRetrievalPerformed {
                resolver_revision,
                index_revision,
                candidates,
            } => RuntimeEvent::CapabilityRetrievalPerformed {
                resolver_revision: resolver_revision.copied(),
                index_revision: index_revision.copied(),
                candidates: candidates.copied(),
            },
            RuntimeEvent::CapabilitiesActivated { epoch, activation } => {
                RuntimeEvent::CapabilitiesActivated {
                    epoch: epoch.copied(),
                    activation: activation.copied(),
                }
            },
            RuntimeEvent::ContextPlanned {
                context,
                cache_plan,
                segment_count,
                totals,
                input_tokens,
                input_budget_tokens,
                reserved_tokens,
                confidence,
            } => RuntimeEvent::ContextPlanned {
                context: context.copied(),
                cache_plan: cache_plan.copied(),
                segment_count: segment_count.copied(),
                totals: totals.copied(),
                input_tokens: input_tokens.copied(),
                input_budget_tokens: input_budget_tokens.copied(),
                reserved_tokens: reserved_tokens.copied(),
                confidence: confidence.copied(),
            },
            RuntimeEvent::ContextCompacted {
                context,
                reason,
                evicted,
                summaries,
                reclaimed_tokens,
            } => RuntimeEvent::ContextCompacted {
                context: context.copied(),
                reason: reason.copied(),
                evicted: evicted.copied(),
                summaries: summaries.copied(),
                reclaimed_tokens: reclaimed_tokens.copied(),
            },
            RuntimeEvent::LcmLifecycle { kind, reason, metadata } => RuntimeEvent::LcmLifecycle {
                kind: kind.copied(),
                reason: reason.copied(),
                metadata: metadata.copied(),
            },
            RuntimeEvent::PlanUpdated { revision, sensitivity, counts, items } => {
                RuntimeEvent::PlanUpdated {
                    revision: revision.copied(),
                    sensitivity: sensitivity.copied(),
                    counts: counts.copied(),
                    items: items.copied(),
                }
            },
            RuntimeEvent::GoalUpdated { cause, sensitivity, goal } => RuntimeEvent::GoalUpdated {
                cause: cause.copied(),
                sensitivity: sensitivity.copied(),
                goal: goal.copied(),
            },
            RuntimeEvent::CachePlanChanged {
                cache_plan,
                preserved_prefix_tokens,
                invalidated_prefix_tokens,
                provider_cache_supported,
            } => RuntimeEvent::CachePlanChanged {
                cache_plan: cache_plan.copied(),
                preserved_prefix_tokens: preserved_prefix_tokens.copied(),
                invalidated_prefix_tokens: invalidated_prefix_tokens.copied(),
                provider_cache_supported: provider_cache_supported.copied(),
            },
            RuntimeEvent::BudgetFailure { category, requested_tokens, limit_tokens } => {
                RuntimeEvent::BudgetFailure {
                    category: category.copied(),
                    requested_tokens: requested_tokens.copied(),
                    limit_tokens: limit_tokens.copied(),
                }
            },
            RuntimeEvent::ProviderAttemptStarted { request, attempt, index, model } => {
                RuntimeEvent::ProviderAttemptStarted {
                    request: request.copied(),
                    attempt: attempt.copied(),
                    index: index.copied(),
                    model: model.copied(),
                }
            },
            RuntimeEvent::TextDelta { request, attempt, text } => RuntimeEvent::TextDelta {
                request: request.copied(),
                attempt: attempt.copied(),
                text: text.copied(),
            },
            RuntimeEvent::ReasoningDelta { request, attempt, text, redacted } => {
                RuntimeEvent::ReasoningDelta {
                    request: request.copied(),
                    attempt: attempt.copied(),
                    text: text.copied(),
                    redacted: redacted.copied(),
                }
            },
            RuntimeEvent::ProviderAttemptOutputCommitted { request, attempt } => {
                RuntimeEvent::ProviderAttemptOutputCommitted {
                    request: request.copied(),
                    attempt: attempt.copied(),
                }
            },
            RuntimeEvent::ProviderAttemptOutputDiscarded { request, attempt } => {
                RuntimeEvent::ProviderAttemptOutputDiscarded {
                    request: request.copied(),
                    attempt: attempt.copied(),
                }
            },
            RuntimeEvent::ToolCallRequested {
                call,
                name,
                argument_keys,
                argument_fingerprint,
                arguments,
            } => RuntimeEvent::ToolCallRequested {
                call: call.copied(),
                name: name.copied(),
                argument_keys: argument_keys.copied(),
                argument_fingerprint: argument_fingerprint.copied(),
                arguments: arguments.copied(),
            },
            RuntimeEvent::InteractionRequested { request, call, question_count, sensitivity } => {
                RuntimeEvent::InteractionRequested {
                    request: request.copied(),
                    call: call.copied(),
                    question_count: question_count.copied(),
                    sensitivity: sensitivity.copied(),
                }
            },
            RuntimeEvent::InteractionResolved { request, call, outcome } => {
                RuntimeEvent::InteractionResolved {
                    request: request.copied(),
                    call: call.copied(),
                    outcome: outcome.copied(),
                }
            },
            RuntimeEvent::ToolCallCompleted { call, name, is_error } => {
                RuntimeEvent::ToolCallCompleted {
                    call: call.copied(),
                    name: name.copied(),
                    is_error: is_error.copied(),
                }
            },
            RuntimeEvent::Downgrade { capability, detail } => RuntimeEvent::Downgrade {
                capability: capability.copied(),
                detail: detail.copied(),
            },
            RuntimeEvent::Usage { record } => RuntimeEvent::Usage { record: record.copied() },
            RuntimeEvent::CacheObservation {
                request,
                attempt,
                cache_plan,
                cache_identity,
                read_tokens,
                write_tokens,
            } => RuntimeEvent::CacheObservation {
                request: request.copied(),
                attempt: attempt.copied(),
                cache_plan: cache_plan.copied(),
                cache_identity: cache_identity.copied(),
                read_tokens: read_tokens.copied(),
                write_tokens: write_tokens.copied(),
            },
            RuntimeEvent::CacheStateChanged {
                request,
                attempt,
                cache_plan,
                cache_identity,
                state,
                expected_read_tokens,
                observed_read_tokens,
                observed_write_tokens,
                missed_tokens,
                confidence,
            } => RuntimeEvent::CacheStateChanged {
                request: request.copied(),
                attempt: attempt.copied(),
                cache_plan: cache_plan.copied(),
                cache_identity: cache_identity.copied(),
                state: state.copied(),
                expected_read_tokens: expected_read_tokens.copied(),
                observed_read_tokens: observed_read_tokens.copied(),
                observed_write_tokens: observed_write_tokens.copied(),
                missed_tokens: missed_tokens.copied(),
                confidence: confidence.copied(),
            },
            RuntimeEvent::CacheOperationPrepared { operation, request, identity, purpose } => {
                RuntimeEvent::CacheOperationPrepared {
                    operation: operation.copied(),
                    request: request.copied(),
                    identity: identity.copied(),
                    purpose: purpose.copied(),
                }
            },
            RuntimeEvent::CacheOperationRejected {
                operation,
                request,
                attempt,
                identity,
                purpose,
                reason,
            } => RuntimeEvent::CacheOperationRejected {
                operation: operation.copied(),
                request: request.copied(),
                attempt: attempt.copied(),
                identity: identity.copied(),
                purpose: purpose.copied(),
                reason: reason.copied(),
            },
            RuntimeEvent::CacheOperationStarted {
                operation,
                request,
                attempt,
                identity,
                purpose,
            } => RuntimeEvent::CacheOperationStarted {
                operation: operation.copied(),
                request: request.copied(),
                attempt: attempt.copied(),
                identity: identity.copied(),
                purpose: purpose.copied(),
            },
            RuntimeEvent::CacheOperationCompleted {
                operation,
                request,
                attempt,
                identity,
                purpose,
                outcome,
                reason,
                metrics,
            } => RuntimeEvent::CacheOperationCompleted {
                operation: operation.copied(),
                request: request.copied(),
                attempt: attempt.copied(),
                identity: identity.copied(),
                purpose: purpose.copied(),
                outcome: outcome.copied(),
                reason: reason.copied(),
                metrics: metrics.copied(),
            },
            RuntimeEvent::CacheAvailabilityEvidenceRecorded { evidence } => {
                RuntimeEvent::CacheAvailabilityEvidenceRecorded { evidence: evidence.copied() }
            },
            RuntimeEvent::CacheOperationSuspended {
                request,
                attempt,
                identity,
                operation,
                reason,
            } => RuntimeEvent::CacheOperationSuspended {
                request: request.copied(),
                attempt: attempt.copied(),
                identity: identity.copied(),
                operation: operation.copied(),
                reason: reason.copied(),
            },
            RuntimeEvent::RateLimitObservation { attempt, snapshot } => {
                RuntimeEvent::RateLimitObservation {
                    attempt: attempt.copied(),
                    snapshot: snapshot.copied(),
                }
            },
            RuntimeEvent::ProviderAttemptFinished { attempt, finish, retryable } => {
                RuntimeEvent::ProviderAttemptFinished {
                    attempt: attempt.copied(),
                    finish: finish.copied(),
                    retryable: retryable.copied(),
                }
            },
            RuntimeEvent::LimitReached { limit } => RuntimeEvent::LimitReached {
                limit: limit.copied(),
            },
            RuntimeEvent::Error { error } => RuntimeEvent::Error { error: error.copied() },
            RuntimeEvent::TurnCompleted { finish, visible_output } => RuntimeEvent::TurnCompleted {
                finish: finish.copied(),
                visible_output: visible_output.copied(),
            },
            RuntimeEvent::ChildSpawned { child, workspace, max_turns, max_tokens, deadline_ms } => {
                RuntimeEvent::ChildSpawned {
                    child: child.copied(),
                    workspace: workspace.copied(),
                    max_turns: max_turns.copied(),
                    max_tokens: max_tokens.copied(),
                    deadline_ms: deadline_ms.copied(),
                }
            },
            RuntimeEvent::ChildProgress { child, phase } => RuntimeEvent::ChildProgress {
                child: child.copied(),
                phase: phase.copied(),
            },
            RuntimeEvent::ChildNeedsInput {
                child,
                child_session,
                turn,
                call,
                request,
                question_ids,
                sensitivity,
            } => RuntimeEvent::ChildNeedsInput {
                child: child.copied(),
                child_session: child_session.copied(),
                turn: turn.copied(),
                call: call.copied(),
                request: request.copied(),
                question_ids: question_ids.copied(),
                sensitivity: sensitivity.copied(),
            },
            RuntimeEvent::ChildCompleted { child, result } => RuntimeEvent::ChildCompleted {
                child: child.copied(),
                result: result.copied(),
            },
            RuntimeEvent::ChildStopped { child, reason } => RuntimeEvent::ChildStopped {
                child: child.copied(),
                reason: reason.copied(),
            },
            RuntimeEvent::ChildFailed { child, error } => RuntimeEvent::ChildFailed {
                child: child.copied(),
                error: error.copied(),
            },
            RuntimeEvent::SessionShutdown => RuntimeEvent::SessionShutdown,
        }
    }
}

impl Clone for RuntimeEvent {
    fn clone(&self) -> (r: Self)
        ensures
            r@ == self@,
    {
        self.copied()
    }
}

impl RuntimeEventView {
    /// What is wrong with the payload, if anything. Only lifecycle metadata has
    /// bounds to keep.
    pub open spec fn fault(self) -> Option<LcmLifecycleMetadataError> {
        match self {
            RuntimeEventView::LcmLifecycle { metadata, .. } => metadata.fault(),
            _ => None,
        }
    }
}

impl RuntimeEvent {
    /// Validates semantic invariants for payloads that have a bounded
    /// structural contract.
    pub fn validate(&self) -> (r: Result<(), LcmLifecycleMetadataError>)
        ensures
            r == metadata_verdict(self@.fault()),
    {
        match self {
            RuntimeEvent::LcmLifecycle { metadata, .. } => metadata.validate(),
            _ => Ok(()),
        }
    }
}

/// An event envelope could not be constructed because its payload violated an
/// invariant.
#[derive(Debug, Clone, Copy, PartialEq, Eq, Structural)]
pub enum EventEnvelopeError {
    /// Lifecycle metadata failed bounded semantic validation.
    InvalidLcmLifecycleMetadata(LcmLifecycleMetadataError),
}

impl EventEnvelopeError {
    /// The error in words.
    pub fn to_text(self) -> (r: String)
        ensures
            r@ == (match self {
                EventEnvelopeError::InvalidLcmLifecycleMetadata(error) =>
                    "invalid LCM lifecycle metadata: "@ + error.message(),
            }),
    {
        match self {
            EventEnvelopeError::InvalidLcmLifecycleMetadata(error) => {
                let mut out = "invalid LCM lifecycle metadata: ".to_owned();
                out.append(error.to_text());
                out
            },
        }
    }
}

/// A versioned envelope around a [`RuntimeEvent`].
#[derive(PartialEq, Eq)]
pub struct EventEnvelope {
    /// The event vocabulary version.
    pub schema_version: u32,
    /// A per-session monotonic sequence number.
    pub seq: u64,
    /// The event id.
    pub id: EventId,
    /// The owning session.
    pub session: SessionId,
    /// The owning turn, if any.
    pub turn: Option<TurnId>,
    /// When the event was emitted.
    pub timestamp: Timestamp,
    /// The semantic payload.
    pub payload: RuntimeEvent,
    /// Host presentation metadata (excluded from canonical comparisons).
    pub metadata: Metadata,
}

/// What a [`EventEnvelope`] holds.
pub struct EventEnvelopeView {
    pub schema_version: u32,
    pub seq: u64,
    pub id: Seq<char>,
    pub session: Seq<char>,
    pub turn: Option<Seq<char>>,
    pub timestamp: Timestamp,
    pub payload: RuntimeEventView,
    pub metadata: Seq<(Seq<char>, Seq<char>)>,
}

impl DeepView for EventEnvelope {
    type V = EventEnvelopeView;

    open spec fn deep_view(&self) -> EventEnvelopeView {
        EventEnvelopeView {
            schema_version: self.schema_version.deep_view(),
            seq: self.seq.deep_view(),
            id: self.id.deep_view(),
            session: self.session.deep_view(),
            turn: self.turn.deep_view(),
            timestamp: self.timestamp.deep_view(),
            payload: self.payload.deep_view(),
            metadata: self.metadata.deep_view(),
        }
    }
}

impl View for EventEnvelope {
    type V = EventEnvelopeView;

    open spec fn view(&self) -> EventEnvelopeView {
        self.deep_view()
    }
}

impl Record for EventEnvelope {
    fn same(&self, other: &Self) -> (r: bool) {
        self.schema_version.same(&other.schema_version)
            && self.seq.same(&other.seq)
            && self.id.same(&other.id)
            && self.session.same(&other.session)
            && self.turn.same(&other.turn)
            && self.timestamp.same(&other.timestamp)
            && self.payload.same(&other.payload)
            && self.metadata.same(&other.metadata)
    }

    fn copied(&self) -> (r: Self) {
        EventEnvelope {
            schema_version: self.schema_version.copied(),
            seq: self.seq.copied(),
            id: self.id.copied(),
            session: self.session.copied(),
            turn: self.turn.copied(),
            timestamp: self.timestamp.copied(),
            payload: self.payload.copied(),
            metadata: self.metadata.copied(),
        }
    }
}

impl Clone for EventEnvelope {
    fn clone(&self) -> (r: Self)
        ensures
            r@ == self@,
    {
        self.copied()
    }
}

/// An envelope at the current schema version, without presentation metadata.
pub open spec fn envelope(
    seq: u64,
    id: Seq<char>,
    session: Seq<char>,
    turn: Option<Seq<char>>,
    timestamp: Timestamp,
    payload: RuntimeEventView,
) -> EventEnvelopeView {
    EventEnvelopeView {
        schema_version: SCHEMA_VERSION,
        seq,
        id,
        session,
        turn,
        timestamp,
        payload,
        metadata: Seq::empty(),
    }
}

impl EventEnvelope {
    /// Attempts to build an envelope after validating semantic payload
    /// invariants. This is the recoverable constructor for hosts that want to
    /// turn malformed lifecycle observations into a structured failure.
    pub fn try_new(
        seq: u64,
        id: EventId,
        session: SessionId,
        turn: Option<TurnId>,
        timestamp: Timestamp,
        payload: RuntimeEvent,
    ) -> (r: Result<EventEnvelope, EventEnvelopeError>)
        ensures
            match payload@.fault() {
                None => r matches Ok(made) && made@ == envelope(
                    seq,
                    id@,
                    session@,
                    turn.deep_view(),
                    timestamp,
                    payload@,
                ),
                Some(error) => r matches Err(e) && e
                    == EventEnvelopeError::InvalidLcmLifecycleMetadata(error),
            },
    {
        match payload.validate() {
            Ok(()) => Ok(
                EventEnvelope {
                    schema_version: SCHEMA_VERSION,
                    seq,
                    id,
                    session,
                    turn,
                    timestamp,
                    payload,
                    metadata: Metadata::new(),
                },
            ),
            Err(error) => Err(EventEnvelopeError::InvalidLcmLifecycleMetadata(error)),
        }
    }

    /// Builds an envelope at the current schema version around a payload that
    /// is known to be valid. Callers that do not know use [`Self::try_new`].
    pub fn new(
        seq: u64,
        id: EventId,
        session: SessionId,
        turn: Option<TurnId>,
        timestamp: Timestamp,
        payload: RuntimeEvent,
    ) -> (r: EventEnvelope)
        requires
            payload@.fault() is None,
        ensures
            r@ == envelope(seq, id@, session@, turn.deep_view(), timestamp, payload@),
    {
        EventEnvelope {
            schema_version: SCHEMA_VERSION,
            seq,
            id,
            session,
            turn,
            timestamp,
            payload,
            metadata: Metadata::new(),
        }
    }

    /// Attaches host presentation metadata.
    pub fn with_metadata(self, metadata: Metadata) -> (r: EventEnvelope)
        ensures
            r@ == (EventEnvelopeView { metadata: metadata@, ..self@ }),
    {
        EventEnvelope {
            schema_version: self.schema_version,
            seq: self.seq,
            id: self.id,
            session: self.session,
            turn: self.turn,
            timestamp: self.timestamp,
            payload: self.payload,
            metadata,
        }
    }
}

/// The payloads of a sequence of envelopes.
pub open spec fn payloads(events: Seq<EventEnvelopeView>) -> Seq<RuntimeEventView> {
    events.map_values(|e: EventEnvelopeView| e.payload)
}

/// Projects a sequence of envelopes to their canonical payloads, dropping
/// volatile identity, timestamps, and host presentation metadata. Two hosts
/// running the same fixture must produce equal canonical payload sequences.
pub fn canonical_payloads(events: &Vec<EventEnvelope>) -> (r: Vec<RuntimeEvent>)
    ensures
        r.deep_view() == payloads(events.deep_view()),
{
    let ghost want = payloads(events.deep_view());
    let mut out: Vec<RuntimeEvent> = Vec::new();
    let mut i: usize = 0;
    assert(out.deep_view() =~= want.subrange(0, 0));
    while i < events.len()
        invariant
            i <= events.len(),
            want == payloads(events.deep_view()),
            out.deep_view() == want.subrange(0, i as int),
        decreases events.len() - i,
    {
        let ghost before = out.deep_view();
        out.push(events[i].payload.copied());
        proof {
            assert(events.deep_view()[i as int] == events[i as int]@);
            assert(out.deep_view() =~= before.push(want[i as int]));
            assert(want.subrange(0, i + 1) =~= want.subrange(0, i as int).push(want[i as int]));
        }
        i = i + 1;
    }
    assert(want.subrange(0, want.len() as int) =~= want);
    out
}

/// Presentation does not matter to what two hosts must agree on: envelopes that
/// differ in identity, time, or metadata alone have the same canonical
/// payloads.
pub proof fn presentation_is_not_canonical(a: Seq<EventEnvelopeView>, c: Seq<EventEnvelopeView>)
    requires
        a.len() == c.len(),
        forall|i: int| 0 <= i < a.len() ==> (#[trigger] a[i]).payload == c[i].payload,
    ensures
        payloads(a) == payloads(c),
{
    assert(payloads(a) =~= payloads(c));
}

/// An envelope is of the current schema and holds what it was made of, without metadata.
pub proof fn an_envelope_holds_what_it_was_made_of(
    seq: u64,
    id: Seq<char>,
    session: Seq<char>,
    turn: Option<Seq<char>>,
    timestamp: Timestamp,
    payload: RuntimeEventView,
)
    ensures
        ({
            let made = envelope(seq, id, session, turn, timestamp, payload);
            &&& made.schema_version == 15
            &&& made.seq == seq
            &&& made.id == id
            &&& made.session == session
            &&& made.turn == turn
            &&& made.timestamp == timestamp
            &&& made.payload == payload
            &&& made.metadata.len() == 0
        }),
{
}

/// Only lifecycle metadata can be wrong with an event, and then that is what is.
pub proof fn only_lifecycle_metadata_makes_an_event_invalid(event: RuntimeEventView)
    ensures
        event.fault() is Some ==> event is LcmLifecycle,
        event matches RuntimeEventView::LcmLifecycle { metadata, .. } ==> event.fault()
            == metadata.fault(),
{
}

/// The canonical payloads are those of the envelopes, one for one and in order.
pub proof fn every_envelope_gives_its_payload(events: Seq<EventEnvelopeView>)
    ensures
        payloads(events).len() == events.len(),
        forall|i: int|
            0 <= i < events.len() ==> #[trigger] payloads(events)[i] == events[i].payload,
{
}

/// An envelope is made of any event that is not lifecycle metadata with something wrong, and
/// holds what it was made of.
pub proof fn making_an_envelope_checks_the_metadata(
    seq: u64,
    id: EventId,
    session: SessionId,
    turn: Option<TurnId>,
    timestamp: Timestamp,
    payload: RuntimeEvent,
    r: Result<EventEnvelope, EventEnvelopeError>,
)
    requires
        call_ensures(EventEnvelope::try_new, (seq, id, session, turn, timestamp, payload), r),
    ensures
        !(payload@ is LcmLifecycle) ==> r is Ok,
        payload@ matches RuntimeEventView::LcmLifecycle { metadata, .. } ==> {
            &&& r is Ok <==> metadata.fault() is None
            &&& r matches Err(EventEnvelopeError::InvalidLcmLifecycleMetadata(e))
                ==> metadata.fault() == Some(e)
        },
        r matches Ok(made) ==> {
            &&& made@.schema_version == 15
            &&& made@.seq == seq
            &&& made@.id == id@
            &&& made@.session == session@
            &&& made@.turn == turn.deep_view()
            &&& made@.timestamp == timestamp
            &&& made@.payload == payload@
            &&& made@.metadata.len() == 0
        },
{
}

/// The canonical payloads are those of the envelopes, in order; metadata does not count among them.
pub proof fn metadata_does_not_count_among_payloads(
    events: Vec<EventEnvelope>,
    event: EventEnvelope,
    metadata: Metadata,
    told: EventEnvelope,
    r: Vec<RuntimeEvent>,
)
    requires
        call_ensures(canonical_payloads, (&events,), r),
        call_ensures(EventEnvelope::with_metadata, (event, metadata), told),
    ensures
        r.deep_view().len() == events.deep_view().len(),
        forall|i: int|
            0 <= i < events.deep_view().len() ==> #[trigger] r.deep_view()[i]
                == events.deep_view()[i].payload,
        told@.payload == event@.payload,
        told@.metadata == metadata@,
        event@ == (EventEnvelopeView { metadata: event@.metadata, ..told@ }),
{
}

} // verus!
