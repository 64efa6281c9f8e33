//! Redaction-safe lifecycle observations of the lossless context memory (LCM)
//! engine.
//!
//! One typed phase with bounded metadata, instead of summary bodies, source
//! entries, protected artifacts, credentials, or authorization grants.

use vstd::prelude::*;

use vstd::string::{StrSliceExecFns, StringExecFns};

use crate::fingerprint::{fingerprint_of, lemma_absorb_one, Fingerprint, FingerprintHasher};
use crate::manifest::SegmentSensitivity;
use crate::record::Record;
use crate::security::{RegistryRevision, TrustClass};
use crate::text::{
    decimal, decimal_text, is_blank, is_blank_text, is_white_space, lemma_decimal_determines,
    same_text,
};

verus! {

/// Maximum number of Unicode scalar values in an opaque id or cursor that may
/// enter an event payload.
pub const MAX_LCM_LIFECYCLE_ID_CHARS: usize = 128;

/// Maximum number of child ids carried individually on one event. The complete
/// child cardinality belongs in [`LcmLifecycleMetadata::child_count`].
pub const MAX_LCM_LIFECYCLE_CHILD_IDS: usize = 16;

/// The bounded phase of a lifecycle event. The phase is typed, while details live
/// in [`LcmLifecycleMetadata`] and the optional [`LcmLifecycleReason`].
#[derive(Debug, Clone, Copy, PartialEq, Eq, Structural)]
pub enum LcmLifecycleKind {
    /// A soft/hard pressure decision was evaluated.
    PressureDecision,
    /// A compaction operation was admitted or rejected before mutation.
    OperationAdmission,
    /// A model escalation level was attempted.
    Escalation,
    /// A lossless leaf node was committed.
    LeafCommit,
    /// A condensed node was committed and children were superseded.
    Condensation,
    /// The deterministic strict-shrink fallback was used.
    DeterministicFallback,
    /// A valid legacy flat summary was imported into the first leaf.
    LegacyImport,
    /// A bounded expansion or continuation was served.
    Expansion,
    /// A structured LCM failure prevented the requested operation.
    Failure,
}

impl DeepView for LcmLifecycleKind {
    type V = LcmLifecycleKind;

    open spec fn deep_view(&self) -> LcmLifecycleKind {
        *self
    }
}

impl Record for LcmLifecycleKind {
    fn same(&self, other: &Self) -> (r: bool) {
        *self == *other
    }

    fn copied(&self) -> (r: Self) {
        *self
    }
}

/// Redaction-safe reasons for a lifecycle transition. They hold no provider text,
/// store error text, authorization material, or model and source bodies.
#[derive(Debug, Clone, Copy, PartialEq, Eq, Structural)]
pub enum LcmLifecycleReason {
    /// The observed pressure was below the configured soft threshold.
    BelowSoftThreshold,
    /// The observed pressure crossed the soft threshold.
    SoftThresholdExceeded,
    /// The observed pressure crossed the hard threshold.
    HardThresholdExceeded,
    /// The operation won admission for its checkpoint.
    Admitted,
    /// Another compatible operation already owns the checkpoint.
    AlreadyInFlight,
    /// A compare-and-swap revision was stale.
    StaleRevision,
    /// A provider/model attempt failed or was unavailable.
    ProviderFailure,
    /// A model returned no usable output.
    EmptyOutput,
    /// A model output exceeded its requested bound.
    OverBudgetOutput,
    /// A model output did not strictly shrink its source.
    NonShrinkingOutput,
    /// A valid legacy state was imported.
    Imported,
    /// Legacy state was absent, malformed, or failed integrity checks.
    InvalidLegacyState,
    /// An expansion was authorized by the host-owned view.
    Authorized,
    /// An expansion was rejected because the view was not authorized.
    Unauthorized,
    /// The requested bounded expansion reached its limit.
    Bounded,
    /// A requested node/entry was not found in the authorized view.
    NotFound,
    /// The store rejected a transactional mutation.
    StoreConflict,
    /// The store failed without exposing its underlying error text.
    StoreFailure,
    /// The requested content could not fit under the policy.
    CannotFit,
    /// Input metadata or ranges were invalid.
    InvalidInput,
    /// The operation was cancelled before its mutation committed.
    Cancelled,
}

impl DeepView for LcmLifecycleReason {
    type V = LcmLifecycleReason;

    open spec fn deep_view(&self) -> LcmLifecycleReason {
        *self
    }
}

impl Record for LcmLifecycleReason {
    fn same(&self, other: &Self) -> (r: bool) {
        *self == *other
    }

    fn copied(&self) -> (r: Self) {
        *self
    }
}

/// Why lifecycle metadata failed its bounded-shape validation.
#[derive(Debug, Clone, Copy, PartialEq, Eq, Structural)]
pub enum LcmLifecycleMetadataError {
    /// An opaque id/cursor field was empty.
    EmptyOpaqueId,
    /// An opaque id/cursor field exceeded [`MAX_LCM_LIFECYCLE_ID_CHARS`].
    OpaqueIdTooLong,
    /// More than [`MAX_LCM_LIFECYCLE_CHILD_IDS`] child ids were supplied.
    TooManyChildIds,
    /// One child id exceeded [`MAX_LCM_LIFECYCLE_ID_CHARS`].
    ChildIdTooLong,
    /// One child id was empty.
    EmptyChildId,
    /// A pressure percentage was outside the inclusive 0..=100 range.
    InvalidPressurePercent,
    /// An escalation level was outside the inclusive 1..=3 range.
    InvalidEscalationLevel,
    /// Covered range fields were only partially present.
    IncompleteCoveredRange,
    /// Covered range start followed its end.
    ReversedCoveredRange,
    /// Covered range length disagreed with its count.
    CoveredRangeCountMismatch,
    /// Child ids were duplicated or did not fit their aggregate count.
    ChildCountMismatch,
    /// A revision/metadata label was blank or exceeded its bound.
    InvalidMetadata,
    /// Soft and hard token thresholds were not ordered.
    InvalidThresholdOrder,
}

impl DeepView for LcmLifecycleMetadataError {
    type V = LcmLifecycleMetadataError;

    open spec fn deep_view(&self) -> LcmLifecycleMetadataError {
        *self
    }
}

impl Record for LcmLifecycleMetadataError {
    fn same(&self, other: &Self) -> (r: bool) {
        *self == *other
    }

    fn copied(&self) -> (r: Self) {
        *self
    }
}

impl LcmLifecycleMetadataError {
    /// The error in words.
    pub open spec fn message(self) -> Seq<char> {
        match self {
            LcmLifecycleMetadataError::EmptyOpaqueId => "opaque LCM id/cursor must not be empty"@,
            LcmLifecycleMetadataError::OpaqueIdTooLong => {
                "opaque LCM id/cursor exceeds its character bound"@
            },
            LcmLifecycleMetadataError::TooManyChildIds => "LCM child id list exceeds its bound"@,
            LcmLifecycleMetadataError::ChildIdTooLong => {
                "an LCM child id exceeds its character bound"@
            },
            LcmLifecycleMetadataError::EmptyChildId => "an LCM child id must not be empty"@,
            LcmLifecycleMetadataError::InvalidPressurePercent => {
                "LCM pressure percentage must be between 0 and 100"@
            },
            LcmLifecycleMetadataError::InvalidEscalationLevel => {
                "LCM escalation level must be between 1 and 3"@
            },
            LcmLifecycleMetadataError::IncompleteCoveredRange => {
                "LCM covered range fields must be provided together"@
            },
            LcmLifecycleMetadataError::ReversedCoveredRange => "LCM covered range is reversed"@,
            LcmLifecycleMetadataError::CoveredRangeCountMismatch => {
                "LCM covered range does not match its count"@
            },
            LcmLifecycleMetadataError::ChildCountMismatch => {
                "LCM child ids do not match their aggregate count"@
            },
            LcmLifecycleMetadataError::InvalidMetadata => {
                "LCM metadata revision or label is invalid"@
            },
            LcmLifecycleMetadataError::InvalidThresholdOrder => {
                "LCM soft threshold must not exceed its hard threshold"@
            },
        }
    }

    /// The error in words.
    pub fn to_text(self) -> (r: &'static str)
        ensures
            r@ == self.message(),
    {
        match self {
            LcmLifecycleMetadataError::EmptyOpaqueId => "opaque LCM id/cursor must not be empty",
            LcmLifecycleMetadataError::OpaqueIdTooLong => {
                "opaque LCM id/cursor exceeds its character bound"
            },
            LcmLifecycleMetadataError::TooManyChildIds => "LCM child id list exceeds its bound",
            LcmLifecycleMetadataError::ChildIdTooLong => {
                "an LCM child id exceeds its character bound"
            },
            LcmLifecycleMetadataError::EmptyChildId => "an LCM child id must not be empty",
            LcmLifecycleMetadataError::InvalidPressurePercent => {
                "LCM pressure percentage must be between 0 and 100"
            },
            LcmLifecycleMetadataError::InvalidEscalationLevel => {
                "LCM escalation level must be between 1 and 3"
            },
            LcmLifecycleMetadataError::IncompleteCoveredRange => {
                "LCM covered range fields must be provided together"
            },
            LcmLifecycleMetadataError::ReversedCoveredRange => "LCM covered range is reversed",
            LcmLifecycleMetadataError::CoveredRangeCountMismatch => {
                "LCM covered range does not match its count"
            },
            LcmLifecycleMetadataError::ChildCountMismatch => {
                "LCM child ids do not match their aggregate count"
            },
            LcmLifecycleMetadataError::InvalidMetadata => {
                "LCM metadata revision or label is invalid"
            },
            LcmLifecycleMetadataError::InvalidThresholdOrder => {
                "LCM soft threshold must not exceed its hard threshold"
            },
        }
    }
}

/// Metadata carried by a lifecycle event.
///
/// Every field is optional so one bounded event can represent pressure,
/// admission, mutation, expansion, import, fallback, and failure. Values are
/// opaque ids, fingerprints, revisions, classifications, counts, or token
/// metrics. The type has no debug form of its own: [`Self::to_debug_text`] shows
/// opaque ids only as fingerprints.
#[derive(PartialEq, Eq)]
pub struct LcmLifecycleMetadata {
    /// Opaque host-owned timeline identity.
    pub timeline_id: Option<String>,
    /// Opaque compaction operation identity.
    pub operation_id: Option<String>,
    /// Fingerprint of the idempotent operation request.
    pub operation_fingerprint: Option<Fingerprint>,
    /// Opaque node identity, when the event concerns one node.
    pub node_id: Option<String>,
    /// Expected/current DAG revision used by a checkpoint or CAS.
    pub dag_revision: Option<u64>,
    /// Inclusive covered sequence start.
    pub covered_start: Option<u64>,
    /// Inclusive covered sequence end.
    pub covered_end: Option<u64>,
    /// Number of source entries covered by a node or expansion.
    pub covered_count: Option<u32>,
    /// Number of children in a condensation.
    pub child_count: Option<u32>,
    /// Bounded opaque child ids; producers cap this list to a small fixed
    /// limit and use `child_count` for the complete aggregate count.
    pub child_ids: Vec<String>,
    /// Number of entries returned by a bounded expansion.
    pub expanded_count: Option<u32>,
    /// Opaque continuation cursor for a bounded expansion.
    pub expansion_cursor: Option<String>,
    /// Soft pressure threshold in estimated input tokens.
    pub soft_threshold_tokens: Option<u32>,
    /// Hard pressure threshold in estimated input tokens.
    pub hard_threshold_tokens: Option<u32>,
    /// Observed pressure percentage, when the host computes one.
    pub pressure_percent: Option<u8>,
    /// Escalation level attempted, starting at one.
    pub escalation_level: Option<u8>,
    /// Policy revision used for the decision or mutation.
    pub policy_revision: Option<RegistryRevision>,
    /// LCM algorithm revision used for the decision or mutation.
    pub algorithm_revision: Option<RegistryRevision>,
    /// Summary-model implementation revision, when model work was attempted.
    pub model_revision: Option<RegistryRevision>,
    /// Request-sizer revision governing strict-shrink/token accounting.
    pub sizer_revision: Option<RegistryRevision>,
    /// Joined sensitivity classification of covered content.
    pub sensitivity: Option<SegmentSensitivity>,
    /// Joined trust classification of covered content.
    pub trust: Option<TrustClass>,
    /// Content-guard revision joined into the summary provenance.
    pub guard_revision: Option<RegistryRevision>,
    /// Fingerprint of the protected source range, never the source body.
    pub source_fingerprint: Option<Fingerprint>,
    /// Fingerprint of the committed summary/condensed result, never its body.
    pub result_fingerprint: Option<Fingerprint>,
    /// Estimated source tokens before an escalation/commit.
    pub input_tokens: Option<u32>,
    /// Estimated replacement tokens after an escalation/commit.
    pub output_tokens: Option<u32>,
    /// Tokens reclaimed by the committed operation.
    pub reclaimed_tokens: Option<u32>,
}

/// What a [`LcmLifecycleMetadata`] holds.
pub struct LcmLifecycleMetadataView {
    pub timeline_id: Option<Seq<char>>,
    pub operation_id: Option<Seq<char>>,
    pub operation_fingerprint: Option<Seq<char>>,
    pub node_id: Option<Seq<char>>,
    pub dag_revision: Option<u64>,
    pub covered_start: Option<u64>,
    pub covered_end: Option<u64>,
    pub covered_count: Option<u32>,
    pub child_count: Option<u32>,
    pub child_ids: Seq<Seq<char>>,
    pub expanded_count: Option<u32>,
    pub expansion_cursor: Option<Seq<char>>,
    pub soft_threshold_tokens: Option<u32>,
    pub hard_threshold_tokens: Option<u32>,
    pub pressure_percent: Option<u8>,
    pub escalation_level: Option<u8>,
    pub policy_revision: Option<Seq<char>>,
    pub algorithm_revision: Option<Seq<char>>,
    pub model_revision: Option<Seq<char>>,
    pub sizer_revision: Option<Seq<char>>,
    pub sensitivity: Option<SegmentSensitivity>,
    pub trust: Option<TrustClass>,
    pub guard_revision: Option<Seq<char>>,
    pub source_fingerprint: Option<Seq<char>>,
    pub result_fingerprint: Option<Seq<char>>,
    pub input_tokens: Option<u32>,
    pub output_tokens: Option<u32>,
    pub reclaimed_tokens: Option<u32>,
}

impl DeepView for LcmLifecycleMetadata {
    type V = LcmLifecycleMetadataView;

    open spec fn deep_view(&self) -> LcmLifecycleMetadataView {
        LcmLifecycleMetadataView {
            timeline_id: self.timeline_id.deep_view(),
            operation_id: self.operation_id.deep_view(),
            operation_fingerprint: self.operation_fingerprint.deep_view(),
            node_id: self.node_id.deep_view(),
            dag_revision: self.dag_revision.deep_view(),
            covered_start: self.covered_start.deep_view(),
            covered_end: self.covered_end.deep_view(),
            covered_count: self.covered_count.deep_view(),
            child_count: self.child_count.deep_view(),
            child_ids: self.child_ids.deep_view(),
            expanded_count: self.expanded_count.deep_view(),
            expansion_cursor: self.expansion_cursor.deep_view(),
            soft_threshold_tokens: self.soft_threshold_tokens.deep_view(),
            hard_threshold_tokens: self.hard_threshold_tokens.deep_view(),
            pressure_percent: self.pressure_percent.deep_view(),
            escalation_level: self.escalation_level.deep_view(),
            policy_revision: self.policy_revision.deep_view(),
            algorithm_revision: self.algorithm_revision.deep_view(),
            model_revision: self.model_revision.deep_view(),
            sizer_revision: self.sizer_revision.deep_view(),
            sensitivity: self.sensitivity.deep_view(),
            trust: self.trust.deep_view(),
            guard_revision: self.guard_revision.deep_view(),
            source_fingerprint: self.source_fingerprint.deep_view(),
            result_fingerprint: self.result_fingerprint.deep_view(),
            input_tokens: self.input_tokens.deep_view(),
            output_tokens: self.output_tokens.deep_view(),
            reclaimed_tokens: self.reclaimed_tokens.deep_view(),
        }
    }
}

impl View for LcmLifecycleMetadata {
    type V = LcmLifecycleMetadataView;

    open spec fn view(&self) -> LcmLifecycleMetadataView {
        self.deep_view()
    }
}

impl Record for LcmLifecycleMetadata {
    fn same(&self, other: &Self) -> (r: bool) {
        self.timeline_id.same(&other.timeline_id)
            && self.operation_id.same(&other.operation_id)
            && self.operation_fingerprint.same(&other.operation_fingerprint)
            && self.node_id.same(&other.node_id)
            && self.dag_revision.same(&other.dag_revision)
            && self.covered_start.same(&other.covered_start)
            && self.covered_end.same(&other.covered_end)
            && self.covered_count.same(&other.covered_count)
            && self.child_count.same(&other.child_count)
            && self.child_ids.same(&other.child_ids)
            && self.expanded_count.same(&other.expanded_count)
            && self.expansion_cursor.same(&other.expansion_cursor)
            && self.soft_threshold_tokens.same(&other.soft_threshold_tokens)
            && self.hard_threshold_tokens.same(&other.hard_threshold_tokens)
            && self.pressure_percent.same(&other.pressure_percent)
            && self.escalation_level.same(&other.escalation_level)
            && self.policy_revision.same(&other.policy_revision)
            && self.algorithm_revision.same(&other.algorithm_revision)
            && self.model_revision.same(&other.model_revision)
            && self.sizer_revision.same(&other.sizer_revision)
            && self.sensitivity.same(&other.sensitivity)
            && self.trust.same(&other.trust)
            && self.guard_revision.same(&other.guard_revision)
            && self.source_fingerprint.same(&other.source_fingerprint)
            && self.result_fingerprint.same(&other.result_fingerprint)
            && self.input_tokens.same(&other.input_tokens)
            && self.output_tokens.same(&other.output_tokens)
            && self.reclaimed_tokens.same(&other.reclaimed_tokens)
    }

    fn copied(&self) -> (r: Self) {
        LcmLifecycleMetadata {
            timeline_id: self.timeline_id.copied(),
            operation_id: self.operation_id.copied(),
            operation_fingerprint: self.operation_fingerprint.copied(),
            node_id: self.node_id.copied(),
            dag_revision: self.dag_revision.copied(),
            covered_start: self.covered_start.copied(),
            covered_end: self.covered_end.copied(),
            covered_count: self.covered_count.copied(),
            child_count: self.child_count.copied(),
            child_ids: self.child_ids.copied(),
            expanded_count: self.expanded_count.copied(),
            expansion_cursor: self.expansion_cursor.copied(),
            soft_threshold_tokens: self.soft_threshold_tokens.copied(),
            hard_threshold_tokens: self.hard_threshold_tokens.copied(),
            pressure_percent: self.pressure_percent.copied(),
            escalation_level: self.escalation_level.copied(),
            policy_revision: self.policy_revision.copied(),
            algorithm_revision: self.algorithm_revision.copied(),
            model_revision: self.model_revision.copied(),
            sizer_revision: self.sizer_revision.copied(),
            sensitivity: self.sensitivity.copied(),
            trust: self.trust.copied(),
            guard_revision: self.guard_revision.copied(),
            source_fingerprint: self.source_fingerprint.copied(),
            result_fingerprint: self.result_fingerprint.copied(),
            input_tokens: self.input_tokens.copied(),
            output_tokens: self.output_tokens.copied(),
            reclaimed_tokens: self.reclaimed_tokens.copied(),
        }
    }
}

impl Clone for LcmLifecycleMetadata {
    fn clone(&self) -> (r: Self)
        ensures
            r@ == self@,
    {
        self.copied()
    }
}

/// The metadata that says nothing.
pub open spec fn no_metadata() -> LcmLifecycleMetadataView {
    LcmLifecycleMetadataView {
        timeline_id: None,
        operation_id: None,
        operation_fingerprint: None,
        node_id: None,
        dag_revision: None,
        covered_start: None,
        covered_end: None,
        covered_count: None,
        child_count: None,
        child_ids: Seq::empty(),
        expanded_count: None,
        expansion_cursor: None,
        soft_threshold_tokens: None,
        hard_threshold_tokens: None,
        pressure_percent: None,
        escalation_level: None,
        policy_revision: None,
        algorithm_revision: None,
        model_revision: None,
        sizer_revision: None,
        sensitivity: None,
        trust: None,
        guard_revision: None,
        source_fingerprint: None,
        result_fingerprint: None,
        input_tokens: None,
        output_tokens: None,
        reclaimed_tokens: None,
    }
}

impl Default for LcmLifecycleMetadata {
    fn default() -> (r: LcmLifecycleMetadata)
        ensures
            r@ == no_metadata(),
    {
        let child_ids: Vec<String> = Vec::new();
        assert(child_ids.deep_view() =~= Seq::<Seq<char>>::empty());
        LcmLifecycleMetadata {
            timeline_id: None,
            operation_id: None,
            operation_fingerprint: None,
            node_id: None,
            dag_revision: None,
            covered_start: None,
            covered_end: None,
            covered_count: None,
            child_count: None,
            child_ids,
            expanded_count: None,
            expansion_cursor: None,
            soft_threshold_tokens: None,
            hard_threshold_tokens: None,
            pressure_percent: None,
            escalation_level: None,
            policy_revision: None,
            algorithm_revision: None,
            model_revision: None,
            sizer_revision: None,
            sensitivity: None,
            trust: None,
            guard_revision: None,
            source_fingerprint: None,
            result_fingerprint: None,
            input_tokens: None,
            output_tokens: None,
            reclaimed_tokens: None,
        }
    }
}

/// What is wrong with an opaque id, if anything.
pub open spec fn opaque_id_fault(id: Seq<char>) -> Option<LcmLifecycleMetadataError> {
    if is_blank_text(id) {
        Some(LcmLifecycleMetadataError::EmptyOpaqueId)
    } else if id.len() > MAX_LCM_LIFECYCLE_ID_CHARS {
        Some(LcmLifecycleMetadataError::OpaqueIdTooLong)
    } else {
        None
    }
}

/// What is wrong with an optional opaque id, if anything.
pub open spec fn optional_id_fault(id: Option<Seq<char>>) -> Option<LcmLifecycleMetadataError> {
    match id {
        Some(id) => opaque_id_fault(id),
        None => None,
    }
}

/// What is wrong with the first child id that is blank or too long, if there is
/// one.
pub open spec fn child_id_fault(ids: Seq<Seq<char>>) -> Option<LcmLifecycleMetadataError>
    decreases ids.len(),
{
    if ids.len() == 0 {
        None
    } else if child_id_fault(ids.drop_last()) is Some {
        child_id_fault(ids.drop_last())
    } else if is_blank_text(ids.last()) {
        Some(LcmLifecycleMetadataError::EmptyChildId)
    } else if ids.last().len() > MAX_LCM_LIFECYCLE_ID_CHARS {
        Some(LcmLifecycleMetadataError::ChildIdTooLong)
    } else {
        None
    }
}

/// What is wrong with a list of child ids by itself, if anything.
pub open spec fn child_list_fault(ids: Seq<Seq<char>>) -> Option<LcmLifecycleMetadataError> {
    if ids.len() > MAX_LCM_LIFECYCLE_CHILD_IDS {
        Some(LcmLifecycleMetadataError::TooManyChildIds)
    } else {
        child_id_fault(ids)
    }
}

/// Whether a revision is blank or too long.
pub open spec fn is_bad_revision(revision: Option<Seq<char>>) -> bool {
    revision matches Some(text) && (is_blank_text(text) || text.len() > MAX_LCM_LIFECYCLE_ID_CHARS)
}

impl LcmLifecycleMetadataView {
    /// Whether the child ids agree with the aggregate count: none twice, and no
    /// more than the count, which is there if they are.
    pub open spec fn children_agree(self) -> bool {
        &&& self.child_ids.no_duplicates()
        &&& match self.child_count {
            Some(count) => count >= self.child_ids.len(),
            None => self.child_ids.len() == 0,
        }
    }

    /// What is wrong with the covered range, if anything. A range is given by
    /// its inclusive bounds and their count; a count alone must be positive.
    pub open spec fn range_fault(self) -> Option<LcmLifecycleMetadataError> {
        match (self.covered_start, self.covered_end, self.covered_count) {
            (None, None, None) => None,
            (None, None, Some(count)) => if count > 0 {
                None
            } else {
                Some(LcmLifecycleMetadataError::CoveredRangeCountMismatch)
            },
            (Some(start), Some(end), Some(count)) => if start > end {
                Some(LcmLifecycleMetadataError::ReversedCoveredRange)
            } else if end - start + 1 != count {
                Some(LcmLifecycleMetadataError::CoveredRangeCountMismatch)
            } else {
                None
            },
            _ => Some(LcmLifecycleMetadataError::IncompleteCoveredRange),
        }
    }

    /// Whether the soft threshold exceeds the hard one.
    pub open spec fn thresholds_are_reversed(self) -> bool {
        &&& self.soft_threshold_tokens is Some
        &&& self.hard_threshold_tokens is Some
        &&& self.soft_threshold_tokens->Some_0 > self.hard_threshold_tokens->Some_0
    }

    /// What is wrong with the metadata, if anything: the first of its opaque
    /// ids, its child ids, its ranges, its thresholds, and its revisions.
    pub open spec fn fault(self) -> Option<LcmLifecycleMetadataError> {
        if optional_id_fault(self.timeline_id) is Some {
            optional_id_fault(self.timeline_id)
        } else if optional_id_fault(self.operation_id) is Some {
            optional_id_fault(self.operation_id)
        } else if optional_id_fault(self.node_id) is Some {
            optional_id_fault(self.node_id)
        } else if optional_id_fault(self.expansion_cursor) is Some {
            optional_id_fault(self.expansion_cursor)
        } else if child_list_fault(self.child_ids) is Some {
            child_list_fault(self.child_ids)
        } else if !self.children_agree() {
            Some(LcmLifecycleMetadataError::ChildCountMismatch)
        } else if self.pressure_percent matches Some(percent) && percent > 100 {
            Some(LcmLifecycleMetadataError::InvalidPressurePercent)
        } else if self.escalation_level matches Some(level) && !(1 <= level <= 3) {
            Some(LcmLifecycleMetadataError::InvalidEscalationLevel)
        } else if self.range_fault() is Some {
            self.range_fault()
        } else if self.thresholds_are_reversed() {
            Some(LcmLifecycleMetadataError::InvalidThresholdOrder)
        } else if is_bad_revision(self.policy_revision) || is_bad_revision(
            self.algorithm_revision,
        ) || is_bad_revision(self.model_revision) || is_bad_revision(self.sizer_revision)
            || is_bad_revision(self.guard_revision) {
            Some(LcmLifecycleMetadataError::InvalidMetadata)
        } else {
            None
        }
    }
}

/// What a validation of metadata returned.
pub open spec fn metadata_verdict(fault: Option<LcmLifecycleMetadataError>) -> Result<
    (),
    LcmLifecycleMetadataError,
> {
    match fault {
        None => Ok(()),
        Some(e) => Err(e),
    }
}

/// Validates one opaque id.
pub fn validate_lcm_opaque_id(value: &str) -> (r: Result<(), LcmLifecycleMetadataError>)
    ensures
        r == metadata_verdict(opaque_id_fault(value@)),
{
    if is_blank(value) {
        return Err(LcmLifecycleMetadataError::EmptyOpaqueId);
    }
    if value.unicode_len() > MAX_LCM_LIFECYCLE_ID_CHARS {
        return Err(LcmLifecycleMetadataError::OpaqueIdTooLong);
    }
    Ok(())
}

/// Validates an opaque id, if there is one.
pub fn validate_lcm_optional_id(value: &Option<String>) -> (r: Result<
    (),
    LcmLifecycleMetadataError,
>)
    ensures
        r == metadata_verdict(optional_id_fault(value.deep_view())),
{
    match value {
        Some(value) => validate_lcm_opaque_id(value.as_str()),
        None => Ok(()),
    }
}

/// Validates the length of a list of child ids, and each of them.
pub fn validate_lcm_child_ids(ids: &Vec<String>) -> (r: Result<(), LcmLifecycleMetadataError>)
    ensures
        r == metadata_verdict(child_list_fault(ids.deep_view())),
{
    let ghost views = ids.deep_view();
    if ids.len() > MAX_LCM_LIFECYCLE_CHILD_IDS {
        return Err(LcmLifecycleMetadataError::TooManyChildIds);
    }
    let mut i: usize = 0;
    assert(views.subrange(0, 0) =~= Seq::<Seq<char>>::empty());
    while i < ids.len()
        invariant
            i <= ids.len() <= MAX_LCM_LIFECYCLE_CHILD_IDS,
            views == ids.deep_view(),
            child_id_fault(views.subrange(0, i as int)) is None,
        decreases ids.len() - i,
    {
        proof {
            let items = views.subrange(0, i + 1);
            assert(items.drop_last() =~= views.subrange(0, i as int));
            assert(items.last() == ids[i as int]@);
        }
        let child = ids[i].as_str();
        if is_blank(child) {
            proof {
                lemma_first_child_fault(views, i + 1);
            }
            return Err(LcmLifecycleMetadataError::EmptyChildId);
        }
        if child.unicode_len() > MAX_LCM_LIFECYCLE_ID_CHARS {
            proof {
                lemma_first_child_fault(views, i + 1);
            }
            return Err(LcmLifecycleMetadataError::ChildIdTooLong);
        }
        i = i + 1;
    }
    assert(views.subrange(0, views.len() as int) =~= views);
    Ok(())
}

proof fn lemma_first_child_fault(ids: Seq<Seq<char>>, n: int)
    requires
        0 <= n <= ids.len(),
        child_id_fault(ids.subrange(0, n)) is Some,
    ensures
        child_id_fault(ids) == child_id_fault(ids.subrange(0, n)),
    decreases ids.len(),
{
    if n == ids.len() {
        assert(ids.subrange(0, n) =~= ids);
    } else {
        assert(ids.drop_last().subrange(0, n) =~= ids.subrange(0, n));
        lemma_first_child_fault(ids.drop_last(), n);
    }
}

fn has_duplicates(ids: &Vec<String>) -> (r: bool)
    ensures
        r == !ids.deep_view().no_duplicates(),
{
    let ghost views = ids.deep_view();
    let mut i: usize = 0;
    while i < ids.len()
        invariant
            i <= ids.len(),
            views == ids.deep_view(),
            forall|a: int, c: int| 0 <= a < c < i ==> views[a] != views[c],
        decreases ids.len() - i,
    {
        let mut j: usize = 0;
        while j < i
            invariant
                j <= i < ids.len(),
                views == ids.deep_view(),
                forall|a: int| 0 <= a < j ==> views[a] != views[i as int],
            decreases i - j,
        {
            if same_text(ids[j].as_str(), ids[i].as_str()) {
                assert(views[j as int] == views[i as int]);
                return true;
            }
            assert(views[j as int] != views[i as int]);
            j = j + 1;
        }
        i = i + 1;
    }
    false
}

fn bad_revision(revision: &Option<RegistryRevision>) -> (r: bool)
    ensures
        r == is_bad_revision(revision.deep_view()),
{
    match revision {
        Some(revision) => is_blank(revision.as_str()) || revision.as_str().unicode_len()
            > MAX_LCM_LIFECYCLE_ID_CHARS,
        None => false,
    }
}

impl LcmLifecycleMetadata {
    fn validate_range(&self) -> (r: Result<(), LcmLifecycleMetadataError>)
        ensures
            r == metadata_verdict(self@.range_fault()),
    {
        match (self.covered_start, self.covered_end, self.covered_count) {
            (None, None, None) => Ok(()),
            (None, None, Some(count)) => if count > 0 {
                Ok(())
            } else {
                Err(LcmLifecycleMetadataError::CoveredRangeCountMismatch)
            },
            (Some(start), Some(end), Some(count)) => {
                if start > end {
                    Err(LcmLifecycleMetadataError::ReversedCoveredRange)
                } else {
                    match (end - start).checked_add(1) {
                        Some(expected) => if expected == count as u64 {
                            Ok(())
                        } else {
                            Err(LcmLifecycleMetadataError::CoveredRangeCountMismatch)
                        },
                        None => Err(LcmLifecycleMetadataError::CoveredRangeCountMismatch),
                    }
                }
            },
            _ => Err(LcmLifecycleMetadataError::IncompleteCoveredRange),
        }
    }

    /// Validates all opaque ids and individually listed child ids, and the
    /// ranges and counts, before an event is emitted or persisted.
    pub fn validate(&self) -> (r: Result<(), LcmLifecycleMetadataError>)
        ensures
            r == metadata_verdict(self@.fault()),
    {
        if let Err(e) = validate_lcm_optional_id(&self.timeline_id) {
            return Err(e);
        }
        if let Err(e) = validate_lcm_optional_id(&self.operation_id) {
            return Err(e);
        }
        if let Err(e) = validate_lcm_optional_id(&self.node_id) {
            return Err(e);
        }
        if let Err(e) = validate_lcm_optional_id(&self.expansion_cursor) {
            return Err(e);
        }
        if let Err(e) = validate_lcm_child_ids(&self.child_ids) {
            return Err(e);
        }
        let counted = match self.child_count {
            Some(count) => count as u64 >= self.child_ids.len() as u64,
            None => self.child_ids.len() == 0,
        };
        if has_duplicates(&self.child_ids) || !counted {
            return Err(LcmLifecycleMetadataError::ChildCountMismatch);
        }
        if let Some(percent) = self.pressure_percent {
            if percent > 100 {
                return Err(LcmLifecycleMetadataError::InvalidPressurePercent);
            }
        }
        if let Some(level) = self.escalation_level {
            if level < 1 || level > 3 {
                return Err(LcmLifecycleMetadataError::InvalidEscalationLevel);
            }
        }
        if let Err(e) = self.validate_range() {
            return Err(e);
        }
        if let (Some(soft), Some(hard)) = (self.soft_threshold_tokens, self.hard_threshold_tokens) {
            if soft > hard {
                return Err(LcmLifecycleMetadataError::InvalidThresholdOrder);
            }
        }
        if bad_revision(&self.policy_revision) || bad_revision(&self.algorithm_revision)
            || bad_revision(&self.model_revision) || bad_revision(&self.sizer_revision)
            || bad_revision(&self.guard_revision) {
            return Err(LcmLifecycleMetadataError::InvalidMetadata);
        }
        Ok(())
    }
}

/// An opaque id as it may be shown: its fingerprint.
pub open spec fn redacted_id(id: Seq<char>) -> Seq<char> {
    fingerprint_of(seq![id])
}

impl LcmLifecycleMetadataView {
    /// The metadata with every opaque id replaced by its fingerprint.
    pub open spec fn redacted(self) -> LcmLifecycleMetadataView {
        LcmLifecycleMetadataView {
            timeline_id: redacted_option(self.timeline_id),
            operation_id: redacted_option(self.operation_id),
            node_id: redacted_option(self.node_id),
            expansion_cursor: redacted_option(self.expansion_cursor),
            child_ids: self.child_ids.map_values(|id: Seq<char>| redacted_id(id)),
            ..self
        }
    }
}

/// An optional opaque id as it may be shown.
pub open spec fn redacted_option(id: Option<Seq<char>>) -> Option<Seq<char>> {
    match id {
        Some(id) => Some(redacted_id(id)),
        None => None,
    }
}

fn redact(id: &str) -> (r: String)
    ensures
        r@ == redacted_id(id@),
{
    let mut hasher = FingerprintHasher::new();
    hasher.field(id);
    proof {
        lemma_absorb_one(crate::fingerprint::EMPTY_DIGEST, id@);
    }
    hasher.finish().as_str().to_owned()
}

fn redact_option(id: &Option<String>) -> (r: Option<String>)
    ensures
        r.deep_view() == redacted_option(id.deep_view()),
{
    match id {
        Some(id) => Some(redact(id.as_str())),
        None => None,
    }
}

fn redact_list(ids: &Vec<String>) -> (r: Vec<String>)
    ensures
        r.deep_view() == ids.deep_view().map_values(|id: Seq<char>| redacted_id(id)),
{
    let ghost want = ids.deep_view().map_values(|id: Seq<char>| redacted_id(id));
    let mut out: Vec<String> = Vec::new();
    let mut i: usize = 0;
    assert(out.deep_view() =~= want.subrange(0, 0));
    while i < ids.len()
        invariant
            i <= ids.len(),
            want == ids.deep_view().map_values(|id: Seq<char>| redacted_id(id)),
            out.deep_view() == want.subrange(0, i as int),
        decreases ids.len() - i,
    {
        let ghost before = out.deep_view();
        out.push(redact(ids[i].as_str()));
        assert(out.deep_view() =~= before.push(want[i as int]));
        assert(want.subrange(0, i + 1) =~= want.subrange(0, i as int).push(want[i as int]));
        i = i + 1;
    }
    assert(want.subrange(0, want.len() as int) =~= want);
    out
}

/// A text as it is shown, in quotes.
pub open spec fn shown_text(text: Option<Seq<char>>) -> Seq<char> {
    match text {
        Some(text) => "Some(\""@ + text + "\")"@,
        None => "None"@,
    }
}

/// A number as it is shown.
pub open spec fn shown_number(number: Option<nat>) -> Seq<char> {
    match number {
        Some(number) => "Some("@ + decimal(number) + ")"@,
        None => "None"@,
    }
}

/// A word as it is shown.
pub open spec fn shown_word(word: Option<Seq<char>>) -> Seq<char> {
    match word {
        Some(word) => "Some("@ + word + ")"@,
        None => "None"@,
    }
}

/// A list of texts as it is shown: each in quotes, with commas between them.
pub open spec fn shown_list(texts: Seq<Seq<char>>) -> Seq<char>
    decreases texts.len(),
{
    if texts.len() == 0 {
        ""@
    } else if texts.len() == 1 {
        "\""@ + texts.last() + "\""@
    } else {
        shown_list(texts.drop_last()) + ", \""@ + texts.last() + "\""@
    }
}

/// An optional number, widened.
pub open spec fn widened(number: Option<u64>) -> Option<nat> {
    match number {
        Some(number) => Some(number as nat),
        None => None,
    }
}

/// An optional number, widened.
pub open spec fn widened_u32(number: Option<u32>) -> Option<nat> {
    match number {
        Some(number) => Some(number as nat),
        None => None,
    }
}

/// An optional number, widened.
pub open spec fn widened_u8(number: Option<u8>) -> Option<nat> {
    match number {
        Some(number) => Some(number as nat),
        None => None,
    }
}

/// The name of a sensitivity.
pub open spec fn sensitivity_name(sensitivity: SegmentSensitivity) -> Seq<char> {
    match sensitivity {
        SegmentSensitivity::Public => "Public"@,
        SegmentSensitivity::Sensitive => "Sensitive"@,
    }
}

/// The name of a trust class.
pub open spec fn trust_name(trust: TrustClass) -> Seq<char> {
    match trust {
        TrustClass::UserContent => "UserContent"@,
        TrustClass::ExternalContent => "ExternalContent"@,
    }
}

fn show_text(text: Option<&str>) -> (r: String)
    ensures
        r@ == shown_text(
            match text {
                Some(text) => Some(text@),
                None => None,
            },
        ),
{
    match text {
        Some(text) => {
            let mut out = "Some(\"".to_owned();
            out.append(text);
            out.append("\")");
            out
        },
        None => "None".to_owned(),
    }
}

fn show_owned(text: &Option<String>) -> (r: String)
    ensures
        r@ == shown_text(text.deep_view()),
{
    match text {
        Some(text) => show_text(Some(text.as_str())),
        None => show_text(None),
    }
}

fn show_fingerprint(fingerprint: &Option<Fingerprint>) -> (r: String)
    ensures
        r@ == shown_text(fingerprint.deep_view()),
{
    match fingerprint {
        Some(fingerprint) => show_text(Some(fingerprint.as_str())),
        None => show_text(None),
    }
}

fn show_revision(revision: &Option<RegistryRevision>) -> (r: String)
    ensures
        r@ == shown_text(revision.deep_view()),
{
    match revision {
        Some(revision) => show_text(Some(revision.as_str())),
        None => show_text(None),
    }
}

fn show_word(word: &str) -> (r: String)
    ensures
        r@ == shown_word(Some(word@)),
{
    let mut out = "Some(".to_owned();
    out.append(word);
    out.append(")");
    out
}

fn show_u64(number: Option<u64>) -> (r: String)
    ensures
        r@ == shown_number(widened(number)),
{
    match number {
        Some(number) => show_word(decimal_text(number).as_str()),
        None => "None".to_owned(),
    }
}

fn show_u32(number: Option<u32>) -> (r: String)
    ensures
        r@ == shown_number(widened_u32(number)),
{
    match number {
        Some(number) => show_word(decimal_text(number as u64).as_str()),
        None => "None".to_owned(),
    }
}

fn show_u8(number: Option<u8>) -> (r: String)
    ensures
        r@ == shown_number(widened_u8(number)),
{
    match number {
        Some(number) => show_word(decimal_text(number as u64).as_str()),
        None => "None".to_owned(),
    }
}

fn show_list(texts: &Vec<String>) -> (r: String)
    ensures
        r@ == shown_list(texts.deep_view()),
{
    let ghost views = texts.deep_view();
    let mut out = "".to_owned();
    let mut i: usize = 0;
    assert(views.subrange(0, 0) =~= Seq::<Seq<char>>::empty());
    while i < texts.len()
        invariant
            i <= texts.len(),
            views == texts.deep_view(),
            out@ == shown_list(views.subrange(0, i as int)),
        decreases texts.len() - i,
    {
        proof {
            let items = views.subrange(0, i + 1);
            assert(items.drop_last() =~= views.subrange(0, i as int));
            assert(items.last() == texts[i as int]@);
        }
        if i == 0 {
            out = "\"".to_owned();
        } else {
            out.append(", \"");
        }
        out.append(texts[i].as_str());
        out.append("\"");
        i = i + 1;
    }
    assert(views.subrange(0, views.len() as int) =~= views);
    out
}

fn show_sensitivity(sensitivity: Option<SegmentSensitivity>) -> (r: String)
    ensures
        r@ == shown_word(named_sensitivity(sensitivity)),
{
    match sensitivity {
        Some(SegmentSensitivity::Public) => show_word("Public"),
        Some(SegmentSensitivity::Sensitive) => show_word("Sensitive"),
        None => "None".to_owned(),
    }
}

/// The name of an optional sensitivity.
pub open spec fn named_sensitivity(sensitivity: Option<SegmentSensitivity>) -> Option<Seq<char>> {
    match sensitivity {
        Some(sensitivity) => Some(sensitivity_name(sensitivity)),
        None => None,
    }
}

/// The name of an optional trust class.
pub open spec fn named_trust(trust: Option<TrustClass>) -> Option<Seq<char>> {
    match trust {
        Some(trust) => Some(trust_name(trust)),
        None => None,
    }
}

fn show_trust(trust: Option<TrustClass>) -> (r: String)
    ensures
        r@ == shown_word(named_trust(trust)),
{
    match trust {
        Some(TrustClass::UserContent) => show_word("UserContent"),
        Some(TrustClass::ExternalContent) => show_word("ExternalContent"),
        None => "None".to_owned(),
    }
}

impl LcmLifecycleMetadataView {
    /// The first fields, as they are shown.
    pub open spec fn first_fields(self) -> Seq<char> {
        "timeline_id: "@ + shown_text(self.timeline_id)
            + ", operation_id: "@ + shown_text(self.operation_id)
            + ", operation_fingerprint: "@ + shown_text(self.operation_fingerprint)
            + ", node_id: "@ + shown_text(self.node_id)
            + ", dag_revision: "@ + shown_number(widened(self.dag_revision))
            + ", covered_start: "@ + shown_number(widened(self.covered_start))
            + ", covered_end: "@ + shown_number(widened(self.covered_end))
            + ", covered_count: "@ + shown_number(widened_u32(self.covered_count))
            + ", child_count: "@ + shown_number(widened_u32(self.child_count))
            + ", child_ids: "@ + "["@ + shown_list(self.child_ids) + "]"@
    }

    /// The second fields, as they are shown.
    pub open spec fn second_fields(self) -> Seq<char> {
        ", expanded_count: "@ + shown_number(widened_u32(self.expanded_count))
            + ", expansion_cursor: "@ + shown_text(self.expansion_cursor)
            + ", soft_threshold_tokens: "@ + shown_number(widened_u32(self.soft_threshold_tokens))
            + ", hard_threshold_tokens: "@ + shown_number(widened_u32(self.hard_threshold_tokens))
            + ", pressure_percent: "@ + shown_number(widened_u8(self.pressure_percent))
            + ", escalation_level: "@ + shown_number(widened_u8(self.escalation_level))
            + ", policy_revision: "@ + shown_text(self.policy_revision)
            + ", algorithm_revision: "@ + shown_text(self.algorithm_revision)
            + ", model_revision: "@ + shown_text(self.model_revision)
            + ", sizer_revision: "@ + shown_text(self.sizer_revision)
    }

    /// The third fields, as they are shown.
    pub open spec fn third_fields(self) -> Seq<char> {
        ", sensitivity: "@ + shown_word(named_sensitivity(self.sensitivity))
            + ", trust: "@ + shown_word(named_trust(self.trust))
            + ", guard_revision: "@ + shown_text(self.guard_revision)
            + ", source_fingerprint: "@ + shown_text(self.source_fingerprint)
            + ", result_fingerprint: "@ + shown_text(self.result_fingerprint)
            + ", input_tokens: "@ + shown_number(widened_u32(self.input_tokens))
            + ", output_tokens: "@ + shown_number(widened_u32(self.output_tokens))
            + ", reclaimed_tokens: "@ + shown_number(widened_u32(self.reclaimed_tokens))
    }

    /// The debug form: every field, opaque ids only as fingerprints.
    pub open spec fn debug_text(self) -> Seq<char> {
        let shown = self.redacted();
        "LcmLifecycleMetadata { "@ + shown.first_fields() + shown.second_fields()
            + shown.third_fields() + " }"@
    }
}

impl LcmLifecycleMetadata {
    /// The metadata with every opaque id replaced by its fingerprint.
    pub fn redacted(&self) -> (r: LcmLifecycleMetadata)
        ensures
            r@ == self@.redacted(),
    {
        let mut r = self.copied();
        r.timeline_id = redact_option(&self.timeline_id);
        r.operation_id = redact_option(&self.operation_id);
        r.node_id = redact_option(&self.node_id);
        r.expansion_cursor = redact_option(&self.expansion_cursor);
        r.child_ids = redact_list(&self.child_ids);
        r
    }

    fn first_fields_text(&self) -> (r: String)
        ensures
            r@ == self@.first_fields(),
    {
        let mut out = "timeline_id: ".to_owned();
        out.append(show_owned(&self.timeline_id).as_str());
        out.append(", operation_id: ");
        out.append(show_owned(&self.operation_id).as_str());
        out.append(", operation_fingerprint: ");
        out.append(show_fingerprint(&self.operation_fingerprint).as_str());
        out.append(", node_id: ");
        out.append(show_owned(&self.node_id).as_str());
        out.append(", dag_revision: ");
        out.append(show_u64(self.dag_revision).as_str());
        out.append(", covered_start: ");
        out.append(show_u64(self.covered_start).as_str());
        out.append(", covered_end: ");
        out.append(show_u64(self.covered_end).as_str());
        out.append(", covered_count: ");
        out.append(show_u32(self.covered_count).as_str());
        out.append(", child_count: ");
        out.append(show_u32(self.child_count).as_str());
        out.append(", child_ids: ");
        out.append("[");
        out.append(show_list(&self.child_ids).as_str());
        out.append("]");
        out
    }

    fn second_fields_text(&self) -> (r: String)
        ensures
            r@ == self@.second_fields(),
    {
        let mut out = ", expanded_count: ".to_owned();
        out.append(show_u32(self.expanded_count).as_str());
        out.append(", expansion_cursor: ");
        out.append(show_owned(&self.expansion_cursor).as_str());
        out.append(", soft_threshold_tokens: ");
        out.append(show_u32(self.soft_threshold_tokens).as_str());
        out.append(", hard_threshold_tokens: ");
        out.append(show_u32(self.hard_threshold_tokens).as_str());
        out.append(", pressure_percent: ");
        out.append(show_u8(self.pressure_percent).as_str());
        out.append(", escalation_level: ");
        out.append(show_u8(self.escalation_level).as_str());
        out.append(", policy_revision: ");
        out.append(show_revision(&self.policy_revision).as_str());
        out.append(", algorithm_revision: ");
        out.append(show_revision(&self.algorithm_revision).as_str());
        out.append(", model_revision: ");
        out.append(show_revision(&self.model_revision).as_str());
        out.append(", sizer_revision: ");
        out.append(show_revision(&self.sizer_revision).as_str());
        out
    }

    fn third_fields_text(&self) -> (r: String)
        ensures
            r@ == self@.third_fields(),
    {
        let mut out = ", sensitivity: ".to_owned();
        out.append(show_sensitivity(self.sensitivity).as_str());
        out.append(", trust: ");
        out.append(show_trust(self.trust).as_str());
        out.append(", guard_revision: ");
        out.append(show_revision(&self.guard_revision).as_str());
        out.append(", source_fingerprint: ");
        out.append(show_fingerprint(&self.source_fingerprint).as_str());
        out.append(", result_fingerprint: ");
        out.append(show_fingerprint(&self.result_fingerprint).as_str());
        out.append(", input_tokens: ");
        out.append(show_u32(self.input_tokens).as_str());
        out.append(", output_tokens: ");
        out.append(show_u32(self.output_tokens).as_str());
        out.append(", reclaimed_tokens: ");
        out.append(show_u32(self.reclaimed_tokens).as_str());
        out
    }

    /// The debug form: every field, opaque ids only as fingerprints.
    pub fn to_debug_text(&self) -> (r: String)
        ensures
            r@ == self@.debug_text(),
    {
        let shown = self.redacted();
        let mut out = "LcmLifecycleMetadata { ".to_owned();
        out.append(shown.first_fields_text().as_str());
        out.append(shown.second_fields_text().as_str());
        out.append(shown.third_fields_text().as_str());
        out.append(" }");
        out
    }
}

/// The debug form says of opaque ids only their fingerprints: metadata whose
/// ids have the same fingerprints, and that agrees in everything else, is shown
/// in the same way.
pub proof fn debug_text_only_shows_fingerprints(
    a: LcmLifecycleMetadataView,
    c: LcmLifecycleMetadataView,
)
    requires
        a.redacted() == c.redacted(),
    ensures
        a.debug_text() == c.debug_text(),
{
}

/// What is valid is bounded: no opaque id is blank or longer than its bound,
/// and no more than the bounded number of child ids is listed, each once.
pub proof fn valid_metadata_is_bounded(metadata: LcmLifecycleMetadataView)
    requires
        metadata.fault() is None,
    ensures
        metadata.timeline_id matches Some(id) ==> !is_blank_text(id) && id.len()
            <= MAX_LCM_LIFECYCLE_ID_CHARS,
        metadata.operation_id matches Some(id) ==> !is_blank_text(id) && id.len()
            <= MAX_LCM_LIFECYCLE_ID_CHARS,
        metadata.node_id matches Some(id) ==> !is_blank_text(id) && id.len()
            <= MAX_LCM_LIFECYCLE_ID_CHARS,
        metadata.expansion_cursor matches Some(id) ==> !is_blank_text(id) && id.len()
            <= MAX_LCM_LIFECYCLE_ID_CHARS,
        metadata.child_ids.len() <= MAX_LCM_LIFECYCLE_CHILD_IDS,
        metadata.child_ids.no_duplicates(),
        forall|i: int|
            0 <= i < metadata.child_ids.len() ==> !is_blank_text(#[trigger] metadata.child_ids[i])
                && metadata.child_ids[i].len() <= MAX_LCM_LIFECYCLE_ID_CHARS,
{
    lemma_child_ids_are_bounded(metadata.child_ids);
}

proof fn lemma_child_ids_are_bounded(ids: Seq<Seq<char>>)
    requires
        child_id_fault(ids) is None,
    ensures
        forall|i: int|
            0 <= i < ids.len() ==> !is_blank_text(#[trigger] ids[i]) && ids[i].len()
                <= MAX_LCM_LIFECYCLE_ID_CHARS,
    decreases ids.len(),
{
    if ids.len() > 0 {
        lemma_child_ids_are_bounded(ids.drop_last());
        assert forall|i: int| 0 <= i < ids.len() implies !is_blank_text(#[trigger] ids[i])
            && ids[i].len() <= MAX_LCM_LIFECYCLE_ID_CHARS by {
            if i < ids.len() - 1 {
                assert(ids.drop_last()[i] == ids[i]);
            }
        }
    }
}

/// A covered range that was accepted covers exactly as many entries as it says.
pub proof fn a_valid_range_matches_its_count(
    metadata: LcmLifecycleMetadataView,
    start: u64,
    end: u64,
)
    requires
        metadata.fault() is None,
        metadata.covered_start == Some(start),
        metadata.covered_end == Some(end),
    ensures
        start <= end,
        metadata.covered_count matches Some(count) && count == end - start + 1,
{
}

/// Whether the text says something and has at most 128 characters.
pub open spec fn is_legible(text: Seq<char>) -> bool {
    &&& text.len() <= 128
    &&& exists|i: int| 0 <= i < text.len() && !is_white_space(#[trigger] text[i])
}

/// Whether a text that is there is legible.
pub open spec fn is_legible_if_any(text: Option<Seq<char>>) -> bool {
    text matches Some(t) ==> is_legible(t)
}

/// Whether the child ids are few, legible, and each listed once, and the count that goes
/// with them is no smaller; without a count there are none.
pub open spec fn are_children(ids: Seq<Seq<char>>, count: Option<u32>) -> bool {
    &&& ids.len() <= 16
    &&& forall|i: int| 0 <= i < ids.len() ==> is_legible(#[trigger] ids[i])
    &&& forall|i: int, j: int| 0 <= i < j < ids.len() ==> #[trigger] ids[i] != #[trigger] ids[j]
    &&& count matches Some(n) ==> ids.len() <= n
    &&& count is None ==> ids.len() == 0
}

/// Whether the covered range is told of in full, is not reversed, and covers as many
/// entries as are counted; a count alone is more than none.
pub open spec fn is_a_range(start: Option<u64>, end: Option<u64>, count: Option<u32>) -> bool {
    &&& start is Some <==> end is Some
    &&& start is Some ==> count is Some && start->0 + count->0 == end->0 + 1 && count->0 > 0
    &&& start is None ==> (count matches Some(n) ==> n > 0)
}

proof fn lemma_legible(text: Seq<char>)
    ensures
        opaque_id_fault(text) is None <==> is_legible(text),
{
    if !is_blank_text(text) {
        let i = choose|i: int| 0 <= i < text.len() && !is_white_space(#[trigger] text[i]);
        assert(!is_white_space(text[i]));
    }
}

proof fn lemma_legible_children(ids: Seq<Seq<char>>)
    ensures
        child_id_fault(ids) is None <==> forall|i: int|
            0 <= i < ids.len() ==> is_legible(#[trigger] ids[i]),
    decreases ids.len(),
{
    if ids.len() > 0 {
        let before = ids.drop_last();
        lemma_legible_children(before);
        lemma_legible(ids.last());
        if child_id_fault(ids) is None {
            assert forall|i: int| 0 <= i < ids.len() implies is_legible(#[trigger] ids[i]) by {
                if i < before.len() {
                    assert(before[i] == ids[i]);
                }
            }
        }
        if forall|i: int| 0 <= i < ids.len() ==> is_legible(#[trigger] ids[i]) {
            assert forall|i: int| 0 <= i < before.len() implies is_legible(
                #[trigger] before[i],
            ) by {
                assert(before[i] == ids[i]);
            }
            assert(is_legible(ids[ids.len() - 1]));
        }
    }
}

/// Metadata is valid exactly when its ids and revisions are legible, its children and its
/// range agree with their counts, its percentage and its level are in bounds, and its soft
/// threshold is not over its hard one.
pub proof fn metadata_is_valid_exactly_when_consistent(m: LcmLifecycleMetadataView)
    ensures
        m.fault() is None <==> {
            &&& is_legible_if_any(m.timeline_id)
            &&& is_legible_if_any(m.operation_id)
            &&& is_legible_if_any(m.node_id)
            &&& is_legible_if_any(m.expansion_cursor)
            &&& are_children(m.child_ids, m.child_count)
            &&& m.pressure_percent matches Some(percent) ==> percent <= 100
            &&& m.escalation_level matches Some(level) ==> 1 <= level <= 3
            &&& is_a_range(m.covered_start, m.covered_end, m.covered_count)
            &&& m.soft_threshold_tokens is Some && m.hard_threshold_tokens is Some
                ==> m.soft_threshold_tokens->0 <= m.hard_threshold_tokens->0
            &&& is_legible_if_any(m.policy_revision)
            &&& is_legible_if_any(m.algorithm_revision)
            &&& is_legible_if_any(m.model_revision)
            &&& is_legible_if_any(m.sizer_revision)
            &&& is_legible_if_any(m.guard_revision)
        },
{
    lemma_legible_option(m.timeline_id);
    lemma_legible_option(m.operation_id);
    lemma_legible_option(m.node_id);
    lemma_legible_option(m.expansion_cursor);
    lemma_legible_option(m.policy_revision);
    lemma_legible_option(m.algorithm_revision);
    lemma_legible_option(m.model_revision);
    lemma_legible_option(m.sizer_revision);
    lemma_legible_option(m.guard_revision);
    lemma_legible_children(m.child_ids);
    lemma_range(m);
    let ids = m.child_ids;
    if forall|i: int, j: int| 0 <= i < j < ids.len() ==> #[trigger] ids[i] != #[trigger] ids[j] {
        assert(ids.no_duplicates());
    }
}

proof fn lemma_range(m: LcmLifecycleMetadataView)
    ensures
        m.range_fault() is None <==> is_a_range(m.covered_start, m.covered_end, m.covered_count),
{
}

proof fn lemma_legible_option(text: Option<Seq<char>>)
    ensures
        optional_id_fault(text) is None <==> is_legible_if_any(text),
        !is_bad_revision(text) <==> is_legible_if_any(text),
{
    if let Some(t) = text {
        lemma_legible(t);
    }
}

/// What is wrong with an id is that it says nothing, whatever its length, or else that it
/// is too long.
pub proof fn a_bad_id_is_blank_or_long(id: Seq<char>)
    ensures
        opaque_id_fault(id) is None <==> is_legible(id),
        opaque_id_fault(id) == Some(LcmLifecycleMetadataError::EmptyOpaqueId) <==> forall|i: int|
            0 <= i < id.len() ==> is_white_space(#[trigger] id[i]),
        !is_legible(id) && opaque_id_fault(id) != Some(LcmLifecycleMetadataError::EmptyOpaqueId)
            ==> opaque_id_fault(id) == Some(LcmLifecycleMetadataError::OpaqueIdTooLong),
{
    lemma_legible(id);
}

/// What is wrong with the numbers of metadata is told by its own error, where nothing is
/// wrong with the ids.
pub proof fn bad_numbers_have_errors_of_their_own(m: LcmLifecycleMetadataView)
    requires
        is_legible_if_any(m.timeline_id),
        is_legible_if_any(m.operation_id),
        is_legible_if_any(m.node_id),
        is_legible_if_any(m.expansion_cursor),
        are_children(m.child_ids, m.child_count),
    ensures
        m.pressure_percent matches Some(percent) ==> (percent > 100 ==> m.fault() == Some(
            LcmLifecycleMetadataError::InvalidPressurePercent,
        )),
        m.fault() == Some(LcmLifecycleMetadataError::InvalidPressurePercent) ==> {
            m.pressure_percent is Some && m.pressure_percent->0 > 100
        },
        m.fault() == Some(LcmLifecycleMetadataError::InvalidEscalationLevel) ==> {
            m.escalation_level is Some && !(1 <= m.escalation_level->0 <= 3)
        },
        m.fault() == Some(LcmLifecycleMetadataError::ReversedCoveredRange) ==> {
            m.covered_start is Some && m.covered_end is Some && m.covered_start->0
                > m.covered_end->0
        },
        m.fault() == Some(LcmLifecycleMetadataError::IncompleteCoveredRange) ==> {
            ||| (m.covered_start is Some) != (m.covered_end is Some)
            ||| m.covered_start is Some && m.covered_count is None
        },
        m.fault() == Some(LcmLifecycleMetadataError::CoveredRangeCountMismatch) ==> {
            m.covered_count is Some && !is_a_range(m.covered_start, m.covered_end, m.covered_count)
        },
        m.fault() == Some(LcmLifecycleMetadataError::InvalidThresholdOrder) ==> {
            m.soft_threshold_tokens is Some && m.hard_threshold_tokens is Some
                && m.soft_threshold_tokens->0 > m.hard_threshold_tokens->0
        },
        m.fault() == Some(LcmLifecycleMetadataError::InvalidMetadata) ==> {
            ||| !is_legible_if_any(m.policy_revision)
            ||| !is_legible_if_any(m.algorithm_revision)
            ||| !is_legible_if_any(m.model_revision)
            ||| !is_legible_if_any(m.sizer_revision)
            ||| !is_legible_if_any(m.guard_revision)
        },
        m.fault() matches Some(e) ==> {
            ||| e == LcmLifecycleMetadataError::InvalidPressurePercent
            ||| e == LcmLifecycleMetadataError::InvalidEscalationLevel
            ||| e == LcmLifecycleMetadataError::ReversedCoveredRange
            ||| e == LcmLifecycleMetadataError::IncompleteCoveredRange
            ||| e == LcmLifecycleMetadataError::CoveredRangeCountMismatch
            ||| e == LcmLifecycleMetadataError::InvalidThresholdOrder
            ||| e == LcmLifecycleMetadataError::InvalidMetadata
        },
{
    metadata_is_valid_exactly_when_consistent(m);
    lemma_legible_option(m.timeline_id);
    lemma_legible_option(m.operation_id);
    lemma_legible_option(m.node_id);
    lemma_legible_option(m.expansion_cursor);
    lemma_legible_option(m.policy_revision);
    lemma_legible_option(m.algorithm_revision);
    lemma_legible_option(m.model_revision);
    lemma_legible_option(m.sizer_revision);
    lemma_legible_option(m.guard_revision);
    lemma_legible_children(m.child_ids);
    assert(m.child_ids.no_duplicates());
}

/// Redaction puts the fingerprint of an opaque id in its place, for the ids of the
/// timeline, the operation, the node, the cursor, and each child, in order; nothing else
/// changes.
pub proof fn redaction_hides_exactly_the_opaque_ids(m: LcmLifecycleMetadataView)
    ensures
        ({
            let shown = m.redacted();
            &&& shown.timeline_id is Some <==> m.timeline_id is Some
            &&& m.timeline_id matches Some(id) ==> shown.timeline_id == Some(
                fingerprint_of(seq![id]),
            )
            &&& shown.operation_id is Some <==> m.operation_id is Some
            &&& m.operation_id matches Some(id) ==> shown.operation_id == Some(
                fingerprint_of(seq![id]),
            )
            &&& shown.node_id is Some <==> m.node_id is Some
            &&& m.node_id matches Some(id) ==> shown.node_id == Some(fingerprint_of(seq![id]))
            &&& shown.expansion_cursor is Some <==> m.expansion_cursor is Some
            &&& m.expansion_cursor matches Some(id) ==> shown.expansion_cursor == Some(
                fingerprint_of(seq![id]),
            )
            &&& shown.child_ids.len() == m.child_ids.len()
            &&& forall|i: int|
                0 <= i < m.child_ids.len() ==> #[trigger] shown.child_ids[i] == fingerprint_of(
                    seq![m.child_ids[i]],
                )
            &&& m == (LcmLifecycleMetadataView {
                timeline_id: m.timeline_id,
                operation_id: m.operation_id,
                node_id: m.node_id,
                expansion_cursor: m.expansion_cursor,
                child_ids: m.child_ids,
                ..shown
            })
        }),
{
}

/// Metadata is valid exactly when it is consistent, and an id exactly when it is legible.
pub proof fn validating_metadata_finds_whether_it_is_consistent(
    metadata: LcmLifecycleMetadata,
    id: &str,
    ids: Vec<String>,
    r: Result<(), LcmLifecycleMetadataError>,
    a: Result<(), LcmLifecycleMetadataError>,
    b: Result<(), LcmLifecycleMetadataError>,
)
    requires
        call_ensures(LcmLifecycleMetadata::validate, (&metadata,), r),
        call_ensures(validate_lcm_opaque_id, (id,), a),
        call_ensures(validate_lcm_child_ids, (&ids,), b),
    ensures
        a is Ok <==> is_legible(id@),
        b is Ok <==> {
            &&& ids.deep_view().len() <= 16
            &&& forall|i: int|
                0 <= i < ids.deep_view().len() ==> is_legible(#[trigger] ids.deep_view()[i])
        },
        ({
            let m = metadata@;
            r is Ok <==> {
                &&& is_legible_if_any(m.timeline_id)
                &&& is_legible_if_any(m.operation_id)
                &&& is_legible_if_any(m.node_id)
                &&& is_legible_if_any(m.expansion_cursor)
                &&& are_children(m.child_ids, m.child_count)
                &&& m.pressure_percent matches Some(percent) ==> percent <= 100
                &&& m.escalation_level matches Some(level) ==> 1 <= level <= 3
                &&& is_a_range(m.covered_start, m.covered_end, m.covered_count)
                &&& m.soft_threshold_tokens is Some && m.hard_threshold_tokens is Some
                    ==> m.soft_threshold_tokens->0 <= m.hard_threshold_tokens->0
                &&& is_legible_if_any(m.policy_revision)
                &&& is_legible_if_any(m.algorithm_revision)
                &&& is_legible_if_any(m.model_revision)
                &&& is_legible_if_any(m.sizer_revision)
                &&& is_legible_if_any(m.guard_revision)
            }
        }),
{
    metadata_is_valid_exactly_when_consistent(metadata@);
    lemma_legible(id@);
    lemma_legible_children(ids.deep_view());
}

/// A redacted copy shows fingerprints in place of ids, and no metadata says nothing.
pub proof fn redacting_hides_the_ids(
    metadata: LcmLifecycleMetadata,
    shown: LcmLifecycleMetadata,
)
    requires
        call_ensures(LcmLifecycleMetadata::redacted, (&metadata,), shown),
    ensures
        metadata@.timeline_id matches Some(id) ==> shown@.timeline_id == Some(
            fingerprint_of(seq![id]),
        ),
        metadata@.operation_id matches Some(id) ==> shown@.operation_id == Some(
            fingerprint_of(seq![id]),
        ),
        metadata@.node_id matches Some(id) ==> shown@.node_id == Some(fingerprint_of(seq![id])),
        metadata@.expansion_cursor matches Some(id) ==> shown@.expansion_cursor == Some(
            fingerprint_of(seq![id]),
        ),
        shown@.child_ids.len() == metadata@.child_ids.len(),
        forall|i: int|
            0 <= i < metadata@.child_ids.len() ==> #[trigger] shown@.child_ids[i]
                == fingerprint_of(seq![metadata@.child_ids[i]]),
        shown@.covered_count == metadata@.covered_count,
        shown@.child_count == metadata@.child_count,
        shown@.pressure_percent == metadata@.pressure_percent,
        shown@.escalation_level == metadata@.escalation_level,
{
    redaction_hides_exactly_the_opaque_ids(metadata@);
}

/// Every error of lifecycle metadata says in words what it is about.
pub proof fn metadata_errors_say_what_they_are_about(x: LcmLifecycleMetadataError, r: &'static str)
    requires
        call_ensures(LcmLifecycleMetadataError::to_text, (x,), r),
    ensures
        x == LcmLifecycleMetadataError::EmptyOpaqueId ==> r@
            == "opaque LCM id/cursor must not be empty"@,
        x == LcmLifecycleMetadataError::OpaqueIdTooLong ==> r@
            == "opaque LCM id/cursor exceeds its character bound"@,
        x == LcmLifecycleMetadataError::TooManyChildIds ==> r@
            == "LCM child id list exceeds its bound"@,
        x == LcmLifecycleMetadataError::ChildIdTooLong ==> r@
            == "an LCM child id exceeds its character bound"@,
        x == LcmLifecycleMetadataError::EmptyChildId ==> r@
            == "an LCM child id must not be empty"@,
        x == LcmLifecycleMetadataError::InvalidPressurePercent ==> r@
            == "LCM pressure percentage must be between 0 and 100"@,
        x == LcmLifecycleMetadataError::InvalidEscalationLevel ==> r@
            == "LCM escalation level must be between 1 and 3"@,
        x == LcmLifecycleMetadataError::IncompleteCoveredRange ==> r@
            == "LCM covered range fields must be provided together"@,
        x == LcmLifecycleMetadataError::ReversedCoveredRange ==> r@
            == "LCM covered range is reversed"@,
        x == LcmLifecycleMetadataError::CoveredRangeCountMismatch ==> r@
            == "LCM covered range does not match its count"@,
        x == LcmLifecycleMetadataError::ChildCountMismatch ==> r@
            == "LCM child ids do not match their aggregate count"@,
        x == LcmLifecycleMetadataError::InvalidMetadata ==> r@
            == "LCM metadata revision or label is invalid"@,
        x == LcmLifecycleMetadataError::InvalidThresholdOrder ==> r@
            == "LCM soft threshold must not exceed its hard threshold"@,
{
}

proof fn lemma_same_tail(a: Seq<char>, b: Seq<char>, rest: Seq<char>)
    requires
        a + rest == b + rest,
    ensures
        a == b,
{
    assert((a + rest).len() == a.len() + rest.len());
    assert((b + rest).len() == b.len() + rest.len());
    assert(a =~= (a + rest).subrange(0, a.len() as int));
    assert(b =~= (b + rest).subrange(0, b.len() as int));
}

proof fn lemma_same_head(head: Seq<char>, a: Seq<char>, b: Seq<char>)
    requires
        head + a == head + b,
    ensures
        a == b,
{
    assert((head + a).len() == head.len() + a.len());
    assert((head + b).len() == head.len() + b.len());
    assert(a =~= (head + a).subrange(head.len() as int, (head + a).len() as int));
    assert(b =~= (head + b).subrange(head.len() as int, (head + b).len() as int));
}

/// A text, a number, or a word that is shown can be told from any other, and from none.
pub proof fn what_is_shown_can_be_told(
    t: Option<Seq<char>>,
    u: Option<Seq<char>>,
    m: Option<nat>,
    n: Option<nat>,
)
    ensures
        shown_text(t) == shown_text(u) ==> t == u,
        shown_number(m) == shown_number(n) ==> m == n,
        shown_word(t) == shown_word(u) ==> t == u,
{
    reveal_strlit("Some(\"");
    reveal_strlit("\")");
    reveal_strlit("Some(");
    reveal_strlit(")");
    reveal_strlit("None");
    assert("None"@.len() == 4);
    assert("Some("@.len() == 5);
    assert("Some(\""@.len() == 6);
    if let (Some(a), Some(b)) = (t, u) {
        if shown_text(t) == shown_text(u) {
            lemma_same_tail("Some(\""@ + a, "Some(\""@ + b, "\")"@);
            lemma_same_head("Some(\""@, a, b);
        }
        if shown_word(t) == shown_word(u) {
            lemma_same_tail("Some("@ + a, "Some("@ + b, ")"@);
            lemma_same_head("Some("@, a, b);
        }
    }
    if let (Some(a), Some(b)) = (m, n) {
        if shown_number(m) == shown_number(n) {
            lemma_same_tail("Some("@ + decimal(a), "Some("@ + decimal(b), ")"@);
            lemma_same_head("Some("@, decimal(a), decimal(b));
            lemma_decimal_determines(a, b);
        }
    }
}

/// The names of the sensitivities and of the trust classes tell them apart.
pub proof fn names_tell_classes_apart(
    s: SegmentSensitivity,
    t: SegmentSensitivity,
    u: TrustClass,
    v: TrustClass,
)
    ensures
        sensitivity_name(s) == sensitivity_name(t) ==> s == t,
        trust_name(u) == trust_name(v) ==> u == v,
        s == SegmentSensitivity::Public ==> sensitivity_name(s) == "Public"@,
        u == TrustClass::UserContent ==> trust_name(u) == "UserContent"@,
{
    reveal_strlit("Public");
    reveal_strlit("Sensitive");
    reveal_strlit("UserContent");
    reveal_strlit("ExternalContent");
    assert("Public"@.len() == 6);
    assert("Sensitive"@.len() == 9);
    assert("UserContent"@.len() == 11);
    assert("ExternalContent"@.len() == 15);
}

} // verus!
