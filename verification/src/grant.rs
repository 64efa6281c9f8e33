//! Capability grants, authorization decisions, and constraint composition.
//!
//! [`CapabilityGrant`] is the runtime's one unit of granted authority: bounded, and
//! unforgeable by construction. [`AuthorizationDecision`] is what a composed
//! evaluation produces, [`SecurityCheckOutcome`] is what one registered check
//! contributes, and [`GrantConstraints`] is the per-dimension algebra their
//! constraints compose under.

use vstd::prelude::*;

use crate::clock::{expired, Deadline, Timestamp};
use crate::collections::{
    dict, lemma_dict, lemma_dict_determines_entries, ordered_keys, TextMap, TextSet,
};
use crate::fingerprint::{
    absorb_all, fingerprint_of, group_absorb, Encoded, Fingerprint, FingerprintHasher,
};
use crate::ids::SessionId;
use crate::record::Record;
use crate::security::{
    permission_sequence, resource_fields, scope_contains, slugs, AuthorizationRequest,
    AuthorizationRequestView, CheckSetRevision, PermissionSet, PermissionView, SecurityAction,
    SecurityContext, SecurityContextView, SecurityResource, SecurityResourceView, SecuritySubject,
};
use crate::text::{decimal, decimal_text, lemma_decimal_determines};

verus! {

/// A stable reason code for a denial or approval outcome.
#[derive(Debug, PartialEq, Eq)]
pub enum DecisionCode {
    /// No authoritative check individually covers a requested permission.
    MissingAuthoritativeCoverage,
    /// No check, whatever its mode, has the requested permission in its coverage.
    UnknownPermission,
    /// An enforcing (authoritative or required-constraint) check returned
    /// `Deny`.
    EnforcingCheckDenied,
    /// An enforcing check failed, timed out, panicked, or was cancelled.
    EnforcingCheckUnavailable,
    /// A check produced output the composer could not validate.
    InvalidCheckOutput,
    /// The per-dimension constraint meet was empty on at least one dimension.
    ConstraintMeetEmpty,
    /// A presented grant's subject or session does not match the request.
    GrantSubjectOrSessionMismatch,
    /// A presented grant's resource scope does not cover the request's
    /// resource.
    GrantResourceNotCovered,
    /// A presented grant's permission set does not cover the request's
    /// requested permissions.
    GrantPermissionNotCovered,
    /// A presented grant's check-set revision or policy epoch no longer
    /// matches the current value.
    GrantRevisionOrEpochStale,
    /// A presented grant is expired.
    GrantExpired,
    /// A presented grant's remaining use count is exhausted.
    GrantUseCountExhausted,
    /// A presented grant, or its subject/session, was explicitly revoked.
    GrantRevoked,
    /// A presented grant handle is unknown, foreign to this invocation, or
    /// already consumed.
    GrantHandleInvalid,
    /// Approval attempted to return a decision wider than the eligible grant.
    ApprovalWidened,
    /// Approval denied the action.
    ApprovalDenied,
    /// No approval policy was available to decide a `RequireApproval` outcome.
    NoApprovalPolicy,
    /// A host-configured enforcement-path ceiling was exceeded.
    CeilingExceeded,
    /// A tool or ability invocation requested authority its descriptor did
    /// not declare.
    UnderdeclaredEffect,
    /// A host- or check-defined reason code outside the fixed set above.
    Other(String),
}

/// What a [`DecisionCode`] holds.
pub enum DecisionCodeView {
    MissingAuthoritativeCoverage,
    UnknownPermission,
    EnforcingCheckDenied,
    EnforcingCheckUnavailable,
    InvalidCheckOutput,
    ConstraintMeetEmpty,
    GrantSubjectOrSessionMismatch,
    GrantResourceNotCovered,
    GrantPermissionNotCovered,
    GrantRevisionOrEpochStale,
    GrantExpired,
    GrantUseCountExhausted,
    GrantRevoked,
    GrantHandleInvalid,
    ApprovalWidened,
    ApprovalDenied,
    NoApprovalPolicy,
    CeilingExceeded,
    UnderdeclaredEffect,
    Other(Seq<char>),
}

impl DeepView for DecisionCode {
    type V = DecisionCodeView;

    open spec fn deep_view(&self) -> DecisionCodeView {
        match self {
            DecisionCode::MissingAuthoritativeCoverage => {
                DecisionCodeView::MissingAuthoritativeCoverage
            },
            DecisionCode::UnknownPermission => DecisionCodeView::UnknownPermission,
            DecisionCode::EnforcingCheckDenied => DecisionCodeView::EnforcingCheckDenied,
            DecisionCode::EnforcingCheckUnavailable => DecisionCodeView::EnforcingCheckUnavailable,
            DecisionCode::InvalidCheckOutput => DecisionCodeView::InvalidCheckOutput,
            DecisionCode::ConstraintMeetEmpty => DecisionCodeView::ConstraintMeetEmpty,
            DecisionCode::GrantSubjectOrSessionMismatch => {
                DecisionCodeView::GrantSubjectOrSessionMismatch
            },
            DecisionCode::GrantResourceNotCovered => DecisionCodeView::GrantResourceNotCovered,
            DecisionCode::GrantPermissionNotCovered => DecisionCodeView::GrantPermissionNotCovered,
            DecisionCode::GrantRevisionOrEpochStale => DecisionCodeView::GrantRevisionOrEpochStale,
            DecisionCode::GrantExpired => DecisionCodeView::GrantExpired,
            DecisionCode::GrantUseCountExhausted => DecisionCodeView::GrantUseCountExhausted,
            DecisionCode::GrantRevoked => DecisionCodeView::GrantRevoked,
            DecisionCode::GrantHandleInvalid => DecisionCodeView::GrantHandleInvalid,
            DecisionCode::ApprovalWidened => DecisionCodeView::ApprovalWidened,
            DecisionCode::ApprovalDenied => DecisionCodeView::ApprovalDenied,
            DecisionCode::NoApprovalPolicy => DecisionCodeView::NoApprovalPolicy,
            DecisionCode::CeilingExceeded => DecisionCodeView::CeilingExceeded,
            DecisionCode::UnderdeclaredEffect => DecisionCodeView::UnderdeclaredEffect,
            DecisionCode::Other(x0) => DecisionCodeView::Other(x0.deep_view()),
        }
    }
}

impl View for DecisionCode {
    type V = DecisionCodeView;

    open spec fn view(&self) -> DecisionCodeView {
        self.deep_view()
    }
}

impl Record for DecisionCode {
    fn same(&self, other: &Self) -> (r: bool) {
        match (self, other) {
            (
                DecisionCode::MissingAuthoritativeCoverage,
                DecisionCode::MissingAuthoritativeCoverage,
            ) => true,
            (DecisionCode::UnknownPermission, DecisionCode::UnknownPermission) => true,
            (DecisionCode::EnforcingCheckDenied, DecisionCode::EnforcingCheckDenied) => true,
            (DecisionCode::EnforcingCheckUnavailable, DecisionCode::EnforcingCheckUnavailable) => {
                true
            },
            (DecisionCode::InvalidCheckOutput, DecisionCode::InvalidCheckOutput) => true,
            (DecisionCode::ConstraintMeetEmpty, DecisionCode::ConstraintMeetEmpty) => true,
            (
                DecisionCode::GrantSubjectOrSessionMismatch,
                DecisionCode::GrantSubjectOrSessionMismatch,
            ) => true,
            (DecisionCode::GrantResourceNotCovered, DecisionCode::GrantResourceNotCovered) => true,
            (DecisionCode::GrantPermissionNotCovered, DecisionCode::GrantPermissionNotCovered) => {
                true
            },
            (DecisionCode::GrantRevisionOrEpochStale, DecisionCode::GrantRevisionOrEpochStale) => {
                true
            },
            (DecisionCode::GrantExpired, DecisionCode::GrantExpired) => true,
            (DecisionCode::GrantUseCountExhausted, DecisionCode::GrantUseCountExhausted) => true,
            (DecisionCode::GrantRevoked, DecisionCode::GrantRevoked) => true,
            (DecisionCode::GrantHandleInvalid, DecisionCode::GrantHandleInvalid) => true,
            (DecisionCode::ApprovalWidened, DecisionCode::ApprovalWidened) => true,
            (DecisionCode::ApprovalDenied, DecisionCode::ApprovalDenied) => true,
            (DecisionCode::NoApprovalPolicy, DecisionCode::NoApprovalPolicy) => true,
            (DecisionCode::CeilingExceeded, DecisionCode::CeilingExceeded) => true,
            (DecisionCode::UnderdeclaredEffect, DecisionCode::UnderdeclaredEffect) => true,
            (DecisionCode::Other(x0), DecisionCode::Other(x0_b)) => x0.same(x0_b),
            _ => false,
        }
    }

    fn copied(&self) -> (r: Self) {
        match self {
            DecisionCode::MissingAuthoritativeCoverage => {
                DecisionCode::MissingAuthoritativeCoverage
            },
            DecisionCode::UnknownPermission => DecisionCode::UnknownPermission,
            DecisionCode::EnforcingCheckDenied => DecisionCode::EnforcingCheckDenied,
            DecisionCode::EnforcingCheckUnavailable => DecisionCode::EnforcingCheckUnavailable,
            DecisionCode::InvalidCheckOutput => DecisionCode::InvalidCheckOutput,
            DecisionCode::ConstraintMeetEmpty => DecisionCode::ConstraintMeetEmpty,
            DecisionCode::GrantSubjectOrSessionMismatch => {
                DecisionCode::GrantSubjectOrSessionMismatch
            },
            DecisionCode::GrantResourceNotCovered => DecisionCode::GrantResourceNotCovered,
            DecisionCode::GrantPermissionNotCovered => DecisionCode::GrantPermissionNotCovered,
            DecisionCode::GrantRevisionOrEpochStale => DecisionCode::GrantRevisionOrEpochStale,
            DecisionCode::GrantExpired => DecisionCode::GrantExpired,
            DecisionCode::GrantUseCountExhausted => DecisionCode::GrantUseCountExhausted,
            DecisionCode::GrantRevoked => DecisionCode::GrantRevoked,
            DecisionCode::GrantHandleInvalid => DecisionCode::GrantHandleInvalid,
            DecisionCode::ApprovalWidened => DecisionCode::ApprovalWidened,
            DecisionCode::ApprovalDenied => DecisionCode::ApprovalDenied,
            DecisionCode::NoApprovalPolicy => DecisionCode::NoApprovalPolicy,
            DecisionCode::CeilingExceeded => DecisionCode::CeilingExceeded,
            DecisionCode::UnderdeclaredEffect => DecisionCode::UnderdeclaredEffect,
            DecisionCode::Other(x0) => DecisionCode::Other(x0.copied()),
        }
    }
}

impl Clone for DecisionCode {
    fn clone(&self) -> (r: Self)
        ensures
            r@ == self@,
    {
        self.copied()
    }
}

impl DecisionCodeView {
    /// The stable lowercase slug.
    pub open spec fn slug(self) -> Seq<char> {
        match self {
            DecisionCodeView::MissingAuthoritativeCoverage => "missing_authoritative_coverage"@,
            DecisionCodeView::UnknownPermission => "unknown_permission"@,
            DecisionCodeView::EnforcingCheckDenied => "enforcing_check_denied"@,
            DecisionCodeView::EnforcingCheckUnavailable => "enforcing_check_unavailable"@,
            DecisionCodeView::InvalidCheckOutput => "invalid_check_output"@,
            DecisionCodeView::ConstraintMeetEmpty => "constraint_meet_empty"@,
            DecisionCodeView::GrantSubjectOrSessionMismatch => "grant_subject_or_session_mismatch"@,
            DecisionCodeView::GrantResourceNotCovered => "grant_resource_not_covered"@,
            DecisionCodeView::GrantPermissionNotCovered => "grant_permission_not_covered"@,
            DecisionCodeView::GrantRevisionOrEpochStale => "grant_revision_or_epoch_stale"@,
            DecisionCodeView::GrantExpired => "grant_expired"@,
            DecisionCodeView::GrantUseCountExhausted => "grant_use_count_exhausted"@,
            DecisionCodeView::GrantRevoked => "grant_revoked"@,
            DecisionCodeView::GrantHandleInvalid => "grant_handle_invalid"@,
            DecisionCodeView::ApprovalWidened => "approval_widened"@,
            DecisionCodeView::ApprovalDenied => "approval_denied"@,
            DecisionCodeView::NoApprovalPolicy => "no_approval_policy"@,
            DecisionCodeView::CeilingExceeded => "ceiling_exceeded"@,
            DecisionCodeView::UnderdeclaredEffect => "underdeclared_effect"@,
            DecisionCodeView::Other(text) => text,
        }
    }
}

impl DecisionCode {
    /// A host- or check-defined value outside the fixed set.
    pub fn other(text: &str) -> (r: DecisionCode)
        ensures
            r@ == DecisionCodeView::Other(text@),
    {
        DecisionCode::Other(text.to_owned())
    }

    /// The stable lowercase slug.
    pub fn as_str(&self) -> (r: &str)
        ensures
            r@ == self@.slug(),
    {
        match self {
            DecisionCode::MissingAuthoritativeCoverage => "missing_authoritative_coverage",
            DecisionCode::UnknownPermission => "unknown_permission",
            DecisionCode::EnforcingCheckDenied => "enforcing_check_denied",
            DecisionCode::EnforcingCheckUnavailable => "enforcing_check_unavailable",
            DecisionCode::InvalidCheckOutput => "invalid_check_output",
            DecisionCode::ConstraintMeetEmpty => "constraint_meet_empty",
            DecisionCode::GrantSubjectOrSessionMismatch => "grant_subject_or_session_mismatch",
            DecisionCode::GrantResourceNotCovered => "grant_resource_not_covered",
            DecisionCode::GrantPermissionNotCovered => "grant_permission_not_covered",
            DecisionCode::GrantRevisionOrEpochStale => "grant_revision_or_epoch_stale",
            DecisionCode::GrantExpired => "grant_expired",
            DecisionCode::GrantUseCountExhausted => "grant_use_count_exhausted",
            DecisionCode::GrantRevoked => "grant_revoked",
            DecisionCode::GrantHandleInvalid => "grant_handle_invalid",
            DecisionCode::ApprovalWidened => "approval_widened",
            DecisionCode::ApprovalDenied => "approval_denied",
            DecisionCode::NoApprovalPolicy => "no_approval_policy",
            DecisionCode::CeilingExceeded => "ceiling_exceeded",
            DecisionCode::UnderdeclaredEffect => "underdeclared_effect",
            DecisionCode::Other(text) => text.as_str(),
        }
    }
}

/// Which composition role the host assigned a registered security check.
#[derive(Debug, Clone, Copy, PartialEq, Eq, Structural)]
pub enum SecurityCheckMode {
    /// Its `Allow`/`RequireApproval` result can satisfy per-permission
    /// coverage; its `Deny` is enforcing.
    Authoritative,
    /// Cannot satisfy coverage by itself, but its `Deny` is enforcing and its
    /// constraints compose into the eligible grant.
    RequiredConstraint,
    /// May only emit bounded signals; can never grant, widen, deny, or satisfy
    /// coverage.
    Advisory,
}

impl DeepView for SecurityCheckMode {
    type V = SecurityCheckMode;

    open spec fn deep_view(&self) -> SecurityCheckMode {
        *self
    }
}

impl Record for SecurityCheckMode {
    fn same(&self, other: &Self) -> (r: bool) {
        *self == *other
    }

    fn copied(&self) -> (r: Self) {
        *self
    }
}

impl SecurityCheckMode {
    /// The mode's stable lowercase slug.
    pub open spec fn slug(self) -> Seq<char> {
        match self {
            SecurityCheckMode::Authoritative => "authoritative"@,
            SecurityCheckMode::RequiredConstraint => "required_constraint"@,
            SecurityCheckMode::Advisory => "advisory"@,
        }
    }

    /// Whether the mode's denials and constraints are binding.
    pub open spec fn enforces(self) -> bool {
        self == SecurityCheckMode::Authoritative || self == SecurityCheckMode::RequiredConstraint
    }

    /// The mode as a stable lowercase slug.
    pub fn as_str(self) -> (r: &'static str)
        ensures
            r@ == self.slug(),
    {
        match self {
            SecurityCheckMode::Authoritative => "authoritative",
            SecurityCheckMode::RequiredConstraint => "required_constraint",
            SecurityCheckMode::Advisory => "advisory",
        }
    }

    /// Whether the mode's denials and constraints are binding.
    pub fn is_enforcing(self) -> (r: bool)
        ensures
            r == self.enforces(),
    {
        match self {
            SecurityCheckMode::Authoritative | SecurityCheckMode::RequiredConstraint => true,
            SecurityCheckMode::Advisory => false,
        }
    }
}

/// A stable identifier for a registered security check, unique within a check
/// set.
#[derive(Debug, PartialEq, Eq, PartialOrd, Ord, Hash)]
pub struct SecurityCheckId {
    text: String,
}

impl DeepView for SecurityCheckId {
    type V = Seq<char>;

    closed spec fn deep_view(&self) -> Seq<char> {
        self.text@
    }
}

impl View for SecurityCheckId {
    type V = Seq<char>;

    open spec fn view(&self) -> Seq<char> {
        self.deep_view()
    }
}

impl Record for SecurityCheckId {
    fn same(&self, other: &Self) -> (r: bool) {
        self.text.same(&other.text)
    }

    fn copied(&self) -> (r: Self) {
        SecurityCheckId { text: self.text.copied() }
    }
}

impl Clone for SecurityCheckId {
    fn clone(&self) -> (r: Self)
        ensures
            r@ == self@,
    {
        self.copied()
    }
}

impl SecurityCheckId {
    /// Wraps the text.
    pub fn new(text: &str) -> (r: SecurityCheckId)
        ensures
            r@ == text@,
    {
        SecurityCheckId { text: text.to_owned() }
    }

    /// The wrapped text.
    pub fn as_str(&self) -> (r: &str)
        ensures
            r@ == self@,
    {
        self.text.as_str()
    }
}

/// A check's own content or policy-data revision.
#[derive(Debug, PartialEq, Eq, PartialOrd, Ord, Hash)]
pub struct SecurityCheckRevision {
    text: String,
}

impl DeepView for SecurityCheckRevision {
    type V = Seq<char>;

    closed spec fn deep_view(&self) -> Seq<char> {
        self.text@
    }
}

impl View for SecurityCheckRevision {
    type V = Seq<char>;

    open spec fn view(&self) -> Seq<char> {
        self.deep_view()
    }
}

impl Record for SecurityCheckRevision {
    fn same(&self, other: &Self) -> (r: bool) {
        self.text.same(&other.text)
    }

    fn copied(&self) -> (r: Self) {
        SecurityCheckRevision { text: self.text.copied() }
    }
}

impl Clone for SecurityCheckRevision {
    fn clone(&self) -> (r: Self)
        ensures
            r@ == self@,
    {
        self.copied()
    }
}

impl SecurityCheckRevision {
    /// Wraps the text.
    pub fn new(text: &str) -> (r: SecurityCheckRevision)
        ensures
            r@ == text@,
    {
        SecurityCheckRevision { text: text.to_owned() }
    }

    /// The wrapped text.
    pub fn as_str(&self) -> (r: &str)
        ensures
            r@ == self@,
    {
        self.text.as_str()
    }
}

/// The fixed per-dimension vocabulary constraints compose over, plus a
/// host-defined extension.
#[derive(Debug, PartialEq, Eq)]
pub enum ConstraintDimension {
    /// A resource or mount scope (a filesystem or network resource boundary).
    ResourceScope,
    /// A network endpoint.
    Endpoint,
    /// A data-sensitivity/classification bound.
    DataClassification,
    /// A time window the grant is valid within.
    TimeWindow,
    /// A use-count bound.
    UseCount,
    /// A byte/size bound.
    ByteSize,
    /// A host-defined named dimension.
    Other(String),
}

/// What a [`ConstraintDimension`] holds.
pub enum ConstraintDimensionView {
    ResourceScope,
    Endpoint,
    DataClassification,
    TimeWindow,
    UseCount,
    ByteSize,
    Other(Seq<char>),
}

impl DeepView for ConstraintDimension {
    type V = ConstraintDimensionView;

    open spec fn deep_view(&self) -> ConstraintDimensionView {
        match self {
            ConstraintDimension::ResourceScope => ConstraintDimensionView::ResourceScope,
            ConstraintDimension::Endpoint => ConstraintDimensionView::Endpoint,
            ConstraintDimension::DataClassification => ConstraintDimensionView::DataClassification,
            ConstraintDimension::TimeWindow => ConstraintDimensionView::TimeWindow,
            ConstraintDimension::UseCount => ConstraintDimensionView::UseCount,
            ConstraintDimension::ByteSize => ConstraintDimensionView::ByteSize,
            ConstraintDimension::Other(x0) => ConstraintDimensionView::Other(x0.deep_view()),
        }
    }
}

impl View for ConstraintDimension {
    type V = ConstraintDimensionView;

    open spec fn view(&self) -> ConstraintDimensionView {
        self.deep_view()
    }
}

impl Record for ConstraintDimension {
    fn same(&self, other: &Self) -> (r: bool) {
        match (self, other) {
            (ConstraintDimension::ResourceScope, ConstraintDimension::ResourceScope) => true,
            (ConstraintDimension::Endpoint, ConstraintDimension::Endpoint) => true,
            (ConstraintDimension::DataClassification, ConstraintDimension::DataClassification) => {
                true
            },
            (ConstraintDimension::TimeWindow, ConstraintDimension::TimeWindow) => true,
            (ConstraintDimension::UseCount, ConstraintDimension::UseCount) => true,
            (ConstraintDimension::ByteSize, ConstraintDimension::ByteSize) => true,
            (ConstraintDimension::Other(x0), ConstraintDimension::Other(x0_b)) => x0.same(x0_b),
            _ => false,
        }
    }

    fn copied(&self) -> (r: Self) {
        match self {
            ConstraintDimension::ResourceScope => ConstraintDimension::ResourceScope,
            ConstraintDimension::Endpoint => ConstraintDimension::Endpoint,
            ConstraintDimension::DataClassification => ConstraintDimension::DataClassification,
            ConstraintDimension::TimeWindow => ConstraintDimension::TimeWindow,
            ConstraintDimension::UseCount => ConstraintDimension::UseCount,
            ConstraintDimension::ByteSize => ConstraintDimension::ByteSize,
            ConstraintDimension::Other(x0) => ConstraintDimension::Other(x0.copied()),
        }
    }
}

impl Clone for ConstraintDimension {
    fn clone(&self) -> (r: Self)
        ensures
            r@ == self@,
    {
        self.copied()
    }
}

impl ConstraintDimensionView {
    /// The stable lowercase slug.
    pub open spec fn slug(self) -> Seq<char> {
        match self {
            ConstraintDimensionView::ResourceScope => "resource_scope"@,
            ConstraintDimensionView::Endpoint => "endpoint"@,
            ConstraintDimensionView::DataClassification => "data_classification"@,
            ConstraintDimensionView::TimeWindow => "time_window"@,
            ConstraintDimensionView::UseCount => "use_count"@,
            ConstraintDimensionView::ByteSize => "byte_size"@,
            ConstraintDimensionView::Other(text) => text,
        }
    }
}

impl ConstraintDimension {
    /// A host- or check-defined value outside the fixed set.
    pub fn other(text: &str) -> (r: ConstraintDimension)
        ensures
            r@ == ConstraintDimensionView::Other(text@),
    {
        ConstraintDimension::Other(text.to_owned())
    }

    /// The stable lowercase slug.
    pub fn as_str(&self) -> (r: &str)
        ensures
            r@ == self@.slug(),
    {
        match self {
            ConstraintDimension::ResourceScope => "resource_scope",
            ConstraintDimension::Endpoint => "endpoint",
            ConstraintDimension::DataClassification => "data_classification",
            ConstraintDimension::TimeWindow => "time_window",
            ConstraintDimension::UseCount => "use_count",
            ConstraintDimension::ByteSize => "byte_size",
            ConstraintDimension::Other(text) => text.as_str(),
        }
    }
}

/// One check's value on a single [`ConstraintDimension`].
///
/// [`ConstraintValue::Top`] is the identity of the meet,
/// [`ConstraintValue::Bottom`] its absorbing element.
#[derive(Debug, PartialEq, Eq)]
pub enum ConstraintValue {
    /// Unconstrained.
    Top,
    /// A closed, inclusive numeric range.
    Range {
        /// The inclusive lower bound.
        min: u64,
        /// The inclusive upper bound.
        max: u64,
    },
    /// An explicit finite set of acceptable opaque tokens.
    OneOf(TextSet),
    /// The impossible constraint: no value can satisfy it.
    Bottom,
}

/// What a [`ConstraintValue`] holds.
pub enum ConstraintValueView {
    Top,
    Range { min: u64, max: u64 },
    OneOf(Set<Seq<char>>),
    Bottom,
}

impl DeepView for ConstraintValue {
    type V = ConstraintValueView;

    open spec fn deep_view(&self) -> ConstraintValueView {
        match self {
            ConstraintValue::Top => ConstraintValueView::Top,
            ConstraintValue::Range { min, max } => ConstraintValueView::Range {
                min: min.deep_view(),
                max: max.deep_view(),
            },
            ConstraintValue::OneOf(x0) => ConstraintValueView::OneOf(x0.deep_view()),
            ConstraintValue::Bottom => ConstraintValueView::Bottom,
        }
    }
}

impl View for ConstraintValue {
    type V = ConstraintValueView;

    open spec fn view(&self) -> ConstraintValueView {
        self.deep_view()
    }
}

impl Record for ConstraintValue {
    fn same(&self, other: &Self) -> (r: bool) {
        match (self, other) {
            (ConstraintValue::Top, ConstraintValue::Top) => true,
            (
                ConstraintValue::Range { min, max },
                ConstraintValue::Range { min: min_b, max: max_b },
            ) => min.same(min_b) && max.same(max_b),
            (ConstraintValue::OneOf(x0), ConstraintValue::OneOf(x0_b)) => x0.same(x0_b),
            (ConstraintValue::Bottom, ConstraintValue::Bottom) => true,
            _ => false,
        }
    }

    fn copied(&self) -> (r: Self) {
        match self {
            ConstraintValue::Top => ConstraintValue::Top,
            ConstraintValue::Range { min, max } => ConstraintValue::Range {
                min: min.copied(),
                max: max.copied(),
            },
            ConstraintValue::OneOf(x0) => ConstraintValue::OneOf(x0.copied()),
            ConstraintValue::Bottom => ConstraintValue::Bottom,
        }
    }
}

impl Clone for ConstraintValue {
    fn clone(&self) -> (r: Self)
        ensures
            r@ == self@,
    {
        self.copied()
    }
}

/// The meet of two values: what satisfies both. Ranges meet in their
/// intersection, sets in theirs; where nothing is left, and where a range
/// meets a set, the meet is impossible.
pub open spec fn meet_values(a: ConstraintValueView, b: ConstraintValueView) -> ConstraintValueView {
    match (a, b) {
        (ConstraintValueView::Top, _) => b,
        (_, ConstraintValueView::Top) => a,
        (
            ConstraintValueView::Range { min: a_min, max: a_max },
            ConstraintValueView::Range { min: b_min, max: b_max },
        ) => {
            let min = if a_min >= b_min {
                a_min
            } else {
                b_min
            };
            let max = if a_max <= b_max {
                a_max
            } else {
                b_max
            };
            if min <= max {
                ConstraintValueView::Range { min, max }
            } else {
                ConstraintValueView::Bottom
            }
        },
        (ConstraintValueView::OneOf(x), ConstraintValueView::OneOf(y)) => {
            if x.intersect(y) == Set::<Seq<char>>::empty() {
                ConstraintValueView::Bottom
            } else {
                ConstraintValueView::OneOf(x.intersect(y))
            }
        },
        _ => ConstraintValueView::Bottom,
    }
}

impl ConstraintValue {
    /// A range covering exactly one value.
    pub fn exactly(value: u64) -> (r: ConstraintValue)
        ensures
            r@ == (ConstraintValueView::Range { min: value, max: value }),
    {
        ConstraintValue::Range { min: value, max: value }
    }

    /// The meet (greatest lower bound): commutative and associative regardless
    /// of argument or evaluation order.
    pub fn meet(&self, other: &ConstraintValue) -> (r: ConstraintValue)
        ensures
            r@ == meet_values(self@, other@),
    {
        match (self, other) {
            (ConstraintValue::Top, _) => other.copied(),
            (_, ConstraintValue::Top) => self.copied(),
            (
                ConstraintValue::Range { min: a_min, max: a_max },
                ConstraintValue::Range { min: b_min, max: b_max },
            ) => {
                let min: u64 = if *a_min >= *b_min {
                    *a_min
                } else {
                    *b_min
                };
                let max: u64 = if *a_max <= *b_max {
                    *a_max
                } else {
                    *b_max
                };
                if min <= max {
                    ConstraintValue::Range { min, max }
                } else {
                    ConstraintValue::Bottom
                }
            },
            (ConstraintValue::OneOf(a), ConstraintValue::OneOf(b)) => {
                let both = a.intersection(b);
                if both.is_empty() {
                    ConstraintValue::Bottom
                } else {
                    ConstraintValue::OneOf(both)
                }
            },
            _ => ConstraintValue::Bottom,
        }
    }

    fn is_top(&self) -> (r: bool)
        ensures
            r == (self@ is Top),
    {
        match self {
            ConstraintValue::Top => true,
            _ => false,
        }
    }

    fn is_bottom(&self) -> (r: bool)
        ensures
            r == (self@ is Bottom),
    {
        match self {
            ConstraintValue::Bottom => true,
            _ => false,
        }
    }
}

/// The meet does not depend on the order of its arguments.
pub proof fn meet_is_commutative(a: ConstraintValueView, b: ConstraintValueView)
    ensures
        meet_values(a, b) == meet_values(b, a),
{
    if let (ConstraintValueView::OneOf(x), ConstraintValueView::OneOf(y)) = (a, b) {
        assert(x.intersect(y) =~= y.intersect(x));
    }
}

/// The meet of three values does not depend on how they are grouped.
pub proof fn meet_is_associative(
    a: ConstraintValueView,
    b: ConstraintValueView,
    c: ConstraintValueView,
)
    ensures
        meet_values(meet_values(a, b), c) == meet_values(a, meet_values(b, c)),
{
    match (a, b, c) {
        (
            ConstraintValueView::OneOf(x),
            ConstraintValueView::OneOf(y),
            ConstraintValueView::OneOf(z),
        ) => {
            let none = Set::<Seq<char>>::empty();
            assert(x.intersect(y).intersect(z) =~= x.intersect(y.intersect(z)));
            assert(none.intersect(z) =~= none);
            assert(x.intersect(none) =~= none);
        },
        _ => {},
    }
}

/// An unconstrained value changes nothing.
pub proof fn top_is_the_identity(a: ConstraintValueView)
    ensures
        meet_values(ConstraintValueView::Top, a) == a,
        meet_values(a, ConstraintValueView::Top) == a,
{
}

/// An impossible value stays impossible.
pub proof fn bottom_absorbs(a: ConstraintValueView)
    ensures
        meet_values(ConstraintValueView::Bottom, a) == ConstraintValueView::Bottom,
        meet_values(a, ConstraintValueView::Bottom) == ConstraintValueView::Bottom,
{
}

/// Whether a number is within a value that constrains numbers.
pub open spec fn admits_number(value: ConstraintValueView, n: u64) -> bool {
    match value {
        ConstraintValueView::Top => true,
        ConstraintValueView::Range { min, max } => min <= n <= max,
        _ => false,
    }
}

/// Whether a token is within a value that constrains tokens.
pub open spec fn admits_token(value: ConstraintValueView, token: Seq<char>) -> bool {
    match value {
        ConstraintValueView::Top => true,
        ConstraintValueView::OneOf(tokens) => tokens.contains(token),
        _ => false,
    }
}

/// The meet admits exactly what both values admit.
pub proof fn meet_admits_what_both_admit(
    a: ConstraintValueView,
    b: ConstraintValueView,
    n: u64,
    token: Seq<char>,
)
    ensures
        admits_number(meet_values(a, b), n) == (admits_number(a, n) && admits_number(b, n)),
        admits_token(meet_values(a, b), token) == (admits_token(a, token) && admits_token(
            b,
            token,
        )),
{
    if let (ConstraintValueView::OneOf(x), ConstraintValueView::OneOf(y)) = (a, b) {
        assert(x.intersect(y).contains(token) == (x.contains(token) && y.contains(token)));
    }
}

/// The composed per-dimension constraint set an eligible or granted authority
/// is bounded by. A dimension that no check constrained is
/// [`ConstraintValue::Top`].
#[derive(Debug, PartialEq, Eq)]
pub struct GrantConstraints {
    resource_scope: ConstraintValue,
    endpoint: ConstraintValue,
    data_classification: ConstraintValue,
    time_window: ConstraintValue,
    use_count: ConstraintValue,
    byte_size: ConstraintValue,
    other: TextMap<ConstraintValue>,
}

/// The value of every constrained dimension.
pub type GrantConstraintsView = Map<ConstraintDimensionView, ConstraintValueView>;

/// The value of a dimension, [`ConstraintValueView::Top`] if it is not
/// constrained.
pub open spec fn value_of(
    constraints: GrantConstraintsView,
    dimension: ConstraintDimensionView,
) -> ConstraintValueView {
    if constraints.dom().contains(dimension) {
        constraints[dimension]
    } else {
        ConstraintValueView::Top
    }
}

/// Constraints with the value for one dimension.
pub open spec fn constrained(
    constraints: GrantConstraintsView,
    dimension: ConstraintDimensionView,
    value: ConstraintValueView,
) -> GrantConstraintsView {
    if value is Top {
        constraints.remove(dimension)
    } else {
        constraints.insert(dimension, value)
    }
}

/// The meet of two constraint sets, dimension by dimension.
pub open spec fn meet_constraints(
    a: GrantConstraintsView,
    b: GrantConstraintsView,
) -> GrantConstraintsView {
    Map::new(
        |d: ConstraintDimensionView| !(meet_values(value_of(a, d), value_of(b, d)) is Top),
        |d: ConstraintDimensionView| meet_values(value_of(a, d), value_of(b, d)),
    )
}

/// Whether some dimension is impossible to satisfy.
pub open spec fn is_impossible(constraints: GrantConstraintsView) -> bool {
    exists|d: ConstraintDimensionView| #[trigger] value_of(constraints, d) is Bottom
}

/// Whether the entries hold no unconstrained value.
spec fn no_top(entries: Seq<(Seq<char>, ConstraintValueView)>) -> bool {
    forall|i: int| 0 <= i < entries.len() ==> !((#[trigger] entries[i]).1 is Top)
}

/// The value of a name, unconstrained if there is none.
spec fn named(
    names: Map<Seq<char>, ConstraintValueView>,
    name: Seq<char>,
) -> ConstraintValueView {
    if names.dom().contains(name) {
        names[name]
    } else {
        ConstraintValueView::Top
    }
}

proof fn lemma_no_top(entries: Seq<(Seq<char>, ConstraintValueView)>)
    requires
        ordered_keys(entries),
    ensures
        no_top(entries) <==> (forall|k: Seq<char>| #[trigger]
            dict(entries).dom().contains(k) ==> !(dict(entries)[k] is Top)),
{
    lemma_dict(entries);
    if no_top(entries) {
        assert forall|k: Seq<char>| #[trigger] dict(entries).dom().contains(k) implies !(dict(
            entries,
        )[k] is Top) by {
            let i = choose|i: int| 0 <= i < entries.len() && (#[trigger] entries[i]).0 == k;
            assert(dict(entries)[k] == entries[i].1);
        }
    }
    if forall|k: Seq<char>| #[trigger]
        dict(entries).dom().contains(k) ==> !(dict(entries)[k] is Top) {
        assert forall|i: int| 0 <= i < entries.len() implies !((#[trigger] entries[i]).1 is Top) by {
            assert(dict(entries).dom().contains(entries[i].0));
        }
    }
}

impl DeepView for GrantConstraints {
    type V = GrantConstraintsView;

    closed spec fn deep_view(&self) -> GrantConstraintsView {
        Map::new(
            |d: ConstraintDimensionView| !(self.value(d) is Top),
            |d: ConstraintDimensionView| self.value(d),
        )
    }
}

impl View for GrantConstraints {
    type V = GrantConstraintsView;

    open spec fn view(&self) -> GrantConstraintsView {
        self.deep_view()
    }
}

impl GrantConstraints {
    #[verifier::type_invariant]
    spec fn holds_no_top(self) -> bool {
        no_top(self.other@)
    }

    spec fn value(self, dimension: ConstraintDimensionView) -> ConstraintValueView {
        match dimension {
            ConstraintDimensionView::ResourceScope => self.resource_scope@,
            ConstraintDimensionView::Endpoint => self.endpoint@,
            ConstraintDimensionView::DataClassification => self.data_classification@,
            ConstraintDimensionView::TimeWindow => self.time_window@,
            ConstraintDimensionView::UseCount => self.use_count@,
            ConstraintDimensionView::ByteSize => self.byte_size@,
            ConstraintDimensionView::Other(name) => named(self.other.dict(), name),
        }
    }

    proof fn lemma_value(self, d: ConstraintDimensionView)
        ensures
            value_of(self@, d) == self.value(d),
    {
    }

    /// No dimension constrained.
    pub fn unconstrained() -> (r: GrantConstraints)
        ensures
            r@ == GrantConstraintsView::empty(),
    {
        let r = GrantConstraints {
            resource_scope: ConstraintValue::Top,
            endpoint: ConstraintValue::Top,
            data_classification: ConstraintValue::Top,
            time_window: ConstraintValue::Top,
            use_count: ConstraintValue::Top,
            byte_size: ConstraintValue::Top,
            other: TextMap::new(),
        };
        assert(r@ =~= GrantConstraintsView::empty());
        r
    }

    /// Constrains one dimension, replacing any existing value for it. An
    /// explicit `Top` and an absent entry are equivalent.
    pub fn with(self, dimension: ConstraintDimension, value: ConstraintValue) -> (r:
        GrantConstraints)
        ensures
            r@ == constrained(self@, dimension@, value@),
    {
        proof {
            use_type_invariant(&self);
        }
        let ghost before = self;
        let ghost given = value@;
        let r = match dimension {
            ConstraintDimension::ResourceScope => GrantConstraints {
                resource_scope: value,
                ..self
            },
            ConstraintDimension::Endpoint => GrantConstraints { endpoint: value, ..self },
            ConstraintDimension::DataClassification => GrantConstraints {
                data_classification: value,
                ..self
            },
            ConstraintDimension::TimeWindow => GrantConstraints { time_window: value, ..self },
            ConstraintDimension::UseCount => GrantConstraints { use_count: value, ..self },
            ConstraintDimension::ByteSize => GrantConstraints { byte_size: value, ..self },
            ConstraintDimension::Other(ref name) => {
                let mut other = self.other;
                let _count: usize = other.len();
                proof {
                    lemma_no_top(other@);
                }
                if value.is_top() {
                    other.remove(name.as_str());
                } else {
                    other.insert(name.as_str(), value);
                }
                proof {
                    lemma_no_top(other@);
                }
                GrantConstraints { other, ..self }
            },
        };
        proof {
            let want = if given is Top {
                before@.remove(dimension@)
            } else {
                before@.insert(dimension@, given)
            };
            assert forall|d: ConstraintDimensionView| r.value(d) == #[trigger] value_of(want, d) by {
                before.lemma_value(d);
            }
            assert forall|d: ConstraintDimensionView|
                r@.dom().contains(d) == want.dom().contains(d) by {
                assert(r.value(d) == value_of(want, d));
                before.lemma_value(d);
            }
            assert forall|d: ConstraintDimensionView| r@.dom().contains(d) implies r@[d]
                == want[d] by {
                assert(r.value(d) == value_of(want, d));
            }
            assert(r@ =~= want);
        }
        r
    }

    /// This dimension's value, or [`ConstraintValue::Top`] if unconstrained.
    pub fn get(&self, dimension: &ConstraintDimension) -> (r: ConstraintValue)
        ensures
            r@ == value_of(self@, dimension@),
    {
        proof {
            self.lemma_value(dimension@);
        }
        match dimension {
            ConstraintDimension::ResourceScope => self.resource_scope.copied(),
            ConstraintDimension::Endpoint => self.endpoint.copied(),
            ConstraintDimension::DataClassification => self.data_classification.copied(),
            ConstraintDimension::TimeWindow => self.time_window.copied(),
            ConstraintDimension::UseCount => self.use_count.copied(),
            ConstraintDimension::ByteSize => self.byte_size.copied(),
            ConstraintDimension::Other(name) => match self.other.get(name.as_str()) {
                Some(value) => value.copied(),
                None => ConstraintValue::Top,
            },
        }
    }

    /// The host-defined dimensions that are constrained, by name.
    pub fn named(&self) -> (r: &TextMap<ConstraintValue>)
        ensures
            forall|name: Seq<char>|
                #![trigger r.dict().dom().contains(name)]
                r.dict().dom().contains(name) == self@.dom().contains(
                    ConstraintDimensionView::Other(name),
                ),
            forall|name: Seq<char>| #[trigger]
                r.dict().dom().contains(name) ==> r.dict()[name]
                    == self@[ConstraintDimensionView::Other(name)],
    {
        let _count: usize = self.other.len();
        proof {
            use_type_invariant(self);
            lemma_no_top(self.other@);
        }
        &self.other
    }

    /// The meet of the host-defined dimensions.
    fn meet_named(
        a: &TextMap<ConstraintValue>,
        b: &TextMap<ConstraintValue>,
    ) -> (r: TextMap<ConstraintValue>)
        requires
            no_top(a@),
            no_top(b@),
        ensures
            no_top(r@),
            forall|k: Seq<char>| #[trigger]
                named(r.dict(), k) == meet_values(named(a.dict(), k), named(b.dict(), k)),
    {
        let mut out: TextMap<ConstraintValue> = TextMap::new();
        let count: usize = a.len();
        let other_count: usize = b.len();
        proof {
            lemma_dict(a@);
            lemma_dict(b@);
            lemma_no_top(a@);
            lemma_no_top(b@);
        }
        let mut i: usize = 0;
        while i < count
            invariant
                i <= count == a@.len(),
                ordered_keys(a@),
                ordered_keys(b@),
                forall|k: Seq<char>| #[trigger]
                    out.dict().dom().contains(k) <==> exists|j: int|
                        0 <= j < i && (#[trigger] a@[j]).0 == k,
                forall|k: Seq<char>| #[trigger]
                    out.dict().dom().contains(k) ==> out.dict()[k] == meet_values(
                        named(a.dict(), k),
                        named(b.dict(), k),
                    ),
                forall|j: int|
                    0 <= j < a@.len() ==> a.dict().dom().contains((#[trigger] a@[j]).0)
                        && a.dict()[a@[j].0] == a@[j].1,
            decreases count - i,
        {
            let ghost before = out.dict();
            let key = a.key_at(i);
            let value = match b.get(key) {
                Some(x) => a.value_at(i).meet(x),
                None => a.value_at(i).copied(),
            };
            out.insert(key, value);
            proof {
                assert(named(a.dict(), key@) == a@[i as int].1);
                top_is_the_identity(a@[i as int].1);
                assert forall|k: Seq<char>| #[trigger] out.dict().dom().contains(k) <==> exists|
                    j: int,
                | 0 <= j < i + 1 && (#[trigger] a@[j]).0 == k by {
                    if out.dict().dom().contains(k) {
                        if k == key@ {
                            assert(a@[i as int].0 == k);
                        } else {
                            assert(before.dom().contains(k));
                            let j = choose|j: int| 0 <= j < i && (#[trigger] a@[j]).0 == k;
                            assert(a@[j].0 == k);
                        }
                    }
                    if exists|j: int| 0 <= j < i + 1 && (#[trigger] a@[j]).0 == k {
                        let j = choose|j: int| 0 <= j < i + 1 && (#[trigger] a@[j]).0 == k;
                        if j < i {
                            assert(before.dom().contains(k));
                        }
                    }
                }
                assert forall|k: Seq<char>| #[trigger] out.dict().dom().contains(k) implies
                    out.dict()[k] == meet_values(named(a.dict(), k), named(b.dict(), k)) by {
                    if k != key@ {
                        assert(before.dom().contains(k));
                    }
                }
            }
            i = i + 1;
        }
        let ghost first = out.dict();
        assert forall|k: Seq<char>| #[trigger] first.dom().contains(k) == a.dict().dom().contains(
            k,
        ) by {
            if a.dict().dom().contains(k) {
                let j = choose|j: int| 0 <= j < a@.len() && (#[trigger] a@[j]).0 == k;
                assert(a@[j].0 == k);
            }
        }
        let mut n: usize = 0;
        while n < other_count
            invariant
                n <= other_count == b@.len(),
                forall|k: Seq<char>| #[trigger]
                    first.dom().contains(k) == a.dict().dom().contains(k),
                forall|k: Seq<char>| #[trigger]
                    first.dom().contains(k) ==> first[k] == meet_values(
                        named(a.dict(), k),
                        named(b.dict(), k),
                    ),
                forall|k: Seq<char>| #[trigger]
                    out.dict().dom().contains(k) <==> (a.dict().dom().contains(k) || exists|j: int|
                        0 <= j < n && (#[trigger] b@[j]).0 == k),
                forall|k: Seq<char>| #[trigger]
                    out.dict().dom().contains(k) ==> out.dict()[k] == meet_values(
                        named(a.dict(), k),
                        named(b.dict(), k),
                    ),
                forall|j: int|
                    0 <= j < b@.len() ==> b.dict().dom().contains((#[trigger] b@[j]).0)
                        && b.dict()[b@[j].0] == b@[j].1,
            decreases other_count - n,
        {
            let ghost before = out.dict();
            let key = b.key_at(n);
            if !a.contains_key(key) {
                out.insert(key, b.value_at(n).copied());
            }
            proof {
                assert(named(b.dict(), key@) == b@[n as int].1);
                assert forall|k: Seq<char>| #[trigger] out.dict().dom().contains(k) <==> (
                a.dict().dom().contains(k) || exists|j: int|
                    0 <= j < n + 1 && (#[trigger] b@[j]).0 == k) by {
                    if out.dict().dom().contains(k) && !a.dict().dom().contains(k) {
                        if k == key@ {
                            assert(b@[n as int].0 == k);
                        } else {
                            assert(before.dom().contains(k));
                            let j = choose|j: int| 0 <= j < n && (#[trigger] b@[j]).0 == k;
                            assert(b@[j].0 == k);
                        }
                    }
                    if exists|j: int| 0 <= j < n + 1 && (#[trigger] b@[j]).0 == k {
                        let j = choose|j: int| 0 <= j < n + 1 && (#[trigger] b@[j]).0 == k;
                        if j < n {
                            assert(before.dom().contains(k));
                        }
                    }
                    if a.dict().dom().contains(k) {
                        assert(before.dom().contains(k));
                    }
                }
                assert forall|k: Seq<char>| #[trigger] out.dict().dom().contains(k) implies
                    out.dict()[k] == meet_values(named(a.dict(), k), named(b.dict(), k)) by {
                    if k != key@ || a.dict().dom().contains(key@) {
                        assert(before.dom().contains(k));
                    }
                }
            }
            n = n + 1;
        }
        proof {
            assert forall|k: Seq<char>| #[trigger] named(out.dict(), k) == meet_values(
                named(a.dict(), k),
                named(b.dict(), k),
            ) by {
                if b.dict().dom().contains(k) {
                    let j = choose|j: int| 0 <= j < b@.len() && (#[trigger] b@[j]).0 == k;
                    assert(b@[j].0 == k);
                    assert(out.dict().dom().contains(k));
                }
                if a.dict().dom().contains(k) {
                    assert(out.dict().dom().contains(k));
                }
                if out.dict().dom().contains(k) {
                    assert(out.dict()[k] == meet_values(named(a.dict(), k), named(b.dict(), k)));
                }
            }
        }
        let _len: usize = out.len();
        proof {
            assert forall|k: Seq<char>| #[trigger] out.dict().dom().contains(k) implies !(
            out.dict()[k] is Top) by {
                assert(named(out.dict(), k) == meet_values(named(a.dict(), k), named(b.dict(), k)));
                if a.dict().dom().contains(k) {
                    assert(!(a.dict()[k] is Top));
                } else {
                    let j = choose|j: int| 0 <= j < b@.len() && (#[trigger] b@[j]).0 == k;
                    assert(b.dict().dom().contains(b@[j].0));
                    assert(!(b.dict()[k] is Top));
                }
            }
            lemma_no_top(out@);
        }
        out
    }

    /// The meet of `self` and `other`, dimension by dimension: commutative and
    /// associative regardless of argument order.
    pub fn meet(&self, other: &GrantConstraints) -> (r: GrantConstraints)
        ensures
            r@ == meet_constraints(self@, other@),
    {
        proof {
            use_type_invariant(self);
            use_type_invariant(other);
        }
        let named_values = GrantConstraints::meet_named(&self.other, &other.other);
        let r = GrantConstraints {
            resource_scope: self.resource_scope.meet(&other.resource_scope),
            endpoint: self.endpoint.meet(&other.endpoint),
            data_classification: self.data_classification.meet(&other.data_classification),
            time_window: self.time_window.meet(&other.time_window),
            use_count: self.use_count.meet(&other.use_count),
            byte_size: self.byte_size.meet(&other.byte_size),
            other: named_values,
        };
        proof {
            assert forall|d: ConstraintDimensionView| r.value(d) == #[trigger] meet_values(
                value_of(self@, d),
                value_of(other@, d),
            ) by {
                self.lemma_value(d);
                other.lemma_value(d);
            }
            assert forall|d: ConstraintDimensionView|
                r@.dom().contains(d) == meet_constraints(self@, other@).dom().contains(d) by {
                assert(r.value(d) == meet_values(value_of(self@, d), value_of(other@, d)));
            }
            assert forall|d: ConstraintDimensionView| r@.dom().contains(d) implies r@[d]
                == meet_constraints(self@, other@)[d] by {
                assert(r.value(d) == meet_values(value_of(self@, d), value_of(other@, d)));
            }
            assert(r@ =~= meet_constraints(self@, other@));
        }
        r
    }

    /// Whether any dimension resolved to [`ConstraintValue::Bottom`]: an empty
    /// meet, which denies the whole request.
    pub fn is_unsatisfiable(&self) -> (r: bool)
        ensures
            r == is_impossible(self@),
    {
        proof {
            assert forall|d: ConstraintDimensionView| #[trigger] value_of(self@, d) == self.value(
                d,
            ) by {
                self.lemma_value(d);
            }
        }
        if self.resource_scope.is_bottom() {
            assert(value_of(self@, ConstraintDimensionView::ResourceScope) is Bottom);
            return true;
        }
        if self.endpoint.is_bottom() {
            assert(value_of(self@, ConstraintDimensionView::Endpoint) is Bottom);
            return true;
        }
        if self.data_classification.is_bottom() {
            assert(value_of(self@, ConstraintDimensionView::DataClassification) is Bottom);
            return true;
        }
        if self.time_window.is_bottom() {
            assert(value_of(self@, ConstraintDimensionView::TimeWindow) is Bottom);
            return true;
        }
        if self.use_count.is_bottom() {
            assert(value_of(self@, ConstraintDimensionView::UseCount) is Bottom);
            return true;
        }
        if self.byte_size.is_bottom() {
            assert(value_of(self@, ConstraintDimensionView::ByteSize) is Bottom);
            return true;
        }
        let count: usize = self.other.len();
        proof {
            lemma_dict(self.other@);
        }
        let mut i: usize = 0;
        while i < count
            invariant
                i <= count == self.other@.len(),
                forall|d: ConstraintDimensionView| #[trigger]
                    value_of(self@, d) == self.value(d),
                forall|j: int|
                    0 <= j < self.other@.len() ==> self.other.dict().dom().contains(
                        (#[trigger] self.other@[j]).0,
                    ) && self.other.dict()[self.other@[j].0] == self.other@[j].1,
                forall|j: int| 0 <= j < i ==> !((#[trigger] self.other@[j]).1 is Bottom),
            decreases count - i,
        {
            if self.other.value_at(i).is_bottom() {
                proof {
                    let name = self.other@[i as int].0;
                    let d = ConstraintDimensionView::Other(name);
                    assert(self.other.dict().dom().contains(name));
                    assert(value_of(self@, d) is Bottom);
                }
                return true;
            }
            i = i + 1;
        }
        proof {
            assert forall|d: ConstraintDimensionView| !(#[trigger] value_of(self@, d) is Bottom) by {
                if let ConstraintDimensionView::Other(name) = d {
                    if self.other.dict().dom().contains(name) {
                        let j = choose|j: int|
                            0 <= j < self.other@.len() && (#[trigger] self.other@[j]).0 == name;
                        assert(self.other.dict()[name] == self.other@[j].1);
                    }
                }
            }
        }
        false
    }
}

impl Record for GrantConstraints {
    fn same(&self, other: &Self) -> (r: bool) {
        proof {
            use_type_invariant(self);
            use_type_invariant(other);
            assert forall|d: ConstraintDimensionView| #[trigger] value_of(self@, d) == self.value(
                d,
            ) by {
                self.lemma_value(d);
            }
            assert forall|d: ConstraintDimensionView| #[trigger] value_of(other@, d) == other.value(
                d,
            ) by {
                other.lemma_value(d);
            }
        }
        // What is wanted of the lengths is that they come with keys in order.
        let _own: usize = self.other.len();
        let _others: usize = other.other.len();
        proof {
            lemma_no_top(self.other@);
            lemma_no_top(other.other@);
            if self@ == other@ {
                assert(
                    value_of(self@, ConstraintDimensionView::ResourceScope) == value_of(
                        other@,
                        ConstraintDimensionView::ResourceScope,
                    )
                );
                assert(
                    value_of(self@, ConstraintDimensionView::Endpoint) == value_of(
                        other@,
                        ConstraintDimensionView::Endpoint,
                    )
                );
                assert(
                    value_of(self@, ConstraintDimensionView::DataClassification) == value_of(
                        other@,
                        ConstraintDimensionView::DataClassification,
                    )
                );
                assert(
                    value_of(self@, ConstraintDimensionView::TimeWindow) == value_of(
                        other@,
                        ConstraintDimensionView::TimeWindow,
                    )
                );
                assert(
                    value_of(self@, ConstraintDimensionView::UseCount) == value_of(
                        other@,
                        ConstraintDimensionView::UseCount,
                    )
                );
                assert(
                    value_of(self@, ConstraintDimensionView::ByteSize) == value_of(
                        other@,
                        ConstraintDimensionView::ByteSize,
                    )
                );
                assert forall|k: Seq<char>| #[trigger] self.other.dict().dom().contains(k)
                    == other.other.dict().dom().contains(k) by {
                    let d = ConstraintDimensionView::Other(k);
                    assert(value_of(self@, d) == value_of(other@, d));
                }
                assert forall|k: Seq<char>| self.other.dict().dom().contains(k) implies
                    #[trigger] self.other.dict()[k] == other.other.dict()[k] by {
                    let d = ConstraintDimensionView::Other(k);
                    assert(value_of(self@, d) == value_of(other@, d));
                    assert(other.other.dict().dom().contains(k));
                }
                assert(self.other.dict() =~= other.other.dict());
                lemma_dict_determines_entries(self.other@, other.other@);
            }
        }
        let r = self.resource_scope.same(&other.resource_scope)
            && self.endpoint.same(&other.endpoint)
            && self.data_classification.same(&other.data_classification)
            && self.time_window.same(&other.time_window)
            && self.use_count.same(&other.use_count)
            && self.byte_size.same(&other.byte_size)
            && self.other.same(&other.other);
        proof {
            if r {
                assert forall|d: ConstraintDimensionView| self.value(d) == other.value(d) by {}
                assert(self@ =~= other@);
            }
        }
        r
    }

    fn copied(&self) -> (r: Self) {
        proof {
            use_type_invariant(self);
        }
        let r = GrantConstraints {
            resource_scope: self.resource_scope.copied(),
            endpoint: self.endpoint.copied(),
            data_classification: self.data_classification.copied(),
            time_window: self.time_window.copied(),
            use_count: self.use_count.copied(),
            byte_size: self.byte_size.copied(),
            other: self.other.copied(),
        };
        proof {
            assert forall|d: ConstraintDimensionView| self.value(d) == r.value(d) by {}
            assert(self@ =~= r@);
        }
        r
    }
}

impl Clone for GrantConstraints {
    fn clone(&self) -> (r: Self)
        ensures
            r@ == self@,
    {
        self.copied()
    }
}

impl Default for GrantConstraints {
    fn default() -> (r: GrantConstraints)
        ensures
            r@ == GrantConstraintsView::empty(),
    {
        GrantConstraints::unconstrained()
    }
}

/// The value of a dimension in the meet of two constraint sets is the meet of
/// its values in the two.
pub proof fn lemma_meet_value(
    a: GrantConstraintsView,
    b: GrantConstraintsView,
    d: ConstraintDimensionView,
)
    ensures
        value_of(meet_constraints(a, b), d) == meet_values(value_of(a, d), value_of(b, d)),
{
}

/// Whether the set stores no dimension as explicitly unconstrained.
pub open spec fn is_canonical(constraints: GrantConstraintsView) -> bool {
    forall|d: ConstraintDimensionView| #[trigger]
        constraints.dom().contains(d) ==> !(constraints[d] is Top)
}

/// The meet of constraint sets does not depend on their order.
pub proof fn constraints_meet_is_commutative(a: GrantConstraintsView, b: GrantConstraintsView)
    ensures
        meet_constraints(a, b) == meet_constraints(b, a),
{
    assert forall|d: ConstraintDimensionView|
        meet_values(value_of(a, d), value_of(b, d)) == meet_values(value_of(b, d), value_of(a, d)) by {
        meet_is_commutative(value_of(a, d), value_of(b, d));
    }
    assert(meet_constraints(a, b) =~= meet_constraints(b, a));
}

/// The meet of three constraint sets does not depend on how they are grouped.
pub proof fn constraints_meet_is_associative(
    a: GrantConstraintsView,
    b: GrantConstraintsView,
    c: GrantConstraintsView,
)
    ensures
        meet_constraints(meet_constraints(a, b), c) == meet_constraints(a, meet_constraints(b, c)),
{
    let (left, right) = (
        meet_constraints(meet_constraints(a, b), c),
        meet_constraints(a, meet_constraints(b, c)),
    );
    assert forall|d: ConstraintDimensionView|
        meet_values(value_of(meet_constraints(a, b), d), value_of(c, d)) == meet_values(
            value_of(a, d),
            value_of(meet_constraints(b, c), d),
        ) by {
        lemma_meet_value(a, b, d);
        lemma_meet_value(b, c, d);
        meet_is_associative(value_of(a, d), value_of(b, d), value_of(c, d));
    }
    assert(left =~= right);
}

/// No constraints change nothing.
pub proof fn unconstrained_is_the_identity(a: GrantConstraintsView)
    requires
        is_canonical(a),
    ensures
        meet_constraints(GrantConstraintsView::empty(), a) == a,
        meet_constraints(a, GrantConstraintsView::empty()) == a,
{
    assert(meet_constraints(GrantConstraintsView::empty(), a) =~= a);
    assert(meet_constraints(a, GrantConstraintsView::empty()) =~= a);
}

/// Once a dimension is impossible, no further constraint makes the set
/// satisfiable again.
pub proof fn impossibility_is_permanent(a: GrantConstraintsView, b: GrantConstraintsView)
    requires
        is_impossible(a),
    ensures
        is_impossible(meet_constraints(a, b)),
        is_impossible(meet_constraints(b, a)),
{
    let d = choose|d: ConstraintDimensionView| #[trigger] value_of(a, d) is Bottom;
    bottom_absorbs(value_of(b, d));
    lemma_meet_value(a, b, d);
    lemma_meet_value(b, a, d);
}

/// A bounded advisory finding a [`SecurityCheckMode::Advisory`] check may emit.
/// Never grants, widens, denies, or satisfies coverage by itself.
#[derive(Debug, PartialEq, Eq)]
pub struct SecuritySignal {
    /// A stable signal identifier.
    pub code: String,
    /// A redaction-safe, bounded explanation.
    pub detail: String,
}

/// What a [`SecuritySignal`] holds.
pub struct SecuritySignalView {
    pub code: Seq<char>,
    pub detail: Seq<char>,
}

impl DeepView for SecuritySignal {
    type V = SecuritySignalView;

    open spec fn deep_view(&self) -> SecuritySignalView {
        SecuritySignalView {
            code: self.code.deep_view(),
            detail: self.detail.deep_view(),
        }
    }
}

impl View for SecuritySignal {
    type V = SecuritySignalView;

    open spec fn view(&self) -> SecuritySignalView {
        self.deep_view()
    }
}

impl Record for SecuritySignal {
    fn same(&self, other: &Self) -> (r: bool) {
        self.code.same(&other.code)
            && self.detail.same(&other.detail)
    }

    fn copied(&self) -> (r: Self) {
        SecuritySignal {
            code: self.code.copied(),
            detail: self.detail.copied(),
        }
    }
}

impl Clone for SecuritySignal {
    fn clone(&self) -> (r: Self)
        ensures
            r@ == self@,
    {
        self.copied()
    }
}

impl SecuritySignal {
    /// Builds a signal.
    pub fn new(code: &str, detail: &str) -> (r: SecuritySignal)
        ensures
            r@ == (SecuritySignalView { code: code@, detail: detail@ }),
    {
        SecuritySignal { code: code.to_owned(), detail: detail.to_owned() }
    }
}

/// One registered security check's result for one request.
#[derive(Debug, PartialEq, Eq)]
pub enum SecurityCheckOutcome {
    /// This check's host-assigned coverage does not apply to the request.
    NotApplicable,
    /// Allowed, subject to the given constraints.
    Allow {
        /// The constraints this check's `Allow` imposes.
        constraints: GrantConstraints,
    },
    /// Eligible, pending interactive approval, subject to the given
    /// constraints.
    RequireApproval {
        /// The constraints this check's `RequireApproval` imposes.
        constraints: GrantConstraints,
    },
    /// Denied.
    Deny {
        /// Why.
        code: DecisionCode,
    },
    /// Advisory findings only. Cannot grant, widen, deny, or satisfy coverage.
    Signal {
        /// The bounded findings.
        findings: Vec<SecuritySignal>,
    },
}

/// What a [`SecurityCheckOutcome`] holds.
pub enum SecurityCheckOutcomeView {
    NotApplicable,
    Allow { constraints: GrantConstraintsView },
    RequireApproval { constraints: GrantConstraintsView },
    Deny { code: DecisionCodeView },
    Signal { findings: Seq<SecuritySignalView> },
}

impl DeepView for SecurityCheckOutcome {
    type V = SecurityCheckOutcomeView;

    open spec fn deep_view(&self) -> SecurityCheckOutcomeView {
        match self {
            SecurityCheckOutcome::NotApplicable => SecurityCheckOutcomeView::NotApplicable,
            SecurityCheckOutcome::Allow { constraints } => SecurityCheckOutcomeView::Allow {
                constraints: constraints.deep_view(),
            },
            SecurityCheckOutcome::RequireApproval { constraints } => {
                SecurityCheckOutcomeView::RequireApproval { constraints: constraints.deep_view() }
            },
            SecurityCheckOutcome::Deny { code } => SecurityCheckOutcomeView::Deny {
                code: code.deep_view(),
            },
            SecurityCheckOutcome::Signal { findings } => SecurityCheckOutcomeView::Signal {
                findings: findings.deep_view(),
            },
        }
    }
}

impl View for SecurityCheckOutcome {
    type V = SecurityCheckOutcomeView;

    open spec fn view(&self) -> SecurityCheckOutcomeView {
        self.deep_view()
    }
}

impl Record for SecurityCheckOutcome {
    fn same(&self, other: &Self) -> (r: bool) {
        match (self, other) {
            (SecurityCheckOutcome::NotApplicable, SecurityCheckOutcome::NotApplicable) => true,
            (
                SecurityCheckOutcome::Allow { constraints },
                SecurityCheckOutcome::Allow { constraints: constraints_b },
            ) => constraints.same(constraints_b),
            (
                SecurityCheckOutcome::RequireApproval { constraints },
                SecurityCheckOutcome::RequireApproval { constraints: constraints_b },
            ) => constraints.same(constraints_b),
            (SecurityCheckOutcome::Deny { code }, SecurityCheckOutcome::Deny { code: code_b }) => {
                code.same(code_b)
            },
            (
                SecurityCheckOutcome::Signal { findings },
                SecurityCheckOutcome::Signal { findings: findings_b },
            ) => findings.same(findings_b),
            _ => false,
        }
    }

    fn copied(&self) -> (r: Self) {
        match self {
            SecurityCheckOutcome::NotApplicable => SecurityCheckOutcome::NotApplicable,
            SecurityCheckOutcome::Allow { constraints } => SecurityCheckOutcome::Allow {
                constraints: constraints.copied(),
            },
            SecurityCheckOutcome::RequireApproval { constraints } => {
                SecurityCheckOutcome::RequireApproval { constraints: constraints.copied() }
            },
            SecurityCheckOutcome::Deny { code } => SecurityCheckOutcome::Deny {
                code: code.copied(),
            },
            SecurityCheckOutcome::Signal { findings } => SecurityCheckOutcome::Signal {
                findings: findings.copied(),
            },
        }
    }
}

impl Clone for SecurityCheckOutcome {
    fn clone(&self) -> (r: Self)
        ensures
            r@ == self@,
    {
        self.copied()
    }
}

/// The policy epoch a [`CapabilityGrant`] is bound to: the composed check-set
/// revision plus every contributing check's own declared policy-data revision.
#[derive(Debug, PartialEq, Eq)]
pub struct PolicyEpoch {
    /// The composed check-set revision.
    pub check_set_revision: CheckSetRevision,
    /// Each contributing check's own declared policy-data revision, keyed by
    /// check id.
    pub policy_data_revisions: TextMap<SecurityCheckRevision>,
}

/// What a [`PolicyEpoch`] holds.
pub struct PolicyEpochView {
    pub check_set_revision: Seq<char>,
    pub policy_data_revisions: Seq<(Seq<char>, Seq<char>)>,
}

impl DeepView for PolicyEpoch {
    type V = PolicyEpochView;

    open spec fn deep_view(&self) -> PolicyEpochView {
        PolicyEpochView {
            check_set_revision: self.check_set_revision.deep_view(),
            policy_data_revisions: self.policy_data_revisions.deep_view(),
        }
    }
}

impl View for PolicyEpoch {
    type V = PolicyEpochView;

    open spec fn view(&self) -> PolicyEpochView {
        self.deep_view()
    }
}

impl Record for PolicyEpoch {
    fn same(&self, other: &Self) -> (r: bool) {
        self.check_set_revision.same(&other.check_set_revision)
            && self.policy_data_revisions.same(&other.policy_data_revisions)
    }

    fn copied(&self) -> (r: Self) {
        PolicyEpoch {
            check_set_revision: self.check_set_revision.copied(),
            policy_data_revisions: self.policy_data_revisions.copied(),
        }
    }
}

impl Clone for PolicyEpoch {
    fn clone(&self) -> (r: Self)
        ensures
            r@ == self@,
    {
        self.copied()
    }
}

/// The labels and values of a map, one after the other, in key order.
pub open spec fn pair_fields(entries: Seq<(Seq<char>, Seq<char>)>) -> Seq<Seq<char>>
    decreases entries.len(),
{
    if entries.len() == 0 {
        Seq::empty()
    } else {
        pair_fields(entries.drop_last()) + seq![entries.last().0, entries.last().1]
    }
}

/// The canonical fields of an epoch.
pub open spec fn epoch_fields(epoch: PolicyEpochView) -> Seq<Seq<char>> {
    seq![epoch.check_set_revision] + pair_fields(epoch.policy_data_revisions)
}

impl PolicyEpoch {
    /// An epoch at `check_set_revision` with no policy-data revisions declared.
    pub fn new(check_set_revision: CheckSetRevision) -> (r: PolicyEpoch)
        ensures
            r@ == (PolicyEpochView {
                check_set_revision: check_set_revision@,
                policy_data_revisions: Seq::empty(),
            }),
    {
        PolicyEpoch { check_set_revision, policy_data_revisions: TextMap::new() }
    }

    /// Declares a contributing check's policy-data revision.
    pub fn with_policy_data_revision(
        self,
        check: SecurityCheckId,
        revision: SecurityCheckRevision,
    ) -> (r: PolicyEpoch)
        ensures
            r@.check_set_revision == self@.check_set_revision,
            dict(r@.policy_data_revisions) == dict(self@.policy_data_revisions).insert(
                check@,
                revision@,
            ),
            ordered_keys(r@.policy_data_revisions),
    {
        let mut policy_data_revisions = self.policy_data_revisions;
        policy_data_revisions.insert(check.as_str(), revision);
        PolicyEpoch { check_set_revision: self.check_set_revision, policy_data_revisions }
    }

    /// Absorbs this epoch into a fingerprint.
    pub fn fingerprint_into(&self, hasher: &mut FingerprintHasher)
        ensures
            final(hasher)@ == absorb_all(old(hasher)@, epoch_fields(self@)),
    {
        broadcast use group_absorb;

        hasher.field(self.check_set_revision.as_str());
        let ghost start = hasher@;
        let ghost entries = self.policy_data_revisions@;
        let count: usize = self.policy_data_revisions.len();
        let mut i: usize = 0;
        assert(entries.subrange(0, 0) =~= Seq::<(Seq<char>, Seq<char>)>::empty());
        while i < count
            invariant
                i <= count == entries.len(),
                entries == self.policy_data_revisions@,
                hasher@ == absorb_all(start, pair_fields(entries.subrange(0, i as int))),
            decreases count - i,
        {
            broadcast use group_absorb;

            proof {
                let items = entries.subrange(0, i + 1);
                assert(items.drop_last() =~= entries.subrange(0, i as int));
                assert(items.last() == entries[i as int]);
            }
            hasher.pair(
                self.policy_data_revisions.key_at(i),
                self.policy_data_revisions.value_at(i).as_str(),
            );
            i = i + 1;
        }
        assert(entries.subrange(0, entries.len() as int) =~= entries);
    }
}

/// One granted, bounded unit of authority.
///
/// A grant cannot be built from a struct literal: every field is private. It
/// cannot be copied, so that its use count cannot be doubled. It never holds a
/// secret value: every field is an identifier, revision, resource scope, or
/// bound.
#[derive(Debug)]
pub struct CapabilityGrant {
    subject: SecuritySubject,
    session: SessionId,
    action: SecurityAction,
    resource: SecurityResource,
    permissions: PermissionSet,
    check_set_revision: CheckSetRevision,
    policy_epoch: PolicyEpoch,
    expiry: Deadline,
    max_uses: u32,
    remaining_uses: u32,
}

/// What a [`CapabilityGrant`] holds.
pub struct CapabilityGrantView {
    pub subject: Seq<char>,
    pub session: Seq<char>,
    pub action: Seq<char>,
    pub resource: SecurityResourceView,
    pub permissions: Set<PermissionView>,
    pub check_set_revision: Seq<char>,
    pub policy_epoch: PolicyEpochView,
    pub expiry: Option<Timestamp>,
    pub max_uses: u32,
    pub remaining_uses: u32,
}

impl View for CapabilityGrant {
    type V = CapabilityGrantView;

    closed spec fn view(&self) -> CapabilityGrantView {
        CapabilityGrantView {
            subject: self.subject@,
            session: self.session@,
            action: self.action@,
            resource: self.resource@,
            permissions: self.permissions@,
            check_set_revision: self.check_set_revision@,
            policy_epoch: self.policy_epoch@,
            expiry: self.expiry@,
            max_uses: self.max_uses,
            remaining_uses: self.remaining_uses,
        }
    }
}

/// The grant for `permissions` on `resource` that is bound to a context.
pub open spec fn issued(
    context: SecurityContextView,
    action: Seq<char>,
    resource: SecurityResourceView,
    permissions: Set<PermissionView>,
    policy_epoch: PolicyEpochView,
    expiry: Option<Timestamp>,
    max_uses: u32,
) -> CapabilityGrantView {
    CapabilityGrantView {
        subject: context.subject,
        session: context.session,
        action,
        resource,
        permissions,
        check_set_revision: context.check_set_revision,
        policy_epoch,
        expiry,
        max_uses,
        remaining_uses: max_uses,
    }
}

impl CapabilityGrantView {
    /// Whether the grant covers `request` at `now`.
    pub open spec fn covers_at(self, request: AuthorizationRequestView, now: Timestamp) -> bool {
        &&& self.subject == request.context.subject
        &&& self.session == request.context.session
        &&& self.action == request.action
        &&& scope_contains(self.resource, request.resource)
        &&& request.requested.subset_of(self.permissions)
        &&& self.check_set_revision == request.context.check_set_revision
        &&& !expired(self.expiry, now)
        &&& self.remaining_uses > 0
    }

    /// The grant after one use was taken from it, if it had one left.
    pub open spec fn consumed(self) -> (CapabilityGrantView, bool) {
        if self.remaining_uses > 0 {
            (CapabilityGrantView { remaining_uses: (self.remaining_uses - 1) as u32, ..self }, true)
        } else {
            (self, false)
        }
    }

    /// The fields that the grant's audit fingerprint covers: its identity and
    /// bounds, never the remaining use count.
    pub open spec fn audit_fields(self) -> Seq<Seq<char>> {
        seq![self.subject] + seq![self.session] + seq![self.action] + resource_fields(self.resource)
            + slugs(permission_sequence(self.permissions)) + seq![self.check_set_revision]
            + epoch_fields(self.policy_epoch) + seq![
            match self.expiry {
                Some(at) => decimal(at.0 as nat),
                None => ""@,
            },
        ] + seq![decimal(self.max_uses as nat)]
    }
}

impl CapabilityGrant {
    #[verifier::type_invariant]
    spec fn is_bounded(self) -> bool {
        self.remaining_uses <= self.max_uses
    }

    /// Issues a new grant bound to `context`'s subject, session, and check-set
    /// revision.
    pub fn issue(
        context: &SecurityContext,
        action: SecurityAction,
        resource: SecurityResource,
        permissions: PermissionSet,
        policy_epoch: PolicyEpoch,
        expiry: Deadline,
        max_uses: u32,
    ) -> (r: CapabilityGrant)
        ensures
            r@ == issued(
                context@,
                action@,
                resource@,
                permissions@,
                policy_epoch@,
                expiry@,
                max_uses,
            ),
    {
        CapabilityGrant {
            subject: context.subject.copied(),
            session: context.session.copied(),
            action,
            resource,
            permissions,
            check_set_revision: context.check_set_revision.copied(),
            policy_epoch,
            expiry,
            max_uses,
            remaining_uses: max_uses,
        }
    }

    /// The subject this grant is bound to.
    pub fn subject(&self) -> (r: &SecuritySubject)
        ensures
            r@ == self@.subject,
    {
        &self.subject
    }

    /// The session this grant is bound to.
    pub fn session(&self) -> (r: &SessionId)
        ensures
            r@ == self@.session,
    {
        &self.session
    }

    /// The action this grant is bound to.
    pub fn action(&self) -> (r: &SecurityAction)
        ensures
            r@ == self@.action,
    {
        &self.action
    }

    /// The concrete resource scope this grant covers.
    pub fn resource(&self) -> (r: &SecurityResource)
        ensures
            r@ == self@.resource,
    {
        &self.resource
    }

    /// The permissions this grant covers.
    pub fn permissions(&self) -> (r: &PermissionSet)
        ensures
            r@ == self@.permissions,
    {
        &self.permissions
    }

    /// The composed check-set revision this grant was issued under.
    pub fn check_set_revision(&self) -> (r: &CheckSetRevision)
        ensures
            r@ == self@.check_set_revision,
    {
        &self.check_set_revision
    }

    /// The policy epoch this grant is bound to.
    pub fn policy_epoch(&self) -> (r: &PolicyEpoch)
        ensures
            r@ == self@.policy_epoch,
    {
        &self.policy_epoch
    }

    /// The grant's expiry.
    pub fn expiry(&self) -> (r: Deadline)
        ensures
            r@ == self@.expiry,
    {
        self.expiry
    }

    /// The total use count this grant was issued with.
    pub fn max_uses(&self) -> (r: u32)
        ensures
            r == self@.max_uses,
    {
        self.max_uses
    }

    /// The remaining use count.
    pub fn remaining_uses(&self) -> (r: u32)
        ensures
            r == self@.remaining_uses,
            r <= self@.max_uses,
    {
        proof {
            use_type_invariant(self);
        }
        self.remaining_uses
    }

    /// Consumes one use if any remain. Returns whether a use was consumed.
    pub fn consume(&mut self) -> (r: bool)
        ensures
            (final(self)@, r) == old(self)@.consumed(),
    {
        proof {
            use_type_invariant(&*self);
        }
        if self.remaining_uses > 0 {
            self.remaining_uses = self.remaining_uses - 1;
            true
        } else {
            false
        }
    }

    /// Whether this grant covers `request` as of `now`: the subject, session,
    /// and action are identical; the requested resource is this grant's scope
    /// or lies within it; every requested permission is included; the
    /// check-set revision matches; and the grant is unexpired with uses left.
    pub fn covers(&self, request: &AuthorizationRequest, now: Timestamp) -> (r: bool)
        ensures
            r == self@.covers_at(request@, now),
    {
        self.subject.same(&request.context.subject) && self.session.same(&request.context.session)
            && self.action.same(&request.action) && self.resource.contains(&request.resource)
            && request.requested.is_subset(&self.permissions) && self.check_set_revision.same(
            &request.context.check_set_revision,
        ) && !self.expiry.is_expired_at(now) && self.remaining_uses > 0
    }

    /// Whether this grant's bound policy epoch still matches `current`.
    pub fn epoch_is_current(&self, current: &PolicyEpoch) -> (r: bool)
        ensures
            r == (self@.policy_epoch == current@),
    {
        self.policy_epoch.same(current)
    }

    /// This grant's stable audit fingerprint. Covers identity and bounds, never
    /// the live remaining-use count.
    pub fn fingerprint(&self) -> (r: Fingerprint)
        ensures
            r@ == fingerprint_of(self@.audit_fields()),
    {
        broadcast use group_absorb;

        let mut hasher = FingerprintHasher::new();
        hasher.field(self.subject.as_str());
        hasher.field(self.session.as_str());
        hasher.field(self.action.as_str());
        self.resource.fingerprint_into(&mut hasher);
        self.permissions.fingerprint_into(&mut hasher);
        hasher.field(self.check_set_revision.as_str());
        self.policy_epoch.fingerprint_into(&mut hasher);
        match self.expiry.instant() {
            Some(at) => {
                hasher.field(decimal_text(at.as_millis()).as_str());
            },
            None => {
                hasher.field("");
            },
        }
        hasher.field(decimal_text(self.max_uses as u64).as_str());
        hasher.finish()
    }
}

/// A grant without uses left covers nothing.
pub proof fn an_exhausted_grant_covers_nothing(
    grant: CapabilityGrantView,
    request: AuthorizationRequestView,
    now: Timestamp,
)
    requires
        grant.remaining_uses == 0,
    ensures
        !grant.covers_at(request, now),
{
}

/// An expired grant covers nothing, then or later.
pub proof fn an_expired_grant_covers_nothing(
    grant: CapabilityGrantView,
    request: AuthorizationRequestView,
    now: Timestamp,
    then: Timestamp,
)
    requires
        expired(grant.expiry, now),
        now.0 <= then.0,
    ensures
        !grant.covers_at(request, then),
{
}

/// A grant that covers a request covers every narrower one: fewer permissions,
/// or a resource within the requested one.
pub proof fn a_grant_covers_narrower_requests(
    grant: CapabilityGrantView,
    request: AuthorizationRequestView,
    narrower: AuthorizationRequestView,
    now: Timestamp,
)
    requires
        grant.covers_at(request, now),
        narrower.context == request.context,
        narrower.action == request.action,
        scope_contains(request.resource, narrower.resource),
        narrower.requested.subset_of(request.requested),
    ensures
        grant.covers_at(narrower, now),
{
    crate::security::scope_containment_is_transitive(
        grant.resource,
        request.resource,
        narrower.resource,
    );
}

/// The use count is not part of a grant's audit fingerprint.
pub proof fn use_count_is_not_audited(grant: CapabilityGrantView, remaining: u32)
    ensures
        (CapabilityGrantView { remaining_uses: remaining, ..grant }).audit_fields()
            == grant.audit_fields(),
{
}

/// The composed outcome of evaluating an [`AuthorizationRequest`].
#[derive(Debug)]
pub enum AuthorizationDecision {
    /// Denied.
    Deny {
        /// Why.
        code: DecisionCode,
    },
    /// Allowed, with the issued grant.
    Allow {
        /// The issued grant.
        grant: CapabilityGrant,
    },
    /// Eligible, pending interactive approval.
    RequireApproval {
        /// The eligible grant approval may accept or reject, but not widen.
        eligible: CapabilityGrant,
    },
}

/// What an [`AuthorizationDecision`] holds.
pub enum AuthorizationDecisionView {
    Deny { code: DecisionCodeView },
    Allow { grant: CapabilityGrantView },
    RequireApproval { eligible: CapabilityGrantView },
}

impl View for AuthorizationDecision {
    type V = AuthorizationDecisionView;

    open spec fn view(&self) -> AuthorizationDecisionView {
        match self {
            AuthorizationDecision::Deny { code } => AuthorizationDecisionView::Deny { code: code@ },
            AuthorizationDecision::Allow { grant } => AuthorizationDecisionView::Allow {
                grant: grant@,
            },
            AuthorizationDecision::RequireApproval { eligible } => {
                AuthorizationDecisionView::RequireApproval { eligible: eligible@ }
            },
        }
    }
}

/// Constraining one dimension sets its value and leaves every other as it was.
pub proof fn constraining_touches_one_dimension(
    constraints: GrantConstraintsView,
    dimension: ConstraintDimensionView,
    value: ConstraintValueView,
    other: ConstraintDimensionView,
)
    ensures
        value_of(constrained(constraints, dimension, value), dimension) == value,
        other != dimension ==> value_of(constrained(constraints, dimension, value), other)
            == value_of(constraints, other),
        is_canonical(constraints) ==> is_canonical(constrained(constraints, dimension, value)),
{
}

/// What is composed of two constraints admits, in every dimension, exactly what both admit;
/// it cannot be satisfied exactly when some dimension of it cannot.
pub proof fn composed_constraints_admit_what_both_admit(
    a: GrantConstraintsView,
    b: GrantConstraintsView,
    d: ConstraintDimensionView,
    n: u64,
    token: Seq<char>,
)
    ensures
        ({
            let met = value_of(meet_constraints(a, b), d);
            &&& admits_number(met, n) <==> admits_number(value_of(a, d), n) && admits_number(
                value_of(b, d),
                n,
            )
            &&& admits_token(met, token) <==> admits_token(value_of(a, d), token) && admits_token(
                value_of(b, d),
                token,
            )
            &&& met is Top <==> value_of(a, d) is Top && value_of(b, d) is Top
            &&& met is Bottom ==> is_impossible(meet_constraints(a, b))
        }),
{
    meet_admits_what_both_admit(value_of(a, d), value_of(b, d), n, token);
    let x = value_of(a, d);
    let y = value_of(b, d);
    assert(meet_values(x, y) is Top <==> x is Top && y is Top);
}

/// A number or a token is admitted where nothing is asked of it, and else only within the
/// range or as one of those that are listed.
pub proof fn a_value_admits_what_it_lists(value: ConstraintValueView, n: u64, token: Seq<char>)
    ensures
        value is Top ==> admits_number(value, n) && admits_token(value, token),
        value is Bottom ==> !admits_number(value, n) && !admits_token(value, token),
        value matches ConstraintValueView::Range { min, max } ==> {
            &&& admits_number(value, n) <==> min <= n && n <= max
            &&& !admits_token(value, token)
        },
        value matches ConstraintValueView::OneOf(tokens) ==> {
            &&& !admits_number(value, n)
            &&& admits_token(value, token) <==> tokens.contains(token)
        },
{
}

/// A grant is issued to the subject, the session, and the check-set revision of the
/// context, for what was asked for, and with all of its uses left.
pub proof fn a_grant_is_issued_to_its_context(
    context: SecurityContextView,
    action: Seq<char>,
    resource: SecurityResourceView,
    permissions: Set<PermissionView>,
    policy_epoch: PolicyEpochView,
    expiry: Option<Timestamp>,
    max_uses: u32,
)
    ensures
        ({
            let grant = issued(
                context,
                action,
                resource,
                permissions,
                policy_epoch,
                expiry,
                max_uses,
            );
            &&& grant.subject == context.subject
            &&& grant.session == context.session
            &&& grant.check_set_revision == context.check_set_revision
            &&& grant.action == action
            &&& grant.resource == resource
            &&& grant.permissions == permissions
            &&& grant.policy_epoch == policy_epoch
            &&& grant.expiry == expiry
            &&& grant.max_uses == max_uses
            &&& grant.remaining_uses == max_uses
        }),
{
}

/// Authoritative checks and required constraints enforce; advice does not.
pub proof fn advice_does_not_enforce(mode: SecurityCheckMode)
    ensures
        mode.enforces() <==> mode != SecurityCheckMode::Advisory,
{
}

proof fn lemma_same_tail<T>(a: Seq<T>, b: Seq<T>, rest: Seq<T>)
    requires
        a + rest == b + rest,
    ensures
        a == b,
{
    assert((a + rest).len() == a.len() + rest.len());
    assert((b + rest).len() == b.len() + rest.len());
    assert(a =~= (a + rest).subrange(0, a.len() as int));
    assert(b =~= (b + rest).subrange(0, b.len() as int));
}

/// The fields behind the resource in a grant's audit fields.
spec fn fields_behind(grant: CapabilityGrantView) -> Seq<Seq<char>> {
    slugs(permission_sequence(grant.permissions)) + seq![grant.check_set_revision] + epoch_fields(
        grant.policy_epoch,
    ) + seq![expiry_field(grant.expiry)] + seq![decimal(grant.max_uses as nat)]
}

spec fn expiry_field(expiry: Option<Timestamp>) -> Seq<char> {
    match expiry {
        Some(at) => decimal(at.0 as nat),
        None => ""@,
    }
}

proof fn lemma_audit_in_parts(grant: CapabilityGrantView)
    ensures
        grant.audit_fields() == seq![grant.subject, grant.session, grant.action] + resource_fields(
            grant.resource,
        ) + fields_behind(grant),
{
    assert(grant.audit_fields() =~= seq![grant.subject, grant.session, grant.action]
        + resource_fields(grant.resource) + fields_behind(grant));
}

/// The audit fields of a grant tell whom it is bound to, and to which action. Of grants
/// that agree in all else, they also tell the resource, the revision, the expiry, and the
/// number of uses.
pub proof fn an_audit_tells_what_a_grant_is_bound_to(a: CapabilityGrantView, b: CapabilityGrantView)
    requires
        a.audit_fields() == b.audit_fields(),
    ensures
        a.subject == b.subject,
        a.session == b.session,
        a.action == b.action,
        fields_agree_behind(a, b) ==> a.resource == b.resource,
        a.resource == b.resource && a.permissions == b.permissions ==> a.check_set_revision
            == b.check_set_revision,
        a.resource == b.resource && a.permissions == b.permissions && a.policy_epoch
            == b.policy_epoch ==> a.expiry == b.expiry && a.max_uses == b.max_uses,
{
    lemma_audit_in_parts(a);
    lemma_audit_in_parts(b);
    let head_a = seq![a.subject, a.session, a.action];
    let head_b = seq![b.subject, b.session, b.action];
    let (x, y) = (a.audit_fields(), b.audit_fields());
    assert(x[0] == a.subject && x[1] == a.session && x[2] == a.action);
    assert(y[0] == b.subject && y[1] == b.session && y[2] == b.action);
    assert(head_a =~= head_b);
    if fields_agree_behind(a, b) {
        let rest = fields_behind(a);
        lemma_same_tail(
            head_a + resource_fields(a.resource),
            head_b + resource_fields(b.resource),
            rest,
        );
        lemma_same_head(head_a, resource_fields(a.resource), resource_fields(b.resource));
        let none = Seq::<Seq<char>>::empty();
        assert(resource_fields(a.resource) + none =~= resource_fields(a.resource));
        assert(resource_fields(b.resource) + none =~= resource_fields(b.resource));
        <SecurityResource as Encoded>::lemma_decodable(a.resource, b.resource, none, none);
    }
    if a.resource == b.resource && a.permissions == b.permissions {
        let names = slugs(permission_sequence(a.permissions));
        let front = head_a + resource_fields(a.resource) + names;
        assert(x[front.len() as int] == a.check_set_revision);
        assert(y[front.len() as int] == b.check_set_revision);
        if a.policy_epoch == b.policy_epoch {
            let n = x.len() as int;
            assert(x[n - 1] == decimal(a.max_uses as nat));
            assert(y[n - 1] == decimal(b.max_uses as nat));
            assert(x[n - 2] == expiry_field(a.expiry));
            assert(y[n - 2] == expiry_field(b.expiry));
            lemma_decimal_determines(a.max_uses as nat, b.max_uses as nat);
            reveal_strlit("");
            if let Some(at) = a.expiry {
                lemma_decimal_is_not_empty(at.0 as nat);
            }
            if let Some(at) = b.expiry {
                lemma_decimal_is_not_empty(at.0 as nat);
            }
            if let (Some(at), Some(other)) = (a.expiry, b.expiry) {
                lemma_decimal_determines(at.0 as nat, other.0 as nat);
            }
        }
    }
}

proof fn lemma_decimal_is_not_empty(n: nat)
    ensures
        decimal(n).len() > 0,
{
}

proof fn lemma_same_head<T>(head: Seq<T>, a: Seq<T>, b: Seq<T>)
    requires
        head + a == head + b,
    ensures
        a == b,
{
    assert((head + a).len() == head.len() + a.len());
    assert((head + b).len() == head.len() + b.len());
    assert(a =~= (head + a).subrange(head.len() as int, (head + a).len() as int));
    assert(b =~= (head + b).subrange(head.len() as int, (head + b).len() as int));
}

/// Whether grants agree in all that is audited but whom they are bound to and the resource.
pub open spec fn fields_agree_behind(a: CapabilityGrantView, b: CapabilityGrantView) -> bool {
    &&& a.permissions == b.permissions
    &&& a.check_set_revision == b.check_set_revision
    &&& a.policy_epoch == b.policy_epoch
    &&& a.expiry == b.expiry
    &&& a.max_uses == b.max_uses
}

/// A decision code has a stable name of its own; any other goes by the name it was given.
pub proof fn decision_codes_have_stable_names(x: DecisionCodeView)
    ensures
        x == DecisionCodeView::MissingAuthoritativeCoverage ==> x.slug()
            == "missing_authoritative_coverage"@,
        x == DecisionCodeView::UnknownPermission ==> x.slug() == "unknown_permission"@,
        x == DecisionCodeView::EnforcingCheckDenied ==> x.slug() == "enforcing_check_denied"@,
        x == DecisionCodeView::EnforcingCheckUnavailable ==> x.slug()
            == "enforcing_check_unavailable"@,
        x == DecisionCodeView::InvalidCheckOutput ==> x.slug() == "invalid_check_output"@,
        x == DecisionCodeView::ConstraintMeetEmpty ==> x.slug() == "constraint_meet_empty"@,
        x == DecisionCodeView::GrantSubjectOrSessionMismatch ==> x.slug()
            == "grant_subject_or_session_mismatch"@,
        x == DecisionCodeView::GrantResourceNotCovered ==> x.slug()
            == "grant_resource_not_covered"@,
        x == DecisionCodeView::GrantPermissionNotCovered ==> x.slug()
            == "grant_permission_not_covered"@,
        x == DecisionCodeView::GrantRevisionOrEpochStale ==> x.slug()
            == "grant_revision_or_epoch_stale"@,
        x == DecisionCodeView::GrantExpired ==> x.slug() == "grant_expired"@,
        x == DecisionCodeView::GrantUseCountExhausted ==> x.slug() == "grant_use_count_exhausted"@,
        x == DecisionCodeView::GrantRevoked ==> x.slug() == "grant_revoked"@,
        x == DecisionCodeView::GrantHandleInvalid ==> x.slug() == "grant_handle_invalid"@,
        x == DecisionCodeView::ApprovalWidened ==> x.slug() == "approval_widened"@,
        x == DecisionCodeView::ApprovalDenied ==> x.slug() == "approval_denied"@,
        x == DecisionCodeView::NoApprovalPolicy ==> x.slug() == "no_approval_policy"@,
        x == DecisionCodeView::CeilingExceeded ==> x.slug() == "ceiling_exceeded"@,
        x == DecisionCodeView::UnderdeclaredEffect ==> x.slug() == "underdeclared_effect"@,
        x matches DecisionCodeView::Other(text) ==> x.slug() == text,
{
}

/// A check mode has a stable name of its own.
pub proof fn check_modes_have_stable_names(x: SecurityCheckMode)
    ensures
        x == SecurityCheckMode::Authoritative ==> x.slug() == "authoritative"@,
        x == SecurityCheckMode::RequiredConstraint ==> x.slug() == "required_constraint"@,
        x == SecurityCheckMode::Advisory ==> x.slug() == "advisory"@,
{
}

/// A constraint dimension has a stable name of its own; any other goes by the name it was given.
pub proof fn dimensions_have_stable_names(x: ConstraintDimensionView)
    ensures
        x == ConstraintDimensionView::ResourceScope ==> x.slug() == "resource_scope"@,
        x == ConstraintDimensionView::Endpoint ==> x.slug() == "endpoint"@,
        x == ConstraintDimensionView::DataClassification ==> x.slug() == "data_classification"@,
        x == ConstraintDimensionView::TimeWindow ==> x.slug() == "time_window"@,
        x == ConstraintDimensionView::UseCount ==> x.slug() == "use_count"@,
        x == ConstraintDimensionView::ByteSize ==> x.slug() == "byte_size"@,
        x matches ConstraintDimensionView::Other(text) ==> x.slug() == text,
{
}

/// What two constraint sets are composed to admits in every dimension what both admit, and can be
/// satisfied only if no dimension of it is left without anything.
pub proof fn meeting_admits_what_both_admit(
    a: GrantConstraints,
    b: GrantConstraints,
    d: ConstraintDimension,
    n: u64,
    token: Seq<char>,
    met: GrantConstraints,
    of_a: ConstraintValue,
    of_b: ConstraintValue,
    of_met: ConstraintValue,
    impossible: bool,
)
    requires
        call_ensures(GrantConstraints::meet, (&a, &b), met),
        call_ensures(GrantConstraints::get, (&a, &d), of_a),
        call_ensures(GrantConstraints::get, (&b, &d), of_b),
        call_ensures(GrantConstraints::get, (&met, &d), of_met),
        call_ensures(GrantConstraints::is_unsatisfiable, (&met,), impossible),
    ensures
        admits_number(of_met@, n) <==> admits_number(of_a@, n) && admits_number(of_b@, n),
        admits_token(of_met@, token) <==> admits_token(of_a@, token) && admits_token(of_b@, token),
        of_met@ is Bottom ==> impossible,
        impossible <==> exists|e: ConstraintDimensionView| #[trigger] value_of(met@, e) is Bottom,
{
    composed_constraints_admit_what_both_admit(a@, b@, d@, n, token);
}

/// A dimension has the value that it was given, and every other one the value that it had.
pub proof fn a_dimension_has_what_it_was_given(
    constraints: GrantConstraints,
    given: ConstraintDimension,
    value: ConstraintValue,
    other: ConstraintDimension,
    after: GrantConstraints,
    before_value: ConstraintValue,
    after_value: ConstraintValue,
)
    requires
        call_ensures(GrantConstraints::with, (constraints, given, value), after),
        call_ensures(GrantConstraints::get, (&constraints, &other), before_value),
        call_ensures(GrantConstraints::get, (&after, &other), after_value),
    ensures
        other@ == given@ ==> after_value@ == value@,
        other@ != given@ ==> after_value@ == before_value@,
{
    constraining_touches_one_dimension(constraints@, given@, value@, other@);
}

/// A single value that is exactly required admits that number and no other.
pub proof fn an_exact_value_admits_one_number(value: u64, n: u64, r: ConstraintValue)
    requires
        call_ensures(ConstraintValue::exactly, (value,), r),
    ensures
        admits_number(r@, n) <==> n == value,
{
}

/// A grant is current exactly under the policy that it was made under.
pub proof fn a_grant_is_current_under_its_own_policy(
    grant: CapabilityGrant,
    epoch: PolicyEpoch,
    r: bool,
)
    requires
        call_ensures(CapabilityGrant::epoch_is_current, (&grant, &epoch), r),
    ensures
        r <==> {
            &&& grant@.policy_epoch.check_set_revision == epoch@.check_set_revision
            &&& grant@.policy_epoch.policy_data_revisions == epoch@.policy_data_revisions
        },
{
}

/// A grant that was issued is of its context and of what was given, with every use left.
pub proof fn issuing_binds_the_grant(
    context: SecurityContext,
    action: SecurityAction,
    resource: SecurityResource,
    permissions: PermissionSet,
    policy_epoch: PolicyEpoch,
    expiry: Deadline,
    max_uses: u32,
    r: CapabilityGrant,
)
    requires
        call_ensures(
            CapabilityGrant::issue,
            (&context, action, resource, permissions, policy_epoch, expiry, max_uses),
            r,
        ),
    ensures
        r@.subject == context@.subject,
        r@.session == context@.session,
        r@.check_set_revision == context@.check_set_revision,
        r@.action == action@,
        r@.resource == resource@,
        r@.permissions == permissions@,
        r@.policy_epoch == policy_epoch@,
        r@.expiry == expiry@,
        r@.max_uses == max_uses,
        r@.remaining_uses == max_uses,
{
}

/// Grants with the same fingerprint fields are bound to the same party and action; and uses that
/// were taken do not show in a fingerprint.
pub proof fn a_fingerprint_outlasts_uses(
    grant: &mut CapabilityGrant,
    taken: bool,
    before: Fingerprint,
    after: Fingerprint,
)
    requires
        call_ensures(CapabilityGrant::consume, (grant,), taken),
        call_ensures(CapabilityGrant::fingerprint, (&*old(grant),), before),
        call_ensures(CapabilityGrant::fingerprint, (&*final(grant),), after),
    ensures
        before@ == after@,
{
    use_count_is_not_audited(old(grant)@, final(grant)@.remaining_uses);
}

} // verus!
