//! What a context plan is made of.

use vstd::prelude::*;

use crate::record::Record;
use crate::security::{RegistryId, RegistryIdView, RegistryRevision};

verus! {

/// Identifies a segment of a context plan.
#[derive(Debug, PartialEq, Eq, PartialOrd, Ord, Hash)]
pub struct SegmentId {
    text: String,
}

impl DeepView for SegmentId {
    type V = Seq<char>;

    closed spec fn deep_view(&self) -> Seq<char> {
        self.text@
    }
}

impl View for SegmentId {
    type V = Seq<char>;

    open spec fn view(&self) -> Seq<char> {
        self.deep_view()
    }
}

impl Record for SegmentId {
    fn same(&self, other: &Self) -> (r: bool) {
        self.text.same(&other.text)
    }

    fn copied(&self) -> (r: Self) {
        SegmentId { text: self.text.copied() }
    }
}

impl Clone for SegmentId {
    fn clone(&self) -> (r: Self)
        ensures
            r@ == self@,
    {
        self.copied()
    }
}

impl SegmentId {
    /// Wraps the text.
    pub fn new(text: &str) -> (r: SegmentId)
        ensures
            r@ == text@,
    {
        SegmentId { text: text.to_owned() }
    }

    /// The wrapped text.
    pub fn as_str(&self) -> (r: &str)
        ensures
            r@ == self@,
    {
        self.text.as_str()
    }
}

/// The kind of a segment.
#[derive(Debug, PartialEq, Eq, PartialOrd, Ord, Hash)]
pub struct SegmentKind {
    text: String,
}

impl DeepView for SegmentKind {
    type V = Seq<char>;

    closed spec fn deep_view(&self) -> Seq<char> {
        self.text@
    }
}

impl View for SegmentKind {
    type V = Seq<char>;

    open spec fn view(&self) -> Seq<char> {
        self.deep_view()
    }
}

impl Record for SegmentKind {
    fn same(&self, other: &Self) -> (r: bool) {
        self.text.same(&other.text)
    }

    fn copied(&self) -> (r: Self) {
        SegmentKind { text: self.text.copied() }
    }
}

impl Clone for SegmentKind {
    fn clone(&self) -> (r: Self)
        ensures
            r@ == self@,
    {
        self.copied()
    }
}

impl SegmentKind {
    /// Wraps the text.
    pub fn new(text: &str) -> (r: SegmentKind)
        ensures
            r@ == text@,
    {
        SegmentKind { text: text.to_owned() }
    }

    /// The wrapped text.
    pub fn as_str(&self) -> (r: &str)
        ensures
            r@ == self@,
    {
        self.text.as_str()
    }
}

/// How the content of a segment is to be handled.
#[derive(Debug, Clone, Copy, PartialEq, Eq, Structural)]
pub enum SegmentSensitivity {
    /// It may be shown.
    Public,
    /// It is kept protected.
    Sensitive,
}

impl DeepView for SegmentSensitivity {
    type V = SegmentSensitivity;

    open spec fn deep_view(&self) -> SegmentSensitivity {
        *self
    }
}

impl Record for SegmentSensitivity {
    fn same(&self, other: &Self) -> (r: bool) {
        *self == *other
    }

    fn copied(&self) -> (r: Self) {
        *self
    }
}

/// A summary and the segments that it replaced.
#[derive(Debug, PartialEq, Eq)]
pub struct SummaryCoverage {
    /// The summary.
    pub summary: SegmentId,
    /// What it replaced.
    pub replaced: Vec<SegmentId>,
}

/// What a [`SummaryCoverage`] holds.
pub struct SummaryCoverageView {
    pub summary: Seq<char>,
    pub replaced: Seq<Seq<char>>,
}

impl DeepView for SummaryCoverage {
    type V = SummaryCoverageView;

    open spec fn deep_view(&self) -> SummaryCoverageView {
        SummaryCoverageView {
            summary: self.summary.deep_view(),
            replaced: self.replaced.deep_view(),
        }
    }
}

impl View for SummaryCoverage {
    type V = SummaryCoverageView;

    open spec fn view(&self) -> SummaryCoverageView {
        self.deep_view()
    }
}

impl Record for SummaryCoverage {
    fn same(&self, other: &Self) -> (r: bool) {
        self.summary.same(&other.summary)
            && self.replaced.same(&other.replaced)
    }

    fn copied(&self) -> (r: Self) {
        SummaryCoverage {
            summary: self.summary.copied(),
            replaced: self.replaced.copied(),
        }
    }
}

impl Clone for SummaryCoverage {
    fn clone(&self) -> (r: Self)
        ensures
            r@ == self@,
    {
        self.copied()
    }
}

/// A capability bound for a run.
#[derive(Debug, PartialEq, Eq)]
pub struct ActivatedCapability {
    /// The capability.
    pub id: RegistryId,
    /// Its revision.
    pub revision: RegistryRevision,
}

/// What a [`ActivatedCapability`] holds.
pub struct ActivatedCapabilityView {
    pub id: RegistryIdView,
    pub revision: Seq<char>,
}

impl DeepView for ActivatedCapability {
    type V = ActivatedCapabilityView;

    open spec fn deep_view(&self) -> ActivatedCapabilityView {
        ActivatedCapabilityView {
            id: self.id.deep_view(),
            revision: self.revision.deep_view(),
        }
    }
}

impl View for ActivatedCapability {
    type V = ActivatedCapabilityView;

    open spec fn view(&self) -> ActivatedCapabilityView {
        self.deep_view()
    }
}

impl Record for ActivatedCapability {
    fn same(&self, other: &Self) -> (r: bool) {
        self.id.same(&other.id)
            && self.revision.same(&other.revision)
    }

    fn copied(&self) -> (r: Self) {
        ActivatedCapability {
            id: self.id.copied(),
            revision: self.revision.copied(),
        }
    }
}

impl Clone for ActivatedCapability {
    fn clone(&self) -> (r: Self)
        ensures
            r@ == self@,
    {
        self.copied()
    }
}

impl ActivatedCapability {
    /// The capability `id` at `revision`.
    pub fn new(id: RegistryId, revision: RegistryRevision) -> (r: ActivatedCapability)
        ensures
            r@ == (ActivatedCapabilityView { id: id@, revision: revision@ }),
    {
        ActivatedCapability { id, revision }
    }
}

} // verus!
