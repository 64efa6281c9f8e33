//! Usage accounting.

use vstd::prelude::*;

use crate::ids::RequestId;
use crate::record::Record;

verus! {

/// One usage observation.
#[derive(Debug, PartialEq, Eq)]
pub struct UsageRecord {
    /// The request that it is about.
    pub request: RequestId,
    /// Input tokens, if reported.
    pub input_tokens: Option<u64>,
    /// Output tokens, if reported.
    pub output_tokens: Option<u64>,
}

/// What a [`UsageRecord`] holds.
pub struct UsageRecordView {
    pub request: Seq<char>,
    pub input_tokens: Option<u64>,
    pub output_tokens: Option<u64>,
}

impl DeepView for UsageRecord {
    type V = UsageRecordView;

    open spec fn deep_view(&self) -> UsageRecordView {
        UsageRecordView {
            request: self.request.deep_view(),
            input_tokens: self.input_tokens.deep_view(),
            output_tokens: self.output_tokens.deep_view(),
        }
    }
}

impl View for UsageRecord {
    type V = UsageRecordView;

    open spec fn view(&self) -> UsageRecordView {
        self.deep_view()
    }
}

impl Record for UsageRecord {
    fn same(&self, other: &Self) -> (r: bool) {
        self.request.same(&other.request)
            && self.input_tokens.same(&other.input_tokens)
            && self.output_tokens.same(&other.output_tokens)
    }

    fn copied(&self) -> (r: Self) {
        UsageRecord {
            request: self.request.copied(),
            input_tokens: self.input_tokens.copied(),
            output_tokens: self.output_tokens.copied(),
        }
    }
}

impl Clone for UsageRecord {
    fn clone(&self) -> (r: Self)
        ensures
            r@ == self@,
    {
        self.copied()
    }
}

/// The usage observed in a session.
#[derive(Debug, PartialEq, Eq)]
pub struct UsageLedger {
    /// The observations, in order.
    pub records: Vec<UsageRecord>,
}

/// What a [`UsageLedger`] holds.
pub struct UsageLedgerView {
    pub records: Seq<UsageRecordView>,
}

impl DeepView for UsageLedger {
    type V = UsageLedgerView;

    open spec fn deep_view(&self) -> UsageLedgerView {
        UsageLedgerView {
            records: self.records.deep_view(),
        }
    }
}

impl View for UsageLedger {
    type V = UsageLedgerView;

    open spec fn view(&self) -> UsageLedgerView {
        self.deep_view()
    }
}

impl Record for UsageLedger {
    fn same(&self, other: &Self) -> (r: bool) {
        self.records.same(&other.records)
    }

    fn copied(&self) -> (r: Self) {
        UsageLedger {
            records: self.records.copied(),
        }
    }
}

impl Clone for UsageLedger {
    fn clone(&self) -> (r: Self)
        ensures
            r@ == self@,
    {
        self.copied()
    }
}

impl UsageLedger {
    /// No usage.
    pub fn new() -> (r: UsageLedger)
        ensures
            r@.records.len() == 0,
    {
        UsageLedger { records: Vec::new() }
    }
}

} // verus!
