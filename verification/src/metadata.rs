//! Redaction-safe structured context.

use vstd::prelude::*;

use crate::collections::TextMap;
use crate::fingerprint::{Encoded, FingerprintHasher};
use crate::record::Record;

verus! {

/// Labelled texts attached to an error or an event.
#[derive(Debug, PartialEq, Eq)]
pub struct Metadata {
    entries: TextMap<String>,
}

impl DeepView for Metadata {
    type V = Seq<(Seq<char>, Seq<char>)>;

    closed spec fn deep_view(&self) -> Seq<(Seq<char>, Seq<char>)> {
        self.entries.deep_view()
    }
}

impl View for Metadata {
    type V = Seq<(Seq<char>, Seq<char>)>;

    open spec fn view(&self) -> Seq<(Seq<char>, Seq<char>)> {
        self.deep_view()
    }
}

impl Record for Metadata {
    fn same(&self, other: &Self) -> (r: bool) {
        self.entries.same(&other.entries)
    }

    fn copied(&self) -> (r: Self) {
        Metadata { entries: self.entries.copied() }
    }
}

impl Encoded for Metadata {
    open spec fn fields(view: Seq<(Seq<char>, Seq<char>)>) -> Seq<Seq<char>> {
        <TextMap<String> as Encoded>::fields(view)
    }

    fn encode(&self, hasher: &mut FingerprintHasher) {
        self.entries.encode(hasher);
    }

    proof fn lemma_decodable(
        a: Seq<(Seq<char>, Seq<char>)>,
        b: Seq<(Seq<char>, Seq<char>)>,
        x: Seq<Seq<char>>,
        y: Seq<Seq<char>>,
    ) {
        TextMap::<String>::lemma_decodable(a, b, x, y);
    }
}

impl Clone for Metadata {
    fn clone(&self) -> (r: Self)
        ensures
            r@ == self@,
    {
        self.copied()
    }
}

impl Metadata {
    /// No entries.
    pub fn new() -> (r: Metadata)
        ensures
            r@ == Seq::<(Seq<char>, Seq<char>)>::empty(),
    {
        Metadata { entries: TextMap::new() }
    }

    /// Whether there is no entry.
    pub fn is_empty(&self) -> (r: bool)
        ensures
            r == (self@.len() == 0),
    {
        self.entries.is_empty()
    }

    /// The entries.
    pub fn entries(&self) -> (r: &TextMap<String>)
        ensures
            r@ == self@,
    {
        &self.entries
    }

    /// The same entries, with `value` under `key`.
    pub fn with(self, key: &str, value: &str) -> (r: Metadata)
        ensures
            crate::collections::dict(r@) == crate::collections::dict(self@).insert(key@, value@),
            crate::collections::ordered_keys(r@),
    {
        let mut entries = self.entries;
        entries.insert(key, value.to_owned());
        Metadata { entries }
    }

    /// The value under `key`, if there is one.
    pub fn get(&self, key: &str) -> (r: Option<&str>)
        ensures
            match r {
                Some(v) => crate::collections::dict(self@).dom().contains(key@) && v@
                    == crate::collections::dict(self@)[key@],
                None => !crate::collections::dict(self@).dom().contains(key@),
            },
    {
        match self.entries.get(key) {
            Some(v) => Some(v.as_str()),
            None => None,
        }
    }
}

/// What was stored under a key is found there, and what was under any other key stays.
pub proof fn a_stored_value_is_found(
    metadata: Metadata,
    key: &str,
    value: &str,
    other: &str,
    after: Metadata,
    found: Option<&str>,
    before: Option<&str>,
)
    requires
        call_ensures(Metadata::with, (metadata, key, value), after),
        call_ensures(Metadata::get, (&after, other), found),
        call_ensures(Metadata::get, (&metadata, other), before),
    ensures
        other@ == key@ ==> (found matches Some(text) && text@ == value@),
        other@ != key@ ==> {
            &&& found is Some <==> before is Some
            &&& found matches Some(text) ==> text@ == before->0@
        },
{
}

} // verus!
