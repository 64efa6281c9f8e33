//! Maps and sets keyed by text, kept in the order of their keys.

use vstd::prelude::*;

use crate::fingerprint::{group_absorb, lemma_concat_assoc, Encoded, FingerprintHasher};
use crate::record::Record;
use crate::text::{comes_before, same_text, text_before};

verus! {

/// Whether the keys of `entries` are strictly increasing.
pub open spec fn ordered_keys<W>(entries: Seq<(Seq<char>, W)>) -> bool {
    forall|i: int, j: int|
        0 <= i < j < entries.len() ==> text_before(#[trigger] entries[i].0, #[trigger] entries[j].0)
}

/// The map that `entries` stand for.
pub open spec fn dict<W>(entries: Seq<(Seq<char>, W)>) -> Map<Seq<char>, W>
    decreases entries.len(),
{
    if entries.len() == 0 {
        Map::empty()
    } else {
        dict(entries.drop_last()).insert(entries.last().0, entries.last().1)
    }
}

/// Every entry of ordered entries is in their map, and nothing else is.
pub proof fn lemma_dict<W>(entries: Seq<(Seq<char>, W)>)
    requires
        ordered_keys(entries),
    ensures
        forall|i: int|
            0 <= i < entries.len() ==> {
                &&& dict(entries).dom().contains((#[trigger] entries[i]).0)
                &&& dict(entries)[entries[i].0] == entries[i].1
            },
        forall|k: Seq<char>| #[trigger]
            dict(entries).dom().contains(k) ==> exists|i: int|
                0 <= i < entries.len() && (#[trigger] entries[i]).0 == k,
    decreases entries.len(),
{
    if entries.len() > 0 {
        let rest = entries.drop_last();
        lemma_dict(rest);
        assert forall|i: int| 0 <= i < entries.len() implies {
            &&& dict(entries).dom().contains((#[trigger] entries[i]).0)
            &&& dict(entries)[entries[i].0] == entries[i].1
        } by {
            if i < entries.len() - 1 {
                assert(rest[i] == entries[i]);
                crate::text::lemma_text_order(
                    entries[i].0,
                    entries.last().0,
                    entries.last().0,
                );
                assert(text_before(entries[i].0, entries[entries.len() - 1].0));
            }
        }
        assert forall|k: Seq<char>| #[trigger] dict(entries).dom().contains(k) implies exists|
            i: int,
        | 0 <= i < entries.len() && (#[trigger] entries[i]).0 == k by {
            if k == entries.last().0 {
                assert(entries[entries.len() - 1].0 == k);
            } else {
                assert(dict(rest).dom().contains(k));
                let i = choose|i: int| 0 <= i < rest.len() && (#[trigger] rest[i]).0 == k;
                assert(entries[i].0 == k);
            }
        }
    }
}

/// Ordered entries are determined by their map.
pub proof fn lemma_dict_determines_entries<W>(a: Seq<(Seq<char>, W)>, b: Seq<(Seq<char>, W)>)
    requires
        ordered_keys(a),
        ordered_keys(b),
        dict(a) == dict(b),
    ensures
        a == b,
    decreases a.len() + b.len(),
{
    lemma_dict(a);
    lemma_dict(b);
    if a.len() == 0 && b.len() == 0 {
        assert(a =~= b);
    } else if a.len() == 0 {
        assert(dict(b).dom().contains(b[0].0));
        assert(false);
    } else if b.len() == 0 {
        assert(dict(a).dom().contains(a[0].0));
        assert(false);
    } else {
        let (m, n) = (a.len() - 1, b.len() - 1);
        let (ka, kb) = (a[m].0, b[n].0);
        assert(dict(a).dom().contains(ka) && dict(b).dom().contains(kb));
        let i = choose|i: int| 0 <= i < b.len() && (#[trigger] b[i]).0 == ka;
        let j = choose|j: int| 0 <= j < a.len() && (#[trigger] a[j]).0 == kb;
        crate::text::lemma_text_order(ka, kb, kb);
        if ka != kb {
            assert(i < n && j < m);
            assert(text_before(ka, kb));
            assert(text_before(kb, ka));
            assert(false);
        }
        let (ra, rb) = (a.drop_last(), b.drop_last());
        lemma_dict(ra);
        lemma_dict(rb);
        assert(!dict(ra).dom().contains(ka)) by {
            if dict(ra).dom().contains(ka) {
                let x = choose|x: int| 0 <= x < ra.len() && (#[trigger] ra[x]).0 == ka;
                assert(text_before(a[x].0, a[m].0));
                crate::text::lemma_text_order(ka, ka, ka);
            }
        }
        assert(!dict(rb).dom().contains(kb)) by {
            if dict(rb).dom().contains(kb) {
                let x = choose|x: int| 0 <= x < rb.len() && (#[trigger] rb[x]).0 == kb;
                assert(text_before(b[x].0, b[n].0));
                crate::text::lemma_text_order(kb, kb, kb);
            }
        }
        assert(dict(ra) =~= dict(a).remove(ka));
        assert(dict(rb) =~= dict(b).remove(kb));
        lemma_dict_determines_entries(ra, rb);
        assert(a =~= ra.push(a[m]));
        assert(b =~= rb.push(b[n]));
    }
}

/// A map from text to values, in the order of the keys.
#[derive(Debug, PartialEq, Eq)]
pub struct TextMap<V: Record> {
    entries: Vec<(String, V)>,
}

impl<V: Record> DeepView for TextMap<V> {
    type V = Seq<(Seq<char>, V::V)>;

    closed spec fn deep_view(&self) -> Seq<(Seq<char>, V::V)> {
        self.entries.deep_view()
    }
}

impl<V: Record> View for TextMap<V> {
    type V = Seq<(Seq<char>, V::V)>;

    open spec fn view(&self) -> Seq<(Seq<char>, V::V)> {
        self.deep_view()
    }
}

impl<V: Record> TextMap<V> {
    #[verifier::type_invariant]
    spec fn in_order(self) -> bool {
        ordered_keys(self.entries.deep_view())
    }

    /// The map that the entries stand for.
    pub open spec fn dict(self) -> Map<Seq<char>, V::V> {
        dict(self@)
    }

    /// An empty map.
    pub fn new() -> (r: Self)
        ensures
            r@ == Seq::<(Seq<char>, V::V)>::empty(),
            r.dict() == Map::<Seq<char>, V::V>::empty(),
    {
        let entries: Vec<(String, V)> = Vec::new();
        assert(entries.deep_view() =~= Seq::<(Seq<char>, V::V)>::empty());
        TextMap { entries }
    }

    /// The number of entries.
    pub fn len(&self) -> (r: usize)
        ensures
            r == self@.len(),
            ordered_keys(self@),
    {
        proof {
            use_type_invariant(self);
        }
        self.entries.len()
    }

    /// Whether there is no entry.
    pub fn is_empty(&self) -> (r: bool)
        ensures
            r == (self@.len() == 0),
            ordered_keys(self@),
    {
        self.len() == 0
    }

    /// The key of the entry at `index`, counted in key order.
    pub fn key_at(&self, index: usize) -> (r: &str)
        requires
            index < self@.len(),
        ensures
            r@ == self@[index as int].0,
    {
        self.entries[index].0.as_str()
    }

    /// The value of the entry at `index`, counted in key order.
    pub fn value_at(&self, index: usize) -> (r: &V)
        requires
            index < self@.len(),
        ensures
            r.deep_view() == self@[index as int].1,
    {
        &self.entries[index].1
    }

    /// The number of keys that come before `key`.
    fn position(&self, key: &str) -> (r: usize)
        ensures
            r <= self@.len(),
            forall|i: int| 0 <= i < r ==> text_before(#[trigger] self@[i].0, key@),
            r < self@.len() ==> !text_before(self@[r as int].0, key@),
    {
        let mut i: usize = 0;
        while i < self.entries.len()
            invariant
                i <= self.entries.len(),
                self.entries.len() == self@.len(),
                forall|j: int| 0 <= j < i ==> text_before(#[trigger] self@[j].0, key@),
            decreases self.entries.len() - i,
        {
            if !comes_before(self.entries[i].0.as_str(), key) {
                return i;
            }
            i = i + 1;
        }
        i
    }

    /// The value of `key`, if there is one.
    pub fn get(&self, key: &str) -> (r: Option<&V>)
        ensures
            match r {
                Some(v) => self.dict().dom().contains(key@) && v.deep_view() == self.dict()[key@],
                None => !self.dict().dom().contains(key@),
            },
    {
        proof {
            use_type_invariant(self);
            lemma_dict(self@);
        }
        let at = self.position(key);
        if at < self.entries.len() && same_text(self.entries[at].0.as_str(), key) {
            assert(self@[at as int].0 == key@);
            return Some(&self.entries[at].1);
        }
        proof {
            if self.dict().dom().contains(key@) {
                let i = choose|i: int| 0 <= i < self@.len() && (#[trigger] self@[i]).0 == key@;
                crate::text::lemma_text_order(key@, key@, key@);
                assert(at <= i);
                assert(at as int != i);
                assert(text_before(self@[at as int].0, self@[i].0));
            }
        }
        None
    }

    /// Whether `key` has a value.
    pub fn contains_key(&self, key: &str) -> (r: bool)
        ensures
            r == self.dict().dom().contains(key@),
    {
        self.get(key).is_some()
    }

    /// Gives `key` the value `value`, in place of the one that it had.
    pub fn insert(&mut self, key: &str, value: V)
        ensures
            final(self).dict() == old(self).dict().insert(key@, value.deep_view()),
            ordered_keys(final(self)@),
    {
        proof {
            use_type_invariant(&*self);
            lemma_dict(self@);
        }
        let ghost before = self@;
        let at = self.position(key);
        let mut entries: Vec<(String, V)> = Vec::new();
        assert(entries.deep_view() =~= Seq::<(Seq<char>, V::V)>::empty());
        std::mem::swap(&mut entries, &mut self.entries);
        let ghost entry = (key@, value.deep_view());
        let present = at < entries.len() && same_text(entries[at].0.as_str(), key);
        if present {
            assert(before[at as int].0 == key@);
            entries.set(at, (key.to_owned(), value));
            assert(entries.deep_view() =~= before.update(at as int, entry));
        } else {
            entries.insert(at, (key.to_owned(), value));
            assert(entries.deep_view() =~= before.insert(at as int, entry));
        }
        proof {
            let after = entries.deep_view();
            assert forall|i: int, j: int| 0 <= i < j < after.len() implies text_before(
                #[trigger] after[i].0,
                #[trigger] after[j].0,
            ) by {
                if present {
                    assert(after[i].0 == before[i].0);
                    assert(after[j].0 == before[j].0);
                } else {
                    let k = key@;
                    if at < before.len() {
                        crate::text::lemma_text_order(k, before[at as int].0, k);
                    }
                    if j == at {
                        assert(after[i] == before[i]);
                    } else if i == at {
                        assert(after[j] == before[j - 1]);
                        crate::text::lemma_text_order(
                            k,
                            before[at as int].0,
                            before[j - 1].0,
                        );
                    } else {
                        let a = if i < at { i } else { i - 1 };
                        let b = if j < at { j } else { j - 1 };
                        assert(after[i] == before[a] && after[j] == before[b]);
                    }
                }
            }
            lemma_dict(after);
            let want = dict(before).insert(key@, entry.1);
            assert forall|k: Seq<char>| dict(after).dom().contains(k) == want.dom().contains(k) by {
                if dict(after).dom().contains(k) {
                    let i = choose|i: int| 0 <= i < after.len() && (#[trigger] after[i]).0 == k;
                    if k != key@ {
                        let b = if present || i < at {
                            i
                        } else {
                            i - 1
                        };
                        assert(before[b].0 == k);
                    }
                }
                if want.dom().contains(k) && k != key@ {
                    let b = choose|b: int| 0 <= b < before.len() && (#[trigger] before[b]).0 == k;
                    let i = if present || b < at {
                        b
                    } else {
                        b + 1
                    };
                    assert(after[i].0 == k);
                }
                if k == key@ {
                    assert(after[at as int].0 == k);
                }
            }
            assert forall|k: Seq<char>| dict(after).dom().contains(k) implies #[trigger] dict(
                after,
            )[k] == want[k] by {
                let i = choose|i: int| 0 <= i < after.len() && (#[trigger] after[i]).0 == k;
                if k != key@ {
                    let b = if present || i < at {
                        i
                    } else {
                        i - 1
                    };
                    assert(before[b] == after[i]);
                } else {
                    assert(after[at as int].0 == k);
                }
            }
            assert(dict(after) =~= want);
        }
        self.entries = entries;
    }

    /// Takes the value of `key` away, if it has one.
    pub fn remove(&mut self, key: &str)
        ensures
            final(self).dict() == old(self).dict().remove(key@),
            ordered_keys(final(self)@),
    {
        proof {
            use_type_invariant(&*self);
            lemma_dict(self@);
        }
        let ghost before = self@;
        let at = self.position(key);
        let mut entries: Vec<(String, V)> = Vec::new();
        assert(entries.deep_view() =~= Seq::<(Seq<char>, V::V)>::empty());
        std::mem::swap(&mut entries, &mut self.entries);
        if at < entries.len() && same_text(entries[at].0.as_str(), key) {
            entries.remove(at);
            assert(entries.deep_view() =~= before.remove(at as int));
            proof {
                let after = entries.deep_view();
                assert forall|i: int, j: int| 0 <= i < j < after.len() implies text_before(
                    #[trigger] after[i].0,
                    #[trigger] after[j].0,
                ) by {
                    let a = if i < at { i } else { i + 1 };
                    let b = if j < at { j } else { j + 1 };
                    assert(after[i] == before[a] && after[j] == before[b]);
                }
                lemma_dict(after);
                let want = dict(before).remove(key@);
                assert forall|k: Seq<char>|
                    dict(after).dom().contains(k) == want.dom().contains(k) by {
                    if dict(after).dom().contains(k) {
                        let i = choose|i: int| 0 <= i < after.len() && (#[trigger] after[i]).0 == k;
                        let b = if i < at { i } else { i + 1 };
                        assert(before[b].0 == k);
                        assert(before[at as int].0 == key@);
                        crate::text::lemma_text_order(k, key@, k);
                    }
                    if want.dom().contains(k) {
                        let b = choose|b: int|
                            0 <= b < before.len() && (#[trigger] before[b]).0 == k;
                        assert(b != at);
                        let i = if b < at { b } else { b - 1 };
                        assert(after[i].0 == k);
                    }
                }
                assert forall|k: Seq<char>| dict(after).dom().contains(k) implies #[trigger] dict(
                    after,
                )[k] == want[k] by {
                    let i = choose|i: int| 0 <= i < after.len() && (#[trigger] after[i]).0 == k;
                    let b = if i < at { i } else { i + 1 };
                    assert(before[b] == after[i]);
                }
                assert(dict(after) =~= want);
            }
        } else {
            proof {
                if dict(before).dom().contains(key@) {
                    let i = choose|i: int| 0 <= i < before.len() && (#[trigger] before[i]).0
                        == key@;
                    crate::text::lemma_text_order(key@, key@, key@);
                    assert(at <= i);
                    assert(at as int != i);
                    assert(text_before(before[at as int].0, before[i].0));
                }
                assert(dict(before) =~= dict(before).remove(key@));
            }
        }
        self.entries = entries;
    }
}

impl<V: Record> Record for TextMap<V> {
    fn same(&self, other: &Self) -> (r: bool) {
        if self.entries.len() != other.entries.len() {
            assert(self@.len() != other@.len());
            return false;
        }
        let mut i: usize = 0;
        while i < self.entries.len()
            invariant
                i <= self.entries.len(),
                self.entries.len() == other.entries.len(),
                self.entries.len() == self@.len(),
                other.entries.len() == other@.len(),
                forall|j: int| 0 <= j < i ==> self@[j] == #[trigger] other@[j],
            decreases self.entries.len() - i,
        {
            let a = &self.entries[i];
            let b = &other.entries[i];
            if !(a.0.same(&b.0) && a.1.same(&b.1)) {
                assert(self@[i as int] != other@[i as int]);
                return false;
            }
            i = i + 1;
        }
        assert(self@ =~= other@);
        true
    }

    fn copied(&self) -> (r: Self) {
        proof {
            use_type_invariant(self);
        }
        let mut entries: Vec<(String, V)> = Vec::new();
        let mut i: usize = 0;
        assert(entries.deep_view() =~= self@.subrange(0, 0));
        while i < self.entries.len()
            invariant
                i <= self.entries.len(),
                self.entries.len() == self@.len(),
                entries.deep_view() == self@.subrange(0, i as int),
            decreases self.entries.len() - i,
        {
            let ghost before = entries.deep_view();
            let a = &self.entries[i];
            entries.push((a.0.copied(), a.1.copied()));
            assert(entries.deep_view() =~= before.push(self@[i as int]));
            assert(self@.subrange(0, i + 1) =~= self@.subrange(0, i as int).push(self@[i as int]));
            i = i + 1;
        }
        assert(self@.subrange(0, self@.len() as int) =~= self@);
        TextMap { entries }
    }
}

impl<V: Record> Clone for TextMap<V> {
    fn clone(&self) -> (r: Self)
        ensures
            r@ == self@,
    {
        self.copied()
    }
}

/// The fields of the entries of a map, in key order.
pub open spec fn entry_fields<V: Encoded>(view: Seq<(Seq<char>, V::V)>) -> Seq<Seq<char>>
    decreases view.len(),
{
    if view.len() == 0 {
        Seq::empty()
    } else {
        entry_fields::<V>(view.drop_last()) + seq![view.last().0] + V::fields(view.last().1)
    }
}

proof fn lemma_entries_decodable<V: Encoded>(
    a: Seq<(Seq<char>, V::V)>,
    b: Seq<(Seq<char>, V::V)>,
    x: Seq<Seq<char>>,
    y: Seq<Seq<char>>,
)
    requires
        a.len() == b.len(),
        entry_fields::<V>(a) + x == entry_fields::<V>(b) + y,
    ensures
        a == b,
        x == y,
    decreases a.len(),
{
    broadcast use lemma_concat_assoc;

    if a.len() == 0 {
        assert(a =~= b);
        assert(entry_fields::<V>(a) + x =~= x);
        assert(entry_fields::<V>(b) + y =~= y);
    } else {
        let (p, q) = (V::fields(a.last().1) + x, V::fields(b.last().1) + y);
        lemma_entries_decodable::<V>(
            a.drop_last(),
            b.drop_last(),
            seq![a.last().0] + p,
            seq![b.last().0] + q,
        );
        String::lemma_decodable(a.last().0, b.last().0, p, q);
        V::lemma_decodable(a.last().1, b.last().1, x, y);
        assert(a =~= a.drop_last().push(a.last()));
        assert(b =~= b.drop_last().push(b.last()));
    }
}

impl<V: Encoded> Encoded for TextMap<V> {
    open spec fn fields(view: Seq<(Seq<char>, V::V)>) -> Seq<Seq<char>> {
        seq![crate::text::decimal(view.len())] + entry_fields::<V>(view)
    }

    fn encode(&self, hasher: &mut FingerprintHasher) {
        broadcast use group_absorb;

        hasher.field(crate::text::decimal_text(self.entries.len() as u64).as_str());
        let ghost after_length = hasher@;
        let mut i: usize = 0;
        assert(self@.subrange(0, 0) =~= Seq::<(Seq<char>, V::V)>::empty());
        while i < self.entries.len()
            invariant
                i <= self.entries.len(),
                self.entries.len() == self@.len(),
                hasher@ == absorb_entries::<V>(after_length, self@.subrange(0, i as int)),
            decreases self.entries.len() - i,
        {
            broadcast use group_absorb;

            let ghost items = self@.subrange(0, i + 1);
            assert(items.drop_last() =~= self@.subrange(0, i as int));
            assert(items.last() == self@[i as int]);
            hasher.field(self.entries[i].0.as_str());
            self.entries[i].1.encode(hasher);
            i = i + 1;
        }
        assert(self@.subrange(0, self@.len() as int) =~= self@);
    }

    proof fn lemma_decodable(
        a: Seq<(Seq<char>, V::V)>,
        b: Seq<(Seq<char>, V::V)>,
        x: Seq<Seq<char>>,
        y: Seq<Seq<char>>,
    ) {
        broadcast use lemma_concat_assoc;

        let (p, q) = (entry_fields::<V>(a) + x, entry_fields::<V>(b) + y);
        let (m, n) = (crate::text::decimal(a.len()), crate::text::decimal(b.len()));
        String::lemma_decodable(m, n, p, q);
        crate::text::lemma_decimal_determines(a.len(), b.len());
        lemma_entries_decodable::<V>(a, b, x, y);
    }
}

/// The digest after the entries of a map.
spec fn absorb_entries<V: Encoded>(digest: u64, view: Seq<(Seq<char>, V::V)>) -> u64 {
    crate::fingerprint::absorb_all(digest, entry_fields::<V>(view))
}

/// Whether `items` are strictly increasing.
pub open spec fn ordered_items(items: Seq<Seq<char>>) -> bool {
    forall|i: int, j: int|
        0 <= i < j < items.len() ==> text_before(#[trigger] items[i], #[trigger] items[j])
}

/// Ordered items are determined by the set of them.
pub proof fn lemma_set_determines_items(a: Seq<Seq<char>>, b: Seq<Seq<char>>)
    requires
        ordered_items(a),
        ordered_items(b),
        a.to_set() == b.to_set(),
    ensures
        a == b,
    decreases a.len() + b.len(),
{
    if a.len() == 0 && b.len() == 0 {
        assert(a =~= b);
    } else if a.len() == 0 {
        assert(b.to_set().contains(b[0]));
        assert(a.contains(b[0]));
        assert(false);
    } else if b.len() == 0 {
        assert(a.to_set().contains(a[0]));
        assert(b.contains(a[0]));
        assert(false);
    } else {
        let (m, n) = (a.len() - 1, b.len() - 1);
        assert(a.to_set().contains(a[m]) && b.to_set().contains(b[n]));
        assert(b.contains(a[m]) && a.contains(b[n]));
        let i = choose|i: int| 0 <= i < b.len() && b[i] == a[m];
        let j = choose|j: int| 0 <= j < a.len() && a[j] == b[n];
        crate::text::lemma_text_order(a[m], b[n], b[n]);
        if a[m] != b[n] {
            assert(text_before(b[i], b[n]));
            assert(text_before(a[j], a[m]));
            assert(false);
        }
        let (ra, rb) = (a.drop_last(), b.drop_last());
        assert forall|x: Seq<char>| ra.to_set().contains(x) == rb.to_set().contains(x) by {
            if ra.to_set().contains(x) {
                let k = choose|k: int| 0 <= k < ra.len() && ra[k] == x;
                assert(text_before(a[k], a[m]));
                crate::text::lemma_text_order(x, x, x);
                assert(a.contains(x));
                assert(b.to_set().contains(x));
                let l = choose|l: int| 0 <= l < b.len() && b[l] == x;
                assert(rb[l] == x);
            }
            if rb.to_set().contains(x) {
                let k = choose|k: int| 0 <= k < rb.len() && rb[k] == x;
                assert(text_before(b[k], b[n]));
                crate::text::lemma_text_order(x, x, x);
                assert(b.contains(x));
                assert(a.to_set().contains(x));
                let l = choose|l: int| 0 <= l < a.len() && a[l] == x;
                assert(ra[l] == x);
            }
        }
        assert(ra.to_set() =~= rb.to_set());
        lemma_set_determines_items(ra, rb);
        assert(a =~= ra.push(a[m]));
        assert(b =~= rb.push(b[n]));
    }
}

/// The items of a set in order, where the set is one of ordered items.
pub open spec fn sorted_items(set: Set<Seq<char>>) -> Seq<Seq<char>> {
    choose|items: Seq<Seq<char>>| ordered_items(items) && items.to_set() == set
}

/// Ordered items are the items of their set in order.
pub proof fn lemma_sorted_items(items: Seq<Seq<char>>)
    requires
        ordered_items(items),
    ensures
        sorted_items(items.to_set()) == items,
{
    lemma_set_determines_items(items, sorted_items(items.to_set()));
}

/// A finite set can be put in order.
pub proof fn lemma_finite_set_in_order(set: Set<Seq<char>>)
    requires
        set.finite(),
    ensures
        ordered_items(sorted_items(set)),
        sorted_items(set).to_set() == set,
    decreases set.len(),
{
    if set.len() == 0 {
        let none = Seq::<Seq<char>>::empty();
        set.lemma_len0_is_empty();
        assert(none.to_set() =~= set);
        lemma_sorted_items(none);
    } else {
        let x = set.choose();
        let rest = set.remove(x);
        lemma_finite_set_in_order(rest);
        let items = sorted_items(rest);
        let at = lemma_place_among(items, x);
        let all = items.insert(at, x);
        assert forall|i: int, j: int| 0 <= i < j < all.len() implies text_before(
            #[trigger] all[i],
            #[trigger] all[j],
        ) by {
            if i < at && j == at {
                assert(all[i] == items[i]);
            } else if i == at {
                assert(all[j] == items[j - 1]);
                assert(!text_before(items[j - 1], x)) by {
                    if at < j - 1 {
                        crate::text::lemma_text_order(items[at], items[j - 1], x);
                    }
                }
                assert(rest.contains(items[j - 1])) by {
                    assert(items.contains(items[j - 1]));
                    assert(items.to_set().contains(items[j - 1]));
                }
                crate::text::lemma_text_order(x, items[j - 1], x);
            } else {
                let (a, b) = (
                    if i < at {
                        i
                    } else {
                        i - 1
                    },
                    if j < at {
                        j
                    } else {
                        j - 1
                    },
                );
                assert(all[i] == items[a] && all[j] == items[b]);
            }
        }
        assert forall|y: Seq<char>| #[trigger] all.to_set().contains(y) <==> set.contains(y) by {
            assert(all[at] == x);
            if all.contains(y) {
                let k = choose|k: int| 0 <= k < all.len() && all[k] == y;
                if k < at {
                    assert(items[k] == y);
                    assert(items.to_set().contains(y));
                } else if k > at {
                    assert(items[k - 1] == y);
                    assert(items.to_set().contains(y));
                }
            }
            if set.contains(y) && y != x {
                assert(items.to_set().contains(y));
                let k = choose|k: int| 0 <= k < items.len() && items[k] == y;
                if k < at {
                    assert(all[k] == y);
                } else {
                    assert(all[k + 1] == y);
                }
            }
        }
        assert(all.to_set() =~= set);
        lemma_sorted_items(all);
    }
}

proof fn lemma_place_among(items: Seq<Seq<char>>, x: Seq<char>) -> (at: int)
    requires
        ordered_items(items),
    ensures
        0 <= at <= items.len(),
        forall|i: int| 0 <= i < at ==> text_before(#[trigger] items[i], x),
        at < items.len() ==> !text_before(items[at], x),
    decreases items.len(),
{
    if items.len() == 0 {
        0
    } else {
        let rest = items.drop_last();
        assert(forall|i: int| 0 <= i < rest.len() ==> rest[i] == #[trigger] items[i]);
        let at = lemma_place_among(rest, x);
        if at < rest.len() || !text_before(items.last(), x) {
            at
        } else {
            items.len() as int
        }
    }
}

/// A set of texts, in order.
#[derive(Debug, PartialEq, Eq)]
pub struct TextSet {
    items: Vec<String>,
}

impl DeepView for TextSet {
    type V = Set<Seq<char>>;

    closed spec fn deep_view(&self) -> Set<Seq<char>> {
        self.in_sequence().to_set()
    }
}

impl View for TextSet {
    type V = Set<Seq<char>>;

    open spec fn view(&self) -> Set<Seq<char>> {
        self.deep_view()
    }
}

impl TextSet {
    spec fn in_sequence(self) -> Seq<Seq<char>> {
        self.items.deep_view()
    }

    #[verifier::type_invariant]
    spec fn in_order(self) -> bool {
        ordered_items(self.items.deep_view())
    }

    /// An empty set.
    pub fn new() -> (r: TextSet)
        ensures
            r@ == Set::<Seq<char>>::empty(),
    {
        let items: Vec<String> = Vec::new();
        assert(items.deep_view() =~= Seq::<Seq<char>>::empty());
        assert(items.deep_view().to_set() =~= Set::<Seq<char>>::empty());
        TextSet { items }
    }

    /// The number of items.
    pub fn len(&self) -> (r: usize)
        ensures
            r == sorted_items(self@).len(),
            ordered_items(sorted_items(self@)),
            sorted_items(self@).to_set() == self@,
    {
        proof {
            use_type_invariant(self);
            lemma_sorted_items(self.in_sequence());
        }
        self.items.len()
    }

    /// Whether the set is empty.
    pub fn is_empty(&self) -> (r: bool)
        ensures
            r == (self@ == Set::<Seq<char>>::empty()),
    {
        if self.items.len() == 0 {
            assert(self@ =~= Set::<Seq<char>>::empty());
            true
        } else {
            assert(self.in_sequence().contains(self.in_sequence()[0]));
            assert(self@.contains(self.in_sequence()[0]));
            false
        }
    }

    /// The item at `index`, counted in order.
    pub fn item_at(&self, index: usize) -> (r: &str)
        requires
            index < sorted_items(self@).len(),
        ensures
            r@ == sorted_items(self@)[index as int],
    {
        proof {
            use_type_invariant(self);
            lemma_sorted_items(self.in_sequence());
        }
        self.items[index].as_str()
    }

    /// The items in order.
    pub fn to_list(&self) -> (r: Vec<String>)
        ensures
            r.deep_view() == sorted_items(self@),
    {
        let mut out: Vec<String> = Vec::new();
        let count: usize = self.len();
        let mut i: usize = 0;
        while i < count
            invariant
                i <= count == sorted_items(self@).len(),
                out.deep_view().len() == i,
                forall|j: int|
                    0 <= j < i ==> #[trigger] out.deep_view()[j] == sorted_items(self@)[j],
            decreases count - i,
        {
            let ghost before = out.deep_view();
            out.push(self.item_at(i).to_owned());
            assert(out.deep_view() =~= before.push(sorted_items(self@)[i as int]));
            i = i + 1;
        }
        assert(out.deep_view() =~= sorted_items(self@));
        out
    }

    /// Whether `item` is in the set.
    pub fn contains(&self, item: &str) -> (r: bool)
        ensures
            r == self@.contains(item@),
    {
        let mut i: usize = 0;
        while i < self.items.len()
            invariant
                i <= self.items.len(),
                self.items.len() == self.in_sequence().len(),
                forall|j: int| 0 <= j < i ==> #[trigger] self.in_sequence()[j] != item@,
            decreases self.items.len() - i,
        {
            if same_text(self.items[i].as_str(), item) {
                assert(self.in_sequence()[i as int] == item@);
                return true;
            }
            i = i + 1;
        }
        false
    }

    /// Puts `item` into the set.
    pub fn insert(&mut self, item: &str)
        ensures
            final(self)@ == old(self)@.insert(item@),
    {
        proof {
            use_type_invariant(&*self);
        }
        let ghost before = self.in_sequence();
        let mut at: usize = 0;
        while at < self.items.len() && comes_before(self.items[at].as_str(), item)
            invariant
                at <= self.items.len(),
                before == self.in_sequence(),
                self.items.len() == before.len(),
                forall|j: int| 0 <= j < at ==> text_before(#[trigger] before[j], item@),
            decreases self.items.len() - at,
        {
            at = at + 1;
        }
        if at < self.items.len() && same_text(self.items[at].as_str(), item) {
            assert(before[at as int] == item@);
            assert(before.to_set().contains(item@));
            assert(before.to_set().insert(item@) =~= before.to_set());
            return;
        }
        let mut items: Vec<String> = Vec::new();
        assert(items.deep_view() =~= Seq::<Seq<char>>::empty());
        std::mem::swap(&mut items, &mut self.items);
        items.insert(at, item.to_owned());
        proof {
            let after = items.deep_view();
            assert(after =~= before.insert(at as int, item@));
            if at < before.len() {
                crate::text::lemma_text_order(item@, before[at as int], item@);
            }
            assert forall|i: int, j: int| 0 <= i < j < after.len() implies text_before(
                #[trigger] after[i],
                #[trigger] after[j],
            ) by {
                if j == at {
                    assert(after[i] == before[i]);
                } else if i == at {
                    assert(after[j] == before[j - 1]);
                    crate::text::lemma_text_order(item@, before[at as int], before[j - 1]);
                } else {
                    let a = if i < at { i } else { i - 1 };
                    let b = if j < at { j } else { j - 1 };
                    assert(after[i] == before[a] && after[j] == before[b]);
                }
            }
            assert forall|x: Seq<char>|
                after.to_set().contains(x) == before.to_set().insert(item@).contains(x) by {
                if after.to_set().contains(x) {
                    let i = choose|i: int| 0 <= i < after.len() && after[i] == x;
                    if i != at {
                        assert(before[if i < at { i } else { i - 1 }] == x);
                    }
                }
                if before.to_set().contains(x) {
                    let i = choose|i: int| 0 <= i < before.len() && before[i] == x;
                    assert(after[if i < at { i } else { i + 1 }] == x);
                }
                assert(after[at as int] == item@);
            }
            assert(after.to_set() =~= before.to_set().insert(item@));
        }
        self.items = items;
    }

    /// The items that are in both sets.
    pub fn intersection(&self, other: &TextSet) -> (r: TextSet)
        ensures
            r@ == self@.intersect(other@),
    {
        let mut out = TextSet::new();
        let mut i: usize = 0;
        let ghost items = self.in_sequence();
        while i < self.items.len()
            invariant
                i <= self.items.len(),
                items == self.in_sequence(),
                self.items.len() == items.len(),
                forall|x: Seq<char>| #[trigger]
                    out@.contains(x) == (other@.contains(x) && exists|j: int|
                        0 <= j < i && #[trigger] items[j] == x),
            decreases self.items.len() - i,
        {
            let ghost before = out@;
            let item = self.items[i].as_str();
            if other.contains(item) {
                out.insert(item);
            }
            assert forall|x: Seq<char>| #[trigger] out@.contains(x) == (other@.contains(x)
                && exists|j: int| 0 <= j < i + 1 && #[trigger] items[j] == x) by {
                if other@.contains(x) && (exists|j: int|
                    0 <= j < i + 1 && #[trigger] items[j] == x) {
                    let j = choose|j: int| 0 <= j < i + 1 && #[trigger] items[j] == x;
                    if j < i {
                        assert(before.contains(x));
                    }
                }
                if out@.contains(x) {
                    if x == items[i as int] {
                    } else {
                        assert(before.contains(x));
                    }
                }
            }
            i = i + 1;
        }
        assert forall|x: Seq<char>| out@.contains(x) == self@.intersect(other@).contains(x) by {
            if self@.contains(x) {
                let j = choose|j: int| 0 <= j < items.len() && items[j] == x;
                assert(items[j] == x);
            }
        }
        assert(out@ =~= self@.intersect(other@));
        out
    }

    /// Whether every item of this set is in `other`.
    pub fn is_subset(&self, other: &TextSet) -> (r: bool)
        ensures
            r == self@.subset_of(other@),
    {
        let mut i: usize = 0;
        let ghost items = self.in_sequence();
        while i < self.items.len()
            invariant
                i <= self.items.len(),
                items == self.in_sequence(),
                self.items.len() == items.len(),
                forall|j: int| 0 <= j < i ==> other@.contains(#[trigger] items[j]),
            decreases self.items.len() - i,
        {
            if !other.contains(self.items[i].as_str()) {
                assert(items.contains(items[i as int]));
                assert(self@.contains(items[i as int]));
                return false;
            }
            i = i + 1;
        }
        assert forall|x: Seq<char>| self@.contains(x) implies other@.contains(x) by {
            let j = choose|j: int| 0 <= j < items.len() && items[j] == x;
            assert(other@.contains(items[j]));
        }
        true
    }

    /// The items that are in at least one of the sets.
    pub fn union(&self, other: &TextSet) -> (r: TextSet)
        ensures
            r@ == self@.union(other@),
    {
        let mut out = self.copied();
        let mut i: usize = 0;
        let ghost items = other.in_sequence();
        while i < other.items.len()
            invariant
                i <= other.items.len(),
                items == other.in_sequence(),
                other.items.len() == items.len(),
                forall|x: Seq<char>| #[trigger]
                    out@.contains(x) == (self@.contains(x) || exists|j: int|
                        0 <= j < i && #[trigger] items[j] == x),
            decreases other.items.len() - i,
        {
            let ghost before = out@;
            out.insert(other.items[i].as_str());
            assert forall|x: Seq<char>| #[trigger] out@.contains(x) == (self@.contains(x)
                || exists|j: int| 0 <= j < i + 1 && #[trigger] items[j] == x) by {
                if x == items[i as int] {
                    assert(out@.contains(x));
                } else {
                    assert(out@.contains(x) == before.contains(x));
                    if exists|j: int| 0 <= j < i + 1 && #[trigger] items[j] == x {
                        let j = choose|j: int| 0 <= j < i + 1 && #[trigger] items[j] == x;
                        assert(j < i);
                    }
                }
            }
            i = i + 1;
        }
        assert forall|x: Seq<char>| out@.contains(x) == self@.union(other@).contains(x) by {
            if other@.contains(x) {
                let j = choose|j: int| 0 <= j < items.len() && items[j] == x;
                assert(items[j] == x);
            }
        }
        assert(out@ =~= self@.union(other@));
        out
    }
}

impl Record for TextSet {
    fn same(&self, other: &Self) -> (r: bool) {
        proof {
            use_type_invariant(self);
            use_type_invariant(other);
            if self@ == other@ {
                lemma_set_determines_items(self.in_sequence(), other.in_sequence());
            }
        }
        self.items.same(&other.items)
    }

    fn copied(&self) -> (r: Self) {
        proof {
            use_type_invariant(self);
        }
        TextSet { items: self.items.copied() }
    }
}

impl Clone for TextSet {
    fn clone(&self) -> (r: Self)
        ensures
            r@ == self@,
    {
        self.copied()
    }
}

/// What was put under a key is found there, and what was under any other key stays.
pub proof fn a_value_is_found_under_its_key<V: Record>(
    map: &mut TextMap<V>,
    key: &str,
    value: V,
    other: &str,
    before: Option<&V>,
    after: Option<&V>,
)
    requires
        call_ensures(TextMap::<V>::insert, (map, key, value), ()),
        call_ensures(TextMap::<V>::get, (&*old(map), other), before),
        call_ensures(TextMap::<V>::get, (&*final(map), other), after),
    ensures
        other@ == key@ ==> (after matches Some(found) && found.deep_view() == value.deep_view()),
        other@ != key@ ==> {
            &&& after is Some <==> before is Some
            &&& after matches Some(found) ==> found.deep_view() == before->0.deep_view()
        },
{
}

/// What was removed is not found any more, and what is under any other key stays.
pub proof fn a_removed_value_is_not_found<V: Record>(
    map: &mut TextMap<V>,
    key: &str,
    other: &str,
    before: Option<&V>,
    after: Option<&V>,
)
    requires
        call_ensures(TextMap::<V>::remove, (map, key), ()),
        call_ensures(TextMap::<V>::get, (&*old(map), other), before),
        call_ensures(TextMap::<V>::get, (&*final(map), other), after),
    ensures
        other@ == key@ ==> after is None,
        other@ != key@ ==> {
            &&& after is Some <==> before is Some
            &&& after matches Some(found) ==> found.deep_view() == before->0.deep_view()
        },
{
}

/// A text that was inserted is in the set, and every other one exactly when it was.
pub proof fn an_inserted_text_is_in_the_set(
    set: &mut TextSet,
    inserted: &str,
    other: &str,
    before: bool,
    after: bool,
)
    requires
        call_ensures(TextSet::insert, (set, inserted), ()),
        call_ensures(TextSet::contains, (&*old(set), other), before),
        call_ensures(TextSet::contains, (&*final(set), other), after),
    ensures
        after <==> other@ == inserted@ || before,
{
}

/// A text is in the union of two sets if it is in either, and in their intersection if it is in
/// both.
pub proof fn text_sets_combine(
    a: TextSet,
    b: TextSet,
    item: &str,
    both: TextSet,
    either: TextSet,
    in_a: bool,
    in_b: bool,
    in_both: bool,
    in_either: bool,
    within: bool,
)
    requires
        call_ensures(TextSet::intersection, (&a, &b), both),
        call_ensures(TextSet::union, (&a, &b), either),
        call_ensures(TextSet::contains, (&a, item), in_a),
        call_ensures(TextSet::contains, (&b, item), in_b),
        call_ensures(TextSet::contains, (&both, item), in_both),
        call_ensures(TextSet::contains, (&either, item), in_either),
        call_ensures(TextSet::is_subset, (&a, &b), within),
    ensures
        in_both <==> in_a && in_b,
        in_either <==> in_a || in_b,
        within ==> (in_a ==> in_b),
{
}

} // verus!
