//! Values that are ordered by what they hold.

use vstd::prelude::*;

use crate::record::Record;
use crate::text::{comes_before, lemma_text_order, text_before};

verus! {

/// A value with a strict total order on its deep views.
pub trait Ordered: Record {
    /// Whether `a` is strictly before `b`.
    spec fn before(a: Self::V, b: Self::V) -> bool;

    /// Whether this value is strictly before the other.
    fn precedes(&self, other: &Self) -> (r: bool)
        ensures
            r == Self::before(self.deep_view(), other.deep_view()),
    ;

    /// The order is strict, transitive, and total.
    proof fn lemma_order(a: Self::V, b: Self::V, c: Self::V)
        ensures
            !Self::before(a, a),
            !(Self::before(a, b) && Self::before(b, a)),
            Self::before(a, b) && Self::before(b, c) ==> Self::before(a, c),
            a == b || Self::before(a, b) || Self::before(b, a),
    ;
}

impl Ordered for String {
    open spec fn before(a: Seq<char>, b: Seq<char>) -> bool {
        text_before(a, b)
    }

    fn precedes(&self, other: &Self) -> (r: bool) {
        comes_before(self.as_str(), other.as_str())
    }

    proof fn lemma_order(a: Seq<char>, b: Seq<char>, c: Seq<char>) {
        lemma_text_order(a, b, c);
    }
}

impl Ordered for u32 {
    open spec fn before(a: u32, b: u32) -> bool {
        a < b
    }

    fn precedes(&self, other: &Self) -> (r: bool) {
        *self < *other
    }

    proof fn lemma_order(a: u32, b: u32, c: u32) {
    }
}

impl Ordered for bool {
    open spec fn before(a: bool, b: bool) -> bool {
        !a && b
    }

    fn precedes(&self, other: &Self) -> (r: bool) {
        !*self && *other
    }

    proof fn lemma_order(a: bool, b: bool, c: bool) {
    }
}

impl<T: Ordered> Ordered for Option<T> {
    open spec fn before(a: Option<T::V>, b: Option<T::V>) -> bool {
        match (a, b) {
            (Some(x), Some(y)) => T::before(x, y),
            (None, Some(_)) => true,
            _ => false,
        }
    }

    fn precedes(&self, other: &Self) -> (r: bool) {
        match (self, other) {
            (Some(x), Some(y)) => x.precedes(y),
            (None, Some(_)) => true,
            _ => false,
        }
    }

    proof fn lemma_order(a: Option<T::V>, b: Option<T::V>, c: Option<T::V>) {
        if let Some(x) = a {
            T::lemma_order(x, x, x);
            if let Some(y) = b {
                T::lemma_order(x, y, x);
                if let Some(z) = c {
                    T::lemma_order(x, y, z);
                }
            }
        }
    }
}

/// Whether the list `a` is before `b`: the first items that differ decide, and a
/// proper start of a list is before it.
pub open spec fn list_before<T: Ordered>(a: Seq<T::V>, b: Seq<T::V>) -> bool
    decreases a.len(),
{
    if a.len() == 0 || b.len() == 0 {
        a.len() < b.len()
    } else if a[0] != b[0] {
        T::before(a[0], b[0])
    } else {
        list_before::<T>(a.drop_first(), b.drop_first())
    }
}

proof fn lemma_list_order<T: Ordered>(a: Seq<T::V>, b: Seq<T::V>, c: Seq<T::V>)
    ensures
        !list_before::<T>(a, a),
        !(list_before::<T>(a, b) && list_before::<T>(b, a)),
        list_before::<T>(a, b) && list_before::<T>(b, c) ==> list_before::<T>(a, c),
        a == b || list_before::<T>(a, b) || list_before::<T>(b, a),
    decreases a.len(),
{
    if a.len() > 0 {
        lemma_list_order::<T>(a.drop_first(), a.drop_first(), a.drop_first());
        if b.len() > 0 {
            T::lemma_order(a[0], b[0], a[0]);
            if a[0] == b[0] {
                lemma_list_order::<T>(a.drop_first(), b.drop_first(), a.drop_first());
                assert(a =~= seq![a[0]] + a.drop_first());
                assert(b =~= seq![b[0]] + b.drop_first());
            }
            if c.len() > 0 {
                T::lemma_order(a[0], b[0], c[0]);
                T::lemma_order(b[0], c[0], b[0]);
                lemma_list_order::<T>(a.drop_first(), b.drop_first(), c.drop_first());
            }
        }
    } else if b.len() == 0 {
        assert(a =~= b);
    }
}

impl<T: Ordered> Ordered for Vec<T> {
    open spec fn before(a: Seq<T::V>, b: Seq<T::V>) -> bool {
        list_before::<T>(a, b)
    }

    fn precedes(&self, other: &Self) -> (r: bool) {
        let ghost (a, b) = (self.deep_view(), other.deep_view());
        let mut i: usize = 0;
        assert(a.subrange(0, a.len() as int) =~= a);
        assert(b.subrange(0, b.len() as int) =~= b);
        while i < self.len() && i < other.len()
            invariant
                i <= self.len(),
                i <= other.len(),
                a == self.deep_view(),
                b == other.deep_view(),
                list_before::<T>(a, b) == list_before::<T>(
                    a.subrange(i as int, a.len() as int),
                    b.subrange(i as int, b.len() as int),
                ),
            decreases self.len() - i,
        {
            proof {
                let xs = a.subrange(i as int, a.len() as int);
                let ys = b.subrange(i as int, b.len() as int);
                assert(xs.drop_first() =~= a.subrange(i + 1, a.len() as int));
                assert(ys.drop_first() =~= b.subrange(i + 1, b.len() as int));
                assert(xs[0] == self[i as int].deep_view());
                assert(ys[0] == other[i as int].deep_view());
            }
            if !self[i].same(&other[i]) {
                return self[i].precedes(&other[i]);
            }
            i = i + 1;
        }
        i < other.len()
    }

    proof fn lemma_order(a: Seq<T::V>, b: Seq<T::V>, c: Seq<T::V>) {
        lemma_list_order::<T>(a, b, c);
    }
}

} // verus!
