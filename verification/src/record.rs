//! Values that can be compared and copied by what they hold.

use vstd::prelude::*;

verus! {

/// A value that is known by its deep view: two values are the same when their
/// views are equal, and a copy has the view of its source.
pub trait Record: DeepView + Sized {
    /// Whether the two values hold the same data.
    fn same(&self, other: &Self) -> (r: bool)
        ensures
            r == (self.deep_view() == other.deep_view()),
    ;

    /// A second value that holds the same data.
    fn copied(&self) -> (r: Self)
        ensures
            r.deep_view() == self.deep_view(),
    ;
}

impl Record for String {
    fn same(&self, other: &Self) -> (r: bool) {
        *self == *other
    }

    fn copied(&self) -> (r: Self) {
        self.clone()
    }
}

impl Record for u64 {
    fn same(&self, other: &Self) -> (r: bool) {
        *self == *other
    }

    fn copied(&self) -> (r: Self) {
        *self
    }
}

impl Record for u32 {
    fn same(&self, other: &Self) -> (r: bool) {
        *self == *other
    }

    fn copied(&self) -> (r: Self) {
        *self
    }
}

impl Record for u16 {
    fn same(&self, other: &Self) -> (r: bool) {
        *self == *other
    }

    fn copied(&self) -> (r: Self) {
        *self
    }
}

impl Record for u8 {
    fn same(&self, other: &Self) -> (r: bool) {
        *self == *other
    }

    fn copied(&self) -> (r: Self) {
        *self
    }
}

impl Record for usize {
    fn same(&self, other: &Self) -> (r: bool) {
        *self == *other
    }

    fn copied(&self) -> (r: Self) {
        *self
    }
}

impl Record for bool {
    fn same(&self, other: &Self) -> (r: bool) {
        *self == *other
    }

    fn copied(&self) -> (r: Self) {
        *self
    }
}

impl<T: Record> Record for Vec<T> {
    fn same(&self, other: &Self) -> (r: bool) {
        if self.len() != other.len() {
            assert(self.deep_view().len() != other.deep_view().len());
            return false;
        }
        let mut i: usize = 0;
        while i < self.len()
            invariant
                i <= self.len(),
                self.len() == other.len(),
                forall|j: int|
                    0 <= j < i ==> self.deep_view()[j] == #[trigger] other.deep_view()[j],
            decreases self.len() - i,
        {
            if !self[i].same(&other[i]) {
                assert(self.deep_view()[i as int] != other.deep_view()[i as int]);
                return false;
            }
            i = i + 1;
        }
        assert(self.deep_view() =~= other.deep_view());
        true
    }

    fn copied(&self) -> (r: Self) {
        let mut out: Vec<T> = Vec::new();
        let mut i: usize = 0;
        while i < self.len()
            invariant
                i <= self.len(),
                out.len() == i,
                forall|j: int|
                    0 <= j < i ==> #[trigger] out.deep_view()[j] == self.deep_view()[j],
            decreases self.len() - i,
        {
            let ghost before = out.deep_view();
            out.push(self[i].copied());
            assert(out.deep_view() =~= before.push(self.deep_view()[i as int]));
            i = i + 1;
        }
        assert(out.deep_view() =~= self.deep_view());
        out
    }
}

impl<T: Record> Record for Option<T> {
    fn same(&self, other: &Self) -> (r: bool) {
        match (self, other) {
            (Some(a), Some(b)) => a.same(b),
            (None, None) => true,
            _ => false,
        }
    }

    fn copied(&self) -> (r: Self) {
        match self {
            Some(a) => Some(a.copied()),
            None => None,
        }
    }
}

/// Whether `list` begins with the items of `start`.
pub fn begins_with<T: Record>(list: &Vec<T>, start: &Vec<T>) -> (r: bool)
    ensures
        r == start.deep_view().is_prefix_of(list.deep_view()),
{
    if start.len() > list.len() {
        return false;
    }
    let mut i: usize = 0;
    while i < start.len()
        invariant
            i <= start.len() <= list.len(),
            forall|j: int| 0 <= j < i ==> start.deep_view()[j] == #[trigger] list.deep_view()[j],
        decreases start.len() - i,
    {
        if !start[i].same(&list[i]) {
            proof {
                let (s, p) = (start.deep_view(), list.deep_view());
                if s.is_prefix_of(p) {
                    assert(s[i as int] == p.subrange(0, s.len() as int)[i as int]);
                }
            }
            return false;
        }
        i = i + 1;
    }
    assert(start.deep_view() =~= list.deep_view().subrange(0, start.len() as int));
    true
}

} // verus!
