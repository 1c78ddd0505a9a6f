//! Merging one value into another of its kind.

use vstd::prelude::*;

verus! {

/// A value that can take another of its kind into itself.
pub trait Merge: Sized {
    /// Whether `after` is `before` with `other` merged into it.
    spec fn merges(before: Self, other: Self, after: Self) -> bool;

    fn merge(&mut self, other: Self)
        ensures
            Self::merges(*old(self), other, *final(self)),
    ;
}

impl<T: Merge> Merge for Option<T> {
    /// Nothing takes the other as it is; something merges with something and
    /// is left alone by nothing.
    open spec fn merges(before: Self, other: Self, after: Self) -> bool {
        match (before, other) {
            (None, _) => after == other,
            (Some(_), None) => after == before,
            (Some(a), Some(b)) => after matches Some(c) && T::merges(a, b, c),
        }
    }

    fn merge(&mut self, other: Self) {
        match other {
            None => {},
            Some(b) => {
                let mine = self.take();
                match mine {
                    None => {
                        *self = Some(b);
                    },
                    Some(a) => {
                        let mut a = a;
                        a.merge(b);
                        *self = Some(a);
                    },
                }
            },
        }
    }
}

/// A value that can take another of its kind into itself and leave the other
/// behind, emptied where it was taken whole.
pub trait MergeByRef: Sized {
    /// Whether `after` and `other_after` are `before` and `other` once
    /// `other` was merged into `before`.
    spec fn merges_by_ref(before: Self, other: Self, after: Self, other_after: Self) -> bool;

    fn merge_by_ref(&mut self, other: &mut Self)
        ensures
            Self::merges_by_ref(*old(self), *old(other), *final(self), *final(other)),
    ;
}

impl<T: MergeByRef> MergeByRef for Option<T> {
    /// Nothing takes the other whole and leaves nothing behind; something
    /// merges with something in place and is left alone by nothing.
    open spec fn merges_by_ref(before: Self, other: Self, after: Self, other_after: Self) -> bool {
        match (before, other) {
            (None, _) => after == other && other_after is None,
            (Some(_), None) => after == before && other_after is None,
            (Some(a), Some(b)) => after matches Some(c) && other_after matches Some(d)
                && T::merges_by_ref(a, b, c, d),
        }
    }

    fn merge_by_ref(&mut self, other: &mut Self) {
        let mine = self.take();
        let theirs = other.take();
        match mine {
            None => {
                *self = theirs;
            },
            Some(a) => {
                let mut a = a;
                match theirs {
                    None => {},
                    Some(b) => {
                        let mut b = b;
                        a.merge_by_ref(&mut b);
                        *other = Some(b);
                    },
                }
                *self = Some(a);
            },
        }
    }
}

} // verus!
