//! Merging of partial configurations: a value that the second operand sets
//! replaces the first, and nested configurations merge field by field.

use vstd::prelude::*;
use crate::string_set::{seq_union, StringSet};

verus! {

/// The view of an optional value.
pub open spec fn opt_view<T: View>(o: Option<T>) -> Option<T::V> {
    match o {
        Some(x) => Some(x@),
        None => None,
    }
}

/// The merge of two optional plain values: the second one when it is set,
/// else the first.
pub open spec fn or_else<T>(a: Option<T>, b: Option<T>) -> Option<T> {
    if b is Some {
        b
    } else {
        a
    }
}

/// A value that can be merged with another of its type; `merge_spec` says
/// what the merge gives on views.
pub trait Merge: View + Sized {
    spec fn merge_spec(a: Self::V, b: Self::V) -> Self::V;

    /// Merges `other` into `self`.
    fn merge_with(&mut self, other: Self)
        ensures
            final(self)@ == Self::merge_spec(old(self)@, other@),
    ;
}

/// The merge of two optional mergeable values: unset operands are skipped,
/// two set operands are merged.
pub open spec fn merge_opt<T: Merge>(a: Option<T::V>, b: Option<T::V>) -> Option<T::V> {
    match b {
        None => a,
        Some(y) => match a {
            None => Some(y),
            Some(x) => Some(T::merge_spec(x, y)),
        },
    }
}

/// Replaces `a` by `b` when `b` is set.
pub fn merge_value<T>(a: &mut Option<T>, b: Option<T>)
    ensures
        *final(a) == or_else(*old(a), b),
{
    if b.is_some() {
        *a = b;
    }
}

/// Replaces the string `a` by `b` when `b` is set.
pub fn merge_string(a: &mut Option<String>, b: Option<String>)
    ensures
        opt_view(*final(a)) == or_else(opt_view(*old(a)), opt_view(b)),
{
    if b.is_some() {
        *a = b;
    }
}

/// Merges `b` into `a`: sets `a` from `b` when `a` is unset, merges the two
/// when both are set.
pub fn merge_option<T: Merge>(a: &mut Option<T>, b: Option<T>)
    ensures
        opt_view(*final(a)) == merge_opt::<T>(opt_view(*old(a)), opt_view(b)),
{
    match b {
        None => {},
        Some(y) => {
            let cur = a.take();
            match cur {
                None => {
                    *a = Some(y);
                },
                Some(x) => {
                    let mut x = x;
                    x.merge_with(y);
                    *a = Some(x);
                },
            }
        },
    }
}

impl Merge for StringSet {
    open spec fn merge_spec(a: Seq<Seq<char>>, b: Seq<Seq<char>>) -> Seq<Seq<char>> {
        seq_union(a, b)
    }

    fn merge_with(&mut self, other: Self) {
        self.extend(other);
    }
}

} // verus!
