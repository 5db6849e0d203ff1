//! The configuration of import sorting.

use vstd::prelude::*;
use crate::merge::{merge_value, or_else, Merge};

verus! {

/// The configuration of import sorting, as far as it was written down.
#[derive(Clone, Debug, PartialEq, Eq)]
pub struct PartialOrganizeImports {
    /// Whether imports are sorted.
    pub enabled: Option<bool>,
}

/// The value of a [`PartialOrganizeImports`], with strings as character sequences.
pub struct PartialOrganizeImportsView {
    pub enabled: Option<bool>,
}

impl PartialOrganizeImportsView {
    /// Nothing is set.
    pub open spec fn empty() -> PartialOrganizeImportsView {
        PartialOrganizeImportsView {
            enabled: None,
        }
    }

    /// The merge of `a` with `b`: what `b` sets wins, nested values merge.
    pub open spec fn merge(a: PartialOrganizeImportsView, b: PartialOrganizeImportsView) -> PartialOrganizeImportsView {
        PartialOrganizeImportsView {
            enabled: or_else(a.enabled, b.enabled),
        }
    }
}

impl View for PartialOrganizeImports {
    type V = PartialOrganizeImportsView;

    open spec fn view(&self) -> PartialOrganizeImportsView {
        PartialOrganizeImportsView {
            enabled: self.enabled,
        }
    }
}

impl Default for PartialOrganizeImports {
    fn default() -> (r: PartialOrganizeImports)
        ensures
            r@ == PartialOrganizeImportsView::empty(),
    {
        PartialOrganizeImports {
            enabled: None,
        }
    }
}

impl Merge for PartialOrganizeImports {
    open spec fn merge_spec(a: PartialOrganizeImportsView, b: PartialOrganizeImportsView) -> PartialOrganizeImportsView {
        PartialOrganizeImportsView::merge(a, b)
    }

    fn merge_with(&mut self, other: Self) {
        let PartialOrganizeImports { enabled } = other;
        merge_value(&mut self.enabled, enabled);
    }
}

impl PartialOrganizeImports {
    /// Import sorting is disabled only where `enabled` is set to `false`.
    pub fn is_disabled(&self) -> (b: bool)
        ensures
            b == (self.enabled == Some(false)),
    {
        match self.enabled {
            Some(false) => true,
            _ => false,
        }
    }
}


impl PartialOrganizeImportsView {
    /// Everything that `self` sets is set the same way in `r`, and every
    /// entry of a set of `self` is an entry of the same set in `r`.
    pub open spec fn is_kept_in(self, r: PartialOrganizeImportsView) -> bool {
        &&& (self.enabled is Some ==> r.enabled == self.enabled)
    }

    /// What the second operand of a merge sets is kept in the merge.
    pub proof fn lemma_merge_keeps(a: PartialOrganizeImportsView, b: PartialOrganizeImportsView)
        ensures
            b.is_kept_in(PartialOrganizeImportsView::merge(a, b)),
    {
    }

    /// A value keeps what it sets itself.
    pub proof fn lemma_kept_in_self(a: PartialOrganizeImportsView)
        ensures
            a.is_kept_in(a),
    {
    }

    /// Merging with a value that sets nothing, on either side, changes
    /// nothing.
    pub proof fn lemma_merge_identity(a: PartialOrganizeImportsView)
        ensures
            PartialOrganizeImportsView::merge(PartialOrganizeImportsView::empty(), a) == a,
            PartialOrganizeImportsView::merge(a, PartialOrganizeImportsView::empty()) == a,
    {
    }

    /// Merging a value with itself changes nothing.
    pub proof fn lemma_merge_idempotent(a: PartialOrganizeImportsView)
        ensures
            PartialOrganizeImportsView::merge(a, a) == a,
    {
    }

    /// Merging is associative.
    pub proof fn lemma_merge_associative(a: PartialOrganizeImportsView, b: PartialOrganizeImportsView, c: PartialOrganizeImportsView)
        ensures
            PartialOrganizeImportsView::merge(PartialOrganizeImportsView::merge(a, b), c) == PartialOrganizeImportsView::merge(a, PartialOrganizeImportsView::merge(b, c)),
    {
    }
}

} // verus!
