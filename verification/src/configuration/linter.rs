//! The configuration of the linter.

use vstd::prelude::*;
use crate::merge::{merge_option, merge_opt, merge_value, opt_view, or_else, Merge};

verus! {

/// The rules of the linter, as far as they were written down.
#[derive(Clone, Debug, PartialEq, Eq)]
pub struct Rules {
    /// Whether the recommended rules are enabled.
    pub recommended: Option<bool>,
    /// Whether all rules are enabled.
    pub all: Option<bool>,
}

/// The value of a [`Rules`], with strings as character sequences.
pub struct RulesView {
    pub recommended: Option<bool>,
    pub all: Option<bool>,
}

impl RulesView {
    /// Nothing is set.
    pub open spec fn empty() -> RulesView {
        RulesView {
            recommended: None,
            all: None,
        }
    }

    /// The merge of `a` with `b`: what `b` sets wins, nested values merge.
    pub open spec fn merge(a: RulesView, b: RulesView) -> RulesView {
        RulesView {
            recommended: or_else(a.recommended, b.recommended),
            all: or_else(a.all, b.all),
        }
    }
}

impl View for Rules {
    type V = RulesView;

    open spec fn view(&self) -> RulesView {
        RulesView {
            recommended: self.recommended,
            all: self.all,
        }
    }
}

impl Default for Rules {
    fn default() -> (r: Rules)
        ensures
            r@ == RulesView::empty(),
    {
        Rules {
            recommended: None,
            all: None,
        }
    }
}

impl Merge for Rules {
    open spec fn merge_spec(a: RulesView, b: RulesView) -> RulesView {
        RulesView::merge(a, b)
    }

    fn merge_with(&mut self, other: Self) {
        let Rules { recommended, all } = other;
        merge_value(&mut self.recommended, recommended);
        merge_value(&mut self.all, all);
    }
}

/// The configuration of the linter, as far as it was written down.
#[derive(Clone, Debug, PartialEq, Eq)]
pub struct PartialLinterConfiguration {
    /// Whether the linter is enabled.
    pub enabled: Option<bool>,
    /// The rules of the linter.
    pub rules: Option<Rules>,
}

/// The value of a [`PartialLinterConfiguration`], with strings as character sequences.
pub struct PartialLinterConfigurationView {
    pub enabled: Option<bool>,
    pub rules: Option<RulesView>,
}

impl PartialLinterConfigurationView {
    /// Nothing is set.
    pub open spec fn empty() -> PartialLinterConfigurationView {
        PartialLinterConfigurationView {
            enabled: None,
            rules: None,
        }
    }

    /// The merge of `a` with `b`: what `b` sets wins, nested values merge.
    pub open spec fn merge(a: PartialLinterConfigurationView, b: PartialLinterConfigurationView) -> PartialLinterConfigurationView {
        PartialLinterConfigurationView {
            enabled: or_else(a.enabled, b.enabled),
            rules: merge_opt::<Rules>(a.rules, b.rules),
        }
    }
}

impl View for PartialLinterConfiguration {
    type V = PartialLinterConfigurationView;

    open spec fn view(&self) -> PartialLinterConfigurationView {
        PartialLinterConfigurationView {
            enabled: self.enabled,
            rules: opt_view(self.rules),
        }
    }
}

impl Default for PartialLinterConfiguration {
    fn default() -> (r: PartialLinterConfiguration)
        ensures
            r@ == PartialLinterConfigurationView::empty(),
    {
        PartialLinterConfiguration {
            enabled: None,
            rules: None,
        }
    }
}

impl Merge for PartialLinterConfiguration {
    open spec fn merge_spec(a: PartialLinterConfigurationView, b: PartialLinterConfigurationView) -> PartialLinterConfigurationView {
        PartialLinterConfigurationView::merge(a, b)
    }

    fn merge_with(&mut self, other: Self) {
        let PartialLinterConfiguration { enabled, rules } = other;
        merge_value(&mut self.enabled, enabled);
        merge_option(&mut self.rules, rules);
    }
}

impl PartialLinterConfiguration {
    /// The linter is disabled only where `enabled` is set to `false`.
    pub fn is_disabled(&self) -> (b: bool)
        ensures
            b == (self.enabled == Some(false)),
    {
        match self.enabled {
            Some(false) => true,
            _ => false,
        }
    }
}


impl RulesView {
    /// Everything that `self` sets is set the same way in `r`, and every
    /// entry of a set of `self` is an entry of the same set in `r`.
    pub open spec fn is_kept_in(self, r: RulesView) -> bool {
        &&& (self.recommended is Some ==> r.recommended == self.recommended)
        &&& (self.all is Some ==> r.all == self.all)
    }

    /// What the second operand of a merge sets is kept in the merge.
    pub proof fn lemma_merge_keeps(a: RulesView, b: RulesView)
        ensures
            b.is_kept_in(RulesView::merge(a, b)),
    {
    }

    /// A value keeps what it sets itself.
    pub proof fn lemma_kept_in_self(a: RulesView)
        ensures
            a.is_kept_in(a),
    {
    }

    /// Merging with a value that sets nothing, on either side, changes
    /// nothing.
    pub proof fn lemma_merge_identity(a: RulesView)
        ensures
            RulesView::merge(RulesView::empty(), a) == a,
            RulesView::merge(a, RulesView::empty()) == a,
    {
    }

    /// Merging a value with itself changes nothing.
    pub proof fn lemma_merge_idempotent(a: RulesView)
        ensures
            RulesView::merge(a, a) == a,
    {
    }

    /// Merging is associative.
    pub proof fn lemma_merge_associative(a: RulesView, b: RulesView, c: RulesView)
        ensures
            RulesView::merge(RulesView::merge(a, b), c) == RulesView::merge(a, RulesView::merge(b, c)),
    {
    }
}


impl PartialLinterConfigurationView {
    /// Everything that `self` sets is set the same way in `r`, and every
    /// entry of a set of `self` is an entry of the same set in `r`.
    pub open spec fn is_kept_in(self, r: PartialLinterConfigurationView) -> bool {
        &&& (self.enabled is Some ==> r.enabled == self.enabled)
        &&& (self.rules matches Some(s) ==> (r.rules matches Some(q) && s.is_kept_in(q)))
    }

    /// What the second operand of a merge sets is kept in the merge.
    pub proof fn lemma_merge_keeps(a: PartialLinterConfigurationView, b: PartialLinterConfigurationView)
        ensures
            b.is_kept_in(PartialLinterConfigurationView::merge(a, b)),
    {
        if a.rules is Some && b.rules is Some {
            RulesView::lemma_merge_keeps(a.rules.unwrap(), b.rules.unwrap());
        }
        if b.rules is Some {
            RulesView::lemma_kept_in_self(b.rules.unwrap());
        }
    }

    /// A value keeps what it sets itself.
    pub proof fn lemma_kept_in_self(a: PartialLinterConfigurationView)
        ensures
            a.is_kept_in(a),
    {
        if a.rules is Some {
            RulesView::lemma_kept_in_self(a.rules.unwrap());
        }
    }

    /// Merging with a value that sets nothing, on either side, changes
    /// nothing.
    pub proof fn lemma_merge_identity(a: PartialLinterConfigurationView)
        ensures
            PartialLinterConfigurationView::merge(PartialLinterConfigurationView::empty(), a) == a,
            PartialLinterConfigurationView::merge(a, PartialLinterConfigurationView::empty()) == a,
    {
    }

    /// Merging a value with itself changes nothing.
    pub proof fn lemma_merge_idempotent(a: PartialLinterConfigurationView)
        ensures
            PartialLinterConfigurationView::merge(a, a) == a,
    {
        if a.rules is Some {
            RulesView::lemma_merge_idempotent(a.rules.unwrap());
        }
    }

    /// Merging is associative.
    pub proof fn lemma_merge_associative(a: PartialLinterConfigurationView, b: PartialLinterConfigurationView, c: PartialLinterConfigurationView)
        ensures
            PartialLinterConfigurationView::merge(PartialLinterConfigurationView::merge(a, b), c) == PartialLinterConfigurationView::merge(a, PartialLinterConfigurationView::merge(b, c)),
    {
        if a.rules is Some && b.rules is Some && c.rules is Some {
            RulesView::lemma_merge_associative(a.rules.unwrap(), b.rules.unwrap(), c.rules.unwrap());
        }
    }
}

} // verus!
