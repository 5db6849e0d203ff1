//! The generic options of the formatter.

use vstd::prelude::*;
use crate::merge::{merge_value, or_else, Merge};

verus! {

/// The generic options of the formatter, as far as they were written down.
#[derive(Clone, Debug, PartialEq, Eq)]
pub struct PartialFormatterConfiguration {
    /// Whether the formatter is enabled.
    pub enabled: Option<bool>,
    /// The size of an indentation (deprecated, see `indent_width`).
    pub indent_size: Option<u8>,
    /// The width of an indentation.
    pub indent_width: Option<u8>,
}

/// The value of a [`PartialFormatterConfiguration`], with strings as character sequences.
pub struct PartialFormatterConfigurationView {
    pub enabled: Option<bool>,
    pub indent_size: Option<u8>,
    pub indent_width: Option<u8>,
}

impl PartialFormatterConfigurationView {
    /// Nothing is set.
    pub open spec fn empty() -> PartialFormatterConfigurationView {
        PartialFormatterConfigurationView {
            enabled: None,
            indent_size: None,
            indent_width: None,
        }
    }

    /// The merge of `a` with `b`: what `b` sets wins, nested values merge.
    pub open spec fn merge(a: PartialFormatterConfigurationView, b: PartialFormatterConfigurationView) -> PartialFormatterConfigurationView {
        PartialFormatterConfigurationView {
            enabled: or_else(a.enabled, b.enabled),
            indent_size: or_else(a.indent_size, b.indent_size),
            indent_width: or_else(a.indent_width, b.indent_width),
        }
    }
}

impl View for PartialFormatterConfiguration {
    type V = PartialFormatterConfigurationView;

    open spec fn view(&self) -> PartialFormatterConfigurationView {
        PartialFormatterConfigurationView {
            enabled: self.enabled,
            indent_size: self.indent_size,
            indent_width: self.indent_width,
        }
    }
}

impl Default for PartialFormatterConfiguration {
    fn default() -> (r: PartialFormatterConfiguration)
        ensures
            r@ == PartialFormatterConfigurationView::empty(),
    {
        PartialFormatterConfiguration {
            enabled: None,
            indent_size: None,
            indent_width: None,
        }
    }
}

impl Merge for PartialFormatterConfiguration {
    open spec fn merge_spec(a: PartialFormatterConfigurationView, b: PartialFormatterConfigurationView) -> PartialFormatterConfigurationView {
        PartialFormatterConfigurationView::merge(a, b)
    }

    fn merge_with(&mut self, other: Self) {
        let PartialFormatterConfiguration { enabled, indent_size, indent_width } = other;
        merge_value(&mut self.enabled, enabled);
        merge_value(&mut self.indent_size, indent_size);
        merge_value(&mut self.indent_width, indent_width);
    }
}

impl PartialFormatterConfiguration {
    /// The formatter is disabled only where `enabled` is set to `false`.
    pub fn is_disabled(&self) -> (b: bool)
        ensures
            b == (self.enabled == Some(false)),
    {
        match self.enabled {
            Some(false) => true,
            _ => false,
        }
    }
}


impl PartialFormatterConfigurationView {
    /// Everything that `self` sets is set the same way in `r`, and every
    /// entry of a set of `self` is an entry of the same set in `r`.
    pub open spec fn is_kept_in(self, r: PartialFormatterConfigurationView) -> bool {
        &&& (self.enabled is Some ==> r.enabled == self.enabled)
        &&& (self.indent_size is Some ==> r.indent_size == self.indent_size)
        &&& (self.indent_width is Some ==> r.indent_width == self.indent_width)
    }

    /// What the second operand of a merge sets is kept in the merge.
    pub proof fn lemma_merge_keeps(a: PartialFormatterConfigurationView, b: PartialFormatterConfigurationView)
        ensures
            b.is_kept_in(PartialFormatterConfigurationView::merge(a, b)),
    {
    }

    /// A value keeps what it sets itself.
    pub proof fn lemma_kept_in_self(a: PartialFormatterConfigurationView)
        ensures
            a.is_kept_in(a),
    {
    }

    /// Merging with a value that sets nothing, on either side, changes
    /// nothing.
    pub proof fn lemma_merge_identity(a: PartialFormatterConfigurationView)
        ensures
            PartialFormatterConfigurationView::merge(PartialFormatterConfigurationView::empty(), a) == a,
            PartialFormatterConfigurationView::merge(a, PartialFormatterConfigurationView::empty()) == a,
    {
    }

    /// Merging a value with itself changes nothing.
    pub proof fn lemma_merge_idempotent(a: PartialFormatterConfigurationView)
        ensures
            PartialFormatterConfigurationView::merge(a, a) == a,
    {
    }

    /// Merging is associative.
    pub proof fn lemma_merge_associative(a: PartialFormatterConfigurationView, b: PartialFormatterConfigurationView, c: PartialFormatterConfigurationView)
        ensures
            PartialFormatterConfigurationView::merge(PartialFormatterConfigurationView::merge(a, b), c) == PartialFormatterConfigurationView::merge(a, PartialFormatterConfigurationView::merge(b, c)),
    {
    }
}

} // verus!
