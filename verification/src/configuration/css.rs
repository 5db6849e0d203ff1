//! The configuration of the CSS language.

use vstd::prelude::*;
use crate::merge::{merge_option, merge_opt, merge_value, opt_view, or_else, Merge};

verus! {

/// The options of the CSS formatter, as far as they were written down.
#[derive(Clone, Debug, PartialEq, Eq)]
pub struct PartialCssFormatter {
    /// The size of an indentation (deprecated, see `indent_width`).
    pub indent_size: Option<u8>,
    /// The width of an indentation.
    pub indent_width: Option<u8>,
}

/// The value of a [`PartialCssFormatter`], with strings as character sequences.
pub struct PartialCssFormatterView {
    pub indent_size: Option<u8>,
    pub indent_width: Option<u8>,
}

impl PartialCssFormatterView {
    /// Nothing is set.
    pub open spec fn empty() -> PartialCssFormatterView {
        PartialCssFormatterView {
            indent_size: None,
            indent_width: None,
        }
    }

    /// The merge of `a` with `b`: what `b` sets wins, nested values merge.
    pub open spec fn merge(a: PartialCssFormatterView, b: PartialCssFormatterView) -> PartialCssFormatterView {
        PartialCssFormatterView {
            indent_size: or_else(a.indent_size, b.indent_size),
            indent_width: or_else(a.indent_width, b.indent_width),
        }
    }
}

impl View for PartialCssFormatter {
    type V = PartialCssFormatterView;

    open spec fn view(&self) -> PartialCssFormatterView {
        PartialCssFormatterView {
            indent_size: self.indent_size,
            indent_width: self.indent_width,
        }
    }
}

impl Default for PartialCssFormatter {
    fn default() -> (r: PartialCssFormatter)
        ensures
            r@ == PartialCssFormatterView::empty(),
    {
        PartialCssFormatter {
            indent_size: None,
            indent_width: None,
        }
    }
}

impl Merge for PartialCssFormatter {
    open spec fn merge_spec(a: PartialCssFormatterView, b: PartialCssFormatterView) -> PartialCssFormatterView {
        PartialCssFormatterView::merge(a, b)
    }

    fn merge_with(&mut self, other: Self) {
        let PartialCssFormatter { indent_size, indent_width } = other;
        merge_value(&mut self.indent_size, indent_size);
        merge_value(&mut self.indent_width, indent_width);
    }
}

/// The configuration of the CSS language, as far as it was written down.
#[derive(Clone, Debug, PartialEq, Eq)]
pub struct PartialCssConfiguration {
    /// The options of the CSS formatter.
    pub formatter: Option<PartialCssFormatter>,
}

/// The value of a [`PartialCssConfiguration`], with strings as character sequences.
pub struct PartialCssConfigurationView {
    pub formatter: Option<PartialCssFormatterView>,
}

impl PartialCssConfigurationView {
    /// Nothing is set.
    pub open spec fn empty() -> PartialCssConfigurationView {
        PartialCssConfigurationView {
            formatter: None,
        }
    }

    /// The merge of `a` with `b`: what `b` sets wins, nested values merge.
    pub open spec fn merge(a: PartialCssConfigurationView, b: PartialCssConfigurationView) -> PartialCssConfigurationView {
        PartialCssConfigurationView {
            formatter: merge_opt::<PartialCssFormatter>(a.formatter, b.formatter),
        }
    }
}

impl View for PartialCssConfiguration {
    type V = PartialCssConfigurationView;

    open spec fn view(&self) -> PartialCssConfigurationView {
        PartialCssConfigurationView {
            formatter: opt_view(self.formatter),
        }
    }
}

impl Default for PartialCssConfiguration {
    fn default() -> (r: PartialCssConfiguration)
        ensures
            r@ == PartialCssConfigurationView::empty(),
    {
        PartialCssConfiguration {
            formatter: None,
        }
    }
}

impl Merge for PartialCssConfiguration {
    open spec fn merge_spec(a: PartialCssConfigurationView, b: PartialCssConfigurationView) -> PartialCssConfigurationView {
        PartialCssConfigurationView::merge(a, b)
    }

    fn merge_with(&mut self, other: Self) {
        let PartialCssConfiguration { formatter } = other;
        merge_option(&mut self.formatter, formatter);
    }
}


impl PartialCssFormatterView {
    /// Everything that `self` sets is set the same way in `r`, and every
    /// entry of a set of `self` is an entry of the same set in `r`.
    pub open spec fn is_kept_in(self, r: PartialCssFormatterView) -> bool {
        &&& (self.indent_size is Some ==> r.indent_size == self.indent_size)
        &&& (self.indent_width is Some ==> r.indent_width == self.indent_width)
    }

    /// What the second operand of a merge sets is kept in the merge.
    pub proof fn lemma_merge_keeps(a: PartialCssFormatterView, b: PartialCssFormatterView)
        ensures
            b.is_kept_in(PartialCssFormatterView::merge(a, b)),
    {
    }

    /// A value keeps what it sets itself.
    pub proof fn lemma_kept_in_self(a: PartialCssFormatterView)
        ensures
            a.is_kept_in(a),
    {
    }

    /// Merging with a value that sets nothing, on either side, changes
    /// nothing.
    pub proof fn lemma_merge_identity(a: PartialCssFormatterView)
        ensures
            PartialCssFormatterView::merge(PartialCssFormatterView::empty(), a) == a,
            PartialCssFormatterView::merge(a, PartialCssFormatterView::empty()) == a,
    {
    }

    /// Merging a value with itself changes nothing.
    pub proof fn lemma_merge_idempotent(a: PartialCssFormatterView)
        ensures
            PartialCssFormatterView::merge(a, a) == a,
    {
    }

    /// Merging is associative.
    pub proof fn lemma_merge_associative(a: PartialCssFormatterView, b: PartialCssFormatterView, c: PartialCssFormatterView)
        ensures
            PartialCssFormatterView::merge(PartialCssFormatterView::merge(a, b), c) == PartialCssFormatterView::merge(a, PartialCssFormatterView::merge(b, c)),
    {
    }
}


impl PartialCssConfigurationView {
    /// Everything that `self` sets is set the same way in `r`, and every
    /// entry of a set of `self` is an entry of the same set in `r`.
    pub open spec fn is_kept_in(self, r: PartialCssConfigurationView) -> bool {
        &&& (self.formatter matches Some(s) ==> (r.formatter matches Some(q) && s.is_kept_in(q)))
    }

    /// What the second operand of a merge sets is kept in the merge.
    pub proof fn lemma_merge_keeps(a: PartialCssConfigurationView, b: PartialCssConfigurationView)
        ensures
            b.is_kept_in(PartialCssConfigurationView::merge(a, b)),
    {
        if a.formatter is Some && b.formatter is Some {
            PartialCssFormatterView::lemma_merge_keeps(a.formatter.unwrap(), b.formatter.unwrap());
        }
        if b.formatter is Some {
            PartialCssFormatterView::lemma_kept_in_self(b.formatter.unwrap());
        }
    }

    /// A value keeps what it sets itself.
    pub proof fn lemma_kept_in_self(a: PartialCssConfigurationView)
        ensures
            a.is_kept_in(a),
    {
        if a.formatter is Some {
            PartialCssFormatterView::lemma_kept_in_self(a.formatter.unwrap());
        }
    }

    /// Merging with a value that sets nothing, on either side, changes
    /// nothing.
    pub proof fn lemma_merge_identity(a: PartialCssConfigurationView)
        ensures
            PartialCssConfigurationView::merge(PartialCssConfigurationView::empty(), a) == a,
            PartialCssConfigurationView::merge(a, PartialCssConfigurationView::empty()) == a,
    {
    }

    /// Merging a value with itself changes nothing.
    pub proof fn lemma_merge_idempotent(a: PartialCssConfigurationView)
        ensures
            PartialCssConfigurationView::merge(a, a) == a,
    {
        if a.formatter is Some {
            PartialCssFormatterView::lemma_merge_idempotent(a.formatter.unwrap());
        }
    }

    /// Merging is associative.
    pub proof fn lemma_merge_associative(a: PartialCssConfigurationView, b: PartialCssConfigurationView, c: PartialCssConfigurationView)
        ensures
            PartialCssConfigurationView::merge(PartialCssConfigurationView::merge(a, b), c) == PartialCssConfigurationView::merge(a, PartialCssConfigurationView::merge(b, c)),
    {
        if a.formatter is Some && b.formatter is Some && c.formatter is Some {
            PartialCssFormatterView::lemma_merge_associative(a.formatter.unwrap(), b.formatter.unwrap(), c.formatter.unwrap());
        }
    }
}

} // verus!
