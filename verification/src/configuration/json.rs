//! The configuration of the JSON language.

use vstd::prelude::*;
use crate::merge::{merge_option, merge_opt, merge_value, opt_view, or_else, Merge};

verus! {

/// The options of the JSON formatter, as far as they were written down.
#[derive(Clone, Debug, PartialEq, Eq)]
pub struct PartialJsonFormatter {
    /// The size of an indentation (deprecated, see `indent_width`).
    pub indent_size: Option<u8>,
    /// The width of an indentation.
    pub indent_width: Option<u8>,
}

/// The value of a [`PartialJsonFormatter`], with strings as character sequences.
pub struct PartialJsonFormatterView {
    pub indent_size: Option<u8>,
    pub indent_width: Option<u8>,
}

impl PartialJsonFormatterView {
    /// Nothing is set.
    pub open spec fn empty() -> PartialJsonFormatterView {
        PartialJsonFormatterView {
            indent_size: None,
            indent_width: None,
        }
    }

    /// The merge of `a` with `b`: what `b` sets wins, nested values merge.
    pub open spec fn merge(a: PartialJsonFormatterView, b: PartialJsonFormatterView) -> PartialJsonFormatterView {
        PartialJsonFormatterView {
            indent_size: or_else(a.indent_size, b.indent_size),
            indent_width: or_else(a.indent_width, b.indent_width),
        }
    }
}

impl View for PartialJsonFormatter {
    type V = PartialJsonFormatterView;

    open spec fn view(&self) -> PartialJsonFormatterView {
        PartialJsonFormatterView {
            indent_size: self.indent_size,
            indent_width: self.indent_width,
        }
    }
}

impl Default for PartialJsonFormatter {
    fn default() -> (r: PartialJsonFormatter)
        ensures
            r@ == PartialJsonFormatterView::empty(),
    {
        PartialJsonFormatter {
            indent_size: None,
            indent_width: None,
        }
    }
}

impl Merge for PartialJsonFormatter {
    open spec fn merge_spec(a: PartialJsonFormatterView, b: PartialJsonFormatterView) -> PartialJsonFormatterView {
        PartialJsonFormatterView::merge(a, b)
    }

    fn merge_with(&mut self, other: Self) {
        let PartialJsonFormatter { indent_size, indent_width } = other;
        merge_value(&mut self.indent_size, indent_size);
        merge_value(&mut self.indent_width, indent_width);
    }
}

/// The configuration of the JSON language, as far as it was written down.
#[derive(Clone, Debug, PartialEq, Eq)]
pub struct PartialJsonConfiguration {
    /// The options of the JSON formatter.
    pub formatter: Option<PartialJsonFormatter>,
}

/// The value of a [`PartialJsonConfiguration`], with strings as character sequences.
pub struct PartialJsonConfigurationView {
    pub formatter: Option<PartialJsonFormatterView>,
}

impl PartialJsonConfigurationView {
    /// Nothing is set.
    pub open spec fn empty() -> PartialJsonConfigurationView {
        PartialJsonConfigurationView {
            formatter: None,
        }
    }

    /// The merge of `a` with `b`: what `b` sets wins, nested values merge.
    pub open spec fn merge(a: PartialJsonConfigurationView, b: PartialJsonConfigurationView) -> PartialJsonConfigurationView {
        PartialJsonConfigurationView {
            formatter: merge_opt::<PartialJsonFormatter>(a.formatter, b.formatter),
        }
    }
}

impl View for PartialJsonConfiguration {
    type V = PartialJsonConfigurationView;

    open spec fn view(&self) -> PartialJsonConfigurationView {
        PartialJsonConfigurationView {
            formatter: opt_view(self.formatter),
        }
    }
}

impl Default for PartialJsonConfiguration {
    fn default() -> (r: PartialJsonConfiguration)
        ensures
            r@ == PartialJsonConfigurationView::empty(),
    {
        PartialJsonConfiguration {
            formatter: None,
        }
    }
}

impl Merge for PartialJsonConfiguration {
    open spec fn merge_spec(a: PartialJsonConfigurationView, b: PartialJsonConfigurationView) -> PartialJsonConfigurationView {
        PartialJsonConfigurationView::merge(a, b)
    }

    fn merge_with(&mut self, other: Self) {
        let PartialJsonConfiguration { formatter } = other;
        merge_option(&mut self.formatter, formatter);
    }
}


impl PartialJsonFormatterView {
    /// Everything that `self` sets is set the same way in `r`, and every
    /// entry of a set of `self` is an entry of the same set in `r`.
    pub open spec fn is_kept_in(self, r: PartialJsonFormatterView) -> bool {
        &&& (self.indent_size is Some ==> r.indent_size == self.indent_size)
        &&& (self.indent_width is Some ==> r.indent_width == self.indent_width)
    }

    /// What the second operand of a merge sets is kept in the merge.
    pub proof fn lemma_merge_keeps(a: PartialJsonFormatterView, b: PartialJsonFormatterView)
        ensures
            b.is_kept_in(PartialJsonFormatterView::merge(a, b)),
    {
    }

    /// A value keeps what it sets itself.
    pub proof fn lemma_kept_in_self(a: PartialJsonFormatterView)
        ensures
            a.is_kept_in(a),
    {
    }

    /// Merging with a value that sets nothing, on either side, changes
    /// nothing.
    pub proof fn lemma_merge_identity(a: PartialJsonFormatterView)
        ensures
            PartialJsonFormatterView::merge(PartialJsonFormatterView::empty(), a) == a,
            PartialJsonFormatterView::merge(a, PartialJsonFormatterView::empty()) == a,
    {
    }

    /// Merging a value with itself changes nothing.
    pub proof fn lemma_merge_idempotent(a: PartialJsonFormatterView)
        ensures
            PartialJsonFormatterView::merge(a, a) == a,
    {
    }

    /// Merging is associative.
    pub proof fn lemma_merge_associative(a: PartialJsonFormatterView, b: PartialJsonFormatterView, c: PartialJsonFormatterView)
        ensures
            PartialJsonFormatterView::merge(PartialJsonFormatterView::merge(a, b), c) == PartialJsonFormatterView::merge(a, PartialJsonFormatterView::merge(b, c)),
    {
    }
}


impl PartialJsonConfigurationView {
    /// Everything that `self` sets is set the same way in `r`, and every
    /// entry of a set of `self` is an entry of the same set in `r`.
    pub open spec fn is_kept_in(self, r: PartialJsonConfigurationView) -> bool {
        &&& (self.formatter matches Some(s) ==> (r.formatter matches Some(q) && s.is_kept_in(q)))
    }

    /// What the second operand of a merge sets is kept in the merge.
    pub proof fn lemma_merge_keeps(a: PartialJsonConfigurationView, b: PartialJsonConfigurationView)
        ensures
            b.is_kept_in(PartialJsonConfigurationView::merge(a, b)),
    {
        if a.formatter is Some && b.formatter is Some {
            PartialJsonFormatterView::lemma_merge_keeps(a.formatter.unwrap(), b.formatter.unwrap());
        }
        if b.formatter is Some {
            PartialJsonFormatterView::lemma_kept_in_self(b.formatter.unwrap());
        }
    }

    /// A value keeps what it sets itself.
    pub proof fn lemma_kept_in_self(a: PartialJsonConfigurationView)
        ensures
            a.is_kept_in(a),
    {
        if a.formatter is Some {
            PartialJsonFormatterView::lemma_kept_in_self(a.formatter.unwrap());
        }
    }

    /// Merging with a value that sets nothing, on either side, changes
    /// nothing.
    pub proof fn lemma_merge_identity(a: PartialJsonConfigurationView)
        ensures
            PartialJsonConfigurationView::merge(PartialJsonConfigurationView::empty(), a) == a,
            PartialJsonConfigurationView::merge(a, PartialJsonConfigurationView::empty()) == a,
    {
    }

    /// Merging a value with itself changes nothing.
    pub proof fn lemma_merge_idempotent(a: PartialJsonConfigurationView)
        ensures
            PartialJsonConfigurationView::merge(a, a) == a,
    {
        if a.formatter is Some {
            PartialJsonFormatterView::lemma_merge_idempotent(a.formatter.unwrap());
        }
    }

    /// Merging is associative.
    pub proof fn lemma_merge_associative(a: PartialJsonConfigurationView, b: PartialJsonConfigurationView, c: PartialJsonConfigurationView)
        ensures
            PartialJsonConfigurationView::merge(PartialJsonConfigurationView::merge(a, b), c) == PartialJsonConfigurationView::merge(a, PartialJsonConfigurationView::merge(b, c)),
    {
        if a.formatter is Some && b.formatter is Some && c.formatter is Some {
            PartialJsonFormatterView::lemma_merge_associative(a.formatter.unwrap(), b.formatter.unwrap(), c.formatter.unwrap());
        }
    }
}

} // verus!
