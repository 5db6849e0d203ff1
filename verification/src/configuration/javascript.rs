//! The configuration of the JavaScript language.

use vstd::prelude::*;
use crate::merge::{merge_option, merge_opt, merge_value, opt_view, or_else, Merge};

verus! {

/// The options of the JavaScript formatter, as far as they were written down.
#[derive(Clone, Debug, PartialEq, Eq)]
pub struct PartialJavascriptFormatter {
    /// The size of an indentation (deprecated, see `indent_width`).
    pub indent_size: Option<u8>,
    /// The width of an indentation.
    pub indent_width: Option<u8>,
}

/// The value of a [`PartialJavascriptFormatter`], with strings as character sequences.
pub struct PartialJavascriptFormatterView {
    pub indent_size: Option<u8>,
    pub indent_width: Option<u8>,
}

impl PartialJavascriptFormatterView {
    /// Nothing is set.
    pub open spec fn empty() -> PartialJavascriptFormatterView {
        PartialJavascriptFormatterView {
            indent_size: None,
            indent_width: None,
        }
    }

    /// The merge of `a` with `b`: what `b` sets wins, nested values merge.
    pub open spec fn merge(a: PartialJavascriptFormatterView, b: PartialJavascriptFormatterView) -> PartialJavascriptFormatterView {
        PartialJavascriptFormatterView {
            indent_size: or_else(a.indent_size, b.indent_size),
            indent_width: or_else(a.indent_width, b.indent_width),
        }
    }
}

impl View for PartialJavascriptFormatter {
    type V = PartialJavascriptFormatterView;

    open spec fn view(&self) -> PartialJavascriptFormatterView {
        PartialJavascriptFormatterView {
            indent_size: self.indent_size,
            indent_width: self.indent_width,
        }
    }
}

impl Default for PartialJavascriptFormatter {
    fn default() -> (r: PartialJavascriptFormatter)
        ensures
            r@ == PartialJavascriptFormatterView::empty(),
    {
        PartialJavascriptFormatter {
            indent_size: None,
            indent_width: None,
        }
    }
}

impl Merge for PartialJavascriptFormatter {
    open spec fn merge_spec(a: PartialJavascriptFormatterView, b: PartialJavascriptFormatterView) -> PartialJavascriptFormatterView {
        PartialJavascriptFormatterView::merge(a, b)
    }

    fn merge_with(&mut self, other: Self) {
        let PartialJavascriptFormatter { indent_size, indent_width } = other;
        merge_value(&mut self.indent_size, indent_size);
        merge_value(&mut self.indent_width, indent_width);
    }
}

/// The configuration of the JavaScript language, as far as it was written down.
#[derive(Clone, Debug, PartialEq, Eq)]
pub struct PartialJavascriptConfiguration {
    /// The options of the JavaScript formatter.
    pub formatter: Option<PartialJavascriptFormatter>,
}

/// The value of a [`PartialJavascriptConfiguration`], with strings as character sequences.
pub struct PartialJavascriptConfigurationView {
    pub formatter: Option<PartialJavascriptFormatterView>,
}

impl PartialJavascriptConfigurationView {
    /// Nothing is set.
    pub open spec fn empty() -> PartialJavascriptConfigurationView {
        PartialJavascriptConfigurationView {
            formatter: None,
        }
    }

    /// The merge of `a` with `b`: what `b` sets wins, nested values merge.
    pub open spec fn merge(a: PartialJavascriptConfigurationView, b: PartialJavascriptConfigurationView) -> PartialJavascriptConfigurationView {
        PartialJavascriptConfigurationView {
            formatter: merge_opt::<PartialJavascriptFormatter>(a.formatter, b.formatter),
        }
    }
}

impl View for PartialJavascriptConfiguration {
    type V = PartialJavascriptConfigurationView;

    open spec fn view(&self) -> PartialJavascriptConfigurationView {
        PartialJavascriptConfigurationView {
            formatter: opt_view(self.formatter),
        }
    }
}

impl Default for PartialJavascriptConfiguration {
    fn default() -> (r: PartialJavascriptConfiguration)
        ensures
            r@ == PartialJavascriptConfigurationView::empty(),
    {
        PartialJavascriptConfiguration {
            formatter: None,
        }
    }
}

impl Merge for PartialJavascriptConfiguration {
    open spec fn merge_spec(a: PartialJavascriptConfigurationView, b: PartialJavascriptConfigurationView) -> PartialJavascriptConfigurationView {
        PartialJavascriptConfigurationView::merge(a, b)
    }

    fn merge_with(&mut self, other: Self) {
        let PartialJavascriptConfiguration { formatter } = other;
        merge_option(&mut self.formatter, formatter);
    }
}


impl PartialJavascriptFormatterView {
    /// Everything that `self` sets is set the same way in `r`, and every
    /// entry of a set of `self` is an entry of the same set in `r`.
    pub open spec fn is_kept_in(self, r: PartialJavascriptFormatterView) -> bool {
        &&& (self.indent_size is Some ==> r.indent_size == self.indent_size)
        &&& (self.indent_width is Some ==> r.indent_width == self.indent_width)
    }

    /// What the second operand of a merge sets is kept in the merge.
    pub proof fn lemma_merge_keeps(a: PartialJavascriptFormatterView, b: PartialJavascriptFormatterView)
        ensures
            b.is_kept_in(PartialJavascriptFormatterView::merge(a, b)),
    {
    }

    /// A value keeps what it sets itself.
    pub proof fn lemma_kept_in_self(a: PartialJavascriptFormatterView)
        ensures
            a.is_kept_in(a),
    {
    }

    /// Merging with a value that sets nothing, on either side, changes
    /// nothing.
    pub proof fn lemma_merge_identity(a: PartialJavascriptFormatterView)
        ensures
            PartialJavascriptFormatterView::merge(PartialJavascriptFormatterView::empty(), a) == a,
            PartialJavascriptFormatterView::merge(a, PartialJavascriptFormatterView::empty()) == a,
    {
    }

    /// Merging a value with itself changes nothing.
    pub proof fn lemma_merge_idempotent(a: PartialJavascriptFormatterView)
        ensures
            PartialJavascriptFormatterView::merge(a, a) == a,
    {
    }

    /// Merging is associative.
    pub proof fn lemma_merge_associative(a: PartialJavascriptFormatterView, b: PartialJavascriptFormatterView, c: PartialJavascriptFormatterView)
        ensures
            PartialJavascriptFormatterView::merge(PartialJavascriptFormatterView::merge(a, b), c) == PartialJavascriptFormatterView::merge(a, PartialJavascriptFormatterView::merge(b, c)),
    {
    }
}


impl PartialJavascriptConfigurationView {
    /// Everything that `self` sets is set the same way in `r`, and every
    /// entry of a set of `self` is an entry of the same set in `r`.
    pub open spec fn is_kept_in(self, r: PartialJavascriptConfigurationView) -> bool {
        &&& (self.formatter matches Some(s) ==> (r.formatter matches Some(q) && s.is_kept_in(q)))
    }

    /// What the second operand of a merge sets is kept in the merge.
    pub proof fn lemma_merge_keeps(a: PartialJavascriptConfigurationView, b: PartialJavascriptConfigurationView)
        ensures
            b.is_kept_in(PartialJavascriptConfigurationView::merge(a, b)),
    {
        if a.formatter is Some && b.formatter is Some {
            PartialJavascriptFormatterView::lemma_merge_keeps(a.formatter.unwrap(), b.formatter.unwrap());
        }
        if b.formatter is Some {
            PartialJavascriptFormatterView::lemma_kept_in_self(b.formatter.unwrap());
        }
    }

    /// A value keeps what it sets itself.
    pub proof fn lemma_kept_in_self(a: PartialJavascriptConfigurationView)
        ensures
            a.is_kept_in(a),
    {
        if a.formatter is Some {
            PartialJavascriptFormatterView::lemma_kept_in_self(a.formatter.unwrap());
        }
    }

    /// Merging with a value that sets nothing, on either side, changes
    /// nothing.
    pub proof fn lemma_merge_identity(a: PartialJavascriptConfigurationView)
        ensures
            PartialJavascriptConfigurationView::merge(PartialJavascriptConfigurationView::empty(), a) == a,
            PartialJavascriptConfigurationView::merge(a, PartialJavascriptConfigurationView::empty()) == a,
    {
    }

    /// Merging a value with itself changes nothing.
    pub proof fn lemma_merge_idempotent(a: PartialJavascriptConfigurationView)
        ensures
            PartialJavascriptConfigurationView::merge(a, a) == a,
    {
        if a.formatter is Some {
            PartialJavascriptFormatterView::lemma_merge_idempotent(a.formatter.unwrap());
        }
    }

    /// Merging is associative.
    pub proof fn lemma_merge_associative(a: PartialJavascriptConfigurationView, b: PartialJavascriptConfigurationView, c: PartialJavascriptConfigurationView)
        ensures
            PartialJavascriptConfigurationView::merge(PartialJavascriptConfigurationView::merge(a, b), c) == PartialJavascriptConfigurationView::merge(a, PartialJavascriptConfigurationView::merge(b, c)),
    {
        if a.formatter is Some && b.formatter is Some && c.formatter is Some {
            PartialJavascriptFormatterView::lemma_merge_associative(a.formatter.unwrap(), b.formatter.unwrap(), c.formatter.unwrap());
        }
    }
}

} // verus!
