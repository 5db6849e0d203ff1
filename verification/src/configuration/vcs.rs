//! The configuration of the VCS integration.

use vstd::prelude::*;
use crate::merge::{merge_string, merge_value, opt_view, or_else, Merge};

verus! {

/// The kind of VCS client.
#[derive(Clone, Copy, Debug, PartialEq, Eq, Structural)]
pub enum VcsClientKind {
    /// Git and its `.gitignore` file.
    Git,
}

/// The name of the ignore file of a client.
pub open spec fn ignore_file_name(kind: VcsClientKind) -> Seq<char> {
    match kind {
        VcsClientKind::Git => ".gitignore"@,
    }
}

impl VcsClientKind {
    /// The name of the file where the client lists what it ignores.
    pub fn ignore_file(&self) -> (name: String)
        ensures
            name@ == ignore_file_name(*self),
    {
        match self {
            VcsClientKind::Git => String::from_str(".gitignore"),
        }
    }
}

/// The configuration of the VCS integration, as far as it was written down.
#[derive(Clone, Debug, PartialEq, Eq)]
pub struct PartialVcsConfiguration {
    /// Whether the VCS integration is enabled.
    pub enabled: Option<bool>,
    /// The kind of client.
    pub client_kind: Option<VcsClientKind>,
    /// Whether the ignore file of the client is read.
    pub use_ignore_file: Option<bool>,
    /// The folder where the VCS root is, relative to the base path.
    pub root: Option<String>,
}

/// The value of a [`PartialVcsConfiguration`], with strings as character sequences.
pub struct PartialVcsConfigurationView {
    pub enabled: Option<bool>,
    pub client_kind: Option<VcsClientKind>,
    pub use_ignore_file: Option<bool>,
    pub root: Option<Seq<char>>,
}

impl PartialVcsConfigurationView {
    /// Nothing is set.
    pub open spec fn empty() -> PartialVcsConfigurationView {
        PartialVcsConfigurationView {
            enabled: None,
            client_kind: None,
            use_ignore_file: None,
            root: None,
        }
    }

    /// The merge of `a` with `b`: what `b` sets wins, nested values merge.
    pub open spec fn merge(a: PartialVcsConfigurationView, b: PartialVcsConfigurationView) -> PartialVcsConfigurationView {
        PartialVcsConfigurationView {
            enabled: or_else(a.enabled, b.enabled),
            client_kind: or_else(a.client_kind, b.client_kind),
            use_ignore_file: or_else(a.use_ignore_file, b.use_ignore_file),
            root: or_else(a.root, b.root),
        }
    }
}

impl View for PartialVcsConfiguration {
    type V = PartialVcsConfigurationView;

    open spec fn view(&self) -> PartialVcsConfigurationView {
        PartialVcsConfigurationView {
            enabled: self.enabled,
            client_kind: self.client_kind,
            use_ignore_file: self.use_ignore_file,
            root: opt_view(self.root),
        }
    }
}

impl Default for PartialVcsConfiguration {
    fn default() -> (r: PartialVcsConfiguration)
        ensures
            r@ == PartialVcsConfigurationView::empty(),
    {
        PartialVcsConfiguration {
            enabled: None,
            client_kind: None,
            use_ignore_file: None,
            root: None,
        }
    }
}

impl Merge for PartialVcsConfiguration {
    open spec fn merge_spec(a: PartialVcsConfigurationView, b: PartialVcsConfigurationView) -> PartialVcsConfigurationView {
        PartialVcsConfigurationView::merge(a, b)
    }

    fn merge_with(&mut self, other: Self) {
        let PartialVcsConfiguration { enabled, client_kind, use_ignore_file, root } = other;
        merge_value(&mut self.enabled, enabled);
        merge_value(&mut self.client_kind, client_kind);
        merge_value(&mut self.use_ignore_file, use_ignore_file);
        merge_string(&mut self.root, root);
    }
}

impl PartialVcsConfiguration {
    /// The integration is enabled only where `enabled` is set to `true`.
    pub fn is_enabled(&self) -> (b: bool)
        ensures
            b == (self.enabled == Some(true)),
    {
        match self.enabled {
            Some(true) => true,
            _ => false,
        }
    }

    /// The integration is disabled unless it is enabled.
    pub fn is_disabled(&self) -> (b: bool)
        ensures
            b == (self.enabled != Some(true)),
    {
        !self.is_enabled()
    }

    /// The ignore file is skipped only where `use_ignore_file` is `false`.
    pub fn ignore_file_disabled(&self) -> (b: bool)
        ensures
            b == (self.use_ignore_file == Some(false)),
    {
        match self.use_ignore_file {
            Some(false) => true,
            _ => false,
        }
    }
}


impl PartialVcsConfigurationView {
    /// Everything that `self` sets is set the same way in `r`, and every
    /// entry of a set of `self` is an entry of the same set in `r`.
    pub open spec fn is_kept_in(self, r: PartialVcsConfigurationView) -> bool {
        &&& (self.enabled is Some ==> r.enabled == self.enabled)
        &&& (self.client_kind is Some ==> r.client_kind == self.client_kind)
        &&& (self.use_ignore_file is Some ==> r.use_ignore_file == self.use_ignore_file)
        &&& (self.root is Some ==> r.root == self.root)
    }

    /// What the second operand of a merge sets is kept in the merge.
    pub proof fn lemma_merge_keeps(a: PartialVcsConfigurationView, b: PartialVcsConfigurationView)
        ensures
            b.is_kept_in(PartialVcsConfigurationView::merge(a, b)),
    {
    }

    /// A value keeps what it sets itself.
    pub proof fn lemma_kept_in_self(a: PartialVcsConfigurationView)
        ensures
            a.is_kept_in(a),
    {
    }

    /// Merging with a value that sets nothing, on either side, changes
    /// nothing.
    pub proof fn lemma_merge_identity(a: PartialVcsConfigurationView)
        ensures
            PartialVcsConfigurationView::merge(PartialVcsConfigurationView::empty(), a) == a,
            PartialVcsConfigurationView::merge(a, PartialVcsConfigurationView::empty()) == a,
    {
    }

    /// Merging a value with itself changes nothing.
    pub proof fn lemma_merge_idempotent(a: PartialVcsConfigurationView)
        ensures
            PartialVcsConfigurationView::merge(a, a) == a,
    {
    }

    /// Merging is associative.
    pub proof fn lemma_merge_associative(a: PartialVcsConfigurationView, b: PartialVcsConfigurationView, c: PartialVcsConfigurationView)
        ensures
            PartialVcsConfigurationView::merge(PartialVcsConfigurationView::merge(a, b), c) == PartialVcsConfigurationView::merge(a, PartialVcsConfigurationView::merge(b, c)),
    {
    }
}

} // verus!
