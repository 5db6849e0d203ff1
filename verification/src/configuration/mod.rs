//! The configuration of `biome.json`.
//!
//! The configuration is divided by tool, and can further be customised by
//! language.

pub mod create;
pub mod css;
pub mod formatter;
pub mod javascript;
pub mod json;
pub mod linter;
pub mod loaded;
pub mod lookup;
pub mod organize_imports;
pub mod vcs;

use vstd::prelude::*;
use crate::merge::{merge_option, merge_string, merge_opt, merge_value, opt_view, or_else, Merge};
use crate::string_set::{
    lemma_seq_union_associative, lemma_seq_union_contains, lemma_seq_union_subsumed, seq_union, strings_view,
    StringSet,
};
use crate::configuration::lookup::AutoSearchResult;
use crate::configuration::vcs::ignore_file_name;
use crate::lines::{spec_lines, split_lines};
use crate::diagnostics::{WorkspaceError, diagnostics_view, with_path, Diagnostic, DiagnosticView};
use crate::configuration::css::{PartialCssConfiguration, PartialCssConfigurationView, PartialCssFormatterView};
use crate::configuration::formatter::{PartialFormatterConfiguration, PartialFormatterConfigurationView};
use crate::configuration::javascript::{PartialJavascriptConfiguration, PartialJavascriptConfigurationView, PartialJavascriptFormatterView};
use crate::configuration::json::{PartialJsonConfiguration, PartialJsonConfigurationView, PartialJsonFormatterView};
use crate::configuration::linter::{PartialLinterConfiguration, PartialLinterConfigurationView, Rules, RulesView};
use crate::configuration::organize_imports::{PartialOrganizeImports, PartialOrganizeImportsView};
use crate::configuration::vcs::{PartialVcsConfiguration, PartialVcsConfigurationView};

verus! {

/// The configuration of the file system, as far as it was written down.
#[derive(Clone, Debug, PartialEq, Eq)]
pub struct PartialFilesConfiguration {
    /// The largest size in bytes of a file that is handled.
    pub max_size: Option<u64>,
    /// Patterns of files and folders to ignore.
    pub ignore: Option<StringSet>,
    /// Patterns of the only files and folders to handle.
    pub included: Option<StringSet>,
    /// Whether files of an unknown kind pass without a diagnostic.
    pub ignore_unknown: Option<bool>,
}

/// The value of a [`PartialFilesConfiguration`], with strings as character sequences.
pub struct PartialFilesConfigurationView {
    pub max_size: Option<u64>,
    pub ignore: Option<Seq<Seq<char>>>,
    pub included: Option<Seq<Seq<char>>>,
    pub ignore_unknown: Option<bool>,
}

impl PartialFilesConfigurationView {
    /// Nothing is set.
    pub open spec fn empty() -> PartialFilesConfigurationView {
        PartialFilesConfigurationView {
            max_size: None,
            ignore: None,
            included: None,
            ignore_unknown: None,
        }
    }

    /// The merge of `a` with `b`: what `b` sets wins, nested values merge.
    pub open spec fn merge(a: PartialFilesConfigurationView, b: PartialFilesConfigurationView) -> PartialFilesConfigurationView {
        PartialFilesConfigurationView {
            max_size: or_else(a.max_size, b.max_size),
            ignore: merge_opt::<StringSet>(a.ignore, b.ignore),
            included: merge_opt::<StringSet>(a.included, b.included),
            ignore_unknown: or_else(a.ignore_unknown, b.ignore_unknown),
        }
    }
}

impl View for PartialFilesConfiguration {
    type V = PartialFilesConfigurationView;

    open spec fn view(&self) -> PartialFilesConfigurationView {
        PartialFilesConfigurationView {
            max_size: self.max_size,
            ignore: opt_view(self.ignore),
            included: opt_view(self.included),
            ignore_unknown: self.ignore_unknown,
        }
    }
}

impl Default for PartialFilesConfiguration {
    fn default() -> (r: PartialFilesConfiguration)
        ensures
            r@ == PartialFilesConfigurationView::empty(),
    {
        PartialFilesConfiguration {
            max_size: None,
            ignore: None,
            included: None,
            ignore_unknown: None,
        }
    }
}

impl Merge for PartialFilesConfiguration {
    open spec fn merge_spec(a: PartialFilesConfigurationView, b: PartialFilesConfigurationView) -> PartialFilesConfigurationView {
        PartialFilesConfigurationView::merge(a, b)
    }

    fn merge_with(&mut self, other: Self) {
        let PartialFilesConfiguration { max_size, ignore, included, ignore_unknown } = other;
        merge_value(&mut self.max_size, max_size);
        merge_option(&mut self.ignore, ignore);
        merge_option(&mut self.included, included);
        merge_value(&mut self.ignore_unknown, ignore_unknown);
    }
}

/// The configuration that a `biome.json` file holds, as far as it was written down.
#[derive(Clone, Debug, PartialEq, Eq)]
pub struct PartialConfiguration {
    /// The JSON schema that the file follows.
    pub schema: Option<String>,
    /// The configuration of the VCS integration.
    pub vcs: Option<PartialVcsConfiguration>,
    /// The configuration of the file system.
    pub files: Option<PartialFilesConfiguration>,
    /// The configuration of the formatter.
    pub formatter: Option<PartialFormatterConfiguration>,
    /// The configuration of import sorting.
    pub organize_imports: Option<PartialOrganizeImports>,
    /// The configuration of the linter.
    pub linter: Option<PartialLinterConfiguration>,
    /// The configuration of the JavaScript language.
    pub javascript: Option<PartialJavascriptConfiguration>,
    /// The configuration of the JSON language.
    pub json: Option<PartialJsonConfiguration>,
    /// The configuration of the CSS language.
    pub css: Option<PartialCssConfiguration>,
    /// Paths of other configuration files that this one extends.
    pub extends: Option<StringSet>,
}

/// The value of a [`PartialConfiguration`], with strings as character sequences.
pub struct PartialConfigurationView {
    pub schema: Option<Seq<char>>,
    pub vcs: Option<PartialVcsConfigurationView>,
    pub files: Option<PartialFilesConfigurationView>,
    pub formatter: Option<PartialFormatterConfigurationView>,
    pub organize_imports: Option<PartialOrganizeImportsView>,
    pub linter: Option<PartialLinterConfigurationView>,
    pub javascript: Option<PartialJavascriptConfigurationView>,
    pub json: Option<PartialJsonConfigurationView>,
    pub css: Option<PartialCssConfigurationView>,
    pub extends: Option<Seq<Seq<char>>>,
}

impl PartialConfigurationView {
    /// Nothing is set.
    pub open spec fn empty() -> PartialConfigurationView {
        PartialConfigurationView {
            schema: None,
            vcs: None,
            files: None,
            formatter: None,
            organize_imports: None,
            linter: None,
            javascript: None,
            json: None,
            css: None,
            extends: None,
        }
    }

    /// The merge of `a` with `b`: what `b` sets wins, nested values merge.
    pub open spec fn merge(a: PartialConfigurationView, b: PartialConfigurationView) -> PartialConfigurationView {
        PartialConfigurationView {
            schema: or_else(a.schema, b.schema),
            vcs: merge_opt::<PartialVcsConfiguration>(a.vcs, b.vcs),
            files: merge_opt::<PartialFilesConfiguration>(a.files, b.files),
            formatter: merge_opt::<PartialFormatterConfiguration>(a.formatter, b.formatter),
            organize_imports: merge_opt::<PartialOrganizeImports>(a.organize_imports, b.organize_imports),
            linter: merge_opt::<PartialLinterConfiguration>(a.linter, b.linter),
            javascript: merge_opt::<PartialJavascriptConfiguration>(a.javascript, b.javascript),
            json: merge_opt::<PartialJsonConfiguration>(a.json, b.json),
            css: merge_opt::<PartialCssConfiguration>(a.css, b.css),
            extends: merge_opt::<StringSet>(a.extends, b.extends),
        }
    }
}

impl View for PartialConfiguration {
    type V = PartialConfigurationView;

    open spec fn view(&self) -> PartialConfigurationView {
        PartialConfigurationView {
            schema: opt_view(self.schema),
            vcs: opt_view(self.vcs),
            files: opt_view(self.files),
            formatter: opt_view(self.formatter),
            organize_imports: opt_view(self.organize_imports),
            linter: opt_view(self.linter),
            javascript: opt_view(self.javascript),
            json: opt_view(self.json),
            css: opt_view(self.css),
            extends: opt_view(self.extends),
        }
    }
}

impl Default for PartialConfiguration {
    fn default() -> (r: PartialConfiguration)
        ensures
            r@ == PartialConfigurationView::empty(),
    {
        PartialConfiguration {
            schema: None,
            vcs: None,
            files: None,
            formatter: None,
            organize_imports: None,
            linter: None,
            javascript: None,
            json: None,
            css: None,
            extends: None,
        }
    }
}

impl Merge for PartialConfiguration {
    open spec fn merge_spec(a: PartialConfigurationView, b: PartialConfigurationView) -> PartialConfigurationView {
        PartialConfigurationView::merge(a, b)
    }

    fn merge_with(&mut self, other: Self) {
        let PartialConfiguration { schema, vcs, files, formatter, organize_imports, linter, javascript, json, css, extends } = other;
        merge_string(&mut self.schema, schema);
        merge_option(&mut self.vcs, vcs);
        merge_option(&mut self.files, files);
        merge_option(&mut self.formatter, formatter);
        merge_option(&mut self.organize_imports, organize_imports);
        merge_option(&mut self.linter, linter);
        merge_option(&mut self.javascript, javascript);
        merge_option(&mut self.json, json);
        merge_option(&mut self.css, css);
        merge_option(&mut self.extends, extends);
    }
}

/// The configuration that `biome init` writes: import sorting enabled, the
/// linter enabled with its recommended rules, nothing else set.
pub open spec fn init_view() -> PartialConfigurationView {
    PartialConfigurationView {
        organize_imports: Some(PartialOrganizeImportsView { enabled: Some(true) }),
        linter: Some(
            PartialLinterConfigurationView {
                enabled: Some(true),
                rules: Some(RulesView { recommended: Some(true), all: None }),
            },
        ),
        ..PartialConfigurationView::empty()
    }
}

/// The width of an indentation once the deprecated size has been moved to
/// it: the size, where only the size is set.
pub open spec fn migrated_width(size: Option<u8>, width: Option<u8>) -> Option<u8> {
    if size is Some && width is None {
        size
    } else {
        width
    }
}

/// The formatter options once the deprecated indentation size is moved to
/// the indentation width.
pub open spec fn migrated_formatter(f: PartialFormatterConfigurationView) -> PartialFormatterConfigurationView {
    PartialFormatterConfigurationView { indent_width: migrated_width(f.indent_size, f.indent_width), ..f }
}

/// The JavaScript options once the deprecated indentation size is moved to
/// the indentation width.
pub open spec fn migrated_javascript(c: PartialJavascriptConfigurationView) -> PartialJavascriptConfigurationView {
    PartialJavascriptConfigurationView {
        formatter: match c.formatter {
            Some(f) => Some(PartialJavascriptFormatterView { indent_width: migrated_width(f.indent_size, f.indent_width), ..f }),
            None => None,
        },
    }
}

/// The JSON options once the deprecated indentation size is moved to the
/// indentation width.
pub open spec fn migrated_json(c: PartialJsonConfigurationView) -> PartialJsonConfigurationView {
    PartialJsonConfigurationView {
        formatter: match c.formatter {
            Some(f) => Some(PartialJsonFormatterView { indent_width: migrated_width(f.indent_size, f.indent_width), ..f }),
            None => None,
        },
    }
}

/// The CSS options once the deprecated indentation size is moved to the
/// indentation width.
pub open spec fn migrated_css(c: PartialCssConfigurationView) -> PartialCssConfigurationView {
    PartialCssConfigurationView {
        formatter: match c.formatter {
            Some(f) => Some(PartialCssFormatterView { indent_width: migrated_width(f.indent_size, f.indent_width), ..f }),
            None => None,
        },
    }
}

/// A configuration once every deprecated indentation size is moved to the
/// indentation width of the same formatter.
pub open spec fn migrated(c: PartialConfigurationView) -> PartialConfigurationView {
    PartialConfigurationView {
        formatter: match c.formatter {
            Some(f) => Some(migrated_formatter(f)),
            None => None,
        },
        javascript: match c.javascript {
            Some(j) => Some(migrated_javascript(j)),
            None => None,
        },
        json: match c.json {
            Some(j) => Some(migrated_json(j)),
            None => None,
        },
        css: match c.css {
            Some(j) => Some(migrated_css(j)),
            None => None,
        },
        ..c
    }
}

/// Moves a deprecated indentation size to an unset indentation width.
fn migrate_indent(size: Option<u8>, width: &mut Option<u8>)
    ensures
        *final(width) == migrated_width(size, *old(width)),
{
    if size.is_some() && width.is_none() {
        *width = size;
    }
}

impl PartialConfiguration {
    /// Returns the initial configuration as generated by `biome init`.
    pub fn init() -> (c: PartialConfiguration)
        ensures
            c@ == init_view(),
    {
        let mut c = PartialConfiguration::default();
        let mut organize_imports = PartialOrganizeImports::default();
        organize_imports.enabled = Some(true);
        let mut rules = Rules::default();
        rules.recommended = Some(true);
        let mut linter = PartialLinterConfiguration::default();
        linter.enabled = Some(true);
        linter.rules = Some(rules);
        c.organize_imports = Some(organize_imports);
        c.linter = Some(linter);
        c
    }

    /// The formatter is disabled only where it is set up and its `enabled`
    /// is `false`.
    pub fn is_formatter_disabled(&self) -> (b: bool)
        ensures
            b == (self@.formatter matches Some(f) && f.enabled == Some(false)),
    {
        match &self.formatter {
            Some(f) => f.is_disabled(),
            None => false,
        }
    }

    /// The linter is disabled only where it is set up and its `enabled` is
    /// `false`.
    pub fn is_linter_disabled(&self) -> (b: bool)
        ensures
            b == (self@.linter matches Some(l) && l.enabled == Some(false)),
    {
        match &self.linter {
            Some(l) => l.is_disabled(),
            None => false,
        }
    }

    /// Import sorting is disabled only where it is set up and its `enabled`
    /// is `false`.
    pub fn is_organize_imports_disabled(&self) -> (b: bool)
        ensures
            b == (self@.organize_imports matches Some(o) && o.enabled == Some(false)),
    {
        match &self.organize_imports {
            Some(o) => o.is_disabled(),
            None => false,
        }
    }

    /// The VCS integration is disabled unless it is set up with `enabled`
    /// set to `true`.
    pub fn is_vcs_disabled(&self) -> (b: bool)
        ensures
            b == !(self@.vcs matches Some(v) && v.enabled == Some(true)),
    {
        match &self.vcs {
            Some(v) => v.is_disabled(),
            None => true,
        }
    }

    /// The VCS integration is enabled exactly when it is not disabled.
    pub fn is_vcs_enabled(&self) -> (b: bool)
        ensures
            b == (self@.vcs matches Some(v) && v.enabled == Some(true)),
    {
        !self.is_vcs_disabled()
    }

    /// Moves every deprecated indentation size to the indentation width of
    /// the same formatter, where that width is not set.
    pub fn migrate_deprecated_fields(&mut self)
        ensures
            final(self)@ == migrated(old(self)@),
    {
        if let Some(css) = &mut self.css {
            if let Some(formatter) = &mut css.formatter {
                migrate_indent(formatter.indent_size, &mut formatter.indent_width);
            }
        }
        if let Some(formatter) = &mut self.formatter {
            migrate_indent(formatter.indent_size, &mut formatter.indent_width);
        }
        if let Some(javascript) = &mut self.javascript {
            if let Some(formatter) = &mut javascript.formatter {
                migrate_indent(formatter.indent_size, &mut formatter.indent_width);
            }
        }
        if let Some(json) = &mut self.json {
            if let Some(formatter) = &mut json.formatter {
                migrate_indent(formatter.indent_size, &mut formatter.indent_width);
            }
        }
    }
}


/// What the deserialisation of a configuration file gave: the configuration,
/// unless the file could not be read as one, and the diagnostics emitted on
/// the way.
pub struct Deserialized {
    /// The configuration, where one could be read.
    pub configuration: Option<PartialConfiguration>,
    /// The diagnostics emitted while the file was read.
    pub diagnostics: Vec<Diagnostic>,
}

impl Deserialized {
    /// Splits the result into the configuration and the diagnostics.
    pub fn consume(self) -> (parts: (Option<PartialConfiguration>, Vec<Diagnostic>))
        ensures
            parts.0 == self.configuration,
            parts.1 == self.diagnostics,
    {
        (self.configuration, self.diagnostics)
    }
}

/// The configuration of a deserialised file, or the empty configuration
/// where none could be read.
pub open spec fn config_or_empty(c: Option<PartialConfiguration>) -> PartialConfigurationView {
    match c {
        Some(c) => c@,
        None => PartialConfigurationView::empty(),
    }
}

/// The configurations of deserialised files.
pub open spec fn extended_views(ext: Seq<Deserialized>) -> Seq<PartialConfigurationView> {
    ext.map_values(|d: Deserialized| config_or_empty(d.configuration))
}

/// The configurations merged from left to right: each one overrides what
/// the ones before it set.
pub open spec fn merge_all(cs: Seq<PartialConfigurationView>) -> PartialConfigurationView
    decreases cs.len(),
{
    if cs.len() == 0 {
        PartialConfigurationView::empty()
    } else {
        PartialConfigurationView::merge(merge_all(cs.drop_last()), cs.last())
    }
}

/// A configuration extended by others: what it sets itself wins over what
/// the extended configurations set, and these are applied from left to
/// right.
pub open spec fn extended_with(c: PartialConfigurationView, ext: Seq<PartialConfigurationView>) -> PartialConfigurationView {
    PartialConfigurationView::merge(merge_all(ext), c)
}

/// The diagnostics of deserialised files, moved to the file at `path`, in
/// order.
pub open spec fn extends_diagnostics(ext: Seq<Deserialized>, path: Seq<char>) -> Seq<DiagnosticView>
    decreases ext.len(),
{
    if ext.len() == 0 {
        Seq::empty()
    } else {
        extends_diagnostics(ext.drop_last(), path) + ext.last().diagnostics@.map_values(
            |d: Diagnostic| with_path(d@, path),
        )
    }
}

impl PartialConfiguration {
    /// Fills in the fields that this configuration does not set with the
    /// values of the configurations that it extends, applied from left to
    /// right, and reports their diagnostics as diagnostics of the file at
    /// `file_path`.
    pub fn apply_extends(&mut self, extended: Vec<Deserialized>, file_path: &String, diagnostics: &mut Vec<Diagnostic>)
        ensures
            final(self)@ == extended_with(old(self)@, extended_views(extended@)),
            diagnostics_view(final(diagnostics)@) == diagnostics_view(old(diagnostics)@) + extends_diagnostics(extended@, file_path@),
    {
        let ghost ext = extended@;
        let ghost path = file_path@;
        let n = extended.len();
        let mut acc = PartialConfiguration::default();
        assert(extended_views(ext.take(0)) =~= Seq::<PartialConfigurationView>::empty());
        for d in it: extended.into_iter()
            invariant
                it.seq() == ext,
                path == file_path@,
                acc@ == merge_all(extended_views(ext.take(it.index()))),
                diagnostics_view(diagnostics@) == diagnostics_view(old(diagnostics)@) + extends_diagnostics(
                    ext.take(it.index()),
                    path,
                ),
        {
            let ghost k = it.index();
            let (configuration, found) = d.consume();
            let ghost found_view = found@;
            match configuration {
                Some(c) => acc.merge_with(c),
                None => acc.merge_with(PartialConfiguration::default()),
            }
            let ghost start = diagnostics@;
            for x in it2: found.into_iter()
                invariant
                    it2.seq() == found_view,
                    path == file_path@,
                    diagnostics_view(diagnostics@) == diagnostics_view(start) + found_view.take(it2.index()).map_values(
                        |x: Diagnostic| with_path(x@, path),
                    ),
            {
                let ghost j = it2.index();
                let ghost xv = x@;
                let ghost prev = diagnostics@;
                diagnostics.push(x.with_file_path(file_path.clone()));
                assert(diagnostics_view(diagnostics@) =~= diagnostics_view(prev).push(with_path(xv, path)));
                assert(found_view.take(j + 1) =~= found_view.take(j).push(found_view[j]));
                assert(found_view.take(j + 1).map_values(|x: Diagnostic| with_path(x@, path)) =~= found_view.take(
                    j,
                ).map_values(|x: Diagnostic| with_path(x@, path)).push(with_path(xv, path)));
            }
            assert(found_view.take(found_view.len() as int) =~= found_view);
            proof {
                let next = ext.take(k + 1);
                assert(next.drop_last() =~= ext.take(k));
                assert(next.last() == d);
                assert(extended_views(next).drop_last() =~= extended_views(ext.take(k)));
            }
        }
        assert(ext.take(n as int) =~= ext);
        if n > 0 {
            std::mem::swap(self, &mut acc);
            self.merge_with(acc);
        }
    }
}


/// The largest size in bytes of a file that is handled, unless the
/// configuration says otherwise: 1 MiB.
pub const DEFAULT_FILE_SIZE_LIMIT: u64 = 1048576;

/// The configuration of the file system, with every option given a value.
#[derive(Clone, Debug, PartialEq, Eq)]
pub struct FilesConfiguration {
    /// The largest size in bytes of a file that is handled; larger files are
    /// ignored.
    pub max_size: u64,
    /// Patterns of files and folders to ignore.
    pub ignore: StringSet,
    /// Patterns of the only files and folders to handle.
    pub included: StringSet,
    /// Whether files of an unknown kind pass without a diagnostic.
    pub ignore_unknown: bool,
}

impl Default for FilesConfiguration {
    fn default() -> (c: FilesConfiguration)
        ensures
            c.max_size == DEFAULT_FILE_SIZE_LIMIT,
            c.ignore@.len() == 0,
            c.included@.len() == 0,
            !c.ignore_unknown,
    {
        FilesConfiguration {
            max_size: DEFAULT_FILE_SIZE_LIMIT,
            ignore: StringSet::new(),
            included: StringSet::new(),
            ignore_unknown: false,
        }
    }
}

/// The paths that a configuration extends, in order.
pub open spec fn extends_list(c: PartialConfigurationView) -> Seq<Seq<char>> {
    match c.extends {
        Some(e) => e,
        None => Seq::empty(),
    }
}

/// Where to look for the ignore file of the VCS client: from `base_path`,
/// joined with `root` where that is given, for a file named `file_name`.
#[derive(Clone, Debug, PartialEq, Eq)]
pub struct GitignoreSearch {
    /// The path that the search starts from.
    pub base_path: String,
    /// The VCS root, relative to `base_path`, where it is to be joined to it.
    pub root: Option<String>,
    /// The name of the ignore file.
    pub file_name: String,
}

/// The search for the ignore file that a configuration asks for, given the
/// base path of the VCS: none where the integration is not set up or not
/// enabled, or has no client, or skips its ignore file; an error where it is
/// enabled and neither a base path nor a root is known.
pub open spec fn gitignore_search_spec(c: PartialConfigurationView, vcs_base_path: Option<Seq<char>>) -> Result<
    Option<(Seq<char>, Option<Seq<char>>, Seq<char>)>,
    WorkspaceError,
> {
    match c.vcs {
        None => Ok(None),
        Some(vcs) => if vcs.enabled != Some(true) {
            Ok(None)
        } else if vcs_base_path is None && vcs.root is None {
            Err(WorkspaceError::VcsDisabled)
        } else {
            let (base, root) = match vcs_base_path {
                Some(b) => (b, vcs.root),
                None => (vcs.root.unwrap(), None),
            };
            match vcs.client_kind {
                Some(kind) => if vcs.use_ignore_file == Some(false) {
                    Ok(None)
                } else {
                    Ok(Some((base, root, ignore_file_name(kind))))
                },
                None => Ok(None),
            }
        },
    }
}

impl PartialConfiguration {
    /// The paths of the configuration files that this one extends, in order.
    pub fn extends_paths(&self) -> (paths: Vec<String>)
        ensures
            strings_view(paths@) == extends_list(self@),
    {
        match &self.extends {
            Some(set) => set.to_vec(),
            None => {
                let v = Vec::new();
                assert(strings_view(v@) =~= Seq::<Seq<char>>::empty());
                v
            },
        }
    }

    /// Where to look for the ignore file of the VCS client, if anywhere.
    pub fn gitignore_search(&self, vcs_base_path: Option<String>) -> (r: Result<Option<GitignoreSearch>, WorkspaceError>)
        ensures
            match (r, gitignore_search_spec(self@, opt_view(vcs_base_path))) {
                (Ok(None), Ok(None)) => true,
                (Ok(Some(s)), Ok(Some(t))) => s.base_path@ == t.0 && opt_view(s.root) == t.1 && s.file_name@ == t.2,
                (Err(e), Err(f)) => e == f,
                _ => false,
            },
    {
        let vcs = match &self.vcs {
            Some(vcs) => vcs,
            None => {
                return Ok(None);
            },
        };
        if !vcs.is_enabled() {
            return Ok(None);
        }
        let (base_path, root) = match (vcs_base_path, &vcs.root) {
            (Some(base), Some(root)) => (base, Some(root.clone())),
            (None, Some(root)) => (root.clone(), None),
            (Some(base), None) => (base, None),
            (None, None) => {
                return Err(WorkspaceError::vcs_disabled());
            },
        };
        match &vcs.client_kind {
            Some(kind) => {
                if vcs.ignore_file_disabled() {
                    Ok(None)
                } else {
                    Ok(Some(GitignoreSearch { base_path, root, file_name: kind.ignore_file() }))
                }
            },
            None => Ok(None),
        }
    }
}

/// The VCS root and ignored patterns given by the ignore file that a search
/// found: its directory, and each of its lines; nothing where none was
/// found.
pub fn gitignore_matches(found: Option<AutoSearchResult>) -> (r: (Option<String>, Vec<String>))
    ensures
        match found {
            Some(f) => r.0 == Some(f.directory_path) && strings_view(r.1@) == spec_lines(f.content@),
            None => r.0 is None && r.1@.len() == 0,
        },
{
    match found {
        Some(f) => {
            let lines = split_lines(f.content.as_str());
            (Some(f.directory_path), lines)
        },
        None => (None, Vec::new()),
    }
}


impl PartialFilesConfigurationView {
    /// Everything that `self` sets is set the same way in `r`, and every
    /// entry of a set of `self` is an entry of the same set in `r`.
    pub open spec fn is_kept_in(self, r: PartialFilesConfigurationView) -> bool {
        &&& (self.max_size is Some ==> r.max_size == self.max_size)
        &&& (self.ignore matches Some(s) ==> (r.ignore matches Some(q) && forall|x: Seq<char>| s.contains(x) ==> q.contains(x)))
        &&& (self.included matches Some(s) ==> (r.included matches Some(q) && forall|x: Seq<char>| s.contains(x) ==> q.contains(x)))
        &&& (self.ignore_unknown is Some ==> r.ignore_unknown == self.ignore_unknown)
    }

    /// What the second operand of a merge sets is kept in the merge.
    pub proof fn lemma_merge_keeps(a: PartialFilesConfigurationView, b: PartialFilesConfigurationView)
        ensures
            b.is_kept_in(PartialFilesConfigurationView::merge(a, b)),
    {
        if a.ignore is Some && b.ignore is Some {
            assert forall|x: Seq<char>| b.ignore.unwrap().contains(x) implies seq_union(a.ignore.unwrap(), b.ignore.unwrap()).contains(x) by {
                lemma_seq_union_contains(a.ignore.unwrap(), b.ignore.unwrap(), x);
            }
        }
        if a.included is Some && b.included is Some {
            assert forall|x: Seq<char>| b.included.unwrap().contains(x) implies seq_union(a.included.unwrap(), b.included.unwrap()).contains(x) by {
                lemma_seq_union_contains(a.included.unwrap(), b.included.unwrap(), x);
            }
        }
    }

    /// A value keeps what it sets itself.
    pub proof fn lemma_kept_in_self(a: PartialFilesConfigurationView)
        ensures
            a.is_kept_in(a),
    {
    }

    /// Merging with a value that sets nothing, on either side, changes
    /// nothing.
    pub proof fn lemma_merge_identity(a: PartialFilesConfigurationView)
        ensures
            PartialFilesConfigurationView::merge(PartialFilesConfigurationView::empty(), a) == a,
            PartialFilesConfigurationView::merge(a, PartialFilesConfigurationView::empty()) == a,
    {
    }

    /// Merging a value with itself changes nothing.
    pub proof fn lemma_merge_idempotent(a: PartialFilesConfigurationView)
        ensures
            PartialFilesConfigurationView::merge(a, a) == a,
    {
        if a.ignore is Some {
            lemma_seq_union_subsumed(a.ignore.unwrap(), a.ignore.unwrap());
        }
        if a.included is Some {
            lemma_seq_union_subsumed(a.included.unwrap(), a.included.unwrap());
        }
    }

    /// Merging is associative.
    pub proof fn lemma_merge_associative(a: PartialFilesConfigurationView, b: PartialFilesConfigurationView, c: PartialFilesConfigurationView)
        ensures
            PartialFilesConfigurationView::merge(PartialFilesConfigurationView::merge(a, b), c) == PartialFilesConfigurationView::merge(a, PartialFilesConfigurationView::merge(b, c)),
    {
        if a.ignore is Some && b.ignore is Some && c.ignore is Some {
            lemma_seq_union_associative(a.ignore.unwrap(), b.ignore.unwrap(), c.ignore.unwrap());
        }
        if a.included is Some && b.included is Some && c.included is Some {
            lemma_seq_union_associative(a.included.unwrap(), b.included.unwrap(), c.included.unwrap());
        }
    }
}


impl PartialConfigurationView {
    /// Everything that `self` sets is set the same way in `r`, and every
    /// entry of a set of `self` is an entry of the same set in `r`.
    pub open spec fn is_kept_in(self, r: PartialConfigurationView) -> bool {
        &&& (self.schema is Some ==> r.schema == self.schema)
        &&& (self.vcs matches Some(s) ==> (r.vcs matches Some(q) && s.is_kept_in(q)))
        &&& (self.files matches Some(s) ==> (r.files matches Some(q) && s.is_kept_in(q)))
        &&& (self.formatter matches Some(s) ==> (r.formatter matches Some(q) && s.is_kept_in(q)))
        &&& (self.organize_imports matches Some(s) ==> (r.organize_imports matches Some(q) && s.is_kept_in(q)))
        &&& (self.linter matches Some(s) ==> (r.linter matches Some(q) && s.is_kept_in(q)))
        &&& (self.javascript matches Some(s) ==> (r.javascript matches Some(q) && s.is_kept_in(q)))
        &&& (self.json matches Some(s) ==> (r.json matches Some(q) && s.is_kept_in(q)))
        &&& (self.css matches Some(s) ==> (r.css matches Some(q) && s.is_kept_in(q)))
        &&& (self.extends matches Some(s) ==> (r.extends matches Some(q) && forall|x: Seq<char>| s.contains(x) ==> q.contains(x)))
    }

    /// What the second operand of a merge sets is kept in the merge.
    pub proof fn lemma_merge_keeps(a: PartialConfigurationView, b: PartialConfigurationView)
        ensures
            b.is_kept_in(PartialConfigurationView::merge(a, b)),
    {
        if a.vcs is Some && b.vcs is Some {
            PartialVcsConfigurationView::lemma_merge_keeps(a.vcs.unwrap(), b.vcs.unwrap());
        }
        if b.vcs is Some {
            PartialVcsConfigurationView::lemma_kept_in_self(b.vcs.unwrap());
        }
        if a.files is Some && b.files is Some {
            PartialFilesConfigurationView::lemma_merge_keeps(a.files.unwrap(), b.files.unwrap());
        }
        if b.files is Some {
            PartialFilesConfigurationView::lemma_kept_in_self(b.files.unwrap());
        }
        if a.formatter is Some && b.formatter is Some {
            PartialFormatterConfigurationView::lemma_merge_keeps(a.formatter.unwrap(), b.formatter.unwrap());
        }
        if b.formatter is Some {
            PartialFormatterConfigurationView::lemma_kept_in_self(b.formatter.unwrap());
        }
        if a.organize_imports is Some && b.organize_imports is Some {
            PartialOrganizeImportsView::lemma_merge_keeps(a.organize_imports.unwrap(), b.organize_imports.unwrap());
        }
        if b.organize_imports is Some {
            PartialOrganizeImportsView::lemma_kept_in_self(b.organize_imports.unwrap());
        }
        if a.linter is Some && b.linter is Some {
            PartialLinterConfigurationView::lemma_merge_keeps(a.linter.unwrap(), b.linter.unwrap());
        }
        if b.linter is Some {
            PartialLinterConfigurationView::lemma_kept_in_self(b.linter.unwrap());
        }
        if a.javascript is Some && b.javascript is Some {
            PartialJavascriptConfigurationView::lemma_merge_keeps(a.javascript.unwrap(), b.javascript.unwrap());
        }
        if b.javascript is Some {
            PartialJavascriptConfigurationView::lemma_kept_in_self(b.javascript.unwrap());
        }
        if a.json is Some && b.json is Some {
            PartialJsonConfigurationView::lemma_merge_keeps(a.json.unwrap(), b.json.unwrap());
        }
        if b.json is Some {
            PartialJsonConfigurationView::lemma_kept_in_self(b.json.unwrap());
        }
        if a.css is Some && b.css is Some {
            PartialCssConfigurationView::lemma_merge_keeps(a.css.unwrap(), b.css.unwrap());
        }
        if b.css is Some {
            PartialCssConfigurationView::lemma_kept_in_self(b.css.unwrap());
        }
        if a.extends is Some && b.extends is Some {
            assert forall|x: Seq<char>| b.extends.unwrap().contains(x) implies seq_union(a.extends.unwrap(), b.extends.unwrap()).contains(x) by {
                lemma_seq_union_contains(a.extends.unwrap(), b.extends.unwrap(), x);
            }
        }
    }

    /// A value keeps what it sets itself.
    pub proof fn lemma_kept_in_self(a: PartialConfigurationView)
        ensures
            a.is_kept_in(a),
    {
        if a.vcs is Some {
            PartialVcsConfigurationView::lemma_kept_in_self(a.vcs.unwrap());
        }
        if a.files is Some {
            PartialFilesConfigurationView::lemma_kept_in_self(a.files.unwrap());
        }
        if a.formatter is Some {
            PartialFormatterConfigurationView::lemma_kept_in_self(a.formatter.unwrap());
        }
        if a.organize_imports is Some {
            PartialOrganizeImportsView::lemma_kept_in_self(a.organize_imports.unwrap());
        }
        if a.linter is Some {
            PartialLinterConfigurationView::lemma_kept_in_self(a.linter.unwrap());
        }
        if a.javascript is Some {
            PartialJavascriptConfigurationView::lemma_kept_in_self(a.javascript.unwrap());
        }
        if a.json is Some {
            PartialJsonConfigurationView::lemma_kept_in_self(a.json.unwrap());
        }
        if a.css is Some {
            PartialCssConfigurationView::lemma_kept_in_self(a.css.unwrap());
        }
    }

    /// Merging with a value that sets nothing, on either side, changes
    /// nothing.
    pub proof fn lemma_merge_identity(a: PartialConfigurationView)
        ensures
            PartialConfigurationView::merge(PartialConfigurationView::empty(), a) == a,
            PartialConfigurationView::merge(a, PartialConfigurationView::empty()) == a,
    {
    }

    /// Merging a value with itself changes nothing.
    pub proof fn lemma_merge_idempotent(a: PartialConfigurationView)
        ensures
            PartialConfigurationView::merge(a, a) == a,
    {
        if a.vcs is Some {
            PartialVcsConfigurationView::lemma_merge_idempotent(a.vcs.unwrap());
        }
        if a.files is Some {
            PartialFilesConfigurationView::lemma_merge_idempotent(a.files.unwrap());
        }
        if a.formatter is Some {
            PartialFormatterConfigurationView::lemma_merge_idempotent(a.formatter.unwrap());
        }
        if a.organize_imports is Some {
            PartialOrganizeImportsView::lemma_merge_idempotent(a.organize_imports.unwrap());
        }
        if a.linter is Some {
            PartialLinterConfigurationView::lemma_merge_idempotent(a.linter.unwrap());
        }
        if a.javascript is Some {
            PartialJavascriptConfigurationView::lemma_merge_idempotent(a.javascript.unwrap());
        }
        if a.json is Some {
            PartialJsonConfigurationView::lemma_merge_idempotent(a.json.unwrap());
        }
        if a.css is Some {
            PartialCssConfigurationView::lemma_merge_idempotent(a.css.unwrap());
        }
        if a.extends is Some {
            lemma_seq_union_subsumed(a.extends.unwrap(), a.extends.unwrap());
        }
    }

    /// Merging is associative.
    pub proof fn lemma_merge_associative(a: PartialConfigurationView, b: PartialConfigurationView, c: PartialConfigurationView)
        ensures
            PartialConfigurationView::merge(PartialConfigurationView::merge(a, b), c) == PartialConfigurationView::merge(a, PartialConfigurationView::merge(b, c)),
    {
        if a.vcs is Some && b.vcs is Some && c.vcs is Some {
            PartialVcsConfigurationView::lemma_merge_associative(a.vcs.unwrap(), b.vcs.unwrap(), c.vcs.unwrap());
        }
        if a.files is Some && b.files is Some && c.files is Some {
            PartialFilesConfigurationView::lemma_merge_associative(a.files.unwrap(), b.files.unwrap(), c.files.unwrap());
        }
        if a.formatter is Some && b.formatter is Some && c.formatter is Some {
            PartialFormatterConfigurationView::lemma_merge_associative(a.formatter.unwrap(), b.formatter.unwrap(), c.formatter.unwrap());
        }
        if a.organize_imports is Some && b.organize_imports is Some && c.organize_imports is Some {
            PartialOrganizeImportsView::lemma_merge_associative(a.organize_imports.unwrap(), b.organize_imports.unwrap(), c.organize_imports.unwrap());
        }
        if a.linter is Some && b.linter is Some && c.linter is Some {
            PartialLinterConfigurationView::lemma_merge_associative(a.linter.unwrap(), b.linter.unwrap(), c.linter.unwrap());
        }
        if a.javascript is Some && b.javascript is Some && c.javascript is Some {
            PartialJavascriptConfigurationView::lemma_merge_associative(a.javascript.unwrap(), b.javascript.unwrap(), c.javascript.unwrap());
        }
        if a.json is Some && b.json is Some && c.json is Some {
            PartialJsonConfigurationView::lemma_merge_associative(a.json.unwrap(), b.json.unwrap(), c.json.unwrap());
        }
        if a.css is Some && b.css is Some && c.css is Some {
            PartialCssConfigurationView::lemma_merge_associative(a.css.unwrap(), b.css.unwrap(), c.css.unwrap());
        }
        if a.extends is Some && b.extends is Some && c.extends is Some {
            lemma_seq_union_associative(a.extends.unwrap(), b.extends.unwrap(), c.extends.unwrap());
        }
    }
}

} // verus!
