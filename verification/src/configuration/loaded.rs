//! The configuration that was found and loaded, with the diagnostics
//! emitted on the way.

use vstd::prelude::*;
use crate::configuration::{
    extended_views, extended_with, extends_diagnostics, migrated, Deserialized, PartialConfiguration,
    PartialConfigurationView,
};
use crate::diagnostics::{diagnostics_view, is_error_severity, with_path, Diagnostic, DiagnosticView};

verus! {

/// A configuration file that was found and deserialised.
pub struct ConfigurationPayload {
    /// What the deserialisation gave.
    pub deserialized: Deserialized,
    /// The path of the configuration file, its name included.
    pub configuration_file_path: String,
    /// The directory of the configuration file, against which the files it
    /// extends are resolved.
    pub configuration_directory_path: String,
}

/// The configuration that was found, the fields that it does not set left
/// unset, and the diagnostics emitted while it was read.
pub struct LoadedConfiguration {
    /// The directory where the configuration file was found, if one was.
    pub directory_path: Option<String>,
    /// The path of the configuration file, if one was found.
    pub file_path: Option<String>,
    /// The configuration.
    pub configuration: PartialConfiguration,
    /// The diagnostics emitted while the configuration was read.
    pub diagnostics: Vec<Diagnostic>,
}

/// The view of an optional string.
pub open spec fn opt_string(o: Option<String>) -> Option<Seq<char>> {
    match o {
        Some(s) => Some(s@),
        None => None,
    }
}

impl Default for LoadedConfiguration {
    fn default() -> (c: LoadedConfiguration)
        ensures
            c.directory_path is None,
            c.file_path is None,
            c.configuration@ == PartialConfigurationView::empty(),
            c.diagnostics@.len() == 0,
    {
        LoadedConfiguration {
            directory_path: None,
            file_path: None,
            configuration: PartialConfiguration::default(),
            diagnostics: Vec::new(),
        }
    }
}

/// Some diagnostic is an error or more serious.
pub open spec fn has_error_diagnostic(ds: Seq<Diagnostic>) -> bool {
    exists|i: int| 0 <= i < ds.len() && is_error_severity(#[trigger] ds[i].severity)
}

/// The diagnostics of a loaded configuration: those of its own file, then
/// those of the files that it extends, all about its own file.
pub open spec fn loaded_diagnostics(own: Seq<Diagnostic>, ext: Seq<DiagnosticView>, path: Seq<char>) -> Seq<DiagnosticView> {
    (diagnostics_view(own) + ext).map_values(|d: DiagnosticView| with_path(d, path))
}

impl LoadedConfiguration {
    /// The directory where the configuration file is, if one was found.
    pub fn directory_path(&self) -> (p: Option<&str>)
        ensures
            match p {
                Some(s) => self.directory_path matches Some(d) && s@ == d@,
                None => self.directory_path is None,
            },
    {
        match &self.directory_path {
            Some(d) => Some(d.as_str()),
            None => None,
        }
    }

    /// The path of the configuration file, if one was found.
    pub fn file_path(&self) -> (p: Option<&str>)
        ensures
            match p {
                Some(s) => self.file_path matches Some(f) && s@ == f@,
                None => self.file_path is None,
            },
    {
        match &self.file_path {
            Some(f) => Some(f.as_str()),
            None => None,
        }
    }

    /// Whether some diagnostic is an error or more serious.
    pub fn has_errors(&self) -> (b: bool)
        ensures
            b == has_error_diagnostic(self.diagnostics@),
    {
        let n = self.diagnostics.len();
        let mut i: usize = 0;
        while i < n
            invariant
                n == self.diagnostics@.len(),
                i <= n,
                forall|k: int| 0 <= k < i ==> !is_error_severity(#[trigger] self.diagnostics@[k].severity),
            decreases n - i,
        {
            if self.diagnostics[i].severity.is_error() {
                return true;
            }
            i = i + 1;
        }
        false
    }

    /// An iterator over the diagnostics, in order.
    pub fn as_diagnostics_iter(&self) -> (it: ConfigurationDiagnosticsIter<'_>)
        ensures
            it@ == (self.diagnostics@, 0nat),
    {
        ConfigurationDiagnosticsIter::new(self.diagnostics.as_slice())
    }

    /// The loaded configuration of a payload. Without a payload, nothing is
    /// set. Otherwise the configuration of the file is extended by the
    /// configurations in `extended`, which were read, in order, from the
    /// files that it lists in `extends`, and its deprecated fields are
    /// migrated; a file that could not be read as a configuration gives the
    /// empty configuration, and `extended` is not used. Every diagnostic is
    /// reported about the configuration file.
    pub fn try_from_payload(value: Option<ConfigurationPayload>, extended: Vec<Deserialized>) -> (loaded: LoadedConfiguration)
        ensures
            match value {
                None => {
                    &&& loaded.directory_path is None
                    &&& loaded.file_path is None
                    &&& loaded.configuration@ == PartialConfigurationView::empty()
                    &&& loaded.diagnostics@.len() == 0
                },
                Some(payload) => {
                    &&& loaded.directory_path == Some(payload.configuration_directory_path)
                    &&& loaded.file_path == Some(payload.configuration_file_path)
                    &&& loaded.configuration@ == match payload.deserialized.configuration {
                        Some(c) => migrated(extended_with(c@, extended_views(extended@))),
                        None => PartialConfigurationView::empty(),
                    }
                    &&& diagnostics_view(loaded.diagnostics@) == loaded_diagnostics(
                        payload.deserialized.diagnostics@,
                        if payload.deserialized.configuration is Some {
                            extends_diagnostics(extended@, payload.configuration_file_path@)
                        } else {
                            Seq::empty()
                        },
                        payload.configuration_file_path@,
                    )
                },
            },
    {
        let value = match value {
            Some(v) => v,
            None => {
                return LoadedConfiguration::default();
            },
        };
        let ConfigurationPayload { configuration_directory_path, configuration_file_path, deserialized } = value;
        let ghost own = deserialized.diagnostics@;
        let (partial_configuration, diagnostics) = deserialized.consume();
        let mut diagnostics = diagnostics;
        let ghost path = configuration_file_path@;
        let ghost ext_diags = if partial_configuration is Some {
            extends_diagnostics(extended@, path)
        } else {
            Seq::empty()
        };
        let configuration = match partial_configuration {
            Some(c) => {
                let mut c = c;
                c.apply_extends(extended, &configuration_file_path, &mut diagnostics);
                c.migrate_deprecated_fields();
                c
            },
            None => PartialConfiguration::default(),
        };
        assert(diagnostics_view(diagnostics@) == diagnostics_view(own) + ext_diags);
        let ghost all = diagnostics_view(diagnostics@);
        let mut tagged: Vec<Diagnostic> = Vec::new();
        for d in it: diagnostics.into_iter()
            invariant
                path == configuration_file_path@,
                it.seq() == diagnostics@,
                diagnostics_view(diagnostics@) == all,
                diagnostics_view(tagged@) == all.take(it.index()).map_values(|d: DiagnosticView| with_path(d, path)),
        {
            let ghost k = it.index();
            assert(d@ == all[k]);
            let ghost dv = d@;
            let ghost prev = tagged@;
            tagged.push(d.with_file_path(configuration_file_path.clone()));
            proof {
                assert(diagnostics_view(tagged@) =~= diagnostics_view(prev).push(with_path(dv, path)));
                assert(all.take(k + 1) =~= all.take(k).push(all[k]));
                assert(all.take(k + 1).map_values(|d: DiagnosticView| with_path(d, path)) =~= all.take(
                    k,
                ).map_values(|d: DiagnosticView| with_path(d, path)).push(with_path(all[k], path)));
            }
        }
        assert(all.take(all.len() as int) =~= all);
        LoadedConfiguration {
            configuration,
            diagnostics: tagged,
            directory_path: Some(configuration_directory_path),
            file_path: Some(configuration_file_path),
        }
    }
}

/// An iterator over the diagnostics of a loaded configuration.
pub struct ConfigurationDiagnosticsIter<'a> {
    errors: &'a [Diagnostic],
    len: usize,
    index: usize,
}

impl<'a> View for ConfigurationDiagnosticsIter<'a> {
    /// The diagnostics and the position of the next one.
    type V = (Seq<Diagnostic>, nat);

    closed spec fn view(&self) -> (Seq<Diagnostic>, nat) {
        (self.errors@, self.index as nat)
    }
}

impl<'a> ConfigurationDiagnosticsIter<'a> {
    #[verifier::type_invariant]
    closed spec fn well_formed(self) -> bool {
        &&& self.len == self.errors@.len()
        &&& self.index <= self.len
    }

    fn new(errors: &'a [Diagnostic]) -> (it: Self)
        ensures
            it@ == (errors@, 0nat),
    {
        ConfigurationDiagnosticsIter { len: errors.len(), index: 0, errors }
    }

    /// The next diagnostic, if any is left.
    pub fn next(&mut self) -> (item: Option<&'a Diagnostic>)
        ensures
            final(self)@.0 == old(self)@.0,
            old(self)@.1 < old(self)@.0.len() ==> {
                &&& item matches Some(d) && *d == old(self)@.0[old(self)@.1 as int]
                &&& final(self)@.1 == old(self)@.1 + 1
            },
            old(self)@.1 >= old(self)@.0.len() ==> {
                &&& item is None
                &&& final(self)@.1 == old(self)@.1
            },
            final(self)@.1 <= final(self)@.0.len(),
    {
        proof {
            use_type_invariant(&*self);
        }
        if self.len == self.index {
            return None;
        }
        let item = &self.errors[self.index];
        self.index = self.index + 1;
        Some(item)
    }
}

} // verus!
