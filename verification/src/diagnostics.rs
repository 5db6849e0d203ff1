//! Diagnostics emitted while a configuration is loaded, and the errors of
//! the operations on configuration files.

use vstd::prelude::*;

verus! {

/// How serious a diagnostic is, from the mildest to the most serious.
#[derive(Clone, Copy, Debug, PartialEq, Eq, Structural)]
pub enum Severity {
    Hint,
    Information,
    Warning,
    Error,
    Fatal,
}

/// The position of a severity from the mildest (0) to the most serious (4).
pub open spec fn severity_rank(s: Severity) -> nat {
    match s {
        Severity::Hint => 0,
        Severity::Information => 1,
        Severity::Warning => 2,
        Severity::Error => 3,
        Severity::Fatal => 4,
    }
}

/// A severity that counts as an error: `Error` or more serious.
pub open spec fn is_error_severity(s: Severity) -> bool {
    severity_rank(s) >= severity_rank(Severity::Error)
}

impl Severity {
    /// The position of the severity from the mildest (0) to the most serious.
    pub fn rank(&self) -> (r: u8)
        ensures
            r == severity_rank(*self),
    {
        match self {
            Severity::Hint => 0,
            Severity::Information => 1,
            Severity::Warning => 2,
            Severity::Error => 3,
            Severity::Fatal => 4,
        }
    }

    /// Whether the severity is `Error` or more serious.
    pub fn is_error(&self) -> (b: bool)
        ensures
            b == is_error_severity(*self),
    {
        self.rank() >= 3
    }
}

/// A diagnostic: a message, how serious it is, and the file it is about.
#[derive(Clone, Debug, PartialEq, Eq)]
pub struct Diagnostic {
    /// How serious the diagnostic is.
    pub severity: Severity,
    /// What the diagnostic says.
    pub message: String,
    /// The file that the diagnostic is about, where it is known.
    pub file_path: Option<String>,
}

/// The value of a [`Diagnostic`].
pub struct DiagnosticView {
    pub severity: Severity,
    pub message: Seq<char>,
    pub file_path: Option<Seq<char>>,
}

impl View for Diagnostic {
    type V = DiagnosticView;

    open spec fn view(&self) -> DiagnosticView {
        DiagnosticView {
            severity: self.severity,
            message: self.message@,
            file_path: match self.file_path {
                Some(p) => Some(p@),
                None => None,
            },
        }
    }
}

/// A diagnostic moved to the file at `path`.
pub open spec fn with_path(d: DiagnosticView, path: Seq<char>) -> DiagnosticView {
    DiagnosticView { file_path: Some(path), ..d }
}

/// The views of a sequence of diagnostics.
pub open spec fn diagnostics_view(v: Seq<Diagnostic>) -> Seq<DiagnosticView> {
    v.map_values(|d: Diagnostic| d@)
}

impl Diagnostic {
    /// A diagnostic with no file.
    pub fn new(severity: Severity, message: String) -> (d: Diagnostic)
        ensures
            d@ == (DiagnosticView { severity, message: message@, file_path: None }),
    {
        Diagnostic { severity, message, file_path: None }
    }

    /// The same diagnostic, about the file at `path`.
    pub fn with_file_path(self, path: String) -> (d: Diagnostic)
        ensures
            d@ == with_path(self@, path@),
    {
        Diagnostic { severity: self.severity, message: self.message, file_path: Some(path) }
    }
}

/// Why an operation on a configuration failed.
#[derive(Clone, Debug, PartialEq, Eq)]
pub enum ConfigurationDiagnostic {
    /// A configuration file was to be created where one already exists.
    AlreadyExists,
    /// The configuration could not be serialised.
    SerializationError,
    /// A file listed in `extends` could not be read.
    CantLoadExtendFile {
        /// The path of that file.
        file_path: String,
        /// Why it could not be read.
        reason: String,
    },
}

/// An error of the workspace.
#[derive(Clone, Debug, PartialEq, Eq)]
pub enum WorkspaceError {
    /// An error about the configuration.
    Configuration(ConfigurationDiagnostic),
    /// The file at `path` could not be read or written.
    CantReadFile { path: String },
    /// The VCS integration is asked for, but no VCS root is known.
    VcsDisabled,
    /// The file system reported an error.
    FileSystem { message: String },
    /// No configuration file was found from `directory` upwards, where one
    /// is required.
    ConfigurationNotFound { directory: String },
}

impl WorkspaceError {
    /// The error for a file that could not be read or written.
    pub fn cant_read_file(path: String) -> (e: WorkspaceError)
        ensures
            e == (WorkspaceError::CantReadFile { path }),
    {
        WorkspaceError::CantReadFile { path }
    }

    /// The error for a missing VCS root.
    pub fn vcs_disabled() -> (e: WorkspaceError)
        ensures
            e == WorkspaceError::VcsDisabled,
    {
        WorkspaceError::VcsDisabled
    }
}

} // verus!
