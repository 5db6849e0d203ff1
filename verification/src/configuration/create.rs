//! The decisions taken when a new configuration file is created: its name,
//! the schema that it points to, and the errors reported.

use vstd::prelude::*;
use crate::configuration::lookup::{biome_json, biome_json_name, biome_jsonc, biome_jsonc_name};
use crate::configuration::{PartialConfiguration, PartialConfigurationView};
use crate::diagnostics::{ConfigurationDiagnostic, WorkspaceError};

verus! {

/// The version of a build that was not released.
pub open spec fn unreleased_version() -> Seq<char> {
    "0.0.0"@
}

/// The schema that a local installation of Biome ships.
pub open spec fn local_schema_path() -> Seq<char> {
    "./node_modules/@biomejs/biome/configuration_schema.json"@
}

/// The URL of the schema of a released version.
pub open spec fn released_schema_url(version: Seq<char>) -> Seq<char> {
    "https://biomejs.dev/schemas/"@ + version + "/schema.json"@
}

/// The name of the file to create: `biome.jsonc` where comments are wanted,
/// else `biome.json`.
pub fn config_file_name(emit_jsonc: bool) -> (name: String)
    ensures
        name@ == if emit_jsonc {
            biome_jsonc_name()
        } else {
            biome_json_name()
        },
{
    if emit_jsonc {
        biome_jsonc()
    } else {
        biome_json()
    }
}

/// Whether `version` is that of a build that was not released; such a build
/// points the configuration to the schema of a local installation, where
/// there is one.
pub fn is_unreleased_version(version: &str) -> (b: bool)
    ensures
        b == (version@ == unreleased_version()),
{
    String::from_str(version) == String::from_str("0.0.0")
}

/// The error for a configuration file that could not be opened for
/// creation: that it already exists, else that it cannot be written.
pub fn create_open_error(already_exists: bool, path: String) -> (e: WorkspaceError)
    ensures
        e == if already_exists {
            WorkspaceError::Configuration(ConfigurationDiagnostic::AlreadyExists)
        } else {
            WorkspaceError::CantReadFile { path }
        },
{
    if already_exists {
        WorkspaceError::Configuration(ConfigurationDiagnostic::AlreadyExists)
    } else {
        WorkspaceError::cant_read_file(path)
    }
}

/// The error for a configuration that could not be serialised.
pub fn serialization_error() -> (e: WorkspaceError)
    ensures
        e == WorkspaceError::Configuration(ConfigurationDiagnostic::SerializationError),
{
    WorkspaceError::Configuration(ConfigurationDiagnostic::SerializationError)
}

/// The schema of a new configuration file: for a released version, the URL
/// of its schema; for an unreleased build, the local schema where one was
/// found, else the schema that was set.
pub open spec fn schema_for(version: Seq<char>, local_schema_found: bool, current: Option<Seq<char>>) -> Option<Seq<char>> {
    if version == unreleased_version() {
        if local_schema_found {
            Some(local_schema_path())
        } else {
            current
        }
    } else {
        Some(released_schema_url(version))
    }
}

impl PartialConfiguration {
    /// Points the configuration to the schema of `version`;
    /// `local_schema_found` says whether a local installation ships one.
    pub fn set_schema(&mut self, version: &str, local_schema_found: bool)
        ensures
            final(self)@ == (PartialConfigurationView {
                schema: schema_for(version@, local_schema_found, old(self)@.schema),
                ..old(self)@
            }),
    {
        if is_unreleased_version(version) {
            if local_schema_found {
                self.schema = Some(String::from_str("./node_modules/@biomejs/biome/configuration_schema.json"));
            }
        } else {
            let mut url = String::from_str("https://biomejs.dev/schemas/");
            url.append(version);
            url.append("/schema.json");
            self.schema = Some(url);
        }
    }
}

} // verus!
