//! The decisions taken while the configuration file is looked up: where
//! the search starts, which names are searched for, when the deprecated name
//! is tried, and how the file found is to be parsed.

use vstd::prelude::*;
use crate::diagnostics::WorkspaceError;
use crate::string_set::strings_view;

verus! {

/// Where the configuration is looked for.
#[derive(Clone, Debug, PartialEq, Eq)]
pub enum ConfigurationBasePath {
    /// The default mode: not having a configuration file is not an error.
    Unset,
    /// The base path given by the language server: not having a
    /// configuration file is not an error.
    Lsp(String),
    /// The base path given by the user: not having a configuration file is
    /// an error.
    FromUser(String),
}

impl Default for ConfigurationBasePath {
    fn default() -> (p: ConfigurationBasePath)
        ensures
            p == ConfigurationBasePath::Unset,
    {
        ConfigurationBasePath::Unset
    }
}

impl ConfigurationBasePath {
    /// Whether the base path was given by the user.
    pub fn is_from_user(&self) -> (b: bool)
        ensures
            b == (*self is FromUser),
    {
        match self {
            ConfigurationBasePath::FromUser(_) => true,
            _ => false,
        }
    }
}

/// The name of the configuration file.
pub open spec fn biome_json_name() -> Seq<char> {
    "biome.json"@
}

/// The name of the configuration file that may hold comments and trailing
/// commas.
pub open spec fn biome_jsonc_name() -> Seq<char> {
    "biome.jsonc"@
}

/// The name of the configuration file.
pub fn biome_json() -> (name: String)
    ensures
        name@ == biome_json_name(),
{
    String::from_str("biome.json")
}

/// The name of the configuration file that may hold comments and trailing
/// commas.
pub fn biome_jsonc() -> (name: String)
    ensures
        name@ == biome_jsonc_name(),
{
    String::from_str("biome.jsonc")
}

/// The names under which a configuration file is looked for, in order.
pub fn config_file_names() -> (names: Vec<String>)
    ensures
        strings_view(names@) == seq![biome_json_name(), biome_jsonc_name()],
{
    let mut names = Vec::new();
    names.push(biome_json());
    names.push(biome_jsonc());
    proof {
        assert(strings_view(names@) =~= seq![biome_json_name(), biome_jsonc_name()]);
    }
    names
}

/// The directory where the search for the configuration starts: the base
/// path where one was given, else the working directory, else the empty
/// path.
pub open spec fn configuration_directory(base_path: ConfigurationBasePath, working_directory: Option<Seq<char>>) -> Seq<char> {
    match base_path {
        ConfigurationBasePath::Lsp(p) => p@,
        ConfigurationBasePath::FromUser(p) => p@,
        ConfigurationBasePath::Unset => match working_directory {
            Some(wd) => wd,
            None => Seq::empty(),
        },
    }
}

/// What a search for a file found: its content, the directory where it was
/// found and its path.
#[derive(Clone, Debug, PartialEq, Eq)]
pub struct AutoSearchResult {
    /// The content of the file.
    pub content: String,
    /// The directory where the file was found.
    pub directory_path: String,
    /// The path of the file.
    pub file_path: String,
}

/// How far the lookup of a configuration file has come.
#[derive(Clone, Copy, Debug, PartialEq, Eq, Structural)]
pub enum LookupStage {
    /// The current names of the configuration file are searched for.
    ConfigNames,
    /// The deprecated name is searched for.
    DeprecatedName,
    /// The lookup is over.
    Finished,
}

/// What a search for a file found.
#[derive(Clone, Debug, PartialEq, Eq)]
pub enum SearchOutcome {
    /// A file was found and read.
    Found(AutoSearchResult),
    /// No file with one of the names searched for exists.
    Missing,
    /// A file was found but could not be read.
    Failed(WorkspaceError),
}

/// What the caller of a lookup is to do next.
#[derive(Debug)]
pub enum LookupAction {
    /// Search for a file with one of `file_names`, from `directory` upwards,
    /// and report what was found with `ConfigLookup::step`.
    Search { directory: String, file_names: Vec<String> },
    /// The lookup is over, with this result.
    Finish(Result<Option<AutoSearchResult>, WorkspaceError>),
}

/// The lookup of a configuration file: first under its current names, then,
/// where no file has one of them, under the deprecated name. With a base
/// path given by the user, a file that cannot be read, or finding no file at
/// all, is an error.
#[derive(Debug)]
pub struct ConfigLookup {
    /// The directory where every search starts.
    pub directory: String,
    /// The deprecated name of the configuration file.
    pub deprecated_name: String,
    /// Whether not finding or not reading a file is an error.
    pub should_error: bool,
    /// How far the lookup has come.
    pub stage: LookupStage,
}

/// The action searches for `names` from `directory`.
pub open spec fn is_search(action: LookupAction, directory: Seq<char>, names: Seq<Seq<char>>) -> bool {
    &&& action matches LookupAction::Search { directory: d, file_names: f }
    &&& d@ == directory
    &&& strings_view(f@) == names
}

/// How the lookup ends when the last search, under the deprecated name,
/// found nothing: with an error where not finding a file is one.
pub open spec fn not_found_result(should_error: bool, directory: String) -> Result<Option<AutoSearchResult>, WorkspaceError> {
    if should_error {
        Err(WorkspaceError::ConfigurationNotFound { directory })
    } else {
        Ok(None)
    }
}

impl ConfigLookup {
    /// Starts the lookup: the search begins with the current names of the
    /// configuration file; failing is an error only where the user gave the
    /// base path.
    pub fn start(base_path: &ConfigurationBasePath, working_directory: Option<String>, deprecated_name: String) -> (r: (
        ConfigLookup,
        LookupAction,
    ))
        ensures
            r.0.directory@ == configuration_directory(
                *base_path,
                match working_directory {
                    Some(wd) => Some(wd@),
                    None => None,
                },
            ),
            r.0.deprecated_name == deprecated_name,
            r.0.should_error == (*base_path is FromUser),
            r.0.stage == LookupStage::ConfigNames,
            is_search(r.1, r.0.directory@, seq![biome_json_name(), biome_jsonc_name()]),
    {
        let directory = match base_path {
            ConfigurationBasePath::Lsp(path) => path.clone(),
            ConfigurationBasePath::FromUser(path) => path.clone(),
            ConfigurationBasePath::Unset => match working_directory {
                Some(wd) => wd,
                None => String::new(),
            },
        };
        let should_error = base_path.is_from_user();
        let action = LookupAction::Search { directory: directory.clone(), file_names: config_file_names() };
        (ConfigLookup { directory, deprecated_name, should_error, stage: LookupStage::ConfigNames }, action)
    }

    /// Takes the outcome of the last search.
    ///
    /// A file found ends the lookup with it. A file that cannot be read ends
    /// the lookup with that error, except in the first search where failing
    /// is not an error: there, as where no file has a current name, the
    /// deprecated name is searched for next. Where no file has the
    /// deprecated name either, the lookup ends with nothing found, which is
    /// an error where failing is one.
    pub fn step(&mut self, outcome: SearchOutcome) -> (action: LookupAction)
        requires
            old(self).stage != LookupStage::Finished,
        ensures
            final(self).directory == old(self).directory,
            final(self).deprecated_name == old(self).deprecated_name,
            final(self).should_error == old(self).should_error,
            outcome matches SearchOutcome::Found(r) ==> {
                &&& final(self).stage == LookupStage::Finished
                &&& action == LookupAction::Finish(Ok(Some(r)))
            },
            old(self).should_error || old(self).stage == LookupStage::DeprecatedName ==> (
            outcome matches SearchOutcome::Failed(e) ==> {
                &&& final(self).stage == LookupStage::Finished
                &&& action == LookupAction::Finish(Err(e))
            }),
            old(self).stage == LookupStage::ConfigNames && (outcome is Missing || (outcome is Failed
                && !old(self).should_error)) ==> {
                &&& final(self).stage == LookupStage::DeprecatedName
                &&& is_search(action, old(self).directory@, seq![old(self).deprecated_name@])
            },
            old(self).stage == LookupStage::DeprecatedName && outcome is Missing ==> {
                &&& final(self).stage == LookupStage::Finished
                &&& action == LookupAction::Finish(not_found_result(old(self).should_error, old(self).directory))
            },
    {
        match outcome {
            SearchOutcome::Found(found) => {
                self.stage = LookupStage::Finished;
                LookupAction::Finish(Ok(Some(found)))
            },
            SearchOutcome::Failed(e) if self.should_error || self.stage == LookupStage::DeprecatedName => {
                self.stage = LookupStage::Finished;
                LookupAction::Finish(Err(e))
            },
            _ => {
                if self.stage == LookupStage::ConfigNames {
                    self.stage = LookupStage::DeprecatedName;
                    let mut names = Vec::new();
                    names.push(self.deprecated_name.clone());
                    proof {
                        assert(strings_view(names@) =~= seq![self.deprecated_name@]);
                    }
                    LookupAction::Search { directory: self.directory.clone(), file_names: names }
                } else {
                    self.stage = LookupStage::Finished;
                    if self.should_error {
                        LookupAction::Finish(Err(WorkspaceError::ConfigurationNotFound { directory: self.directory.clone() }))
                    } else {
                        LookupAction::Finish(Ok(None))
                    }
                }
            },
        }
    }
}

/// How a configuration file is to be parsed.
#[derive(Clone, Copy, Debug, PartialEq, Eq, Structural)]
pub struct JsonParserOptions {
    /// Whether comments are allowed.
    pub allow_comments: bool,
    /// Whether trailing commas are allowed.
    pub allow_trailing_commas: bool,
}

impl Default for JsonParserOptions {
    /// Plain JSON: neither comments nor trailing commas. Files listed in
    /// `extends` are read this way.
    fn default() -> (options: JsonParserOptions)
        ensures
            !options.allow_comments,
            !options.allow_trailing_commas,
    {
        JsonParserOptions { allow_comments: false, allow_trailing_commas: false }
    }
}

/// A file named `biome.jsonc` may hold comments and trailing commas; any
/// other configuration file is plain JSON.
pub fn parser_options_for(file_name: Option<&str>) -> (options: JsonParserOptions)
    ensures
        options.allow_comments == (file_name matches Some(n) && n@ == biome_jsonc_name()),
        options.allow_trailing_commas == options.allow_comments,
{
    let jsonc = match file_name {
        Some(n) => String::from_str(n) == biome_jsonc(),
        None => false,
    };
    JsonParserOptions { allow_comments: jsonc, allow_trailing_commas: jsonc }
}

} // verus!
