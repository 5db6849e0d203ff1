use biome_service::configuration::formatter::PartialFormatterConfiguration;
use biome_service::configuration::loaded::{ConfigurationPayload, LoadedConfiguration};
use biome_service::configuration::lookup::{
    config_file_names, parser_options_for, AutoSearchResult, ConfigLookup, ConfigurationBasePath, JsonParserOptions,
    LookupAction, LookupStage, SearchOutcome,
};
use biome_service::configuration::{Deserialized, PartialConfiguration};
use biome_service::diagnostics::{Diagnostic, Severity, WorkspaceError};
use biome_service::string_set::StringSet;

fn diag(severity: Severity, message: &str) -> Diagnostic {
    Diagnostic::new(severity, message.to_string())
}

fn with_schema(schema: &str) -> PartialConfiguration {
    let mut c = PartialConfiguration::default();
    c.schema = Some(schema.to_string());
    c
}

fn found(name: &str) -> AutoSearchResult {
    AutoSearchResult {
        content: "{}".to_string(),
        directory_path: "/project".to_string(),
        file_path: format!("/project/{name}"),
    }
}

fn expect_search(action: &LookupAction) -> (String, Vec<String>) {
    match action {
        LookupAction::Search { directory, file_names } => (directory.clone(), file_names.clone()),
        LookupAction::Finish(_) => panic!("expected a search"),
    }
}

fn start(base: ConfigurationBasePath, wd: Option<&str>) -> (ConfigLookup, LookupAction) {
    ConfigLookup::start(&base, wd.map(|w| w.to_string()), "rome.json".to_string())
}

#[test]
fn lookup_starts_in_the_given_base_path() {
    let (lookup, action) = start(ConfigurationBasePath::FromUser("/user".to_string()), Some("/wd"));
    assert_eq!(lookup.stage, LookupStage::ConfigNames);
    assert!(lookup.should_error);
    assert_eq!(expect_search(&action), ("/user".to_string(), config_file_names()));
    assert_eq!(config_file_names(), vec!["biome.json", "biome.jsonc"]);

    let (lookup, action) = start(ConfigurationBasePath::Lsp("/lsp".to_string()), None);
    assert!(!lookup.should_error);
    assert_eq!(expect_search(&action).0, "/lsp");

    let (lookup, action) = start(ConfigurationBasePath::Unset, Some("/wd"));
    assert!(!lookup.should_error);
    assert_eq!(expect_search(&action), ("/wd".to_string(), config_file_names()));

    let (_, action) = start(ConfigurationBasePath::default(), None);
    assert_eq!(expect_search(&action).0, "");
}

#[test]
fn lookup_ends_when_a_current_name_is_found() {
    let (mut lookup, _) = start(ConfigurationBasePath::Unset, None);
    match lookup.step(SearchOutcome::Found(found("biome.json"))) {
        LookupAction::Finish(Ok(Some(r))) => assert_eq!(r, found("biome.json")),
        other => panic!("unexpected {other:?}"),
    }
    assert_eq!(lookup.stage, LookupStage::Finished);
}

#[test]
fn lookup_falls_back_to_the_deprecated_name() {
    let (mut lookup, _) = start(ConfigurationBasePath::Unset, Some("/wd"));
    let action = lookup.step(SearchOutcome::Missing);
    assert_eq!(expect_search(&action), ("/wd".to_string(), vec!["rome.json".to_string()]));
    assert_eq!(lookup.stage, LookupStage::DeprecatedName);
    match lookup.step(SearchOutcome::Missing) {
        LookupAction::Finish(Ok(None)) => {}
        other => panic!("unexpected {other:?}"),
    }
    assert_eq!(lookup.stage, LookupStage::Finished);
}

#[test]
fn lookup_finds_the_deprecated_name() {
    let (mut lookup, _) = start(ConfigurationBasePath::FromUser("/u".to_string()), None);
    let action = lookup.step(SearchOutcome::Missing);
    assert_eq!(expect_search(&action), ("/u".to_string(), vec!["rome.json".to_string()]));
    match lookup.step(SearchOutcome::Found(found("rome.json"))) {
        LookupAction::Finish(Ok(Some(r))) => assert_eq!(r, found("rome.json")),
        other => panic!("unexpected {other:?}"),
    }
}

#[test]
fn without_user_path_a_read_error_falls_back() {
    let (mut lookup, _) = start(ConfigurationBasePath::Unset, Some("/wd"));
    let err = WorkspaceError::FileSystem { message: "unreadable".to_string() };
    let action = lookup.step(SearchOutcome::Failed(err.clone()));
    assert_eq!(expect_search(&action), ("/wd".to_string(), vec!["rome.json".to_string()]));
    match lookup.step(SearchOutcome::Failed(err.clone())) {
        LookupAction::Finish(Err(e)) => assert_eq!(e, err),
        other => panic!("unexpected {other:?}"),
    }
}

#[test]
fn with_user_path_a_read_error_is_raised() {
    let (mut lookup, _) = start(ConfigurationBasePath::FromUser("/u".to_string()), None);
    let err = WorkspaceError::FileSystem { message: "unreadable".to_string() };
    match lookup.step(SearchOutcome::Failed(err.clone())) {
        LookupAction::Finish(Err(e)) => assert_eq!(e, err),
        other => panic!("unexpected {other:?}"),
    }
    assert_eq!(lookup.stage, LookupStage::Finished);
}

#[test]
fn with_user_path_finding_nothing_is_an_error() {
    let (mut lookup, _) = start(ConfigurationBasePath::FromUser("/u".to_string()), None);
    let _ = lookup.step(SearchOutcome::Missing);
    match lookup.step(SearchOutcome::Missing) {
        LookupAction::Finish(Err(e)) => {
            assert_eq!(e, WorkspaceError::ConfigurationNotFound { directory: "/u".to_string() })
        }
        other => panic!("unexpected {other:?}"),
    }
}

#[test]
fn jsonc_files_allow_comments_and_trailing_commas() {
    let o = parser_options_for(Some("biome.jsonc"));
    assert!(o.allow_comments && o.allow_trailing_commas);
    let o = parser_options_for(Some("biome.json"));
    assert!(!o.allow_comments && !o.allow_trailing_commas);
    let o = parser_options_for(Some("rome.json"));
    assert!(!o.allow_comments);
    let o = parser_options_for(None);
    assert!(!o.allow_comments);
    let o = JsonParserOptions::default();
    assert!(!o.allow_comments && !o.allow_trailing_commas);
}

#[test]
fn base_path_from_user() {
    assert!(ConfigurationBasePath::FromUser("x".to_string()).is_from_user());
    assert!(!ConfigurationBasePath::Lsp("x".to_string()).is_from_user());
    assert!(!ConfigurationBasePath::Unset.is_from_user());
    assert_eq!(ConfigurationBasePath::default(), ConfigurationBasePath::Unset);
}

#[test]
fn no_payload_loads_nothing() {
    let loaded = LoadedConfiguration::try_from_payload(None, vec![]);
    assert_eq!(loaded.configuration, PartialConfiguration::default());
    assert!(loaded.diagnostics.is_empty());
    assert_eq!(loaded.directory_path(), None);
    assert_eq!(loaded.file_path(), None);
    assert!(!loaded.has_errors());
    let d = LoadedConfiguration::default();
    assert_eq!(d.configuration, PartialConfiguration::default());
}

#[test]
fn payload_is_extended_migrated_and_its_diagnostics_located() {
    let mut own = with_schema("own");
    own.formatter = Some(PartialFormatterConfiguration { enabled: None, indent_size: Some(3), indent_width: None });
    own.extends = Some(StringSet::from_vec(vec!["a.json".to_string(), "b.json".to_string()]));
    let payload = ConfigurationPayload {
        deserialized: Deserialized { configuration: Some(own), diagnostics: vec![diag(Severity::Warning, "own")] },
        configuration_file_path: "/p/biome.json".to_string(),
        configuration_directory_path: "/p".to_string(),
    };
    let mut a = with_schema("a");
    a.formatter = Some(PartialFormatterConfiguration { enabled: Some(false), indent_size: None, indent_width: None });
    let extended = vec![
        Deserialized { configuration: Some(a), diagnostics: vec![diag(Severity::Error, "in a")] },
        Deserialized { configuration: None, diagnostics: vec![diag(Severity::Hint, "in b")] },
    ];
    let loaded = LoadedConfiguration::try_from_payload(Some(payload), extended);
    assert_eq!(loaded.directory_path(), Some("/p"));
    assert_eq!(loaded.file_path(), Some("/p/biome.json"));
    assert_eq!(loaded.configuration.schema, Some("own".to_string()));
    assert_eq!(
        loaded.configuration.formatter,
        Some(PartialFormatterConfiguration { enabled: Some(false), indent_size: Some(3), indent_width: Some(3) })
    );
    let messages: Vec<&str> = loaded.diagnostics.iter().map(|d| d.message.as_str()).collect();
    assert_eq!(messages, vec!["own", "in a", "in b"]);
    assert!(loaded.diagnostics.iter().all(|d| d.file_path.as_deref() == Some("/p/biome.json")));
    assert!(loaded.has_errors());

    let mut it = loaded.as_diagnostics_iter();
    assert_eq!(it.next().map(|d| d.message.as_str()), Some("own"));
    assert_eq!(it.next().map(|d| d.message.as_str()), Some("in a"));
    assert_eq!(it.next().map(|d| d.message.as_str()), Some("in b"));
    assert!(it.next().is_none());
    assert!(it.next().is_none());
}

#[test]
fn unreadable_payload_gives_the_empty_configuration() {
    let payload = ConfigurationPayload {
        deserialized: Deserialized { configuration: None, diagnostics: vec![diag(Severity::Fatal, "bad json")] },
        configuration_file_path: "/p/biome.json".to_string(),
        configuration_directory_path: "/p".to_string(),
    };
    let extended = vec![Deserialized { configuration: Some(with_schema("x")), diagnostics: vec![diag(Severity::Error, "x")] }];
    let loaded = LoadedConfiguration::try_from_payload(Some(payload), extended);
    assert_eq!(loaded.configuration, PartialConfiguration::default());
    assert_eq!(loaded.diagnostics.len(), 1);
    assert_eq!(loaded.diagnostics[0].message, "bad json");
    assert!(loaded.has_errors());
}

#[test]
fn apply_extends_applies_left_to_right_and_keeps_own_fields() {
    let mut own = PartialConfiguration::default();
    own.formatter = Some(PartialFormatterConfiguration { enabled: Some(true), indent_size: None, indent_width: None });
    let mut a = PartialConfiguration::default();
    a.formatter = Some(PartialFormatterConfiguration { enabled: Some(false), indent_size: None, indent_width: Some(2) });
    a.schema = Some("a".to_string());
    let mut b = PartialConfiguration::default();
    b.formatter = Some(PartialFormatterConfiguration { enabled: None, indent_size: None, indent_width: Some(4) });
    let mut diagnostics = vec![diag(Severity::Information, "before")];
    own.apply_extends(
        vec![
            Deserialized { configuration: Some(a), diagnostics: vec![diag(Severity::Warning, "a1"), diag(Severity::Warning, "a2")] },
            Deserialized { configuration: Some(b), diagnostics: vec![] },
        ],
        &"/p/biome.json".to_string(),
        &mut diagnostics,
    );
    assert_eq!(
        own.formatter,
        Some(PartialFormatterConfiguration { enabled: Some(true), indent_size: None, indent_width: Some(4) })
    );
    assert_eq!(own.schema, Some("a".to_string()));
    assert_eq!(diagnostics.len(), 3);
    assert_eq!(diagnostics[0].file_path, None);
    assert_eq!(diagnostics[1].message, "a1");
    assert_eq!(diagnostics[1].file_path, Some("/p/biome.json".to_string()));
    assert_eq!(diagnostics[2].message, "a2");
}

#[test]
fn apply_no_extends_changes_nothing() {
    let mut own = PartialConfiguration::init();
    let before = own.clone();
    let mut diagnostics = vec![];
    own.apply_extends(vec![], &"/p/biome.json".to_string(), &mut diagnostics);
    assert_eq!(own, before);
    assert!(diagnostics.is_empty());
}

#[test]
fn severities() {
    assert!(Severity::Error.is_error());
    assert!(Severity::Fatal.is_error());
    assert!(!Severity::Warning.is_error());
    assert!(!Severity::Information.is_error());
    assert!(!Severity::Hint.is_error());
    assert_eq!(Severity::Hint.rank(), 0);
    assert_eq!(Severity::Fatal.rank(), 4);
    let d = diag(Severity::Hint, "m").with_file_path("f".to_string());
    assert_eq!(d.file_path, Some("f".to_string()));
    assert_eq!(d.message, "m");
}

fn extends_list() -> Vec<Deserialized> {
    let mut a = with_schema("a");
    a.formatter = Some(PartialFormatterConfiguration { enabled: Some(false), indent_size: Some(2), indent_width: None });
    a.extends = Some(StringSet::from_vec(vec!["x.json".to_string()]));
    let mut b = PartialConfiguration::default();
    b.formatter = Some(PartialFormatterConfiguration { enabled: None, indent_size: None, indent_width: Some(4) });
    b.extends = Some(StringSet::from_vec(vec!["y.json".to_string(), "x.json".to_string()]));
    vec![
        Deserialized { configuration: Some(a), diagnostics: vec![] },
        Deserialized { configuration: Some(b), diagnostics: vec![] },
    ]
}

#[test]
fn extending_twice_by_the_same_files_is_extending_once() {
    let mut own = PartialConfiguration::default();
    own.extends = Some(StringSet::from_vec(vec!["z.json".to_string()]));
    let mut diagnostics = vec![];
    own.apply_extends(extends_list(), &"f".to_string(), &mut diagnostics);
    let once = own.clone();
    own.apply_extends(extends_list(), &"f".to_string(), &mut diagnostics);
    assert_eq!(own, once);
    assert_eq!(once.extends.unwrap().to_vec(), vec!["x.json", "y.json", "z.json"]);
}

#[test]
fn extending_in_two_steps_is_extending_at_once() {
    let own = || {
        let mut c = PartialConfiguration::default();
        c.schema = Some("own".to_string());
        c
    };
    let mut at_once = own();
    let mut diagnostics = vec![];
    at_once.apply_extends(extends_list(), &"f".to_string(), &mut diagnostics);

    let mut in_steps = own();
    let mut list = extends_list();
    let second = list.pop().unwrap();
    in_steps.apply_extends(vec![second], &"f".to_string(), &mut diagnostics);
    in_steps.apply_extends(list, &"f".to_string(), &mut diagnostics);
    assert_eq!(in_steps, at_once);
}
