use biome_service::configuration::create::{
    config_file_name, create_open_error, is_unreleased_version, serialization_error,
};
use biome_service::configuration::lookup::AutoSearchResult;
use biome_service::configuration::vcs::{PartialVcsConfiguration, VcsClientKind};
use biome_service::configuration::{gitignore_matches, GitignoreSearch, PartialConfiguration};
use biome_service::diagnostics::{ConfigurationDiagnostic, WorkspaceError};
use biome_service::lines::split_lines;

fn with_vcs(enabled: Option<bool>, client: Option<VcsClientKind>, use_ignore_file: Option<bool>, root: Option<&str>) -> PartialConfiguration {
    let mut c = PartialConfiguration::default();
    c.vcs = Some(PartialVcsConfiguration {
        enabled,
        client_kind: client,
        use_ignore_file,
        root: root.map(|r| r.to_string()),
    });
    c
}

fn search(base: &str, root: Option<&str>) -> GitignoreSearch {
    GitignoreSearch {
        base_path: base.to_string(),
        root: root.map(|r| r.to_string()),
        file_name: ".gitignore".to_string(),
    }
}

#[test]
fn no_vcs_means_no_search() {
    assert_eq!(PartialConfiguration::default().gitignore_search(Some("/b".to_string())), Ok(None));
    let c = with_vcs(Some(false), Some(VcsClientKind::Git), None, None);
    assert_eq!(c.gitignore_search(None), Ok(None));
    let c = with_vcs(None, Some(VcsClientKind::Git), None, Some("r"));
    assert_eq!(c.gitignore_search(None), Ok(None));
}

#[test]
fn enabled_vcs_without_any_path_is_an_error() {
    let c = with_vcs(Some(true), Some(VcsClientKind::Git), None, None);
    assert_eq!(c.gitignore_search(None), Err(WorkspaceError::VcsDisabled));
    assert_eq!(WorkspaceError::vcs_disabled(), WorkspaceError::VcsDisabled);
}

#[test]
fn search_paths() {
    let c = with_vcs(Some(true), Some(VcsClientKind::Git), None, Some("root"));
    assert_eq!(c.gitignore_search(Some("/base".to_string())), Ok(Some(search("/base", Some("root")))));
    assert_eq!(c.gitignore_search(None), Ok(Some(search("root", None))));
    let c = with_vcs(Some(true), Some(VcsClientKind::Git), Some(true), None);
    assert_eq!(c.gitignore_search(Some("/base".to_string())), Ok(Some(search("/base", None))));
}

#[test]
fn no_client_or_disabled_ignore_file_means_no_search() {
    let c = with_vcs(Some(true), None, None, Some("root"));
    assert_eq!(c.gitignore_search(None), Ok(None));
    let c = with_vcs(Some(true), Some(VcsClientKind::Git), Some(false), Some("root"));
    assert_eq!(c.gitignore_search(None), Ok(None));
}

#[test]
fn gitignore_lines() {
    let r = gitignore_matches(Some(AutoSearchResult {
        content: "target\r\n# comment\n\nnode_modules\n".to_string(),
        directory_path: "/repo".to_string(),
        file_path: "/repo/.gitignore".to_string(),
    }));
    assert_eq!(r.0, Some("/repo".to_string()));
    assert_eq!(r.1, vec!["target", "# comment", "", "node_modules"]);
    let r = gitignore_matches(None);
    assert_eq!(r, (None, vec![]));
}

#[test]
fn split_lines_matches_str_lines() {
    let samples = [
        "", "\n", "a", "a\n", "a\nb", "a\r\nb\r\n", "a\r", "\r", "\r\n", "a\n\nb\n", "x\r\ry\n", "\n\n", "é\nü\r\n",
    ];
    for s in samples {
        let expected: Vec<String> = s.lines().map(String::from).collect();
        assert_eq!(split_lines(s), expected, "for {s:?}");
    }
}

#[test]
fn a_final_line_ending_adds_no_line() {
    assert_eq!(split_lines("a\nb"), split_lines("a\nb\n"));
    assert_eq!(split_lines("a\nb"), split_lines("a\nb\r\n"));
    assert_eq!(split_lines("a\r"), split_lines("a\r\r\n"));
}

#[test]
fn file_name_to_create() {
    assert_eq!(config_file_name(true), "biome.jsonc");
    assert_eq!(config_file_name(false), "biome.json");
}

#[test]
fn schema_of_a_released_version() {
    let mut c = PartialConfiguration::init();
    c.set_schema("1.5.3", false);
    assert_eq!(c.schema, Some("https://biomejs.dev/schemas/1.5.3/schema.json".to_string()));
    let mut d = PartialConfiguration::init();
    d.set_schema("1.5.3", true);
    assert_eq!(d.schema, c.schema);
}

#[test]
fn schema_of_an_unreleased_build() {
    assert!(is_unreleased_version("0.0.0"));
    assert!(!is_unreleased_version("0.0.1"));
    let mut c = PartialConfiguration::init();
    c.set_schema("0.0.0", true);
    assert_eq!(c.schema, Some("./node_modules/@biomejs/biome/configuration_schema.json".to_string()));
    let mut c = PartialConfiguration::init();
    c.set_schema("0.0.0", false);
    assert_eq!(c.schema, None);
    let mut c = PartialConfiguration::init();
    c.schema = Some("kept".to_string());
    c.set_schema("0.0.0", false);
    assert_eq!(c.schema, Some("kept".to_string()));
}

#[test]
fn errors_of_creation() {
    assert_eq!(
        create_open_error(true, "biome.json".to_string()),
        WorkspaceError::Configuration(ConfigurationDiagnostic::AlreadyExists)
    );
    assert_eq!(
        create_open_error(false, "biome.json".to_string()),
        WorkspaceError::CantReadFile { path: "biome.json".to_string() }
    );
    assert_eq!(
        serialization_error(),
        WorkspaceError::Configuration(ConfigurationDiagnostic::SerializationError)
    );
    assert_eq!(
        WorkspaceError::cant_read_file("x".to_string()),
        WorkspaceError::CantReadFile { path: "x".to_string() }
    );
}
