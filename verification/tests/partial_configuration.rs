use biome_service::configuration::css::{PartialCssConfiguration, PartialCssFormatter};
use biome_service::configuration::formatter::PartialFormatterConfiguration;
use biome_service::configuration::javascript::{PartialJavascriptConfiguration, PartialJavascriptFormatter};
use biome_service::configuration::json::{PartialJsonConfiguration, PartialJsonFormatter};
use biome_service::configuration::linter::{PartialLinterConfiguration, Rules};
use biome_service::configuration::organize_imports::PartialOrganizeImports;
use biome_service::configuration::vcs::{PartialVcsConfiguration, VcsClientKind};
use biome_service::configuration::{FilesConfiguration, PartialConfiguration, PartialFilesConfiguration};
use biome_service::merge::Merge;
use biome_service::string_set::StringSet;

fn set(items: &[&str]) -> StringSet {
    StringSet::from_vec(items.iter().map(|s| s.to_string()).collect())
}

fn formatter(enabled: Option<bool>, size: Option<u8>, width: Option<u8>) -> PartialFormatterConfiguration {
    PartialFormatterConfiguration { enabled, indent_size: size, indent_width: width }
}

fn vcs(enabled: Option<bool>) -> PartialVcsConfiguration {
    PartialVcsConfiguration { enabled, client_kind: None, use_ignore_file: None, root: None }
}

#[test]
fn init_enables_import_sorting_and_recommended_lint_rules() {
    let c = PartialConfiguration::init();
    assert_eq!(c.organize_imports, Some(PartialOrganizeImports { enabled: Some(true) }));
    assert_eq!(
        c.linter,
        Some(PartialLinterConfiguration {
            enabled: Some(true),
            rules: Some(Rules { recommended: Some(true), all: None }),
        })
    );
    assert_eq!(c.schema, None);
    assert_eq!(c.formatter, None);
    assert_eq!(c.vcs, None);
    assert_eq!(c.files, None);
    assert_eq!(c.javascript, None);
    assert_eq!(c.json, None);
    assert_eq!(c.css, None);
    assert_eq!(c.extends, None);
    assert!(!c.is_formatter_disabled());
    assert!(!c.is_linter_disabled());
    assert!(!c.is_organize_imports_disabled());
    assert!(c.is_vcs_disabled());
    assert!(!c.is_vcs_enabled());
}

#[test]
fn tools_are_disabled_only_when_enabled_is_false() {
    let mut c = PartialConfiguration::default();
    assert!(!c.is_formatter_disabled());
    c.formatter = Some(formatter(None, None, None));
    assert!(!c.is_formatter_disabled());
    c.formatter = Some(formatter(Some(true), None, None));
    assert!(!c.is_formatter_disabled());
    c.formatter = Some(formatter(Some(false), None, None));
    assert!(c.is_formatter_disabled());

    c.linter = Some(PartialLinterConfiguration { enabled: Some(false), rules: None });
    assert!(c.is_linter_disabled());
    c.linter = Some(PartialLinterConfiguration { enabled: None, rules: None });
    assert!(!c.is_linter_disabled());

    c.organize_imports = Some(PartialOrganizeImports { enabled: Some(false) });
    assert!(c.is_organize_imports_disabled());
    c.organize_imports = Some(PartialOrganizeImports { enabled: Some(true) });
    assert!(!c.is_organize_imports_disabled());
}

#[test]
fn vcs_is_enabled_only_when_enabled_is_true() {
    let mut c = PartialConfiguration::default();
    assert!(c.is_vcs_disabled());
    c.vcs = Some(vcs(None));
    assert!(c.is_vcs_disabled());
    assert!(!c.is_vcs_enabled());
    c.vcs = Some(vcs(Some(false)));
    assert!(c.is_vcs_disabled());
    c.vcs = Some(vcs(Some(true)));
    assert!(!c.is_vcs_disabled());
    assert!(c.is_vcs_enabled());
}

#[test]
fn vcs_ignore_file() {
    assert_eq!(VcsClientKind::Git.ignore_file(), ".gitignore");
    let mut v = vcs(Some(true));
    assert!(v.is_enabled());
    assert!(!v.is_disabled());
    assert!(!v.ignore_file_disabled());
    v.use_ignore_file = Some(false);
    assert!(v.ignore_file_disabled());
    v.use_ignore_file = Some(true);
    assert!(!v.ignore_file_disabled());
}

#[test]
fn migrate_moves_indent_size_to_an_unset_indent_width() {
    let mut c = PartialConfiguration::default();
    c.formatter = Some(formatter(None, Some(4), None));
    c.javascript = Some(PartialJavascriptConfiguration {
        formatter: Some(PartialJavascriptFormatter { indent_size: Some(8), indent_width: Some(2) }),
    });
    c.json = Some(PartialJsonConfiguration {
        formatter: Some(PartialJsonFormatter { indent_size: Some(3), indent_width: None }),
    });
    c.css = Some(PartialCssConfiguration {
        formatter: Some(PartialCssFormatter { indent_size: None, indent_width: None }),
    });
    c.migrate_deprecated_fields();
    assert_eq!(c.formatter, Some(formatter(None, Some(4), Some(4))));
    assert_eq!(
        c.javascript.as_ref().unwrap().formatter,
        Some(PartialJavascriptFormatter { indent_size: Some(8), indent_width: Some(2) })
    );
    assert_eq!(
        c.json.as_ref().unwrap().formatter,
        Some(PartialJsonFormatter { indent_size: Some(3), indent_width: Some(3) })
    );
    assert_eq!(
        c.css.as_ref().unwrap().formatter,
        Some(PartialCssFormatter { indent_size: None, indent_width: None })
    );
    let once = c.clone();
    c.migrate_deprecated_fields();
    assert_eq!(c, once);
}

#[test]
fn migrate_leaves_a_configuration_without_formatters_alone() {
    let mut c = PartialConfiguration::init();
    c.javascript = Some(PartialJavascriptConfiguration { formatter: None });
    let before = c.clone();
    c.migrate_deprecated_fields();
    assert_eq!(c, before);
}

#[test]
fn merge_prefers_what_the_other_side_sets() {
    let mut a = PartialConfiguration::default();
    a.schema = Some("a".to_string());
    a.formatter = Some(formatter(Some(true), Some(2), None));
    a.extends = Some(set(&["x.json", "y.json"]));
    let mut b = PartialConfiguration::default();
    b.formatter = Some(formatter(Some(false), None, Some(4)));
    b.extends = Some(set(&["y.json", "z.json"]));
    b.vcs = Some(vcs(Some(true)));
    a.merge_with(b);
    assert_eq!(a.schema, Some("a".to_string()));
    assert_eq!(a.formatter, Some(formatter(Some(false), Some(2), Some(4))));
    assert_eq!(a.extends.unwrap().to_vec(), vec!["x.json", "y.json", "z.json"]);
    assert_eq!(a.vcs, Some(vcs(Some(true))));
}

#[test]
fn merge_with_itself_and_with_empty_changes_nothing() {
    let mut c = PartialConfiguration::init();
    c.files = Some(PartialFilesConfiguration {
        max_size: Some(10),
        ignore: Some(set(&["a", "b"])),
        included: None,
        ignore_unknown: Some(true),
    });
    let copy = c.clone();
    let mut merged = c.clone();
    merged.merge_with(copy.clone());
    assert_eq!(merged, copy);
    let mut with_empty = c.clone();
    with_empty.merge_with(PartialConfiguration::default());
    assert_eq!(with_empty, copy);
    let mut empty = PartialConfiguration::default();
    empty.merge_with(c);
    assert_eq!(empty, copy);
}

#[test]
fn files_configuration_default() {
    let f = FilesConfiguration::default();
    assert_eq!(f.max_size, 1024 * 1024);
    assert!(f.ignore.is_empty());
    assert!(f.included.is_empty());
    assert!(!f.ignore_unknown);
}

#[test]
fn extends_paths_in_order() {
    let mut c = PartialConfiguration::default();
    assert!(c.extends_paths().is_empty());
    c.extends = Some(set(&["b.json", "a.json", "b.json"]));
    assert_eq!(c.extends_paths(), vec!["b.json", "a.json"]);
}
