use biome_service::configuration::lookup::JsonParserOptions;
use biome_service::jsonc::{drop_trailing_commas, prepare_json, strip_comments};

const JSONC: JsonParserOptions = JsonParserOptions { allow_comments: true, allow_trailing_commas: true };
const JSON: JsonParserOptions = JsonParserOptions { allow_comments: false, allow_trailing_commas: false };

#[test]
fn comments_are_removed_outside_strings() {
    assert_eq!(strip_comments("{\"a\": 1 // one\n}").as_deref(), Some("{\"a\": 1 \n}"));
    assert_eq!(strip_comments("{/* x */\"a\": 1}").as_deref(), Some("{ \"a\": 1}"));
    assert_eq!(strip_comments("{\"a\": \"// not /* a comment\"}").as_deref(), Some("{\"a\": \"// not /* a comment\"}"));
    assert_eq!(strip_comments("\"\\\"//\"").as_deref(), Some("\"\\\"//\""));
    assert_eq!(strip_comments("/**/1/***/").as_deref(), Some(" 1 "));
    assert_eq!(strip_comments("1/2").as_deref(), Some("1/2"));
    assert_eq!(strip_comments("1/").as_deref(), Some("1/"));
    assert_eq!(strip_comments("1 // end").as_deref(), Some("1 "));
    assert_eq!(strip_comments("1 /* open"), None);
    assert_eq!(strip_comments("1 /* open *"), None);
}

#[test]
fn trailing_commas_are_dropped() {
    assert_eq!(drop_trailing_commas("[1, 2, ]"), "[1, 2 ]");
    assert_eq!(drop_trailing_commas("{\"a\": 1,\n}"), "{\"a\": 1\n}");
    assert_eq!(drop_trailing_commas("[1,2]"), "[1,2]");
    assert_eq!(drop_trailing_commas("[\",]\"]"), "[\",]\"]");
    assert_eq!(drop_trailing_commas("[1,,]"), "[1,,]");
    assert_eq!(drop_trailing_commas("[,]"), "[,]");
    assert_eq!(drop_trailing_commas("{,}"), "{,}");
    assert_eq!(drop_trailing_commas("{\"a\": [1, ], \"b\": \"x\",\n}"), "{\"a\": [1 ], \"b\": \"x\"\n}");
    assert_eq!(drop_trailing_commas("[[1],{}, ]"), "[[1],{} ]");
    assert_eq!(drop_trailing_commas("1, "), "1, ");
}

#[test]
fn prepare_follows_the_options() {
    let text = "{\n  // comment\n  \"formatter\": { \"enabled\": false, },\n}";
    let json = prepare_json(text, JSONC).unwrap();
    let value: serde_json::Value = serde_json::from_str(&json).unwrap();
    assert_eq!(value["formatter"]["enabled"], serde_json::Value::Bool(false));
    assert_eq!(prepare_json(text, JSON).as_deref(), Some(text));
    assert_eq!(prepare_json("{} /*", JSONC), None);
    assert_eq!(prepare_json("{} /*", JSON).as_deref(), Some("{} /*"));
}

#[test]
fn a_lone_comma_is_still_invalid() {
    let json = prepare_json("[,]", JSONC).unwrap();
    assert!(serde_json::from_str::<serde_json::Value>(&json).is_err());
    let json = prepare_json("{\"a\": 1,}", JSONC).unwrap();
    assert!(serde_json::from_str::<serde_json::Value>(&json).is_ok());
}
