use baml_gleam::value::BamlValue;
use baml_gleam::wasm_calls::{parse_env_vars, parse_files, parse_runtime_context};

fn entry(k: Option<&str>, v: Option<&str>) -> (Option<String>, Option<String>) {
    (k.map(|x| x.to_string()), v.map(|x| x.to_string()))
}

#[test]
fn env_vars_from_object_entries() {
    assert!(parse_env_vars(None).unwrap().is_empty());
    let vars = parse_env_vars(Some(vec![entry(Some("A"), Some("1")), entry(Some("B"), Some("2")), entry(Some("A"), Some("3"))]))
        .unwrap();
    assert_eq!(
        vars,
        vec![
            ("A".to_string(), "1".to_string()),
            ("B".to_string(), "2".to_string()),
            ("A".to_string(), "3".to_string())
        ]
    );
}

#[test]
fn env_vars_must_be_strings() {
    let e = parse_env_vars(Some(vec![entry(Some("A"), Some("1")), entry(None, None)])).unwrap_err();
    assert_eq!(e, "Invalid env var key");
    let e = parse_env_vars(Some(vec![entry(Some("A"), None), entry(None, Some("x"))])).unwrap_err();
    assert_eq!(e, "Invalid env var value");
}

#[test]
fn files_keep_first_position_and_last_content() {
    assert!(parse_files(None).unwrap().is_empty());
    let files = parse_files(Some(vec![
        entry(Some("main.baml"), Some("a")),
        entry(Some("b.baml"), Some("b")),
        entry(Some("main.baml"), Some("c")),
    ]))
    .unwrap();
    let in_order: Vec<(String, String)> = files.into_iter().collect();
    assert_eq!(
        in_order,
        vec![("main.baml".to_string(), "c".to_string()), ("b.baml".to_string(), "b".to_string())]
    );
}

#[test]
fn files_must_be_strings() {
    assert_eq!(parse_files(Some(vec![entry(None, Some("x"))])).unwrap_err(), "Invalid file path");
    assert_eq!(parse_files(Some(vec![entry(Some("p"), None)])).unwrap_err(), "Invalid file content");
}

#[test]
fn js_context_keeps_string_tags() {
    assert!(parse_runtime_context(None).tags.is_empty());
    let c = parse_runtime_context(Some(vec![Some("x".to_string()), None, Some("y".to_string()), Some("x".to_string())]));
    assert_eq!(c.tags.len(), 2);
    assert_eq!(c.tags[0].0, "x");
    assert!(matches!(&c.tags[0].1, BamlValue::String(v) if v == "x"));
    assert_eq!(c.tags[1].0, "y");
}
