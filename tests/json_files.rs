use radial_menus::error::{FileError, IoFailure, IoKind};
use radial_menus::json::{json_file_text, parse_json, read_json_file};
use serde_json::Value;

fn menu_document() -> Value {
    let mut item = serde_json::Map::new();
    item.insert("command".to_string(), Value::String("copy".to_string()));
    item.insert("icon".to_string(), Value::String("copy.svg".to_string()));
    item.insert("label".to_string(), Value::String("Copy".to_string()));
    let mut doc = serde_json::Map::new();
    doc.insert("name".to_string(), Value::String("Edit".to_string()));
    doc.insert("command".to_string(), Value::String("edit".to_string()));
    doc.insert("items".to_string(), Value::Array(vec![Value::Object(item)]));
    Value::Object(doc)
}

#[test]
fn saved_menu_reads_back_equal() {
    let doc = menu_document();
    let text = json_file_text(&doc).unwrap();
    let back = read_json_file("/m/edit.json", Ok(text)).unwrap();
    assert_eq!(back, doc);
}

#[test]
fn saved_menu_is_indented() {
    let mut doc = serde_json::Map::new();
    doc.insert("name".to_string(), Value::String("x".to_string()));
    let text = json_file_text(&Value::Object(doc)).unwrap();
    assert_eq!(text, "{\n  \"name\": \"x\"\n}");
}

#[test]
fn invalid_json_is_a_parse_error_not_a_missing_file() {
    let e = read_json_file("/m/bad.json", Ok("{ not json".to_string())).unwrap_err();
    assert!(matches!(e, FileError::MalformedJson { .. }));
    assert!(!matches!(e, FileError::Read { .. }));
    assert!(e.message().starts_with("parse /m/bad.json failed: "));
}

#[test]
fn unreadable_file_is_a_read_error() {
    let cause = IoFailure { kind: IoKind::NotFound, detail: "No such file".to_string() };
    let e = read_json_file("/m/none.json", Err(cause)).unwrap_err();
    match &e {
        FileError::Read { path, cause } => {
            assert_eq!(path, "/m/none.json");
            assert_eq!(cause.kind, IoKind::NotFound);
        }
        _ => panic!("expected a read error"),
    }
    assert_eq!(e.message(), "read /m/none.json failed: No such file");
}

#[test]
fn valid_json_file_parses() {
    let v = read_json_file("/m/c.json", Ok("{\"copy\": \"Copy\"}".to_string())).unwrap();
    assert_eq!(v.get("copy").and_then(|x| x.as_str()), Some("Copy"));
}

#[test]
fn parse_json_accepts_and_rejects() {
    assert!(parse_json("[1, 2]").is_ok());
    assert!(parse_json("").is_err());
    assert!(parse_json("{\"a\": }").is_err());
}
