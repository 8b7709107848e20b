use radial_menus::catalog::{resolve_catalog, CatalogSource, CATALOG_FILE_NAME};
use radial_menus::error::FileError;
use radial_menus::json::parse_json;

#[test]
fn empty_embedded_catalog_is_an_empty_mapping() {
    assert!(parse_json("{}").is_ok());
    assert_eq!(CATALOG_FILE_NAME, "commands.json");
    let (source, value) = resolve_catalog(&vec![None, None, None], "{}").unwrap();
    assert_eq!(source, CatalogSource::Embedded);
    assert!(value.as_object().map(|m| m.is_empty()).unwrap_or(false));
}

#[test]
fn falls_through_to_embedded_when_no_candidate_exists() {
    let (source, value) = resolve_catalog(&vec![None, None, None], "{\"k\": \"v\"}").unwrap();
    assert_eq!(source, CatalogSource::Embedded);
    assert_eq!(value.get("k").and_then(|x| x.as_str()), Some("v"));
}

#[test]
fn first_usable_candidate_wins() {
    let candidates = vec![None, Some("{\"a\": 1}".to_string()), Some("{\"b\": 2}".to_string())];
    let (source, value) = resolve_catalog(&candidates, "{}").unwrap();
    assert_eq!(source, CatalogSource::External(1));
    assert!(value.get("a").is_some());
}

#[test]
fn malformed_candidate_is_passed_over() {
    let candidates = vec![Some("{broken".to_string()), None, Some("{\"c\": {\"x\": true}}".to_string())];
    let (source, value) = resolve_catalog(&candidates, "{}").unwrap();
    assert_eq!(source, CatalogSource::External(2));
    assert!(value.get("c").is_some());
}

#[test]
fn all_candidates_malformed_uses_embedded() {
    let candidates = vec![Some("x".to_string()), Some("".to_string())];
    let (source, _) = resolve_catalog(&candidates, "{}").unwrap();
    assert_eq!(source, CatalogSource::Embedded);
}

#[test]
fn broken_embedded_catalog_is_an_error() {
    let e = resolve_catalog(&vec![None], "{oops").unwrap_err();
    assert!(matches!(e, FileError::EmbeddedCatalog { .. }));
    assert!(e.message().starts_with("embedded commands.json parse failed: "));
}
