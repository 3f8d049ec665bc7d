use drivefiles::catalog::ObjectMetadata;
use drivefiles::query::QueryError;
use drivefiles::resolve::resolve;

fn meta(id: &str, name: &str, size: u64, date: &str) -> ObjectMetadata {
    ObjectMetadata {
        id: id.to_string(),
        name: name.to_string(),
        last_modified: date.to_string(),
        size,
    }
}

fn catalog() -> Vec<ObjectMetadata> {
    vec![
        meta("1", "report.txt", 10, "2023-01-01"),
        meta("2", "report-final.txt", 20, "2023-01-02"),
        meta("3", "notes.md", 5, "2023-01-03"),
    ]
}

#[test]
fn treat_as_id_returns_input_unchanged() {
    let id = resolve(catalog(), "anything-at-all", true).unwrap();
    assert_eq!(id, "anything-at-all");
}

#[test]
fn treat_as_id_ignores_the_catalog() {
    let id = resolve(Vec::new(), "opaque-id", true).unwrap();
    assert_eq!(id, "opaque-id");
}

#[test]
fn unique_name_resolves_to_its_id() {
    let id = resolve(catalog(), "notes", false).unwrap();
    assert_eq!(id, "3");
}

#[test]
fn unique_substring_resolves() {
    let id = resolve(catalog(), "final", false).unwrap();
    assert_eq!(id, "2");
}

#[test]
fn missing_name_fails_with_not_found() {
    let err = resolve(catalog(), "missing-name", false).unwrap_err();
    match err {
        QueryError::NotFound { name } => assert_eq!(name, "missing-name"),
        other => panic!("expected NotFound, got {:?}", other),
    }
}

#[test]
fn missing_name_on_empty_catalog_fails_with_not_found() {
    let err = resolve(Vec::new(), "missing-name", false).unwrap_err();
    match err {
        QueryError::NotFound { name } => assert_eq!(name, "missing-name"),
        other => panic!("expected NotFound, got {:?}", other),
    }
}

#[test]
fn ambiguous_name_fails_with_all_candidates() {
    let err = resolve(catalog(), "report", false).unwrap_err();
    match err {
        QueryError::ExcessMatches { limit, candidates } => {
            assert_eq!(limit, 1);
            let ids: Vec<&str> = candidates.iter().map(|m| m.id.as_str()).collect();
            assert_eq!(ids, vec!["1", "2"]);
        }
        other => panic!("expected ExcessMatches, got {:?}", other),
    }
}
