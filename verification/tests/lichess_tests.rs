use chess2lichess::lichess::{can_import, extract_analysis_url, import_outcome, normalize_lichess_url, ImportOutcome};

#[test]
fn parse_id_response() {
    let body = r#"{"id":"abc"}"#.to_string();
    assert_eq!(
        extract_analysis_url(&body, None, None),
        Some("https://lichess.org/abc".to_string())
    );
}

#[test]
fn parse_url_response() {
    let body = r#"{"url":"https://lichess.org/analysis/xyz"}"#.to_string();
    assert_eq!(
        extract_analysis_url(&body, None, None),
        Some("https://lichess.org/analysis/xyz".to_string())
    );
}

#[test]
fn parse_relative_location() {
    assert_eq!(
        extract_analysis_url("", Some("/xYNyKyLW"), None),
        Some("https://lichess.org/xYNyKyLW".to_string())
    );
}

#[test]
fn normalizing_lichess_urls() {
    assert_eq!(normalize_lichess_url("https://lichess.org/x"), Some("https://lichess.org/x".to_string()));
    assert_eq!(normalize_lichess_url("/x"), Some("https://lichess.org/x".to_string()));
    assert_eq!(normalize_lichess_url("https://example.com/x"), None);
    assert_eq!(normalize_lichess_url(""), None);
    let once = normalize_lichess_url("/abc").unwrap();
    assert_eq!(normalize_lichess_url(&once), Some(once.clone()));
}

#[test]
fn analysis_url_priorities() {
    assert_eq!(
        extract_analysis_url(r#"{"url":"https://example.com/z","id":"q1"}"#, Some("/loc"), None),
        Some("https://lichess.org/q1".to_string())
    );
    assert_eq!(
        extract_analysis_url("<html>", Some("https://evil.com/"), Some("https://lichess.org/final")),
        Some("https://lichess.org/final".to_string())
    );
    assert_eq!(
        extract_analysis_url("  https://lichess.org/body  ", None, None),
        Some("https://lichess.org/body".to_string())
    );
    assert_eq!(extract_analysis_url("", None, Some("https://lichess.org/api/import")), None);
}

#[test]
fn import_outcomes() {
    assert!(matches!(import_outcome(401, None, None, r#"{"id":"a"}"#), ImportOutcome::Denied));
    assert!(matches!(import_outcome(403, None, None, ""), ImportOutcome::Denied));
    match import_outcome(200, None, None, r#"{"id":"a"}"#) {
        ImportOutcome::Imported(u) => assert_eq!(u, "https://lichess.org/a"),
        _ => panic!("expected an URL"),
    }
    assert!(matches!(import_outcome(500, None, None, "oops"), ImportOutcome::NoUrl));
    assert!(can_import("1. e4"));
    assert!(!can_import(" \n\t"));
}
