use chess2lichess::json::JsonValue;
use chess2lichess::metadata::{
    count_full_moves, eco_opening_lookup, eco_openings, header_value, parse_csv_field,
    parse_eco_opening_record, parse_eco_openings_csv, parse_pgn_headers, GameMetadata,
};
use chess2lichess::pgn_extract::{
    cleanup_pgn, decode_html_entities, extract_pgn_from_body, extract_pgn_from_data_attr,
    extract_pgn_from_embedded_assignment, extract_pgn_from_embedded_json,
    extract_pgn_from_json_value, extract_pgn_from_key_value, extract_pgn_from_scripts,
    looks_like_pgn,
};

#[test]
fn counting_moves() {
    assert_eq!(count_full_moves("1. e4 e5 2. Nf3"), Some(2));
    assert_eq!(count_full_moves("[Event \"x\"]\n1. e4 { long\ncomment } e5 (1... c5 2. Nf3) 2. Nf3 Nc6 1-0"), Some(2));
    assert_eq!(count_full_moves("1... e5 $1 *"), Some(1));
    assert_eq!(count_full_moves("1. e4 ; the rest is a comment e5 d4\n2. d4"), Some(1));
    assert_eq!(count_full_moves("[Event \"x\"]\n1-0"), None);
    assert_eq!(count_full_moves(""), None);
    assert_eq!(count_full_moves("1.e4"), Some(1));
}

#[test]
fn header_pairs() {
    let headers = parse_pgn_headers("  [White \"a \\\"b\\\"\"]  \n[Bad tag]\n[Site_2   \"x\"]\n[White \"c\"]");
    assert_eq!(
        headers,
        vec![
            ("White".to_string(), "c".to_string()),
            ("Site_2".to_string(), "x".to_string()),
        ]
    );
    assert_eq!(header_value(&headers, "White"), Some("c".to_string()));
    assert_eq!(header_value(&headers, "Black"), None);
}

#[test]
fn repeated_tags_keep_their_last_value() {
    let pgn = [
        r#"  [Event "A \"B\""]  "#,
        r#"[White "X"]"#,
        r#"[White "Y"]"#,
        r#"[Bad-Key "z"]"#,
        "1. e4",
    ]
    .join("\n");
    let headers = parse_pgn_headers(&pgn);
    assert_eq!(headers.len(), 2);
    assert_eq!(header_value(&headers, "Event").as_deref(), Some(r#"A "B""#));
    assert_eq!(header_value(&headers, "White").as_deref(), Some("Y"));
    let m = GameMetadata::from_pgn(&pgn);
    assert_eq!(m.white.as_deref(), Some("Y"));
}

#[test]
fn metadata_labels() {
    let m = GameMetadata::from_pgn("[Black \"b\"]\n[Result \"0-1\"]\n1. d4 d5");
    assert_eq!(m.players_label().as_deref(), Some("b (?)"));
    assert_eq!(m.summary_bits(), vec!["Result: 0-1".to_string(), "Moves: 1".to_string()]);
    assert_eq!(m.opening_label().as_deref(), Some("Unknown opening"));
    assert_eq!(GameMetadata::format_player("x", Some("2000")), "x (2000)");
    assert_eq!(GameMetadata::format_player("x", None), "x (?)");
    let none = GameMetadata::default();
    assert_eq!(none.players_label(), None);
    assert!(none.summary_bits().is_empty());
    let eco_only = GameMetadata { eco: Some("Z99".to_string()), ..Default::default() };
    assert_eq!(eco_only.opening_label().as_deref(), Some("Z99"));
    let named = GameMetadata { eco: Some("B90".to_string()), ..Default::default() };
    assert_eq!(
        named.opening_label().as_deref(),
        Some("Sicilian Defense, Najdorf Variation (B90)")
    );
}

#[test]
fn eco_openings_csv_covers_full_eco_range() {
    assert_eq!(eco_openings().len(), 500);
    assert_eq!(
        eco_opening_lookup("D72").as_deref(),
        Some("Neo-Grünfeld Defense: 5. cxd5, Main Line")
    );
    assert_eq!(
        eco_opening_lookup("D73").as_deref(),
        Some("Neo-Grünfeld Defense: 5. Nf3")
    );
    assert_eq!(
        eco_opening_lookup("E57").as_deref(),
        Some(
            "Nimzo-Indian Defense: Normal Variation, Gligoric System, Bernstein Defense, 9. Bxc4 cxd4"
        )
    );
    assert_eq!(
        eco_opening_lookup("E88").as_deref(),
        Some("King's Indian Defense: Sämisch Variation, Orthodox Variation, 7. d5 c6")
    );
}

#[test]
fn eco_table_keys_run_from_a00_to_e99() {
    let table = eco_openings();
    let keys: Vec<String> = table.iter().map(|(k, _)| k.clone()).collect();
    let expected: Vec<String> = "ABCDE"
        .chars()
        .flat_map(|l| (0..100).map(move |n| format!("{l}{n:02}")))
        .collect();
    assert_eq!(keys, expected);
    assert!(table.iter().all(|(_, name)| !name.trim().is_empty()));
    assert_eq!(eco_opening_lookup("C20").as_deref(), Some("Open Game"));
    assert_eq!(eco_opening_lookup(" A00 ").as_deref(), Some("Irregular Openings"));
    assert_eq!(eco_opening_lookup("F00"), None);
    assert_eq!(eco_opening_lookup("a00"), None);
}

#[test]
fn eco_csv_parsing() {
    assert_eq!(parse_csv_field("  \"a \"\"b\"\"\"  "), "a \"b\"");
    assert_eq!(parse_csv_field(" plain "), "plain");
    assert_eq!(parse_csv_field("\""), "\"");
    assert_eq!(
        parse_eco_opening_record("A01,\"Nimzo, Larsen\"\r\r"),
        Some(("A01".to_string(), "Nimzo, Larsen".to_string()))
    );
    assert_eq!(parse_eco_opening_record("no comma"), None);
    let table = parse_eco_openings_csv("eco,name\nA00,First\n\n  \nA01,Second\nbroken\nA00,Again\n");
    assert_eq!(
        table,
        vec![
            ("A00".to_string(), "Again".to_string()),
            ("A01".to_string(), "Second".to_string()),
        ]
    );
    assert!(parse_eco_openings_csv("").is_empty());
    assert!(parse_eco_openings_csv("A00,only header").is_empty());
}

#[test]
fn html_entities_are_replaced_in_order() {
    assert_eq!(decode_html_entities("a &amp; b &quot;c&#34; &#39;d&apos;"), "a & b \"c\" 'd'");
    assert_eq!(decode_html_entities("&amp;quot;"), "\"");
    assert_eq!(decode_html_entities("plain"), "plain");
}

#[test]
fn pgn_in_json_values() {
    let doc = JsonValue::Object(vec![
        ("pgn".to_string(), JsonValue::Str("  ".to_string())),
        (
            "list".to_string(),
            JsonValue::Array(vec![
                JsonValue::Number("1".to_string()),
                JsonValue::Object(vec![("pgn".to_string(), JsonValue::Str("1. e4".to_string()))]),
            ]),
        ),
    ]);
    assert_eq!(extract_pgn_from_json_value(&doc), Some("1. e4".to_string()));
    assert_eq!(extract_pgn_from_json_value(&JsonValue::Str("pgn".to_string())), None);
    assert_eq!(extract_pgn_from_embedded_json(r#"{"a":{"pgn":"1. c4"}}"#), Some("1. c4".to_string()));
    assert_eq!(extract_pgn_from_embedded_json("{"), None);
}

#[test]
fn pgn_in_key_values_and_attributes() {
    assert_eq!(extract_pgn_from_key_value(r#"x 'pgn': "1. e4 e5" y"#), Some("1. e4 e5".to_string()));
    assert_eq!(extract_pgn_from_key_value(r#"{"pgn" :  "1. d4\nd5"}"#), Some("1. d4\nd5".to_string()));
    assert_eq!(extract_pgn_from_key_value(r#"'pgn':'1. f4'"#), Some("1. f4".to_string()));
    assert_eq!(extract_pgn_from_key_value("pgn: 1. e4"), None);
    assert_eq!(extract_pgn_from_data_attr(r#"<div data-pgn="1. e4 &amp; e5">"#), Some("1. e4 & e5".to_string()));
    assert_eq!(extract_pgn_from_data_attr("<div data-pgn='1. g3'>"), Some("1. g3".to_string()));
    assert_eq!(extract_pgn_from_data_attr(r#"<div data-pgn="">"#), None);
}

#[test]
fn pgn_in_scripts_and_assignments() {
    assert_eq!(
        extract_pgn_from_scripts(r#"<p>x</p><SCRIPT type="a">{"a":{"pgn":"1. c4"}}</SCRIPT>"#),
        Some("1. c4".to_string())
    );
    assert_eq!(
        extract_pgn_from_scripts("<script>var x = 1;</script><script>window.g = {\"pgn\": \"1. b3\"};</script>"),
        Some("1. b3".to_string())
    );
    assert_eq!(extract_pgn_from_scripts("<script>nothing</script>"), None);
    assert_eq!(
        extract_pgn_from_embedded_assignment(r#"const game = {"pgn": "1. Nf3"};"#),
        Some("1. Nf3".to_string())
    );
    assert_eq!(
        extract_pgn_from_embedded_assignment(r#"window.a.b = [{"pgn": "1. e3"}];"#),
        Some("1. e3".to_string())
    );
    assert_eq!(extract_pgn_from_embedded_assignment("let x = 5;"), None);
}

#[test]
fn pgn_in_bodies() {
    assert_eq!(extract_pgn_from_body(r#"{"game":{"pgn":"1. e4"}}"#), Some("1. e4".to_string()));
    assert_eq!(extract_pgn_from_body(r#"<html data-pgn="1. d4"></html>"#), Some("1. d4".to_string()));
    assert_eq!(extract_pgn_from_body("<html>nothing</html>"), None);
}

#[test]
fn cleaning_pgns() {
    assert_eq!(
        cleanup_pgn("  [Event \"x\"]  \r\n1. e4   \r\n\r\n".to_string()),
        "[Event \"x\"]\n1. e4"
    );
    assert_eq!(cleanup_pgn("\n\n".to_string()), "");
    let once = cleanup_pgn(" a \r\n b \n".to_string());
    assert_eq!(cleanup_pgn(once.clone()), once);
}

#[test]
fn pgn_shapes() {
    assert!(looks_like_pgn("[Event \"\"][White \"\"][Black \"\"][Result \"\"]1."));
    assert!(!looks_like_pgn("[Event \"x\"]\n[White \"a\"]\n[Black \"b\"]\n1. e4"));
    assert!(!looks_like_pgn("[Event \"x\"]\n[White \"a\"]\n[Result \"*\"]\n1. e4"));
    assert!(!looks_like_pgn("[Event \"x\"]\n[White \"a\"]\n[Black \"b\"]\n[Result \"*\"]\ne4"));
}
