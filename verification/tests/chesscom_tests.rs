use chess2lichess::chesscom::{
    extract_archive_lookup, game_url_matches_id, is_supported_chesscom_game_url,
    month_candidates, next_month, parse_chesscom_game_url, parse_game_id, parse_year_month,
    prev_month, push_unique,
};
use chess2lichess::error::C2lError;
use chess2lichess::fetch::{FetchAction, HttpReply, PgnFetch};
use chess2lichess::json::JsonValue;
use chess2lichess::pgn_extract::{extract_pgn_from_jsonish, looks_like_pgn};

const GOOD_PGN: &str = "[Event \"x\"]\n[White \"a\"]\n[Black \"b\"]\n[Result \"1-0\"]\n1. e4 e5";

#[test]
fn parse_supported_url() {
    let parsed = parse_chesscom_game_url("https://www.chess.com/game/live/123456789").unwrap();
    assert_eq!(parsed.game_id, "123456789");
}

#[test]
fn parse_unsupported_host() {
    let err = parse_chesscom_game_url("https://www.lichess.org/game/live/123").unwrap_err();
    assert!(err.message().contains("Unsupported"));
}

#[test]
fn parse_bad_path() {
    let err = parse_chesscom_game_url("https://www.chess.com/pgn/123").unwrap_err();
    assert!(err.message().contains("Unsupported"));
}

#[test]
fn validate_pgn_shape() {
    let good_with_result = "[Event \"x\"]\n[White \"a\"]\n[Black \"b\"]\n[Result \"1-0\"]\n1. e4 e5";
    let bad = "just text";
    assert!(looks_like_pgn(good_with_result));
    assert!(!looks_like_pgn(bad));
}

// ---------------------------------------------------------------------
// Further cases
// ---------------------------------------------------------------------

#[test]
fn url_errors_name_the_input() {
    match parse_chesscom_game_url("not a url") {
        Err(C2lError::InvalidUrl(raw)) => assert_eq!(raw, "not a url"),
        other => panic!("unexpected {:?}", other),
    }
    let err = parse_chesscom_game_url("not a url").unwrap_err();
    assert_eq!(err.message(), "Invalid URL format: not a url");
    match parse_chesscom_game_url("ftp://www.chess.com/game/live/1") {
        Err(C2lError::UnsupportedUrl(raw)) => assert_eq!(raw, "ftp://www.chess.com/game/live/1"),
        other => panic!("unexpected {:?}", other),
    }
    assert!(matches!(
        parse_chesscom_game_url("https://www.chess.com/game/live/12?x"),
        Ok(_)
    ));
    assert!(matches!(
        parse_chesscom_game_url("https://www.chess.com/game/live/12_3"),
        Err(C2lError::UnsupportedUrl(_))
    ));
}

#[test]
fn game_paths() {
    let g = parse_chesscom_game_url("http://chess.com/game/live/abc-DEF-9/extra").unwrap();
    assert_eq!(g.game_id, "abc-DEF-9");
    assert!(is_supported_chesscom_game_url(&g.source_url));
    assert_eq!(parse_game_id(&g.source_url), Some("abc-DEF-9".to_string()));
    let short = parse_chesscom_game_url("https://www.chess.com/game/555").unwrap();
    assert_eq!(short.game_id, "555");
    assert_eq!(short.source_url.serialized, "https://www.chess.com/game/live/555");
    assert_eq!(
        short.source_url.segments,
        Some(vec!["game".to_string(), "live".to_string(), "555".to_string()])
    );
    let short = parse_chesscom_game_url("http://chess.com//game/556/").unwrap();
    assert_eq!(short.source_url.serialized, "https://www.chess.com/game/live/556");
    assert_eq!(g.source_url.serialized, "http://chess.com/game/live/abc-DEF-9/extra");
    assert!(parse_chesscom_game_url("https://www.chess.com/game/live").is_err());
    assert!(parse_chesscom_game_url("https://m.chess.com/game/live/1").is_err());
}

#[test]
fn year_month_and_neighbours() {
    assert_eq!(parse_year_month(" 2024.01.31 "), Some((2024, 1)));
    assert_eq!(parse_year_month("2024.13.01"), None);
    assert_eq!(parse_year_month("2024.00.01"), None);
    assert_eq!(parse_year_month("2024-01-01"), None);
    assert_eq!(parse_year_month("24.01.01"), None);
    assert_eq!(prev_month(2024, 1), (2023, 12));
    assert_eq!(prev_month(2024, 5), (2024, 4));
    assert_eq!(next_month(2024, 12), (2025, 1));
    assert_eq!(next_month(2024, 5), (2024, 6));
    assert_eq!(month_candidates(2024, 1), vec![(2024, 1), (2023, 12), (2024, 2)]);
    for m in 1..=12u32 {
        let (y, p) = prev_month(2000, m);
        assert_eq!(next_month(y, p), (2000, m));
    }
}

#[test]
fn unique_trimmed_names() {
    let mut v: Vec<String> = Vec::new();
    push_unique(&mut v, Some(" alice "));
    push_unique(&mut v, Some("alice"));
    push_unique(&mut v, Some("   "));
    push_unique(&mut v, None);
    push_unique(&mut v, Some("bob"));
    assert_eq!(v, vec!["alice".to_string(), "bob".to_string()]);
}

#[test]
fn game_urls_match_ids() {
    assert!(game_url_matches_id("https://www.chess.com/game/live/123", "123"));
    assert!(!game_url_matches_id("https://www.chess.com/game/daily/123", "123"));
}

fn obj(members: Vec<(&str, JsonValue)>) -> JsonValue {
    JsonValue::Object(members.into_iter().map(|(k, v)| (k.to_string(), v)).collect())
}

fn s(text: &str) -> JsonValue {
    JsonValue::Str(text.to_string())
}

#[test]
fn archive_lookup_reads_players_and_date() {
    let doc = obj(vec![
        ("players", obj(vec![
            ("top", obj(vec![("username", s("alice"))])),
            ("bottom", obj(vec![("username", s("bob"))])),
        ])),
        ("game", obj(vec![(
            "pgnHeaders",
            obj(vec![("White", s("Alice2")), ("Black", s("bob")), ("Date", s("2024.03.09"))]),
        )])),
    ]);
    let lookup = extract_archive_lookup(&doc).unwrap();
    assert_eq!(lookup.usernames, vec!["alice".to_string(), "bob".to_string(), "Alice2".to_string()]);
    assert_eq!((lookup.year, lookup.month), (2024, 3));

    let no_date = obj(vec![("players", obj(vec![("top", obj(vec![("username", s("a"))]))]))]);
    assert!(extract_archive_lookup(&no_date).is_none());
    let no_names = obj(vec![("game", obj(vec![("pgnHeaders", obj(vec![("Date", s("2024.03.09"))]))]))]);
    assert!(extract_archive_lookup(&no_names).is_none());
}

fn reply(status: u16, body: &str) -> HttpReply {
    HttpReply { sent: true, status, body: Some(body.to_string()) }
}

fn get_url(a: FetchAction) -> String {
    match a {
        FetchAction::Get(u) => u,
        FetchAction::Done(r) => panic!("expected a request, got {:?}", r),
    }
}

#[test]
fn fetch_finds_pgn_in_callback() {
    let game = parse_chesscom_game_url("https://www.chess.com/game/live/123").unwrap();
    let (mut fetch, first) = PgnFetch::start(&game);
    assert_eq!(get_url(first), "https://www.chess.com/callback/live/game/123");
    let body = format!("{{\"game\":{{\"pgn\":{}}}}}", serde_json::to_string(&format!("  {GOOD_PGN}  \r\n")).unwrap());
    match fetch.step(reply(200, &body)) {
        FetchAction::Done(Ok(p)) => assert_eq!(p, GOOD_PGN),
        _ => panic!("expected the callback's PGN"),
    }
}

#[test]
fn fetch_walks_the_archives() {
    let game = parse_chesscom_game_url("https://www.chess.com/game/live/123").unwrap();
    let (mut fetch, _) = PgnFetch::start(&game);
    let callback = r#"{"players":{"top":{"username":"alice"},"bottom":{"username":"bob"}},"game":{"pgnHeaders":{"White":"alice","Black":"bob","Date":"2024.01.05"}}}"#;
    assert_eq!(get_url(fetch.step(reply(200, callback))), "https://api.chess.com/pub/player/alice/games/2024/01");
    assert_eq!(get_url(fetch.step(reply(404, ""))), "https://api.chess.com/pub/player/alice/games/2023/12");
    assert_eq!(get_url(fetch.step(reply(200, "{\"games\":[]}"))), "https://api.chess.com/pub/player/alice/games/2024/02");
    assert_eq!(get_url(fetch.step(reply(500, ""))), "https://api.chess.com/pub/player/bob/games/2024/01");
    let archive = format!(
        "{{\"games\":[{{\"url\":\"https://www.chess.com/game/live/999\",\"pgn\":\"x\"}},{{\"url\":\"https://www.chess.com/game/live/123\",\"pgn\":{}}}]}}",
        serde_json::to_string(&format!("{GOOD_PGN}   \n")).unwrap()
    );
    match fetch.step(reply(200, &archive)) {
        FetchAction::Done(Ok(p)) => assert_eq!(p, GOOD_PGN),
        _ => panic!("expected the archived PGN"),
    }
}

#[test]
fn fetch_falls_back_to_the_page_and_fails() {
    let game = parse_chesscom_game_url("https://www.chess.com/game/live/77").unwrap();
    let (mut fetch, _) = PgnFetch::start(&game);
    assert_eq!(get_url(fetch.step(reply(403, "nope"))), "https://www.chess.com/callback/live/game/77");
    assert_eq!(get_url(fetch.step(reply(200, "no pgn here"))), "https://www.chess.com/game/live/77");
    match fetch.step(HttpReply { sent: false, status: 0, body: None }) {
        FetchAction::Done(Err(e)) => assert_eq!(
            e.message(),
            "Failed to retrieve PGN: Failed to retrieve PGN. callback/page/public archive all failed."
        ),
        _ => panic!("expected failure"),
    }
}

#[test]
fn fetch_reads_the_page() {
    let game = parse_chesscom_game_url("https://www.chess.com/game/live/77").unwrap();
    let (mut fetch, _) = PgnFetch::start(&game);
    fetch.step(reply(401, ""));
    fetch.step(reply(200, ""));
    let page = format!("<div data-pgn=\"{}\"></div>", GOOD_PGN.replace('"', "\\&quot;").replace('\n', "\\n"));
    match fetch.step(reply(200, &page)) {
        FetchAction::Done(Ok(p)) => assert_eq!(p, GOOD_PGN),
        _ => panic!("expected the page's PGN"),
    }
}

#[test]
fn fetch_archive_pgn_must_look_like_one() {
    let game = parse_chesscom_game_url("https://www.chess.com/game/live/5").unwrap();
    let (mut fetch, _) = PgnFetch::start(&game);
    let callback = r#"{"players":{"top":{"username":"a"}},"game":{"pgnHeaders":{"Date":"2024.06.01"}}}"#;
    assert_eq!(get_url(fetch.step(reply(200, callback))), "https://api.chess.com/pub/player/a/games/2024/06");
    let archive = r#"{"games":[{"url":"https://www.chess.com/game/live/5","pgn":"1. e4"}]}"#;
    assert_eq!(get_url(fetch.step(reply(200, archive))), "https://www.chess.com/callback/live/game/5");
}

#[test]
fn jsonish_pages() {
    assert_eq!(
        extract_pgn_from_jsonish(r#"[{"x":1},{"game":{"pgn":"1. d4"}}]"#),
        Some("1. d4".to_string())
    );
    assert_eq!(extract_pgn_from_jsonish(r#"{"pgn":"   "}"#), None);
    assert_eq!(extract_pgn_from_jsonish("not json"), None);
}

#[test]
fn fetch_short_urls_use_the_live_page() {
    let game = parse_chesscom_game_url("https://www.chess.com/game/88").unwrap();
    let (mut fetch, first) = PgnFetch::start(&game);
    assert_eq!(get_url(first), "https://www.chess.com/callback/live/game/88");
    fetch.step(reply(500, ""));
    assert_eq!(get_url(fetch.step(reply(500, ""))), "https://www.chess.com/game/live/88");
}
