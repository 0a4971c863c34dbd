use std::path::PathBuf;

use chess2lichess::app::{
    after_failed_attempt, available_npm_update, batch_failure_message, batch_success_line,
    batch_summary, batch_urls, build_csv_line, build_json_line, config_dir_from_env,
    config_dir_for, config_path_for, config_path_from_env, copy_note, csv_escape, csv_header, encode_npm_package_name,
    failure_report, interactive_input, is_retryable_error, mute_deadline, mute_is_active,
    network_check_line, npm_check_lines, npm_prompt_choice, npm_install_command, npm_install_command_display,
    npm_install_command_for, npm_latest_version_url, npm_update_context_from_values,
    open_failure_note, release_check_message, result_lines, retries_before, retry_wait_note,
    retry_warning, retryable_delay, run_options_for, save_note,
    should_prompt_for_npm_update_with_tty, trim_version, urls_from_text, AnalysisResult,
    FailureReport, InteractiveInput, NpmSelfUpdateContext, NpmUpdateInfo, NpmUpdatePromptChoice,
    RetryDecision,
    RunOptions,
};
use chess2lichess::cli::{Cli, OutputFormat};
use chess2lichess::error::C2lError;
use chess2lichess::metadata::GameMetadata;
use chess2lichess::style::TextTone;
use serde_json::Value;

fn sample_pgn() -> &'static str {
    r#"[Event "Live Chess"]
[Site "Chess.com"]
[Date "2026.03.14"]
[White "Alpha"]
[Black "Beta"]
[WhiteElo "1500"]
[BlackElo "1600"]
[Result "1-0"]
[ECO "C20"]
[Opening "King's Pawn Game"]

1. e4 { comment } e5 2. Nf3 Nc6 3. Bc4 Bc5 1-0"#
}

fn sample_result() -> AnalysisResult {
    let pgn = sample_pgn().to_string();
    AnalysisResult {
        input_url: "https://www.chess.com/game/live/123".to_string(),
        game_id: "123".to_string(),
        metadata: GameMetadata::from_pgn(&pgn),
        pgn,
        analysis_url: "https://lichess.org/abc123".to_string(),
        retries: 0,
    }
}

fn plain_options() -> RunOptions {
    RunOptions {
        copy: false,
        force_open: false,
        no_open: false,
        print_pgn: false,
        save_pgn: None,
        raw_url: false,
        json_output: false,
        csv_output: false,
        quiet: false,
        verbose: false,
    }
}

#[test]
fn game_metadata_parses_pgn_headers() {
    let metadata = GameMetadata::from_pgn(sample_pgn());
    assert_eq!(metadata.event.as_deref(), Some("Live Chess"));
    assert_eq!(metadata.white.as_deref(), Some("Alpha"));
    assert_eq!(metadata.black.as_deref(), Some("Beta"));
    assert_eq!(metadata.white_elo.as_deref(), Some("1500"));
    assert_eq!(metadata.black_elo.as_deref(), Some("1600"));
    assert_eq!(metadata.result.as_deref(), Some("1-0"));
    assert_eq!(metadata.date.as_deref(), Some("2026.03.14"));
    assert_eq!(metadata.opening.as_deref(), Some("King's Pawn Game"));
    assert_eq!(metadata.eco.as_deref(), Some("C20"));
    assert_eq!(metadata.moves_count, Some(3));
}

#[test]
fn build_json_line_includes_metadata() {
    let line = build_json_line(
        "https://www.chess.com/game/live/123",
        Some(&sample_result()),
        None,
        0,
    );
    let parsed = serde_json::from_str::<Value>(&line).unwrap();
    assert_eq!(parsed["metadata"]["white"], "Alpha");
    assert_eq!(parsed["metadata"]["moves_count"], 3);
}

#[test]
fn build_csv_line_includes_metadata_columns() {
    let line = build_csv_line(
        "https://www.chess.com/game/live/123",
        Some(&sample_result()),
        None,
        0,
    );
    assert!(csv_header().contains("moves_count"));
    assert!(line.contains("\"Alpha\""));
    assert!(line.contains("\"King's Pawn Game\""));
}

#[test]
fn players_label_includes_ratings_and_question_mark_fallback() {
    let metadata = GameMetadata {
        white: Some("Alpha".to_string()),
        black: Some("Beta".to_string()),
        white_elo: Some("1500".to_string()),
        ..Default::default()
    };

    assert_eq!(
        metadata.players_label().as_deref(),
        Some("Alpha (1500) vs Beta (?)")
    );
}

#[test]
fn opening_label_uses_eco_lookup_when_opening_is_missing() {
    let metadata = GameMetadata {
        eco: Some("C20".to_string()),
        ..Default::default()
    };

    assert_eq!(metadata.opening_label().as_deref(), Some("Open Game (C20)"));
}

#[test]
fn opening_label_prefers_pgn_opening_over_eco_lookup() {
    let metadata = GameMetadata {
        opening: Some("Custom Opening".to_string()),
        eco: Some("C20".to_string()),
        ..Default::default()
    };

    assert_eq!(
        metadata.opening_label().as_deref(),
        Some("Custom Opening (C20)")
    );
}

#[test]
fn config_path_prefers_xdg_config_home() {
    let path = config_path_from_env(Some("/tmp/cfg"), Some("/tmp/home")).unwrap();
    assert_eq!(
        PathBuf::from(path),
        PathBuf::from("/tmp/cfg").join("c2l").join("config.json")
    );
}

#[test]
fn mute_check_uses_future_deadlines() {
    assert!(mute_is_active(Some(101), 100));
    assert!(!mute_is_active(Some(100), 100));
    assert!(!mute_is_active(None, 100));
}

#[test]
fn npm_update_context_requires_wrapper_env() {
    assert_eq!(
        npm_update_context_from_values(None, Some("@wnsdud-jy/c2l"), Some("0.1.6"),),
        None
    );
}

#[test]
fn npm_update_context_reads_package_metadata() {
    let context =
        npm_update_context_from_values(Some("1"), Some("@wnsdud-jy/c2l"), Some("0.1.6")).unwrap();

    assert_eq!(context.package_name, "@wnsdud-jy/c2l");
    assert_eq!(context.current_version, "0.1.6");
}

#[test]
fn npm_latest_version_url_encodes_scoped_package_names() {
    assert_eq!(
        npm_latest_version_url("@wnsdud-jy/c2l"),
        "https://registry.npmjs.org/%40wnsdud-jy%2Fc2l/latest"
    );
}

#[test]
fn should_prompt_for_npm_update_skips_machine_output_modes() {
    let options = RunOptions {
        copy: false,
        force_open: false,
        no_open: false,
        print_pgn: false,
        save_pgn: None,
        raw_url: true,
        json_output: false,
        csv_output: false,
        quiet: false,
        verbose: false,
    };

    assert!(!should_prompt_for_npm_update_with_tty(false, true, true, &options));
}

#[test]
fn should_prompt_for_npm_update_only_in_human_terminal_mode() {
    let options = RunOptions {
        copy: false,
        force_open: false,
        no_open: false,
        print_pgn: false,
        save_pgn: None,
        raw_url: false,
        json_output: false,
        csv_output: false,
        quiet: false,
        verbose: false,
    };

    assert!(should_prompt_for_npm_update_with_tty(false, true, true, &options));
    assert!(!should_prompt_for_npm_update_with_tty(true, true, true, &options));
    assert!(!should_prompt_for_npm_update_with_tty(false, false, true, &options));
}

#[test]
fn npm_install_command_targets_latest_global_package() {
    let update = NpmUpdateInfo {
        package_name: "@wnsdud-jy/c2l".to_string(),
        current_version: "0.1.5".to_string(),
        latest_version: "0.1.6".to_string(),
    };

    let (executable, args) = npm_install_command(&update);
    assert!(executable == "npm" || executable == "npm.cmd");
    assert_eq!(
        args,
        vec![
            "install".to_string(),
            "-g".to_string(),
            "@wnsdud-jy/c2l@latest".to_string()
        ]
    );
}

// ---------------------------------------------------------------------
// Further cases
// ---------------------------------------------------------------------

#[test]
fn run_options_follow_the_command_line() {
    let cli = Cli {
        mode: None,
        urls: vec!["https://www.chess.com/game/live/1".to_string()],
        copy: true,
        open: false,
        print_pgn: true,
        no_open: true,
        save_pgn: Some("a.pgn".to_string()),
        raw_url: false,
        json: false,
        quiet: false,
        verbose: true,
        format: OutputFormat::Csv,
        input_file: None,
    };
    let options = run_options_for(&cli);
    assert!(options.copy && options.print_pgn && options.no_open && options.verbose);
    assert!(options.csv_output && !options.json_output);
    assert_eq!(options.save_pgn.as_deref(), Some("a.pgn"));
    assert!(!options.should_open());
    let json_cli = Cli { json: true, format: OutputFormat::Text, ..cli };
    assert!(run_options_for(&json_cli).json_output);
}

#[test]
fn open_and_progress_rules() {
    let mut o = plain_options();
    assert!(o.should_open());
    assert!(o.should_emit_progress());
    o.quiet = true;
    assert!(!o.should_emit_progress());
    o.verbose = true;
    assert!(o.should_emit_progress());
    o.no_open = true;
    o.force_open = true;
    assert!(!o.should_open());
}

#[test]
fn final_analysis_url_is_the_analysis_url() {
    assert_eq!(sample_result().final_analysis_url(), "https://lichess.org/abc123");
}

#[test]
fn npm_context_trims_and_rejects_blank_values() {
    let c = npm_update_context_from_values(Some("1"), Some("  pkg "), Some(" 1.0.0\n")).unwrap();
    assert_eq!(c.package_name, "pkg");
    assert_eq!(c.current_version, "1.0.0");
    assert_eq!(npm_update_context_from_values(Some("0"), Some("pkg"), Some("1.0.0")), None);
    assert_eq!(npm_update_context_from_values(Some("1"), Some("   "), Some("1.0.0")), None);
    assert_eq!(npm_update_context_from_values(Some("1"), Some("pkg"), None), None);
}

#[test]
fn encoded_names_and_versions() {
    assert_eq!(encode_npm_package_name("plain"), "plain");
    assert_eq!(encode_npm_package_name("@a/b"), "%40a%2Fb");
    assert_eq!(trim_version("vv1.2.3"), "1.2.3");
    assert_eq!(trim_version("1.2.3"), "1.2.3");
    assert_eq!(trim_version(""), "");
}

#[test]
fn update_is_offered_only_for_a_different_version() {
    let context = NpmSelfUpdateContext {
        package_name: "pkg".to_string(),
        current_version: "1.0.0".to_string(),
    };
    assert_eq!(available_npm_update(context.clone(), "v1.0.0".to_string()), None);
    let update = available_npm_update(context, "1.1.0".to_string()).unwrap();
    assert_eq!(update.latest_version, "1.1.0");
    assert_eq!(update.current_version, "1.0.0");
}

#[test]
fn install_command_per_platform() {
    let update = NpmUpdateInfo {
        package_name: "pkg".to_string(),
        current_version: "1".to_string(),
        latest_version: "2".to_string(),
    };
    assert_eq!(npm_install_command_for(&update, true).0, "npm.cmd");
    assert_eq!(npm_install_command_for(&update, false).0, "npm");
    let display = npm_install_command_display(&update);
    assert!(display == "npm install -g pkg@latest" || display == "npm.cmd install -g pkg@latest");
}

#[test]
fn config_dir_falls_back_to_home() {
    assert_eq!(
        config_dir_from_env(None, Some("/home/u")).map(PathBuf::from),
        Some(PathBuf::from("/home/u").join(".config").join("c2l"))
    );
    assert_eq!(
        config_dir_from_env(Some("  "), Some("/home/u")).map(PathBuf::from),
        Some(PathBuf::from("/home/u").join(".config").join("c2l"))
    );
    assert_eq!(config_dir_from_env(None, None), None);
    assert_eq!(config_path_from_env(None, Some("  ")), None);
}

#[test]
fn mute_deadline_adds_days_and_saturates() {
    assert_eq!(mute_deadline(100, 7), 100 + 7 * 86_400);
    assert_eq!(mute_deadline(u64::MAX - 5, 1), u64::MAX);
    assert!(mute_is_active(Some(mute_deadline(100, 1)), 100));
}

#[test]
fn retry_delays_double_up_to_the_cap() {
    assert_eq!(retryable_delay(0), 250);
    assert_eq!(retryable_delay(1), 500);
    assert_eq!(retryable_delay(2), 1000);
    assert_eq!(retryable_delay(3), 2000);
    assert_eq!(retryable_delay(4), 2500);
    assert_eq!(retryable_delay(200), 2500);
    let mut last = 0;
    for a in 0..=255u8 {
        let d = retryable_delay(a);
        assert!(d >= last && d <= 2500);
        last = d;
    }
}

#[test]
fn retry_decisions() {
    assert!(matches!(after_failed_attempt(1, true), RetryDecision::WaitMs(500)));
    assert!(matches!(after_failed_attempt(3, true), RetryDecision::WaitMs(2000)));
    assert!(matches!(after_failed_attempt(4, true), RetryDecision::GiveUp));
    assert!(matches!(after_failed_attempt(1, false), RetryDecision::GiveUp));
    assert_eq!(retries_before(1), 0);
    assert_eq!(retries_before(3), 2);
    assert_eq!(retries_before(0), 0);
}

#[test]
fn retry_messages() {
    assert_eq!(
        retry_warning("https://x", 2, "boom"),
        "[retry] transient error for https://x (2/4): boom"
    );
    assert_eq!(retry_wait_note(2), "[retry] waiting 1000ms before attempt 3");
    assert_eq!(retry_wait_note(255), "[retry] waiting 2500ms before attempt 255");
}

#[test]
fn retryable_errors_are_the_temporary_ones() {
    assert!(is_retryable_error(&C2lError::RetryableHttp {
        url: "u".to_string(),
        status: 503,
        message: "m".to_string(),
    }));
    assert!(is_retryable_error(&C2lError::RetryableRequest {
        url: "u".to_string(),
        message: "m".to_string(),
    }));
    assert!(!is_retryable_error(&C2lError::InvalidUrl("u".to_string())));
    assert!(!is_retryable_error(&C2lError::PgnUnavailable("u".to_string())));
}

#[test]
fn csv_escape_doubles_quotes() {
    assert_eq!(csv_escape("a\"b"), "\"a\"\"b\"");
    assert_eq!(csv_escape(""), "\"\"");
}

#[test]
fn csv_failure_line() {
    let line = build_csv_line("u,1", None, Some("bad \"x\""), 2);
    assert_eq!(line, "\"u,1\",error,2,\"\",\"\",\"\",\"\",\"\",\"\",\"\",\"\",\"\",\"\",\"bad \"\"x\"\"\"");
    assert_eq!(line.matches(',').count() >= 13, true);
}

#[test]
fn csv_success_line_exactly() {
    let line = build_csv_line("u", Some(&sample_result()), None, 1);
    assert_eq!(
        line,
        "\"u\",ok,1,\"123\",\"https://lichess.org/abc123\",\"Live Chess\",\"Alpha\",\"Beta\",\"1-0\",\"2026.03.14\",\"King's Pawn Game\",\"C20\",\"3\",\"\""
    );
}

#[test]
fn json_failure_line() {
    let line = build_json_line("u\"1", None, Some("boom"), 0);
    let parsed = serde_json::from_str::<Value>(&line).unwrap();
    assert_eq!(parsed["input_url"], "u\"1");
    assert_eq!(parsed["success"], false);
    assert_eq!(parsed["error"], "boom");
    assert!(parsed["metadata"].is_null());
    assert!(parsed["analysis_url"].is_null());
    assert_eq!(parsed["retries"], 0);
}

#[test]
fn json_success_line_fields() {
    let line = build_json_line("u", Some(&sample_result()), None, 2);
    let parsed = serde_json::from_str::<Value>(&line).unwrap();
    assert_eq!(parsed["success"], true);
    assert_eq!(parsed["game_id"], "123");
    assert_eq!(parsed["analysis_url"], "https://lichess.org/abc123");
    assert_eq!(parsed["retries"], 2);
    assert_eq!(parsed["metadata"]["eco"], "C20");
    assert!(parsed["error"].is_null());
}

#[test]
fn human_result_lines() {
    let lines = result_lines(&sample_result(), &plain_options());
    let texts: Vec<&str> = lines.iter().map(|l| l.text.as_str()).collect();
    assert_eq!(
        texts,
        vec![
            "Players: Alpha (1500) vs Beta (1600)",
            "Result: 1-0 | Date: 2026.03.14 | Moves: 3",
            "Opening: King's Pawn Game (C20)",
            "Final URL: https://lichess.org/abc123",
        ]
    );
    assert_eq!(lines[3].tone, Some(TextTone::Success));
    assert_eq!(lines[1].tone, Some(TextTone::Muted));

    let mut o = plain_options();
    o.raw_url = true;
    o.print_pgn = true;
    let lines = result_lines(&sample_result(), &o);
    assert_eq!(lines.len(), 2);
    assert_eq!(lines[0].text, sample_pgn());
    assert_eq!(lines[0].tone, None);
    assert_eq!(lines[1].text, "https://lichess.org/abc123");

    o.raw_url = false;
    let lines = result_lines(&sample_result(), &o);
    assert_eq!(lines[0].text, "\n=== PGN ===");
    assert_eq!(lines.len(), 6);

    o.json_output = true;
    assert!(result_lines(&sample_result(), &o).is_empty());
}

#[test]
fn batches() {
    let urls = batch_urls(vec!["a".to_string(), "  ".to_string(), "".to_string(), "b".to_string()]);
    assert_eq!(urls, vec!["a".to_string(), "b".to_string()]);
    assert_eq!(batch_summary(3, 0), ("Processed: 3, Failed: 0".to_string(), TextTone::Success));
    assert_eq!(batch_summary(1, 2), ("Processed: 1, Failed: 2".to_string(), TextTone::Error));
    assert_eq!(batch_failure_message(2), "Completed with 2 failed conversions");
}

#[test]
fn interactive_inputs() {
    assert!(matches!(interactive_input(""), InteractiveInput::Exit));
    assert!(matches!(interactive_input("  \n"), InteractiveInput::Skip));
    assert!(matches!(interactive_input(" QUIT \n"), InteractiveInput::Exit));
    assert!(matches!(interactive_input("Exit"), InteractiveInput::Exit));
    assert!(matches!(interactive_input("q"), InteractiveInput::Exit));
    match interactive_input("  https://www.chess.com/game/live/1 \n") {
        InteractiveInput::Convert(u) => assert_eq!(u, "https://www.chess.com/game/live/1"),
        _ => panic!("expected a URL"),
    }
    assert!(matches!(interactive_input("quitting"), InteractiveInput::Convert(_)));
}

#[test]
fn url_lists_drop_comments_and_blanks() {
    let urls = urls_from_text("a # first\n\n  # only a comment\r\n  b  \r\nc#x");
    assert_eq!(urls, vec!["a".to_string(), "b".to_string(), "c".to_string()]);
    assert!(urls_from_text("").is_empty());
}

#[test]
fn doctor_lines() {
    assert_eq!(
        release_check_message("0.1.6", "v0.1.7"),
        ("Update available: 0.1.7 (current: 0.1.6)".to_string(), TextTone::Warn)
    );
    assert_eq!(
        release_check_message("0.1.6", "v0.1.6"),
        ("You are on the latest release: 0.1.6".to_string(), TextTone::Info)
    );
    assert_eq!(
        network_check_line("lichess.org", Ok("200 OK")),
        ("Network: lichess.org => 200 OK".to_string(), TextTone::Info)
    );
    assert_eq!(
        network_check_line("chess.com", Err("timeout")),
        ("Network: chess.com => unreachable (timeout)".to_string(), TextTone::Warn)
    );
}

#[test]
fn doctor_npm_lines() {
    let context = NpmSelfUpdateContext {
        package_name: "pkg".to_string(),
        current_version: "1.0.0".to_string(),
    };
    let lines = npm_check_lines(&context, Ok("1.1.0".to_string()));
    assert_eq!(lines.len(), 2);
    assert_eq!(lines[0], ("npm package update available: 1.1.0 (current: 1.0.0)".to_string(), TextTone::Warn));
    assert!(
        lines[1].0 == "Upgrade command: npm install -g pkg@latest"
            || lines[1].0 == "Upgrade command: npm.cmd install -g pkg@latest"
    );
    let lines = npm_check_lines(&context, Ok("v1.0.0".to_string()));
    assert_eq!(lines, vec![("npm package is up to date: 1.0.0".to_string(), TextTone::Info)]);
    let lines = npm_check_lines(&context, Err("offline".to_string()));
    assert_eq!(lines, vec![("npm package update check failed: offline".to_string(), TextTone::Warn)]);
}

#[test]
fn failure_reports() {
    let mut o = plain_options();
    match failure_report(&o, "u", "boom", false) {
        FailureReport::Text(t) => assert_eq!(t, "Failed: boom"),
        _ => panic!("expected text"),
    }
    match failure_report(&o, "u", "boom", true) {
        FailureReport::Text(t) => assert_eq!(t, "Failed: u: boom"),
        _ => panic!("expected text"),
    }
    o.quiet = true;
    assert!(matches!(failure_report(&o, "u", "boom", true), FailureReport::Silent));
    o.csv_output = true;
    match failure_report(&o, "u", "boom", true) {
        FailureReport::Csv(l) => assert_eq!(l, build_csv_line("u", None, Some("boom"), 0)),
        _ => panic!("expected csv"),
    }
    o.json_output = true;
    match failure_report(&o, "u", "boom", false) {
        FailureReport::Json(l) => assert_eq!(l, build_json_line("u", None, Some("boom"), 0)),
        _ => panic!("expected json"),
    }
}

#[test]
fn batch_success_lines() {
    let mut o = plain_options();
    let mut r = sample_result();
    r.retries = 1;
    assert_eq!(batch_success_line(&o, "u", &r), None);
    o.csv_output = true;
    assert_eq!(batch_success_line(&o, "u", &r), Some(build_csv_line("u", Some(&r), None, 1)));
    o.json_output = true;
    assert_eq!(batch_success_line(&o, "u", &r), Some(build_json_line("u", Some(&r), None, 1)));
}

#[test]
fn side_effect_notes() {
    let mut o = plain_options();
    assert_eq!(copy_note(&o, Ok(())), Some(("PGN copied".to_string(), TextTone::Success)));
    assert_eq!(
        copy_note(&o, Err("no display")),
        Some(("Failed to copy PGN: no display".to_string(), TextTone::Error))
    );
    assert_eq!(save_note(&o, "a.pgn"), Some(("PGN saved: a.pgn".to_string(), TextTone::Success)));
    assert_eq!(
        open_failure_note(&o, "none"),
        Some(("Failed to auto-open browser: none".to_string(), TextTone::Warn))
    );
    o.raw_url = true;
    assert_eq!(copy_note(&o, Ok(())), None);
    assert!(copy_note(&o, Err("x")).is_some());
    assert_eq!(save_note(&o, "a.pgn"), None);
    o.quiet = true;
    assert_eq!(copy_note(&o, Err("x")), None);
    assert_eq!(open_failure_note(&o, "x"), None);
}

#[test]
fn csv_fields_read_back() {
    for value in ["", "plain", "a \"quoted\" word", "\"\"", "comma, inside", " spaced "] {
        assert_eq!(chess2lichess::metadata::parse_csv_field(&csv_escape(value)), value);
    }
}

#[test]
fn config_paths_per_platform() {
    assert_eq!(config_dir_for(Some("/x/"), None, false).as_deref(), Some("/x/c2l"));
    assert_eq!(config_path_for(Some("/x"), None, false).as_deref(), Some("/x/c2l/config.json"));
    assert_eq!(
        config_path_for(Some("C:\\Users\\me\\AppData"), None, true).as_deref(),
        Some("C:\\Users\\me\\AppData\\c2l\\config.json")
    );
    assert_eq!(config_dir_for(Some("C:\\cfg\\"), None, true).as_deref(), Some("C:\\cfg\\c2l"));
    assert_eq!(config_dir_for(Some("D:"), None, true).as_deref(), Some("D:c2l"));
    assert_eq!(
        config_dir_for(None, Some(" /home/u "), true).as_deref(),
        Some("/home/u\\.config\\c2l")
    );
}

#[test]
fn update_prompt_answers() {
    assert_eq!(npm_prompt_choice("1\n"), NpmUpdatePromptChoice::UpgradeNow);
    assert_eq!(npm_prompt_choice(" 3 "), NpmUpdatePromptChoice::MuteForSevenDays);
    assert_eq!(npm_prompt_choice("2"), NpmUpdatePromptChoice::SkipOnce);
    assert_eq!(npm_prompt_choice(""), NpmUpdatePromptChoice::SkipOnce);
    assert_eq!(npm_prompt_choice("13"), NpmUpdatePromptChoice::SkipOnce);
}

#[test]
fn json_lines_escape_like_serde_json() {
    let line = build_json_line("a\"b\\c\nd\u{1}\u{7f}é\t", None, Some("x\r\u{8}\u{c}"), 7);
    assert_eq!(
        line,
        "{\"input_url\":\"a\\\"b\\\\c\\nd\\u0001\u{7f}é\\t\",\"success\":false,\"game_id\":null,\"analysis_url\":null,\"pgn\":null,\"metadata\":null,\"retries\":7,\"error\":\"x\\r\\b\\f\"}"
    );
}

#[test]
fn opening_lines_fall_back() {
    let mut r = sample_result();
    r.metadata.opening = None;
    r.metadata.eco = None;
    let lines = result_lines(&r, &plain_options());
    assert!(lines.iter().any(|l| l.text == "Opening: Unknown opening"));
}

#[test]
fn json_lines_read_back_with_serde_json() {
    for text in ["", "plain", "q\"uote", "back\\slash", "tab\tnl\ncr\r", "\u{0}\u{1f}\u{7f}", "é – ü", "\u{8}\u{c}"] {
        let line = build_json_line(text, None, Some(text), 0);
        let parsed = serde_json::from_str::<Value>(&line).unwrap();
        assert_eq!(parsed["input_url"], text);
        assert_eq!(parsed["error"], text);
        assert!(line.starts_with(&format!("{{\"input_url\":{}", serde_json::to_string(text).unwrap())));
    }
}
