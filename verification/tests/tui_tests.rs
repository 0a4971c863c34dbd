use chess2lichess::app::AnalysisResult;
use chess2lichess::metadata::GameMetadata;
use chess2lichess::style::{
    colorize, fail_color_for_count, gradient_text, gray_shade, muted_step_label, working_line,
    TextTone,
};
use chess2lichess::tui::{clamp_right, last_pgn_file, spinner, TuiCommand, TuiKey, TuiState};

fn result() -> AnalysisResult {
    let pgn = "l1\nl2\nl3\nl4\nl5\nl6\nl7\nl8".to_string();
    AnalysisResult {
        input_url: "u".to_string(),
        game_id: "g1".to_string(),
        metadata: GameMetadata::default(),
        pgn,
        analysis_url: "https://lichess.org/a".to_string(),
        retries: 0,
    }
}

fn type_text(state: &mut TuiState, text: &str) {
    for c in text.chars() {
        assert!(matches!(state.on_key(TuiKey::Char(c, false)), TuiCommand::Stay));
    }
}

#[test]
fn typing_and_starting_a_conversion() {
    let mut state = TuiState::default();
    assert!(matches!(state.on_key(TuiKey::Enter), TuiCommand::Stay));
    assert_eq!(state.message, "Please enter a URL.");
    type_text(&mut state, " xyz1");
    state.on_key(TuiKey::Backspace);
    assert_eq!(state.input, " xyz");
    match state.on_key(TuiKey::Enter) {
        TuiCommand::Convert(u) => assert_eq!(u, "xyz"),
        _ => panic!("expected a conversion"),
    }
    assert!(state.processing);
    assert_eq!(state.input, "");
    assert_eq!(state.message, "Started processing: xyz");
    assert!(matches!(state.on_key(TuiKey::Enter), TuiCommand::Stay));
    assert_eq!(state.logs.len(), 2);
}

#[test]
fn letters_with_commands_do_not_type() {
    let mut state = TuiState::default();
    type_text(&mut state, "ab");
    assert!(matches!(state.on_key(TuiKey::Char('c', false)), TuiCommand::Stay));
    assert_eq!(state.input, "ab");
    assert_eq!(state.message, "No PGN available yet.");
    assert!(matches!(state.on_key(TuiKey::Char('x', true)), TuiCommand::Stay));
    assert_eq!(state.input, "abx");
}

#[test]
fn quitting_keys() {
    let mut state = TuiState::default();
    assert!(matches!(state.on_key(TuiKey::Char('q', false)), TuiCommand::Quit));
    assert!(matches!(state.on_key(TuiKey::Esc), TuiCommand::Quit));
    assert!(matches!(state.on_key(TuiKey::Char('c', true)), TuiCommand::Quit));
    assert!(matches!(state.on_key(TuiKey::Other), TuiCommand::Stay));
    assert!(state.logs.is_empty());
}

#[test]
fn results_copy_open_and_save() {
    let mut state = TuiState::default();
    assert!(matches!(state.on_key(TuiKey::Char('c', false)), TuiCommand::Stay));
    assert_eq!(state.message, "No PGN available yet.");
    assert!(matches!(state.on_key(TuiKey::Char('o', false)), TuiCommand::Stay));
    assert_eq!(state.message, "No final URL available to open.");
    assert!(matches!(state.on_key(TuiKey::Char('p', false)), TuiCommand::Stay));
    assert_eq!(state.message, "No PGN available to save.");

    state.processing = true;
    state.on_worker_done(Ok(result()));
    assert!(!state.processing);
    assert_eq!(state.final_url.as_deref(), Some("https://lichess.org/a"));
    assert_eq!(state.pgn_preview, "l1\nl2\nl3\nl4\nl5\nl6\nl7");
    assert_eq!(state.message, "Done. Enter next URL, or q to exit.");

    match state.on_key(TuiKey::Char('c', false)) {
        TuiCommand::CopyPgn(p) => assert_eq!(p, result().pgn),
        _ => panic!("expected a copy"),
    }
    state.on_copy_done(Err("no clipboard".to_string()));
    assert_eq!(state.message, "Clipboard copy failed: no clipboard");
    state.on_copy_done(Ok(()));
    assert_eq!(state.message, "PGN copied");
    match state.on_key(TuiKey::Char('o', false)) {
        TuiCommand::OpenUrl(u) => assert_eq!(u, "https://lichess.org/a"),
        _ => panic!("expected an open"),
    }
    state.on_open_done("https://lichess.org/a", Ok(()));
    assert_eq!(state.message, "Open requested: https://lichess.org/a");
    state.on_open_done("https://lichess.org/a", Err("none".to_string()));
    assert_eq!(state.message, "Open failed: none");
    match state.on_key(TuiKey::Char('p', false)) {
        TuiCommand::SavePgn(p) => assert_eq!(p, result().pgn),
        _ => panic!("expected a save"),
    }
    assert_eq!(state.message, format!("PGN saved: {}", last_pgn_file()));

    state.on_worker_done(Err("boom".to_string()));
    assert_eq!(state.message, "Failed: boom");
    assert_eq!(state.final_url, None);
    assert!(state.last_result.is_none());
    assert_eq!(state.pgn_preview, "l1\nl2\nl3\nl4\nl5\nl6\nl7");
}

#[test]
fn the_log_keeps_twenty_lines() {
    let mut state = TuiState::default();
    for i in 0..25 {
        state.push_log(format!("line {i}"));
        assert!(state.logs.len() <= 20);
    }
    assert_eq!(state.logs.len(), 20);
    assert_eq!(state.logs[0], "line 5");
    assert_eq!(state.logs[19], "line 24");
    assert_eq!(state.message, "line 24");
}

#[test]
fn previews_and_views() {
    assert_eq!(TuiState::pgn_preview("a\r\nb\n\nc"), "a\nb\n\nc");
    assert_eq!(TuiState::pgn_preview(""), "");
    let mut state = TuiState::default();
    let view = state.view();
    assert_eq!(view.status, vec!["Status: \u{2713} Idle".to_string(), "Final URL: -".to_string(), "Game ID: -".to_string()]);
    assert_eq!(view.logs, vec!["No logs yet.".to_string()]);
    assert!(view.logs_placeholder);
    assert_eq!(view.preview, "No PGN yet.");
    assert_eq!(view.input_line, "URL: ");
    state.processing = true;
    state.tick = 5;
    state.final_url = Some("x".repeat(100));
    state.push_log("hi".to_string());
    let view = state.view();
    assert_eq!(view.status[0], "Status: / Processing");
    assert_eq!(view.status[1], format!("Final URL: {}", "x".repeat(84)));
    assert_eq!(view.logs, vec!["hi".to_string()]);
    assert_eq!(view.log_caption, " hi ");
    assert_eq!(view.footer, "hi");
    assert!(view.footer_busy);
}

#[test]
fn spinner_and_clamping() {
    assert_eq!(spinner(0), "|");
    assert_eq!(spinner(1), "/");
    assert_eq!(spinner(2), "-");
    assert_eq!(spinner(7), "\\");
    assert_eq!(clamp_right("héllo", 2), "hé");
    assert_eq!(clamp_right("abc", 5), "abc");
}

#[test]
fn colours() {
    assert_eq!(colorize("x", TextTone::Warn, true), "\x1b[93mx\x1b[0m");
    assert_eq!(colorize("x", TextTone::Info, false), "x");
    assert_eq!(gray_shade("y", 238, true), "\x1b[38;5;238my\x1b[0m");
    assert_eq!(gradient_text("ab", 7, true), "\x1b[38;5;249ma\x1b[0m\x1b[38;5;238mb\x1b[0m");
    assert_eq!(gradient_text("ab", 7, false), "ab");
    assert_eq!(muted_step_label(2, 5, true), "\x1b[2m[2/5]\x1b[0m");
    assert_eq!(muted_step_label(2, 5, false), "[2/5]");
    assert_eq!(working_line(1, 5, 0, false), "[1/5] Working...");
    assert_eq!(fail_color_for_count(0), TextTone::Success);
    assert_eq!(fail_color_for_count(3), TextTone::Error);
}
