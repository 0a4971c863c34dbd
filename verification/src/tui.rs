//! The state of the terminal UI and how it reacts to input and to
//! finished conversions.
use vstd::prelude::*;
use vstd::string::StrSliceExecFns;
use crate::app::AnalysisResult;
use crate::chesscom::strings_view;
use crate::text::{chars_of, join_lines, line_ranges, lines, push_char, ranges_view, trim, trim_str, string_of_range};

verus! {

broadcast use vstd::string::group_string_axioms;

/// How many log lines the UI keeps.
pub const MAX_LOG_LINES: usize = 20;

pub struct TuiState {
    pub input: String,
    pub logs: Vec<String>,
    pub pgn_preview: String,
    pub processing: bool,
    pub final_url: Option<String>,
    pub last_result: Option<AnalysisResult>,
    pub message: String,
    pub tick: u64,
}

impl Default for TuiState {
    fn default() -> (res: Self)
        ensures
            res.input@ == Seq::<char>::empty(),
            res.logs@.len() == 0,
            res.pgn_preview@ == Seq::<char>::empty(),
            !res.processing,
            res.final_url is None,
            res.last_result is None,
            res.message@ == Seq::<char>::empty(),
            res.tick == 0,
    {
        TuiState {
            input: String::new(),
            logs: Vec::new(),
            pgn_preview: String::new(),
            processing: false,
            final_url: None,
            last_result: None,
            message: String::new(),
            tick: 0,
        }
    }
}

/// The log after adding a line: the line appended, the oldest line
/// dropped when there are more than twenty.
pub open spec fn logged(logs: Seq<Seq<char>>, line: Seq<char>) -> Seq<Seq<char>> {
    if logs.push(line).len() > MAX_LOG_LINES {
        logs.push(line).drop_first()
    } else {
        logs.push(line)
    }
}

/// The first seven lines of a PGN, joined by line feeds.
pub open spec fn preview_of(pgn: Seq<char>) -> Seq<char> {
    join_lines(lines(pgn).take(if lines(pgn).len() < 7 { lines(pgn).len() as int } else { 7 }))
}

/// A string of at most `max` characters: the first `max` of `value`.
pub open spec fn clamped(value: Seq<char>, max: nat) -> Seq<char> {
    if value.len() <= max {
        value
    } else {
        value.take(max as int)
    }
}

/// The spinner frame for a tick.
pub open spec fn spinner_frame(step: u64) -> Seq<char> {
    if step % 4 == 0 {
        "|"@
    } else if step % 4 == 1 {
        "/"@
    } else if step % 4 == 2 {
        "-"@
    } else {
        "\\"@
    }
}

pub fn spinner(step: u64) -> (res: &'static str)
    ensures
        res@ == spinner_frame(step),
{
    let k = step % 4;
    if k == 0 {
        "|"
    } else if k == 1 {
        "/"
    } else if k == 2 {
        "-"
    } else {
        "\\"
    }
}

pub fn clamp_right(value: &str, max: usize) -> (res: String)
    ensures
        res@ == clamped(value@, max as nat),
{
    if value.unicode_len() <= max {
        value.to_string()
    } else {
        let v = chars_of(value);
        string_of_range(&v, 0, max)
    }
}

/// A key press, as far as the UI tells keys apart.
pub enum TuiKey {
    Enter,
    Esc,
    Backspace,
    /// A character key, and whether Control was held with it.
    Char(char, bool),
    Other,
}

/// Work that a key press hands to the event loop.
pub enum TuiCommand {
    /// Leave the UI.
    Quit,
    /// Nothing beyond the change of state.
    Stay,
    /// Convert this URL in the background.
    Convert(String),
    /// Copy this PGN to the clipboard.
    CopyPgn(String),
    /// Open this URL in the browser.
    OpenUrl(String),
    /// Write this PGN to the file `last_pgn_file()` names.
    SavePgn(String),
}

/// The texts of one frame.
pub struct TuiView {
    /// Status, final URL and game id.
    pub status: Vec<String>,
    /// The input line.
    pub input_line: String,
    /// The log lines, or a placeholder line when there are none.
    pub logs: Vec<String>,
    /// Whether `logs` holds the placeholder.
    pub logs_placeholder: bool,
    /// The caption under the log: the last message.
    pub log_caption: String,
    /// The PGN panel's text.
    pub preview: String,
    /// The footer: the last message.
    pub footer: String,
    /// Whether the footer is highlighted (a conversion is running).
    pub footer_busy: bool,
}

/// The file the `p` key writes the PGN to.
pub fn last_pgn_file() -> (res: &'static str)
    ensures
        res@ == "c2l-last.pgn"@,
{
    "c2l-last.pgn"
}

/// `new` is `old` with `line` logged and shown as the message, all else
/// kept.
pub open spec fn logged_only(old: TuiState, new: TuiState, line: Seq<char>) -> bool {
    &&& new.message@ == line
    &&& strings_view(new.logs@) == logged(strings_view(old.logs@), line)
    &&& new.input == old.input
    &&& new.processing == old.processing
    &&& new.final_url == old.final_url
    &&& new.last_result == old.last_result
    &&& new.pgn_preview == old.pgn_preview
    &&& new.tick == old.tick
}

/// `new` is `old` with another input line, all else kept.
pub open spec fn input_only(old: TuiState, new: TuiState, input: Seq<char>) -> bool {
    &&& new.input@ == input
    &&& new.logs == old.logs
    &&& new.message == old.message
    &&& new.processing == old.processing
    &&& new.final_url == old.final_url
    &&& new.last_result == old.last_result
    &&& new.pgn_preview == old.pgn_preview
    &&& new.tick == old.tick
}

/// What Enter does: nothing while a conversion runs; a request for a URL
/// when none was typed; else the typed URL (trimmed) is started and the
/// input cleared.
pub open spec fn entered(old: TuiState, new: TuiState, url: Option<String>) -> bool {
    if old.processing {
        url is None && new == old
    } else if trim(old.input@).len() == 0 {
        url is None && logged_only(old, new, "Please enter a URL."@)
    } else {
        &&& url matches Some(u) && u@ == trim(old.input@)
        &&& new.processing
        &&& new.input@.len() == 0
        &&& new.message@ == "Started processing: "@ + trim(old.input@)
        &&& strings_view(new.logs@) == logged(strings_view(old.logs@), new.message@)
        &&& new.final_url == old.final_url
        &&& new.last_result == old.last_result
        &&& new.pgn_preview == old.pgn_preview
        &&& new.tick == old.tick
    }
}

/// `q`, Esc and Control-C leave.
pub open spec fn key_quits(key: TuiKey) -> bool {
    match key {
        TuiKey::Esc => true,
        TuiKey::Char(c, ctrl) => c == 'q' || (c == 'c' && ctrl),
        _ => false,
    }
}

/// The input without its last character.
pub open spec fn without_last(s: Seq<char>) -> Seq<char> {
    if s.len() == 0 {
        s
    } else {
        s.drop_last()
    }
}

/// What a key press does: `q`, Esc and Control-C leave; Enter starts a
/// conversion; `c`, `o` and `p` copy, open and save the last result (or
/// say there is none); Backspace and other characters edit the input.
pub open spec fn key_outcome(old: TuiState, key: TuiKey, new: TuiState, cmd: TuiCommand) -> bool {
    if key_quits(key) {
        cmd is Quit && new == old
    } else {
        match key {
            TuiKey::Enter => match cmd {
                TuiCommand::Convert(u) => entered(old, new, Some(u)),
                TuiCommand::Stay => entered(old, new, None),
                _ => false,
            },
            TuiKey::Backspace => cmd is Stay && input_only(old, new, without_last(old.input@)),
            TuiKey::Char(c, _) => if c == 'c' {
                match old.last_result {
                    Some(r) => cmd matches TuiCommand::CopyPgn(p) && p@ == r.pgn@ && new == old,
                    None => cmd is Stay && logged_only(old, new, "No PGN available yet."@),
                }
            } else if c == 'o' {
                match old.last_result {
                    Some(r) => cmd matches TuiCommand::OpenUrl(u) && u@ == r.analysis_url@ && new
                        == old,
                    None => cmd is Stay && logged_only(old, new, "No final URL available to open."@),
                }
            } else if c == 'p' {
                match old.last_result {
                    Some(r) => cmd matches TuiCommand::SavePgn(p) && p@ == r.pgn@ && logged_only(
                        old,
                        new,
                        "PGN saved: c2l-last.pgn"@,
                    ),
                    None => cmd is Stay && logged_only(old, new, "No PGN available to save."@),
                }
            } else {
                cmd is Stay && input_only(old, new, old.input@.push(c))
            },
            _ => cmd is Stay && new == old,
        }
    }
}

/// The status lines: what the UI is doing, the last final URL (cut to 84
/// characters) and the last game id.
pub open spec fn status_text(s: TuiState) -> Seq<Seq<char>> {
    seq![
        "Status: "@ + (if s.processing {
            spinner_frame(s.tick) + " Processing"@
        } else {
            "\u{2713} Idle"@
        }),
        "Final URL: "@ + (match s.final_url {
            Some(u) => clamped(u@, 84),
            None => "-"@,
        }),
        "Game ID: "@ + (match s.last_result {
            Some(r) => r.game_id@,
            None => "-"@,
        }),
    ]
}

impl TuiState {
    pub fn push_log(&mut self, line: String)
        ensures
            logged_only(*old(self), *final(self), line@),
    {
        self.message = line.clone();
        let ghost before = strings_view(self.logs@);
        self.logs.push(line);
        assert(strings_view(self.logs@) == before.push(line@));
        if self.logs.len() > MAX_LOG_LINES {
            let ghost full = self.logs@;
            let _ = self.logs.remove(0);
            assert(strings_view(self.logs@) == strings_view(full).drop_first());
        }
    }

    pub fn reset_for_next_input(&mut self)
        ensures
            final(self).input@ == Seq::<char>::empty(),
            final(self).logs == old(self).logs,
            final(self).message == old(self).message,
            final(self).processing == old(self).processing,
            final(self).final_url == old(self).final_url,
            final(self).last_result == old(self).last_result,
            final(self).pgn_preview == old(self).pgn_preview,
            final(self).tick == old(self).tick,
    {
        self.input = String::new();
    }

    pub fn pgn_preview(pgn: &str) -> (res: String)
        ensures
            res@ == preview_of(pgn@),
    {
        let v = chars_of(pgn);
        let ranges = line_ranges(&v);
        let ghost ls = lines(v@);
        let n = if ranges.len() < 7 {
            ranges.len()
        } else {
            7
        };
        let mut out = String::new();
        let mut k: usize = 0;
        while k < n
            invariant
                k <= n <= ranges.len(),
                n == (if ranges.len() < 7 { ranges.len() } else { 7 }),
                ranges_view(v@, ranges@) == ls,
                ls == lines(v@),
                forall|j: int| 0 <= j < ranges@.len() ==> (#[trigger] ranges@[j]).0 <= ranges@[j].1
                    <= v.len(),
                out@ == join_lines(ls.take(k as int)),
            decreases n - k,
        {
            let (lo, hi) = ranges[k];
            assert(ranges_view(v@, ranges@)[k as int] == v@.subrange(lo as int, hi as int));
            assert(ls[k as int] == v@.subrange(lo as int, hi as int));
            let ghost before = out@;
            if k > 0 {
                out.append("\n");
                proof {
                    reveal_strlit("\n");
                }
                assert(out@ == before + seq!['\n']);
            }
            let line = string_of_range(&v, lo, hi);
            out.append(line.as_str());
            assert(ls.take(k + 1).drop_last() == ls.take(k as int));
            assert(ls.take(k + 1).last() == ls[k as int]);
            if k == 0 {
                assert(before.len() == 0);
                assert(ls.take(1).len() == 1);
                assert(out@ == ls[0]);
            }
            k = k + 1;
        }
        out
    }

    /// A conversion finished: show its URL and PGN preview, or the
    /// failure, and get ready for the next URL.
    pub fn on_worker_done(&mut self, result: Result<AnalysisResult, String>)
        ensures
            !final(self).processing,
            final(self).input@ == Seq::<char>::empty(),
            match result {
                Ok(r) => (final(self).final_url matches Some(u) && u@ == r.analysis_url@
                    && final(self).pgn_preview@ == preview_of(r.pgn@) && final(self).last_result
                    == Some(r) && final(self).message@ == "Done. Enter next URL, or q to exit."@),
                Err(e) => final(self).final_url is None && final(self).last_result is None
                    && final(self).message@ == "Failed: "@ + e@ && final(self).pgn_preview
                    == old(self).pgn_preview,
            },
            strings_view(final(self).logs@) == logged(strings_view(old(self).logs@), final(self).message@),
            final(self).tick == old(self).tick,
    {
        self.processing = false;
        match result {
            Ok(res) => {
                self.final_url = Some(res.final_analysis_url());
                self.pgn_preview = Self::pgn_preview(res.pgn.as_str());
                self.last_result = Some(res);
                self.push_log("Done. Enter next URL, or q to exit.".to_string());
            },
            Err(err) => {
                self.final_url = None;
                self.last_result = None;
                let mut m = "Failed: ".to_string();
                m.append(err.as_str());
                self.push_log(m);
            },
        }
        self.reset_for_next_input();
    }

    /// Enter was pressed: the URL to convert, if one was typed and none is
    /// being converted.
    pub fn on_enter(&mut self) -> (res: Option<String>)
        ensures
            entered(*old(self), *final(self), res),
    {
        if self.processing {
            return None;
        }
        let url = trim_str(self.input.as_str());
        if url.as_str().unicode_len() == 0 {
            self.push_log("Please enter a URL.".to_string());
            return None;
        }
        let mut m = "Started processing: ".to_string();
        m.append(url.as_str());
        self.push_log(m);
        self.processing = true;
        self.input = String::new();
        Some(url)
    }

    /// A key was pressed: the state changes it makes, and the work it
    /// hands to the event loop.
    pub fn on_key(&mut self, key: TuiKey) -> (res: TuiCommand)
        ensures
            key_outcome(*old(self), key, *final(self), res),
    {
        let (c, ctrl) = match key {
            TuiKey::Esc => {
                return TuiCommand::Quit;
            },
            TuiKey::Enter => {
                return match self.on_enter() {
                    Some(url) => TuiCommand::Convert(url),
                    None => TuiCommand::Stay,
                };
            },
            TuiKey::Backspace => {
                let v = chars_of(self.input.as_str());
                if v.len() > 0 {
                    self.input = string_of_range(&v, 0, v.len() - 1);
                }
                return TuiCommand::Stay;
            },
            TuiKey::Other => {
                return TuiCommand::Stay;
            },
            TuiKey::Char(c, ctrl) => (c, ctrl),
        };
        if c == 'q' || (c == 'c' && ctrl) {
            return TuiCommand::Quit;
        }
        if c == 'c' {
            match &self.last_result {
                Some(r) => TuiCommand::CopyPgn(r.pgn.clone()),
                None => {
                    self.push_log("No PGN available yet.".to_string());
                    TuiCommand::Stay
                },
            }
        } else if c == 'o' {
            match &self.last_result {
                Some(r) => TuiCommand::OpenUrl(r.final_analysis_url()),
                None => {
                    self.push_log("No final URL available to open.".to_string());
                    TuiCommand::Stay
                },
            }
        } else if c == 'p' {
            match &self.last_result {
                Some(r) => {
                    let pgn = r.pgn.clone();
                    let mut m = "PGN saved: ".to_string();
                    m.append(last_pgn_file());
                    proof {
                        reveal_strlit("PGN saved: ");
                        reveal_strlit("c2l-last.pgn");
                        reveal_strlit("PGN saved: c2l-last.pgn");
                    }
                    assert(m@ == "PGN saved: c2l-last.pgn"@);
                    self.push_log(m);
                    TuiCommand::SavePgn(pgn)
                },
                None => {
                    self.push_log("No PGN available to save.".to_string());
                    TuiCommand::Stay
                },
            }
        } else {
            push_char(&mut self.input, c);
            TuiCommand::Stay
        }
    }

    /// The clipboard copy asked for by `CopyPgn` finished.
    pub fn on_copy_done(&mut self, outcome: Result<(), String>)
        ensures
            logged_only(*old(self), *final(self), match outcome {
                Ok(()) => "PGN copied"@,
                Err(e) => "Clipboard copy failed: "@ + e@,
            }),
    {
        match outcome {
            Ok(()) => self.push_log("PGN copied".to_string()),
            Err(e) => {
                let mut m = "Clipboard copy failed: ".to_string();
                m.append(e.as_str());
                self.push_log(m);
            },
        }
    }

    /// The browser start asked for by `OpenUrl(url)` finished.
    pub fn on_open_done(&mut self, url: &str, outcome: Result<(), String>)
        ensures
            logged_only(*old(self), *final(self), match outcome {
                Ok(()) => "Open requested: "@ + url@,
                Err(e) => "Open failed: "@ + e@,
            }),
    {
        let m = match outcome {
            Ok(()) => {
                let mut m = "Open requested: ".to_string();
                m.append(url);
                m
            },
            Err(e) => {
                let mut m = "Open failed: ".to_string();
                m.append(e.as_str());
                m
            },
        };
        self.push_log(m);
    }

    /// The texts the screen shows for this state.
    pub fn view(&self) -> (res: TuiView)
        ensures
            strings_view(res.status@) == status_text(*self),
            res.input_line@ == "URL: "@ + self.input@,
            strings_view(res.logs@) == (if self.logs@.len() == 0 {
                seq!["No logs yet."@]
            } else {
                strings_view(self.logs@)
            }),
            res.logs_placeholder == (self.logs@.len() == 0),
            res.log_caption@ == " "@ + self.message@ + " "@,
            res.preview@ == (if self.pgn_preview@.len() == 0 {
                "No PGN yet."@
            } else {
                self.pgn_preview@
            }),
            res.footer@ == self.message@,
            res.footer_busy == self.processing,
    {
        let mut status: Vec<String> = Vec::new();
        let mut line = "Status: ".to_string();
        if self.processing {
            let f = spinner(self.tick);
            line.append(f);
            line.append(" Processing");
            assert(line@ =~= "Status: "@ + (spinner_frame(self.tick) + " Processing"@));
        } else {
            line.append("\u{2713} Idle");
        }
        status.push(line);
        let mut line = "Final URL: ".to_string();
        match &self.final_url {
            Some(u) => {
                let c = clamp_right(u.as_str(), 84);
                line.append(c.as_str());
            },
            None => line.append("-"),
        }
        status.push(line);
        let mut line = "Game ID: ".to_string();
        match &self.last_result {
            Some(r) => line.append(r.game_id.as_str()),
            None => line.append("-"),
        }
        status.push(line);
        assert(strings_view(status@) =~= status_text(*self));
        let mut logs: Vec<String> = Vec::new();
        let mut i: usize = 0;
        while i < self.logs.len()
            invariant
                i <= self.logs.len(),
                strings_view(logs@) == strings_view(self.logs@).take(i as int),
            decreases self.logs.len() - i,
        {
            let ghost before = logs@;
            logs.push(self.logs[i].clone());
            assert(strings_view(logs@) == strings_view(before).push(self.logs@[i as int]@));
            assert(strings_view(self.logs@).take(i + 1) == strings_view(self.logs@).take(i as int).push(
                self.logs@[i as int]@,
            ));
            i = i + 1;
        }
        assert(strings_view(self.logs@).take(self.logs.len() as int) == strings_view(self.logs@));
        let placeholder = self.logs.len() == 0;
        if placeholder {
            logs.push("No logs yet.".to_string());
        }
        let mut caption = " ".to_string();
        caption.append(self.message.as_str());
        caption.append(" ");
        let preview = if self.pgn_preview.as_str().unicode_len() == 0 {
            "No PGN yet.".to_string()
        } else {
            self.pgn_preview.clone()
        };
        TuiView {
            status,
            input_line: {
                let mut l = "URL: ".to_string();
                l.append(self.input.as_str());
                l
            },
            logs,
            logs_placeholder: placeholder,
            log_caption: caption,
            preview,
            footer: self.message.clone(),
            footer_busy: self.processing,
        }
    }
}

/// The log never holds more than twenty lines.
pub proof fn lemma_log_stays_bounded(logs: Seq<Seq<char>>, line: Seq<char>)
    requires
        logs.len() <= MAX_LOG_LINES,
    ensures
        logged(logs, line).len() <= MAX_LOG_LINES,
        logged(logs, line).last() == line,
{
}

} // verus!
