//! The CLI's rules: run options, npm self-update decisions, the config
//! location, retry timing, and the JSON, CSV and text renderings of a
//! conversion.
use vstd::prelude::*;
use vstd::string::StrSliceExecFns;
use crate::chesscom::strings_view;
use crate::cli::{Cli, OutputFormat};
use crate::error::C2lError;
use crate::json::str_eq;
use crate::metadata::GameMetadata;
use crate::style::TextTone;
use crate::text::{chars_of, decimal, push_char, push_decimal, replace, replace_str, trim, trim_str};

verus! {

broadcast use vstd::string::group_string_axioms;

// ---------------------------------------------------------------------
// Options and results
// ---------------------------------------------------------------------

#[derive(Debug, Clone)]
pub struct RunOptions {
    pub copy: bool,
    pub force_open: bool,
    pub no_open: bool,
    pub print_pgn: bool,
    pub save_pgn: Option<String>,
    pub raw_url: bool,
    pub json_output: bool,
    pub csv_output: bool,
    pub quiet: bool,
    pub verbose: bool,
}

impl RunOptions {
    /// The browser opens unless `--no-open` is given.
    pub fn should_open(&self) -> (res: bool)
        ensures
            res == !self.no_open,
    {
        if self.no_open {
            false
        } else {
            self.force_open || !self.no_open
        }
    }

    /// Progress shows when verbose, or in plain human output.
    pub fn should_emit_progress(&self) -> (res: bool)
        ensures
            res == (self.verbose || (!self.json_output && !self.csv_output && !self.raw_url
                && !self.quiet)),
    {
        self.verbose || (!self.json_output && !self.csv_output && !self.raw_url && !self.quiet)
    }
}

/// The options a command line asks for: JSON output with `--json` or
/// `--format json`, CSV output with `--format csv`.
pub fn run_options_for(cli: &Cli) -> (res: RunOptions)
    ensures
        res.copy == cli.copy,
        res.force_open == cli.open,
        res.no_open == cli.no_open,
        res.print_pgn == cli.print_pgn,
        res.save_pgn == cli.save_pgn,
        res.raw_url == cli.raw_url,
        res.json_output == (cli.json || cli.format == OutputFormat::Json),
        res.csv_output == (cli.format == OutputFormat::Csv),
        res.quiet == cli.quiet,
        res.verbose == cli.verbose,
{
    let json = cli.json || match cli.format {
        OutputFormat::Json => true,
        _ => false,
    };
    let csv = match cli.format {
        OutputFormat::Csv => true,
        _ => false,
    };
    RunOptions {
        copy: cli.copy,
        force_open: cli.open,
        no_open: cli.no_open,
        print_pgn: cli.print_pgn,
        save_pgn: cli.save_pgn.clone(),
        raw_url: cli.raw_url,
        json_output: json,
        csv_output: csv,
        quiet: cli.quiet,
        verbose: cli.verbose,
    }
}

#[derive(Debug, Clone)]
pub struct AnalysisResult {
    pub input_url: String,
    pub game_id: String,
    pub pgn: String,
    pub analysis_url: String,
    pub metadata: GameMetadata,
    pub retries: u8,
}

impl AnalysisResult {
    pub fn final_analysis_url(&self) -> (res: String)
        ensures
            res@ == self.analysis_url@,
    {
        self.analysis_url.clone()
    }
}

// ---------------------------------------------------------------------
// npm self-update
// ---------------------------------------------------------------------

#[derive(Debug, Clone, PartialEq, Eq)]
pub struct NpmSelfUpdateContext {
    pub package_name: String,
    pub current_version: String,
}

#[derive(Debug, Clone, PartialEq, Eq)]
pub struct NpmUpdateInfo {
    pub package_name: String,
    pub current_version: String,
    pub latest_version: String,
}

#[derive(Debug, Clone, Copy, PartialEq, Eq)]
pub enum NpmUpdatePromptChoice {
    UpgradeNow,
    SkipOnce,
    MuteForSevenDays,
}

pub open spec fn opt_str(o: Option<&str>) -> Option<Seq<char>> {
    match o {
        Some(s) => Some(s@),
        None => None,
    }
}

/// The npm wrapper's context: only when the wrapper flag is `1` and both
/// the package name and version are given and not blank (both trimmed).
pub open spec fn npm_context(wrapper: Option<Seq<char>>, package_name: Option<Seq<char>>, current_version: Option<Seq<char>>) -> Option<(Seq<char>, Seq<char>)> {
    match (wrapper, package_name, current_version) {
        (Some(w), Some(p), Some(v)) => if w == "1"@ && trim(p).len() > 0 && trim(v).len() > 0 {
            Some((trim(p), trim(v)))
        } else {
            None
        },
        _ => None,
    }
}

pub fn npm_update_context_from_values(wrapper: Option<&str>, package_name: Option<&str>, current_version: Option<&str>) -> (res: Option<NpmSelfUpdateContext>)
    ensures
        match res {
            Some(c) => npm_context(opt_str(wrapper), opt_str(package_name), opt_str(current_version))
                == Some((c.package_name@, c.current_version@)),
            None => npm_context(opt_str(wrapper), opt_str(package_name), opt_str(current_version)) is None,
        },
{
    let w = match wrapper {
        Some(w) => w,
        None => {
            return None;
        },
    };
    if !str_eq(w, "1") {
        return None;
    }
    let p = match package_name {
        Some(p) => trim_str(p),
        None => {
            return None;
        },
    };
    let v = match current_version {
        Some(v) => trim_str(v),
        None => {
            return None;
        },
    };
    if p.as_str().unicode_len() == 0 || v.as_str().unicode_len() == 0 {
        return None;
    }
    Some(NpmSelfUpdateContext { package_name: p, current_version: v })
}

/// `@` and `/` percent-encoded.
pub open spec fn encoded_package_name(name: Seq<char>) -> Seq<char> {
    replace(replace(name, "@"@, "%40"@), "/"@, "%2F"@)
}

pub fn encode_npm_package_name(package_name: &str) -> (res: String)
    ensures
        res@ == encoded_package_name(package_name@),
{
    proof {
        reveal_strlit("@");
        reveal_strlit("/");
    }
    let a = replace_str(package_name, "@", "%40");
    replace_str(a.as_str(), "/", "%2F")
}

/// The registry URL of a package's latest release.
pub open spec fn latest_version_url(name: Seq<char>) -> Seq<char> {
    "https://registry.npmjs.org/"@ + encoded_package_name(name) + "/latest"@
}

pub fn npm_latest_version_url(package_name: &str) -> (res: String)
    ensures
        res@ == latest_version_url(package_name@),
{
    let mut out = String::new();
    out.append("https://registry.npmjs.org/");
    let enc = encode_npm_package_name(package_name);
    out.append(enc.as_str());
    out.append("/latest");
    out
}

/// A version without its leading `v`s.
pub open spec fn version_core(v: Seq<char>) -> Seq<char>
    decreases v.len(),
{
    if v.len() > 0 && v[0] == 'v' {
        version_core(v.drop_first())
    } else {
        v
    }
}

pub fn trim_version(value: &str) -> (res: &str)
    ensures
        res@ == version_core(value@),
{
    let v = chars_of(value);
    let mut i: usize = 0;
    assert(v@.subrange(0, v@.len() as int) == v@);
    while i < v.len() && v[i] == 'v'
        invariant
            i <= v.len(),
            v@ == value@,
            version_core(value@) == version_core(v@.subrange(i as int, v@.len() as int)),
        decreases v.len() - i,
    {
        assert(v@.subrange(i as int, v@.len() as int).drop_first() == v@.subrange(
            i + 1,
            v@.len() as int,
        ));
        i = i + 1;
    }
    value.substring_char(i, v.len())
}

/// An update to offer: when the latest version differs from the current
/// one, leading `v`s aside.
pub fn available_npm_update(context: NpmSelfUpdateContext, latest_version: String) -> (res: Option<NpmUpdateInfo>)
    ensures
        res is Some <==> version_core(latest_version@) != version_core(context.current_version@),
        res matches Some(u) ==> u.package_name == context.package_name && u.current_version
            == context.current_version && u.latest_version == latest_version,
{
    if str_eq(trim_version(latest_version.as_str()), trim_version(context.current_version.as_str())) {
        return None;
    }
    Some(NpmUpdateInfo {
        package_name: context.package_name,
        current_version: context.current_version,
        latest_version,
    })
}

/// The choice an answer to the update question makes: `1` upgrades now,
/// `3` mutes the question for seven days, anything else (white space
/// around the answer aside) skips the update this time.
pub fn npm_prompt_choice(answer: &str) -> (res: NpmUpdatePromptChoice)
    ensures
        trim(answer@) == "1"@ ==> res == NpmUpdatePromptChoice::UpgradeNow,
        trim(answer@) == "3"@ ==> res == NpmUpdatePromptChoice::MuteForSevenDays,
        trim(answer@) != "1"@ && trim(answer@) != "3"@ ==> res == NpmUpdatePromptChoice::SkipOnce,
{
    proof {
        reveal_strlit("1");
        reveal_strlit("3");
        assert("1"@[0] != "3"@[0]);
        assert("1"@ != "3"@);
    }
    let t = trim_str(answer);
    if str_eq(t.as_str(), "1") {
        NpmUpdatePromptChoice::UpgradeNow
    } else if str_eq(t.as_str(), "3") {
        NpmUpdatePromptChoice::MuteForSevenDays
    } else {
        NpmUpdatePromptChoice::SkipOnce
    }
}

/// Prompting happens only without a subcommand, on a terminal, in plain
/// human output.
pub open spec fn prompts(mode_selected: bool, stdin_tty: bool, stdout_tty: bool, options: RunOptions) -> bool {
    !mode_selected && stdin_tty && stdout_tty && !options.json_output && !options.csv_output
        && !options.raw_url && !options.quiet
}

pub fn should_prompt_for_npm_update_with_tty(mode_selected: bool, stdin_tty: bool, stdout_tty: bool, options: &RunOptions) -> (res: bool)
    ensures
        res == prompts(mode_selected, stdin_tty, stdout_tty, *options),
{
    !mode_selected && stdin_tty && stdout_tty && !options.json_output && !options.csv_output
        && !options.raw_url && !options.quiet
}

/// Whether standard input is a terminal (`IsTerminal::is_terminal`);
/// nothing is claimed of the answer.
#[verifier::external_body]
pub fn stdin_is_tty() -> bool {
    std::io::IsTerminal::is_terminal(&std::io::stdin())
}

/// Whether standard output is a terminal (`IsTerminal::is_terminal`);
/// nothing is claimed of the answer.
#[verifier::external_body]
pub fn stdout_is_tty() -> bool {
    std::io::IsTerminal::is_terminal(&std::io::stdout())
}

/// Whether to offer an npm update, asking the terminal about standard
/// input and output.
pub fn should_prompt_for_npm_update(mode_selected: bool, options: &RunOptions) -> (res: bool)
    ensures
        exists|i: bool, o: bool| res == prompts(mode_selected, i, o, *options),
        res ==> !mode_selected && !options.json_output && !options.csv_output && !options.raw_url
            && !options.quiet,
{
    let i = stdin_is_tty();
    let o = stdout_is_tty();
    should_prompt_for_npm_update_with_tty(mode_selected, i, o, options)
}

/// Whether paths use `\` as their separator, as on Windows
/// (`std::path::MAIN_SEPARATOR`); nothing is claimed of the answer.
#[verifier::external_body]
fn backslash_separated_paths() -> bool {
    std::path::MAIN_SEPARATOR == '\\'
}

/// The install command: npm (`npm.cmd` on Windows) installing the
/// package's latest release globally.
pub open spec fn install_command(package_name: Seq<char>, windows: bool) -> (Seq<char>, Seq<Seq<char>>) {
    (
        if windows {
            "npm.cmd"@
        } else {
            "npm"@
        },
        seq!["install"@, "-g"@, package_name + "@latest"@],
    )
}

pub fn npm_install_command_for(update: &NpmUpdateInfo, windows: bool) -> (res: (String, Vec<String>))
    ensures
        (res.0@, strings_view(res.1@)) == install_command(update.package_name@, windows),
{
    let executable = if windows {
        "npm.cmd".to_string()
    } else {
        "npm".to_string()
    };
    let mut target = update.package_name.clone();
    target.append("@latest");
    let args = vec!["install".to_string(), "-g".to_string(), target];
    assert(strings_view(args@) == seq!["install"@, "-g"@, update.package_name@ + "@latest"@]);
    (executable, args)
}

pub fn npm_install_command(update: &NpmUpdateInfo) -> (res: (String, Vec<String>))
    ensures
        exists|w: bool| (res.0@, strings_view(res.1@)) == install_command(update.package_name@, w),
{
    let w = backslash_separated_paths();
    npm_install_command_for(update, w)
}

/// Words joined by single spaces.
pub open spec fn spaced(words: Seq<Seq<char>>) -> Seq<char>
    decreases words.len(),
{
    if words.len() == 0 {
        seq![]
    } else if words.len() == 1 {
        words[0]
    } else {
        spaced(words.drop_last()) + " "@ + words.last()
    }
}

pub fn npm_install_command_display(update: &NpmUpdateInfo) -> (res: String)
    ensures
        exists|w: bool| res@ == spaced(seq![install_command(update.package_name@, w).0] + install_command(update.package_name@, w).1),
{
    let (executable, args) = npm_install_command(update);
    let ghost w = choose|w: bool| (executable@, strings_view(args@)) == install_command(update.package_name@, w);
    let ghost words = seq![executable@] + strings_view(args@);
    let mut out = executable.clone();
    assert(words.take(1) == seq![executable@]);
    let mut i: usize = 0;
    while i < args.len()
        invariant
            i <= args.len(),
            words == seq![executable@] + strings_view(args@),
            out@ == spaced(words.take(i + 1)),
        decreases args.len() - i,
    {
        out.append(" ");
        out.append(args[i].as_str());
        assert(words.take(i + 2).drop_last() == words.take(i + 1));
        assert(words.take(i + 2).last() == args@[i as int]@);
        i = i + 1;
    }
    assert(words.take(args.len() + 1) == words);
    out
}

// ---------------------------------------------------------------------
// The config file and the update mute
// ---------------------------------------------------------------------

/// `true` for a Windows drive prefix alone, such as `C:`.
pub open spec fn drive_prefix(base: Seq<char>) -> bool {
    base.len() == 2 && base[1] == ':' && (('A' <= base[0] && base[0] <= 'Z') || ('a' <= base[0]
        && base[0] <= 'z'))
}

/// `base` joined with a relative part, as `PathBuf::join` does: no
/// separator after an empty base or one that ends in a separator (`/`, and
/// on Windows also `\`) or, on Windows, after a drive prefix alone; else
/// `/`, or `\` on Windows.
pub open spec fn path_join(base: Seq<char>, part: Seq<char>, windows: bool) -> Seq<char> {
    if base.len() == 0 || base.last() == '/' || (windows && (base.last() == '\\' || drive_prefix(
        base,
    ))) {
        base + part
    } else if windows {
        base + seq!['\\'] + part
    } else {
        base + seq!['/'] + part
    }
}

fn join_path(base: &str, part: &str, windows: bool) -> (res: String)
    ensures
        res@ == path_join(base@, part@, windows),
{
    let v = chars_of(base);
    let mut out = base.to_string();
    let n = v.len();
    let ends_with_sep = n > 0 && (v[n - 1] == '/' || (windows && v[n - 1] == '\\'));
    let drive = n == 2 && v[1] == ':' && (('A' <= v[0] && v[0] <= 'Z') || ('a' <= v[0] && v[0]
        <= 'z'));
    if n > 0 && !ends_with_sep && !(windows && drive) {
        if windows {
            push_char(&mut out, '\\');
        } else {
            push_char(&mut out, '/');
        }
    }
    out.append(part);
    out
}

/// The config directory: `$XDG_CONFIG_HOME/c2l` when that is not blank,
/// else `$HOME/.config/c2l` with the home trimmed and not blank.
pub open spec fn config_dir(xdg: Option<Seq<char>>, home: Option<Seq<char>>, windows: bool) -> Option<Seq<char>> {
    match xdg {
        Some(x) if trim(x).len() > 0 => Some(path_join(x, "c2l"@, windows)),
        _ => match home {
            Some(h) => if trim(h).len() > 0 {
                Some(path_join(path_join(trim(h), ".config"@, windows), "c2l"@, windows))
            } else {
                None
            },
            None => None,
        },
    }
}

/// The config directory, with paths joined as on Windows or not.
pub fn config_dir_for(xdg_config_home: Option<&str>, home: Option<&str>, windows: bool) -> (res: Option<String>)
    ensures
        match res {
            Some(d) => config_dir(opt_str(xdg_config_home), opt_str(home), windows) == Some(d@),
            None => config_dir(opt_str(xdg_config_home), opt_str(home), windows) is None,
        },
{
    match xdg_config_home {
        Some(x) => {
            if !crate::pgn_extract::is_blank(x) {
                return Some(join_path(x, "c2l", windows));
            }
        },
        None => {},
    }
    let h = match home {
        Some(h) => trim_str(h),
        None => {
            return None;
        },
    };
    if h.as_str().unicode_len() == 0 {
        return None;
    }
    let c = join_path(h.as_str(), ".config", windows);
    Some(join_path(c.as_str(), "c2l", windows))
}

/// The config file inside the config directory, with paths joined as on
/// Windows or not.
pub fn config_path_for(xdg_config_home: Option<&str>, home: Option<&str>, windows: bool) -> (res: Option<String>)
    ensures
        match res {
            Some(p) => config_dir(opt_str(xdg_config_home), opt_str(home), windows) matches Some(d)
                && p@ == path_join(d, "config.json"@, windows),
            None => config_dir(opt_str(xdg_config_home), opt_str(home), windows) is None,
        },
{
    match config_dir_for(xdg_config_home, home, windows) {
        Some(dir) => Some(join_path(dir.as_str(), "config.json", windows)),
        None => None,
    }
}

/// The config directory, with paths joined as this platform joins them.
pub fn config_dir_from_env(xdg_config_home: Option<&str>, home: Option<&str>) -> (res: Option<String>)
    ensures
        exists|w: bool|
            match res {
                Some(d) => config_dir(opt_str(xdg_config_home), opt_str(home), w) == Some(d@),
                None => config_dir(opt_str(xdg_config_home), opt_str(home), w) is None,
            },
{
    config_dir_for(xdg_config_home, home, backslash_separated_paths())
}

/// The config file, with paths joined as this platform joins them.
pub fn config_path_from_env(xdg_config_home: Option<&str>, home: Option<&str>) -> (res: Option<String>)
    ensures
        exists|w: bool|
            match res {
                Some(p) => config_dir(opt_str(xdg_config_home), opt_str(home), w) matches Some(d)
                    && p@ == path_join(d, "config.json"@, w),
                None => config_dir(opt_str(xdg_config_home), opt_str(home), w) is None,
            },
{
    config_path_for(xdg_config_home, home, backslash_separated_paths())
}

/// A mute is active while its deadline lies ahead.
pub open spec fn mute_active(mute_until: Option<u64>, now: u64) -> bool {
    mute_until matches Some(t) && t > now
}

/// The end of a mute of `days` days from `now`, saturating at the
/// largest time.
pub open spec fn mute_end(now: u64, days: u64) -> u64 {
    if now + days * 86400 <= u64::MAX {
        (now + days * 86400) as u64
    } else {
        u64::MAX
    }
}

pub fn mute_is_active(mute_until_epoch_seconds: Option<u64>, now_epoch_seconds: u64) -> (res: bool)
    ensures
        res == mute_active(mute_until_epoch_seconds, now_epoch_seconds),
{
    match mute_until_epoch_seconds {
        Some(t) => t > now_epoch_seconds,
        None => false,
    }
}

pub fn mute_deadline(now_epoch_seconds: u64, days: u64) -> (res: u64)
    ensures
        res == mute_end(now_epoch_seconds, days),
{
    let span: u64 = if days <= u64::MAX / 86400 {
        days * 86400
    } else {
        u64::MAX
    };
    now_epoch_seconds.saturating_add(span)
}

/// A mute of one day or more, set at `now`, holds at every later moment
/// before its days have passed, and has lapsed from its end on.
pub proof fn lemma_mute_lasts_its_days(now: u64, days: u64, t: u64)
    requires
        days >= 1,
    ensures
        now <= t < now + days * 86400 && t < u64::MAX ==> mute_active(Some(mute_end(now, days)), t),
        mute_end(now, days) <= t ==> !mute_active(Some(mute_end(now, days)), t),
{
}


// ---------------------------------------------------------------------
// Retries
// ---------------------------------------------------------------------

/// How many times a conversion is attempted at most.
pub const MAX_RETRY_ATTEMPTS: u8 = 4;

pub open spec fn pow2(n: nat) -> nat
    decreases n,
{
    if n == 0 {
        1
    } else {
        2 * pow2((n - 1) as nat)
    }
}

/// The wait before attempt `attempt + 1`: 250 ms doubled per attempt, at
/// most 2500 ms.
pub open spec fn retry_delay(attempt: nat) -> nat {
    if 250 * pow2(attempt) <= 2500 {
        250 * pow2(attempt)
    } else {
        2500
    }
}

pub fn retryable_delay(attempt: u8) -> (res: u64)
    ensures
        res == retry_delay(attempt as nat),
{
    let mut d: u64 = 250;
    let mut i: u8 = 0;
    while i < attempt
        invariant
            i <= attempt,
            d == 250 * pow2(i as nat) || (d >= 2500 && 250 * pow2(i as nat) >= 2500),
            d <= 5000,
        decreases attempt - i,
    {
        if d >= 2500 {
            proof {
                lemma_delay_stays_capped(i as nat, attempt as nat);
            }
            return 2500;
        }
        d = d * 2;
        i = i + 1;
    }
    if d > 2500 {
        2500
    } else {
        d
    }
}

proof fn lemma_pow2_monotone(a: nat, b: nat)
    requires
        a <= b,
    ensures
        pow2(a) <= pow2(b),
    decreases b - a,
{
    if a < b {
        lemma_pow2_monotone(a, (b - 1) as nat);
    }
}

proof fn lemma_delay_stays_capped(i: nat, a: nat)
    requires
        i <= a,
        250 * pow2(i) >= 2500,
    ensures
        retry_delay(a) == 2500,
{
    lemma_pow2_monotone(i, a);
}

/// The waits between attempts never shrink and never exceed 2.5 seconds.
pub proof fn lemma_retry_delay_bounded_and_growing(a: nat, b: nat)
    requires
        a <= b,
    ensures
        retry_delay(a) <= retry_delay(b) <= 2500,
        retry_delay(a) >= 250,
{
    lemma_pow2_monotone(a, b);
    lemma_pow2_monotone(0, a);
}

/// Only a retryable error is worth another attempt.
pub fn is_retryable_error(err: &C2lError) -> (res: bool)
    ensures
        res == crate::error::is_retryable(*err),
{
    err.is_retryable()
}

/// What to do after attempt number `attempt` failed.
pub enum RetryDecision {
    /// Give up and report the error.
    GiveUp,
    /// Wait this many milliseconds, then try again.
    WaitMs(u64),
}

/// Another attempt follows a retryable failure while fewer than four
/// attempts were made.
pub fn after_failed_attempt(attempt: u8, retryable: bool) -> (res: RetryDecision)
    ensures
        match res {
            RetryDecision::GiveUp => attempt >= MAX_RETRY_ATTEMPTS || !retryable,
            RetryDecision::WaitMs(ms) => attempt < MAX_RETRY_ATTEMPTS && retryable && ms
                == retry_delay(attempt as nat),
        },
{
    if attempt >= MAX_RETRY_ATTEMPTS || !retryable {
        RetryDecision::GiveUp
    } else {
        RetryDecision::WaitMs(retryable_delay(attempt))
    }
}

/// The warning shown (unless quiet) before another attempt.
pub fn retry_warning(raw_url: &str, attempt: u8, error: &str) -> (res: String)
    ensures
        res@ == "[retry] transient error for "@ + raw_url@ + " ("@ + decimal(attempt as nat) + "/"@
            + decimal(MAX_RETRY_ATTEMPTS as nat) + "): "@ + error@,
{
    let mut out = "[retry] transient error for ".to_string();
    out.append(raw_url);
    out.append(" (");
    push_decimal(&mut out, attempt as u64);
    out.append("/");
    push_decimal(&mut out, MAX_RETRY_ATTEMPTS as u64);
    out.append("): ");
    out.append(error);
    out
}

/// The note shown (when verbose) on the wait before the next attempt.
pub fn retry_wait_note(attempt: u8) -> (res: String)
    ensures
        res@ == "[retry] waiting "@ + decimal(retry_delay(attempt as nat)) + "ms before attempt "@
            + decimal(if attempt < 255 {
            (attempt + 1) as nat
        } else {
            255
        }),
{
    let mut out = "[retry] waiting ".to_string();
    push_decimal(&mut out, retryable_delay(attempt));
    out.append("ms before attempt ");
    push_decimal(&mut out, attempt.saturating_add(1) as u64);
    out
}

/// The retries a result reports: the attempts before the one that
/// succeeded.
pub fn retries_before(attempt: u8) -> (res: u8)
    ensures
        res == (if attempt > 0 {
            attempt - 1
        } else {
            0
        }),
{
    attempt.saturating_sub(1)
}

// ---------------------------------------------------------------------
// CSV output
// ---------------------------------------------------------------------

/// A CSV field: quoted, inner quotes doubled.
pub open spec fn csv_escaped(value: Seq<char>) -> Seq<char> {
    seq!['"'] + replace(value, seq!['"'], seq!['"', '"']) + seq!['"']
}

pub fn csv_escape(value: &str) -> (res: String)
    ensures
        res@ == csv_escaped(value@),
{
    let mut out = String::new();
    push_char(&mut out, '"');
    let v = chars_of(value);
    let q = ['"'];
    let qq = ['"', '"'];
    assert(q@ == seq!['"']);
    assert(qq@ == seq!['"', '"']);
    let r = crate::text::replace_chars(&v, &q, &qq);
    crate::text::push_all(&mut out, &r);
    push_char(&mut out, '"');
    out
}

/// The CSV header line.
pub open spec fn csv_header_text() -> Seq<char> {
    "input_url,success,retries,game_id,analysis_url,event,white,black,result,date,opening,eco,moves_count,error"@
}

pub fn csv_header() -> (res: &'static str)
    ensures
        res@ == csv_header_text(),
{
    "input_url,success,retries,game_id,analysis_url,event,white,black,result,date,opening,eco,moves_count,error"
}

/// Fields joined by commas.
pub open spec fn comma_joined(fields: Seq<Seq<char>>) -> Seq<char>
    decreases fields.len(),
{
    if fields.len() == 0 {
        seq![]
    } else if fields.len() == 1 {
        fields[0]
    } else {
        comma_joined(fields.drop_last()) + ","@ + fields.last()
    }
}

pub open spec fn or_empty(o: Option<Seq<char>>) -> Seq<char> {
    match o {
        Some(s) => s,
        None => seq![],
    }
}

pub open spec fn meta_of(r: Option<AnalysisResult>) -> Option<GameMetadata> {
    match r {
        Some(x) => Some(x.metadata),
        None => None,
    }
}

pub open spec fn meta_field(m: Option<GameMetadata>, f: spec_fn(GameMetadata) -> Option<String>) -> Seq<char> {
    match m {
        Some(x) => match f(x) {
            Some(s) => s@,
            None => seq![],
        },
        None => seq![],
    }
}

/// The fourteen fields of a result's CSV line, in header order.
pub open spec fn csv_fields(url: Seq<char>, r: Option<AnalysisResult>, error: Option<Seq<char>>, retries: u8) -> Seq<Seq<char>> {
    let m = meta_of(r);
    seq![
        csv_escaped(url),
        if r is Some { "ok"@ } else { "error"@ },
        decimal(retries as nat),
        csv_escaped(match r { Some(x) => x.game_id@, None => seq![] }),
        csv_escaped(match r { Some(x) => x.analysis_url@, None => seq![] }),
        csv_escaped(meta_field(m, |g: GameMetadata| g.event)),
        csv_escaped(meta_field(m, |g: GameMetadata| g.white)),
        csv_escaped(meta_field(m, |g: GameMetadata| g.black)),
        csv_escaped(meta_field(m, |g: GameMetadata| g.result)),
        csv_escaped(meta_field(m, |g: GameMetadata| g.date)),
        csv_escaped(meta_field(m, |g: GameMetadata| g.opening)),
        csv_escaped(meta_field(m, |g: GameMetadata| g.eco)),
        csv_escaped(match m {
            Some(x) => match x.moves_count {
                Some(n) => decimal(n as nat),
                None => seq![],
            },
            None => seq![],
        }),
        csv_escaped(or_empty(error)),
    ]
}

fn field_or_empty(o: &Option<String>) -> (res: &str)
    ensures
        res@ == match o {
            Some(s) => s@,
            None => seq![],
        },
{
    proof {
        reveal_strlit("");
    }
    match o {
        Some(s) => s.as_str(),
        None => "",
    }
}

fn append_field(line: &mut String, value: &str)
    ensures
        final(line)@ == old(line)@ + ","@ + csv_escaped(value@),
{
    line.append(",");
    let f = csv_escape(value);
    line.append(f.as_str());
}

pub fn build_csv_line(url: &str, result: Option<&AnalysisResult>, error: Option<&str>, retries: u8) -> (res: String)
    ensures
        res@ == comma_joined(csv_fields(url@, match result {
            Some(r) => Some(*r),
            None => None,
        }, opt_str(error), retries)),
{
    let ghost r = match result {
        Some(x) => Some(*x),
        None => None,
    };
    let ghost fields = csv_fields(url@, r, opt_str(error), retries);
    proof {
        reveal_strlit("");
    }
    let (game_id, analysis_url) = match result {
        Some(x) => (x.game_id.as_str(), x.analysis_url.as_str()),
        None => ("", ""),
    };
    let (event, white, black, res_v, date, opening, eco, moves) = match result {
        Some(x) => (
            field_or_empty(&x.metadata.event),
            field_or_empty(&x.metadata.white),
            field_or_empty(&x.metadata.black),
            field_or_empty(&x.metadata.result),
            field_or_empty(&x.metadata.date),
            field_or_empty(&x.metadata.opening),
            field_or_empty(&x.metadata.eco),
            x.metadata.moves_count,
        ),
        None => ("", "", "", "", "", "", "", None),
    };
    let moves_text = match moves {
        Some(n) => crate::text::decimal_string(n as u64),
        None => String::new(),
    };
    let err = match error {
        Some(e) => e,
        None => "",
    };
    let mut line = csv_escape(url);
    assert(line@ == comma_joined(fields.take(1)));
    line.append(",");
    if result.is_some() {
        line.append("ok");
    } else {
        line.append("error");
    }
    assert(line@ == comma_joined(fields.take(2))) by {
        assert(fields.take(2).drop_last() == fields.take(1));
    }
    line.append(",");
    push_decimal(&mut line, retries as u64);
    assert(line@ == comma_joined(fields.take(3))) by {
        assert(fields.take(3).drop_last() == fields.take(2));
    }
    append_field(&mut line, game_id);
    assert(line@ == comma_joined(fields.take(4))) by {
        assert(fields.take(4).drop_last() == fields.take(3));
    }
    append_field(&mut line, analysis_url);
    assert(line@ == comma_joined(fields.take(5))) by {
        assert(fields.take(5).drop_last() == fields.take(4));
    }
    append_field(&mut line, event);
    assert(line@ == comma_joined(fields.take(6))) by {
        assert(fields.take(6).drop_last() == fields.take(5));
    }
    append_field(&mut line, white);
    assert(line@ == comma_joined(fields.take(7))) by {
        assert(fields.take(7).drop_last() == fields.take(6));
    }
    append_field(&mut line, black);
    assert(line@ == comma_joined(fields.take(8))) by {
        assert(fields.take(8).drop_last() == fields.take(7));
    }
    append_field(&mut line, res_v);
    assert(line@ == comma_joined(fields.take(9))) by {
        assert(fields.take(9).drop_last() == fields.take(8));
    }
    append_field(&mut line, date);
    assert(line@ == comma_joined(fields.take(10))) by {
        assert(fields.take(10).drop_last() == fields.take(9));
    }
    append_field(&mut line, opening);
    assert(line@ == comma_joined(fields.take(11))) by {
        assert(fields.take(11).drop_last() == fields.take(10));
    }
    append_field(&mut line, eco);
    assert(line@ == comma_joined(fields.take(12))) by {
        assert(fields.take(12).drop_last() == fields.take(11));
    }
    append_field(&mut line, moves_text.as_str());
    assert(line@ == comma_joined(fields.take(13))) by {
        assert(fields.take(13).drop_last() == fields.take(12));
    }
    append_field(&mut line, err);
    assert(line@ == comma_joined(fields.take(14))) by {
        assert(fields.take(14).drop_last() == fields.take(13));
    }
    assert(fields.take(14) == fields);
    line
}


proof fn lemma_unescape_escape(v: Seq<char>)
    ensures
        replace(replace(v, seq!['"'], seq!['"', '"']), seq!['"', '"'], seq!['"']) == v,
    decreases v.len(),
{
    let q = seq!['"'];
    let qq = seq!['"', '"'];
    if v.len() > 0 {
        lemma_unescape_escape(v.drop_first());
        let x = replace(v.drop_first(), q, qq);
        if v[0] == '"' {
            assert(v.subrange(0, 1) =~= q);
            assert(v.skip(1) =~= v.drop_first());
            assert(replace(v, q, qq) == qq + x);
            let y = qq + x;
            assert(y.subrange(0, 2) =~= qq);
            assert(y.skip(2) =~= x);
            assert(replace(y, qq, q) == q + replace(x, qq, q));
            assert(q + v.drop_first() =~= v);
        } else {
            assert(v.subrange(0, 1) != q) by {
                assert(v.subrange(0, 1)[0] == v[0]);
            }
            assert(replace(v, q, qq) == seq![v[0]] + x);
            let y = seq![v[0]] + x;
            assert(!crate::text::starts_with(y, qq)) by {
                if y.len() >= 2 {
                    assert(y.subrange(0, 2)[0] == v[0]);
                }
            }
            assert(y.drop_first() =~= x);
            assert(replace(y, qq, q) == seq![v[0]] + replace(x, qq, q));
            assert(seq![v[0]] + v.drop_first() =~= v);
        }
    }
}

/// Reading back an escaped CSV field gives the original value.
pub proof fn lemma_csv_field_roundtrip(value: Seq<char>)
    ensures
        crate::metadata::csv_field(csv_escaped(value)) == value,
{
    let r = replace(value, seq!['"'], seq!['"', '"']);
    let t = csv_escaped(value);
    assert(t[0] == '"');
    assert(t.last() == '"');
    assert(!crate::text::is_ws(t[0]));
    assert(!crate::text::is_ws(t.last()));
    assert(crate::text::trim_end(t) == t);
    assert(crate::text::trim_start(t) == t);
    assert(trim(t) == t);
    assert(t.subrange(1, t.len() - 1) =~= r);
    lemma_unescape_escape(value);
}


// ---------------------------------------------------------------------
// JSON output
// ---------------------------------------------------------------------

/// A JSON string, or `null`.
pub open spec fn json_opt(o: Option<Seq<char>>) -> Seq<char> {
    match o {
        Some(s) => crate::json::json_string_literal(s),
        None => "null"@,
    }
}

/// The metadata object of a JSON line (the ratings are not part of it).
pub open spec fn metadata_json(m: GameMetadata) -> Seq<char> {
    "{\"event\":"@ + json_opt(crate::metadata::opt_view(m.event)) + ",\"white\":"@ + json_opt(
        crate::metadata::opt_view(m.white),
    ) + ",\"black\":"@ + json_opt(crate::metadata::opt_view(m.black)) + ",\"result\":"@
        + json_opt(crate::metadata::opt_view(m.result)) + ",\"date\":"@ + json_opt(
        crate::metadata::opt_view(m.date),
    ) + ",\"opening\":"@ + json_opt(crate::metadata::opt_view(m.opening)) + ",\"eco\":"@
        + json_opt(crate::metadata::opt_view(m.eco)) + ",\"moves_count\":"@ + match m.moves_count {
        Some(n) => decimal(n as nat),
        None => "null"@,
    } + "}"@
}

/// One line of JSON output for a URL.
pub open spec fn json_line(url: Seq<char>, r: Option<AnalysisResult>, error: Option<Seq<char>>, retries: u8) -> Seq<char> {
    "{\"input_url\":"@ + crate::json::json_string_literal(url) + ",\"success\":"@ + (if r is Some {
        "true"@
    } else {
        "false"@
    }) + ",\"game_id\":"@ + json_opt(match r {
        Some(x) => Some(x.game_id@),
        None => None,
    }) + ",\"analysis_url\":"@ + json_opt(match r {
        Some(x) => Some(x.analysis_url@),
        None => None,
    }) + ",\"pgn\":"@ + json_opt(match r {
        Some(x) => Some(x.pgn@),
        None => None,
    }) + ",\"metadata\":"@ + (match r {
        Some(x) => metadata_json(x.metadata),
        None => "null"@,
    }) + ",\"retries\":"@ + decimal(retries as nat) + ",\"error\":"@ + json_opt(error) + "}"@
}

fn push_json_opt(out: &mut String, o: Option<&str>)
    ensures
        final(out)@ == old(out)@ + json_opt(opt_str(o)),
{
    match o {
        Some(s) => {
            let q = crate::json::json_quote(s);
            out.append(q.as_str());
        },
        None => out.append("null"),
    }
}

fn opt_as_str(o: &Option<String>) -> (res: Option<&str>)
    ensures
        opt_str(res) == crate::metadata::opt_view(*o),
{
    match o {
        Some(s) => Some(s.as_str()),
        None => None,
    }
}

fn push_moves_json(out: &mut String, moves: Option<u32>)
    ensures
        final(out)@ == old(out)@ + match moves {
            Some(n) => decimal(n as nat),
            None => "null"@,
        },
{
    match moves {
        Some(n) => push_decimal(out, n as u64),
        None => out.append("null"),
    }
}

fn metadata_json_string(m: &GameMetadata) -> (res: String)
    ensures
        res@ == metadata_json(*m),
{
    let mut out = "{\"event\":".to_string();
    push_json_opt(&mut out, opt_as_str(&m.event));
    out.append(",\"white\":");
    push_json_opt(&mut out, opt_as_str(&m.white));
    out.append(",\"black\":");
    push_json_opt(&mut out, opt_as_str(&m.black));
    out.append(",\"result\":");
    push_json_opt(&mut out, opt_as_str(&m.result));
    out.append(",\"date\":");
    push_json_opt(&mut out, opt_as_str(&m.date));
    out.append(",\"opening\":");
    push_json_opt(&mut out, opt_as_str(&m.opening));
    out.append(",\"eco\":");
    push_json_opt(&mut out, opt_as_str(&m.eco));
    out.append(",\"moves_count\":");
    push_moves_json(&mut out, m.moves_count);
    out.append("}");
    out
}

fn push_success(out: &mut String, ok: bool)
    ensures
        final(out)@ == old(out)@ + (if ok {
            "true"@
        } else {
            "false"@
        }),
{
    if ok {
        out.append("true");
    } else {
        out.append("false");
    }
}

fn metadata_or_null(result: Option<&AnalysisResult>) -> (res: String)
    ensures
        res@ == match result {
            Some(x) => metadata_json(x.metadata),
            None => "null"@,
        },
{
    match result {
        Some(r) => metadata_json_string(&r.metadata),
        None => "null".to_string(),
    }
}

/// Renders the JSON line for a URL's outcome.
pub fn build_json_line(url: &str, result: Option<&AnalysisResult>, error: Option<&str>, retries: u8) -> (res: String)
    ensures
        res@ == json_line(url@, match result {
            Some(r) => Some(*r),
            None => None,
        }, opt_str(error), retries),
{
    let mut out = "{\"input_url\":".to_string();
    let q = crate::json::json_quote(url);
    out.append(q.as_str());
    out.append(",\"success\":");
    push_success(&mut out, result.is_some());
    out.append(",\"game_id\":");
    push_json_opt(&mut out, match result {
        Some(r) => Some(r.game_id.as_str()),
        None => None,
    });
    out.append(",\"analysis_url\":");
    push_json_opt(&mut out, match result {
        Some(r) => Some(r.analysis_url.as_str()),
        None => None,
    });
    out.append(",\"pgn\":");
    push_json_opt(&mut out, match result {
        Some(r) => Some(r.pgn.as_str()),
        None => None,
    });
    out.append(",\"metadata\":");
    let meta = metadata_or_null(result);
    out.append(meta.as_str());
    out.append(",\"retries\":");
    push_decimal(&mut out, retries as u64);
    out.append(",\"error\":");
    push_json_opt(&mut out, error);
    out.append("}");
    assert(out@ =~= json_line(url@, match result {
        Some(r) => Some(*r),
        None => None,
    }, opt_str(error), retries));
    out
}


// ---------------------------------------------------------------------
// Text output
// ---------------------------------------------------------------------

/// A line for standard output, in a tone or plain.
pub struct OutputLine {
    pub text: String,
    pub tone: Option<TextTone>,
}

pub open spec fn line_view(l: OutputLine) -> (Seq<char>, Option<TextTone>) {
    (l.text@, l.tone)
}

pub open spec fn lines_view(v: Seq<OutputLine>) -> Seq<(Seq<char>, Option<TextTone>)> {
    v.map_values(|l: OutputLine| line_view(l))
}

/// Words joined by a separator.
pub open spec fn joined(words: Seq<Seq<char>>, sep: Seq<char>) -> Seq<char>
    decreases words.len(),
{
    if words.len() == 0 {
        seq![]
    } else if words.len() == 1 {
        words[0]
    } else {
        joined(words.drop_last(), sep) + sep + words.last()
    }
}

/// The human-readable lines after a conversion: nothing in JSON or CSV
/// mode; the PGN when asked for (with a heading unless only the URL is
/// wanted); then the final URL alone, or the players, the summary, the
/// opening and the final URL.
pub open spec fn result_text(r: AnalysisResult, o: RunOptions) -> Seq<(Seq<char>, Option<TextTone>)> {
    if o.json_output || o.csv_output {
        seq![]
    } else {
        let pgn_part: Seq<(Seq<char>, Option<TextTone>)> = if o.print_pgn {
            (if !o.raw_url {
                seq![("\n=== PGN ==="@, Some(TextTone::Info))]
            } else {
                seq![]
            }) + seq![(r.pgn@, None)]
        } else {
            seq![]
        };
        let m = r.metadata;
        let rest: Seq<(Seq<char>, Option<TextTone>)> = if o.raw_url {
            seq![(r.analysis_url@, Some(TextTone::Info))]
        } else {
            (match crate::metadata::players_text(m) {
                Some(p) => seq![("Players: "@ + p, Some(TextTone::Info))],
                None => seq![],
            }) + (if crate::metadata::summary_text(m).len() > 0 {
                seq![(joined(crate::metadata::summary_text(m), " | "@), Some(TextTone::Muted))]
            } else {
                seq![]
            }) + (match crate::metadata::opening_text(m) {
                Some(op) => seq![("Opening: "@ + op, Some(TextTone::Info))],
                None => seq![],
            }) + seq![("Final URL: "@ + r.analysis_url@, Some(TextTone::Success))]
        };
        pgn_part + rest
    }
}

/// Human output always ends with the final URL, alone with `--raw-url`
/// (when the PGN is not printed too); JSON and CSV modes print no such
/// lines.
pub proof fn lemma_output_ends_with_final_url(r: AnalysisResult, o: RunOptions)
    ensures
        o.json_output || o.csv_output ==> result_text(r, o).len() == 0,
        !o.json_output && !o.csv_output ==> result_text(r, o).len() > 0 && result_text(r, o).last()
            == (if o.raw_url {
            (r.analysis_url@, Some(TextTone::Info))
        } else {
            ("Final URL: "@ + r.analysis_url@, Some(TextTone::Success))
        }),
        o.raw_url && !o.print_pgn && !o.json_output && !o.csv_output ==> result_text(r, o) == seq![
            (r.analysis_url@, Some(TextTone::Info)),
        ],
{
    if !o.json_output && !o.csv_output {
        let m = r.metadata;
        let pgn_part: Seq<(Seq<char>, Option<TextTone>)> = if o.print_pgn {
            (if !o.raw_url {
                seq![("\n=== PGN ==="@, Some(TextTone::Info))]
            } else {
                seq![]
            }) + seq![(r.pgn@, None)]
        } else {
            seq![]
        };
        if o.raw_url {
            let rest = seq![(r.analysis_url@, Some(TextTone::Info))];
            assert(result_text(r, o) == pgn_part + rest);
            assert((pgn_part + rest).last() == rest.last());
            if !o.print_pgn {
                assert(pgn_part + rest =~= rest);
            }
        } else {
            let a: Seq<(Seq<char>, Option<TextTone>)> = match crate::metadata::players_text(m) {
                Some(p) => seq![("Players: "@ + p, Some(TextTone::Info))],
                None => seq![],
            };
            let b: Seq<(Seq<char>, Option<TextTone>)> = if crate::metadata::summary_text(m).len() > 0 {
                seq![(joined(crate::metadata::summary_text(m), " | "@), Some(TextTone::Muted))]
            } else {
                seq![]
            };
            let c: Seq<(Seq<char>, Option<TextTone>)> = match crate::metadata::opening_text(m) {
                Some(op) => seq![("Opening: "@ + op, Some(TextTone::Info))],
                None => seq![],
            };
            let d = seq![("Final URL: "@ + r.analysis_url@, Some(TextTone::Success))];
            let rest = a + b + c + d;
            assert(result_text(r, o) == pgn_part + rest);
            assert(rest.last() == d[0]);
            assert((pgn_part + rest).last() == rest.last());
        }
    }
}

fn join_strings(words: &Vec<String>, sep: &str) -> (res: String)
    ensures
        res@ == joined(strings_view(words@), sep@),
{
    let ghost ws = strings_view(words@);
    let mut out = String::new();
    let mut i: usize = 0;
    while i < words.len()
        invariant
            i <= words.len(),
            ws == strings_view(words@),
            out@ == joined(ws.take(i as int), sep@),
        decreases words.len() - i,
    {
        assert(ws.take(i + 1).drop_last() == ws.take(i as int));
        assert(ws.take(i + 1).last() == words@[i as int]@);
        if i > 0 {
            out.append(sep);
        } else {
            assert(out@ == Seq::<char>::empty());
        }
        out.append(words[i].as_str());
        i = i + 1;
    }
    assert(ws.take(words.len() as int) == ws);
    out
}

fn prefixed(prefix: &str, text: &str) -> (res: String)
    ensures
        res@ == prefix@ + text@,
{
    let mut out = prefix.to_string();
    out.append(text);
    out
}

pub fn result_lines(result: &AnalysisResult, options: &RunOptions) -> (res: Vec<OutputLine>)
    ensures
        lines_view(res@) == result_text(*result, *options),
{
    let mut out: Vec<OutputLine> = Vec::new();
    if options.json_output || options.csv_output {
        return out;
    }
    let ghost m = result.metadata;
    if options.print_pgn {
        if !options.raw_url {
            out.push(OutputLine { text: "\n=== PGN ===".to_string(), tone: Some(TextTone::Info) });
        }
        out.push(OutputLine { text: result.pgn.clone(), tone: None });
    }
    let ghost pgn_lines = lines_view(out@);
    let mut rest: Vec<OutputLine> = Vec::new();
    if options.raw_url {
        rest.push(OutputLine { text: result.final_analysis_url(), tone: Some(TextTone::Info) });
    } else {
        match result.metadata.players_label() {
            Some(p) => rest.push(OutputLine { text: prefixed("Players: ", p.as_str()), tone: Some(TextTone::Info) }),
            None => {},
        }
        let ghost r1 = lines_view(rest@);
        let bits = result.metadata.summary_bits();
        if bits.len() > 0 {
            rest.push(OutputLine { text: join_strings(&bits, " | "), tone: Some(TextTone::Muted) });
        }
        let ghost r2 = lines_view(rest@);
        match result.metadata.opening_label() {
            Some(op) => rest.push(OutputLine { text: prefixed("Opening: ", op.as_str()), tone: Some(TextTone::Info) }),
            None => {},
        }
        let ghost r3 = lines_view(rest@);
        let url = result.final_analysis_url();
        rest.push(OutputLine { text: prefixed("Final URL: ", url.as_str()), tone: Some(TextTone::Success) });
        assert(lines_view(rest@) == r3 + seq![("Final URL: "@ + result.analysis_url@, Some(TextTone::Success))]);
    }
    let ghost rest_view = lines_view(rest@);
    let mut i: usize = 0;
    let ghost before = lines_view(out@);
    while i < rest.len()
        invariant
            i <= rest.len(),
            lines_view(out@) == before + lines_view(rest@).take(i as int),
        decreases rest.len() - i,
    {
        let l = OutputLine { text: rest[i].text.clone(), tone: rest[i].tone };
        assert(line_view(l) == line_view(rest@[i as int]));
        let ghost old_out = out@;
        out.push(l);
        assert(lines_view(out@) == lines_view(old_out).push(line_view(l)));
        assert(lines_view(rest@).take(i + 1) == lines_view(rest@).take(i as int).push(line_view(rest@[i as int])));
        i = i + 1;
    }
    assert(lines_view(rest@).take(rest.len() as int) == lines_view(rest@));
    out
}

// ---------------------------------------------------------------------
// Batches, prompts and URL lists
// ---------------------------------------------------------------------

/// The URLs of a batch that are not blank, in order.
pub open spec fn batch_list(urls: Seq<Seq<char>>) -> Seq<Seq<char>> {
    urls.filter(|u: Seq<char>| trim(u).len() > 0)
}

pub fn batch_urls(urls: Vec<String>) -> (res: Vec<String>)
    ensures
        strings_view(res@) == batch_list(strings_view(urls@)),
{
    let ghost all = strings_view(urls@);
    let mut res: Vec<String> = Vec::new();
    let mut i: usize = 0;
    while i < urls.len()
        invariant
            i <= urls.len(),
            all == strings_view(urls@),
            strings_view(res@) == batch_list(all.take(i as int)),
        decreases urls.len() - i,
    {
        proof {
            reveal_with_fuel(Seq::filter, 1);
            assert(all.take(i + 1).drop_last() == all.take(i as int));
            assert(all.take(i + 1).last() == urls@[i as int]@);
        }
        if !crate::pgn_extract::is_blank(urls[i].as_str()) {
            let ghost before = res@;
            res.push(urls[i].clone());
            assert(strings_view(res@) == strings_view(before).push(urls@[i as int]@));
        }
        i = i + 1;
    }
    assert(all.take(urls.len() as int) == all);
    res
}

/// The closing line of a batch.
pub fn batch_summary(succeeded: usize, failed: usize) -> (res: (String, TextTone))
    ensures
        res.0@ == "Processed: "@ + decimal(succeeded as nat) + ", Failed: "@ + decimal(failed as nat),
        res.1 == (if failed > 0 {
            TextTone::Error
        } else {
            TextTone::Success
        }),
{
    let mut out = "Processed: ".to_string();
    push_decimal(&mut out, succeeded as u64);
    out.append(", Failed: ");
    push_decimal(&mut out, failed as u64);
    (out, crate::style::fail_color_for_count(failed))
}

/// The error a batch with failures ends with.
pub fn batch_failure_message(failed: usize) -> (res: String)
    ensures
        res@ == "Completed with "@ + decimal(failed as nat) + " failed conversions"@,
{
    let mut out = "Completed with ".to_string();
    push_decimal(&mut out, failed as u64);
    out.append(" failed conversions");
    out
}

/// What a line typed at the interactive prompt asks for.
pub enum InteractiveInput {
    /// Leave (end of input, or `q`, `quit`, `exit` in any case).
    Exit,
    /// A blank line: ask again.
    Skip,
    /// Convert this URL.
    Convert(String),
}

/// ASCII letters lowered.
pub open spec fn ascii_lower(c: char) -> char {
    if 'A' <= c && c <= 'Z' {
        ((c as u32) + 32) as char
    } else {
        c
    }
}

/// `true` when `s` lowercased is `word` (an ASCII lowercase word).
pub open spec fn lower_equals(s: Seq<char>, word: Seq<char>) -> bool {
    s.len() == word.len() && forall|i: int| 0 <= i < s.len() ==> ascii_lower(#[trigger] s[i]) == word[i]
}

pub open spec fn is_exit_word(s: Seq<char>) -> bool {
    lower_equals(s, "q"@) || lower_equals(s, "quit"@) || lower_equals(s, "exit"@)
}

fn lowercase_equals(s: &str, word: &str) -> (res: bool)
    ensures
        res == lower_equals(s@, word@),
{
    let a = chars_of(s);
    let b = chars_of(word);
    if a.len() != b.len() {
        return false;
    }
    let mut i: usize = 0;
    while i < a.len()
        invariant
            a@ == s@,
            b@ == word@,
            a.len() == b.len(),
            i <= a.len(),
            forall|j: int| 0 <= j < i ==> ascii_lower(#[trigger] a@[j]) == b@[j],
        decreases a.len() - i,
    {
        let c = a[i];
        let lc = if 'A' <= c && c <= 'Z' {
            ((c as u8) + 32) as char
        } else {
            c
        };
        assert(lc == ascii_lower(c));
        if lc != b[i] {
            return false;
        }
        i = i + 1;
    }
    true
}

/// Reads a line from the interactive prompt (`raw` empty at end of
/// input).
pub fn interactive_input(raw: &str) -> (res: InteractiveInput)
    ensures
        raw@.len() == 0 ==> res is Exit,
        raw@.len() > 0 && trim(raw@).len() == 0 ==> res is Skip,
        raw@.len() > 0 && trim(raw@).len() > 0 && is_exit_word(trim(raw@)) ==> res is Exit,
        raw@.len() > 0 && trim(raw@).len() > 0 && !is_exit_word(trim(raw@)) ==> (res matches InteractiveInput::Convert(u)
            && u@ == trim(raw@)),
{
    if raw.unicode_len() == 0 {
        return InteractiveInput::Exit;
    }
    let t = trim_str(raw);
    if t.as_str().unicode_len() == 0 {
        return InteractiveInput::Skip;
    }
    if lowercase_equals(t.as_str(), "q") || lowercase_equals(t.as_str(), "quit")
        || lowercase_equals(t.as_str(), "exit") {
        return InteractiveInput::Exit;
    }
    InteractiveInput::Convert(t)
}

/// A line of a URL list without its `#` comment, trimmed.
pub open spec fn url_of_line(line: Seq<char>) -> Seq<char> {
    trim(line.subrange(0, crate::pgn_extract::char_end(line, 0, '#')))
}

/// The URLs of a list: one per line, comments after `#` and blank lines
/// dropped.
pub open spec fn url_list(raw: Seq<char>) -> Seq<Seq<char>> {
    crate::text::lines(raw).map_values(|l: Seq<char>| url_of_line(l)).filter(
        |u: Seq<char>| u.len() > 0,
    )
}

pub fn urls_from_text(raw: &str) -> (res: Vec<String>)
    ensures
        strings_view(res@) == url_list(raw@),
{
    let v = chars_of(raw);
    let ranges = crate::text::line_ranges(&v);
    let ghost ls = crate::text::lines(v@);
    let ghost mapped = ls.map_values(|l: Seq<char>| url_of_line(l));
    let mut res: Vec<String> = Vec::new();
    let mut k: usize = 0;
    while k < ranges.len()
        invariant
            k <= ranges.len(),
            crate::text::ranges_view(v@, ranges@) == ls,
            ls == crate::text::lines(v@),
            mapped == ls.map_values(|l: Seq<char>| url_of_line(l)),
            forall|j: int| 0 <= j < ranges@.len() ==> (#[trigger] ranges@[j]).0 <= ranges@[j].1
                <= v.len(),
            strings_view(res@) == mapped.take(k as int).filter(|u: Seq<char>| u.len() > 0),
        decreases ranges.len() - k,
    {
        let (lo, hi) = ranges[k];
        let ghost line = v@.subrange(lo as int, hi as int);
        assert(ls[k as int] == line);
        let line_chars = crate::pgn_extract::slice_range(&v, lo, hi);
        let e = crate::pgn_extract::find_char(&line_chars, 0, '#');
        let (a, b) = crate::text::trim_range(&line_chars, 0, e);
        proof {
            reveal_with_fuel(Seq::filter, 1);
            assert(mapped.take(k + 1).drop_last() == mapped.take(k as int));
            assert(mapped.take(k + 1).last() == url_of_line(line));
        }
        if a < b {
            let ghost before = res@;
            res.push(crate::text::string_of_range(&line_chars, a, b));
            assert(strings_view(res@) == strings_view(before).push(url_of_line(line)));
        }
        k = k + 1;
    }
    assert(mapped.take(ranges.len() as int) == mapped);
    res
}

/// The doctor's release check: an update notice when the latest release
/// differs from the running version (leading `v`s aside), else a
/// confirmation.
pub fn release_check_message(current: &str, latest_tag: &str) -> (res: (String, TextTone))
    ensures
        version_core(latest_tag@) != version_core(current@) ==> res.0@ == "Update available: "@
            + version_core(latest_tag@) + " (current: "@ + version_core(current@) + ")"@ && res.1
            == TextTone::Warn,
        version_core(latest_tag@) == version_core(current@) ==> res.0@
            == "You are on the latest release: "@ + version_core(current@) && res.1 == TextTone::Info,
{
    let c = trim_version(current);
    let l = trim_version(latest_tag);
    if !str_eq(l, c) {
        let mut out = "Update available: ".to_string();
        out.append(l);
        out.append(" (current: ");
        out.append(c);
        out.append(")");
        (out, TextTone::Warn)
    } else {
        let mut out = "You are on the latest release: ".to_string();
        out.append(c);
        (out, TextTone::Info)
    }
}


/// The doctor's line for one reachability probe: the HTTP status it got,
/// or why the site could not be reached.
pub fn network_check_line(name: &str, outcome: Result<&str, &str>) -> (res: (String, TextTone))
    ensures
        match outcome {
            Ok(status) => res.0@ == "Network: "@ + name@ + " => "@ + status@ && res.1 == TextTone::Info,
            Err(e) => res.0@ == "Network: "@ + name@ + " => "@ + "unreachable ("@ + e@ + ")"@ && res.1
                == TextTone::Warn,
        },
{
    let mut out = "Network: ".to_string();
    out.append(name);
    out.append(" => ");
    match outcome {
        Ok(status) => {
            out.append(status);
            (out, TextTone::Info)
        },
        Err(e) => {
            out.append("unreachable (");
            out.append(e);
            out.append(")");
            (out, TextTone::Warn)
        },
    }
}

/// The doctor's npm lines: an update notice and the upgrade command when
/// the registry's latest version differs from the running one (leading
/// `v`s aside), a confirmation when it does not, the failure when the
/// registry could not be asked.
pub fn npm_check_lines(context: &NpmSelfUpdateContext, latest: Result<String, String>) -> (res: Vec<(String, TextTone)>)
    ensures
        match latest {
            Ok(l) => if version_core(l@) != version_core(context.current_version@) {
                &&& res@.len() == 2
                &&& res@[0].0@ == "npm package update available: "@ + l@ + " (current: "@
                    + context.current_version@ + ")"@
                &&& res@[0].1 == TextTone::Warn
                &&& exists|w: bool| res@[1].0@ == "Upgrade command: "@ + spaced(seq![install_command(context.package_name@, w).0] + install_command(context.package_name@, w).1)
                &&& res@[1].1 == TextTone::Info
            } else {
                &&& res@.len() == 1
                &&& res@[0].0@ == "npm package is up to date: "@ + version_core(l@)
                &&& res@[0].1 == TextTone::Info
            },
            Err(e) => res@.len() == 1 && res@[0].0@ == "npm package update check failed: "@ + e@
                && res@[0].1 == TextTone::Warn,
        },
{
    let mut out: Vec<(String, TextTone)> = Vec::new();
    match latest {
        Ok(l) => {
            if !str_eq(trim_version(l.as_str()), trim_version(context.current_version.as_str())) {
                let mut first = "npm package update available: ".to_string();
                first.append(l.as_str());
                first.append(" (current: ");
                first.append(context.current_version.as_str());
                first.append(")");
                out.push((first, TextTone::Warn));
                let info = NpmUpdateInfo {
                    package_name: context.package_name.clone(),
                    current_version: context.current_version.clone(),
                    latest_version: l,
                };
                let display = npm_install_command_display(&info);
                out.push((prefixed("Upgrade command: ", display.as_str()), TextTone::Info));
            } else {
                out.push((prefixed("npm package is up to date: ", trim_version(l.as_str())), TextTone::Info));
            }
        },
        Err(e) => {
            out.push((prefixed("npm package update check failed: ", e.as_str()), TextTone::Warn));
        },
    }
    out
}

/// How a failed conversion is reported.
pub enum FailureReport {
    /// A JSON line on standard output.
    Json(String),
    /// A CSV line on standard output.
    Csv(String),
    /// A line on standard error.
    Text(String),
    /// Nothing.
    Silent,
}

/// The report of a failed conversion: a JSON or CSV line in those modes;
/// else a line on standard error, which in a batch names the URL and is
/// left out when quiet.
pub fn failure_report(options: &RunOptions, raw_url: &str, error: &str, in_batch: bool) -> (res: FailureReport)
    ensures
        options.json_output ==> (res matches FailureReport::Json(l) && l@ == json_line(raw_url@, None, Some(error@), 0)),
        !options.json_output && options.csv_output ==> (res matches FailureReport::Csv(l) && l@
            == comma_joined(csv_fields(raw_url@, None, Some(error@), 0))),
        !options.json_output && !options.csv_output && !in_batch ==> (res matches FailureReport::Text(t)
            && t@ == "Failed: "@ + error@),
        !options.json_output && !options.csv_output && in_batch && !options.quiet ==> (res matches FailureReport::Text(t)
            && t@ == "Failed: "@ + raw_url@ + ": "@ + error@),
        !options.json_output && !options.csv_output && in_batch && options.quiet ==> res is Silent,
{
    if options.json_output {
        FailureReport::Json(build_json_line(raw_url, None, Some(error), 0))
    } else if options.csv_output {
        FailureReport::Csv(build_csv_line(raw_url, None, Some(error), 0))
    } else if !in_batch {
        FailureReport::Text(prefixed("Failed: ", error))
    } else if !options.quiet {
        let mut t = prefixed("Failed: ", raw_url);
        t.append(": ");
        t.append(error);
        FailureReport::Text(t)
    } else {
        FailureReport::Silent
    }
}

/// The line a successful conversion adds in a batch: its JSON or CSV line
/// in those modes, nothing in human output.
pub fn batch_success_line(options: &RunOptions, raw_url: &str, result: &AnalysisResult) -> (res: Option<String>)
    ensures
        options.json_output ==> (res matches Some(l) && l@ == json_line(raw_url@, Some(*result), None, result.retries)),
        !options.json_output && options.csv_output ==> (res matches Some(l) && l@ == comma_joined(csv_fields(raw_url@, Some(*result), None, result.retries))),
        !options.json_output && !options.csv_output ==> res is None,
{
    if options.json_output {
        Some(build_json_line(raw_url, Some(result), None, result.retries))
    } else if options.csv_output {
        Some(build_csv_line(raw_url, Some(result), None, result.retries))
    } else {
        None
    }
}

/// The note after the clipboard copy that `--copy` asks for: the failure
/// (on standard error) unless quiet, a confirmation unless only the URL is
/// wanted or quiet.
pub fn copy_note(options: &RunOptions, outcome: Result<(), &str>) -> (res: Option<(String, TextTone)>)
    ensures
        match outcome {
            Err(e) => if options.quiet {
                res is None
            } else {
                res matches Some(n) && n.0@ == "Failed to copy PGN: "@ + e@ && n.1 == TextTone::Error
            },
            Ok(()) => if options.raw_url || options.quiet {
                res is None
            } else {
                res matches Some(n) && n.0@ == "PGN copied"@ && n.1 == TextTone::Success
            },
        },
{
    match outcome {
        Err(e) => if options.quiet {
            None
        } else {
            Some((prefixed("Failed to copy PGN: ", e), TextTone::Error))
        },
        Ok(()) => if options.raw_url || options.quiet {
            None
        } else {
            Some(("PGN copied".to_string(), TextTone::Success))
        },
    }
}

/// The note after the PGN was saved to `path`, unless only the URL is
/// wanted or quiet.
pub fn save_note(options: &RunOptions, path: &str) -> (res: Option<(String, TextTone)>)
    ensures
        if options.raw_url || options.quiet {
            res is None
        } else {
            res matches Some(n) && n.0@ == "PGN saved: "@ + path@ && n.1 == TextTone::Success
        },
{
    if options.raw_url || options.quiet {
        None
    } else {
        Some((prefixed("PGN saved: ", path), TextTone::Success))
    }
}

/// The warning when the browser could not be opened, unless quiet.
pub fn open_failure_note(options: &RunOptions, error: &str) -> (res: Option<(String, TextTone)>)
    ensures
        if options.quiet {
            res is None
        } else {
            res matches Some(n) && n.0@ == "Failed to auto-open browser: "@ + error@ && n.1
                == TextTone::Warn
        },
{
    if options.quiet {
        None
    } else {
        Some((prefixed("Failed to auto-open browser: ", error), TextTone::Warn))
    }
}

} // verus!
