//! The command line as plain values: the output format, the parsed
//! arguments and the subcommands.
use vstd::prelude::*;

verus! {

#[derive(Debug, Clone, Copy, PartialEq, Eq)]
pub enum OutputFormat {
    Text,
    Json,
    Csv,
}

impl Default for OutputFormat {
    fn default() -> (res: Self)
        ensures
            res == OutputFormat::Text,
    {
        OutputFormat::Text
    }
}

#[derive(Debug, Clone, Copy, PartialEq, Eq)]
pub enum Commands {
    /// Run TUI mode
    Tui,
    /// Run environment and release checks
    Doctor { check_updates: bool },
}

/// The parsed command line.
#[derive(Debug, Clone)]
pub struct Cli {
    pub mode: Option<Commands>,
    pub urls: Vec<String>,
    pub copy: bool,
    pub open: bool,
    pub print_pgn: bool,
    pub no_open: bool,
    pub save_pgn: Option<String>,
    pub raw_url: bool,
    pub json: bool,
    pub quiet: bool,
    pub verbose: bool,
    pub format: OutputFormat,
    pub input_file: Option<String>,
}

} // verus!
