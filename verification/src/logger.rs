//! The messages the tool prints about itself, and how verbose it is.

use vstd::prelude::*;

verus! {

/// Severity of a message.
#[derive(Clone, Copy, Debug, PartialEq, Eq, Structural)]
pub enum LogLevel {
    Error,
    Warn,
    Info,
    Debug,
    Trace,
}

/// The most detailed messages shown.
#[derive(Clone, Copy, Debug, PartialEq, Eq, Structural)]
pub enum Verbosity {
    /// Nothing is shown, not even errors.
    Off,
    Error,
    Info,
    Debug,
    Trace,
}

/// The verbosity chosen by the command-line flags: `-q` silences everything;
/// otherwise errors only, and each `-v` shows more, up to three.
pub open spec fn verbosity_of(quiet: bool, verbose: u8) -> Verbosity {
    if quiet {
        Verbosity::Off
    } else if verbose == 0 {
        Verbosity::Error
    } else if verbose == 1 {
        Verbosity::Info
    } else if verbose == 2 {
        Verbosity::Debug
    } else {
        Verbosity::Trace
    }
}

/// The text put before a message of the given level.
pub open spec fn line_prefix(level: LogLevel) -> Seq<char> {
    match level {
        LogLevel::Error => ":: shmemo :: ERROR: "@,
        LogLevel::Warn => ":: shmemo :: WARN: "@,
        LogLevel::Info => ":: shmemo :: "@,
        LogLevel::Debug => ":: shmemo :: DEBUG: "@,
        LogLevel::Trace => ":: shmemo :: TRACE: "@,
    }
}

/// Picks the verbosity from the `-q` flag and the number of `-v` flags.
pub fn verbosity_for(quiet: bool, verbose: u8) -> (res: Verbosity)
    ensures
        res == verbosity_of(quiet, verbose),
{
    if quiet {
        Verbosity::Off
    } else if verbose == 0 {
        Verbosity::Error
    } else if verbose == 1 {
        Verbosity::Info
    } else if verbose == 2 {
        Verbosity::Debug
    } else {
        Verbosity::Trace
    }
}

/// The logger that prints the tool's own messages to stderr.
pub struct MemoLogger;

impl MemoLogger {
    /// Every message that reaches the logger is printed; the level filter
    /// decides before.
    pub fn enabled(&self, level: LogLevel) -> (res: bool)
        ensures
            res,
    {
        true
    }

    /// The line printed for a message of the given level.
    pub fn format_line(&self, level: LogLevel, message: &str) -> (res: String)
        ensures
            res@ == line_prefix(level) + message@,
    {
        let mut line = match level {
            LogLevel::Error => String::from_str(":: shmemo :: ERROR: "),
            LogLevel::Warn => String::from_str(":: shmemo :: WARN: "),
            LogLevel::Info => String::from_str(":: shmemo :: "),
            LogLevel::Debug => String::from_str(":: shmemo :: DEBUG: "),
            LogLevel::Trace => String::from_str(":: shmemo :: TRACE: "),
        };
        line.append(message);
        line
    }
}

/// `-q` silences every message, errors included, however many `-v` are given.
pub proof fn lemma_quiet_silences_everything(verbose: u8)
    ensures
        verbosity_of(true, verbose) == Verbosity::Off,
{
}

/// Without `-q` the tool always shows at least its errors: no `-v` shows
/// errors only, and three or more show everything.
pub proof fn lemma_errors_shown_unless_quiet(verbose: u8)
    ensures
        verbosity_of(false, verbose) != Verbosity::Off,
        verbose == 0 ==> verbosity_of(false, verbose) == Verbosity::Error,
        verbose >= 3 ==> verbosity_of(false, verbose) == Verbosity::Trace,
{
}

} // verus!
