//! What a command execution reports back, and how a command is shown.

use vstd::prelude::*;

use crate::error::MemoError;
use crate::text::{join_strings, join_words};

verus! {

/// Result of command execution.
pub struct ExecutionResult {
    /// The exit code returned by the command (`-1` when it had none).
    pub exit_code: i32,
    /// The output file whose writing failed for stdout, if any.
    pub stdout_error: Option<String>,
    /// The output file whose writing failed for stderr, if any.
    pub stderr_error: Option<String>,
}

/// The display form of a command: its arguments joined with single spaces.
pub open spec fn command_text(args: Seq<Seq<char>>) -> Seq<char> {
    join_words(args, seq![' '])
}

/// Build a display string from command arguments, joined with spaces.
pub fn build_command_string(args: &[String]) -> (res: String)
    ensures
        res@ == command_text(args.deep_view()),
{
    let sep = " ";
    proof {
        reveal_strlit(" ");
    }
    assert(sep@ =~= seq![' ']);
    join_strings(args, sep)
}

/// Checks that a command is given: `InvalidCommand("No command provided")`
/// for an empty argument list.
pub fn check_command(args: &[String]) -> (res: Result<(), MemoError>)
    ensures
        res is Ok <==> args@.len() > 0,
        res matches Err(e) ==> e matches MemoError::InvalidCommand(m) && m@ == "No command provided"@,
{
    if args.len() == 0 {
        Err(MemoError::InvalidCommand(String::from_str("No command provided")))
    } else {
        Ok(())
    }
}

/// What a writer that copies output both to a file and to the console
/// remembers about the file side: which file it writes, and whether a write
/// to it has failed. File failures are kept, not returned, so the console
/// output goes on.
pub struct TeeRecord {
    file_path: String,
    failed: bool,
}

impl TeeRecord {
    /// The file written to.
    pub closed spec fn path(&self) -> Seq<char> {
        self.file_path@
    }

    /// Whether a write to the file has failed.
    pub closed spec fn spec_failed(&self) -> bool {
        self.failed
    }

    /// A record for writes to `file_path`, with no failure yet.
    pub fn new(file_path: String) -> (res: TeeRecord)
        ensures
            res.path() == file_path@,
            !res.spec_failed(),
    {
        TeeRecord { file_path, failed: false }
    }

    /// Notes the outcome of one write to the file; a failure is remembered
    /// for good.
    pub fn note_file_write(&mut self, ok: bool)
        ensures
            final(self).path() == old(self).path(),
            final(self).spec_failed() == (old(self).spec_failed() || !ok),
    {
        if !ok {
            self.failed = true;
        }
    }

    /// Whether a write to the file has failed.
    pub fn has_error(&self) -> (res: bool)
        ensures
            res == self.spec_failed(),
    {
        self.failed
    }

    /// The path of the file when a write to it failed, else `None`.
    pub fn take_error_path(&self) -> (res: Option<String>)
        ensures
            res is Some <==> self.spec_failed(),
            res matches Some(p) ==> p@ == self.path(),
    {
        if self.has_error() {
            Some(self.file_path.clone())
        } else {
            None
        }
    }
}

} // verus!
