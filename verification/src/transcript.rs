//! The transcripts that the dialogs keep of a command's output.
use vstd::prelude::*;
use crate::text::{cat2, cat3, chars_of, i32_text, signed_decimal, string_append, string_of, trim, trim_vec};

verus! {

/// The first lines of a transcript: the command and a rule.
pub open spec fn transcript_header(command: Seq<char>) -> Seq<char> {
    "Command: "@ + command + "\n--- Output ---\n"@
}

pub fn transcript_header_text(command: &str) -> (r: String)
    ensures
        r@ == transcript_header(command@),
{
    cat3("Command: ", command, "\n--- Output ---\n")
}

/// The transcript after a line of output: lines holding only white space are
/// left out, the others are added with a line feed.
pub open spec fn add_nonblank(t: Seq<char>, line: Seq<char>) -> Seq<char> {
    if trim(line).len() == 0 {
        t
    } else {
        t + line + seq!['\n']
    }
}

/// Adds a line of output to a transcript, unless it holds only white space.
pub fn push_nonblank_line(t: &mut String, line: &str)
    ensures
        final(t)@ == add_nonblank(old(t)@, line@),
{
    let lv = chars_of(line);
    let tl = trim_vec(&lv);
    if tl.len() > 0 {
        let mut v = chars_of(t.as_str());
        let mut i: usize = 0;
        let ghost start = v@;
        while i < lv.len()
            invariant
                i <= lv.len(),
                v@ == start + lv@.subrange(0, i as int),
            decreases lv.len() - i,
        {
            v.push(lv[i]);
            i += 1;
            assert(lv@.subrange(0, i as int) == lv@.subrange(0, i - 1).push(lv@[i - 1]));
        }
        assert(lv@.subrange(0, lv.len() as int) == lv@);
        v.push('\n');
        *t = string_of(&v);
    }
}

/// Adds a line of output and a line feed to a transcript.
pub fn push_line(t: &mut String, line: &str)
    ensures
        final(t)@ == old(t)@ + line@ + seq!['\n'],
{
    string_append(t, line);
    let mut v = chars_of(t.as_str());
    v.push('\n');
    *t = string_of(&v);
}

/// The exit code that a message shows: the process's code, or -1 where it
/// was ended by a signal.
pub open spec fn shown_code(code: Option<i32>) -> int {
    match code {
        Some(c) => c as int,
        None => -1,
    }
}

/// What `{}` prints for `code.unwrap_or(-1)`.
pub fn exit_code_text(code: Option<i32>) -> (r: String)
    ensures
        r@ == signed_decimal(shown_code(code)),
{
    match code {
        Some(c) => i32_text(c),
        None => i32_text(-1),
    }
}

/// One of the two output streams of a command.
#[derive(Clone, Copy, Debug, PartialEq, Eq, Structural)]
pub enum OutputStream {
    Stdout,
    Stderr,
}

/// The message for a failed read of a command's output.
pub open spec fn read_error(s: OutputStream, error: Seq<char>) -> Seq<char> {
    match s {
        OutputStream::Stdout => "Error reading stdout: "@ + error,
        OutputStream::Stderr => "Error reading stderr: "@ + error,
    }
}

pub fn read_error_text(s: OutputStream, error: &str) -> (r: String)
    ensures
        r@ == read_error(s, error@),
{
    match s {
        OutputStream::Stdout => cat2("Error reading stdout: ", error),
        OutputStream::Stderr => cat2("Error reading stderr: ", error),
    }
}

/// What happens to a command that a dialog runs, as its runner reports it.
pub enum RunEvent {
    /// A line of output, from either stream, without its line feed.
    Line(String),
    /// Reading a stream failed with this error.
    ReadFailed(OutputStream, String),
    /// The command ended: whether it succeeded, and its exit code if it had one.
    Exited(bool, Option<i32>),
    /// The command could not be started.
    SpawnFailed(String),
    /// Waiting for the command failed.
    WaitFailed(String),
}

/// What a dialog asks its runner to do with a command.
pub enum RunAction {
    /// Keep reading the running command's output.
    Continue,
    /// Start this program with these arguments and report on it.
    Run(String, Vec<String>),
    /// The work is over, with this outcome.
    Finish(Result<String, String>),
}

/// The error of a command that could not be started.
pub fn spawn_failure(name: &str, error: &str) -> (r: String)
    ensures
        r@ == "Failed to execute "@ + name@ + ": "@ + error@,
{
    crate::text::cat4("Failed to execute ", name, ": ", error)
}

/// The error when waiting for a command failed.
pub fn wait_failure(name: &str, error: &str) -> (r: String)
    ensures
        r@ == "Failed to wait for "@ + name@ + ": "@ + error@,
{
    crate::text::cat4("Failed to wait for ", name, ": ", error)
}

/// Whether an exit code says that `pkexec` was not authorised or not found.
pub open spec fn auth_refused(code: Option<i32>) -> bool {
    code == Some(126i32) || code == Some(127i32)
}

pub fn auth_refused_code(code: Option<i32>) -> (r: bool)
    ensures
        r == auth_refused(code),
{
    match code {
        Some(c) => c == 126 || c == 127,
        None => false,
    }
}

pub const AUTH_ERROR: &'static str = "Authentication cancelled or polkit not available. Please try again.";

} // verus!
