//! Capturing the output of an external command: what a finished or failed
//! run is reported as.

use vstd::prelude::*;
use vstd::utf8::{decode_utf8, valid_utf8};
use crate::text::{trim, trim_string};

verus! {

/// Why running a command did not give its output.
#[derive(Debug, Clone, Copy, PartialEq, Eq)]
pub enum CommandOutputErrorKind {
    /// The program was not found.
    NotFound,
    /// The process could not be spawned for another reason.
    SpawnFailed,
    /// The process ran and exited unsuccessfully.
    Unsuccessful,
}

/// Failure of a command run.
#[derive(Debug, Clone, PartialEq, Eq)]
pub struct CommandOutputError {
    pub kind: CommandOutputErrorKind,
    /// Exit code of an unsuccessful process (none when a signal ended it or
    /// when it never ran).
    pub status: Option<i32>,
    /// The spawn error's message, or the process's trimmed standard error.
    pub stderr: String,
}

/// Result of a command run.
pub type CommandOutputResult<T> = Result<T, CommandOutputError>;

/// What a process that ran left behind.
#[derive(Debug, Clone, PartialEq, Eq)]
pub struct CapturedOutput {
    /// Exit code (none when a signal ended the process).
    pub code: Option<i32>,
    pub stdout: Vec<u8>,
    pub stderr: Vec<u8>,
}

/// Why a process could not be spawned.
#[derive(Debug, Clone, PartialEq, Eq)]
pub struct SpawnFailure {
    /// Whether the error was "not found".
    pub not_found: bool,
    /// The error's message.
    pub message: String,
}

/// What `String::from_utf8_lossy` gives for a byte string: its UTF-8
/// decoding, with each invalid sequence replaced by U+FFFD.
pub uninterp spec fn utf8_lossy(bytes: Seq<u8>) -> Seq<char>;

/// `String::from_utf8_lossy` from std, made an owned string. The result is
/// named `utf8_lossy`; for valid UTF-8 it is the decoded text.
#[verifier::external_body]
fn decode_lossy(bytes: &[u8]) -> (s: String)
    ensures
        s@ == utf8_lossy(bytes@),
        valid_utf8(bytes@) ==> s@ == decode_utf8(bytes@),
{
    String::from_utf8_lossy(bytes).into_owned()
}

/// The report for a command run: the standard output, decoded lossily, when
/// the process exited with code 0; otherwise the error, whose message is
/// the spawn error's or the trimmed, lossily decoded standard error.
pub open spec fn command_output_spec(run: Result<CapturedOutput, SpawnFailure>) -> Result<
    Seq<char>,
    (CommandOutputErrorKind, Option<i32>, Seq<char>),
> {
    match run {
        Ok(out) => if out.code == Some(0i32) {
            Ok(utf8_lossy(out.stdout@))
        } else {
            Err(
                (
                    CommandOutputErrorKind::Unsuccessful,
                    out.code,
                    trim(utf8_lossy(out.stderr@)),
                ),
            )
        },
        Err(f) => Err(
            (
                if f.not_found {
                    CommandOutputErrorKind::NotFound
                } else {
                    CommandOutputErrorKind::SpawnFailed
                },
                None,
                f.message@,
            ),
        ),
    }
}

/// The view of a command-run result.
pub open spec fn result_view(r: CommandOutputResult<String>) -> Result<
    Seq<char>,
    (CommandOutputErrorKind, Option<i32>, Seq<char>),
> {
    match r {
        Ok(s) => Ok(s@),
        Err(e) => Err((e.kind, e.status, e.stderr@)),
    }
}

/// Turns what running a command gave into its report (see
/// `command_output_spec`). A process succeeded when its exit code is 0.
pub fn collect_command_output(run: Result<CapturedOutput, SpawnFailure>) -> (r:
    CommandOutputResult<String>)
    ensures
        result_view(r) == command_output_spec(run),
        run matches Ok(out) ==> (out.code == Some(0i32) && valid_utf8(out.stdout@) ==> result_view(
            r,
        ) == Ok::<Seq<char>, (CommandOutputErrorKind, Option<i32>, Seq<char>)>(
            decode_utf8(out.stdout@),
        )),
        run matches Ok(out) ==> (out.code != Some(0i32) && valid_utf8(out.stderr@) ==> result_view(
            r,
        ) == Err::<Seq<char>, (CommandOutputErrorKind, Option<i32>, Seq<char>)>(
            (CommandOutputErrorKind::Unsuccessful, out.code, trim(decode_utf8(out.stderr@))),
        )),
{
    match run {
        Ok(out) => {
            if out.code == Some(0i32) {
                Ok(decode_lossy(out.stdout.as_slice()))
            } else {
                let text = decode_lossy(out.stderr.as_slice());
                Err(
                    CommandOutputError {
                        kind: CommandOutputErrorKind::Unsuccessful,
                        status: out.code,
                        stderr: trim_string(text.as_str()),
                    },
                )
            }
        },
        Err(f) => {
            let kind = if f.not_found {
                CommandOutputErrorKind::NotFound
            } else {
                CommandOutputErrorKind::SpawnFailed
            };
            Err(CommandOutputError { kind, status: None, stderr: f.message })
        },
    }
}

} // verus!
