//! What running the toolchain binary gave, and the text that is taken from
//! it.

use crate::error::{text_view, Error, ProcessFailure};
use vstd::prelude::*;
use vstd::utf8::{decode_utf8, valid_utf8};

verus! {

/// How one run of the toolchain binary ended.
#[derive(Debug)]
pub enum ProcessOutcome {
    /// The binary could not be started; with the operating system's error
    /// number, where it gave one.
    NotStarted { os_error: Option<i32> },
    /// The process ran to its end; with its exit code, unless a signal ended
    /// it, and with all that it wrote to standard output.
    Exited { code: Option<i32>, stdout: Vec<u8> },
}

/// The text that a run gave: what it printed, where the process started,
/// ended with status zero and printed UTF-8. The first of these that fails
/// is the failure.
pub open spec fn captured_text(outcome: ProcessOutcome) -> Result<Seq<char>, Error> {
    match outcome {
        ProcessOutcome::NotStarted { os_error } => Err(
            Error::ProcessError(ProcessFailure::Spawn(os_error)),
        ),
        ProcessOutcome::Exited { code, stdout } => if code != Some(0i32) {
            Err(Error::ProcessError(ProcessFailure::ExitStatus(code)))
        } else if !valid_utf8(stdout@) {
            Err(Error::ProcessError(ProcessFailure::InvalidUtf8))
        } else {
            Ok(decode_utf8(stdout@))
        },
    }
}

/// Calls `String::from_utf8` of std and drops the detail of its error.
/// Trusted, not proved: the call succeeds on exactly the byte sequences that
/// are UTF-8, and the string it gives then holds the characters that the
/// bytes encode.
#[verifier::external_body]
fn text_of(bytes: Vec<u8>) -> (text: Option<String>)
    ensures
        match text {
            Some(s) => valid_utf8(bytes@) && s@ == decode_utf8(bytes@),
            None => !valid_utf8(bytes@),
        },
{
    String::from_utf8(bytes).ok()
}

/// The text that a run printed, or why it gave none.
pub fn capture(outcome: ProcessOutcome) -> (text: Result<String, Error>)
    ensures
        text_view(text) == captured_text(outcome),
{
    match outcome {
        ProcessOutcome::NotStarted { os_error } => Err(
            Error::ProcessError(ProcessFailure::Spawn(os_error)),
        ),
        ProcessOutcome::Exited { code, stdout } => {
            let succeeded = match code {
                Some(status) => status == 0,
                None => false,
            };
            if !succeeded {
                Err(Error::ProcessError(ProcessFailure::ExitStatus(code)))
            } else {
                match text_of(stdout) {
                    Some(text) => Ok(text),
                    None => Err(Error::ProcessError(ProcessFailure::InvalidUtf8)),
                }
            }
        },
    }
}

} // verus!
