//! The ways in which a resolution fails.

use crate::config::Tool;
use vstd::prelude::*;
use vstd::string::StringExecFns;

verus! {

/// Why running the toolchain binary gave no text.
#[derive(Clone, Copy, Debug, PartialEq, Eq, Structural)]
pub enum ProcessFailure {
    /// The binary could not be started; with the operating system's error
    /// number, where it gave one.
    Spawn(Option<i32>),
    /// The process did not end with status zero; with its exit code, unless
    /// a signal ended it.
    ExitStatus(Option<i32>),
    /// What the process printed is not UTF-8.
    InvalidUtf8,
}

/// Why no data layout was resolved. Every failure is final: nothing is
/// retried, and no other way of asking is tried in its place.
#[derive(Clone, Copy, Debug, PartialEq, Eq, Structural)]
pub enum Error {
    /// The binary to invoke could not be located.
    ToolNotFound(Tool),
    /// The binary was located, but running it gave no usable text.
    ProcessError(ProcessFailure),
    /// The text holds no `data-layout` field in the expected shape.
    FieldNotFound,
}

/// The model of a text, or of the failure in its place.
pub open spec fn text_view(text: Result<String, Error>) -> Result<Seq<char>, Error> {
    match text {
        Ok(s) => Ok(s@),
        Err(error) => Err(error),
    }
}

impl Error {
    /// What [`Error::message`] says. The text that was searched is never
    /// part of it: it may be long, and it differs between toolchains.
    pub open spec fn spec_message(self) -> Seq<char> {
        match self {
            Error::ToolNotFound(tool) => "could not find "@ + tool.spec_name(),
            Error::ProcessError(ProcessFailure::Spawn(_)) => "could not start the command"@,
            Error::ProcessError(ProcessFailure::ExitStatus(_)) => "the command failed"@,
            Error::ProcessError(ProcessFailure::InvalidUtf8) => "the command output is not UTF-8"@,
            Error::FieldNotFound => "could not fetch target data layout from command output"@,
        }
    }

    /// The failure in words.
    pub fn message(&self) -> (message: String)
        ensures
            message@ == self.spec_message(),
    {
        match self {
            Error::ToolNotFound(tool) => {
                let mut message = "could not find ".to_owned();
                message.append(tool.name());
                message
            },
            Error::ProcessError(ProcessFailure::Spawn(_)) => "could not start the command".to_owned(),
            Error::ProcessError(ProcessFailure::ExitStatus(_)) => "the command failed".to_owned(),
            Error::ProcessError(ProcessFailure::InvalidUtf8) => {
                "the command output is not UTF-8".to_owned()
            },
            Error::FieldNotFound => {
                "could not fetch target data layout from command output".to_owned()
            },
        }
    }
}

} // verus!
