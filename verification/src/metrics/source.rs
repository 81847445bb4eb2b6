//! What one attempt to read a metric source gave.

use crate::error::AppError;
use crate::number::{
    fault_message, fault_text, number_fault, parse_u64, read_number, NumberFault,
};
use crate::text::{chars_of, trim, trimmed};
use vstd::prelude::*;
use vstd::string::StringExecFns;

verus! {

/// The outcome of reading one file or command of the platform.
#[derive(Debug, Clone)]
pub enum SourceRead {
    /// The source is not there, or refused to be read: nothing is known
    /// of it this tick, and that is no error.
    Absent,
    /// The source is there, and reading it failed with this message.
    Failed(String),
    /// The text that was read.
    Content(String),
}

/// What running the command of one privileged read gave.
#[derive(Debug, Clone)]
pub enum CommandRun {
    /// The command could not be started; the message says why.
    NotStarted(String),
    /// The command ran and ended in failure.
    Refused,
    /// The command ended well, and what it wrote is no text; the message
    /// says why.
    Garbled(String),
    /// The command ended well and wrote this text.
    Output(String),
}

/// What a privileged read gave, as a read of a source: a command that
/// ended in failure counts as a source that is not there, and one that
/// could not be started, or wrote no text, as a read that failed.
pub open spec fn command_read(run: CommandRun) -> SourceRead {
    match run {
        CommandRun::NotStarted(m) => SourceRead::Failed(m),
        CommandRun::Refused => SourceRead::Absent,
        CommandRun::Garbled(m) => SourceRead::Failed(m),
        CommandRun::Output(t) => SourceRead::Content(t),
    }
}

impl SourceRead {
    /// The text that was read, if any.
    pub open spec fn text(&self) -> Option<Seq<char>> {
        match self {
            SourceRead::Content(t) => Some(t@),
            _ => None,
        }
    }

    /// What a privileged read gave, as a read of a source.
    pub fn from_command(run: CommandRun) -> (r: SourceRead)
        ensures
            r == command_read(run),
    {
        match run {
            CommandRun::NotStarted(m) => SourceRead::Failed(m),
            CommandRun::Refused => SourceRead::Absent,
            CommandRun::Garbled(m) => SourceRead::Failed(m),
            CommandRun::Output(t) => SourceRead::Content(t),
        }
    }

    /// The message of the failure, if reading failed.
    pub open spec fn failure(&self) -> Option<Seq<char>> {
        match self {
            SourceRead::Failed(m) => Some(m@),
            _ => None,
        }
    }
}

/// The message for a source at `path` that could not be read.
pub open spec fn read_failure(path: Seq<char>, detail: Seq<char>) -> Seq<char> {
    "Failed to read "@ + path + ": "@ + detail
}

/// The message for a source at `path` whose frequency is no number.
pub open spec fn parse_failure(path: Seq<char>, fault: NumberFault) -> Seq<char> {
    "Failed to parse frequency from "@ + path + ": "@ + fault_message(fault)
}

/// The message for a privileged read of `path` that could not be run.
pub open spec fn command_failure(path: Seq<char>, detail: Seq<char>) -> Seq<char> {
    "Failed to execute sudo cat "@ + path + ": "@ + detail
}

/// Builds the message for a privileged read of `path` that could not be
/// run.
pub fn command_failure_text(path: &str, detail: &str) -> (r: String)
    ensures
        r@ == command_failure(path@, detail@),
{
    let mut out = String::from_str("Failed to execute sudo cat ");
    out.append(path);
    out.append(": ");
    out.append(detail);
    out
}

/// Builds the message for a source at `path` that could not be read.
pub fn read_failure_text(path: &str, detail: &str) -> (r: String)
    ensures
        r@ == read_failure(path@, detail@),
{
    let mut out = String::from_str("Failed to read ");
    out.append(path);
    out.append(": ");
    out.append(detail);
    out
}

/// Builds the message for a source at `path` whose frequency is no number.
pub fn parse_failure_text(path: &str, fault: NumberFault) -> (r: String)
    ensures
        r@ == parse_failure(path@, fault),
{
    let mut out = String::from_str("Failed to parse frequency from ");
    out.append(path);
    out.append(": ");
    out.append(fault_text(fault));
    out
}

/// The frequency that one read of a frequency file gives: the number that
/// the text holds between white space. It gives one just where it ends in
/// no error and the file was read.
pub open spec fn frequency_sample(read: SourceRead) -> Option<u64> {
    match read {
        SourceRead::Content(t) => parse_u64(trim(t@)),
        _ => None,
    }
}

/// The message of the error that one read of the frequency file at `path`
/// ends in, if it ends in one. A file that is not there is no error.
pub open spec fn frequency_error(path: Seq<char>, read: SourceRead) -> Option<Seq<char>> {
    match read {
        SourceRead::Absent => None,
        SourceRead::Failed(m) => Some(read_failure(path, m@)),
        SourceRead::Content(t) => match number_fault(trim(t@)) {
            Some(fault) => Some(parse_failure(path, fault)),
            None => None,
        },
    }
}

/// Reads the frequency that the file at `path` gave.
pub fn read_frequency(path: &str, read: &SourceRead) -> (r: Result<Option<u64>, AppError>)
    ensures
        match r {
            Ok(v) => frequency_error(path@, *read) is None && v == frequency_sample(*read),
            Err(e) => frequency_error(path@, *read) matches Some(m) && e.is_system(m)
                && frequency_sample(*read) is None,
        },
{
    match read {
        SourceRead::Absent => Ok(None),
        SourceRead::Failed(m) => Err(AppError::System(read_failure_text(path, m.as_str()))),
        SourceRead::Content(t) => {
            let text = chars_of(t.as_str());
            let core = trimmed(&text);
            match read_number(&core) {
                Ok(v) => Ok(Some(v)),
                Err(fault) => Err(AppError::System(parse_failure_text(path, fault))),
            }
        },
    }
}

} // verus!
