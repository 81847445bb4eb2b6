//! The error type shared by every collector.

use vstd::prelude::*;
use vstd::std_specs::convert::FromSpecImpl;
use vstd::string::StringExecFns;

verus! {

/// `std::io::Error`: an operating-system error. It is carried through
/// and never looked into.
#[verifier::external_type_specification]
#[verifier::external_body]
pub struct ExIoError(std::io::Error);

/// What can go wrong while metrics are set up or sampled.
#[derive(Debug)]
pub enum AppError {
    /// An operating-system error.
    Io(std::io::Error),
    /// The configuration could not be used.
    Config(String),
    /// A metric source could not be read or understood.
    System(String),
}

impl From<std::io::Error> for AppError {
    /// An operating-system error as an error of this library.
    fn from(err: std::io::Error) -> (r: Self) {
        AppError::Io(err)
    }
}

impl FromSpecImpl<std::io::Error> for AppError {
    open spec fn obeys_from_spec() -> bool {
        true
    }

    open spec fn from_spec(err: std::io::Error) -> Self {
        AppError::Io(err)
    }
}

/// The text that `Display` writes for an operating-system error
/// (`std::io::Error`). Nothing is claimed of it.
#[verifier::external_body]
fn io_error_text(err: &std::io::Error) -> (r: String) {
    format!("{}", err)
}

impl AppError {
    /// Whether this is a metric-source error with the message `text`.
    pub open spec fn is_system(&self, text: Seq<char>) -> bool {
        match self {
            AppError::System(m) => m@ == text,
            _ => false,
        }
    }

    /// A metric-source error with the message `text`.
    pub fn system(text: &str) -> (r: Self)
        ensures
            r.is_system(text@),
    {
        AppError::System(String::from_str(text))
    }

    /// The message for a reader: the kind of error, a colon, and the
    /// detail.
    pub fn message(&self) -> (r: String)
        ensures
            match self {
                AppError::Io(_) => r@.len() >= "I/O error: "@.len() && r@.subrange(
                    0,
                    "I/O error: "@.len() as int,
                ) == "I/O error: "@,
                AppError::Config(m) => r@ == "Configuration error: "@ + m@,
                AppError::System(m) => r@ == "System error: "@ + m@,
            },
    {
        match self {
            AppError::Io(e) => {
                let mut out = String::from_str("I/O error: ");
                let detail = io_error_text(e);
                out.append(detail.as_str());
                assert(out@.subrange(0, "I/O error: "@.len() as int) =~= "I/O error: "@);
                out
            },
            AppError::Config(m) => {
                let mut out = String::from_str("Configuration error: ");
                out.append(m.as_str());
                out
            },
            AppError::System(m) => {
                let mut out = String::from_str("System error: ");
                out.append(m.as_str());
                out
            },
        }
    }
}

} // verus!
