//! The failures of a start-up and what becomes of each.

use vstd::prelude::*;

verus! {

/// The stage at which a start-up step went wrong.
#[derive(Clone, Copy, Debug, PartialEq, Eq, Structural)]
pub enum ErrorKind {
    /// The logger could not be installed.
    LoggingSetup,
    /// The configuration file could not be read.
    ConfigRead,
    /// The configuration text could not be deserialized.
    ConfigParse,
    /// The transport session could not be opened.
    TransportOpen,
    /// The monitoring subsystem returned an error.
    MonitoringSubsystem,
}

impl ErrorKind {
    /// Whether an error of this kind ends the start-up. Only a failed logger
    /// set-up does not.
    pub open spec fn is_fatal(self) -> bool {
        !(self is LoggingSetup)
    }

    /// The line of context that is put in front of the cause, where the
    /// stage adds one.
    pub open spec fn context_text(self) -> Option<Seq<char>> {
        match self {
            ErrorKind::LoggingSetup => Some("failed to set up logger"@),
            ErrorKind::ConfigRead => Some("failed to read config file"@),
            ErrorKind::ConfigParse => Some("failed to parse config file"@),
            ErrorKind::TransportOpen => None,
            ErrorKind::MonitoringSubsystem => None,
        }
    }

    /// Tells whether an error of this kind ends the start-up.
    pub fn fatal(&self) -> (b: bool)
        ensures
            b == self.is_fatal(),
    {
        match self {
            ErrorKind::LoggingSetup => false,
            _ => true,
        }
    }

    /// The context line of this kind, or `None` where the cause is passed on
    /// as it is.
    pub fn context(&self) -> (c: Option<&'static str>)
        ensures
            c is Some <==> self.context_text() is Some,
            c matches Some(s) ==> s@ == self.context_text()->0,
    {
        match self {
            ErrorKind::LoggingSetup => Some("failed to set up logger"),
            ErrorKind::ConfigRead => Some("failed to read config file"),
            ErrorKind::ConfigParse => Some("failed to parse config file"),
            ErrorKind::TransportOpen => None,
            ErrorKind::MonitoringSubsystem => None,
        }
    }
}

/// An error of a start-up step: the stage it belongs to and what caused it.
///
/// The cause is whatever the driver has for it; it is carried through
/// untouched.
#[derive(Debug, PartialEq, Eq)]
pub struct StartupError<E> {
    pub kind: ErrorKind,
    pub cause: E,
}

/// How a start-up ended.
#[derive(Debug, PartialEq, Eq)]
pub enum Outcome<E> {
    /// The monitoring subsystem ran and returned without an error.
    Success,
    /// A stage failed and nothing after it was attempted.
    Failed(StartupError<E>),
}

impl<E> Outcome<E> {
    /// The exit status of the process: zero after a success, one after a
    /// failure.
    pub open spec fn status(self) -> int {
        match self {
            Outcome::Success => 0,
            Outcome::Failed(_) => 1,
        }
    }

    /// The status with which the process is to exit.
    pub fn exit_code(&self) -> (code: u8)
        ensures
            code == self.status(),
            code == 0 <==> *self is Success,
    {
        match self {
            Outcome::Success => 0,
            Outcome::Failed(_) => 1,
        }
    }
}

} // verus!
