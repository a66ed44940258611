//! The start-up as a state machine.
//!
//! The driver does the outside work and the machine decides. It starts with
//! [`Orchestrator::begin`], which hands out the first [`Action`]. The driver
//! performs each action, reports what came of it as an [`Event`] to
//! [`Orchestrator::step`], and gets the next action back, until the action is
//! [`Action::Exit`].

use vstd::prelude::*;
use core::marker::PhantomData;
use std::sync::Arc;
use crate::error::ErrorKind;
use crate::error::Outcome;
use crate::error::StartupError;

verus! {

/// The prefix under which every topic of this deployment lives on the bus.
pub open spec fn namespace_prefix() -> &'static str {
    "anna"
}

/// The namespace prefix of the deployment. It depends on nothing: every call
/// gives the same string.
pub fn default_namespace_prefix() -> (prefix: &'static str)
    ensures
        prefix == namespace_prefix(),
{
    "anna"
}

/// What the machine waits for while the configuration is being loaded.
#[derive(Clone, Copy, Debug, PartialEq, Eq, Structural)]
pub enum Pending {
    /// The failure of the logger set-up is being reported.
    WarningReport,
    /// The configuration file is being read.
    ConfigText,
    /// The configuration text is being deserialized.
    ConfigValue,
}

/// Where the start-up stands.
///
/// A state names what has been reached; the action that `step` returned on
/// entering it is what the driver is doing meanwhile. An open transport is
/// handed to the monitoring subsystem in the same step that learns of it, so
/// the machine never rests between the two.
#[derive(Debug, PartialEq, Eq)]
pub enum State<C> {
    /// Nothing has been done; the logger is being set up.
    Start,
    /// The logger set-up has been tried, with or without success; the
    /// configuration is being loaded.
    LoggingAttempted(Pending),
    /// The configuration is held here; the transport is being opened.
    ConfigLoaded(C),
    /// Configuration, session and prefix have been handed over; the
    /// monitoring subsystem runs.
    MonitoringRunning,
    /// The monitoring subsystem returned without an error.
    Success,
    /// A stage of the given kind failed.
    Failed(ErrorKind),
}

/// What came of the action that the driver performed last.
#[derive(Debug, PartialEq, Eq)]
pub enum Event<C, S, E> {
    /// The logger is installed.
    LoggerInstalled,
    /// The logger could not be installed, for this cause.
    LoggerFailed(E),
    /// The failure of the logger set-up has been printed.
    WarningReported,
    /// The configuration file holds this text.
    ConfigRead(String),
    /// The configuration file could not be read, for this cause.
    ConfigReadFailed(E),
    /// The text holds this configuration.
    ConfigParsed(C),
    /// The text holds no configuration, for this cause.
    ConfigParseFailed(E),
    /// This session is open.
    TransportOpened(S),
    /// No session could be opened, for this cause.
    TransportFailed(E),
    /// The monitoring subsystem returned without an error.
    MonitoringFinished,
    /// The monitoring subsystem returned this error.
    MonitoringFailed(E),
}

/// What the driver is to do next.
#[derive(Debug, PartialEq, Eq)]
pub enum Action<C, S, E> {
    /// Install the logger. Answered by `LoggerInstalled` or `LoggerFailed`.
    SetUpLogger,
    /// Print this error to standard error and go on. Answered by
    /// `WarningReported`.
    ReportWarning(StartupError<E>),
    /// Read the configuration file as text. Answered by `ConfigRead` or
    /// `ConfigReadFailed`.
    ReadConfig,
    /// Deserialize this text into a configuration. Answered by
    /// `ConfigParsed` or `ConfigParseFailed`.
    ParseConfig(String),
    /// Open a session on the bus with default settings. Answered by
    /// `TransportOpened` or `TransportFailed`.
    OpenTransport,
    /// Run the monitoring subsystem on these until it returns: the
    /// configuration, the one handle to the session, which the subsystem may
    /// share on, and the namespace prefix. Answered by `MonitoringFinished`
    /// or `MonitoringFailed`.
    Launch { config: C, session: Arc<S>, prefix: &'static str },
    /// Leave with this outcome. Nothing answers it.
    Exit(Outcome<E>),
}

/// The outcome of a stage that failed with `cause`, as the action that ends
/// the start-up.
pub open spec fn abort<C, S, E>(kind: ErrorKind, cause: E) -> Action<C, S, E> {
    Action::Exit(Outcome::Failed(StartupError { kind, cause }))
}

/// The transition of the machine: the state that follows and the action that
/// is handed out, or `None` where the event answers no action that can be
/// under way in `state`.
pub open spec fn next<C, S, E>(state: State<C>, event: Event<C, S, E>) -> Option<
    (State<C>, Action<C, S, E>),
> {
    match (state, event) {
        (State::Start, Event::LoggerInstalled) => Some(
            (State::LoggingAttempted(Pending::ConfigText), Action::ReadConfig),
        ),
        (State::Start, Event::LoggerFailed(cause)) => Some(
            (
                State::LoggingAttempted(Pending::WarningReport),
                Action::ReportWarning(StartupError { kind: ErrorKind::LoggingSetup, cause }),
            ),
        ),
        (State::LoggingAttempted(Pending::WarningReport), Event::WarningReported) => Some(
            (State::LoggingAttempted(Pending::ConfigText), Action::ReadConfig),
        ),
        (State::LoggingAttempted(Pending::ConfigText), Event::ConfigRead(text)) => Some(
            (State::LoggingAttempted(Pending::ConfigValue), Action::ParseConfig(text)),
        ),
        (State::LoggingAttempted(Pending::ConfigText), Event::ConfigReadFailed(cause)) => Some(
            (State::Failed(ErrorKind::ConfigRead), abort(ErrorKind::ConfigRead, cause)),
        ),
        (State::LoggingAttempted(Pending::ConfigValue), Event::ConfigParsed(config)) => Some(
            (State::ConfigLoaded(config), Action::OpenTransport),
        ),
        (State::LoggingAttempted(Pending::ConfigValue), Event::ConfigParseFailed(cause)) => Some(
            (State::Failed(ErrorKind::ConfigParse), abort(ErrorKind::ConfigParse, cause)),
        ),
        (State::ConfigLoaded(config), Event::TransportOpened(session)) => Some(
            (
                State::MonitoringRunning,
                Action::Launch { config, session: Arc::new(session), prefix: namespace_prefix() },
            ),
        ),
        (State::ConfigLoaded(_), Event::TransportFailed(cause)) => Some(
            (State::Failed(ErrorKind::TransportOpen), abort(ErrorKind::TransportOpen, cause)),
        ),
        (State::MonitoringRunning, Event::MonitoringFinished) => Some(
            (State::Success, Action::Exit(Outcome::Success)),
        ),
        (State::MonitoringRunning, Event::MonitoringFailed(cause)) => Some(
            (
                State::Failed(ErrorKind::MonitoringSubsystem),
                abort(ErrorKind::MonitoringSubsystem, cause),
            ),
        ),
        _ => None,
    }
}

/// The machine that sequences the start-up.
#[derive(Debug, PartialEq, Eq)]
pub struct Orchestrator<C, S, E> {
    state: State<C>,
    answers: PhantomData<(S, E)>,
}

impl<C, S, E> View for Orchestrator<C, S, E> {
    type V = State<C>;

    /// A machine is its state.
    closed spec fn view(&self) -> State<C> {
        self.state
    }
}

impl<C, S, E> Orchestrator<C, S, E> {
    /// A machine at the start, and the first action: to set up the logger.
    pub fn begin() -> (r: (Self, Action<C, S, E>))
        ensures
            r.0@ == State::<C>::Start,
            r.1 == Action::<C, S, E>::SetUpLogger,
    {
        (Orchestrator { state: State::Start, answers: PhantomData }, Action::SetUpLogger)
    }

    /// Takes the answer to the action that is under way and returns the next
    /// action. An event that answers no such action is handed back and
    /// leaves the machine as it was.
    pub fn step(&mut self, event: Event<C, S, E>) -> (r: Result<
        Action<C, S, E>,
        Event<C, S, E>,
    >)
        ensures
            match next(old(self)@, event) {
                Some((state, action)) => final(self)@ == state && r == Ok::<
                    Action<C, S, E>,
                    Event<C, S, E>,
                >(action),
                None => final(self)@ == old(self)@ && r == Err::<
                    Action<C, S, E>,
                    Event<C, S, E>,
                >(event),
            },
    {
        let mut state = State::Success;
        std::mem::swap(&mut self.state, &mut state);
        match (state, event) {
            (State::Start, Event::LoggerInstalled) => {
                self.state = State::LoggingAttempted(Pending::ConfigText);
                Ok(Action::ReadConfig)
            },
            (State::Start, Event::LoggerFailed(cause)) => {
                self.state = State::LoggingAttempted(Pending::WarningReport);
                Ok(Action::ReportWarning(StartupError { kind: ErrorKind::LoggingSetup, cause }))
            },
            (State::LoggingAttempted(Pending::WarningReport), Event::WarningReported) => {
                self.state = State::LoggingAttempted(Pending::ConfigText);
                Ok(Action::ReadConfig)
            },
            (State::LoggingAttempted(Pending::ConfigText), Event::ConfigRead(text)) => {
                self.state = State::LoggingAttempted(Pending::ConfigValue);
                Ok(Action::ParseConfig(text))
            },
            (State::LoggingAttempted(Pending::ConfigText), Event::ConfigReadFailed(cause)) => {
                self.state = State::Failed(ErrorKind::ConfigRead);
                Ok(fail(ErrorKind::ConfigRead, cause))
            },
            (State::LoggingAttempted(Pending::ConfigValue), Event::ConfigParsed(config)) => {
                self.state = State::ConfigLoaded(config);
                Ok(Action::OpenTransport)
            },
            (State::LoggingAttempted(Pending::ConfigValue), Event::ConfigParseFailed(cause)) => {
                self.state = State::Failed(ErrorKind::ConfigParse);
                Ok(fail(ErrorKind::ConfigParse, cause))
            },
            (State::ConfigLoaded(config), Event::TransportOpened(session)) => {
                self.state = State::MonitoringRunning;
                Ok(
                    Action::Launch {
                        config,
                        session: Arc::new(session),
                        prefix: default_namespace_prefix(),
                    },
                )
            },
            (State::ConfigLoaded(_), Event::TransportFailed(cause)) => {
                self.state = State::Failed(ErrorKind::TransportOpen);
                Ok(fail(ErrorKind::TransportOpen, cause))
            },
            (State::MonitoringRunning, Event::MonitoringFinished) => {
                self.state = State::Success;
                Ok(Action::Exit(Outcome::Success))
            },
            (State::MonitoringRunning, Event::MonitoringFailed(cause)) => {
                self.state = State::Failed(ErrorKind::MonitoringSubsystem);
                Ok(fail(ErrorKind::MonitoringSubsystem, cause))
            },
            (state, event) => {
                self.state = state;
                Err(event)
            },
        }
    }

    /// The state of the machine.
    pub fn state(&self) -> (state: &State<C>)
        ensures
            *state == self@,
    {
        &self.state
    }

    /// Whether the start-up is over: no event is taken any more.
    pub fn is_finished(&self) -> (done: bool)
        ensures
            done == (self@ is Success || self@ is Failed),
    {
        match self.state {
            State::Success => true,
            State::Failed(_) => true,
            _ => false,
        }
    }
}

/// Builds the action that ends the start-up after a failure of `kind`.
fn fail<C, S, E>(kind: ErrorKind, cause: E) -> (action: Action<C, S, E>)
    ensures
        action == abort::<C, S, E>(kind, cause),
{
    Action::Exit(Outcome::Failed(StartupError { kind, cause }))
}

} // verus!
