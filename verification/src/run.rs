//! Whole runs of the start-up, and what holds of every one of them.
//!
//! A [`Script`] fixes what the outside would answer at each stage. Driving
//! the machine of [`crate::orchestrator`] against a script gives the
//! [`trace`] of actions that a driver performs. The laws below are stated
//! over that trace.

use vstd::prelude::*;
use std::sync::Arc;
use crate::error::ErrorKind;
use crate::error::Outcome;
use crate::error::StartupError;
use crate::orchestrator::namespace_prefix;
use crate::orchestrator::next;
use crate::orchestrator::Action;
use crate::orchestrator::Event;
use crate::orchestrator::Pending;
use crate::orchestrator::State;

verus! {

/// What the outside answers at each stage, if the start-up gets that far.
pub struct Script<C, S, E> {
    /// Whether the logger can be installed.
    pub logger: Result<(), E>,
    /// The text of the configuration file, or why it cannot be read.
    pub read: Result<String, E>,
    /// The configuration that the text holds, or why it holds none.
    pub parse: Result<C, E>,
    /// The session on the bus, or why none can be opened.
    pub open: Result<S, E>,
    /// How the monitoring subsystem returns.
    pub monitor: Result<(), E>,
}

/// The event with which a driver in the world of `script` answers `action`.
/// `Exit` is answered by nothing.
pub open spec fn reply<C, S, E>(script: Script<C, S, E>, action: Action<C, S, E>) -> Option<
    Event<C, S, E>,
> {
    match action {
        Action::SetUpLogger => Some(
            match script.logger {
                Ok(_) => Event::LoggerInstalled,
                Err(cause) => Event::LoggerFailed(cause),
            },
        ),
        Action::ReportWarning(_) => Some(Event::WarningReported),
        Action::ReadConfig => Some(
            match script.read {
                Ok(text) => Event::ConfigRead(text),
                Err(cause) => Event::ConfigReadFailed(cause),
            },
        ),
        Action::ParseConfig(_) => Some(
            match script.parse {
                Ok(config) => Event::ConfigParsed(config),
                Err(cause) => Event::ConfigParseFailed(cause),
            },
        ),
        Action::OpenTransport => Some(
            match script.open {
                Ok(session) => Event::TransportOpened(session),
                Err(cause) => Event::TransportFailed(cause),
            },
        ),
        Action::Launch { .. } => Some(
            match script.monitor {
                Ok(_) => Event::MonitoringFinished,
                Err(cause) => Event::MonitoringFailed(cause),
            },
        ),
        Action::Exit(_) => None,
    }
}

/// An upper bound on the steps that the machine can still take from `state`.
pub open spec fn steps_left<C>(state: State<C>) -> nat {
    match state {
        State::Start => 6,
        State::LoggingAttempted(Pending::WarningReport) => 5,
        State::LoggingAttempted(Pending::ConfigText) => 4,
        State::LoggingAttempted(Pending::ConfigValue) => 3,
        State::ConfigLoaded(_) => 2,
        State::MonitoringRunning => 1,
        State::Success => 0,
        State::Failed(_) => 0,
    }
}

/// The actions that a driver performs from the moment the machine has
/// entered `state` and handed out `action`, in the world of `script`.
pub open spec fn trace_from<C, S, E>(
    script: Script<C, S, E>,
    state: State<C>,
    action: Action<C, S, E>,
) -> Seq<Action<C, S, E>>
    decreases steps_left(state),
{
    match reply(script, action) {
        None => seq![action],
        Some(event) => match next(state, event) {
            None => seq![action],
            Some((then, following)) => seq![action] + trace_from(script, then, following),
        },
    }
}

/// The actions of a whole start-up in the world of `script`, in order.
pub open spec fn trace<C, S, E>(script: Script<C, S, E>) -> Seq<Action<C, S, E>> {
    trace_from(script, State::Start, Action::SetUpLogger)
}

/// Every step that the machine takes brings it nearer to its end: no stage
/// is entered twice and none is gone back to. Once it has ended, it takes no
/// event any more.
pub proof fn law_steps_run_out<C, S, E>(state: State<C>, event: Event<C, S, E>)
    ensures
        next(state, event) matches Some((then, _)) ==> steps_left(then) < steps_left(state),
        state is Success || state is Failed ==> next(state, event) is None,
{
}

/// Only the logger may fail without ending the start-up. Its failure is
/// handed out to be reported and the machine goes on to the configuration;
/// it is the one error that is reported so. The failure of any other stage
/// is fatal: the machine stops in `Failed` with the kind of that stage and
/// hands out the exit with the cause as it came. It hands out an exit when
/// it stops, and only then.
pub proof fn law_only_the_logger_fails_quietly<C, S, E>(state: State<C>, event: Event<C, S, E>)
    ensures
        next(state, event) matches Some((then, action)) ==> {
            &&& state is Start ==> then is LoggingAttempted
            &&& action is Exit <==> then is Success || then is Failed
            &&& action matches Action::ReportWarning(error) ==> state is Start && event
                == Event::<C, S, E>::LoggerFailed(error.cause) && error.kind
                == ErrorKind::LoggingSetup
            &&& action matches Action::Exit(Outcome::Failed(error)) ==> then == State::<C>::Failed(
                error.kind,
            ) && error.kind.is_fatal()
            &&& action matches Action::Exit(Outcome::Success) ==> then is Success
        },
{
}

/// How the start-up ends in the world of `script`: with the failure of the
/// first stage after the logger set-up that fails, or with a success where
/// none does.
pub open spec fn outcome<C, S, E>(script: Script<C, S, E>) -> Outcome<E> {
    match (script.read, script.parse, script.open, script.monitor) {
        (Err(cause), _, _, _) => Outcome::Failed(
            StartupError { kind: ErrorKind::ConfigRead, cause },
        ),
        (Ok(_), Err(cause), _, _) => Outcome::Failed(
            StartupError { kind: ErrorKind::ConfigParse, cause },
        ),
        (Ok(_), Ok(_), Err(cause), _) => Outcome::Failed(
            StartupError { kind: ErrorKind::TransportOpen, cause },
        ),
        (Ok(_), Ok(_), Ok(_), Err(cause)) => Outcome::Failed(
            StartupError { kind: ErrorKind::MonitoringSubsystem, cause },
        ),
        (Ok(_), Ok(_), Ok(_), Ok(_)) => Outcome::Success,
    }
}

/// The actions that set up the logger: the attempt and, where it fails, the
/// report of the failure.
pub open spec fn logging_stage<C, S, E>(script: Script<C, S, E>) -> Seq<Action<C, S, E>> {
    match script.logger {
        Ok(_) => seq![Action::SetUpLogger],
        Err(cause) => seq![
            Action::SetUpLogger,
            Action::ReportWarning(StartupError { kind: ErrorKind::LoggingSetup, cause }),
        ],
    }
}

/// The actions between the logger set-up and the exit: each stage is tried
/// once, in order, and none after one that failed.
pub open spec fn fatal_stages<C, S, E>(script: Script<C, S, E>) -> Seq<Action<C, S, E>> {
    match (script.read, script.parse, script.open) {
        (Err(_), _, _) => seq![Action::ReadConfig],
        (Ok(text), Err(_), _) => seq![Action::ReadConfig, Action::ParseConfig(text)],
        (Ok(text), Ok(_), Err(_)) => seq![
            Action::ReadConfig,
            Action::ParseConfig(text),
            Action::OpenTransport,
        ],
        (Ok(text), Ok(config), Ok(session)) => seq![
            Action::ReadConfig,
            Action::ParseConfig(text),
            Action::OpenTransport,
            Action::Launch { config, session: Arc::new(session), prefix: namespace_prefix() },
        ],
    }
}

/// The whole run, stage by stage, ending with the exit.
pub open spec fn staged<C, S, E>(script: Script<C, S, E>) -> Seq<Action<C, S, E>> {
    logging_stage(script) + fatal_stages(script) + seq![Action::Exit(outcome(script))]
}

/// A driver that follows the machine performs exactly the staged run: the
/// logger set-up first, then each stage once and in order, nothing after a
/// stage that failed but the exit, and the exit with the outcome of the
/// first failure or with success.
pub proof fn law_run_is_staged<C, S, E>(script: Script<C, S, E>)
    ensures
        trace(script) == staged(script),
{
    reveal_with_fuel(trace_from, 8);
    assert(trace(script) =~= staged(script));
}

/// The place of an action in the order of a start-up.
pub open spec fn stage_of<C, S, E>(action: Action<C, S, E>) -> nat {
    match action {
        Action::SetUpLogger => 0,
        Action::ReportWarning(_) => 1,
        Action::ReadConfig => 2,
        Action::ParseConfig(_) => 3,
        Action::OpenTransport => 4,
        Action::Launch { .. } => 5,
        Action::Exit(_) => 6,
    }
}

/// The actions of a run come strictly in the order of the stages. So no
/// stage begins before the one in front of it is over, and none is tried a
/// second time: the logger is set up once, one session is opened at most.
pub proof fn law_stages_in_order<C, S, E>(script: Script<C, S, E>)
    ensures
        forall|i: int, j: int|
            0 <= i < j < trace(script).len() ==> stage_of(#[trigger] trace(script)[i]) < stage_of(
                #[trigger] trace(script)[j],
            ),
{
    law_run_is_staged(script);
}

/// The run ends with the exit and holds no other: the outcome is decided
/// once, and it is that of the first stage that failed after the logger
/// set-up, whatever the later stages would have answered.
pub proof fn law_run_ends_with_outcome<C, S, E>(script: Script<C, S, E>)
    ensures
        trace(script).last() == Action::<C, S, E>::Exit(outcome(script)),
        forall|i: int| 0 <= i < trace(script).len() - 1 ==> !(#[trigger] trace(script)[i] is Exit),
{
    law_run_is_staged(script);
}

/// A configuration file that cannot be read, or whose text cannot be
/// deserialized, ends the start-up with a failure and a status other than
/// zero. The failure carries the cause as it came and the context of the one
/// stage that failed: that of reading where the file could not be read, else
/// that of parsing. The two contexts are different texts.
pub proof fn law_config_failure_names_its_stage<C, S, E>(script: Script<C, S, E>)
    requires
        script.read is Err || script.parse is Err,
    ensures
        outcome(script) matches Outcome::Failed(error) && error == (match script.read {
            Err(cause) => (StartupError { kind: ErrorKind::ConfigRead, cause }),
            Ok(_) => (StartupError { kind: ErrorKind::ConfigParse, cause: script.parse->Err_0 }),
        }),
        trace(script).last() == Action::<C, S, E>::Exit(outcome(script)),
        outcome(script).status() != 0,
        ErrorKind::ConfigRead.context_text() == Some("failed to read config file"@),
        ErrorKind::ConfigParse.context_text() == Some("failed to parse config file"@),
        "failed to read config file"@ != "failed to parse config file"@,
{
    law_run_ends_with_outcome(script);
    reveal_strlit("failed to read config file");
    reveal_strlit("failed to parse config file");
    assert("failed to read config file"@.len() != "failed to parse config file"@.len());
}

/// The launches among `actions`, in order.
pub open spec fn launches<C, S, E>(actions: Seq<Action<C, S, E>>) -> Seq<Action<C, S, E>> {
    actions.filter(|action: Action<C, S, E>| action is Launch)
}

/// Where the configuration loads and the transport opens, the monitoring
/// subsystem is launched exactly once, with the configuration that was
/// parsed, the session that was opened and the namespace prefix. In every
/// other run it is not launched at all.
pub proof fn law_launched_exactly_once<C, S, E>(script: Script<C, S, E>)
    ensures
        launches(trace(script)) == (match (script.read, script.parse, script.open) {
            (Ok(_), Ok(config), Ok(session)) => seq![
                Action::Launch { config, session: Arc::new(session), prefix: namespace_prefix() },
            ],
            _ => Seq::<Action<C, S, E>>::empty(),
        }),
{
    law_run_is_staged(script);
    reveal_with_fuel(Seq::filter, 8);
    let keep = |action: Action<C, S, E>| action is Launch;
    let head = logging_stage(script) + fatal_stages(script);
    let tail = seq![Action::<C, S, E>::Exit(outcome(script))];
    Seq::filter_distributes_over_add(head, tail, keep);
    Seq::filter_distributes_over_add(logging_stage(script), fatal_stages(script), keep);
    assert(tail.filter(keep) =~= Seq::empty());
    assert(logging_stage(script).filter(keep) =~= Seq::empty());
    assert(fatal_stages(script).filter(keep) =~= launches(trace(script)));
}

/// A logger that cannot be installed changes a run in one thing only: the
/// failure is reported right after the attempt. Every later action is what
/// it would have been with a working logger, and so are the outcome and the
/// exit status.
pub proof fn law_logger_failure_only_adds_report<C, S, E>(script: Script<C, S, E>, cause: E)
    ensures
        ({
            let calm = Script { logger: Ok::<(), E>(()), ..script };
            let troubled = Script { logger: Err::<(), E>(cause), ..script };
            let report = Action::<C, S, E>::ReportWarning(
                StartupError { kind: ErrorKind::LoggingSetup, cause },
            );
            &&& trace(troubled) == trace(calm).insert(1, report)
            &&& trace(troubled).last() == trace(calm).last()
            &&& outcome(troubled) == outcome(calm)
            &&& outcome(troubled).status() == outcome(calm).status()
        }),
{
    let calm = Script { logger: Ok::<(), E>(()), ..script };
    let troubled = Script { logger: Err::<(), E>(cause), ..script };
    let report = Action::<C, S, E>::ReportWarning(
        StartupError { kind: ErrorKind::LoggingSetup, cause },
    );
    law_run_is_staged(calm);
    law_run_is_staged(troubled);
    assert(fatal_stages(troubled) == fatal_stages(calm));
    assert(staged(troubled) =~= staged(calm).insert(1, report));
}

/// The namespace prefix does not depend on the run: whatever two launches
/// of whatever two runs are compared, both carry the same prefix, the one
/// that `default_namespace_prefix` returns.
pub proof fn law_prefix_is_fixed<C, S, E>(
    first: Script<C, S, E>,
    second: Script<C, S, E>,
    i: int,
    j: int,
)
    requires
        0 <= i < trace(first).len(),
        0 <= j < trace(second).len(),
        trace(first)[i] is Launch,
        trace(second)[j] is Launch,
    ensures
        trace(first)[i]->prefix == trace(second)[j]->prefix,
        trace(first)[i]->prefix == namespace_prefix(),
{
    law_run_is_staged(first);
    law_run_is_staged(second);
}

/// A stage is attempted if and only if every stage before it succeeded; the
/// logger set-up does not count. So a text that cannot be parsed leaves the
/// transport unopened, and a transport that does not open leaves the
/// monitoring subsystem unlaunched.
pub proof fn law_stage_needs_its_predecessors<C, S, E>(script: Script<C, S, E>)
    ensures
        trace(script)[0] == Action::<C, S, E>::SetUpLogger,
        trace(script).contains(Action::ReadConfig),
        (exists|i: int| 0 <= i < trace(script).len() && #[trigger] trace(script)[i] is ReportWarning)
            <==> script.logger is Err,
        (exists|i: int| 0 <= i < trace(script).len() && #[trigger] trace(script)[i] is ParseConfig)
            <==> script.read is Ok,
        trace(script).contains(Action::OpenTransport) <==> script.read is Ok && script.parse is Ok,
        (exists|i: int| 0 <= i < trace(script).len() && #[trigger] trace(script)[i] is Launch)
            <==> script.read is Ok && script.parse is Ok && script.open is Ok,
{
    law_run_is_staged(script);
    let run = staged(script);
    let skip = logging_stage(script).len() as int;
    assert(run[skip] == Action::<C, S, E>::ReadConfig);
    if script.logger is Err {
        assert(run[1] is ReportWarning);
    }
    if script.read is Ok {
        assert(run[skip + 1] is ParseConfig);
        if script.parse is Ok {
            assert(run[skip + 2] == Action::<C, S, E>::OpenTransport);
            if script.open is Ok {
                assert(run[skip + 3] is Launch);
            }
        }
    }
}

} // verus!
