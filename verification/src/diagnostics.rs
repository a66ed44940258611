//! The settings of the logger and the format of its lines.
//!
//! A line reads `[<date>][<time>][<source>][<level>] <message>`. Date and
//! time are read from the clock; the line is put together here.

use vstd::prelude::*;

verus! {

/// The severity of a log record, most severe first.
#[derive(Clone, Copy, Debug, PartialEq, Eq, Structural)]
pub enum Severity {
    Error,
    Warn,
    Info,
    Debug,
    Trace,
}

impl Severity {
    /// The name of the severity as it stands in a log line.
    pub open spec fn label(self) -> Seq<char> {
        match self {
            Severity::Error => "ERROR"@,
            Severity::Warn => "WARN"@,
            Severity::Info => "INFO"@,
            Severity::Debug => "DEBUG"@,
            Severity::Trace => "TRACE"@,
        }
    }
}

/// The pattern by which the date is written: year, month and day.
pub open spec fn date_pattern() -> Seq<char> {
    "%Y-%m-%d"@
}

/// The pattern by which the time of day is written: hour, minute and second.
pub open spec fn time_pattern() -> Seq<char> {
    "%H:%M:%S"@
}

/// The name of the log file, in the working directory of the process.
pub open spec fn log_file_name() -> Seq<char> {
    "monitor.log"@
}

/// How the logger is to be set up.
#[derive(Clone, Copy, Debug, PartialEq, Eq)]
pub struct LoggerPlan {
    /// Records less severe than this are dropped.
    pub minimum: Severity,
    /// Whether the lines go to standard output.
    pub console: bool,
    /// The file to which the lines are appended as well.
    pub file_name: &'static str,
}

/// The settings of the monitoring node's logger: records from `Info` up, to
/// standard output and to the log file.
pub fn logger_plan() -> (plan: LoggerPlan)
    ensures
        plan.minimum == Severity::Info,
        plan.console,
        plan.file_name@ == log_file_name(),
{
    LoggerPlan { minimum: Severity::Info, console: true, file_name: "monitor.log" }
}

/// A log line: date, time, source and level, each in square brackets, then a
/// space and the message.
pub open spec fn record_line(
    date: Seq<char>,
    time: Seq<char>,
    source: Seq<char>,
    level: Seq<char>,
    message: Seq<char>,
) -> Seq<char> {
    seq!['['] + date + seq![']', '['] + time + seq![']', '['] + source + seq![']', '['] + level
        + seq![']', ' '] + message
}

/// `log::Level::as_str` on the level that `severity` stands for. The `log`
/// crate keeps the names in a table: `ERROR`, `WARN`, `INFO`, `DEBUG` and
/// `TRACE`. It writes a level by the same name when it displays one.
#[verifier::external_body]
fn level_name(severity: Severity) -> (name: &'static str)
    ensures
        name@ == severity.label(),
{
    let level = match severity {
        Severity::Error => log::Level::Error,
        Severity::Warn => log::Level::Warn,
        Severity::Info => log::Level::Info,
        Severity::Debug => log::Level::Debug,
        Severity::Trace => log::Level::Trace,
    };
    level.as_str()
}

/// `chrono::Local::now`, once, and `DateTime::format` on what it returns,
/// once with each pattern: the local date and the local time of day at the
/// call. Nothing is claimed of the two texts, which change from call to
/// call. Only the two patterns of the log line are admitted: chrono fails on
/// a pattern with a specifier that it does not know. It also expects the
/// system clock not to stand before 1970.
#[verifier::external_body]
fn local_date_and_time(date: &str, time: &str) -> (stamp: (String, String))
    requires
        date@ == date_pattern(),
        time@ == time_pattern(),
{
    let now = chrono::Local::now();
    (now.format(date).to_string(), now.format(time).to_string())
}

/// Writes the log line of a record whose date and time are at hand.
pub fn format_record(
    date: &str,
    time: &str,
    source: &str,
    severity: Severity,
    message: &str,
) -> (line: String)
    ensures
        line@ == record_line(date@, time@, source@, severity.label(), message@),
{
    let mut line = "[".to_owned();
    line.append(date);
    line.append("][");
    line.append(time);
    line.append("][");
    line.append(source);
    line.append("][");
    line.append(level_name(severity));
    line.append("] ");
    line.append(message);
    proof {
        reveal_strlit("[");
        reveal_strlit("][");
        reveal_strlit("] ");
        assert("["@ =~= seq!['[']);
        assert("]["@ =~= seq![']', '[']);
        assert("] "@ =~= seq![']', ' ']);
    }
    line
}

/// Writes the log line of a record as of now: reads the clock for date and
/// time and formats the record with them. Date and time are whatever the
/// clock gave; the rest of the line is fixed by the arguments.
pub fn stamp_record(source: &str, severity: Severity, message: &str) -> (line: String)
    ensures
        exists|date: Seq<char>, time: Seq<char>|
            line@ == #[trigger] record_line(date, time, source@, severity.label(), message@),
{
    let (date, time) = local_date_and_time("%Y-%m-%d", "%H:%M:%S");
    format_record(date.as_str(), time.as_str(), source, severity, message)
}

} // verus!
