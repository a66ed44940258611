//! Bootstrap of a monitoring node: the order in which the start-up stages
//! run, what each of their failures means, and the line format of the
//! diagnostics that accompany them.
//!
//! Apart from reading the clock for the date and time of a log line, the
//! library touches nothing outside. A driver sets up the logger, reads and
//! parses the configuration, opens the transport and runs the monitoring
//! subsystem; after each of these it tells the [`orchestrator`] what came of
//! it and is told what to do next. [`run`] states what holds of every
//! start-up that is driven so.

pub mod diagnostics;
pub mod error;
pub mod orchestrator;
pub mod run;
