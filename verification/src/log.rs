//! Options for logging: how much is logged, and where to.

use vstd::prelude::*;

verus! {

/// How much is logged.
#[derive(Clone, Copy, Debug, PartialEq, Eq)]
pub enum LogLevel {
    Error,
    Warn,
    Info,
    Debug,
}

/// Where the log goes.
#[derive(Debug, PartialEq, Eq)]
pub enum LogOutput {
    Stdout,
    Sterr,
    File(String),
}

/// The options that control logging.
#[derive(Debug, PartialEq, Eq)]
pub struct Logging {
    pub enabled: bool,
    pub level: LogLevel,
    pub destination: LogOutput,
}

impl Logging {
    /// The options at their defaults: logging is off, the level is `Info`,
    /// and the log goes to the standard output.
    pub fn new() -> (r: Logging)
        ensures
            !r.enabled,
            r.level is Info,
            r.destination is Stdout,
    {
        Logging { enabled: false, level: LogLevel::Info, destination: LogOutput::Stdout }
    }
}

} // verus!
