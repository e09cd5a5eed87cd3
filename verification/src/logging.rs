//! Settings for the log.
//!
//! The log itself is set up outside this library. Here are its settings and
//! what they mean: whether an attempt to set it up may go on, and where the
//! log is to go.

use vstd::prelude::*;
use vstd::string::StringExecFns;

verus! {

/// How much is logged.
#[derive(Debug, Clone, Copy, PartialEq, Eq, Structural)]
pub enum LogLevel {
    Error,
    Warn,
    Info,
    Debug,
    Trace,
}

/// Where the log goes.
#[derive(Debug)]
pub enum LogOutput {
    Terminal,
    /// To the file at this path.
    File(String),
    /// To the terminal and to the file at this path.
    Both(String),
}

/// The settings of the log.
#[derive(Debug)]
pub struct LogOptions {
    pub level: LogLevel,
    pub output: LogOutput,
}

impl Default for LogOptions {
    fn default() -> (r: LogOptions)
        ensures
            r.level == LogLevel::Info,
            r.output == LogOutput::Terminal,
    {
        LogOptions { level: LogLevel::Info, output: LogOutput::Terminal }
    }
}

/// Why the log could not be set up.
#[derive(Debug)]
pub enum LoggingError {
    AlreadyInitialized,
    /// The log file could not be had; with what the operating system said.
    Io(String),
    /// The logger was refused; with what the log said.
    SetLogger(String),
}

impl LoggingError {
    /// What the error says, as a sequence of characters.
    pub open spec fn spec_message(self) -> Seq<char> {
        match self {
            LoggingError::AlreadyInitialized => "logger is already initialized"@,
            LoggingError::Io(e) => "io error: "@ + e@,
            LoggingError::SetLogger(e) => "logger setup error: "@ + e@,
        }
    }

    /// What the error says.
    pub fn message(&self) -> (r: String)
        ensures
            r@ == self.spec_message(),
    {
        match self {
            LoggingError::AlreadyInitialized => String::from_str("logger is already initialized"),
            LoggingError::Io(e) => String::from_str("io error: ").concat(e.as_str()),
            LoggingError::SetLogger(e) => String::from_str("logger setup error: ").concat(
                e.as_str(),
            ),
        }
    }
}

/// The sinks that a log with given settings writes to.
#[derive(Debug)]
pub struct LogPlan {
    pub level: LogLevel,
    /// Whether the log goes to the terminal.
    pub terminal: bool,
    /// The path of the log file, if the log goes to one.
    pub file: Option<String>,
}

/// Decides how to set up the log: the terminal is a sink unless the output
/// is a file alone, and a file is one where the output names it.
///
/// Fails with `AlreadyInitialized` where the log was set up before.
pub fn init_logging(initialized: bool, options: LogOptions) -> (r: Result<LogPlan, LoggingError>)
    ensures
        initialized ==> r is Err && r->Err_0 == LoggingError::AlreadyInitialized,
        !initialized ==> r is Ok && r->Ok_0.level == options.level && match options.output {
            LogOutput::Terminal => r->Ok_0.terminal && r->Ok_0.file is None,
            LogOutput::File(path) => !r->Ok_0.terminal && r->Ok_0.file == Some(path),
            LogOutput::Both(path) => r->Ok_0.terminal && r->Ok_0.file == Some(path),
        },
{
    if initialized {
        return Err(LoggingError::AlreadyInitialized);
    }
    let level: LogLevel = options.level;
    match options.output {
        LogOutput::Terminal => Ok(LogPlan { level, terminal: true, file: None }),
        LogOutput::File(path) => Ok(LogPlan { level, terminal: false, file: Some(path) }),
        LogOutput::Both(path) => Ok(LogPlan { level, terminal: true, file: Some(path) }),
    }
}

} // verus!
