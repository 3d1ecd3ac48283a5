//! The rules of the log file: which records are written, how a line reads,
//! and what the file is called.
//!
//! Opening the file and writing to it is left to the embedding program, which
//! also registers its sink with the `log` facade; [`init`] completes that
//! registration.

use vstd::prelude::*;
use vstd::string::StringExecFns;

verus! {

/// The filter levels of the `log` facade.
#[verifier::external_type_specification]
pub struct ExLevelFilter(log::LevelFilter);

/// The error `log::set_logger` returns when a logger is already installed.
#[verifier::external_type_specification]
#[verifier::external_body]
pub struct ExSetLoggerError(log::SetLoggerError);

/// `log::set_max_level` stores the filter in the facade's global state and
/// returns nothing; nothing is claimed of it.
pub assume_specification[ log::set_max_level ](level: log::LevelFilter)
;

/// How severe a record is. A lower rank is more severe.
#[derive(Clone, Copy, Debug, PartialEq, Eq)]
pub enum Level {
    Error,
    Warn,
    Info,
    Debug,
    Trace,
}

impl Level {
    /// The rank of the level, from 1 for `Error` to 5 for `Trace`.
    pub open spec fn rank(self) -> nat {
        match self {
            Level::Error => 1,
            Level::Warn => 2,
            Level::Info => 3,
            Level::Debug => 4,
            Level::Trace => 5,
        }
    }

    /// The level as it is written in a log line.
    pub open spec fn label(self) -> Seq<char> {
        match self {
            Level::Error => "ERROR"@,
            Level::Warn => "WARN"@,
            Level::Info => "INFO"@,
            Level::Debug => "DEBUG"@,
            Level::Trace => "TRACE"@,
        }
    }

    /// The rank of the level, from 1 for `Error` to 5 for `Trace`.
    pub fn severity(&self) -> (rank: u8)
        ensures
            rank == self.rank(),
    {
        match self {
            Level::Error => 1,
            Level::Warn => 2,
            Level::Info => 3,
            Level::Debug => 4,
            Level::Trace => 5,
        }
    }

    /// The level as it is written in a log line.
    pub fn as_str(&self) -> (name: &'static str)
        ensures
            name@ == self.label(),
    {
        match self {
            Level::Error => "ERROR",
            Level::Warn => "WARN",
            Level::Info => "INFO",
            Level::Debug => "DEBUG",
            Level::Trace => "TRACE",
        }
    }
}

/// The line written for a record: the time and the level in square brackets,
/// then the message, then a line feed.
pub open spec fn log_line(time: Seq<char>, level: Level, message: Seq<char>) -> Seq<char> {
    "["@ + time + "] ["@ + level.label() + "] "@ + message + "\n"@
}

/// The name of the log file of a package: its name and version joined by a
/// hyphen, with the extension `.log`.
pub open spec fn log_file_name(package: Seq<char>, version: Seq<char>) -> Seq<char> {
    package + "-"@ + version + ".log"@
}

/// The rules of one log sink: records up to `max_level` are written.
#[derive(Clone, Copy, Debug, PartialEq, Eq)]
pub struct Logger {
    pub max_level: Level,
}

impl Logger {
    /// Whether the sink writes records of `level`.
    pub open spec fn admits(self, level: Level) -> bool {
        level.rank() <= self.max_level.rank()
    }

    /// A sink that writes records up to `Info`.
    pub fn new() -> (logger: Logger)
        ensures
            logger.max_level == Level::Info,
    {
        Logger { max_level: Level::Info }
    }

    /// A sink that writes records up to `max_level`.
    pub fn with_max_level(max_level: Level) -> (logger: Logger)
        ensures
            logger.max_level == max_level,
    {
        Logger { max_level }
    }

    /// Whether the sink writes records of `level`.
    pub fn enabled(&self, level: Level) -> (yes: bool)
        ensures
            yes == self.admits(level),
    {
        level.severity() <= self.max_level.severity()
    }

    /// The line to write for a record of `level` that reads `message`, stamped
    /// with the already formatted `time`; `None` if the sink does not write
    /// records of that level.
    pub fn line(&self, time: &str, level: Level, message: &str) -> (line: Option<String>)
        ensures
            self.admits(level) ==> line is Some && line->0@ == log_line(time@, level, message@),
            !self.admits(level) ==> line is None,
    {
        if !self.enabled(level) {
            return None;
        }
        let mut line = String::from_str("[");
        line.append(time);
        line.append("] [");
        line.append(level.as_str());
        line.append("] ");
        line.append(message);
        line.append("\n");
        Some(line)
    }

    /// The name of the log file of `package` at `version`.
    pub fn file_name(package: &str, version: &str) -> (name: String)
        ensures
            name@ == log_file_name(package@, version@),
    {
        let mut name = String::from_str(package);
        name.append("-");
        name.append(version);
        name.append(".log");
        name
    }
}

/// Why logging could not be set up.
#[derive(Clone, Copy, Debug, PartialEq, Eq)]
pub enum InitError {
    /// A logger had been installed before.
    AlreadyInstalled,
}

/// Completes the installation of the log sink.
///
/// `installed` is what `log::set_logger` returned for the sink. If the sink
/// was installed, the facade is told to pass records up to `Info` on, and the
/// result is `Ok`; if a logger was installed already, the facade is left as
/// it is and the result is the error.
pub fn init(installed: Result<(), log::SetLoggerError>) -> (done: Result<(), InitError>)
    ensures
        installed is Ok ==> done == Ok::<(), InitError>(()),
        installed is Err ==> done == Err::<(), InitError>(InitError::AlreadyInstalled),
{
    match installed {
        Ok(()) => {
            log::set_max_level(log::LevelFilter::Info);
            Ok(())
        },
        Err(_) => Err(InitError::AlreadyInstalled),
    }
}

} // verus!
