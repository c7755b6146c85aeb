//! Log records tagged with the name of the service that wrote them.

use vstd::prelude::*;
use vstd::string::StringExecFns;

verus! {

/// How grave a log record is.
#[derive(Debug, Clone, Copy, PartialEq, Eq, Hash, Structural)]
pub enum LogLevel {
    Debug,
    Info,
    Warn,
    Error,
}

/// One record, ready to be handed to whatever sink the program uses.
#[derive(Debug, Clone)]
pub struct LogRecord {
    pub level: LogLevel,
    pub service: String,
    pub message: String,
}

impl LogRecord {
    /// Whether this is the record of the given level, service and message.
    pub open spec fn is(&self, level: LogLevel, service: Seq<char>, message: Seq<char>) -> bool {
        &&& self.level == level
        &&& self.service@ == service
        &&& self.message@ == message
    }
}

/// Writes records on behalf of one service.
#[derive(Debug, Clone)]
pub struct Logger {
    service_name: String,
}

impl View for Logger {
    type V = Seq<char>;

    /// The name of the service.
    closed spec fn view(&self) -> Seq<char> {
        self.service_name@
    }
}

impl Logger {
    /// A logger for the service of the given name.
    pub fn new(service_name: String) -> (logger: Self)
        ensures
            logger@ == service_name@,
    {
        Logger { service_name }
    }

    /// The name of the service.
    pub fn service_name(&self) -> (name: &str)
        ensures
            name@ == self@,
    {
        self.service_name.as_str()
    }

    /// The record of the given level for `message`.
    pub fn record(&self, level: LogLevel, message: &str) -> (record: LogRecord)
        ensures
            record.is(level, self@, message@),
    {
        LogRecord {
            level,
            service: self.service_name.clone(),
            message: String::from_str(message),
        }
    }

    /// The informational record for `message`.
    pub fn info(&self, message: &str) -> (record: LogRecord)
        ensures
            record.is(LogLevel::Info, self@, message@),
    {
        self.record(LogLevel::Info, message)
    }

    /// The warning record for `message`.
    pub fn warn(&self, message: &str) -> (record: LogRecord)
        ensures
            record.is(LogLevel::Warn, self@, message@),
    {
        self.record(LogLevel::Warn, message)
    }

    /// The error record for `message`.
    pub fn error(&self, message: &str) -> (record: LogRecord)
        ensures
            record.is(LogLevel::Error, self@, message@),
    {
        self.record(LogLevel::Error, message)
    }

    /// The debugging record for `message`.
    pub fn debug(&self, message: &str) -> (record: LogRecord)
        ensures
            record.is(LogLevel::Debug, self@, message@),
    {
        self.record(LogLevel::Debug, message)
    }
}

impl Default for Logger {
    /// The logger of the service named `mp`.
    fn default() -> (logger: Self)
        ensures
            logger@ == "mp"@,
    {
        Logger::new(String::from_str("mp"))
    }
}

} // verus!
