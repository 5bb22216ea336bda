//! Logger configuration data and the level-filtering rule.
//!
//! The logger itself is an async worker: records travel over a channel and
//! are enriched and printed outside this library.  What is decided here is
//! the data a logger is built from and whether a record's level passes the
//! configured threshold.

use vstd::prelude::*;

verus! {

/// Severity of one log record, least severe first.
#[derive(Clone, Copy, PartialEq, Eq, Structural, Debug)]
pub enum LogLevel {
    Trace,
    Debug,
    Info,
    Warn,
    Error,
    Fatal,
}

/// Numeric rank of a severity, least severe lowest.
pub open spec fn level_rank(l: LogLevel) -> int {
    match l {
        LogLevel::Trace => 0,
        LogLevel::Debug => 1,
        LogLevel::Info => 2,
        LogLevel::Warn => 3,
        LogLevel::Error => 4,
        LogLevel::Fatal => 5,
    }
}

impl LogLevel {
    /// Numeric rank of this severity, least severe lowest.
    pub fn rank(&self) -> (r: u8)
        ensures
            r == level_rank(*self),
    {
        match self {
            LogLevel::Trace => 0,
            LogLevel::Debug => 1,
            LogLevel::Info => 2,
            LogLevel::Warn => 3,
            LogLevel::Error => 4,
            LogLevel::Fatal => 5,
        }
    }
}

/// A record is emitted exactly when its level reaches the configured one.
pub fn should_log(record: LogLevel, configured: LogLevel) -> (r: bool)
    ensures
        r == (level_rank(record) >= level_rank(configured)),
{
    record.rank() >= configured.rank()
}

/// The immutable configuration a logger runs with.
pub struct LoggerConfig {
    /// Minimum severity that is emitted.
    pub level: LogLevel,
    /// Component name stamped on every record.
    pub component: String,
}

/// Builder for a logger: component name, threshold level, channel size.
pub struct LoggerBuilder {
    /// Component name stamped on every record.
    pub component: String,
    /// Minimum severity that is emitted.
    pub level: LogLevel,
    /// Capacity of the record channel.
    pub buffer_size: usize,
}

impl LoggerBuilder {
    /// A builder for the named component: level `Info`, buffer of 1024.
    pub fn new(component: &str) -> (r: LoggerBuilder)
        ensures
            r.component@ == component@,
            r.level == LogLevel::Info,
            r.buffer_size == 1024,
    {
        LoggerBuilder {
            component: String::from_str(component),
            level: LogLevel::Info,
            buffer_size: 1024,
        }
    }

    /// The same builder with the threshold level replaced.
    pub fn with_level(self, level: LogLevel) -> (r: LoggerBuilder)
        ensures
            r.component == self.component,
            r.level == level,
            r.buffer_size == self.buffer_size,
    {
        LoggerBuilder { level, ..self }
    }

    /// The configuration a logger built from this builder runs with.
    pub fn config(&self) -> (r: LoggerConfig)
        ensures
            r.level == self.level,
            r.component@ == self.component@,
    {
        LoggerConfig { level: self.level, component: clone_string(&self.component) }
    }
}

/// Clones a string, keeping its view.
fn clone_string(s: &String) -> (r: String)
    ensures
        r@ == s@,
{
    String::from_str(s.as_str())
}

} // verus!
