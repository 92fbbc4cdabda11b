//! The levels of the log, from the most talkative to silence.

use vstd::prelude::*;

verus! {

/// How much is logged. A level lets through the records of its own
/// severity and of every graver one.
#[derive(Clone, Copy, Debug, PartialEq, Eq, Structural)]
pub enum LogLevel {
    Trace,
    Debug,
    Info,
    Warn,
    Error,
    /// Nothing is logged.
    Off,
}

impl LogLevel {
    /// The number that stands for this level: zero for `Trace`, rising with
    /// the severity, five for `Off`.
    pub open spec fn spec_index(self) -> usize {
        match self {
            LogLevel::Trace => 0,
            LogLevel::Debug => 1,
            LogLevel::Info => 2,
            LogLevel::Warn => 3,
            LogLevel::Error => 4,
            LogLevel::Off => 5,
        }
    }

    /// The level that a number stands for. A number that stands for no
    /// level is read as `Info`.
    pub open spec fn spec_from_index(index: usize) -> LogLevel {
        if index == 0 {
            LogLevel::Trace
        } else if index == 1 {
            LogLevel::Debug
        } else if index == 2 {
            LogLevel::Info
        } else if index == 3 {
            LogLevel::Warn
        } else if index == 4 {
            LogLevel::Error
        } else if index == 5 {
            LogLevel::Off
        } else {
            LogLevel::Info
        }
    }

    /// Whether a logger set to this level writes a record of severity
    /// `record`. No logger writes a record of severity `Off`.
    pub open spec fn spec_allows(self, record: LogLevel) -> bool {
        record != LogLevel::Off && self.spec_index() <= record.spec_index()
    }

    /// Returns the number that stands for this level.
    pub fn index(self) -> (index: usize)
        ensures
            index == self.spec_index(),
            index <= 5,
    {
        match self {
            LogLevel::Trace => 0,
            LogLevel::Debug => 1,
            LogLevel::Info => 2,
            LogLevel::Warn => 3,
            LogLevel::Error => 4,
            LogLevel::Off => 5,
        }
    }

    /// Returns the level that a number stands for.
    pub fn from_index(index: usize) -> (level: LogLevel)
        ensures
            level == Self::spec_from_index(index),
    {
        match index {
            0 => LogLevel::Trace,
            1 => LogLevel::Debug,
            2 => LogLevel::Info,
            3 => LogLevel::Warn,
            4 => LogLevel::Error,
            5 => LogLevel::Off,
            _ => LogLevel::Info,
        }
    }

    /// Tells whether a logger set to this level writes a record of
    /// severity `record`.
    pub fn allows(self, record: LogLevel) -> (written: bool)
        ensures
            written == self.spec_allows(record),
    {
        match record {
            LogLevel::Off => false,
            _ => self.index() <= record.index(),
        }
    }
}

/// A level comes back unchanged from the number that stands for it.
pub proof fn law_level_index_round_trip(level: LogLevel)
    ensures
        LogLevel::spec_from_index(level.spec_index()) == level,
{
}

} // verus!
