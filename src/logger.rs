use vstd::prelude::*;

verus! {

/// Message levels, from always shown to most detailed.
#[derive(Clone, Copy, PartialEq, Eq, Structural)]
pub enum LogLevel {
    ERROR,
    INFO,
    VERBOSE,
}

impl LogLevel {
    pub open spec fn rank(self) -> nat {
        match self {
            LogLevel::ERROR => 0,
            LogLevel::INFO => 1,
            LogLevel::VERBOSE => 2,
        }
    }

    pub open spec fn label_spec(self) -> Seq<char> {
        match self {
            LogLevel::ERROR => "ERROR"@,
            LogLevel::INFO => "INFO"@,
            LogLevel::VERBOSE => "VERBOSE"@,
        }
    }

    /// The level's name as printed in front of a message.
    pub fn label(&self) -> (r: &'static str)
        ensures
            r@ == self.label_spec(),
    {
        match self {
            LogLevel::ERROR => "ERROR",
            LogLevel::INFO => "INFO",
            LogLevel::VERBOSE => "VERBOSE",
        }
    }
}

/// Decides which messages are shown: those up to a maximum level.
pub struct Logger {
    max_level: LogLevel,
}

impl Logger {
    pub closed spec fn max(&self) -> LogLevel {
        self.max_level
    }

    pub fn new(max_level: LogLevel) -> (r: Self)
        ensures
            r.max() == max_level,
    {
        Self { max_level }
    }

    /// Whether a message at `level` is shown; errors always are.
    pub fn enabled(&self, level: LogLevel) -> (r: bool)
        ensures
            r == (level.rank() <= self.max().rank()),
    {
        match (level, self.max_level) {
            (LogLevel::ERROR, _) => true,
            (LogLevel::INFO, LogLevel::ERROR) => false,
            (LogLevel::INFO, _) => true,
            (LogLevel::VERBOSE, LogLevel::VERBOSE) => true,
            (LogLevel::VERBOSE, _) => false,
        }
    }
}

} // verus!
