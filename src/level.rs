//! Mapping of Python's numeric severities onto a five-level native scale.

use vstd::prelude::*;

verus! {

/// Native severity, ordered from the most verbose to the most severe.
#[derive(Clone, Copy, Debug, PartialEq, Eq, Structural)]
pub enum Level {
    Trace,
    Debug,
    Info,
    Warn,
    Error,
}

impl Level {
    /// Position of the level on the scale, `Trace` lowest.
    pub open spec fn rank(self) -> int {
        match self {
            Level::Trace => 0,
            Level::Debug => 1,
            Level::Info => 2,
            Level::Warn => 3,
            Level::Error => 4,
        }
    }
}

/// The native level of a Python severity code.
pub open spec fn level_of(code: u8) -> Level {
    if code >= 40 {
        Level::Error
    } else if code >= 30 {
        Level::Warn
    } else if code >= 20 {
        Level::Info
    } else if code >= 10 {
        Level::Debug
    } else {
        Level::Trace
    }
}

/// Converts a Python severity (`logging.DEBUG` = 10 ... `logging.CRITICAL` = 50)
/// to the native level; `CRITICAL` folds into `Error`.
pub fn get_level(level: u8) -> (r: Level)
    ensures
        r == level_of(level),
        level >= 40 ==> r == Level::Error,
        30 <= level < 40 ==> r == Level::Warn,
        20 <= level < 30 ==> r == Level::Info,
        10 <= level < 20 ==> r == Level::Debug,
        level < 10 ==> r == Level::Trace,
{
    if level >= 40 {
        Level::Error
    } else if level >= 30 {
        Level::Warn
    } else if level >= 20 {
        Level::Info
    } else if level >= 10 {
        Level::Debug
    } else {
        Level::Trace
    }
}

/// A higher Python severity never maps to a lower native level.
pub proof fn lemma_level_monotonic(a: u8, b: u8)
    requires
        a <= b,
    ensures
        level_of(a).rank() <= level_of(b).rank(),
{
}

} // verus!
