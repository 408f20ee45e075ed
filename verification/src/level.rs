//! Log severity levels and the level-filtering rule.
use vstd::prelude::*;

verus! {

/// Log severity levels supported by the native engine, in increasing
/// severity. `Off` disables all output when used as a minimum.
#[derive(Debug, Copy, Clone, PartialEq, Eq, Structural)]
pub enum LogLevel {
    Verbose,
    Debug,
    Info,
    Warn,
    Error,
    Fatal,
    Off,
}

/// Position of a level in the strict total order
/// Verbose < Debug < Info < Warn < Error < Fatal < Off.
pub open spec fn rank(level: LogLevel) -> int {
    match level {
        LogLevel::Verbose => 0,
        LogLevel::Debug => 1,
        LogLevel::Info => 2,
        LogLevel::Warn => 3,
        LogLevel::Error => 4,
        LogLevel::Fatal => 5,
        LogLevel::Off => 6,
    }
}

/// The level that a numeric rank denotes; every value above the highest
/// known rank denotes `Off`, matching the native engine's convention.
pub open spec fn level_of_rank(value: int) -> LogLevel {
    if value == 0 {
        LogLevel::Verbose
    } else if value == 1 {
        LogLevel::Debug
    } else if value == 2 {
        LogLevel::Info
    } else if value == 3 {
        LogLevel::Warn
    } else if value == 4 {
        LogLevel::Error
    } else if value == 5 {
        LogLevel::Fatal
    } else {
        LogLevel::Off
    }
}

/// The filtering rule: an event at `level` passes iff the configured minimum is
/// not `Off` and the event's level sits at or above the minimum.
pub open spec fn enabled_at(min: LogLevel, level: LogLevel) -> bool {
    min != LogLevel::Off && rank(level) >= rank(min)
}

/// Rank of a level as the byte the adapter state stores.
pub fn level_rank(level: LogLevel) -> (r: u8)
    ensures
        r == rank(level),
{
    match level {
        LogLevel::Verbose => 0,
        LogLevel::Debug => 1,
        LogLevel::Info => 2,
        LogLevel::Warn => 3,
        LogLevel::Error => 4,
        LogLevel::Fatal => 5,
        LogLevel::Off => 6,
    }
}

/// Level denoted by a stored rank byte.
pub fn level_from_rank(value: u8) -> (r: LogLevel)
    ensures
        r == level_of_rank(value as int),
{
    match value {
        0 => LogLevel::Verbose,
        1 => LogLevel::Debug,
        2 => LogLevel::Info,
        3 => LogLevel::Warn,
        4 => LogLevel::Error,
        5 => LogLevel::Fatal,
        _ => LogLevel::Off,
    }
}

/// Rank of a level as the C integer the native calls take.
pub fn level_code(level: LogLevel) -> (c: i32)
    ensures
        c == rank(level),
{
    match level {
        LogLevel::Verbose => 0,
        LogLevel::Debug => 1,
        LogLevel::Info => 2,
        LogLevel::Warn => 3,
        LogLevel::Error => 4,
        LogLevel::Fatal => 5,
        LogLevel::Off => 6,
    }
}

/// Level denoted by a C integer reply; unknown codes denote `Off`.
pub fn level_from_code(code: i32) -> (r: LogLevel)
    ensures
        r == level_of_rank(code as int),
{
    match code {
        0 => LogLevel::Verbose,
        1 => LogLevel::Debug,
        2 => LogLevel::Info,
        3 => LogLevel::Warn,
        4 => LogLevel::Error,
        5 => LogLevel::Fatal,
        _ => LogLevel::Off,
    }
}

/// Evaluate the filtering rule.
pub fn level_enabled(min: LogLevel, level: LogLevel) -> (b: bool)
    ensures
        b == enabled_at(min, level),
{
    if min == LogLevel::Off {
        false
    } else {
        level_rank(level) >= level_rank(min)
    }
}

/// Filtering is monotonic in the configured minimum: an event that passes a
/// higher minimum also passes every lower one, so raising the minimum never
/// re-enables a level that a lower minimum had already disabled.
pub proof fn lemma_enabled_monotonic(lo: LogLevel, hi: LogLevel, level: LogLevel)
    requires
        rank(lo) <= rank(hi),
    ensures
        enabled_at(hi, level) ==> enabled_at(lo, level),
{
}

} // verus!
