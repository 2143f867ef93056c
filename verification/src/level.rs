//! Severity levels, verbosity thresholds, and the filter decision.
use vstd::prelude::*;

verus! {

/// Severity of one log record, listed from most to least important.
#[derive(Clone, Copy, Debug, PartialEq, Eq, Structural)]
pub enum LogLevel {
    Error,
    Warn,
    Info,
    Debug,
    Trace,
}

/// Upper bound on the verbosity a logger lets through; `Off` admits nothing,
/// `Trace` admits everything.
#[derive(Clone, Copy, Debug, PartialEq, Eq, Structural)]
pub enum LevelFilter {
    Off,
    Error,
    Warn,
    Info,
    Debug,
    Trace,
}

/// Position of a level in the order Error < Warn < Info < Debug < Trace.
pub open spec fn level_rank(level: LogLevel) -> int {
    match level {
        LogLevel::Error => 1,
        LogLevel::Warn => 2,
        LogLevel::Info => 3,
        LogLevel::Debug => 4,
        LogLevel::Trace => 5,
    }
}

/// Position of a threshold in the order Off < Error < Warn < Info < Debug < Trace.
pub open spec fn filter_rank(threshold: LevelFilter) -> int {
    match threshold {
        LevelFilter::Off => 0,
        LevelFilter::Error => 1,
        LevelFilter::Warn => 2,
        LevelFilter::Info => 3,
        LevelFilter::Debug => 4,
        LevelFilter::Trace => 5,
    }
}

/// A record passes the filter exactly when its level is no more verbose than
/// the threshold allows.
pub open spec fn level_enabled(level: LogLevel, threshold: LevelFilter) -> bool {
    level_rank(level) <= filter_rank(threshold)
}

/// Numeric rank of a level under the fixed severity order.
pub fn level_index(level: LogLevel) -> (r: u32)
    ensures
        r == level_rank(level),
{
    match level {
        LogLevel::Error => 1,
        LogLevel::Warn => 2,
        LogLevel::Info => 3,
        LogLevel::Debug => 4,
        LogLevel::Trace => 5,
    }
}

/// Numeric rank of a threshold under the fixed severity order.
pub fn filter_index(threshold: LevelFilter) -> (r: u32)
    ensures
        r == filter_rank(threshold),
{
    match threshold {
        LevelFilter::Off => 0,
        LevelFilter::Error => 1,
        LevelFilter::Warn => 2,
        LevelFilter::Info => 3,
        LevelFilter::Debug => 4,
        LevelFilter::Trace => 5,
    }
}

/// The filter decision: true iff `level <= threshold` under
/// Error < Warn < Info < Debug < Trace.
pub fn is_enabled(level: LogLevel, threshold: LevelFilter) -> (r: bool)
    ensures
        r == level_enabled(level, threshold),
{
    level_index(level) <= filter_index(threshold)
}

} // verus!
