//! A minimal colorized logging backend.
//!
//! Leveled records are filtered against a configured threshold and rendered as
//! one line per record, with level-based coloring when a color-capable
//! terminal is present and a plain byte stream as the designed fallback.
//! Registration installs one logger as the active backend exactly once.
use vstd::prelude::*;

mod level;
mod logger;
mod record;
mod registry;
mod render;
mod sink;

pub use level::is_enabled;
pub use level::LevelFilter;
pub use level::LogLevel;
pub use logger::Logger;
pub use record::LogRecord;
pub use registry::Registry;
pub use registry::RegistrationError;
pub use render::render;
pub use render::render_line;
pub use render::Op;
pub use sink::Sink;
pub use sink::SinkError;

verus! {

/// Installs a logger with the given threshold and coloring enabled into the
/// backend slot. Fails with [`RegistrationError::AlreadyInitialized`], and
/// changes nothing, iff a logger is already installed there.
pub fn init_with_level(registry: &mut Registry, log_level: LevelFilter) -> (r: Result<
    (),
    RegistrationError,
>)
    ensures
        old(registry).installed() is None ==> r is Ok && (final(registry).installed()
            matches Some(l) && l.threshold() == log_level && l.colors_enabled()),
        old(registry).installed() is Some ==> r == Err::<(), RegistrationError>(
            RegistrationError::AlreadyInitialized,
        ) && final(registry).installed() == old(registry).installed(),
{
    registry.install(Logger::new(log_level, true))
}

/// Installs a logger with the given threshold and no coloring at all into the
/// backend slot. Fails with [`RegistrationError::AlreadyInitialized`], and
/// changes nothing, iff a logger is already installed there.
pub fn init_with_level_and_without_colors(registry: &mut Registry, log_level: LevelFilter) -> (r:
    Result<(), RegistrationError>)
    ensures
        old(registry).installed() is None ==> r is Ok && (final(registry).installed()
            matches Some(l) && l.threshold() == log_level && !l.colors_enabled()),
        old(registry).installed() is Some ==> r == Err::<(), RegistrationError>(
            RegistrationError::AlreadyInitialized,
        ) && final(registry).installed() == old(registry).installed(),
{
    registry.install(Logger::new(log_level, false))
}

/// Installs a logger that admits every level, with coloring enabled. Fails
/// with [`RegistrationError::AlreadyInitialized`], and changes nothing, iff a
/// logger is already installed.
pub fn init(registry: &mut Registry) -> (r: Result<(), RegistrationError>)
    ensures
        old(registry).installed() is None ==> r is Ok && (final(registry).installed()
            matches Some(l) && l.threshold() == LevelFilter::Trace && l.colors_enabled()),
        old(registry).installed() is Some ==> r == Err::<(), RegistrationError>(
            RegistrationError::AlreadyInitialized,
        ) && final(registry).installed() == old(registry).installed(),
{
    init_with_level(registry, LevelFilter::Trace)
}

} // verus!
