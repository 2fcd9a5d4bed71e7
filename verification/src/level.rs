//! Verbosity levels accepted by the engine's callers.

use vstd::prelude::*;

verus! {

/// A logging verbosity level, ordered from most to least chatty.
#[derive(Clone, Copy, Debug, PartialEq, Eq, Structural)]
pub enum Level {
    Trace,
    Debug,
    Info,
    Warn,
    Error,
}

/// The level that a numeric verbosity selects.
///
/// Unrecognised numbers select the most verbose level.
pub open spec fn level_of_u8(value: u8) -> Level {
    match value {
        1u8 => Level::Debug,
        2u8 => Level::Info,
        3u8 => Level::Warn,
        4u8 => Level::Error,
        _ => Level::Trace,
    }
}

/// Converts a numeric verbosity to a logging level.
///
/// Defaults to the most verbose level for numbers outside 1..=4.
pub fn u8_to_level(value: u8) -> (r: Level)
    ensures
        r == level_of_u8(value),
{
    match value {
        1u8 => Level::Debug,
        2u8 => Level::Info,
        3u8 => Level::Warn,
        4u8 => Level::Error,
        _ => Level::Trace,
    }
}

} // verus!
