//! Which records the log keeps, as the level named in `LOG_LEVEL` decides it.

use crate::reactor::text::same_text;
use vstd::prelude::*;

verus! {

/// The least severe level of the records that are kept.
#[derive(Debug, Clone, Copy, PartialEq, Eq, Structural)]
pub enum LevelFilter {
    Error,
    Warn,
    Info,
    Debug,
    Trace,
}

/// The verbosity that a level's name stands for, if it is one of `warn`,
/// `info`, `debug`, `trace` and `full`.
pub open spec fn verbosity_of(name: Seq<char>) -> Option<u8> {
    if name == "warn"@ {
        Some(0u8)
    } else if name == "info"@ {
        Some(1u8)
    } else if name == "debug"@ {
        Some(2u8)
    } else if name == "trace"@ {
        Some(3u8)
    } else if name == "full"@ {
        Some(4u8)
    } else {
        None
    }
}

/// The level down to which the program's own records are kept.
pub open spec fn own_level(verbosity: u8) -> LevelFilter {
    if verbosity == 0 {
        LevelFilter::Warn
    } else if verbosity == 1 {
        LevelFilter::Info
    } else if verbosity == 2 {
        LevelFilter::Debug
    } else {
        LevelFilter::Trace
    }
}

/// The level down to which the records of every other source are kept.
pub open spec fn general_level(verbosity: u8) -> LevelFilter {
    if verbosity == 3 {
        LevelFilter::Info
    } else if verbosity == 4 {
        LevelFilter::Trace
    } else {
        LevelFilter::Error
    }
}

/// The verbosity that a level's name stands for; `None` for a name that is
/// not supported.
pub fn verbosity(name: &str) -> (v: Option<u8>)
    ensures
        v == verbosity_of(name@),
{
    if same_text(name, "warn") {
        Some(0)
    } else if same_text(name, "info") {
        Some(1)
    } else if same_text(name, "debug") {
        Some(2)
    } else if same_text(name, "trace") {
        Some(3)
    } else if same_text(name, "full") {
        Some(4)
    } else {
        None
    }
}

/// The level down to which the program's own records are kept.
pub fn level_for(verbosity: u8) -> (level: LevelFilter)
    ensures
        level == own_level(verbosity),
{
    match verbosity {
        0 => LevelFilter::Warn,
        1 => LevelFilter::Info,
        2 => LevelFilter::Debug,
        _ => LevelFilter::Trace,
    }
}

/// The level down to which the records of every other source are kept.
pub fn level(verbosity: u8) -> (level: LevelFilter)
    ensures
        level == general_level(verbosity),
{
    match verbosity {
        3 => LevelFilter::Info,
        4 => LevelFilter::Trace,
        _ => LevelFilter::Error,
    }
}

} // verus!
