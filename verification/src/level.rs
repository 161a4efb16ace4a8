//! Severity levels shared with the foreign caller.
//!
//! Levels cross the boundary as small numeric codes; the codes here are the
//! stable wire values, stated as a spec function rather than as enum
//! discriminants so that both directions of the conversion carry contracts.

use vstd::prelude::*;

verus! {

/// A log severity level, ordered from most to least severe, with `Off`
/// disabling logging altogether.
#[derive(Clone, Copy, Debug, PartialEq, Eq, Structural)]
pub enum Level {
    Error,
    Warn,
    Info,
    Debug,
    Trace,
    Off,
}

/// The numeric code a level travels as across the boundary.
pub open spec fn level_code(l: Level) -> u32 {
    match l {
        Level::Error => 0,
        Level::Warn => 1,
        Level::Info => 2,
        Level::Debug => 3,
        Level::Trace => 4,
        Level::Off => 5,
    }
}

/// The level a numeric code denotes, if any.
pub open spec fn spec_level_from_code(c: u32) -> Option<Level> {
    if c == 0 {
        Some(Level::Error)
    } else if c == 1 {
        Some(Level::Warn)
    } else if c == 2 {
        Some(Level::Info)
    } else if c == 3 {
        Some(Level::Debug)
    } else if c == 4 {
        Some(Level::Trace)
    } else if c == 5 {
        Some(Level::Off)
    } else {
        None
    }
}

/// Encodes a level as its wire code.
pub fn level_to_code(l: Level) -> (c: u32)
    ensures
        c == level_code(l),
{
    match l {
        Level::Error => 0,
        Level::Warn => 1,
        Level::Info => 2,
        Level::Debug => 3,
        Level::Trace => 4,
        Level::Off => 5,
    }
}

/// Decodes a wire code back into a level; codes outside the table are
/// rejected.
pub fn level_from_code(c: u32) -> (r: Option<Level>)
    ensures
        r == spec_level_from_code(c),
{
    match c {
        0 => Some(Level::Error),
        1 => Some(Level::Warn),
        2 => Some(Level::Info),
        3 => Some(Level::Debug),
        4 => Some(Level::Trace),
        5 => Some(Level::Off),
        _ => None,
    }
}

/// Law: encoding a level and decoding the code gives the level back, so the
/// two directions of the boundary conversion agree.
pub proof fn lemma_level_code_round_trip(l: Level)
    ensures
        spec_level_from_code(level_code(l)) == Some(l),
{
}

} // verus!
