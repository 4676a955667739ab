//! The virtual cursor: where a seek lands when the target is only assumed.

use vstd::prelude::*;

verus! {

/// A seek request, with the same three modes as `std::io::SeekFrom`.
#[derive(Debug, Clone, Copy, PartialEq, Eq, Structural)]
pub enum SeekFrom {
    /// An absolute offset from the beginning of the target.
    Start(u64),
    /// An offset relative to the configured length of the target.
    End(i64),
    /// An offset relative to the current position.
    Current(i64),
}

/// The position that a cursor is taken to be at: the simulated position when
/// it is known, else the configured start, else the origin.
pub open spec fn effective_position(current: Option<u64>, start: Option<u64>) -> nat {
    match current {
        Some(position) => position as nat,
        None => match start {
            Some(position) => position as nat,
            None => 0,
        },
    }
}

/// The mathematical position a seek asks for, before it is held to the range
/// of representable positions. `None` when the mode cannot be resolved at
/// all: a seek relative to the end of a target of unknown length.
pub open spec fn target_position(
    current: Option<u64>,
    mode: SeekFrom,
    start: Option<u64>,
    length: Option<u64>,
) -> Option<int> {
    match mode {
        SeekFrom::Start(offset) => Some(offset as int),
        SeekFrom::End(delta) => match length {
            Some(length) => Some(length + delta),
            None => None,
        },
        SeekFrom::Current(delta) => Some(effective_position(current, start) + delta),
    }
}

/// The position a seek resolves to, if it resolves to a position at all:
/// one that is neither negative nor beyond `u64::MAX`.
pub open spec fn resolved_position(
    current: Option<u64>,
    mode: SeekFrom,
    start: Option<u64>,
    length: Option<u64>,
) -> Option<u64> {
    match target_position(current, mode, start, length) {
        Some(position) if 0 <= position <= u64::MAX => Some(position as u64),
        _ => None,
    }
}

/// The position a cursor is taken to be at, computed.
pub fn effective(current: Option<u64>, start: Option<u64>) -> (position: u64)
    ensures
        position == effective_position(current, start),
{
    match current {
        Some(position) => position,
        None => match start {
            Some(position) => position,
            None => 0,
        },
    }
}

/// Moves `base` by `delta`, computed in a type wide enough for both.
fn offset_position(base: u64, delta: i64) -> (moved: Option<u64>)
    ensures
        moved == (if 0 <= base + delta <= u64::MAX {
            Some((base + delta) as u64)
        } else {
            None
        }),
{
    let wide: i128 = base as i128 + delta as i128;
    if 0 <= wide && wide <= u64::MAX as i128 {
        Some(wide as u64)
    } else {
        None
    }
}

/// Resolves a seek against the simulated cursor.
pub fn next_position(
    current: Option<u64>,
    mode: SeekFrom,
    start: Option<u64>,
    length: Option<u64>,
) -> (next: Option<u64>)
    ensures
        next == resolved_position(current, mode, start, length),
{
    match mode {
        SeekFrom::Start(offset) => Some(offset),
        SeekFrom::End(delta) => match length {
            Some(length) => offset_position(length, delta),
            None => None,
        },
        SeekFrom::Current(delta) => offset_position(effective(current, start), delta),
    }
}

} // verus!
