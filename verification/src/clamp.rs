//! The write clamper: how much of a buffer a target of bounded length takes.

use crate::cursor::{effective, effective_position};
use vstd::prelude::*;
use vstd::slice::slice_subrange;

verus! {

/// The room between the cursor and the end of a target of length `length`.
/// A cursor at or beyond the end leaves no room.
pub open spec fn room(current: Option<u64>, start: Option<u64>, length: u64) -> nat {
    let position = effective_position(current, start);
    if position <= length {
        (length - position) as nat
    } else {
        0
    }
}

/// The room that a write finds, `None` where no length bounds the target.
pub open spec fn available_capacity(
    current: Option<u64>,
    start: Option<u64>,
    length: Option<u64>,
) -> Option<nat> {
    match length {
        Some(length) => Some(room(current, start, length)),
        None => None,
    }
}

/// How many of `requested` bytes are taken: all of them, unless the room left
/// is smaller.
pub open spec fn permitted_len(
    requested: nat,
    current: Option<u64>,
    start: Option<u64>,
    length: Option<u64>,
) -> nat {
    match available_capacity(current, start, length) {
        Some(capacity) if capacity < requested => capacity,
        _ => requested,
    }
}

/// The prefix of `buf` that a write at the simulated cursor is allowed to
/// put down. Too long a buffer is cut, never refused.
pub fn clamp<'a>(
    buf: &'a [u8],
    current: Option<u64>,
    start: Option<u64>,
    length: Option<u64>,
) -> (permitted: &'a [u8])
    ensures
        permitted@ == buf@.take(permitted_len(buf@.len(), current, start, length) as int),
{
    assert(buf@.take(buf@.len() as int) =~= buf@);
    match length {
        Some(length) => {
            let position: u64 = effective(current, start);
            let capacity: u64 = if position <= length {
                length - position
            } else {
                0
            };
            if buf.len() as u64 > capacity {
                slice_subrange(buf, 0, capacity as usize)
            } else {
                buf
            }
        },
        None => buf,
    }
}

} // verus!
