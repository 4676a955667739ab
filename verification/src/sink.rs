//! A target of fixed length as a mathematical value, to say what a replay
//! against the target that was assumed comes to.

use crate::cursor::{effective_position, SeekFrom};
use crate::log::{implied_position, LoggedOperation};
use crate::replay::{ApplyError, Demand, Outcome, ReplayState, Stage, Step};
use vstd::prelude::*;

verus! {

/// `under` with `bytes` laid over it from index `at` on. What would reach
/// beyond the end is left out.
pub open spec fn overlay(under: Seq<u8>, at: nat, bytes: Seq<u8>) -> Seq<u8> {
    Seq::new(
        under.len(),
        |i: int|
            if at <= i < at + bytes.len() {
                bytes[i - at]
            } else {
                under[i]
            },
    )
}

/// The bytes that a log predicts for a target that held `initial`: each
/// recorded write laid over them where the simulated cursor stood.
pub open spec fn predicted_bytes(
    log: Seq<LoggedOperation>,
    start: Option<u64>,
    initial: Seq<u8>,
) -> Seq<u8>
    decreases log.len(),
{
    if log.len() == 0 {
        initial
    } else {
        let before = predicted_bytes(log.drop_last(), start, initial);
        match log.last() {
            LoggedOperation::Write { bytes, .. } => {
                let cursor = implied_position(log.drop_last(), start);
                overlay(before, effective_position(cursor, start), bytes)
            },
            LoggedOperation::Seek { .. } => before,
        }
    }
}

/// A seekable byte sink that cannot grow: the bytes it holds and its cursor.
/// The cursor may stand beyond the end, where nothing can be written.
pub struct Sink {
    pub bytes: Seq<u8>,
    pub position: u64,
}

impl Sink {
    /// How many of `requested` bytes fit between the cursor and the end.
    pub open spec fn taken(self, requested: nat) -> nat {
        let room = if self.position <= self.bytes.len() {
            (self.bytes.len() - self.position) as nat
        } else {
            0
        };
        if requested <= room {
            requested
        } else {
            room
        }
    }

    /// Where a seek would take the cursor, as a mathematical integer.
    pub open spec fn sought(self, mode: SeekFrom) -> int {
        match mode {
            SeekFrom::Start(offset) => offset as int,
            SeekFrom::End(delta) => self.bytes.len() + delta,
            SeekFrom::Current(delta) => self.position + delta,
        }
    }

    /// The sink's answer to a request, and the sink afterwards. `None`
    /// where the sink fails the request: a seek to before the beginning or
    /// beyond the largest position.
    pub open spec fn answer(self, demand: Demand) -> Option<(Outcome, Sink)> {
        match demand {
            Demand::Seek(mode) => {
                let position = self.sought(mode);
                if 0 <= position <= u64::MAX {
                    Some(
                        (
                            Outcome::Position(position as u64),
                            Sink { position: position as u64, ..self },
                        ),
                    )
                } else {
                    None
                }
            },
            Demand::Write(buf) => {
                let count = self.taken(buf.len());
                Some(
                    (
                        Outcome::Written(count as usize),
                        Sink {
                            bytes: overlay(
                                self.bytes,
                                self.position as nat,
                                buf.take(count as int),
                            ),
                            position: (self.position + count) as u64,
                        },
                    ),
                )
            },
            Demand::Flush => Some((Outcome::Flushed, self)),
        }
    }
}

/// The requests that a replay still has to make, the final flush included.
pub open spec fn remaining(state: ReplayState) -> nat {
    match state.stage {
        Stage::Rewind => state.recording.log.len() + 2,
        Stage::Operation(index) => (state.recording.log.len() - index + 1) as nat,
        Stage::Flush => 1,
    }
}

/// The replay carried through against `sink`: how it ends, and the sink it
/// leaves. `None` where the sink fails a request.
pub open spec fn replayed(state: ReplayState, sink: Sink) -> Option<
    (Result<usize, ApplyError>, Sink),
>
    decreases remaining(state),
{
    if !state.valid() {
        None
    } else {
        match sink.answer(state.demand()) {
            Some((outcome, sink)) => match state.advance(outcome) {
                Step::Next(next) => replayed(next, sink),
                Step::Done(result) => Some((result, sink)),
            },
            None => None,
        }
    }
}

} // verus!
