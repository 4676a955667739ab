//! The operation log: what was asked for, in order, and what the simulation
//! answered.

use crate::clamp::room;
use crate::cursor::{effective_position, resolved_position, SeekFrom};
use vstd::prelude::*;

verus! {

/// A write or seek that was recorded, with the result that was simulated for
/// it.
#[derive(Debug)]
pub enum WriteOperation {
    /// The bytes that were taken, and how many the write reported.
    Write(Vec<u8>, usize),
    /// The seek that was asked for, and the position it reported.
    Seek(SeekFrom, u64),
}

/// A recorded operation as a mathematical value.
pub enum LoggedOperation {
    Write { bytes: Seq<u8>, count: usize },
    Seek { mode: SeekFrom, position: u64 },
}

impl View for WriteOperation {
    type V = LoggedOperation;

    open spec fn view(&self) -> LoggedOperation {
        match *self {
            WriteOperation::Write(bytes, count) => LoggedOperation::Write { bytes: bytes@, count },
            WriteOperation::Seek(mode, position) => LoggedOperation::Seek { mode, position },
        }
    }
}

/// A log as the sequence of its operations' views.
pub open spec fn log_view(operations: Seq<WriteOperation>) -> Seq<LoggedOperation> {
    operations.map_values(|operation: WriteOperation| operation@)
}

impl LoggedOperation {
    /// A write reports exactly as many bytes as it holds.
    pub open spec fn count_matches(self) -> bool {
        match self {
            LoggedOperation::Write { bytes, count } => count == bytes.len(),
            LoggedOperation::Seek { .. } => true,
        }
    }
}

/// Every recorded write reports exactly the bytes it holds.
pub open spec fn counts_match(log: Seq<LoggedOperation>) -> bool {
    forall|i: int| 0 <= i < log.len() ==> (#[trigger] log[i]).count_matches()
}

/// The number of bytes that the writes of a log reported, all together.
pub open spec fn recorded_total(log: Seq<LoggedOperation>) -> nat
    decreases log.len(),
{
    if log.len() == 0 {
        0
    } else {
        recorded_total(log.drop_last()) + match log.last() {
            LoggedOperation::Write { count, .. } => count as nat,
            LoggedOperation::Seek { .. } => 0,
        }
    }
}

/// The cursor that the log itself implies: unknown before the first
/// operation, the reported position after a seek, and moved on by the
/// reported count after a write.
pub open spec fn implied_position(log: Seq<LoggedOperation>, start: Option<u64>) -> Option<u64>
    decreases log.len(),
{
    if log.len() == 0 {
        None
    } else {
        match log.last() {
            LoggedOperation::Write { count, .. } => {
                let before = implied_position(log.drop_last(), start);
                Some((effective_position(before, start) + count) as u64)
            },
            LoggedOperation::Seek { position, .. } => Some(position),
        }
    }
}

/// The log is one that the simulation of a target of length `length` writes:
/// every write holds what it reports and fits the room there was, and every
/// seek reports the position that the cursor model resolves it to.
pub open spec fn simulation_of(log: Seq<LoggedOperation>, start: Option<u64>, length: u64) -> bool
    decreases log.len(),
{
    log.len() == 0 || {
        let before = implied_position(log.drop_last(), start);
        &&& simulation_of(log.drop_last(), start, length)
        &&& match log.last() {
            LoggedOperation::Write { bytes, count } => {
                &&& count == bytes.len()
                &&& count <= room(before, start, length)
            },
            LoggedOperation::Seek { mode, position } => resolved_position(
                before,
                mode,
                start,
                Some(length),
            ) == Some(position),
        }
    }
}

} // verus!
