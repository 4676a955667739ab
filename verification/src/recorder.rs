//! The recorder: a stand-in for a target that is not there yet. It answers
//! writes and seeks as the target is assumed to, and keeps them for later.

use crate::clamp::{clamp, permitted_len};
use crate::cursor::{effective, effective_position, next_position, resolved_position,
    target_position, SeekFrom};
use crate::laws::{lemma_seek_keeps_faithful, lemma_seek_keeps_well_formed,
    lemma_write_keeps_faithful, lemma_write_keeps_well_formed};
use crate::log::{counts_match, implied_position, log_view, simulation_of, LoggedOperation,
    WriteOperation};
use vstd::prelude::*;
use vstd::slice::slice_to_vec;

verus! {

/// Stores write and seek operations to be replayed later.
///
/// If `start` is set, the simulated cursor begins there, and a replay seeks
/// there first. If `length` is set, writes are cut to what a target of that
/// length has room for, and seeks from the end are resolved against it.
#[derive(Debug)]
pub struct Yadon {
    /// Stored operations, in the order they were made.
    pub operations: Vec<WriteOperation>,
    /// The simulated cursor, `None` while nothing has anchored it.
    pub virtual_position: Option<u64>,
    /// The position the target is assumed to start at.
    pub start: Option<u64>,
    /// The length the target is assumed to have.
    pub length: Option<u64>,
}

/// A recorder as a mathematical value.
pub struct Recording {
    pub log: Seq<LoggedOperation>,
    pub position: Option<u64>,
    pub start: Option<u64>,
    pub length: Option<u64>,
}

/// Why an operation could not be recorded.
#[derive(Debug, Clone, Copy, PartialEq, Eq, Structural)]
pub enum RecordError {
    /// The seek resolves to no position: it is relative to the end of a
    /// target of unknown length, or it leads before the beginning or beyond
    /// the largest position there is.
    UnsupportedSeek,
}

impl View for Yadon {
    type V = Recording;

    open spec fn view(&self) -> Recording {
        Recording {
            log: log_view(self.operations@),
            position: self.virtual_position,
            start: self.start,
            length: self.length,
        }
    }
}

impl Recording {
    /// The recording that nothing has been recorded in yet.
    pub open spec fn fresh(start: Option<u64>, length: Option<u64>) -> Recording {
        Recording { log: Seq::empty(), position: None, start, length }
    }

    /// Where the cursor is taken to be.
    pub open spec fn effective_position(self) -> nat {
        effective_position(self.position, self.start)
    }

    /// How many of `requested` bytes a write would take now.
    pub open spec fn permitted_len(self, requested: nat) -> nat {
        permitted_len(requested, self.position, self.start, self.length)
    }

    /// The recording after a write of `buf`: the cursor has moved on by what
    /// was taken, and the log ends with the bytes taken and their number.
    pub open spec fn written(self, buf: Seq<u8>) -> Recording {
        let count = self.permitted_len(buf.len());
        Recording {
            log: self.log.push(
                LoggedOperation::Write { bytes: buf.take(count as int), count: count as usize },
            ),
            position: Some((self.effective_position() + count) as u64),
            ..self
        }
    }

    /// The position that a seek resolves to now, if any.
    pub open spec fn resolved(self, mode: SeekFrom) -> Option<u64> {
        resolved_position(self.position, mode, self.start, self.length)
    }

    /// The recording after a seek. One that resolves moves the cursor and is
    /// logged with the position reached. One that does not resolve is not
    /// logged; it leaves the cursor unknown where the target's length would
    /// have decided, and where it was otherwise.
    pub open spec fn sought(self, mode: SeekFrom) -> Recording {
        match self.resolved(mode) {
            Some(position) => Recording {
                log: self.log.push(LoggedOperation::Seek { mode, position }),
                position: Some(position),
                ..self
            },
            None => Recording {
                position: if target_position(self.position, mode, self.start, self.length)
                    is None {
                    None
                } else {
                    self.position
                },
                ..self
            },
        }
    }

    /// Every write in the log reports exactly the bytes it holds.
    pub open spec fn well_formed(self) -> bool {
        counts_match(self.log)
    }

    /// The recording is what simulating a target of the configured length
    /// leaves behind: the log is such a simulation's, and the cursor is where
    /// the log says.
    pub open spec fn faithful(self) -> bool {
        &&& self.length matches Some(length)
        &&& simulation_of(self.log, self.start, length)
        &&& self.position == implied_position(self.log, self.start)
    }
}

impl Yadon {
    /// Constructs a recorder with an optional `start` position and `length`,
    /// which, if set, should match the target that the operations are meant
    /// for.
    pub fn new(start: Option<u64>, length: Option<u64>) -> (yadon: Yadon)
        ensures
            yadon@ == Recording::fresh(start, length),
            yadon@.well_formed(),
            length is Some ==> yadon@.faithful(),
    {
        let yadon = Yadon { operations: Vec::new(), virtual_position: None, start, length };
        assert(yadon@.log =~= Seq::empty());
        yadon
    }

    /// Records a write. With a length configured the buffer is cut to the
    /// room that is left, which may be none; the bytes that fit are logged
    /// and their number is reported.
    pub fn write(&mut self, buf: &[u8]) -> (written: Result<usize, RecordError>)
        requires
            old(self)@.length is None ==> old(self)@.effective_position() + buf@.len()
                <= u64::MAX,
        ensures
            written == Ok::<usize, RecordError>(old(self)@.permitted_len(buf@.len()) as usize),
            final(self)@ == old(self)@.written(buf@),
            old(self)@.well_formed() ==> final(self)@.well_formed(),
            old(self)@.faithful() ==> final(self)@.faithful(),
    {
        let permitted = clamp(buf, self.virtual_position, self.start, self.length);
        let count = permitted.len();
        let position = effective(self.virtual_position, self.start);
        self.virtual_position = Some(position + count as u64);
        self.operations.push(WriteOperation::Write(slice_to_vec(permitted), count));
        proof {
            vstd::slice::axiom_spec_len(buf);
            assert(self@.log =~= old(self)@.written(buf@).log);
            if old(self)@.well_formed() {
                lemma_write_keeps_well_formed(old(self)@, buf@);
            }
            if old(self)@.faithful() {
                lemma_write_keeps_faithful(old(self)@, buf@);
            }
        }
        Ok(count)
    }

    /// Records nothing: there is nothing buffered to flush.
    pub fn flush(&mut self) -> (flushed: Result<(), RecordError>)
        ensures
            flushed == Ok::<(), RecordError>(()),
            *final(self) == *old(self),
    {
        Ok(())
    }

    /// Records a seek and reports the position it resolves to. A seek that
    /// resolves to no position fails and is not logged.
    pub fn seek(&mut self, pos: SeekFrom) -> (position: Result<u64, RecordError>)
        ensures
            position == match old(self)@.resolved(pos) {
                Some(position) => Ok::<u64, RecordError>(position),
                None => Err(RecordError::UnsupportedSeek),
            },
            final(self)@ == old(self)@.sought(pos),
            old(self)@.well_formed() ==> final(self)@.well_formed(),
            old(self)@.faithful() ==> final(self)@.faithful(),
    {
        proof {
            if old(self)@.well_formed() {
                lemma_seek_keeps_well_formed(old(self)@, pos);
            }
            if old(self)@.faithful() {
                lemma_seek_keeps_faithful(old(self)@, pos);
            }
        }
        match next_position(self.virtual_position, pos, self.start, self.length) {
            Some(position) => {
                self.virtual_position = Some(position);
                self.operations.push(WriteOperation::Seek(pos, position));
                assert(self@.log =~= old(self)@.sought(pos).log);
                Ok(position)
            },
            None => {
                let undecided = match pos {
                    SeekFrom::End(_) => self.length.is_none(),
                    _ => false,
                };
                if undecided {
                    self.virtual_position = None;
                }
                Err(RecordError::UnsupportedSeek)
            },
        }
    }
}

impl Default for Yadon {
    /// A recorder for a target of which nothing is assumed.
    fn default() -> (yadon: Yadon)
        ensures
            yadon@ == Recording::fresh(None, None),
    {
        Yadon::new(None, None)
    }
}

} // verus!
