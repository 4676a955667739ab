//! The replayer: hands the recorded operations out one at a time, takes what
//! the target answered, and decides whether to go on.
//!
//! The target itself stays outside. Whoever holds it performs each
//! [`Request`] and reports the [`Outcome`]; the order of the requests, the
//! comparison with the recorded results and the sum of the bytes written are
//! decided here.

use crate::cursor::SeekFrom;
use crate::log::{LoggedOperation, WriteOperation};
use crate::recorder::{Recording, Yadon};
use vstd::prelude::*;

verus! {

/// `std::io::Error`, the failure that a target reports. It is carried
/// through as it came: nothing is read from it and nothing is claimed of it.
#[verifier::external_type_specification]
#[verifier::external_body]
pub struct ExIoError(std::io::Error);

/// A result that was simulated when an operation was recorded, and the
/// result that the target gave when the operation was replayed.
#[derive(Debug)]
pub struct Confusion<T> {
    /// The value that was reported when the operation was recorded.
    pub expected: T,
    /// The value that the target reported.
    pub actual: T,
}

/// Errors that end a replay.
#[derive(Debug)]
pub enum ApplyError {
    /// The target failed to perform a request.
    Io(std::io::Error),
    /// A seek left the target at another position than was simulated.
    SeekDiverged(Confusion<u64>),
    /// The target took another number of bytes than was simulated.
    NumBytesWrittenDiverge(Confusion<usize>),
}

/// What a replay asks of the target.
#[derive(Debug)]
pub enum Request<'a> {
    /// Seek, and report the position reached.
    Seek(SeekFrom),
    /// Write these bytes, and report how many were taken.
    Write(&'a [u8]),
    /// Flush what is buffered.
    Flush,
}

/// A request as a mathematical value.
pub enum Demand {
    Seek(SeekFrom),
    Write(Seq<u8>),
    Flush,
}

impl<'a> View for Request<'a> {
    type V = Demand;

    open spec fn view(&self) -> Demand {
        match *self {
            Request::Seek(mode) => Demand::Seek(mode),
            Request::Write(bytes) => Demand::Write(bytes@),
            Request::Flush => Demand::Flush,
        }
    }
}

/// What the target answered to a request.
#[derive(Debug)]
pub enum Outcome {
    /// A seek succeeded and reached this position.
    Position(u64),
    /// A write succeeded and took this many bytes.
    Written(usize),
    /// A flush succeeded.
    Flushed,
    /// The request failed.
    Failed(std::io::Error),
}

/// Where a replay stands: what it asks for next.
#[derive(Debug, Clone, Copy, PartialEq, Eq, Structural)]
pub enum Stage {
    /// The seek to the configured start, before anything else.
    Rewind,
    /// The recorded operation with this index.
    Operation(usize),
    /// The flush that ends the replay.
    Flush,
}

/// A replay in progress, as a mathematical value.
pub struct ReplayState {
    /// The recording that is replayed.
    pub recording: Recording,
    pub stage: Stage,
    /// The bytes that the target has taken so far.
    pub written: usize,
    /// Whether the target's answers are held to the recorded results.
    pub validate: bool,
}

/// What follows an outcome: the replay goes on, or it has ended with a sum
/// of bytes written or an error.
pub enum Step {
    Next(ReplayState),
    Done(Result<usize, ApplyError>),
}

impl ReplayState {
    /// The stage that asks for the operation at `index`, or for the final
    /// flush when the log has no such operation.
    pub open spec fn stage_at(recording: Recording, index: nat) -> Stage {
        if index < recording.log.len() {
            Stage::Operation(index as usize)
        } else {
            Stage::Flush
        }
    }

    /// A replay that has asked for nothing yet.
    pub open spec fn begin(recording: Recording, validate: bool) -> ReplayState {
        ReplayState {
            recording,
            stage: if recording.start is Some {
                Stage::Rewind
            } else {
                Self::stage_at(recording, 0)
            },
            written: 0,
            validate,
        }
    }

    /// The log is one that a machine can index, and the stage stands for
    /// something that the recording holds.
    pub open spec fn valid(self) -> bool {
        &&& self.recording.log.len() <= usize::MAX
        &&& match self.stage {
            Stage::Rewind => self.recording.start is Some,
            Stage::Operation(index) => index < self.recording.log.len(),
            Stage::Flush => true,
        }
    }

    /// What the replay asks of the target at this stage.
    pub open spec fn demand(self) -> Demand {
        match self.stage {
            Stage::Rewind => Demand::Seek(SeekFrom::Start(self.recording.start.unwrap())),
            Stage::Operation(index) => match self.recording.log[index as int] {
                LoggedOperation::Write { bytes, .. } => Demand::Write(bytes),
                LoggedOperation::Seek { mode, .. } => Demand::Seek(mode),
            },
            Stage::Flush => Demand::Flush,
        }
    }

    /// The position that the seek asked for at this stage was simulated to
    /// reach; `None` where the stage asks for no seek.
    pub open spec fn expected_position(self) -> Option<u64> {
        match self.stage {
            Stage::Rewind => self.recording.start,
            Stage::Operation(index) => match self.recording.log[index as int] {
                LoggedOperation::Seek { position, .. } => Some(position),
                LoggedOperation::Write { .. } => None,
            },
            Stage::Flush => None,
        }
    }

    /// The number of bytes that the write asked for at this stage was
    /// simulated to put down; `None` where the stage asks for no write.
    pub open spec fn expected_count(self) -> Option<usize> {
        match self.stage {
            Stage::Operation(index) => match self.recording.log[index as int] {
                LoggedOperation::Write { count, .. } => Some(count),
                LoggedOperation::Seek { .. } => None,
            },
            _ => None,
        }
    }

    /// The replay once the request of this stage is settled and `count`
    /// more bytes have been written.
    pub open spec fn settled(self, count: usize) -> ReplayState {
        ReplayState {
            stage: match self.stage {
                Stage::Rewind => Self::stage_at(self.recording, 0),
                Stage::Operation(index) => Self::stage_at(self.recording, (index + 1) as nat),
                Stage::Flush => Stage::Flush,
            },
            written: (self.written + count) as usize,
            ..self
        }
    }

    /// What follows when the target answers `outcome` to the request of this
    /// stage.
    ///
    /// A failure ends the replay with the target's error. A position or a
    /// count that differs from the recorded one ends a validating replay
    /// with both values; otherwise the replay moves on, and a count is added
    /// to the bytes written. The flush that succeeds ends the replay with
    /// that sum. An outcome that answers another kind of request than the
    /// one made settles nothing.
    pub open spec fn advance(self, outcome: Outcome) -> Step {
        match outcome {
            Outcome::Failed(cause) => Step::Done(Err(ApplyError::Io(cause))),
            Outcome::Position(actual) => match self.expected_position() {
                Some(expected) => if self.validate && actual != expected {
                    Step::Done(Err(ApplyError::SeekDiverged(Confusion { expected, actual })))
                } else {
                    Step::Next(self.settled(0))
                },
                None => Step::Next(self),
            },
            Outcome::Written(actual) => match self.expected_count() {
                Some(expected) => if self.validate && actual != expected {
                    Step::Done(
                        Err(ApplyError::NumBytesWrittenDiverge(Confusion { expected, actual })),
                    )
                } else {
                    Step::Next(self.settled(actual))
                },
                None => Step::Next(self),
            },
            Outcome::Flushed => if self.stage is Flush {
                Step::Done(Ok(self.written))
            } else {
                Step::Next(self)
            },
        }
    }
}

/// A replay of a recorder's log that is under way.
///
/// It borrows the recorder, so that nothing can be recorded until the replay
/// is over, and leaves it as it was: the same log can be replayed again.
#[derive(Debug)]
pub struct Replay<'a> {
    yadon: &'a Yadon,
    stage: Stage,
    written: usize,
    validate: bool,
}

/// What follows an outcome.
#[derive(Debug)]
pub enum Progress<'a> {
    /// The replay goes on: ask it for the next request.
    Next(Replay<'a>),
    /// The replay is over: the bytes written in all, or why it stopped.
    Done(Result<usize, ApplyError>),
}

impl<'a> View for Replay<'a> {
    type V = ReplayState;

    closed spec fn view(&self) -> ReplayState {
        ReplayState {
            recording: self.yadon@,
            stage: self.stage,
            written: self.written,
            validate: self.validate,
        }
    }
}

impl<'a> View for Progress<'a> {
    type V = Step;

    open spec fn view(&self) -> Step {
        match *self {
            Progress::Next(replay) => Step::Next(replay@),
            Progress::Done(result) => Step::Done(result),
        }
    }
}

impl Yadon {
    /// Begins to apply the stored operations to a target. The operations are
    /// not consumed, and may be replayed again.
    ///
    /// If a start position was specified, the replay seeks there first. If
    /// `check_return_values` is set, the result of each seek and write is
    /// compared to the simulated one, and the replay ends at the first that
    /// differs.
    pub fn apply<'a>(&'a self, check_return_values: bool) -> (replay: Replay<'a>)
        ensures
            replay@ == ReplayState::begin(self@, check_return_values),
            replay@.valid(),
    {
        let len = self.operations.len();
        let stage = if self.start.is_some() {
            Stage::Rewind
        } else if 0 < len {
            Stage::Operation(0)
        } else {
            Stage::Flush
        };
        Replay { yadon: self, stage, written: 0, validate: check_return_values }
    }
}

impl<'a> Replay<'a> {
    #[verifier::type_invariant]
    spec fn stage_is_valid(self) -> bool {
        self@.valid()
    }

    /// The bytes that the target has taken so far.
    pub fn written(&self) -> (written: usize)
        ensures
            written == self@.written,
    {
        self.written
    }

    /// What to ask of the target next.
    pub fn request(&self) -> (request: Request<'a>)
        ensures
            request@ == self@.demand(),
    {
        proof {
            use_type_invariant(self);
        }
        match self.stage {
            Stage::Rewind => match self.yadon.start {
                Some(start) => Request::Seek(SeekFrom::Start(start)),
                None => Request::Flush,
            },
            Stage::Operation(index) => match &self.yadon.operations[index] {
                WriteOperation::Write(bytes, _) => Request::Write(bytes.as_slice()),
                WriteOperation::Seek(mode, _) => Request::Seek(*mode),
            },
            Stage::Flush => Request::Flush,
        }
    }

    /// Takes the target's answer to the last request and says what follows.
    pub fn advance(self, outcome: Outcome) -> (progress: Progress<'a>)
        requires
            outcome matches Outcome::Written(count) ==> self@.written + count <= usize::MAX,
        ensures
            progress@ == self@.advance(outcome),
            progress@ matches Step::Next(next) ==> next.valid(),
    {
        proof {
            use_type_invariant(&self);
        }
        match outcome {
            Outcome::Failed(cause) => Progress::Done(Err(ApplyError::Io(cause))),
            Outcome::Position(actual) => {
                let expected = match self.stage {
                    Stage::Rewind => self.yadon.start,
                    Stage::Operation(index) => match &self.yadon.operations[index] {
                        WriteOperation::Seek(_, position) => Some(*position),
                        WriteOperation::Write(_, _) => None,
                    },
                    Stage::Flush => None,
                };
                match expected {
                    Some(expected) => if self.validate && actual != expected {
                        Progress::Done(
                            Err(ApplyError::SeekDiverged(Confusion { expected, actual })),
                        )
                    } else {
                        Progress::Next(self.settle(0))
                    },
                    None => Progress::Next(self),
                }
            },
            Outcome::Written(actual) => {
                let expected = match self.stage {
                    Stage::Operation(index) => match &self.yadon.operations[index] {
                        WriteOperation::Write(_, count) => Some(*count),
                        WriteOperation::Seek(_, _) => None,
                    },
                    _ => None,
                };
                match expected {
                    Some(expected) => if self.validate && actual != expected {
                        Progress::Done(
                            Err(
                                ApplyError::NumBytesWrittenDiverge(
                                    Confusion { expected, actual },
                                ),
                            ),
                        )
                    } else {
                        Progress::Next(self.settle(actual))
                    },
                    None => Progress::Next(self),
                }
            },
            Outcome::Flushed => match self.stage {
                Stage::Flush => Progress::Done(Ok(self.written)),
                _ => Progress::Next(self),
            },
        }
    }

    /// Moves on to the stage after this one, with `count` more bytes written.
    fn settle(self, count: usize) -> (next: Replay<'a>)
        requires
            self@.written + count <= usize::MAX,
        ensures
            next@ == self@.settled(count),
            next@.valid(),
    {
        proof {
            use_type_invariant(&self);
        }
        let len = self.yadon.operations.len();
        let index: usize = match self.stage {
            Stage::Rewind => 0,
            Stage::Operation(index) => index + 1,
            Stage::Flush => len,
        };
        let stage = if index < len {
            Stage::Operation(index)
        } else {
            Stage::Flush
        };
        Replay { yadon: self.yadon, stage, written: self.written + count, validate: self.validate }
    }
}

} // verus!
