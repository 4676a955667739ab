//! What holds of every recording and of every replay.

use crate::clamp::{available_capacity, room};
use crate::cursor::{effective_position, SeekFrom};
use crate::log::{counts_match, implied_position, recorded_total, simulation_of, LoggedOperation};
use crate::recorder::Recording;
use crate::replay::{ApplyError, Outcome, ReplayState, Step};
use crate::sink::{predicted_bytes, replayed, Sink};
use vstd::prelude::*;

verus! {

/// A write keeps the log well formed: the write that is logged reports
/// exactly the bytes it holds.
pub proof fn lemma_write_keeps_well_formed(recording: Recording, buf: Seq<u8>)
    requires
        recording.well_formed(),
        buf.len() <= usize::MAX,
    ensures
        recording.written(buf).well_formed(),
{
    let after = recording.written(buf);
    assert forall|i: int| 0 <= i < after.log.len() implies (#[trigger] after.log[i])
        .count_matches() by {
        if i < recording.log.len() {
            assert(after.log[i] == recording.log[i]);
        }
    }
}

/// A seek keeps the log well formed, whether it resolves or not.
pub proof fn lemma_seek_keeps_well_formed(recording: Recording, mode: SeekFrom)
    requires
        recording.well_formed(),
    ensures
        recording.sought(mode).well_formed(),
{
    let after = recording.sought(mode);
    assert forall|i: int| 0 <= i < after.log.len() implies (#[trigger] after.log[i])
        .count_matches() by {
        if i < recording.log.len() {
            assert(after.log[i] == recording.log[i]);
        }
    }
}

/// A write keeps a recording faithful to the target it simulates.
pub proof fn lemma_write_keeps_faithful(recording: Recording, buf: Seq<u8>)
    requires
        recording.faithful(),
        buf.len() <= usize::MAX,
    ensures
        recording.written(buf).faithful(),
{
    let after = recording.written(buf);
    assert(after.log.drop_last() =~= recording.log);
}

/// A seek keeps a recording faithful to the target it simulates, whether it
/// resolves or not.
pub proof fn lemma_seek_keeps_faithful(recording: Recording, mode: SeekFrom)
    requires
        recording.faithful(),
    ensures
        recording.sought(mode).faithful(),
{
    let after = recording.sought(mode);
    if recording.resolved(mode) is Some {
        assert(after.log.drop_last() =~= recording.log);
    }
}

/// A faithful recording is well formed.
pub proof fn lemma_faithful_is_well_formed(recording: Recording)
    requires
        recording.faithful(),
    ensures
        recording.well_formed(),
{
    lemma_simulation_counts_match(recording.log, recording.start, recording.length.unwrap());
}

proof fn lemma_simulation_counts_match(log: Seq<LoggedOperation>, start: Option<u64>, length: u64)
    requires
        simulation_of(log, start, length),
    ensures
        counts_match(log),
    decreases log.len(),
{
    if log.len() > 0 {
        lemma_simulation_counts_match(log.drop_last(), start, length);
        assert forall|i: int| 0 <= i < log.len() implies (#[trigger] log[i]).count_matches() by {
            if i < log.len() - 1 {
                assert(log[i] == log.drop_last()[i]);
            }
        }
    }
}

/// A write that finds the cursor within the configured length leaves it
/// within that length.
pub proof fn lemma_write_stays_within_length(recording: Recording, buf: Seq<u8>)
    requires
        recording.length is Some,
        recording.effective_position() <= recording.length.unwrap(),
    ensures
        recording.written(buf).effective_position() <= recording.length.unwrap(),
{
}

/// A write of more bytes than there is room for reports exactly the room as
/// written, and logs exactly that many bytes, the first of the buffer.
pub proof fn lemma_write_is_clamped(recording: Recording, buf: Seq<u8>, capacity: nat)
    requires
        available_capacity(recording.position, recording.start, recording.length) == Some(
            capacity,
        ),
        capacity < buf.len() <= usize::MAX,
    ensures
        recording.permitted_len(buf.len()) == capacity,
        recording.written(buf).log.last() == (LoggedOperation::Write {
            bytes: buf.take(capacity as int),
            count: capacity as usize,
        }),
        buf.take(capacity as int).len() == capacity,
{
}

/// With a length configured, a seek relative to the end resolves to the
/// length moved by the offset, wherever that is a position; with none
/// configured it resolves to nothing.
pub proof fn lemma_seek_from_end(recording: Recording, delta: i64)
    ensures
        match recording.length {
            Some(length) => if 0 <= length + delta <= u64::MAX {
                recording.resolved(SeekFrom::End(delta)) == Some((length + delta) as u64)
            } else {
                recording.resolved(SeekFrom::End(delta)) is None
            },
            None => recording.resolved(SeekFrom::End(delta)) is None,
        },
{
}

/// An outcome never changes what is replayed: the replay that goes on holds
/// the recording and the choice to validate that it began with. The requests
/// made and the results expected are the log's, however often it is
/// replayed.
pub proof fn lemma_replay_keeps_recording(state: ReplayState, outcome: Outcome)
    ensures
        state.advance(outcome) matches Step::Next(next) ==> next.recording == state.recording
            && next.validate == state.validate,
{
}

proof fn lemma_simulation_prefix(
    log: Seq<LoggedOperation>,
    start: Option<u64>,
    length: u64,
    n: int,
)
    requires
        simulation_of(log, start, length),
        0 <= n <= log.len(),
    ensures
        simulation_of(log.take(n), start, length),
    decreases log.len(),
{
    if n < log.len() {
        lemma_simulation_prefix(log.drop_last(), start, length, n);
        assert(log.drop_last().take(n) =~= log.take(n));
    } else {
        assert(log.take(n) =~= log);
    }
}

proof fn lemma_total_prefix(log: Seq<LoggedOperation>, n: int)
    requires
        0 <= n <= log.len(),
    ensures
        recorded_total(log.take(n)) <= recorded_total(log),
    decreases log.len(),
{
    if n < log.len() {
        lemma_total_prefix(log.drop_last(), n);
        assert(log.drop_last().take(n) =~= log.take(n));
    } else {
        assert(log.take(n) =~= log);
    }
}

/// The replay of a faithful recording from the operation at `index` on,
/// against a sink that holds what the operations before it predict.
proof fn lemma_replay_from(
    recording: Recording,
    validate: bool,
    index: nat,
    sink: Sink,
    initial: Seq<u8>,
)
    requires
        recording.faithful(),
        recording.log.len() <= usize::MAX,
        recorded_total(recording.log) <= usize::MAX,
        index <= recording.log.len(),
        sink.bytes.len() == recording.length.unwrap(),
        sink.bytes == predicted_bytes(recording.log.take(index as int), recording.start, initial),
        sink.position == effective_position(
            implied_position(recording.log.take(index as int), recording.start),
            recording.start,
        ),
    ensures
        replayed(
            ReplayState {
                recording,
                stage: ReplayState::stage_at(recording, index),
                written: recorded_total(recording.log.take(index as int)) as usize,
                validate,
            },
            sink,
        ) == Some(
            (
                Ok::<usize, ApplyError>(recorded_total(recording.log) as usize),
                Sink {
                    bytes: predicted_bytes(recording.log, recording.start, initial),
                    position: recording.effective_position() as u64,
                },
            ),
        ),
    decreases recording.log.len() - index,
{
    let log = recording.log;
    let start = recording.start;
    let length = recording.length.unwrap();
    let prefix = log.take(index as int);
    let state = ReplayState {
        recording,
        stage: ReplayState::stage_at(recording, index),
        written: recorded_total(prefix) as usize,
        validate,
    };
    lemma_total_prefix(log, index as int);
    if index == log.len() {
        assert(prefix =~= log);
    } else {
        let longer = log.take(index + 1 as int);
        assert(longer.drop_last() =~= prefix);
        assert(longer.last() == log[index as int]);
        lemma_simulation_prefix(log, start, length, index + 1 as int);
        lemma_total_prefix(log, index + 1 as int);
        let before = implied_position(prefix, start);
        let (outcome, after) = sink.answer(state.demand()).unwrap();
        match log[index as int] {
            LoggedOperation::Write { bytes, count } => {
                assert(count <= room(before, start, length));
                assert(sink.taken(bytes.len()) == count);
                assert(bytes.take(count as int) =~= bytes);
                assert(outcome == Outcome::Written(count));
            },
            LoggedOperation::Seek { mode, position } => {
                assert(outcome == Outcome::Position(position));
            },
        }
        let next = state.settled(
            match log[index as int] {
                LoggedOperation::Write { count, .. } => count,
                LoggedOperation::Seek { .. } => 0,
            },
        );
        assert(state.advance(outcome) == Step::Next(next));
        assert(next.written == recorded_total(longer));
        assert(next.stage == ReplayState::stage_at(recording, index + 1));
        lemma_replay_from(recording, validate, index + 1, after, initial);
    }
}

/// Replaying a faithful recording against the target it simulated succeeds,
/// validated or not: against any sink of the configured length, wherever
/// its cursor stands, the replay ends with the sum of the bytes that the
/// recorded writes reported, and leaves the bytes that the log predicts and
/// the cursor where the simulation left it.
pub proof fn lemma_faithful_replay_succeeds(recording: Recording, validate: bool, sink: Sink)
    requires
        recording.start is Some,
        recording.faithful(),
        recording.log.len() <= usize::MAX,
        recorded_total(recording.log) <= usize::MAX,
        sink.bytes.len() == recording.length.unwrap(),
    ensures
        replayed(ReplayState::begin(recording, validate), sink) == Some(
            (
                Ok::<usize, ApplyError>(recorded_total(recording.log) as usize),
                Sink {
                    bytes: predicted_bytes(recording.log, recording.start, sink.bytes),
                    position: recording.effective_position() as u64,
                },
            ),
        ),
{
    let state = ReplayState::begin(recording, validate);
    let at_start = Sink { position: recording.start.unwrap(), ..sink };
    assert(recording.log.take(0) =~= Seq::empty());
    assert(sink.answer(state.demand()) == Some(
        (Outcome::Position(recording.start.unwrap()), at_start),
    ));
    assert(state.advance(Outcome::Position(recording.start.unwrap())) == Step::Next(
        state.settled(0),
    ));
    lemma_replay_from(recording, validate, 0, at_start, sink.bytes);
}

/// A replay can be repeated: against the sink that a first replay of a
/// faithful recording left, a second one ends as the first did, and leaves
/// the sink as the first left it.
pub proof fn lemma_replay_repeats(recording: Recording, validate: bool, sink: Sink)
    requires
        recording.start is Some,
        recording.faithful(),
        recording.log.len() <= usize::MAX,
        recorded_total(recording.log) <= usize::MAX,
        sink.bytes.len() == recording.length.unwrap(),
    ensures
        ({
            let first = replayed(ReplayState::begin(recording, validate), sink);
            let second = replayed(ReplayState::begin(recording, validate), first.unwrap().1);
            &&& first is Some
            &&& second is Some
            &&& second.unwrap().0 == first.unwrap().0
            &&& second.unwrap().1 == first.unwrap().1
        }),
{
    lemma_faithful_replay_succeeds(recording, validate, sink);
    let left = replayed(ReplayState::begin(recording, validate), sink).unwrap().1;
    lemma_predicted_len(recording.log, recording.start, sink.bytes);
    lemma_faithful_replay_succeeds(recording, validate, left);
    lemma_predicted_twice(recording.log, recording.start, sink.bytes);
}

/// The byte that the writes of a log leave at index `at`, if any of them
/// reaches it: that of the last one that does.
spec fn last_written(log: Seq<LoggedOperation>, start: Option<u64>, at: int) -> Option<u8>
    decreases log.len(),
{
    if log.len() == 0 {
        None
    } else {
        let earlier = last_written(log.drop_last(), start, at);
        match log.last() {
            LoggedOperation::Write { bytes, .. } => {
                let position = effective_position(
                    implied_position(log.drop_last(), start),
                    start,
                );
                if position <= at < position + bytes.len() {
                    Some(bytes[at - position])
                } else {
                    earlier
                }
            },
            LoggedOperation::Seek { .. } => earlier,
        }
    }
}

proof fn lemma_predicted_byte(
    log: Seq<LoggedOperation>,
    start: Option<u64>,
    initial: Seq<u8>,
    at: int,
)
    requires
        0 <= at < initial.len(),
    ensures
        predicted_bytes(log, start, initial)[at] == match last_written(log, start, at) {
            Some(byte) => byte,
            None => initial[at],
        },
    decreases log.len(),
{
    if log.len() > 0 {
        lemma_predicted_byte(log.drop_last(), start, initial, at);
        lemma_predicted_len(log.drop_last(), start, initial);
    }
}

proof fn lemma_predicted_twice(log: Seq<LoggedOperation>, start: Option<u64>, initial: Seq<u8>)
    ensures
        predicted_bytes(log, start, predicted_bytes(log, start, initial)) == predicted_bytes(
            log,
            start,
            initial,
        ),
{
    let once = predicted_bytes(log, start, initial);
    let twice = predicted_bytes(log, start, once);
    lemma_predicted_len(log, start, initial);
    lemma_predicted_len(log, start, once);
    assert forall|at: int| 0 <= at < initial.len() implies twice[at] == once[at] by {
        lemma_predicted_byte(log, start, initial, at);
        lemma_predicted_byte(log, start, once, at);
    }
    assert(twice =~= once);
}

proof fn lemma_predicted_len(log: Seq<LoggedOperation>, start: Option<u64>, initial: Seq<u8>)
    ensures
        predicted_bytes(log, start, initial).len() == initial.len(),
    decreases log.len(),
{
    if log.len() > 0 {
        lemma_predicted_len(log.drop_last(), start, initial);
    }
}

} // verus!
