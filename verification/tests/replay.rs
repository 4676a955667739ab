use std::io::{Cursor, Seek, Write};
use yadon::{ApplyError, Outcome, Progress, RecordError, Request, SeekFrom, Yadon};

fn to_std(mode: SeekFrom) -> std::io::SeekFrom {
    match mode {
        SeekFrom::Start(offset) => std::io::SeekFrom::Start(offset),
        SeekFrom::End(delta) => std::io::SeekFrom::End(delta),
        SeekFrom::Current(delta) => std::io::SeekFrom::Current(delta),
    }
}

/// Performs each request of a replay on `target` and hands back what it
/// answered, until the replay is over.
fn apply<T>(yadon: &Yadon, target: &mut T, check_return_values: bool) -> Result<usize, ApplyError>
where
    T: Write + Seek,
{
    let mut replay = yadon.apply(check_return_values);
    loop {
        let outcome = match replay.request() {
            Request::Seek(mode) => match target.seek(to_std(mode)) {
                Ok(position) => Outcome::Position(position),
                Err(cause) => Outcome::Failed(cause),
            },
            Request::Write(bytes) => match target.write(bytes) {
                Ok(count) => Outcome::Written(count),
                Err(cause) => Outcome::Failed(cause),
            },
            Request::Flush => match target.flush() {
                Ok(()) => Outcome::Flushed,
                Err(cause) => Outcome::Failed(cause),
            },
        };
        match replay.advance(outcome) {
            Progress::Next(next) => replay = next,
            Progress::Done(result) => return result,
        }
    }
}

fn assert_multi_write<T>(a: &mut T, b: &mut Yadon, buf: &[u8]) -> std::io::Result<usize>
where
    T: Write + Seek,
{
    let result1 = a.write(buf);
    let result2 = b.write(buf);

    match (result1, result2) {
        (Ok(a_bytes), Ok(b_bytes)) => {
            println!("{}, {} written", a_bytes, b_bytes);
            assert_eq!(a_bytes, b_bytes);
            Ok(a_bytes)
        }
        (a_res, b_res) => {
            assert!(false, "results differ: {:?} and {:?}", a_res, b_res);
            a_res
        }
    }
}

fn assert_multi_seek<T>(a: &mut T, b: &mut Yadon, pos: SeekFrom) -> std::io::Result<u64>
where
    T: Write + Seek,
{
    let result1 = a.seek(to_std(pos));
    let result2 = b.seek(pos);

    match (result1, result2) {
        (Ok(a_pos), Ok(b_pos)) => {
            println!("{}, {} seeked", a_pos, b_pos);
            assert_eq!(a_pos, b_pos);
            Ok(a_pos)
        }
        (a_res, b_res) => {
            assert!(false, "results differ: {:?} and {:?}", a_res, b_res);
            a_res
        }
    }
}

#[test]
fn delayed_write() {
    let mut yadon = Yadon::new(Some(0), Some(16));
    assert_eq!(yadon.seek(SeekFrom::Start(4)).unwrap(), 4);
    assert_eq!(yadon.write(&[1, 2, 3]).unwrap(), 3);
    assert_eq!(yadon.seek(SeekFrom::End(-2)).unwrap(), 14);
    assert_eq!(yadon.write(&[4, 5]).unwrap(), 2);
    assert_eq!(yadon.seek(SeekFrom::Current(-6)).unwrap(), 10);
    assert_eq!(yadon.write(&[6, 7, 8]).unwrap(), 3);

    let mut target = vec![0u8; 16];
    let mut target_writer = Cursor::new(&mut target);
    apply(&yadon, &mut target_writer, true).unwrap();
    assert_eq!(target, &[0, 0, 0, 0, 1, 2, 3, 0, 0, 0, 6, 7, 8, 0, 4, 5]);
}

#[test]
fn start_and_end() {
    let mut yadon = Yadon::new(Some(1), Some(4));
    assert_eq!(yadon.seek(SeekFrom::Current(2)).unwrap(), 3);
    yadon.write(&[1]).unwrap();
    assert_eq!(yadon.seek(SeekFrom::End(-3)).unwrap(), 1);
    yadon.write(&[2]).unwrap();

    let mut target = vec![0u8; 4];
    let mut target_writer = Cursor::new(&mut target);
    apply(&yadon, &mut target_writer, true).unwrap();
    assert_eq!(target, &[0, 2, 0, 1]);
}

#[test]
fn unspecified_length_end_seek_fails() {
    let mut yadon = Yadon::new(None, None);
    assert_eq!(yadon.seek(SeekFrom::End(-3)), Err(RecordError::UnsupportedSeek));
}

#[test]
fn unspecified_start_current_seek_assumes_0() {
    let mut yadon = Yadon::new(None, None);
    assert_eq!(yadon.seek(SeekFrom::Current(2)).unwrap(), 2);
}

#[test]
fn too_big_write() {
    let mut now_target = [0u8; 32];
    let mut now = Cursor::new(&mut now_target[..]);
    now.seek(std::io::SeekFrom::Start(1)).unwrap();
    let mut yadon = Yadon::new(Some(1), Some(32));
    // Too big since we start at position 1
    assert_eq!(assert_multi_write(&mut now, &mut yadon, &[1u8; 64]).unwrap(), 31);
    assert_multi_seek(&mut now, &mut yadon, SeekFrom::End(-16)).unwrap();
    assert_eq!(assert_multi_write(&mut now, &mut yadon, &[2u8; 17]).unwrap(), 16);
    assert_multi_seek(&mut now, &mut yadon, SeekFrom::Start(31)).unwrap();
    assert_eq!(assert_multi_write(&mut now, &mut yadon, &[3u8; 2]).unwrap(), 1);
    assert_eq!(assert_multi_write(&mut now, &mut yadon, &[4u8; 2]).unwrap(), 0);
    assert_multi_seek(&mut now, &mut yadon, SeekFrom::End(0)).unwrap();
    assert_eq!(assert_multi_write(&mut now, &mut yadon, &[5u8; 2]).unwrap(), 0);
    assert_multi_write(&mut now, &mut yadon, &[1]).unwrap();
    assert_multi_write(&mut now, &mut yadon, &[1]).unwrap();

    println!("{:?}", yadon);
    let mut later_target = vec![0u8; 32];
    let mut later_writer = Cursor::new(&mut later_target[..]);
    apply(&yadon, &mut later_writer, true).unwrap();
    assert_eq!(&later_target, &now_target);
}

#[test]
fn return_values() {
    let mut now_target = [0u8; 128];
    let mut now = Cursor::new(&mut now_target[..]);
    now.seek(std::io::SeekFrom::Start(27)).unwrap();
    let mut yadon = Yadon::new(Some(27), Some(128));

    assert_multi_seek(&mut now, &mut yadon, SeekFrom::Current(0)).unwrap();
    assert_multi_seek(&mut now, &mut yadon, SeekFrom::Current(4)).unwrap();
    assert_multi_write(&mut now, &mut yadon, &[1, 2, 3, 4, 5]).unwrap();
    assert_multi_seek(&mut now, &mut yadon, SeekFrom::Current(-2)).unwrap();
    assert_multi_write(&mut now, &mut yadon, &[1, 2, 3, 4, 5]).unwrap();
    assert_multi_seek(&mut now, &mut yadon, SeekFrom::Start(27)).unwrap();
    assert_multi_seek(&mut now, &mut yadon, SeekFrom::Current(2)).unwrap();
    assert_multi_write(&mut now, &mut yadon, &[1, 2]).unwrap();
    assert_multi_seek(&mut now, &mut yadon, SeekFrom::End(-12)).unwrap();
    assert_multi_write(&mut now, &mut yadon, &[12; 14]).unwrap();

    let mut later_target = vec![0u8; 128];
    let mut later_writer = Cursor::new(&mut later_target[..]);
    apply(&yadon, &mut later_writer, true).unwrap();
    assert_eq!(&later_target, &now_target);
}

#[test]
fn failed_apply_write_end() {
    // mismatched sizes between yadon and the target
    let mut yadon = Yadon::new(Some(1), Some(4));
    assert_eq!(yadon.seek(SeekFrom::End(-3)).unwrap(), 1);
    yadon.write(&[2]).unwrap();

    let mut target = vec![0u8; 8];
    let mut target_writer = Cursor::new(&mut target);
    // we should be able to successfully apply this if check_return_values is false.
    apply(&yadon, &mut target_writer, false).unwrap();

    // but if it's true, we should get an error
    match apply(&yadon, &mut target_writer, true) {
        Err(ApplyError::SeekDiverged(diff)) => {
            assert_eq!(diff.expected, 1);
            assert_eq!(diff.actual, 5);
        }
        res => {
            assert!(false, "Apply did not fail with a diverged seek: {:?}", res);
        }
    }
}

#[test]
fn apply_smaller_than_target() {
    let mut yadon = Yadon::new(Some(1), Some(4));
    yadon.write(&[0; 6]).unwrap();

    let mut target = vec![0u8; 8];
    let mut target_writer = Cursor::new(&mut target);
    assert_eq!(apply(&yadon, &mut target_writer, true).unwrap(), 3);
}

#[test]
fn failed_apply_write_too_much() {
    // mismatched sizes between yadon and the target
    let mut yadon = Yadon::new(Some(1), Some(8));
    yadon.write(&[0; 6]).unwrap();

    let mut target = [0u8; 4];
    let mut target_writer = Cursor::new(&mut target[..]);

    // we should be able to successfully write this if check_return_values is false.
    apply(&yadon, &mut target_writer, false).unwrap();

    // but if it's true, we should get an error
    match apply(&yadon, &mut target_writer, true) {
        Err(ApplyError::NumBytesWrittenDiverge(diff)) => {
            assert_eq!(diff.expected, 6);
            assert_eq!(diff.actual, 3);
        }
        res => {
            assert!(false, "Apply did not fail with a diverged write: {:?}", res);
        }
    }
}

#[test]
fn cannot_seek_end_without_length() {
    let mut yadon = Yadon::new(Some(3), None);
    yadon.write(&[0; 6]).unwrap();
    assert_eq!(yadon.seek(SeekFrom::End(-2)), Err(RecordError::UnsupportedSeek));
}

#[test]
fn replay_against_the_assumed_target_predicts_its_bytes() {
    // Known start and length, a target of that length: the validated replay
    // succeeds, reports what the recorded writes reported, and leaves the
    // bytes that the writes land on at the simulated positions.
    let mut yadon = Yadon::new(Some(2), Some(10));
    assert_eq!(yadon.write(&[9, 9, 9]).unwrap(), 3);
    assert_eq!(yadon.seek(SeekFrom::End(-1)).unwrap(), 9);
    assert_eq!(yadon.write(&[7, 7, 7]).unwrap(), 1);
    assert_eq!(yadon.seek(SeekFrom::Current(-9)).unwrap(), 1);
    assert_eq!(yadon.write(&[5, 5]).unwrap(), 2);
    assert_eq!(yadon.seek(SeekFrom::Start(20)).unwrap(), 20);
    assert_eq!(yadon.write(&[3]).unwrap(), 0);

    let mut target = [1u8; 10];
    let mut writer = Cursor::new(&mut target[..]);
    writer.seek(std::io::SeekFrom::Start(6)).unwrap();
    assert_eq!(apply(&yadon, &mut writer, true).unwrap(), 6);
    assert_eq!(writer.position(), 20);
    assert_eq!(target, [1, 5, 5, 9, 9, 1, 1, 1, 1, 7]);
}

#[test]
fn replay_twice_ends_alike_and_keeps_the_log() {
    let mut yadon = Yadon::new(Some(0), Some(4));
    yadon.write(&[1, 2]).unwrap();
    yadon.seek(SeekFrom::End(-1)).unwrap();
    yadon.write(&[3, 4]).unwrap();
    let before = format!("{:?}", yadon);

    let mut target = [0u8; 4];
    let mut writer = Cursor::new(&mut target[..]);
    let first = apply(&yadon, &mut writer, true).unwrap();
    let second = apply(&yadon, &mut writer, true).unwrap();
    assert_eq!(first, 3);
    assert_eq!(second, 3);
    assert_eq!(format!("{:?}", yadon), before);
    assert_eq!(yadon.operations.len(), 3);
    assert_eq!(target, [1, 2, 0, 3]);
}

#[test]
fn replay_without_a_start_does_not_seek_first() {
    let mut yadon = Yadon::new(None, Some(8));
    assert_eq!(yadon.write(&[1, 2]).unwrap(), 2);

    let mut target = [0u8; 8];
    let mut writer = Cursor::new(&mut target[..]);
    writer.seek(std::io::SeekFrom::Start(5)).unwrap();
    assert_eq!(apply(&yadon, &mut writer, true).unwrap(), 2);
    assert_eq!(target, [0, 0, 0, 0, 0, 1, 2, 0]);
}

#[test]
fn replay_of_an_empty_log_only_seeks_and_flushes() {
    let yadon = Yadon::new(Some(3), Some(8));
    let mut target = [0u8; 8];
    let mut writer = Cursor::new(&mut target[..]);
    assert_eq!(apply(&yadon, &mut writer, true).unwrap(), 0);
    assert_eq!(writer.position(), 3);
    assert_eq!(target, [0u8; 8]);
}

#[test]
fn start_seek_that_diverges_is_reported() {
    struct Stuck;
    impl Write for Stuck {
        fn write(&mut self, buf: &[u8]) -> std::io::Result<usize> {
            Ok(buf.len())
        }
        fn flush(&mut self) -> std::io::Result<()> {
            Ok(())
        }
    }
    impl Seek for Stuck {
        fn seek(&mut self, _pos: std::io::SeekFrom) -> std::io::Result<u64> {
            Ok(0)
        }
    }

    let mut yadon = Yadon::new(Some(7), None);
    yadon.write(&[1]).unwrap();
    match apply(&yadon, &mut Stuck, true) {
        Err(ApplyError::SeekDiverged(diff)) => {
            assert_eq!(diff.expected, 7);
            assert_eq!(diff.actual, 0);
        }
        res => panic!("expected a diverged seek: {:?}", res),
    }
    assert_eq!(apply(&yadon, &mut Stuck, false).unwrap(), 1);
}

#[test]
fn target_failure_ends_the_replay_with_its_error() {
    let mut yadon = Yadon::new(None, None);
    yadon.write(&[1, 2, 3]).unwrap();
    assert_eq!(yadon.seek(SeekFrom::Current(-3)).unwrap(), 0);
    yadon.write(&[4]).unwrap();

    // The target has room for two bytes only, so the recorded step back by
    // three would lead before its beginning.
    let mut target = [0u8; 8];
    let mut short = Cursor::new(&mut target[..2]);
    match apply(&yadon, &mut short, false) {
        Err(ApplyError::Io(cause)) => {
            assert_eq!(cause.kind(), std::io::ErrorKind::InvalidInput);
        }
        res => panic!("expected an io error: {:?}", res),
    }
    assert_eq!(target, [1, 2, 0, 0, 0, 0, 0, 0]);
}

#[test]
fn recorded_operations_land_where_simulated() {
    let mut target = vec![0u8; 8];
    let mut yadon = Yadon::new(Some(0), Some(target.len() as u64));
    assert_eq!(yadon.seek(SeekFrom::Start(4)).unwrap(), 4);
    assert_eq!(yadon.write(&[1, 2, 3]).unwrap(), 3);
    assert_eq!(yadon.seek(SeekFrom::Current(0)).unwrap(), 7);
    assert_eq!(yadon.seek(SeekFrom::End(-6)).unwrap(), 2);
    assert_eq!(yadon.write(&[4, 5]).unwrap(), 2);
    assert_eq!(yadon.seek(SeekFrom::Current(0)).unwrap(), 4);

    let mut target_writer = Cursor::new(&mut target);
    assert_eq!(apply(&yadon, &mut target_writer, true).unwrap(), 5);
    assert_eq!(target, &[0, 0, 4, 5, 1, 2, 3, 0]);
}
