//! Records writes and seeks against a bounded output that does not exist yet,
//! simulating the cursor of the eventual target, and replays the recorded
//! operations later, optionally holding the target to the simulated results.

pub mod clamp;
pub mod cursor;
pub mod laws;
pub mod log;
pub mod recorder;
pub mod replay;
pub mod sink;

pub use cursor::SeekFrom;
pub use log::WriteOperation;
pub use recorder::{RecordError, Yadon};
pub use replay::{ApplyError, Confusion, Outcome, Progress, Replay, Request, Stage};
