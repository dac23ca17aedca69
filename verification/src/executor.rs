//! Classification core of the process executor. The asynchronous shell
//! spawns the child, writes the request, races completion against the
//! timeout, and reports what happened as a `ProcessEvent`; this module turns
//! that event into the executor's outcome. Exactly one attempt per call, no
//! retries.

use vstd::prelude::*;
use crate::{BridgeError, BridgeResult};

verus! {

/// What one subprocess exchange came to, as reported by the I/O shell.
#[derive(Debug, Clone)]
pub enum ProcessEvent {
    /// The child could not be spawned, or a pipe to it failed;
    /// carries the reported message.
    IoFailed { message: String },
    /// The child did not exit within the configured timeout and was
    /// forcibly terminated; no partial output is carried.
    TimedOut,
    /// The child exited. `code` is its exit status, or `None` when no code
    /// was available (for example, termination by signal); `stdout` is its
    /// standard output decoded as UTF-8, lossily.
    Exited { code: Option<i32>, stdout: String },
}

/// The outcome `classify_event` owes for each event.
pub open spec fn spec_classify_event(event: ProcessEvent, timeout_ms: u64) -> BridgeResult<
    String,
> {
    match event {
        ProcessEvent::IoFailed { message } => Err(BridgeError::Io(message)),
        ProcessEvent::TimedOut => Err(BridgeError::Timeout { duration_ms: timeout_ms }),
        ProcessEvent::Exited { code, stdout } => match code {
            Some(c) => if c == 0 {
                Ok(stdout)
            } else {
                Err(BridgeError::ProcessFailed(c))
            },
            None => Err(BridgeError::ProcessFailed(-1i32)),
        },
    }
}

/// Classifies one exchange: a timeout becomes `Timeout` carrying the
/// configured duration; a non-zero or unavailable exit code becomes
/// `ProcessFailed` with that code (or the sentinel `-1`); a zero exit hands
/// the captured standard output on for decoding.
pub fn classify_event(event: ProcessEvent, timeout_ms: u64) -> (r: BridgeResult<String>)
    requires
        timeout_ms > 0,
    ensures
        r == spec_classify_event(event, timeout_ms),
{
    match event {
        ProcessEvent::IoFailed { message } => Err(BridgeError::Io(message)),
        ProcessEvent::TimedOut => Err(BridgeError::Timeout { duration_ms: timeout_ms }),
        ProcessEvent::Exited { code, stdout } => match code {
            Some(c) => if c == 0 {
                Ok(stdout)
            } else {
                Err(BridgeError::ProcessFailed(c))
            },
            None => Err(BridgeError::ProcessFailed(-1)),
        },
    }
}

} // verus!
