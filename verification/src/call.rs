//! What the kernel facility is asked, and what it answers.

use vstd::prelude::*;
use crate::error::OsResourceError;
use crate::event::RawEvent;

verus! {

/// A socket of the operating system.
pub type RawSocket = u64;

/// One call that an operation makes, with every argument that it takes. Each
/// of them answers with one integer.
#[derive(Clone, Copy, Debug, PartialEq, Eq)]
pub enum Call {
    /// Put a socket into non-blocking mode. The answer is zero on success.
    SetNonBlocking { sock: RawSocket },
    /// Add a socket to a kernel object, with an interest record.
    Add { handle: usize, sock: RawSocket, record: RawEvent },
    /// Replace the interest record of a socket.
    Modify { handle: usize, sock: RawSocket, record: RawEvent },
    /// Detach a socket from a kernel object. No record is passed.
    Delete { handle: usize, sock: RawSocket },
    /// Post a wake-up to a kernel object: an empty completion packet.
    Post { handle: usize },
    /// Release a kernel object.
    Close { handle: usize },
}

/// The call that waits: until a socket is ready, a wake-up is posted or the
/// timeout ends. The kernel writes no more than `max_events` records and
/// answers with their number. A timeout of `-1` is no timeout, any other is in
/// milliseconds.
#[derive(Clone, Copy, Debug, PartialEq, Eq)]
pub struct WaitCall {
    pub handle: usize,
    pub max_events: i32,
    pub timeout_ms: i32,
}

/// The answer to a call: the value that it returned, and the error code that
/// the operating system holds for the calling thread right after it. The code
/// means something only where the returned value reports a failure.
#[derive(Clone, Copy, Debug, PartialEq, Eq)]
pub struct Reply {
    pub ret: i32,
    pub os_error: i32,
}

impl Reply {
    /// The outcome of a call that reports failure by returning `-1`.
    pub open spec fn sentinel_outcome(self) -> Result<(), OsResourceError> {
        if self.ret == -1 {
            Err(OsResourceError { code: self.os_error })
        } else {
            Ok(())
        }
    }

    /// The outcome of a call that reports success by returning zero.
    pub open spec fn zero_outcome(self) -> Result<(), OsResourceError> {
        if self.ret != 0 {
            Err(OsResourceError { code: self.os_error })
        } else {
            Ok(())
        }
    }
}

} // verus!
