//! The one error of the reactor, and the sentinel check shared by every call.

use vstd::prelude::*;

verus! {

/// A failed call of the kernel facility, with the error code that the
/// operating system recorded for it.
#[derive(Clone, Copy, Debug, PartialEq, Eq, Structural)]
pub struct OsResourceError {
    pub code: i32,
}

/// What a call that returned `ret` amounts to, when the operating system's
/// last error code for the calling thread reads `os_error`: the value `-1`
/// reports failure, every other value is the call's result.
pub open spec fn checked(ret: i32, os_error: i32) -> Result<i32, OsResourceError> {
    if ret == -1 {
        Err(OsResourceError { code: os_error })
    } else {
        Ok(ret)
    }
}

/// Turns the sentinel return value of a kernel-facility call into a `Result`.
pub fn call_checked(ret: i32, os_error: i32) -> (r: Result<i32, OsResourceError>)
    ensures
        r == checked(ret, os_error),
{
    if ret == -1 {
        Err(OsResourceError { code: os_error })
    } else {
        Ok(ret)
    }
}

} // verus!
