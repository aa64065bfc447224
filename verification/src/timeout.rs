//! How long a wait may block, in the unit that the kernel facility counts in.

use vstd::prelude::*;
use std::time::Duration;

verus! {

/// The kernel's timeout for a wait that blocks until something happens.
pub const FOREVER: i32 = -1;

/// The longest timeout that the kernel facility takes, in milliseconds.
pub const MAX_MILLIS: i32 = i32::MAX;

/// The nanoseconds in a millisecond.
pub const NANOS_PER_MILLI: u128 = 1_000_000;

/// The time that a `Duration` spans, in whole nanoseconds.
pub uninterp spec fn duration_nanos(d: Duration) -> nat;

/// `Duration::as_nanos` returns the total number of nanoseconds that the
/// duration holds. The contract gives that number its name and claims nothing
/// more of it.
pub assume_specification[ Duration::as_nanos ](d: &Duration) -> (nanos: u128)
    ensures
        nanos == duration_nanos(*d),
;

/// The nanoseconds of an optional timeout.
pub open spec fn timeout_nanos(timeout: Option<Duration>) -> Option<nat> {
    match timeout {
        None => None,
        Some(d) => Some(duration_nanos(d)),
    }
}

/// The milliseconds that a wait of `nanos` nanoseconds is given. Zero stays
/// zero: such a wait only polls. Any longer time is at least one millisecond,
/// so that it never turns into a poll; from one millisecond on, the part of a
/// millisecond is dropped; and what the kernel's counter cannot hold is the
/// counter's maximum.
pub open spec fn quantized_millis(nanos: nat) -> int {
    if nanos == 0 {
        0
    } else if nanos < NANOS_PER_MILLI {
        1
    } else if nanos / (NANOS_PER_MILLI as nat) > MAX_MILLIS {
        MAX_MILLIS as int
    } else {
        (nanos / (NANOS_PER_MILLI as nat)) as int
    }
}

/// The kernel's timeout for an optional time given in nanoseconds: no time
/// means no limit.
pub open spec fn timeout_of(nanos: Option<nat>) -> int {
    match nanos {
        None => FOREVER as int,
        Some(n) => quantized_millis(n),
    }
}

/// Rounds a time in nanoseconds to the kernel's milliseconds.
pub fn quantize(nanos: u128) -> (millis: i32)
    ensures
        millis == quantized_millis(nanos as nat),
{
    if nanos == 0 {
        0
    } else if nanos < NANOS_PER_MILLI {
        1
    } else {
        let whole: u128 = nanos / NANOS_PER_MILLI;
        if whole > 0x7fff_ffff {
            MAX_MILLIS
        } else {
            whole as i32
        }
    }
}

/// Converts the optional timeout of a wait to the kernel's milliseconds.
pub fn timeout_millis(timeout: Option<Duration>) -> (millis: i32)
    ensures
        millis == timeout_of(timeout_nanos(timeout)),
{
    match timeout {
        None => FOREVER,
        Some(d) => quantize(d.as_nanos()),
    }
}

/// A zero timeout polls, and only a zero timeout does: every other time, even
/// one below a millisecond, waits for at least a millisecond. No time is given
/// more than the kernel's maximum, nor more than it asked for once it asks for
/// a millisecond or more.
pub proof fn lemma_quantization(nanos: nat)
    ensures
        quantized_millis(nanos) == 0 <==> nanos == 0,
        0 < nanos < NANOS_PER_MILLI ==> quantized_millis(nanos) == 1,
        nanos > 0 ==> 1 <= quantized_millis(nanos) <= MAX_MILLIS,
        nanos >= NANOS_PER_MILLI ==> quantized_millis(nanos) * NANOS_PER_MILLI <= nanos,
        nanos >= NANOS_PER_MILLI && nanos < (MAX_MILLIS + 1) * NANOS_PER_MILLI
            ==> nanos - NANOS_PER_MILLI < quantized_millis(nanos) * NANOS_PER_MILLI,
        nanos >= MAX_MILLIS * NANOS_PER_MILLI ==> quantized_millis(nanos) == MAX_MILLIS,
{
}

/// A longer time is never given a shorter wait.
pub proof fn lemma_quantization_monotonic(shorter: nat, longer: nat)
    requires
        shorter <= longer,
    ensures
        quantized_millis(shorter) <= quantized_millis(longer),
{
}

/// Only a wait without a timeout is told to block without limit.
pub proof fn lemma_forever_only_without_timeout(nanos: Option<nat>)
    ensures
        timeout_of(nanos) == FOREVER <==> nanos is None,
        nanos is Some ==> 0 <= timeout_of(nanos) <= MAX_MILLIS,
{
}

} // verus!
