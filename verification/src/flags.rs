//! The readiness flags of the kernel facility, and the masks built from them.

use vstd::prelude::*;

verus! {

/// Data other than high-priority data can be read.
pub const EPOLLIN: u32 = 0x0001;

/// High-priority data can be read.
pub const EPOLLPRI: u32 = 0x0002;

/// Data can be written.
pub const EPOLLOUT: u32 = 0x0004;

/// An error has occurred on the socket.
pub const EPOLLERR: u32 = 0x0008;

/// The socket was hung up.
pub const EPOLLHUP: u32 = 0x0010;

/// The peer closed its end, or shut down its writing half.
pub const EPOLLRDHUP: u32 = 0x2000;

/// The interest is disarmed after one report.
pub const EPOLLONESHOT: u32 = 0x8000_0000;

/// Every flag that counts as readability.
pub const READ_FLAGS: u32 = EPOLLIN | EPOLLRDHUP | EPOLLHUP | EPOLLERR | EPOLLPRI;

/// Every flag that counts as writability.
pub const WRITE_FLAGS: u32 = EPOLLOUT | EPOLLHUP | EPOLLERR;

/// The flags that an interest record carries: the one-shot flag always, the
/// read flags if `read` is wanted, the write flags if `write` is wanted.
pub open spec fn interest_mask(read: bool, write: bool) -> u32 {
    EPOLLONESHOT | (if read { READ_FLAGS } else { 0 }) | (if write { WRITE_FLAGS } else { 0 })
}

/// Whether a reported flag word counts as readable.
pub open spec fn is_readable(events: u32) -> bool {
    events & READ_FLAGS != 0
}

/// Whether a reported flag word counts as writable.
pub open spec fn is_writable(events: u32) -> bool {
    events & WRITE_FLAGS != 0
}

/// Computes the flags of an interest record.
pub fn interest_flags(read: bool, write: bool) -> (flags: u32)
    ensures
        flags == interest_mask(read, write),
{
    let mut flags: u32 = EPOLLONESHOT;
    if read {
        flags = flags | READ_FLAGS;
    }
    if write {
        flags = flags | WRITE_FLAGS;
    }
    proof {
        let one: u32 = EPOLLONESHOT;
        let r: u32 = READ_FLAGS;
        let w: u32 = WRITE_FLAGS;
        assert(one | 0 == one) by (bit_vector);
        assert((one | r) | 0 == one | r) by (bit_vector);
        assert((one | 0) | w == one | w) by (bit_vector);
    }
    flags
}

/// Tests a reported flag word for readability.
pub fn readable(events: u32) -> (r: bool)
    ensures
        r == is_readable(events),
{
    events & READ_FLAGS != 0
}

/// Tests a reported flag word for writability.
pub fn writable(events: u32) -> (w: bool)
    ensures
        w == is_writable(events),
{
    events & WRITE_FLAGS != 0
}

/// Every interest record is one-shot, whatever directions are wanted: the
/// kernel disarms it after its first report, and only a new interest record
/// arms the socket again.
pub proof fn lemma_interest_is_one_shot(read: bool, write: bool)
    ensures
        interest_mask(read, write) & EPOLLONESHOT == EPOLLONESHOT,
{
    assert(interest_mask(read, write) & EPOLLONESHOT == EPOLLONESHOT) by (bit_vector);
}

/// An interest record asks for exactly the directions that are wanted: with
/// the one-shot flag left aside it holds the read flags if and only if `read`
/// is wanted, the write flags if and only if `write` is wanted, and nothing
/// else; with neither wanted it holds no readiness flag at all.
pub proof fn lemma_interest_directions(read: bool, write: bool)
    ensures
        interest_mask(read, write) & EPOLLIN != 0 <==> read,
        interest_mask(read, write) & EPOLLOUT != 0 <==> write,
        read ==> interest_mask(read, write) & READ_FLAGS == READ_FLAGS,
        write ==> interest_mask(read, write) & WRITE_FLAGS == WRITE_FLAGS,
        interest_mask(read, write) & !(EPOLLONESHOT | READ_FLAGS | WRITE_FLAGS) == 0,
        !read && !write ==> interest_mask(read, write) == EPOLLONESHOT,
{
    assert(interest_mask(read, write) & EPOLLIN != 0 <==> read) by (bit_vector);
    assert(interest_mask(read, write) & EPOLLOUT != 0 <==> write) by (bit_vector);
    assert(read ==> interest_mask(read, write) & READ_FLAGS == READ_FLAGS) by (bit_vector);
    assert(write ==> interest_mask(read, write) & WRITE_FLAGS == WRITE_FLAGS) by (bit_vector);
    assert(interest_mask(read, write) & !(EPOLLONESHOT | READ_FLAGS | WRITE_FLAGS) == 0)
        by (bit_vector);
    assert(!read && !write ==> interest_mask(read, write) == EPOLLONESHOT) by (bit_vector);
}

/// An error or a hang-up counts as both readable and writable, whichever
/// direction was asked for.
pub proof fn lemma_error_or_hangup_is_both(events: u32)
    requires
        events & (EPOLLERR | EPOLLHUP) != 0,
    ensures
        is_readable(events),
        is_writable(events),
{
    assert(events & (EPOLLERR | EPOLLHUP) != 0 ==> events & READ_FLAGS != 0 && events
        & WRITE_FLAGS != 0) by (bit_vector);
}

/// A report for a socket that was armed for reading alone: the report is not
/// empty and holds read flags only. It is readable, and it is writable exactly
/// when it holds an error or a hang-up.
pub proof fn lemma_read_interest_report(events: u32)
    requires
        events != 0,
        events & !READ_FLAGS == 0,
    ensures
        is_readable(events),
        is_writable(events) <==> events & (EPOLLERR | EPOLLHUP) != 0,
{
    assert(events != 0 && events & !READ_FLAGS == 0 ==> events & READ_FLAGS != 0) by (bit_vector);
    assert(events & !READ_FLAGS == 0 ==> (events & WRITE_FLAGS != 0 <==> events & (EPOLLERR
        | EPOLLHUP) != 0)) by (bit_vector);
}

/// The mirror image: a report for a socket that was armed for writing alone is
/// writable, and it is readable exactly when it holds an error or a hang-up.
pub proof fn lemma_write_interest_report(events: u32)
    requires
        events != 0,
        events & !WRITE_FLAGS == 0,
    ensures
        is_writable(events),
        is_readable(events) <==> events & (EPOLLERR | EPOLLHUP) != 0,
{
    assert(events != 0 && events & !WRITE_FLAGS == 0 ==> events & WRITE_FLAGS != 0)
        by (bit_vector);
    assert(events & !WRITE_FLAGS == 0 ==> (events & READ_FLAGS != 0 <==> events & (EPOLLERR
        | EPOLLHUP) != 0)) by (bit_vector);
}

} // verus!
