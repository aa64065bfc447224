//! The reactor: one kernel object, and the operations on it.
//!
//! The reactor makes no call itself. Each method says which call is to be
//! made, and a second function reads the answer. Every method borrows the
//! reactor immutably: nothing in it changes after it is made, and all state is
//! the kernel's.

use vstd::prelude::*;
use std::time::Duration;
use crate::call::{Call, RawSocket, Reply, WaitCall};
use crate::error::{call_checked, OsResourceError};
use crate::event::{decode, Event, RawEvent};
use crate::events::{Events, CAPACITY};
use crate::flags::{interest_flags, interest_mask};
use crate::operation::Operation;
use crate::timeout::{timeout_millis, timeout_nanos, timeout_of};

verus! {

/// The I/O reactor. It owns the handle of one kernel object.
pub struct Reactor {
    handle: usize,
}

impl View for Reactor {
    type V = usize;

    /// The handle of the kernel object.
    closed spec fn view(&self) -> usize {
        self.handle
    }
}

/// What a wait may be answered with: `-1`, or the number of records that the
/// kernel wrote, which is no more than it was given room for.
pub open spec fn wait_answered(reply: Reply, records: Seq<RawEvent>) -> bool {
    reply.ret == -1 || (0 <= reply.ret <= records.len() && reply.ret <= CAPACITY)
}

/// The result of a wait: the number of records that the kernel counted, or
/// the error of the call.
pub open spec fn wait_outcome(reply: Reply) -> Result<usize, OsResourceError> {
    if reply.ret == -1 {
        Err(OsResourceError { code: reply.os_error })
    } else {
        Ok(reply.ret as usize)
    }
}

/// The events that a buffer shows after a wait. A failed wait leaves what the
/// buffer showed before. Any other wait replaces it by the events of the
/// records that the kernel counted, in the kernel's order.
pub open spec fn events_after_wait(before: Seq<Event>, reply: Reply, records: Seq<RawEvent>) -> Seq<
    Event,
> {
    if reply.ret == -1 {
        before
    } else {
        decode(records.take(reply.ret as int))
    }
}

impl Reactor {
    #[verifier::type_invariant]
    spec fn inv(&self) -> bool {
        self.handle != 0
    }

    /// Creates a new reactor from what the allocation of a kernel object
    /// returned: the handle, and the thread's error code after the call. A
    /// null handle is a failure, and any other handle becomes the reactor's
    /// own.
    pub fn new(handle: usize, os_error: i32) -> (reactor: Result<Reactor, OsResourceError>)
        ensures
            handle == 0 ==> reactor == Err::<Reactor, OsResourceError>(
                OsResourceError { code: os_error },
            ),
            handle != 0 ==> reactor is Ok && reactor->Ok_0@ == handle,
    {
        if handle == 0 {
            Err(OsResourceError { code: os_error })
        } else {
            Ok(Reactor { handle })
        }
    }

    /// The handle of the kernel object. It is never null.
    pub fn handle(&self) -> (handle: usize)
        ensures
            handle == self@,
            handle != 0,
    {
        proof {
            use_type_invariant(self);
        }
        self.handle
    }

    /// Inserts a socket: first the socket is put into non-blocking mode, then
    /// it is added to the kernel object, without any interest.
    pub fn insert(&self, sock: RawSocket) -> (op: Operation)
        ensures
            op == (Operation::Unblocking { handle: self@, sock }),
    {
        Operation::Unblocking { handle: self.handle, sock }
    }

    /// Adds interest in a read/write event on a socket and associates a key
    /// with it. The record replaces the socket's earlier one, key included,
    /// and is one-shot.
    pub fn interest(&self, sock: RawSocket, key: u64, read: bool, write: bool) -> (op: Operation)
        ensures
            op == (Operation::Arming {
                handle: self@,
                sock,
                record: RawEvent { events: interest_mask(read, write), data: key },
            }),
    {
        let record = RawEvent { events: interest_flags(read, write), data: key };
        Operation::Arming { handle: self.handle, sock, record }
    }

    /// Removes a socket.
    pub fn remove(&self, sock: RawSocket) -> (op: Operation)
        ensures
            op == (Operation::Removing { handle: self@, sock }),
    {
        Operation::Removing { handle: self.handle, sock }
    }

    /// Sends a notification to wake up the current or next wait.
    pub fn notify(&self) -> (op: Operation)
        ensures
            op == (Operation::Posting { handle: self@ }),
    {
        Operation::Posting { handle: self.handle }
    }

    /// The call that waits for events with an optional timeout. The kernel may
    /// write as many records as the buffer holds.
    pub fn wait(&self, events: &Events, timeout: Option<Duration>) -> (call: WaitCall)
        requires
            events.wf(),
        ensures
            call == (WaitCall {
                handle: self@,
                max_events: CAPACITY as i32,
                timeout_ms: timeout_of(timeout_nanos(timeout)) as i32,
            }),
    {
        let max_events: i32 = events.capacity() as i32;
        WaitCall { handle: self.handle, max_events, timeout_ms: timeout_millis(timeout) }
    }

    /// Reads the answer to a `WaitCall`, with the records that the kernel
    /// wrote.
    ///
    /// A failed wait leaves the buffer as it was. Otherwise the buffer holds
    /// the records that the kernel counted, and nothing of what it held before;
    /// the count is returned. A wake-up is no record: a wait that was only
    /// woken up has counted none.
    pub fn waited(events: &mut Events, reply: Reply, records: &[RawEvent]) -> (count: Result<
        usize,
        OsResourceError,
    >)
        requires
            old(events).wf(),
            wait_answered(reply, records@),
        ensures
            final(events).wf(),
            count == wait_outcome(reply),
            final(events)@ == events_after_wait(old(events)@, reply, records@),
            reply.ret == -1 ==> *final(events) == *old(events),
            reply.ret != -1 ==> final(events).records() == records@.take(reply.ret as int),
    {
        match call_checked(reply.ret, reply.os_error) {
            Err(e) => Err(e),
            Ok(n) => {
                let count: usize = n as usize;
                events.populate(records, count);
                Ok(count)
            },
        }
    }

    /// Reads the answer to a `WaitCall` if it is one that the kernel can have
    /// given, and tells so by `None` if it is not: a negative count other than
    /// `-1`, or a count of more records than were handed over or than the
    /// buffer holds. The buffer is then left as it was.
    pub fn try_waited(events: &mut Events, reply: Reply, records: &[RawEvent]) -> (count: Option<
        Result<usize, OsResourceError>,
    >)
        requires
            old(events).wf(),
        ensures
            final(events).wf(),
            wait_answered(reply, records@) ==> count == Some(wait_outcome(reply)) && final(events)@
                == events_after_wait(old(events)@, reply, records@),
            !wait_answered(reply, records@) ==> count is None && *final(events) == *old(events),
    {
        if reply.ret == -1 || (reply.ret >= 0 && reply.ret as usize <= records.len()
            && reply.ret as usize <= CAPACITY) {
            Some(Reactor::waited(events, reply, records))
        } else {
            None
        }
    }

    /// Gives the reactor up: the call that releases the kernel object. The
    /// reactor is consumed, so the object is released once.
    pub fn close(self) -> (call: Call)
        ensures
            call == (Call::Close { handle: self@ }),
    {
        Call::Close { handle: self.handle }
    }
}

} // verus!
