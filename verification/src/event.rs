//! Readiness records as the kernel writes them, and the events read from them.

use vstd::prelude::*;
use crate::flags::{is_readable, is_writable, readable, writable};

verus! {

/// A readiness record of the kernel facility: a word of flags, and the 64 bits
/// of caller data that were stored with the socket's interest.
#[derive(Clone, Copy, Debug, PartialEq, Eq)]
pub struct RawEvent {
    pub events: u32,
    pub data: u64,
}

/// A socket that became ready: the key given with its interest, and the
/// directions in which it is ready.
#[derive(Clone, Copy, Debug, PartialEq, Eq)]
pub struct Event {
    pub key: u64,
    pub readable: bool,
    pub writable: bool,
}

impl Event {
    /// The event that a record stands for: the record's data is the key,
    /// untouched, and each direction is a test of the record's flags.
    pub open spec fn of(raw: RawEvent) -> Event {
        Event { key: raw.data, readable: is_readable(raw.events), writable: is_writable(raw.events) }
    }

    /// Reads an event from a record.
    pub fn from_raw(raw: RawEvent) -> (event: Event)
        ensures
            event == Event::of(raw),
    {
        Event { key: raw.data, readable: readable(raw.events), writable: writable(raw.events) }
    }
}

/// The events that a sequence of records stands for, one for one and in the
/// same order.
pub open spec fn decode(records: Seq<RawEvent>) -> Seq<Event> {
    Seq::new(records.len(), |i: int| Event::of(records[i]))
}

} // verus!
