//! The reusable buffer that a wait fills with readiness records.

use vstd::prelude::*;
use crate::event::{decode, Event, RawEvent};

verus! {

/// How many records a buffer holds.
pub const CAPACITY: usize = 1000;

/// A list of reported events.
///
/// The storage is allocated once, with `CAPACITY` slots, and never resized.
/// Only the first `len` slots are valid: they hold the records of the latest
/// wait. The slots behind them are stale and are never read.
pub struct Events {
    list: Vec<RawEvent>,
    len: usize,
}

impl Events {
    /// The buffer is as it was allocated: `CAPACITY` slots, of which no more
    /// than `CAPACITY` are valid.
    pub closed spec fn wf(&self) -> bool {
        &&& self.list@.len() == CAPACITY
        &&& self.len <= CAPACITY
    }

    /// The valid records: what the latest wait wrote, in the kernel's order.
    pub closed spec fn records(&self) -> Seq<RawEvent> {
        self.list@.take(self.len as int)
    }

    /// Creates an empty list.
    pub fn new() -> (events: Events)
        ensures
            events.wf(),
            events.records() == Seq::<RawEvent>::empty(),
            events@ == Seq::<Event>::empty(),
    {
        let zero = RawEvent { events: 0, data: 0 };
        let mut list: Vec<RawEvent> = Vec::with_capacity(CAPACITY);
        let mut i: usize = 0;
        while i < CAPACITY
            invariant
                i <= CAPACITY,
                list@.len() == i,
            decreases CAPACITY - i,
        {
            list.push(zero);
            i += 1;
        }
        let events = Events { list, len: 0 };
        assert(events.records() =~= Seq::<RawEvent>::empty());
        assert(events@ =~= Seq::<Event>::empty());
        events
    }

    /// How many records a wait may write: `CAPACITY`.
    pub fn capacity(&self) -> (n: usize)
        requires
            self.wf(),
        ensures
            n == CAPACITY,
    {
        self.list.len()
    }

    /// How many events the latest wait reported.
    pub fn len(&self) -> (n: usize)
        requires
            self.wf(),
        ensures
            n == self@.len(),
            n <= CAPACITY,
    {
        self.len
    }

    /// Whether the latest wait reported nothing.
    pub fn is_empty(&self) -> (b: bool)
        requires
            self.wf(),
        ensures
            b == (self@.len() == 0),
    {
        self.len == 0
    }

    /// The event at a position, or `None` behind the last valid one.
    pub fn get(&self, index: usize) -> (event: Option<Event>)
        requires
            self.wf(),
        ensures
            event == (if index < self@.len() {
                Some(self@[index as int])
            } else {
                None
            }),
    {
        if index < self.len {
            Some(Event::from_raw(self.list[index]))
        } else {
            None
        }
    }

    /// The reported events, in the order in which the kernel reported them.
    /// Nothing is consumed: a second call gives the same events again.
    pub fn iter(&self) -> (events: Vec<Event>)
        requires
            self.wf(),
        ensures
            events@ == self@,
    {
        let mut events: Vec<Event> = Vec::with_capacity(self.len);
        let mut i: usize = 0;
        while i < self.len
            invariant
                i <= self.len <= self.list@.len(),
                events@.len() == i,
                forall|j: int| 0 <= j < i ==> events@[j] == Event::of(#[trigger] self.list@[j]),
            decreases self.len - i,
        {
            events.push(Event::from_raw(self.list[i]));
            i += 1;
        }
        assert(events@ =~= self@);
        events
    }

    /// Overwrites the leading `count` slots with the leading `count` records
    /// and makes them the valid ones.
    pub fn populate(&mut self, records: &[RawEvent], count: usize)
        requires
            old(self).wf(),
            count <= records@.len(),
            count <= CAPACITY,
        ensures
            final(self).wf(),
            final(self).records() == records@.take(count as int),
            final(self)@ == decode(records@.take(count as int)),
    {
        let mut i: usize = 0;
        while i < count
            invariant
                i <= count <= CAPACITY,
                count <= records@.len(),
                self.list@.len() == CAPACITY,
                self.len <= CAPACITY,
                forall|j: int| 0 <= j < i ==> self.list@[j] == records@[j],
            decreases count - i,
        {
            self.list.set(i, records[i]);
            i += 1;
        }
        self.len = count;
        assert(self.records() =~= records@.take(count as int));
    }
}

impl View for Events {
    type V = Seq<Event>;

    /// The events of the latest wait, in the kernel's order.
    closed spec fn view(&self) -> Seq<Event> {
        decode(self.records())
    }
}

} // verus!
