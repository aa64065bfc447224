use reactor::error::{call_checked, OsResourceError};
use reactor::event::{Event, RawEvent};
use reactor::events::{Events, CAPACITY};
use reactor::flags::{
    interest_flags, readable, writable, EPOLLERR, EPOLLHUP, EPOLLIN, EPOLLONESHOT, EPOLLOUT,
    EPOLLPRI, EPOLLRDHUP, READ_FLAGS, WRITE_FLAGS,
};
use reactor::reactor::Reactor;
use reactor::call::Reply;

#[test]
fn flag_masks_have_their_values() {
    assert_eq!(READ_FLAGS, 0x201b);
    assert_eq!(WRITE_FLAGS, 0x001c);
    assert_eq!(EPOLLONESHOT, 2147483648);
}

#[test]
fn interest_flags_for_each_direction() {
    assert_eq!(interest_flags(false, false), 0x8000_0000);
    assert_eq!(interest_flags(true, false), 0x8000_201b);
    assert_eq!(interest_flags(false, true), 0x8000_001c);
    assert_eq!(interest_flags(true, true), 0x8000_201f);
}

#[test]
fn interest_is_always_one_shot() {
    for read in [false, true] {
        for write in [false, true] {
            assert_eq!(interest_flags(read, write) & EPOLLONESHOT, EPOLLONESHOT);
        }
    }
}

#[test]
fn plain_readiness_is_one_direction() {
    assert!(readable(EPOLLIN));
    assert!(!writable(EPOLLIN));
    assert!(readable(EPOLLPRI));
    assert!(readable(EPOLLRDHUP));
    assert!(!writable(EPOLLRDHUP));
    assert!(writable(EPOLLOUT));
    assert!(!readable(EPOLLOUT));
    assert!(!readable(0));
    assert!(!writable(0));
}

#[test]
fn error_and_hangup_are_both_directions() {
    for flags in [EPOLLERR, EPOLLHUP, EPOLLERR | EPOLLHUP, EPOLLIN | EPOLLHUP, EPOLLOUT | EPOLLERR] {
        assert!(readable(flags));
        assert!(writable(flags));
    }
}

#[test]
fn event_is_read_from_record() {
    let e = Event::from_raw(RawEvent { events: EPOLLIN, data: 42 });
    assert_eq!(e, Event { key: 42, readable: true, writable: false });
    let e = Event::from_raw(RawEvent { events: EPOLLOUT, data: u64::MAX });
    assert_eq!(e, Event { key: u64::MAX, readable: false, writable: true });
    let e = Event::from_raw(RawEvent { events: EPOLLIN | EPOLLHUP, data: 7 });
    assert_eq!(e, Event { key: 7, readable: true, writable: true });
}

#[test]
fn call_checked_turns_sentinel_into_error() {
    assert_eq!(call_checked(-1, 10022), Err(OsResourceError { code: 10022 }));
    assert_eq!(call_checked(0, 10022), Ok(0));
    assert_eq!(call_checked(3, 0), Ok(3));
    assert_eq!(call_checked(-2, 5), Ok(-2));
}

#[test]
fn new_buffer_is_empty() {
    let events = Events::new();
    assert_eq!(events.len(), 0);
    assert!(events.is_empty());
    assert_eq!(events.capacity(), 1000);
    assert_eq!(CAPACITY, 1000);
    assert_eq!(events.iter(), vec![]);
    assert_eq!(events.get(0), None);
}

#[test]
fn populate_takes_leading_records() {
    let mut events = Events::new();
    let records = [
        RawEvent { events: EPOLLIN, data: 1 },
        RawEvent { events: EPOLLOUT, data: 2 },
        RawEvent { events: EPOLLERR, data: 3 },
    ];
    events.populate(&records, 2);
    assert_eq!(events.len(), 2);
    assert_eq!(
        events.iter(),
        vec![
            Event { key: 1, readable: true, writable: false },
            Event { key: 2, readable: false, writable: true },
        ]
    );
    assert_eq!(events.get(1), Some(Event { key: 2, readable: false, writable: true }));
    assert_eq!(events.get(2), None);
}

#[test]
fn iter_replays_the_same_events() {
    let mut events = Events::new();
    let records = [RawEvent { events: EPOLLIN, data: 9 }, RawEvent { events: EPOLLOUT, data: 8 }];
    assert_eq!(Reactor::waited(&mut events, Reply { ret: 2, os_error: 0 }, &records), Ok(2));
    let first = events.iter();
    let second = events.iter();
    assert_eq!(first, second);
    assert_eq!(first.len(), 2);
}

#[test]
fn buffer_reuse_hides_stale_records() {
    let mut events = Events::new();
    let big: Vec<RawEvent> =
        (0..5u64).map(|i| RawEvent { events: EPOLLIN, data: 100 + i }).collect();
    assert_eq!(Reactor::waited(&mut events, Reply { ret: 5, os_error: 0 }, &big), Ok(5));
    assert_eq!(events.iter().len(), 5);
    let small = [RawEvent { events: EPOLLOUT, data: 1 }, RawEvent { events: EPOLLOUT, data: 2 }];
    assert_eq!(Reactor::waited(&mut events, Reply { ret: 2, os_error: 0 }, &small), Ok(2));
    assert_eq!(
        events.iter(),
        vec![
            Event { key: 1, readable: false, writable: true },
            Event { key: 2, readable: false, writable: true },
        ]
    );
    assert_eq!(events.get(2), None);
    assert_eq!(events.get(4), None);
}

#[test]
fn buffer_holds_a_full_fill() {
    let mut events = Events::new();
    let full: Vec<RawEvent> =
        (0..1000u64).map(|i| RawEvent { events: EPOLLIN, data: i }).collect();
    assert_eq!(Reactor::waited(&mut events, Reply { ret: 1000, os_error: 0 }, &full), Ok(1000));
    assert_eq!(events.len(), 1000);
    assert_eq!(events.get(999), Some(Event { key: 999, readable: true, writable: false }));
    assert_eq!(events.get(1000), None);
}

#[test]
fn failed_wait_keeps_the_buffer() {
    let mut events = Events::new();
    let records = [RawEvent { events: EPOLLIN, data: 5 }];
    assert_eq!(Reactor::waited(&mut events, Reply { ret: 1, os_error: 0 }, &records), Ok(1));
    assert_eq!(
        Reactor::waited(&mut events, Reply { ret: -1, os_error: 6 }, &[]),
        Err(OsResourceError { code: 6 })
    );
    assert_eq!(events.iter(), vec![Event { key: 5, readable: true, writable: false }]);
}
