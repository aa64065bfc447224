//! What holds of every run of an operation, and of every fill of a buffer.

use vstd::prelude::*;
use crate::call::{Call, RawSocket, Reply};
use crate::error::OsResourceError;
use crate::event::{decode, Event, RawEvent};
use crate::operation::Operation;
use crate::reactor::{events_after_wait, wait_answered, wait_outcome};

verus! {

/// The operations that a reactor starts: every state but the finished one and
/// the second stage of a registration.
pub open spec fn is_start(op: Operation) -> bool {
    op is Unblocking || op is Arming || op is Removing || op is Posting
}

/// A finished operation asks for nothing more and keeps its outcome, whatever
/// answers it is handed.
pub proof fn lemma_finished_is_final(outcome: Result<(), OsResourceError>, replies: Seq<Reply>)
    ensures
        (Operation::Finished { outcome }).run(replies) == (Operation::Finished { outcome }),
        (Operation::Finished { outcome }).calls(replies) == Seq::<Call>::empty(),
    decreases replies.len(),
{
    if replies.len() > 0 {
        lemma_finished_is_final(outcome, replies.drop_first());
    }
}

/// Every operation that a reactor starts is finished after two answers at the
/// latest, and every operation but a registration after one.
pub proof fn lemma_operation_terminates(op: Operation, replies: Seq<Reply>)
    requires
        is_start(op),
        replies.len() >= 2 || (replies.len() >= 1 && !(op is Unblocking)),
    ensures
        op.run(replies) is Finished,
        op.calls(replies).len() <= 2,
{
    let r0 = replies[0];
    let rest = replies.drop_first();
    let s1 = op.spec_advance(r0);
    if s1 is Finished {
        lemma_finished_is_final(s1->outcome, rest);
    } else {
        let s2 = s1.spec_advance(rest[0]);
        lemma_finished_is_final(s2->outcome, rest.drop_first());
        assert(s1.run(rest) == s2.run(rest.drop_first()));
        assert(s1.calls(rest) == seq![s1.spec_call()->Some_0] + s2.calls(rest.drop_first()));
    }
}

/// A registration whose socket cannot be made non-blocking stops there: it
/// fails with that call's error, and the socket is never added.
pub proof fn lemma_registration_aborts(
    handle: usize,
    sock: RawSocket,
    replies: Seq<Reply>,
)
    requires
        replies.len() >= 1,
        replies[0].ret != 0,
    ensures
        (Operation::Unblocking { handle, sock }).run(replies) == (Operation::Finished {
            outcome: Err(OsResourceError { code: replies[0].os_error }),
        }),
        (Operation::Unblocking { handle, sock }).calls(replies) == seq![
            Call::SetNonBlocking { sock },
        ],
{
    let op = Operation::Unblocking { handle, sock };
    let s1 = op.spec_advance(replies[0]);
    lemma_finished_is_final(s1->outcome, replies.drop_first());
    assert(op.calls(replies) =~= seq![Call::SetNonBlocking { sock }]);
}

/// A registration whose socket was made non-blocking goes on to add the
/// socket, with an empty interest record, and its result is that of the
/// addition. The two calls are made in this order and no other is made.
pub proof fn lemma_registration_completes(
    handle: usize,
    sock: RawSocket,
    replies: Seq<Reply>,
)
    requires
        replies.len() >= 2,
        replies[0].ret == 0,
    ensures
        (Operation::Unblocking { handle, sock }).run(replies) == (Operation::Finished {
            outcome: replies[1].sentinel_outcome(),
        }),
        (Operation::Unblocking { handle, sock }).calls(replies) == seq![
            Call::SetNonBlocking { sock },
            Call::Add { handle, sock, record: RawEvent { events: 0, data: 0 } },
        ],
{
    let op = Operation::Unblocking { handle, sock };
    let rest = replies.drop_first();
    let s1 = op.spec_advance(replies[0]);
    let s2 = s1.spec_advance(rest[0]);
    lemma_finished_is_final(s2->outcome, rest.drop_first());
    assert(s1.run(rest) == s2.run(rest.drop_first()));
    assert(s1.calls(rest) =~= seq![
        Call::Add { handle, sock, record: RawEvent { events: 0, data: 0 } },
    ]);
    assert(op.calls(replies) =~= seq![
        Call::SetNonBlocking { sock },
        Call::Add { handle, sock, record: RawEvent { events: 0, data: 0 } },
    ]);
}

/// A wake-up always succeeds, whatever the post itself returned.
pub proof fn lemma_notify_always_succeeds(handle: usize, replies: Seq<Reply>)
    requires
        replies.len() >= 1,
    ensures
        (Operation::Posting { handle }).run(replies).spec_outcome() == Some(
            Ok::<(), OsResourceError>(()),
        ),
        (Operation::Posting { handle }).calls(replies) == seq![Call::Post { handle }],
{
    let op = Operation::Posting { handle };
    lemma_finished_is_final(Ok(()), replies.drop_first());
    assert(op.calls(replies) =~= seq![Call::Post { handle }]);
}

/// Arming and removing make one call each and fail exactly when that call
/// returned `-1`, with the error code of the answer.
pub proof fn lemma_control_outcome(op: Operation, replies: Seq<Reply>)
    requires
        op is Arming || op is Removing,
        replies.len() >= 1,
    ensures
        op.run(replies).spec_outcome() == Some(replies[0].sentinel_outcome()),
        op.calls(replies) == seq![op.spec_call()->Some_0],
{
    lemma_finished_is_final(replies[0].sentinel_outcome(), replies.drop_first());
    assert(op.calls(replies) =~= seq![op.spec_call()->Some_0]);
}

/// The key is passed through: whatever flags a record reports, the event read
/// from it has the record's data as its key, bit for bit.
pub proof fn lemma_key_passes_through(key: u64, reported: u32)
    ensures
        Event::of(RawEvent { events: reported, data: key }).key == key,
{
}

/// Decoding keeps the number and the order of the records.
pub proof fn lemma_decode_is_pointwise(records: Seq<RawEvent>)
    ensures
        decode(records).len() == records.len(),
        forall|i: int|
            0 <= i < records.len() ==> #[trigger] decode(records)[i] == Event::of(records[i]),
{
}

/// After a wait that counted `k` records a buffer yields exactly `k` events,
/// one for each of the first `k` records that the kernel wrote, in order.
pub proof fn lemma_wait_yields_its_count(before: Seq<Event>, reply: Reply, records: Seq<RawEvent>)
    requires
        wait_answered(reply, records),
        reply.ret != -1,
    ensures
        wait_outcome(reply) == Ok::<usize, OsResourceError>(reply.ret as usize),
        events_after_wait(before, reply, records).len() == reply.ret,
        forall|i: int|
            0 <= i < reply.ret ==> #[trigger] events_after_wait(before, reply, records)[i]
                == Event::of(records[i]),
{
}

/// A buffer that is filled twice shows the second fill alone: the events
/// after the second wait are those of the second wait's records, whatever the
/// first wait wrote and however many records it counted. In particular a
/// second wait that counted fewer records than the first leaves none of the
/// first wait's events to be seen.
pub proof fn lemma_buffer_reuse(
    before: Seq<Event>,
    first: Reply,
    first_records: Seq<RawEvent>,
    second: Reply,
    second_records: Seq<RawEvent>,
)
    requires
        wait_answered(first, first_records),
        wait_answered(second, second_records),
        first.ret != -1,
        second.ret != -1,
    ensures
        events_after_wait(before, first, first_records).len() == first.ret,
        events_after_wait(
            events_after_wait(before, first, first_records),
            second,
            second_records,
        ) == decode(second_records.take(second.ret as int)),
        events_after_wait(
            events_after_wait(before, first, first_records),
            second,
            second_records,
        ).len() == second.ret,
{
}

/// A wait that counted nothing leaves the buffer empty, whatever the buffer
/// held before: so it is with a wait that a wake-up alone has ended, for a
/// wake-up is not counted.
pub proof fn lemma_uncounted_wait_is_empty(
    before: Seq<Event>,
    os_error: i32,
    records: Seq<RawEvent>,
)
    ensures
        wait_outcome(Reply { ret: 0i32, os_error }) == Ok::<usize, OsResourceError>(0usize),
        events_after_wait(before, Reply { ret: 0i32, os_error }, records) == Seq::<Event>::empty(),
{
    assert(events_after_wait(before, Reply { ret: 0i32, os_error }, records) =~= Seq::<Event>::empty());
}

/// A failed wait changes nothing that the buffer shows.
pub proof fn lemma_failed_wait_keeps_events(
    before: Seq<Event>,
    os_error: i32,
    records: Seq<RawEvent>,
)
    ensures
        wait_outcome(Reply { ret: -1i32, os_error }) == Err::<usize, OsResourceError>(
            OsResourceError { code: os_error },
        ),
        events_after_wait(before, Reply { ret: -1i32, os_error }, records) == before,
{
}

} // verus!
