//! An operation on a reactor, as the calls it makes and the answers it takes.
//!
//! An operation is a small state machine. While it has a call to make, the
//! caller makes that call and hands the answer to `advance`; once it has none,
//! its outcome is the operation's result.

use vstd::prelude::*;
use crate::call::{Call, RawSocket, Reply};
use crate::error::{call_checked, OsResourceError};
use crate::event::RawEvent;

verus! {

/// The state of an operation.
#[derive(Clone, Copy, Debug, PartialEq, Eq)]
pub enum Operation {
    /// A registration that has yet to put its socket into non-blocking mode.
    Unblocking { handle: usize, sock: RawSocket },
    /// A registration whose socket is non-blocking and has yet to be added.
    Adding { handle: usize, sock: RawSocket },
    /// An interest record that has yet to be stored.
    Arming { handle: usize, sock: RawSocket, record: RawEvent },
    /// A socket that has yet to be detached.
    Removing { handle: usize, sock: RawSocket },
    /// A wake-up that has yet to be posted.
    Posting { handle: usize },
    /// Nothing is left to do.
    Finished { outcome: Result<(), OsResourceError> },
}

/// What is to be done with an operation next.
#[derive(Clone, Copy, Debug, PartialEq, Eq)]
pub enum Step {
    /// Make this call and hand its answer to `advance`.
    Call(Call),
    /// Nothing: this is the operation's result.
    Done(Result<(), OsResourceError>),
}

impl Operation {
    /// The call that the operation waits for, if it waits for one. A socket is
    /// added with an empty interest record: no flags and a zero key.
    pub open spec fn spec_call(self) -> Option<Call> {
        match self {
            Operation::Unblocking { handle, sock } => Some(Call::SetNonBlocking { sock }),
            Operation::Adding { handle, sock } => Some(
                Call::Add { handle, sock, record: RawEvent { events: 0, data: 0 } },
            ),
            Operation::Arming { handle, sock, record } => Some(Call::Modify { handle, sock, record }),
            Operation::Removing { handle, sock } => Some(Call::Delete { handle, sock }),
            Operation::Posting { handle } => Some(Call::Post { handle }),
            Operation::Finished { outcome } => None,
        }
    }

    /// The state after the answer to the pending call.
    ///
    /// A registration goes on to add its socket only if the socket could be
    /// made non-blocking, and fails with that call's error otherwise. Adding,
    /// arming and removing fail exactly when the call returned `-1`. Posting
    /// a wake-up succeeds whatever the call returned: a post that fails
    /// because a wake-up is pending already does no harm, and no other
    /// failure is told apart from that one. A finished operation takes no
    /// answer and stays as it is.
    pub open spec fn spec_advance(self, reply: Reply) -> Operation {
        match self {
            Operation::Unblocking { handle, sock } => if reply.ret != 0 {
                Operation::Finished { outcome: reply.zero_outcome() }
            } else {
                Operation::Adding { handle, sock }
            },
            Operation::Adding { handle, sock } => Operation::Finished {
                outcome: reply.sentinel_outcome(),
            },
            Operation::Arming { handle, sock, record } => Operation::Finished {
                outcome: reply.sentinel_outcome(),
            },
            Operation::Removing { handle, sock } => Operation::Finished {
                outcome: reply.sentinel_outcome(),
            },
            Operation::Posting { handle } => Operation::Finished { outcome: Ok(()) },
            Operation::Finished { outcome } => self,
        }
    }

    /// The result of the operation, once it has one.
    pub open spec fn spec_outcome(self) -> Option<Result<(), OsResourceError>> {
        match self {
            Operation::Finished { outcome } => Some(outcome),
            _ => None,
        }
    }

    /// The pending call, or else the result: an operation has exactly one of
    /// the two.
    pub open spec fn spec_step(self) -> Step {
        match self {
            Operation::Finished { outcome } => Step::Done(outcome),
            _ => Step::Call(self.spec_call()->Some_0),
        }
    }

    /// The state after a run of answers, each given to the call that was
    /// pending when it came.
    pub open spec fn run(self, replies: Seq<Reply>) -> Operation
        decreases replies.len(),
    {
        if replies.len() == 0 {
            self
        } else {
            self.spec_advance(replies[0]).run(replies.drop_first())
        }
    }

    /// The calls that the operation has asked for by the time the answers in
    /// `replies` are used up, in order. The last of them may still be
    /// unanswered.
    pub open spec fn calls(self, replies: Seq<Reply>) -> Seq<Call>
        decreases replies.len(),
    {
        match self.spec_call() {
            None => Seq::empty(),
            Some(call) => if replies.len() == 0 {
                seq![call]
            } else {
                seq![call] + self.spec_advance(replies[0]).calls(replies.drop_first())
            },
        }
    }

    /// The call to make next, or the result once no call is left.
    pub fn step(&self) -> (step: Step)
        ensures
            step == self.spec_step(),
    {
        match *self {
            Operation::Unblocking { sock, .. } => Step::Call(Call::SetNonBlocking { sock }),
            Operation::Adding { handle, sock } => Step::Call(
                Call::Add { handle, sock, record: RawEvent { events: 0, data: 0 } },
            ),
            Operation::Arming { handle, sock, record } => Step::Call(
                Call::Modify { handle, sock, record },
            ),
            Operation::Removing { handle, sock } => Step::Call(Call::Delete { handle, sock }),
            Operation::Posting { handle } => Step::Call(Call::Post { handle }),
            Operation::Finished { outcome } => Step::Done(outcome),
        }
    }

    /// The call to make next, or `None` when the operation is finished.
    pub fn call(&self) -> (call: Option<Call>)
        ensures
            call == self.spec_call(),
    {
        match self.step() {
            Step::Call(call) => Some(call),
            Step::Done(_) => None,
        }
    }

    /// Takes the answer to the pending call and gives the next state.
    pub fn advance(self, reply: Reply) -> (next: Operation)
        ensures
            next == self.spec_advance(reply),
    {
        match self {
            Operation::Unblocking { handle, sock } => {
                if reply.ret != 0 {
                    Operation::Finished { outcome: Err(OsResourceError { code: reply.os_error }) }
                } else {
                    Operation::Adding { handle, sock }
                }
            },
            Operation::Adding { .. } | Operation::Arming { .. } | Operation::Removing { .. } => {
                match call_checked(reply.ret, reply.os_error) {
                    Ok(_) => Operation::Finished { outcome: Ok(()) },
                    Err(e) => Operation::Finished { outcome: Err(e) },
                }
            },
            Operation::Posting { .. } => Operation::Finished { outcome: Ok(()) },
            Operation::Finished { outcome } => Operation::Finished { outcome },
        }
    }

    /// The operation's result, or `None` while a call is pending.
    pub fn outcome(&self) -> (outcome: Option<Result<(), OsResourceError>>)
        ensures
            outcome == self.spec_outcome(),
    {
        match *self {
            Operation::Finished { outcome } => Some(outcome),
            _ => None,
        }
    }
}

} // verus!
