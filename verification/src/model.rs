//! The harness as a mathematical state machine.
//!
//! `CoreThreadState` is what the executable harness is a view of, and its
//! transitions say what the executable functions do: a dispatcher sends a
//! command, the handle stops the thread, the worker takes a turn, and the
//! embedding reports what the engine returned.

use crate::command::{
    CoreOutcome, CoreThreadAction, CoreThreadCommand, CoreThreadReply, CoreThreadSend,
    PendingReply,
};
use vstd::prelude::*;

verus! {

/// A counter that has counted once more. It stays at the largest value
/// rather than start again from zero.
pub open spec fn counted(count: u64) -> u64 {
    if count < u64::MAX {
        (count + 1) as u64
    } else {
        count
    }
}

/// A counter that has counted `times` more.
pub open spec fn counted_by(count: u64, times: nat) -> u64 {
    if count + times <= u64::MAX {
        (count + times) as u64
    } else {
        u64::MAX
    }
}

/// The state of one core thread and of the queue that feeds it.
pub struct CoreThreadState<S> {
    /// The commands on the queue, the oldest first.
    pub pending: Seq<CoreThreadCommand<S>>,
    /// The number of commands that the queue holds at most.
    pub capacity: nat,
    /// Whether the sending end of the queue was released.
    pub closed: bool,
    /// The slot of the command that the engine is working on, if it is.
    pub in_flight: Option<PendingReply<S>>,
    /// Whether the worker has ended.
    pub exited: bool,
    /// The sends that dispatchers made. A command that came back from a full
    /// queue and is offered again is the same send still.
    pub enqueued: u64,
    /// The commands that the worker took off the queue.
    pub dequeued: u64,
}

impl<S> CoreThreadState<S> {
    /// What holds of every state that the harness is ever in: the queue is
    /// within its capacity, and a worker that has ended leaves nothing behind.
    pub open spec fn wf(self) -> bool {
        &&& self.capacity >= 1
        &&& self.pending.len() <= self.capacity
        &&& self.exited ==> self.closed && self.pending.len() == 0 && self.in_flight is None
    }

    /// The state in which a core thread starts.
    pub open spec fn started(capacity: nat) -> Self {
        CoreThreadState {
            pending: Seq::empty(),
            capacity,
            closed: false,
            in_flight: None,
            exited: false,
            enqueued: 0,
            dequeued: 0,
        }
    }

    /// A command is offered to the queue. A closed queue takes nothing: the
    /// command is dropped. A full queue takes nothing either, and the command
    /// goes back to the caller. Else the command joins the queue at its end.
    /// The counters stay as they are.
    pub open spec fn resend(self, command: CoreThreadCommand<S>) -> (Self, CoreThreadSend<S>) {
        if self.closed {
            (self, CoreThreadSend::Discarded)
        } else if self.pending.len() >= self.capacity {
            (self, CoreThreadSend::Full(command))
        } else {
            (
                CoreThreadState { pending: self.pending.push(command), ..self },
                CoreThreadSend::Enqueued,
            )
        }
    }

    /// A dispatcher sends a command: the send is counted, and then the
    /// command is offered to the queue. Every send is counted, whether the
    /// queue takes the command, gives it back or drops it.
    pub open spec fn send(self, command: CoreThreadCommand<S>) -> (Self, CoreThreadSend<S>) {
        CoreThreadState { enqueued: counted(self.enqueued), ..self }.resend(command)
    }

    /// The handle releases the sending end of the queue.
    pub open spec fn stop(self) -> Self {
        CoreThreadState { closed: true, ..self }
    }

    /// The worker takes a turn. While the engine works, nothing is taken off
    /// the queue. Else the oldest command leaves the queue and becomes the
    /// invocation in flight. With an empty queue the worker waits, or ends if
    /// the queue is closed.
    pub open spec fn run(self) -> (Self, CoreThreadAction) {
        if self.exited {
            (self, CoreThreadAction::Exit)
        } else if self.in_flight is Some {
            (self, CoreThreadAction::Busy)
        } else if self.pending.len() > 0 {
            (
                CoreThreadState {
                    pending: self.pending.drop_first(),
                    in_flight: Some(self.pending[0].pending_reply()),
                    dequeued: counted(self.dequeued),
                    ..self
                },
                CoreThreadAction::Invoke(self.pending[0].operation()),
            )
        } else if self.closed {
            (CoreThreadState { exited: true, ..self }, CoreThreadAction::Exit)
        } else {
            (self, CoreThreadAction::Wait)
        }
    }

    /// Whether the worker can take a command: it has not ended, and the
    /// engine is not at work.
    pub open spec fn idle(self) -> bool {
        !self.exited && self.in_flight is None
    }

    /// The state after the worker has served all that was queued, one
    /// command after the other, and has taken one more turn: the queue is
    /// empty, and the worker has ended if the queue is closed. A worker that
    /// cannot take a command stays as it is.
    pub open spec fn caught_up(self) -> Self {
        if self.idle() {
            CoreThreadState {
                pending: Seq::empty(),
                exited: self.closed,
                dequeued: counted_by(self.dequeued, self.pending.len()),
                ..self
            }
        } else {
            self
        }
    }

    /// Whether the outcome answers the invocation in flight.
    pub open spec fn awaits(self, outcome: CoreOutcome) -> bool {
        self.in_flight is Some && self.in_flight->Some_0.expects(outcome)
    }

    /// The embedding reports what the engine returned. An outcome that
    /// answers the invocation in flight ends it and becomes the reply for the
    /// waiting slot. Any other outcome comes back, with nothing changed.
    pub open spec fn complete(self, outcome: CoreOutcome) -> (
        Self,
        Result<CoreThreadReply<S>, CoreOutcome>,
    ) {
        if self.awaits(outcome) {
            (
                CoreThreadState { in_flight: None, ..self },
                Ok(self.in_flight->Some_0.reply_to(outcome)),
            )
        } else {
            (self, Err(outcome))
        }
    }
}

} // verus!
