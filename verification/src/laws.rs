//! What holds of every execution of the harness.
//!
//! An execution is a sequence of events, in the order in which they reach the
//! harness: dispatchers send, and offer again what a full queue gave back,
//! the handle stops, the worker takes turns, and the embedding reports what
//! the engine returned. The history of an
//! execution records which commands the queue accepted, which operations the
//! engine was invoked with, and which replies went out. The laws below are
//! stated of the history of an arbitrary sequence of events, and so of every
//! point of every execution.

use crate::command::{
    CoreOperation, CoreOutcome, CoreThreadAction, CoreThreadCommand, CoreThreadReply,
    CoreThreadSend,
};
use crate::model::{counted, counted_by, CoreThreadState};
use vstd::prelude::*;

verus! {

/// Something that happens to the harness.
pub enum CoreThreadEvent<S> {
    /// A dispatcher sends a command.
    Send(CoreThreadCommand<S>),
    /// A dispatcher offers a command again that came back from a full queue.
    Resend(CoreThreadCommand<S>),
    /// The handle stops the core thread.
    Stop,
    /// The worker takes a turn.
    Run,
    /// The embedding reports what the engine returned.
    Complete(CoreOutcome),
}

/// A state of the harness together with what led to it.
pub struct CoreThreadHistory<S> {
    /// The state that the events led to.
    pub state: CoreThreadState<S>,
    /// The commands that the queue accepted, in the order of their sending.
    pub accepted: Seq<CoreThreadCommand<S>>,
    /// The commands that the worker took off the queue, in that order.
    pub taken: Seq<CoreThreadCommand<S>>,
    /// The operations that the engine was invoked with, in that order.
    pub invoked: Seq<CoreOperation>,
    /// The replies that went out, in that order.
    pub replies: Seq<CoreThreadReply<S>>,
}

impl<S> CoreThreadHistory<S> {
    /// The history of a core thread that has just started.
    pub open spec fn started(capacity: nat) -> Self {
        CoreThreadHistory {
            state: CoreThreadState::started(capacity),
            accepted: Seq::empty(),
            taken: Seq::empty(),
            invoked: Seq::empty(),
            replies: Seq::empty(),
        }
    }

    /// The history after one more event.
    pub open spec fn step(self, event: CoreThreadEvent<S>) -> Self {
        match event {
            CoreThreadEvent::Send(command) => {
                let (state, sent) = self.state.send(command);
                CoreThreadHistory {
                    state,
                    accepted: if sent is Enqueued {
                        self.accepted.push(command)
                    } else {
                        self.accepted
                    },
                    ..self
                }
            },
            CoreThreadEvent::Resend(command) => {
                let (state, sent) = self.state.resend(command);
                CoreThreadHistory {
                    state,
                    accepted: if sent is Enqueued {
                        self.accepted.push(command)
                    } else {
                        self.accepted
                    },
                    ..self
                }
            },
            CoreThreadEvent::Stop => CoreThreadHistory { state: self.state.stop(), ..self },
            CoreThreadEvent::Run => {
                let (state, action) = self.state.run();
                match action {
                    CoreThreadAction::Invoke(operation) => CoreThreadHistory {
                        state,
                        taken: self.taken.push(self.state.pending[0]),
                        invoked: self.invoked.push(operation),
                        ..self
                    },
                    _ => CoreThreadHistory { state, ..self },
                }
            },
            CoreThreadEvent::Complete(outcome) => {
                let (state, result) = self.state.complete(outcome);
                match result {
                    Ok(reply) => CoreThreadHistory {
                        state,
                        replies: self.replies.push(reply),
                        ..self
                    },
                    Err(_) => CoreThreadHistory { state, ..self },
                }
            },
        }
    }

    /// The history after the events, the first of them first.
    pub open spec fn replay(self, events: Seq<CoreThreadEvent<S>>) -> Self
        decreases events.len(),
    {
        if events.len() == 0 {
            self
        } else {
            self.replay(events.drop_last()).step(events.last())
        }
    }

    /// The number of invocations that the engine has not answered yet.
    pub open spec fn in_flight(self) -> nat {
        if self.state.in_flight is Some {
            1
        } else {
            0
        }
    }

    /// What ties a history together. Every accepted command was taken by the
    /// worker or still waits, in the order of acceptance. The engine was
    /// invoked once for each command taken, with its operation. Each command
    /// taken has got its reply, but for the one that may be in flight.
    pub open spec fn consistent(self) -> bool {
        &&& self.state.wf()
        &&& self.accepted == self.taken + self.state.pending
        &&& self.invoked.len() == self.taken.len()
        &&& forall|i: int|
            0 <= i < self.taken.len() ==> #[trigger] self.invoked[i] == self.taken[i].operation()
        &&& self.replies.len() + self.in_flight() == self.taken.len()
        &&& forall|i: int|
            0 <= i < self.replies.len() ==> {
                &&& self.taken[i].pending_reply().expects((#[trigger] self.replies[i]).outcome())
                &&& self.replies[i] == self.taken[i].pending_reply().reply_to(
                    self.replies[i].outcome(),
                )
            }
        &&& self.state.in_flight is Some ==> self.state.in_flight == Some(
            self.taken.last().pending_reply(),
        )
    }
}

/// One full turn of a worker whose engine is given as a function: the worker
/// takes a command, the engine is applied to its operation, and the outcome
/// is completed into the reply. Gives the next state of the harness, the
/// next state of the engine, and the reply if there was a command to take.
pub open spec fn serve<S, E>(
    state: CoreThreadState<S>,
    engine: E,
    apply: spec_fn(E, CoreOperation) -> (E, CoreOutcome),
) -> (CoreThreadState<S>, E, Option<CoreThreadReply<S>>) {
    let (running, action) = state.run();
    match action {
        CoreThreadAction::Invoke(operation) => {
            let (next, outcome) = apply(engine, operation);
            let (done, result) = running.complete(outcome);
            (
                done,
                next,
                match result {
                    Ok(reply) => Some(reply),
                    Err(_) => None,
                },
            )
        },
        _ => (running, engine, None),
    }
}

/// The events in which a worker, turn by turn, serves commands whose
/// invocations return the given outcomes: a turn and a report for each.
pub open spec fn serving<S>(outcomes: Seq<CoreOutcome>) -> Seq<CoreThreadEvent<S>>
    decreases outcomes.len(),
{
    if outcomes.len() == 0 {
        Seq::empty()
    } else {
        serving::<S>(outcomes.drop_last()).push(CoreThreadEvent::Run).push(
            CoreThreadEvent::Complete(outcomes.last()),
        )
    }
}

proof fn lemma_step_consistent<S>(history: CoreThreadHistory<S>, event: CoreThreadEvent<S>)
    requires
        history.consistent(),
    ensures
        history.step(event).consistent(),
{
    let next = history.step(event);
    if event is Run && history.state.run().1 is Invoke {
        // The oldest command leaves the queue and joins those taken.
        assert(next.accepted =~= next.taken + next.state.pending);
    }
}

proof fn lemma_replay_consistent<S>(
    history: CoreThreadHistory<S>,
    events: Seq<CoreThreadEvent<S>>,
)
    requires
        history.consistent(),
    ensures
        history.replay(events).consistent(),
    decreases events.len(),
{
    if events.len() > 0 {
        lemma_replay_consistent(history, events.drop_last());
        lemma_step_consistent(history.replay(events.drop_last()), events.last());
    }
}

proof fn lemma_closed_stays_closed<S>(
    history: CoreThreadHistory<S>,
    events: Seq<CoreThreadEvent<S>>,
)
    requires
        history.state.closed,
    ensures
        history.replay(events).state.closed,
        history.replay(events).accepted == history.accepted,
    decreases events.len(),
{
    if events.len() > 0 {
        lemma_closed_stays_closed(history, events.drop_last());
    }
}

/// Commands reach the engine in the order in which the queue accepted them.
/// After any events, the operations that the engine was invoked with are
/// those of the first accepted commands, one for one and in the same order:
/// none was passed over, none came twice, none came early.
pub proof fn law_fifo_order<S>(capacity: nat, events: Seq<CoreThreadEvent<S>>)
    requires
        capacity >= 1,
    ensures
        ({
            let history = CoreThreadHistory::<S>::started(capacity).replay(events);
            &&& history.invoked.len() <= history.accepted.len()
            &&& forall|i: int|
                0 <= i < history.invoked.len() ==> #[trigger] history.invoked[i]
                    == history.accepted[i].operation()
            &&& history.accepted.len() == history.invoked.len() + history.state.pending.len()
            &&& forall|i: int|
                0 <= i < history.state.pending.len() ==> #[trigger] history.state.pending[i]
                    == history.accepted[history.invoked.len() + i]
        }),
{
    lemma_replay_consistent(CoreThreadHistory::<S>::started(capacity), events);
}

/// The engine is never invoked while it works. After any events, at most one
/// invocation is without its reply, and it is the latest; every earlier
/// invocation got its reply before the next one was made. A turn of the
/// worker during an invocation takes no command and invokes nothing.
pub proof fn law_one_invocation_at_a_time<S>(capacity: nat, events: Seq<CoreThreadEvent<S>>)
    requires
        capacity >= 1,
    ensures
        ({
            let history = CoreThreadHistory::<S>::started(capacity).replay(events);
            &&& history.invoked.len() == history.replies.len() + history.in_flight()
            &&& history.in_flight() <= 1
            &&& forall|i: int|
                0 <= i < history.replies.len() ==> (#[trigger] history.replies[i]).outcome().answers(
                    history.invoked[i],
                )
            &&& history.state.in_flight is Some ==> history.step(CoreThreadEvent::Run) == history
        }),
{
    lemma_replay_consistent(CoreThreadHistory::<S>::started(capacity), events);
}

/// After the stop no command is accepted. Whatever happened before the
/// stop and whatever happens after it, the accepted commands are those that
/// were accepted when the handle stopped the thread, and a command that is
/// sent, or offered again, is discarded: it is dropped, and its slot with it.
pub proof fn law_stop_closes_the_queue<S>(
    capacity: nat,
    before: Seq<CoreThreadEvent<S>>,
    after: Seq<CoreThreadEvent<S>>,
    command: CoreThreadCommand<S>,
)
    requires
        capacity >= 1,
    ensures
        ({
            let stopped = CoreThreadHistory::<S>::started(capacity).replay(before).step(
                CoreThreadEvent::Stop,
            );
            let history = stopped.replay(after);
            &&& history.accepted == stopped.accepted
            &&& history.state.send(command).1 == CoreThreadSend::<S>::Discarded
            &&& history.state.resend(command).1 == CoreThreadSend::<S>::Discarded
            &&& history.step(CoreThreadEvent::Send(command)).accepted == stopped.accepted
            &&& history.step(CoreThreadEvent::Send(command)).state.pending == history.state.pending
            &&& history.step(CoreThreadEvent::Resend(command)) == history
        }),
{
    let stopped = CoreThreadHistory::<S>::started(capacity).replay(before).step(
        CoreThreadEvent::Stop,
    );
    lemma_closed_stays_closed(stopped, after);
}

/// The worker ends with nothing left behind. It ends only when the queue is
/// closed, and when it has ended the queue is empty, the engine was invoked
/// with every command that was ever accepted, and each of them got its
/// reply, in its own slot and in the order of acceptance.
pub proof fn law_worker_ends_with_all_answered<S>(capacity: nat, events: Seq<CoreThreadEvent<S>>)
    requires
        capacity >= 1,
    ensures
        ({
            let history = CoreThreadHistory::<S>::started(capacity).replay(events);
            history.state.exited ==> {
                &&& history.state.closed
                &&& history.state.pending.len() == 0
                &&& history.state.in_flight is None
                &&& history.invoked.len() == history.accepted.len()
                &&& history.replies.len() == history.accepted.len()
                &&& forall|i: int|
                    0 <= i < history.accepted.len() ==> {
                        &&& #[trigger] history.invoked[i] == history.accepted[i].operation()
                        &&& history.replies[i].slot() == history.accepted[i].slot()
                        &&& history.replies[i].outcome().answers(history.invoked[i])
                    }
            }
        }),
{
    lemma_replay_consistent(CoreThreadHistory::<S>::started(capacity), events);
}

/// The worker catches up. Take a point of an execution at which the engine
/// is not at work and the worker has not ended, and outcomes that answer the
/// queued commands, one for each and in their order. Then serving the
/// commands with these outcomes empties the queue: the engine is invoked as
/// many times as commands were queued, with their operations in their order,
/// and each command gets its reply. One more turn of the worker, and the
/// harness is in the state that is called caught up.
pub proof fn law_worker_catches_up<S>(
    capacity: nat,
    events: Seq<CoreThreadEvent<S>>,
    outcomes: Seq<CoreOutcome>,
)
    requires
        capacity >= 1,
        ({
            let history = CoreThreadHistory::<S>::started(capacity).replay(events);
            &&& !history.state.exited
            &&& history.state.in_flight is None
            &&& outcomes.len() == history.state.pending.len()
            &&& forall|i: int|
                0 <= i < outcomes.len() ==> (#[trigger] outcomes[i]).answers(
                    history.state.pending[i].operation(),
                )
        }),
    ensures
        ({
            let history = CoreThreadHistory::<S>::started(capacity).replay(events);
            let served = history.replay(serving(outcomes));
            &&& served.accepted == history.accepted
            &&& served.state.pending.len() == 0
            &&& served.state.in_flight is None
            &&& served.step(CoreThreadEvent::Run).state == history.state.caught_up()
            &&& served.invoked.len() == history.invoked.len() + outcomes.len()
            &&& served.replies.len() == history.replies.len() + outcomes.len()
            &&& forall|i: int|
                0 <= i < outcomes.len() ==> {
                    &&& #[trigger] served.invoked[history.invoked.len() + i]
                        == history.state.pending[i].operation()
                    &&& served.replies[history.replies.len() + i]
                        == history.state.pending[i].pending_reply().reply_to(outcomes[i])
                }
        }),
{
    let initial = CoreThreadHistory::<S>::started(capacity);
    lemma_replay_consistent(initial, events);
    lemma_serving(initial.replay(events), outcomes, outcomes.len());
    assert(outcomes.take(outcomes.len() as int) =~= outcomes);
    let served = initial.replay(events).replay(serving(outcomes));
    assert(served.state.pending =~= Seq::empty());
}

/// A worker that was stopped comes to its end. Take a point of an execution
/// at which the queue is closed and the engine is not at work, and outcomes
/// that answer the queued commands. Then the worker serves what is queued,
/// and its next turn ends it: whoever waits for the end of the worker waits
/// for as many invocations as commands were queued, and no longer.
pub proof fn law_stopped_worker_ends<S>(
    capacity: nat,
    events: Seq<CoreThreadEvent<S>>,
    outcomes: Seq<CoreOutcome>,
)
    requires
        capacity >= 1,
        ({
            let history = CoreThreadHistory::<S>::started(capacity).replay(events);
            &&& history.state.closed
            &&& !history.state.exited
            &&& history.state.in_flight is None
            &&& outcomes.len() == history.state.pending.len()
            &&& forall|i: int|
                0 <= i < outcomes.len() ==> (#[trigger] outcomes[i]).answers(
                    history.state.pending[i].operation(),
                )
        }),
    ensures
        ({
            let history = CoreThreadHistory::<S>::started(capacity).replay(events);
            let served = history.replay(serving(outcomes));
            let ended = served.step(CoreThreadEvent::Run);
            &&& !served.state.exited
            &&& ended.state.exited
            &&& ended.invoked == served.invoked
            &&& ended.invoked.len() == history.invoked.len() + outcomes.len()
            &&& ended.replies.len() == history.replies.len() + outcomes.len()
        }),
{
    let initial = CoreThreadHistory::<S>::started(capacity);
    lemma_replay_consistent(initial, events);
    lemma_serving(initial.replay(events), outcomes, outcomes.len());
    assert(outcomes.take(outcomes.len() as int) =~= outcomes);
}

proof fn lemma_serving<S>(history: CoreThreadHistory<S>, outcomes: Seq<CoreOutcome>, count: nat)
    requires
        history.consistent(),
        !history.state.exited,
        history.state.in_flight is None,
        count <= outcomes.len() <= history.state.pending.len(),
        forall|i: int|
            0 <= i < outcomes.len() ==> (#[trigger] outcomes[i]).answers(
                history.state.pending[i].operation(),
            ),
    ensures
        ({
            let served = history.replay(serving(outcomes.take(count as int)));
            &&& served.consistent()
            &&& served.state.pending == history.state.pending.skip(count as int)
            &&& served.state.in_flight is None
            &&& served.state.exited == history.state.exited
            &&& served.state.closed == history.state.closed
            &&& served.accepted == history.accepted
            &&& served.state.capacity == history.state.capacity
            &&& served.state.enqueued == history.state.enqueued
            &&& served.state.dequeued == counted_by(history.state.dequeued, count)
            &&& served.invoked.len() == history.invoked.len() + count
            &&& served.replies.len() == history.replies.len() + count
            &&& forall|i: int|
                0 <= i < count ==> {
                    &&& #[trigger] served.invoked[history.invoked.len() + i]
                        == history.state.pending[i].operation()
                    &&& served.replies[history.replies.len() + i]
                        == history.state.pending[i].pending_reply().reply_to(outcomes[i])
                }
        }),
    decreases count,
{
    if count > 0 {
        let shorter = (count - 1) as nat;
        lemma_serving(history, outcomes, shorter);
        // The events for `count` outcomes are those for one outcome less,
        // then a turn of the worker, then the report of the last outcome.
        let events = serving::<S>(outcomes.take(count as int));
        let earlier = serving::<S>(outcomes.take(shorter as int));
        let turn = earlier.push(CoreThreadEvent::Run);
        assert(outcomes.take(count as int).drop_last() =~= outcomes.take(shorter as int));
        assert(events.drop_last() =~= turn);
        assert(turn.drop_last() =~= earlier);
        assert(history.replay(turn) == history.replay(earlier).step(CoreThreadEvent::Run));
        lemma_step_consistent(history.replay(earlier), CoreThreadEvent::Run);
        lemma_step_consistent(
            history.replay(turn),
            CoreThreadEvent::Complete(outcomes[shorter as int]),
        );
    }
}

/// The queue neither drops a command nor lets one pass another, however
/// many are sent. It never holds more than its capacity. A send to a full
/// queue is counted and changes nothing else, and the very command comes
/// back. Offering it again while the queue is full changes nothing at all;
/// and as soon as the worker has taken a command off a full queue that is
/// open, the command is accepted, and is not counted a second time.
pub proof fn law_backpressure<S>(
    capacity: nat,
    events: Seq<CoreThreadEvent<S>>,
    command: CoreThreadCommand<S>,
)
    requires
        capacity >= 1,
    ensures
        ({
            let history = CoreThreadHistory::<S>::started(capacity).replay(events);
            let state = history.state;
            let full = !state.closed && state.pending.len() == capacity;
            &&& state.pending.len() <= capacity
            &&& history.accepted == history.taken + state.pending
            &&& state.send(command).1 is Full <==> full
            &&& state.resend(command).1 is Full <==> full
            &&& full ==> state.send(command) == (
                CoreThreadState { enqueued: counted(state.enqueued), ..state },
                CoreThreadSend::Full(command),
            )
            &&& full ==> state.resend(command) == (state, CoreThreadSend::Full(command))
            &&& full && state.idle() ==> state.run().1 is Invoke
            &&& full && state.run().1 is Invoke ==> {
                let accepted = state.run().0.resend(command);
                &&& accepted.1 == CoreThreadSend::<S>::Enqueued
                &&& accepted.0.pending == state.pending.drop_first().push(command)
                &&& accepted.0.enqueued == state.enqueued
            }
        }),
{
    let initial = CoreThreadHistory::<S>::started(capacity);
    lemma_replay_consistent(initial, events);
    lemma_capacity_fixed(initial, events);
}

proof fn lemma_capacity_fixed<S>(history: CoreThreadHistory<S>, events: Seq<CoreThreadEvent<S>>)
    ensures
        history.replay(events).state.capacity == history.state.capacity,
    decreases events.len(),
{
    if events.len() > 0 {
        lemma_capacity_fixed(history, events.drop_last());
    }
}

/// Asking twice gives the same answer. Let the engine be a function of its
/// state, and let the query for the missing blocks leave that state as it
/// is. Then two such queries that the worker serves one after the other,
/// with nothing between them, get equal replies, each in its own slot, and
/// the engine is afterwards as it was before.
pub proof fn law_idempotent_observation<S, E>(
    state: CoreThreadState<S>,
    first: S,
    second: S,
    engine: E,
    apply: spec_fn(E, CoreOperation) -> (E, CoreOutcome),
)
    requires
        state.wf(),
        !state.exited,
        state.in_flight is None,
        state.pending.len() >= 2,
        state.pending[0] == CoreThreadCommand::GetMissing(first),
        state.pending[1] == CoreThreadCommand::GetMissing(second),
        forall|e: E, operation: CoreOperation| (#[trigger] apply(e, operation)).1.answers(operation),
        forall|e: E| (#[trigger] apply(e, CoreOperation::GetMissing)).0 == e,
    ensures
        ({
            let once = serve(state, engine, apply);
            let twice = serve(once.0, once.1, apply);
            &&& once.2 is Some
            &&& twice.2 is Some
            &&& once.2->Some_0.slot() == first
            &&& twice.2->Some_0.slot() == second
            &&& once.2->Some_0.outcome() == twice.2->Some_0.outcome()
            &&& once.2->Some_0.outcome() == apply(engine, CoreOperation::GetMissing).1
            &&& twice.1 == engine
        }),
{
}

/// Every send is counted, and counted once. A send makes the counter of
/// sends one larger, up to the largest value, whatever becomes of the
/// command: enqueued, returned by a full queue, or discarded. Offering a
/// returned command again leaves the counter as it is. Neither touches the
/// counter of the commands that the worker took.
pub proof fn law_every_send_is_counted_once<S>(
    state: CoreThreadState<S>,
    command: CoreThreadCommand<S>,
)
    ensures
        state.send(command).0.enqueued == counted(state.enqueued),
        state.send(command).0.dequeued == state.dequeued,
        state.send(command).1 == state.resend(command).1,
        state.send(command).0.pending == state.resend(command).0.pending,
        state.resend(command).0.enqueued == state.enqueued,
        state.resend(command).0.dequeued == state.dequeued,
{
}

/// The two counters only ever go up: no event makes either smaller.
pub proof fn law_counters_never_decrease<S>(
    history: CoreThreadHistory<S>,
    event: CoreThreadEvent<S>,
)
    ensures
        history.step(event).state.enqueued >= history.state.enqueued,
        history.step(event).state.dequeued >= history.state.dequeued,
{
}

} // verus!
