//! The core thread: the worker that owns the receiving end of the queue, the
//! dispatchers that send to it, and the handle that stops it.

use crate::block::{Block, Round};
use crate::command::{
    CoreOutcome, CoreThreadAction, CoreThreadCommand, CoreThreadReply, CoreThreadSend,
    CoreThreadTurn, PendingReply,
};
use crate::engine::Core;
use crate::error::CoreError;
use crate::model::{counted, counted_by, CoreThreadState};
use crate::queue::{CommandQueue, DequeueRefused, EnqueueRefused};
use tokio::sync::oneshot::error::RecvError;
use vstd::prelude::*;

verus! {

/// The number of commands that the queue of a core thread holds.
pub const QUEUE_CAPACITY: usize = 32;

/// Counts once more, up to the largest value.
fn count(counter: u64) -> (next: u64)
    ensures
        next == counted(counter),
{
    if counter < u64::MAX {
        counter + 1
    } else {
        counter
    }
}

/// The worker and its queue. It takes one command at a time off the queue,
/// and no second one before the engine has answered the first.
pub struct CoreThread<S> {
    authority: u32,
    receiver: CommandQueue<S>,
    in_flight: Option<PendingReply<S>>,
    exited: bool,
    commands_enqueued: u64,
    commands_dequeued: u64,
}

impl<S> View for CoreThread<S> {
    type V = CoreThreadState<S>;

    closed spec fn view(&self) -> CoreThreadState<S> {
        CoreThreadState {
            pending: self.receiver@,
            capacity: self.receiver.spec_capacity() as nat,
            closed: self.receiver.spec_is_closed(),
            in_flight: self.in_flight,
            exited: self.exited,
            enqueued: self.commands_enqueued,
            dequeued: self.commands_dequeued,
        }
    }
}

impl<S> CoreThread<S> {
    /// What holds of every core thread: its state is one that the harness
    /// can be in.
    pub open spec fn wf(&self) -> bool {
        self@.wf()
    }

    /// The authority whose engine the core thread drives. It names the core
    /// thread: the dispatchers and the handle that were made with the core
    /// thread carry the same name, and no others reach it.
    pub closed spec fn authority(&self) -> u32 {
        self.authority
    }

    /// One turn of the worker's loop. It takes the oldest command off the
    /// queue and says with which operation the engine is to be invoked, or
    /// that there is nothing to do now, or that the worker has ended. While
    /// an invocation is in flight it takes nothing.
    pub fn run(&mut self) -> (action: CoreThreadAction)
        ensures
            old(self).wf() ==> final(self).wf(),
            final(self).authority() == old(self).authority(),
            final(self)@ == old(self)@.run().0,
            action == old(self)@.run().1,
    {
        if self.exited {
            return CoreThreadAction::Exit;
        }
        if self.in_flight.is_some() {
            return CoreThreadAction::Busy;
        }
        match self.receiver.dequeue() {
            Ok(command) => {
                let (operation, pending) = command.into_call();
                self.in_flight = Some(pending);
                self.commands_dequeued = count(self.commands_dequeued);
                CoreThreadAction::Invoke(operation)
            },
            Err(DequeueRefused::Closed) => {
                self.exited = true;
                CoreThreadAction::Exit
            },
            Err(DequeueRefused::Empty) => CoreThreadAction::Wait,
        }
    }

    /// Takes what the engine returned from the invocation in flight, and
    /// gives the reply for the slot that waited: the engine's value as it is.
    /// An outcome that answers no invocation in flight comes back.
    pub fn complete(&mut self, outcome: CoreOutcome) -> (result: Result<
        CoreThreadReply<S>,
        CoreOutcome,
    >)
        ensures
            old(self).wf() ==> final(self).wf(),
            final(self).authority() == old(self).authority(),
            final(self)@ == old(self)@.complete(outcome).0,
            result == old(self)@.complete(outcome).1,
    {
        match self.in_flight.take() {
            Some(pending) => match pending.reply(outcome) {
                Ok(reply) => Ok(reply),
                Err((pending, outcome)) => {
                    self.in_flight = Some(pending);
                    Err(outcome)
                },
            },
            None => Err(outcome),
        }
    }

    /// One whole turn of the worker with the engine at hand: takes the
    /// oldest command off the queue, invokes the engine with its operation,
    /// once, and gives the reply for the command's slot, which holds what
    /// the engine returned. A turn that takes no command leaves the engine
    /// alone.
    pub fn serve<C: Core>(&mut self, core: &mut C) -> (turn: CoreThreadTurn<S>)
        ensures
            old(self).wf() ==> final(self).wf(),
            final(self).authority() == old(self).authority(),
            match turn {
                CoreThreadTurn::Replied(reply) => {
                    &&& old(self)@.run().1 is Invoke
                    &&& final(core).invoked() == old(core).invoked().push(
                        old(self)@.run().1->Invoke_0,
                    )
                    &&& final(core).returned() == old(core).returned().push(reply.outcome())
                    &&& reply.outcome().answers(old(self)@.run().1->Invoke_0)
                    &&& final(self)@ == old(self)@.run().0.complete(reply.outcome()).0
                    &&& Ok::<CoreThreadReply<S>, CoreOutcome>(reply) == old(self)@.run().0.complete(
                        reply.outcome(),
                    ).1
                },
                CoreThreadTurn::Busy => {
                    &&& old(self)@.run().1 is Busy
                    &&& final(self)@ == old(self)@
                    &&& final(core).invoked() == old(core).invoked()
                    &&& final(core).returned() == old(core).returned()
                },
                CoreThreadTurn::Wait => {
                    &&& old(self)@.run().1 is Wait
                    &&& final(self)@ == old(self)@
                    &&& final(core).invoked() == old(core).invoked()
                    &&& final(core).returned() == old(core).returned()
                },
                CoreThreadTurn::Exit => {
                    &&& old(self)@.run().1 is Exit
                    &&& final(self)@ == old(self)@.run().0
                    &&& final(core).invoked() == old(core).invoked()
                    &&& final(core).returned() == old(core).returned()
                },
            },
    {
        match self.run() {
            CoreThreadAction::Invoke(operation) => {
                let outcome = operation.perform(core);
                match self.complete(outcome) {
                    Ok(reply) => CoreThreadTurn::Replied(reply),
                    Err(_) => unreached(),
                }
            },
            CoreThreadAction::Busy => CoreThreadTurn::Busy,
            CoreThreadAction::Wait => CoreThreadTurn::Wait,
            CoreThreadAction::Exit => CoreThreadTurn::Exit,
        }
    }

    /// Serves all that is queued: takes the commands off the queue one
    /// after the other, invokes the engine with the operation of each, in
    /// their order and once, and gives their replies in the same order, each
    /// in the slot of its command and with what the engine returned for it.
    /// It ends with the turn that found nothing to serve, and so says
    /// whether the worker waits for more or has ended.
    pub fn serve_queued<C: Core>(&mut self, core: &mut C) -> (served: (
        Vec<CoreThreadReply<S>>,
        CoreThreadAction,
    ))
        ensures
            old(self).wf() ==> final(self).wf(),
            final(self).authority() == old(self).authority(),
            final(self)@ == old(self)@.caught_up(),
            served.1 == final(self)@.run().1,
            !(served.1 is Invoke),
            served.0@.len() == if old(self)@.idle() {
                old(self)@.pending.len()
            } else {
                0
            },
            final(core).invoked() == old(core).invoked() + Seq::new(
                served.0@.len(),
                |i: int| old(self)@.pending[i].operation(),
            ),
            final(core).returned() == old(core).returned() + Seq::new(
                served.0@.len(),
                |i: int| served.0@[i].outcome(),
            ),
            forall|i: int|
                0 <= i < served.0@.len() ==> {
                    &&& (#[trigger] served.0@[i]).outcome().answers(
                        old(self)@.pending[i].operation(),
                    )
                    &&& served.0@[i] == old(self)@.pending[i].pending_reply().reply_to(
                        served.0@[i].outcome(),
                    )
                },
    {
        let ghost before = self@;
        let ghost invoked = core.invoked();
        let ghost returned = core.returned();
        let mut replies: Vec<CoreThreadReply<S>> = Vec::new();
        proof {
            assert(before.pending.skip(0) =~= before.pending);
            assert(invoked =~= invoked + Seq::new(0, |i: int| before.pending[i].operation()));
            assert(returned =~= returned + Seq::new(0, |i: int| replies@[i].outcome()));
        }
        loop
            invariant
                before.wf() ==> self.wf(),
                before == old(self)@,
                invoked == old(core).invoked(),
                returned == old(core).returned(),
                self.authority() == old(self).authority(),
                replies@.len() <= before.pending.len(),
                replies@.len() > 0 ==> before.idle(),
                before.idle() ==> self@.idle(),
                !before.idle() ==> self@ == before,
                self@ == (CoreThreadState {
                    pending: before.pending.skip(replies@.len() as int),
                    dequeued: counted_by(before.dequeued, replies@.len()),
                    ..before
                }),
                core.invoked() == invoked + Seq::new(
                    replies@.len(),
                    |i: int| before.pending[i].operation(),
                ),
                core.returned() == returned + Seq::new(
                    replies@.len(),
                    |i: int| replies@[i].outcome(),
                ),
                forall|i: int|
                    0 <= i < replies@.len() ==> {
                        &&& (#[trigger] replies@[i]).outcome().answers(
                            before.pending[i].operation(),
                        )
                        &&& replies@[i] == before.pending[i].pending_reply().reply_to(
                            replies@[i].outcome(),
                        )
                    },
            decreases self@.pending.len(),
        {
            let ghost earlier = self@;
            let ghost served = replies@;
            match self.serve(core) {
                CoreThreadTurn::Replied(reply) => {
                    replies.push(reply);
                    proof {
                        let count = served.len() as int;
                        assert(earlier.pending[0] == before.pending[count]);
                        assert(earlier.pending.drop_first() =~= before.pending.skip(count + 1));
                        assert(core.invoked() =~= invoked + Seq::new(
                            replies@.len(),
                            |i: int| before.pending[i].operation(),
                        ));
                        assert(core.returned() =~= returned + Seq::new(
                            replies@.len(),
                            |i: int| replies@[i].outcome(),
                        ));
                    }
                },
                CoreThreadTurn::Busy => {
                    return (replies, CoreThreadAction::Busy);
                },
                CoreThreadTurn::Wait => {
                    proof {
                        assert(self@.pending =~= Seq::empty());
                    }
                    return (replies, CoreThreadAction::Wait);
                },
                CoreThreadTurn::Exit => {
                    proof {
                        if before.idle() {
                            assert(self@.pending =~= Seq::empty());
                        }
                    }
                    return (replies, CoreThreadAction::Exit);
                },
            }
        }
    }

    /// The number of sends that dispatchers made to this core thread.
    pub fn commands_enqueued(&self) -> (count: u64)
        ensures
            count == self@.enqueued,
    {
        self.commands_enqueued
    }

    /// The number of commands that the worker took off the queue.
    pub fn commands_dequeued(&self) -> (count: u64)
        ensures
            count == self@.dequeued,
    {
        self.commands_dequeued
    }

    /// The number of commands that wait on the queue.
    pub fn queued(&self) -> (len: usize)
        ensures
            len == self@.pending.len(),
    {
        self.receiver.len()
    }

    /// Whether the worker has ended. It ends once, when the queue is closed
    /// and empty, and whoever stopped it has then nothing more to wait for.
    pub fn has_exited(&self) -> (exited: bool)
        ensures
            exited == self@.exited,
    {
        self.exited
    }
}

/// The handle through which callers reach the core thread. It owns nothing
/// of the thread: any number of copies may exist, and none keeps the thread
/// alive. It reaches the core thread that it was made with, and no other.
#[derive(Clone, Copy, Debug)]
pub struct CoreThreadDispatcher {
    authority: u32,
}

/// The one handle that can stop the core thread that it was made with.
/// Stopping consumes it.
#[derive(Debug)]
pub struct CoreThreadDispatcherHandle {
    authority: u32,
}

impl CoreThreadDispatcher {
    /// The name of the core thread that the dispatcher reaches.
    pub closed spec fn authority(&self) -> u32 {
        self.authority
    }

    /// What a send of this dispatcher makes of a core thread and the
    /// command. The dispatcher's own core thread counts the send and takes
    /// the command as its queue allows. To any other core thread the
    /// dispatcher has no way: that one stays as it is, and the command is
    /// dropped.
    pub open spec fn sending<S>(
        self,
        core_thread: CoreThread<S>,
        command: CoreThreadCommand<S>,
    ) -> (CoreThreadState<S>, CoreThreadSend<S>) {
        if self.authority() == core_thread.authority() {
            core_thread@.send(command)
        } else {
            (core_thread@, CoreThreadSend::Discarded)
        }
    }

    /// What this dispatcher makes of a core thread when it offers a command
    /// again that a full queue gave back: as a send, but not counted.
    pub open spec fn sending_again<S>(
        self,
        core_thread: CoreThread<S>,
        command: CoreThreadCommand<S>,
    ) -> (CoreThreadState<S>, CoreThreadSend<S>) {
        if self.authority() == core_thread.authority() {
            core_thread@.resend(command)
        } else {
            (core_thread@, CoreThreadSend::Discarded)
        }
    }

    /// Makes the core thread of an authority, with an empty queue, together
    /// with the first dispatcher for it and with its handle.
    pub fn start<S>(authority: u32) -> (started: (
        CoreThreadDispatcher,
        CoreThreadDispatcherHandle,
        CoreThread<S>,
    ))
        ensures
            started.0.authority() == authority,
            started.1.authority() == authority,
            started.2.authority() == authority,
            started.2.wf(),
            started.2@ == CoreThreadState::<S>::started(QUEUE_CAPACITY as nat),
    {
        let core_thread = CoreThread {
            authority,
            receiver: CommandQueue::new(QUEUE_CAPACITY),
            in_flight: None,
            exited: false,
            commands_enqueued: 0,
            commands_dequeued: 0,
        };
        (CoreThreadDispatcher { authority }, CoreThreadDispatcherHandle { authority }, core_thread)
    }

    /// Sends the request to ingest `blocks`, to be answered in `reply`.
    pub fn add_blocks<S>(&self, core_thread: &mut CoreThread<S>, blocks: Vec<Block>, reply: S) -> (sent:
        CoreThreadSend<S>)
        ensures
            old(core_thread).wf() ==> final(core_thread).wf(),
            final(core_thread).authority() == old(core_thread).authority(),
            final(core_thread)@ == self.sending(
                *old(core_thread),
                CoreThreadCommand::AddBlocks(blocks, reply),
            ).0,
            sent == self.sending(*old(core_thread), CoreThreadCommand::AddBlocks(blocks, reply)).1,
    {
        self.send(core_thread, CoreThreadCommand::AddBlocks(blocks, reply))
    }

    /// Sends the request to propose a block for `round`, to be answered in
    /// `reply`.
    pub fn force_new_block<S>(&self, core_thread: &mut CoreThread<S>, round: Round, reply: S) -> (sent:
        CoreThreadSend<S>)
        ensures
            old(core_thread).wf() ==> final(core_thread).wf(),
            final(core_thread).authority() == old(core_thread).authority(),
            final(core_thread)@ == self.sending(
                *old(core_thread),
                CoreThreadCommand::ForceNewBlock(round, reply),
            ).0,
            sent == self.sending(
                *old(core_thread),
                CoreThreadCommand::ForceNewBlock(round, reply),
            ).1,
    {
        self.send(core_thread, CoreThreadCommand::ForceNewBlock(round, reply))
    }

    /// Sends the request for the missing blocks, to be answered in `reply`.
    pub fn get_missing_blocks<S>(&self, core_thread: &mut CoreThread<S>, reply: S) -> (sent:
        CoreThreadSend<S>)
        ensures
            old(core_thread).wf() ==> final(core_thread).wf(),
            final(core_thread).authority() == old(core_thread).authority(),
            final(core_thread)@ == self.sending(
                *old(core_thread),
                CoreThreadCommand::GetMissing(reply),
            ).0,
            sent == self.sending(*old(core_thread), CoreThreadCommand::GetMissing(reply)).1,
    {
        self.send(core_thread, CoreThreadCommand::GetMissing(reply))
    }

    /// Counts the send, and then puts the command on the queue of the core
    /// thread. Where the sending end of the queue is gone the command is
    /// dropped, and with it its slot. A full queue gives the command back,
    /// to be offered again with `resend`.
    pub fn send<S>(&self, core_thread: &mut CoreThread<S>, command: CoreThreadCommand<S>) -> (sent:
        CoreThreadSend<S>)
        ensures
            old(core_thread).wf() ==> final(core_thread).wf(),
            final(core_thread).authority() == old(core_thread).authority(),
            final(core_thread)@ == self.sending(*old(core_thread), command).0,
            sent == self.sending(*old(core_thread), command).1,
    {
        if self.authority != core_thread.authority {
            return CoreThreadSend::Discarded;
        }
        core_thread.commands_enqueued = count(core_thread.commands_enqueued);
        match core_thread.receiver.enqueue(command) {
            Ok(()) => CoreThreadSend::Enqueued,
            Err(EnqueueRefused::Full(command)) => CoreThreadSend::Full(command),
            Err(EnqueueRefused::Closed(_)) => CoreThreadSend::Discarded,
        }
    }

    /// Offers a command again that a full queue gave back. This is the
    /// send that was counted when the command was first sent: the counter
    /// stays as it is. The queue takes the command, gives it back once
    /// more, or, where it was closed in the meantime, drops it.
    pub fn resend<S>(&self, core_thread: &mut CoreThread<S>, command: CoreThreadCommand<S>) -> (sent:
        CoreThreadSend<S>)
        ensures
            old(core_thread).wf() ==> final(core_thread).wf(),
            final(core_thread).authority() == old(core_thread).authority(),
            final(core_thread)@ == self.sending_again(*old(core_thread), command).0,
            sent == self.sending_again(*old(core_thread), command).1,
    {
        if self.authority != core_thread.authority {
            return CoreThreadSend::Discarded;
        }
        match core_thread.receiver.enqueue(command) {
            Ok(()) => CoreThreadSend::Enqueued,
            Err(EnqueueRefused::Full(command)) => CoreThreadSend::Full(command),
            Err(EnqueueRefused::Closed(_)) => CoreThreadSend::Discarded,
        }
    }

    /// What the caller gets from what came out of the reply slot: the value,
    /// or the error that says that the core thread is gone.
    pub fn reply<T>(received: Result<T, RecvError>) -> (result: Result<T, CoreError>)
        ensures
            match received {
                Ok(value) => result == Ok::<T, CoreError>(value),
                Err(error) => result == Err::<T, CoreError>(CoreError::Shutdown(error)),
            },
    {
        match received {
            Ok(value) => Ok(value),
            Err(error) => Err(CoreError::Shutdown(error)),
        }
    }
}

impl CoreThreadDispatcherHandle {
    /// The name of the core thread that the handle stops.
    pub closed spec fn authority(&self) -> u32 {
        self.authority
    }

    /// Releases the sending end of the queue of the handle's core thread.
    /// From now on every send is discarded. The worker still takes what is
    /// queued, and ends when the queue is empty. A core thread that is not
    /// the handle's own stays as it is, and the handle comes back.
    pub fn stop<S>(self, core_thread: &mut CoreThread<S>) -> (result: Result<
        (),
        CoreThreadDispatcherHandle,
    >)
        ensures
            old(core_thread).wf() ==> final(core_thread).wf(),
            final(core_thread).authority() == old(core_thread).authority(),
            self.authority() == old(core_thread).authority() ==> result is Ok && final(core_thread)@
                == old(core_thread)@.stop(),
            self.authority() != old(core_thread).authority() ==> result == Err::<
                (),
                CoreThreadDispatcherHandle,
            >(self) && final(core_thread)@ == old(core_thread)@,
    {
        if self.authority != core_thread.authority {
            return Err(self);
        }
        core_thread.receiver.close();
        Ok(())
    }
}

} // verus!
