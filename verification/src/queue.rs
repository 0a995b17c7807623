//! The bounded queue between the dispatchers and the worker.

use crate::command::CoreThreadCommand;
use std::collections::VecDeque;
use vstd::prelude::*;

verus! {

/// Why the queue did not take a command. The command comes back either way.
#[derive(Debug, PartialEq, Eq)]
pub enum EnqueueRefused<S> {
    /// The queue holds as many commands as it can.
    Full(CoreThreadCommand<S>),
    /// The sending end was released.
    Closed(CoreThreadCommand<S>),
}

/// Why the queue gave no command.
#[derive(Clone, Copy, Debug, PartialEq, Eq)]
pub enum DequeueRefused {
    /// Nothing is queued now, but more may come.
    Empty,
    /// Nothing is queued and nothing will come any more.
    Closed,
}

/// A first-in, first-out queue of commands with a fixed capacity. Once
/// closed it takes no more commands, and gives out those it still holds.
pub struct CommandQueue<S> {
    buffer: VecDeque<CoreThreadCommand<S>>,
    capacity: usize,
    closed: bool,
}

impl<S> View for CommandQueue<S> {
    type V = Seq<CoreThreadCommand<S>>;

    /// The queued commands, the oldest first.
    closed spec fn view(&self) -> Seq<CoreThreadCommand<S>> {
        self.buffer@
    }
}

impl<S> CommandQueue<S> {
    /// What holds of every queue: it has room for a command at least, and
    /// is never over its capacity.
    pub open spec fn wf(&self) -> bool {
        1 <= self.spec_capacity() && self@.len() <= self.spec_capacity()
    }

    /// The number of commands that the queue holds at most.
    pub closed spec fn spec_capacity(&self) -> usize {
        self.capacity
    }

    /// Whether the sending end was released.
    pub closed spec fn spec_is_closed(&self) -> bool {
        self.closed
    }

    /// The number of queued commands.
    pub open spec fn spec_len(&self) -> usize {
        self@.len() as usize
    }

    /// An open, empty queue for `capacity` commands.
    pub fn new(capacity: usize) -> (queue: Self)
        requires
            capacity >= 1,
        ensures
            queue.wf(),
            queue@ == Seq::<CoreThreadCommand<S>>::empty(),
            queue.spec_capacity() == capacity,
            !queue.spec_is_closed(),
    {
        CommandQueue { buffer: VecDeque::new(), capacity, closed: false }
    }

    /// The number of commands that the queue holds at most.
    #[verifier::when_used_as_spec(spec_capacity)]
    pub fn capacity(&self) -> (capacity: usize)
        ensures
            capacity == self.spec_capacity(),
    {
        self.capacity
    }

    /// Whether the sending end was released.
    #[verifier::when_used_as_spec(spec_is_closed)]
    pub fn is_closed(&self) -> (closed: bool)
        ensures
            closed == self.spec_is_closed(),
    {
        self.closed
    }

    /// The number of queued commands.
    #[verifier::when_used_as_spec(spec_len)]
    pub fn len(&self) -> (len: usize)
        ensures
            len == self@.len(),
    {
        self.buffer.len()
    }

    /// Puts a command at the end of the queue, if the queue is open and has
    /// room. A refused command changes nothing and comes back as it was.
    pub fn enqueue(&mut self, command: CoreThreadCommand<S>) -> (result: Result<
        (),
        EnqueueRefused<S>,
    >)
        ensures
            old(self).wf() ==> final(self).wf(),
            final(self).spec_capacity() == old(self).spec_capacity(),
            final(self).spec_is_closed() == old(self).spec_is_closed(),
            old(self).spec_is_closed() ==> final(self)@ == old(self)@ && result == Err::<
                (),
                EnqueueRefused<S>,
            >(EnqueueRefused::Closed(command)),
            !old(self).spec_is_closed() && old(self)@.len() >= old(self).spec_capacity()
                ==> final(self)@ == old(self)@ && result == Err::<(), EnqueueRefused<S>>(
                EnqueueRefused::Full(command),
            ),
            !old(self).spec_is_closed() && old(self)@.len() < old(self).spec_capacity()
                ==> final(self)@ == old(self)@.push(command) && result is Ok,
    {
        if self.closed {
            Err(EnqueueRefused::Closed(command))
        } else if self.buffer.len() >= self.capacity {
            Err(EnqueueRefused::Full(command))
        } else {
            self.buffer.push_back(command);
            Ok(())
        }
    }

    /// Takes the oldest command off the queue. An empty queue says whether
    /// more may come.
    pub fn dequeue(&mut self) -> (result: Result<CoreThreadCommand<S>, DequeueRefused>)
        ensures
            old(self).wf() ==> final(self).wf(),
            final(self).spec_capacity() == old(self).spec_capacity(),
            final(self).spec_is_closed() == old(self).spec_is_closed(),
            old(self)@.len() > 0 ==> final(self)@ == old(self)@.drop_first() && result == Ok::<
                CoreThreadCommand<S>,
                DequeueRefused,
            >(old(self)@[0]),
            old(self)@.len() == 0 ==> final(self)@ == old(self)@ && result == Err::<
                CoreThreadCommand<S>,
                DequeueRefused,
            >(
                if old(self).spec_is_closed() {
                    DequeueRefused::Closed
                } else {
                    DequeueRefused::Empty
                },
            ),
    {
        match self.buffer.pop_front() {
            Some(command) => Ok(command),
            None => if self.closed {
                Err(DequeueRefused::Closed)
            } else {
                Err(DequeueRefused::Empty)
            },
        }
    }

    /// Releases the sending end. What is queued stays queued.
    pub fn close(&mut self)
        ensures
            old(self).wf() ==> final(self).wf(),
            final(self).spec_is_closed(),
            final(self)@ == old(self)@,
            final(self).spec_capacity() == old(self).spec_capacity(),
    {
        self.closed = true;
    }
}

} // verus!
