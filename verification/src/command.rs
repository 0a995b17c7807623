//! The vocabulary of the harness: what callers ask for, what the worker asks
//! of the engine, what the engine answers, and what goes back to the caller.
//!
//! A reply slot is a value of a type `S` that the embedding chooses: the
//! sending half of a one-shot channel, or a number in a simulation. The
//! harness never looks inside a slot. It moves the slot of a command into the
//! reply to that command, so a slot is used once at most.

use crate::block::{Block, BlockRef, Round};
use std::collections::HashSet;
use vstd::prelude::*;

verus! {

/// A request to the worker, with the slot that its reply is meant for.
#[derive(Debug, PartialEq, Eq)]
pub enum CoreThreadCommand<S> {
    /// Add blocks to be processed and accepted.
    AddBlocks(Vec<Block>, S),
    /// A leader timeout occurred and a block should be produced for the round.
    ForceNewBlock(Round, S),
    /// Report the blocks that are referenced but not yet present.
    GetMissing(S),
}

/// One invocation of the engine.
#[derive(Clone, Debug, PartialEq, Eq)]
pub enum CoreOperation {
    /// Ingest the whole batch.
    AddBlocks(Vec<Block>),
    /// Propose a block for the round.
    ForceNewBlock(Round),
    /// Query the missing ancestors. The engine keeps its state.
    GetMissing,
}

/// What the engine returned from one invocation.
#[derive(Clone, Debug, PartialEq, Eq)]
pub enum CoreOutcome {
    /// The ancestors that the ingested blocks refer to and that are absent.
    AddBlocks(Vec<BlockRef>),
    /// The proposal was made; there is nothing to report.
    ForceNewBlock,
    /// The missing references, one set for each pending round.
    GetMissing(Vec<HashSet<BlockRef>>),
}

/// The slot of the command that the engine is working on, and the kind of
/// answer that it waits for.
#[derive(Debug, PartialEq, Eq)]
pub enum PendingReply<S> {
    AddBlocks(S),
    ForceNewBlock(S),
    GetMissing(S),
}

/// A reply on its way to the caller: the slot together with the value.
#[derive(Debug, PartialEq, Eq)]
pub enum CoreThreadReply<S> {
    AddBlocks(S, Vec<BlockRef>),
    ForceNewBlock(S),
    GetMissing(S, Vec<HashSet<BlockRef>>),
}

/// How an attempt to enqueue a command ended.
#[derive(Debug, PartialEq, Eq)]
pub enum CoreThreadSend<S> {
    /// The command is on the queue, behind all that were accepted before it.
    Enqueued,
    /// The queue is full. The command comes back untouched: the caller waits
    /// until the worker has taken a command off, and offers it again.
    Full(CoreThreadCommand<S>),
    /// The sender has no way to the queue: the queue is closed, or it is the
    /// queue of another core thread. The command and its slot were dropped,
    /// which the owner of the slot's other half observes as a shutdown.
    Discarded,
}

/// What the embedding has to do after a turn of the worker.
#[derive(Debug, PartialEq, Eq)]
pub enum CoreThreadAction {
    /// A command was taken off the queue: invoke the engine with this
    /// operation and report what it returned.
    Invoke(CoreOperation),
    /// The engine is still working on the previous command.
    Busy,
    /// The queue is empty and open: wait until a command has been sent.
    Wait,
    /// The queue is closed and empty: the worker has ended.
    Exit,
}

/// How a whole turn of the worker ended, with the engine at hand.
#[derive(Debug, PartialEq, Eq)]
pub enum CoreThreadTurn<S> {
    /// A command was taken and the engine has answered it: here is the
    /// reply to deliver.
    Replied(CoreThreadReply<S>),
    /// An invocation is in flight elsewhere; nothing was taken.
    Busy,
    /// The queue is empty and open: wait until a command has been sent.
    Wait,
    /// The queue is closed and empty: the worker has ended.
    Exit,
}

impl<S> CoreThreadCommand<S> {
    /// The invocation of the engine that the command asks for.
    pub open spec fn operation(self) -> CoreOperation {
        match self {
            CoreThreadCommand::AddBlocks(blocks, _) => CoreOperation::AddBlocks(blocks),
            CoreThreadCommand::ForceNewBlock(round, _) => CoreOperation::ForceNewBlock(round),
            CoreThreadCommand::GetMissing(_) => CoreOperation::GetMissing,
        }
    }

    /// The slot that the command carries.
    pub open spec fn slot(self) -> S {
        match self {
            CoreThreadCommand::AddBlocks(_, slot) => slot,
            CoreThreadCommand::ForceNewBlock(_, slot) => slot,
            CoreThreadCommand::GetMissing(slot) => slot,
        }
    }

    /// What is kept of the command while the engine works on it.
    pub open spec fn pending_reply(self) -> PendingReply<S> {
        match self {
            CoreThreadCommand::AddBlocks(_, slot) => PendingReply::AddBlocks(slot),
            CoreThreadCommand::ForceNewBlock(_, slot) => PendingReply::ForceNewBlock(slot),
            CoreThreadCommand::GetMissing(slot) => PendingReply::GetMissing(slot),
        }
    }

    /// Splits the command into the invocation for the engine and the slot
    /// that waits for its answer.
    pub fn into_call(self) -> (call: (CoreOperation, PendingReply<S>))
        ensures
            call.0 == self.operation(),
            call.1 == self.pending_reply(),
    {
        match self {
            CoreThreadCommand::AddBlocks(blocks, slot) => (
                CoreOperation::AddBlocks(blocks),
                PendingReply::AddBlocks(slot),
            ),
            CoreThreadCommand::ForceNewBlock(round, slot) => (
                CoreOperation::ForceNewBlock(round),
                PendingReply::ForceNewBlock(slot),
            ),
            CoreThreadCommand::GetMissing(slot) => (
                CoreOperation::GetMissing,
                PendingReply::GetMissing(slot),
            ),
        }
    }
}

impl CoreOutcome {
    /// Whether the outcome is of the kind that the operation produces.
    pub open spec fn answers(self, operation: CoreOperation) -> bool {
        match (operation, self) {
            (CoreOperation::AddBlocks(_), CoreOutcome::AddBlocks(_)) => true,
            (CoreOperation::ForceNewBlock(_), CoreOutcome::ForceNewBlock) => true,
            (CoreOperation::GetMissing, CoreOutcome::GetMissing(_)) => true,
            _ => false,
        }
    }
}

impl<S> PendingReply<S> {
    /// The slot that waits.
    pub open spec fn slot(self) -> S {
        match self {
            PendingReply::AddBlocks(slot) => slot,
            PendingReply::ForceNewBlock(slot) => slot,
            PendingReply::GetMissing(slot) => slot,
        }
    }

    /// Whether the outcome is of the kind that the slot waits for.
    pub open spec fn expects(self, outcome: CoreOutcome) -> bool {
        match (self, outcome) {
            (PendingReply::AddBlocks(_), CoreOutcome::AddBlocks(_)) => true,
            (PendingReply::ForceNewBlock(_), CoreOutcome::ForceNewBlock) => true,
            (PendingReply::GetMissing(_), CoreOutcome::GetMissing(_)) => true,
            _ => false,
        }
    }

    /// The reply that the outcome makes: the slot with the engine's value,
    /// unchanged. Of an outcome of another kind nothing is said.
    pub open spec fn reply_to(self, outcome: CoreOutcome) -> CoreThreadReply<S> {
        match (self, outcome) {
            (PendingReply::AddBlocks(slot), CoreOutcome::AddBlocks(missing)) => {
                CoreThreadReply::AddBlocks(slot, missing)
            },
            (PendingReply::GetMissing(slot), CoreOutcome::GetMissing(missing)) => {
                CoreThreadReply::GetMissing(slot, missing)
            },
            _ => CoreThreadReply::ForceNewBlock(self.slot()),
        }
    }

    /// Joins the slot and the engine's outcome into the reply. An outcome of
    /// another kind than the slot waits for is refused, and both come back.
    pub fn reply(self, outcome: CoreOutcome) -> (result: Result<
        CoreThreadReply<S>,
        (PendingReply<S>, CoreOutcome),
    >)
        ensures
            self.expects(outcome) ==> result == Ok::<
                CoreThreadReply<S>,
                (PendingReply<S>, CoreOutcome),
            >(self.reply_to(outcome)),
            !self.expects(outcome) ==> result == Err::<
                CoreThreadReply<S>,
                (PendingReply<S>, CoreOutcome),
            >((self, outcome)),
    {
        match (self, outcome) {
            (PendingReply::AddBlocks(slot), CoreOutcome::AddBlocks(missing)) => Ok(
                CoreThreadReply::AddBlocks(slot, missing),
            ),
            (PendingReply::ForceNewBlock(slot), CoreOutcome::ForceNewBlock) => Ok(
                CoreThreadReply::ForceNewBlock(slot),
            ),
            (PendingReply::GetMissing(slot), CoreOutcome::GetMissing(missing)) => Ok(
                CoreThreadReply::GetMissing(slot, missing),
            ),
            (pending, other) => Err((pending, other)),
        }
    }
}

impl<S> CoreThreadReply<S> {
    /// The slot that the reply goes to.
    pub open spec fn slot(self) -> S {
        match self {
            CoreThreadReply::AddBlocks(slot, _) => slot,
            CoreThreadReply::ForceNewBlock(slot) => slot,
            CoreThreadReply::GetMissing(slot, _) => slot,
        }
    }

    /// The engine's outcome that the reply carries.
    pub open spec fn outcome(self) -> CoreOutcome {
        match self {
            CoreThreadReply::AddBlocks(_, missing) => CoreOutcome::AddBlocks(missing),
            CoreThreadReply::ForceNewBlock(_) => CoreOutcome::ForceNewBlock,
            CoreThreadReply::GetMissing(_, missing) => CoreOutcome::GetMissing(missing),
        }
    }
}

} // verus!
