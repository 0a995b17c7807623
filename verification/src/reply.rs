//! Reply slots made of tokio's one-shot channels.
//!
//! The harness takes any type as the slot of a command. Here is the one that
//! an embedding on threads and tasks uses: the sending half of a one-shot
//! channel, of which the caller keeps the receiving half and awaits it. A
//! slot of this kind is written once at most, because sending consumes it,
//! and a slot that is dropped unwritten wakes its caller with an error.

use crate::block::{Block, BlockRef, Round};
use crate::command::{CoreOperation, CoreOutcome, CoreThreadCommand, CoreThreadReply};
use crate::engine::Core;
use std::collections::HashSet;
use tokio::sync::oneshot::{Receiver, Sender};
use vstd::prelude::*;

verus! {

/// tokio's `oneshot::Sender`: the half of a one-shot channel that sends the
/// one value. Nothing is known of what it holds.
#[verifier::external_type_specification]
#[verifier::external_body]
#[verifier::reject_recursive_types(T)]
pub struct ExSender<T>(Sender<T>);

/// tokio's `oneshot::Receiver`: the half of a one-shot channel on which the
/// one value arrives. Nothing is known of what it holds.
#[verifier::external_type_specification]
#[verifier::external_body]
#[verifier::reject_recursive_types(T)]
pub struct ExReceiver<T>(Receiver<T>);

/// tokio's `oneshot::channel`: makes a channel for one value and returns its
/// two halves. Nothing is claimed of them.
#[verifier::external_body]
fn one_shot<T>() -> (halves: (Sender<T>, Receiver<T>)) {
    tokio::sync::oneshot::channel()
}

/// tokio's `oneshot::Sender::send`: hands the value to the channel without
/// waiting. Where the receiving half is gone already, the value comes back
/// in `Err`, and it is the value that was given. `Ok` says that the
/// receiving half was still there, not that the value will be read.
#[verifier::external_body]
fn send_value<T>(sender: Sender<T>, value: T) -> (result: Result<(), T>)
    ensures
        result matches Err(returned) ==> returned == value,
{
    sender.send(value)
}

/// The slot of a command: the sending half of the channel on which the
/// caller waits, for the kind of value that the command is answered with.
#[derive(Debug)]
pub enum ReplySender {
    AddBlocks(Sender<Vec<BlockRef>>),
    ForceNewBlock(Sender<()>),
    GetMissing(Sender<Vec<HashSet<BlockRef>>>),
}

impl ReplySender {
    /// Whether the slot is made for a value of the outcome's kind.
    pub open spec fn takes(self, outcome: CoreOutcome) -> bool {
        match (self, outcome) {
            (ReplySender::AddBlocks(_), CoreOutcome::AddBlocks(_)) => true,
            (ReplySender::ForceNewBlock(_), CoreOutcome::ForceNewBlock) => true,
            (ReplySender::GetMissing(_), CoreOutcome::GetMissing(_)) => true,
            _ => false,
        }
    }
}

impl CoreThreadCommand<ReplySender> {
    /// Whether the slot of the command is made for the kind of value that
    /// the command is answered with.
    pub open spec fn fits(self) -> bool {
        match self {
            CoreThreadCommand::AddBlocks(_, slot) => slot is AddBlocks,
            CoreThreadCommand::ForceNewBlock(_, slot) => slot is ForceNewBlock,
            CoreThreadCommand::GetMissing(slot) => slot is GetMissing,
        }
    }

    /// The request to ingest `blocks`, with a fresh channel for its answer:
    /// the command to send, and the half on which the caller waits.
    pub fn add_blocks(blocks: Vec<Block>) -> (request: (
        CoreThreadCommand<ReplySender>,
        Receiver<Vec<BlockRef>>,
    ))
        ensures
            request.0.operation() == CoreOperation::AddBlocks(blocks),
            request.0.fits(),
    {
        let (sender, receiver) = one_shot();
        (CoreThreadCommand::AddBlocks(blocks, ReplySender::AddBlocks(sender)), receiver)
    }

    /// The request to propose a block for `round`, with a fresh channel for
    /// its answer: the command to send, and the half on which the caller
    /// waits.
    pub fn force_new_block(round: Round) -> (request: (CoreThreadCommand<ReplySender>, Receiver<()>))
        ensures
            request.0.operation() == CoreOperation::ForceNewBlock(round),
            request.0.fits(),
    {
        let (sender, receiver) = one_shot();
        (CoreThreadCommand::ForceNewBlock(round, ReplySender::ForceNewBlock(sender)), receiver)
    }

    /// The request for the missing blocks, with a fresh channel for its
    /// answer: the command to send, and the half on which the caller waits.
    pub fn get_missing() -> (request: (
        CoreThreadCommand<ReplySender>,
        Receiver<Vec<HashSet<BlockRef>>>,
    ))
        ensures
            request.0.operation() == CoreOperation::GetMissing,
            request.0.fits(),
    {
        let (sender, receiver) = one_shot();
        (CoreThreadCommand::GetMissing(ReplySender::GetMissing(sender)), receiver)
    }

    /// What the worker does with a command that it has received: invokes the
    /// engine with the command's operation, once, and writes what the engine
    /// returned into the command's slot. Where the caller has given up, the
    /// value that the engine returned comes back, to be dropped.
    pub fn apply<C: Core>(self, core: &mut C) -> (result: Result<(), CoreOutcome>)
        ensures
            final(core).invoked() == old(core).invoked().push(self.operation()),
            final(core).returned().len() == old(core).returned().len() + 1,
            final(core).returned().drop_last() == old(core).returned(),
            final(core).returned().last().answers(self.operation()),
            result matches Err(undelivered) ==> undelivered == final(core).returned().last(),
            result is Ok ==> self.fits(),
    {
        let (operation, pending) = self.into_call();
        let outcome = operation.perform(core);
        proof {
            assert(core.returned().drop_last() =~= old(core).returned());
        }
        match pending.reply(outcome) {
            Ok(reply) => deliver(reply),
            Err((_, outcome)) => Err(outcome),
        }
    }
}

/// The reply to a command carries a value of the kind that the command's
/// slot was made for: whatever the engine returned for the command's
/// operation, the reply that the worker makes of it can be delivered.
pub proof fn law_reply_fits_its_slot(command: CoreThreadCommand<ReplySender>, outcome: CoreOutcome)
    requires
        command.fits(),
        outcome.answers(command.operation()),
    ensures
        command.pending_reply().expects(outcome),
        command.pending_reply().reply_to(outcome).slot() == command.slot(),
        command.slot().takes(command.pending_reply().reply_to(outcome).outcome()),
{
}

/// Writes the reply into its slot. The worker neither waits nor fails here:
/// where the caller has given up, the value comes back, to be dropped. A
/// value of another kind than the slot is made for is never sent.
pub fn deliver(reply: CoreThreadReply<ReplySender>) -> (result: Result<(), CoreOutcome>)
    ensures
        result is Ok ==> reply.slot().takes(reply.outcome()),
        result matches Err(undelivered) ==> undelivered == reply.outcome(),
{
    match reply {
        CoreThreadReply::AddBlocks(ReplySender::AddBlocks(sender), missing) => {
            match send_value(sender, missing) {
                Ok(()) => Ok(()),
                Err(missing) => Err(CoreOutcome::AddBlocks(missing)),
            }
        },
        CoreThreadReply::ForceNewBlock(ReplySender::ForceNewBlock(sender)) => {
            match send_value(sender, ()) {
                Ok(()) => Ok(()),
                Err(_) => Err(CoreOutcome::ForceNewBlock),
            }
        },
        CoreThreadReply::GetMissing(ReplySender::GetMissing(sender), missing) => {
            match send_value(sender, missing) {
                Ok(()) => Ok(()),
                Err(missing) => Err(CoreOutcome::GetMissing(missing)),
            }
        },
        CoreThreadReply::AddBlocks(_, missing) => Err(CoreOutcome::AddBlocks(missing)),
        CoreThreadReply::ForceNewBlock(_) => Err(CoreOutcome::ForceNewBlock),
        CoreThreadReply::GetMissing(_, missing) => Err(CoreOutcome::GetMissing(missing)),
    }
}

} // verus!
