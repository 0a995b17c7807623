//! The consensus engine, as far as the harness knows it.

use crate::block::{Block, BlockRef, Round};
use crate::command::{CoreOperation, CoreOutcome};
use std::collections::HashSet;
use vstd::prelude::*;

verus! {

/// The state machine that the worker drives. It keeps the DAG of blocks and
/// is not safe to share: the worker calls it with exclusive access, one call
/// after the other.
///
/// The harness asks one thing of an engine: that it can say what it was
/// invoked with and what it returned, call by call. What it returns is its
/// own affair. A verified engine defines the two records and proves its
/// three operations against them, as `RecordingCore` does. An engine that is
/// not verified leaves the records as they stand here, which no operation
/// could be proved against, and is taken at its word.
pub trait Core {
    /// The operations that the engine was invoked with, the first first.
    /// Nothing is known of the record of an engine but what the operations
    /// below ensure of it.
    open spec fn invoked(&self) -> Seq<CoreOperation> {
        Seq::empty()
    }

    /// What the engine returned, one outcome for each invocation and in the
    /// same order.
    open spec fn returned(&self) -> Seq<CoreOutcome> {
        Seq::empty()
    }

    /// Ingests the whole batch, and returns the references to ancestors
    /// that the blocks name and that are absent.
    fn add_blocks(&mut self, blocks: Vec<Block>) -> (missing: Vec<BlockRef>)
        ensures
            final(self).invoked() == old(self).invoked().push(CoreOperation::AddBlocks(blocks)),
            final(self).returned() == old(self).returned().push(CoreOutcome::AddBlocks(missing)),
    ;

    /// Proposes a block for the round, after a leader timeout.
    fn force_new_block(&mut self, round: Round)
        ensures
            final(self).invoked() == old(self).invoked().push(CoreOperation::ForceNewBlock(round)),
            final(self).returned() == old(self).returned().push(CoreOutcome::ForceNewBlock),
    ;

    /// Returns the missing references, one set for each pending round.
    fn get_missing_blocks(&mut self) -> (missing: Vec<HashSet<BlockRef>>)
        ensures
            final(self).invoked() == old(self).invoked().push(CoreOperation::GetMissing),
            final(self).returned() == old(self).returned().push(CoreOutcome::GetMissing(missing)),
    ;
}

impl CoreOperation {
    /// Invokes the engine with the operation: the one call that the
    /// operation names, with what the operation holds, and no other. The
    /// outcome is what that call returned.
    pub fn perform<C: Core>(self, core: &mut C) -> (outcome: CoreOutcome)
        ensures
            final(core).invoked() == old(core).invoked().push(self),
            final(core).returned() == old(core).returned().push(outcome),
            outcome.answers(self),
    {
        match self {
            CoreOperation::AddBlocks(blocks) => CoreOutcome::AddBlocks(core.add_blocks(blocks)),
            CoreOperation::ForceNewBlock(round) => {
                core.force_new_block(round);
                CoreOutcome::ForceNewBlock
            },
            CoreOperation::GetMissing => CoreOutcome::GetMissing(core.get_missing_blocks()),
        }
    }
}

/// An engine that keeps no blocks and misses none, and writes down what it
/// is asked. It serves where the harness is to be run without a consensus
/// behind it, and it shows what the harness asks of an engine.
pub struct RecordingCore {
    calls: Vec<CoreOperation>,
    answers: Ghost<Seq<CoreOutcome>>,
}

impl RecordingCore {
    /// An engine that has not been invoked yet.
    pub fn new() -> (core: Self)
        ensures
            core.invoked() == Seq::<CoreOperation>::empty(),
            core.returned() == Seq::<CoreOutcome>::empty(),
    {
        RecordingCore { calls: Vec::new(), answers: Ghost(Seq::empty()) }
    }

    /// The operations that the engine was invoked with, the first first.
    pub fn calls(&self) -> (calls: &Vec<CoreOperation>)
        ensures
            calls@ == self.invoked(),
    {
        &self.calls
    }
}

impl Core for RecordingCore {
    closed spec fn invoked(&self) -> Seq<CoreOperation> {
        self.calls@
    }

    closed spec fn returned(&self) -> Seq<CoreOutcome> {
        self.answers@
    }

    fn add_blocks(&mut self, blocks: Vec<Block>) -> (missing: Vec<BlockRef>)
        ensures
            missing@ == Seq::<BlockRef>::empty(),
    {
        let missing = Vec::new();
        self.calls.push(CoreOperation::AddBlocks(blocks));
        proof {
            self.answers@ = self.answers@.push(CoreOutcome::AddBlocks(missing));
        }
        missing
    }

    fn force_new_block(&mut self, round: Round) {
        self.calls.push(CoreOperation::ForceNewBlock(round));
        proof {
            self.answers@ = self.answers@.push(CoreOutcome::ForceNewBlock);
        }
    }

    fn get_missing_blocks(&mut self) -> (missing: Vec<HashSet<BlockRef>>)
        ensures
            missing@ == Seq::<HashSet<BlockRef>>::empty(),
    {
        let missing = Vec::new();
        self.calls.push(CoreOperation::GetMissing);
        proof {
            self.answers@ = self.answers@.push(CoreOutcome::GetMissing(missing));
        }
        missing
    }
}

} // verus!
