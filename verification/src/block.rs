//! The values that travel through the harness. It hands them on as they are.

use vstd::prelude::*;

verus! {

/// The step of the protocol at which a block was proposed.
pub type Round = u32;

/// The identity of a block: where it was proposed, by whom, and its digest.
#[derive(Clone, Copy, Debug, PartialEq, Eq, Hash, PartialOrd, Ord)]
pub struct BlockRef {
    pub round: Round,
    pub author: u32,
    pub digest: [u8; 32],
}

/// A proposed block: its own reference and the blocks it builds on.
#[derive(Clone, Debug, PartialEq, Eq)]
pub struct Block {
    pub reference: BlockRef,
    pub ancestors: Vec<BlockRef>,
}

} // verus!
