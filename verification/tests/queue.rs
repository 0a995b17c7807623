use consensus_core::block::{Block, BlockRef};
use consensus_core::command::{CoreThreadCommand, PendingReply, CoreOperation, CoreOutcome, CoreThreadReply};
use consensus_core::engine::Core;
use consensus_core::queue::{CommandQueue, DequeueRefused, EnqueueRefused};
use std::collections::HashSet;

fn reference(round: u32) -> BlockRef {
    BlockRef { round, author: 1, digest: [7; 32] }
}

#[test]
fn a_new_queue_is_open_and_empty() {
    let mut queue: CommandQueue<u8> = CommandQueue::new(3);
    assert_eq!(queue.capacity(), 3);
    assert_eq!(queue.len(), 0);
    assert!(!queue.is_closed());
    assert_eq!(queue.dequeue(), Err(DequeueRefused::Empty));
}

#[test]
fn the_queue_gives_commands_out_in_the_order_it_took_them() {
    let mut queue: CommandQueue<u8> = CommandQueue::new(3);
    assert_eq!(queue.enqueue(CoreThreadCommand::GetMissing(1)), Ok(()));
    assert_eq!(queue.enqueue(CoreThreadCommand::ForceNewBlock(4, 2)), Ok(()));
    assert_eq!(queue.len(), 2);
    assert_eq!(queue.dequeue(), Ok(CoreThreadCommand::GetMissing(1)));
    assert_eq!(queue.enqueue(CoreThreadCommand::AddBlocks(vec![], 3)), Ok(()));
    assert_eq!(queue.dequeue(), Ok(CoreThreadCommand::ForceNewBlock(4, 2)));
    assert_eq!(queue.dequeue(), Ok(CoreThreadCommand::AddBlocks(vec![], 3)));
    assert_eq!(queue.dequeue(), Err(DequeueRefused::Empty));
    assert_eq!(queue.len(), 0);
}

#[test]
fn a_full_queue_refuses_and_keeps_what_it_has() {
    let mut queue: CommandQueue<u8> = CommandQueue::new(1);
    assert_eq!(queue.enqueue(CoreThreadCommand::ForceNewBlock(1, 1)), Ok(()));
    assert_eq!(
        queue.enqueue(CoreThreadCommand::ForceNewBlock(2, 2)),
        Err(EnqueueRefused::Full(CoreThreadCommand::ForceNewBlock(2, 2)))
    );
    assert_eq!(queue.len(), 1);
    assert_eq!(queue.dequeue(), Ok(CoreThreadCommand::ForceNewBlock(1, 1)));
    assert_eq!(queue.enqueue(CoreThreadCommand::ForceNewBlock(2, 2)), Ok(()));
}

#[test]
fn a_closed_queue_takes_nothing_and_gives_what_it_has() {
    let mut queue: CommandQueue<u8> = CommandQueue::new(2);
    assert_eq!(queue.enqueue(CoreThreadCommand::GetMissing(1)), Ok(()));
    queue.close();
    assert!(queue.is_closed());
    assert_eq!(queue.capacity(), 2);
    assert_eq!(
        queue.enqueue(CoreThreadCommand::GetMissing(2)),
        Err(EnqueueRefused::Closed(CoreThreadCommand::GetMissing(2)))
    );
    assert_eq!(queue.len(), 1);
    assert_eq!(queue.dequeue(), Ok(CoreThreadCommand::GetMissing(1)));
    assert_eq!(queue.dequeue(), Err(DequeueRefused::Closed));
    assert_eq!(queue.dequeue(), Err(DequeueRefused::Closed));
}

#[test]
fn a_full_and_closed_queue_says_closed() {
    let mut queue: CommandQueue<u8> = CommandQueue::new(1);
    assert_eq!(queue.enqueue(CoreThreadCommand::GetMissing(1)), Ok(()));
    queue.close();
    assert_eq!(
        queue.enqueue(CoreThreadCommand::GetMissing(2)),
        Err(EnqueueRefused::Closed(CoreThreadCommand::GetMissing(2)))
    );
}

#[test]
fn a_command_splits_into_its_operation_and_its_slot() {
    let blocks = vec![Block { reference: reference(2), ancestors: vec![reference(1)] }];
    assert_eq!(
        CoreThreadCommand::AddBlocks(blocks.clone(), 'a').into_call(),
        (CoreOperation::AddBlocks(blocks), PendingReply::AddBlocks('a'))
    );
    assert_eq!(
        CoreThreadCommand::ForceNewBlock(5, 'b').into_call(),
        (CoreOperation::ForceNewBlock(5), PendingReply::ForceNewBlock('b'))
    );
    assert_eq!(
        CoreThreadCommand::GetMissing('c').into_call(),
        (CoreOperation::GetMissing, PendingReply::GetMissing('c'))
    );
}

#[test]
fn a_slot_takes_the_outcome_of_its_own_kind_only() {
    let sets: Vec<HashSet<BlockRef>> = vec![[reference(1)].into_iter().collect(), HashSet::new()];
    let outcomes = [
        CoreOutcome::AddBlocks(vec![reference(3)]),
        CoreOutcome::ForceNewBlock,
        CoreOutcome::GetMissing(sets.clone()),
    ];
    assert_eq!(
        PendingReply::AddBlocks(1).reply(outcomes[0].clone()),
        Ok(CoreThreadReply::AddBlocks(1, vec![reference(3)]))
    );
    assert_eq!(PendingReply::ForceNewBlock(2).reply(outcomes[1].clone()), Ok(CoreThreadReply::ForceNewBlock(2)));
    assert_eq!(
        PendingReply::GetMissing(3).reply(outcomes[2].clone()),
        Ok(CoreThreadReply::GetMissing(3, sets))
    );
    assert_eq!(
        PendingReply::AddBlocks(1).reply(CoreOutcome::ForceNewBlock),
        Err((PendingReply::AddBlocks(1), CoreOutcome::ForceNewBlock))
    );
    assert_eq!(
        PendingReply::ForceNewBlock(2).reply(outcomes[2].clone()),
        Err((PendingReply::ForceNewBlock(2), outcomes[2].clone()))
    );
    assert_eq!(
        PendingReply::GetMissing(3).reply(outcomes[0].clone()),
        Err((PendingReply::GetMissing(3), outcomes[0].clone()))
    );
}

struct Fixed {
    seen: Vec<String>,
}

impl Core for Fixed {
    fn add_blocks(&mut self, blocks: Vec<Block>) -> Vec<BlockRef> {
        self.seen.push(format!("add {}", blocks.len()));
        blocks.iter().map(|block| block.reference).collect()
    }

    fn force_new_block(&mut self, round: u32) {
        self.seen.push(format!("force {}", round));
    }

    fn get_missing_blocks(&mut self) -> Vec<HashSet<BlockRef>> {
        self.seen.push(format!("missing"));
        vec![HashSet::new(), [reference(6)].into_iter().collect()]
    }
}

#[test]
fn an_operation_makes_the_one_call_it_names() {
    let mut core = Fixed { seen: vec![] };
    let blocks = vec![
        Block { reference: reference(2), ancestors: vec![] },
        Block { reference: reference(3), ancestors: vec![reference(2)] },
    ];
    assert_eq!(
        CoreOperation::AddBlocks(blocks).perform(&mut core),
        CoreOutcome::AddBlocks(vec![reference(2), reference(3)])
    );
    assert_eq!(core.seen, vec!["add 2"]);
    assert_eq!(CoreOperation::ForceNewBlock(11).perform(&mut core), CoreOutcome::ForceNewBlock);
    assert_eq!(core.seen, vec!["add 2", "force 11"]);
    assert_eq!(
        CoreOperation::GetMissing.perform(&mut core),
        CoreOutcome::GetMissing(vec![HashSet::new(), [reference(6)].into_iter().collect()])
    );
    assert_eq!(core.seen, vec!["add 2", "force 11", "missing"]);
}
