//! The queue between the places that emit records and the writer of the log
//! file.

use vstd::prelude::*;

verus! {

/// What happens to a record that is emitted while the queue is full.
#[derive(Clone, Copy, Debug, PartialEq, Eq, Structural)]
pub enum WhenFull {
    /// The record is dropped and counted; the emitter goes on at once.
    DropNewest,
    /// The emitter waits until the writer has made room.
    Block,
}

/// Bounds of the queue that a background writer drains into the log file.
#[derive(Clone, Copy, Debug, PartialEq, Eq, Structural)]
pub struct QueuePolicy {
    /// The number of records that can wait for the writer.
    pub capacity: usize,
    /// What a full queue does to the next record.
    pub when_full: WhenFull,
}

/// Number of records that can wait for the writer of the pipeline's log
/// file.
pub const ON_DISK_QUEUE_CAPACITY: usize = 128_000;

impl QueuePolicy {
    /// The queue of the pipeline's log file: memory stays bounded and no
    /// emitter ever waits for the disk, at the price of dropped records
    /// under load.
    pub open spec fn spec_on_disk() -> QueuePolicy {
        QueuePolicy { capacity: ON_DISK_QUEUE_CAPACITY, when_full: WhenFull::DropNewest }
    }

    /// The queue of the pipeline's log file.
    pub fn on_disk() -> (queue: QueuePolicy)
        ensures
            queue == Self::spec_on_disk(),
    {
        QueuePolicy { capacity: ON_DISK_QUEUE_CAPACITY, when_full: WhenFull::DropNewest }
    }

    /// Whether emitting a record can ever wait for the writer.
    pub fn can_block(&self) -> (blocks: bool)
        ensures
            blocks == (self.when_full == WhenFull::Block),
    {
        match self.when_full {
            WhenFull::DropNewest => false,
            WhenFull::Block => true,
        }
    }
}

} // verus!
