//! Batches of blocks, with a count of the batches yielded.

pub use super::range_iterator::Direction;
#[allow(unused_imports)]
use super::range_iterator;
use super::range_iterator::RangeIterator;
use crate::types::{BlockNumber, BlockRange};
use vstd::prelude::*;

verus! {

/// An iterator that yields block ranges in batches of a configurable size.
#[derive(Debug, Clone)]
pub struct BatchIterator {
    /// The batches still to come.
    ranges: RangeIterator,
    /// Number of batches yielded so far.
    batch_count: u64,
}

impl BatchIterator {
    /// The iterator behind the count.
    pub closed spec fn iter(&self) -> RangeIterator {
        self.ranges
    }

    /// Number of batches yielded so far.
    pub closed spec fn yielded(&self) -> u64 {
        self.batch_count
    }

    /// See [`RangeIterator::wf`].
    pub open spec fn wf(&self) -> bool {
        self.iter().wf()
    }

    /// The batches still to come.
    pub open spec fn pending(&self) -> Seq<BlockRange> {
        self.iter().pending()
    }

    /// Creates a forward iterator (oldest to newest).
    ///
    /// Yields ranges from `start` toward `end`, inclusive.
    #[must_use]
    pub fn forward(start: BlockNumber, end: BlockNumber, max_block_range: u64) -> (iter: Self)
        requires
            max_block_range >= 1,
        ensures
            iter.wf(),
            iter.iter().way() == Direction::Forward,
            iter.iter().position() == start,
            iter.iter().boundary() == end,
            iter.iter().max() == max_block_range,
            iter.iter().done() == (start > end),
            iter.pending() == range_iterator::forward_batches(
                start as int,
                end as int,
                max_block_range as int,
            ),
            iter.yielded() == 0,
    {
        BatchIterator { ranges: RangeIterator::forward(start, end, max_block_range), batch_count: 0 }
    }

    /// Creates a reverse iterator (newest to oldest).
    ///
    /// Yields ranges from `start` (higher) toward `end` (lower), inclusive.
    /// Each yielded range still runs from its lower block to its higher one.
    #[must_use]
    pub fn reverse(start: BlockNumber, end: BlockNumber, max_block_range: u64) -> (iter: Self)
        requires
            max_block_range >= 1,
        ensures
            iter.wf(),
            iter.iter().way() == Direction::Reverse,
            iter.iter().position() == start,
            iter.iter().boundary() == end,
            iter.iter().max() == max_block_range,
            iter.iter().done() == (start < end),
            iter.pending() == range_iterator::reverse_batches(
                end as int,
                start as int,
                max_block_range as int,
            ),
            iter.yielded() == 0,
    {
        BatchIterator { ranges: RangeIterator::reverse(start, end, max_block_range), batch_count: 0 }
    }

    /// Returns the number of batches yielded so far.
    #[must_use]
    pub fn batch_count(&self) -> (count: u64)
        ensures
            count == self.yielded(),
    {
        self.batch_count
    }

    /// Resets the iterator to continue from a new position.
    ///
    /// Useful after detecting a reorg to rescan from a common ancestor.  The count of batches
    /// yielded goes on.
    pub fn reset_to(&mut self, block: BlockNumber)
        requires
            old(self).wf(),
        ensures
            final(self).wf(),
            final(self).iter().position() == block,
            final(self).iter().boundary() == old(self).iter().boundary(),
            final(self).iter().max() == old(self).iter().max(),
            final(self).iter().way() == old(self).iter().way(),
            final(self).iter().done() == match old(self).iter().way() {
                Direction::Forward => block > old(self).iter().boundary(),
                Direction::Reverse => block < old(self).iter().boundary(),
            },
            final(self).pending() == match old(self).iter().way() {
                Direction::Forward => range_iterator::forward_batches(
                    block as int,
                    old(self).iter().boundary() as int,
                    old(self).iter().max() as int,
                ),
                Direction::Reverse => range_iterator::reverse_batches(
                    old(self).iter().boundary() as int,
                    block as int,
                    old(self).iter().max() as int,
                ),
            },
            final(self).yielded() == old(self).yielded(),
    {
        self.ranges.reset_to(block);
    }

    /// Returns the current position.
    #[must_use]
    pub fn current(&self) -> (block: BlockNumber)
        ensures
            block == self.iter().position(),
    {
        self.ranges.current()
    }

    /// Returns the end boundary.
    #[must_use]
    pub fn end(&self) -> (block: BlockNumber)
        ensures
            block == self.iter().boundary(),
    {
        self.ranges.end()
    }

    /// Returns the direction of iteration.
    #[must_use]
    pub fn direction(&self) -> (direction: Direction)
        ensures
            direction == self.iter().way(),
    {
        self.ranges.direction()
    }

    /// Returns whether iteration has completed.
    #[must_use]
    pub fn is_exhausted(&self) -> (done: bool)
        ensures
            done == self.iter().done(),
            self.wf() ==> (done <==> self.pending().len() == 0),
    {
        self.ranges.is_exhausted()
    }

    /// Takes the next batch and counts it.
    pub fn next(&mut self) -> (batch: Option<BlockRange>)
        requires
            old(self).wf(),
            old(self).yielded() < u64::MAX,
        ensures
            final(self).wf(),
            final(self).iter().boundary() == old(self).iter().boundary(),
            final(self).iter().max() == old(self).iter().max(),
            final(self).iter().way() == old(self).iter().way(),
            batch is None <==> old(self).iter().done(),
            batch is None <==> old(self).pending().len() == 0,
            batch is None ==> *final(self) == *old(self),
            batch matches Some(range) ==> {
                &&& range == old(self).pending()[0]
                &&& final(self).pending() == old(self).pending().drop_first()
                &&& final(self).iter().position() == (if final(self).iter().done() {
                    old(self).iter().position() as int
                } else {
                    match old(self).iter().way() {
                        Direction::Forward => range.end + 1,
                        Direction::Reverse => range.start - 1,
                    }
                })
                &&& final(self).yielded() == old(self).yielded() + 1
            },
    {
        match self.ranges.next() {
            None => None,
            Some(range) => {
                self.batch_count = self.batch_count + 1;
                Some(range)
            },
        }
    }
}

} // verus!
