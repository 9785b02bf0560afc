//! Splitting a range of blocks into batches of bounded size.

use crate::types::{BlockNumber, BlockRange};
use vstd::prelude::*;

verus! {

/// Direction of block range iteration.
#[derive(Debug, Clone, Copy, PartialEq, Eq, Structural)]
pub enum Direction {
    /// Iterate from lower block numbers to higher (oldest to newest).
    Forward,
    /// Iterate from higher block numbers to lower (newest to oldest).
    Reverse,
}

/// The `i`-th batch of at most `max` blocks of the blocks from `low` to `high`, counted from `low`.
pub open spec fn forward_batch(low: int, high: int, max: int, i: int) -> BlockRange {
    BlockRange {
        start: (low + i * max) as u64,
        end: (if low + (i + 1) * max - 1 <= high {
            low + (i + 1) * max - 1
        } else {
            high
        }) as u64,
    }
}

/// The `i`-th batch of at most `max` blocks of the blocks from `low` to `high`, counted from `high`.
pub open spec fn reverse_batch(low: int, high: int, max: int, i: int) -> BlockRange {
    BlockRange {
        start: (if high - (i + 1) * max + 1 >= low {
            high - (i + 1) * max + 1
        } else {
            low
        }) as u64,
        end: (high - i * max) as u64,
    }
}

/// How many batches of at most `max` blocks the blocks from `low` to `high` make.
pub open spec fn batches_in(low: int, high: int, max: int) -> nat {
    if low > high {
        0
    } else {
        ((high - low) / max + 1) as nat
    }
}

/// The blocks from `low` to `high` in batches of at most `max`, oldest batch first.
pub open spec fn forward_batches(low: int, high: int, max: int) -> Seq<BlockRange> {
    Seq::new(batches_in(low, high, max), |i: int| forward_batch(low, high, max, i))
}

/// The blocks from `low` to `high` in batches of at most `max`, newest batch first.
pub open spec fn reverse_batches(low: int, high: int, max: int) -> Seq<BlockRange> {
    Seq::new(batches_in(low, high, max), |i: int| reverse_batch(low, high, max, i))
}

/// The last block of the first batch counted from `low`.
pub open spec fn first_batch_end(low: int, high: int, max: int) -> int {
    if low + max - 1 <= high {
        low + max - 1
    } else {
        high
    }
}

/// The first block of the first batch counted from `high`.
pub open spec fn last_batch_start(low: int, high: int, max: int) -> int {
    if high - max + 1 >= low {
        high - max + 1
    } else {
        low
    }
}

/// Taking the first of the batches, oldest first, leaves the batches of the blocks behind it.
pub proof fn lemma_forward_step(low: int, high: int, max: int)
    requires
        0 <= low <= high <= u64::MAX,
        max >= 1,
    ensures
        forward_batches(low, high, max).len() >= 1,
        forward_batches(low, high, max)[0] == (BlockRange {
            start: low as u64,
            end: first_batch_end(low, high, max) as u64,
        }),
        forward_batches(low, high, max).drop_first() == forward_batches(
            first_batch_end(low, high, max) + 1,
            high,
            max,
        ),
{
    let all = forward_batches(low, high, max);
    let next = first_batch_end(low, high, max) + 1;
    let rest = forward_batches(next, high, max);
    assert((high - low) / max >= 0) by (nonlinear_arith)
        requires
            low <= high,
            max >= 1,
    ;
    assert(0 * max == 0 && (0 + 1) * max == max) by (nonlinear_arith);
    if next <= high {
        assert((high - next) / max == (high - low) / max - 1) by (nonlinear_arith)
            requires
                next == low + max,
                max >= 1,
        ;
        assert forall|i: int| 0 <= i < rest.len() implies all.drop_first()[i] == rest[i] by {
            assert(low + (i + 1) * max == next + i * max) by (nonlinear_arith)
                requires
                    next == low + max,
            ;
            assert(low + (i + 2) * max == next + (i + 1) * max) by (nonlinear_arith)
                requires
                    next == low + max,
            ;
        }
    } else {
        assert((high - low) / max == 0) by (nonlinear_arith)
            requires
                low <= high,
                high - low < max,
        ;
    }
    assert(all.drop_first() =~= rest);
}

/// Taking the first of the batches, newest first, leaves the batches of the blocks before it.
pub proof fn lemma_reverse_step(low: int, high: int, max: int)
    requires
        0 <= low <= high <= u64::MAX,
        max >= 1,
    ensures
        reverse_batches(low, high, max).len() >= 1,
        reverse_batches(low, high, max)[0] == (BlockRange {
            start: last_batch_start(low, high, max) as u64,
            end: high as u64,
        }),
        reverse_batches(low, high, max).drop_first() == reverse_batches(
            low,
            last_batch_start(low, high, max) - 1,
            max,
        ),
{
    let all = reverse_batches(low, high, max);
    let next = last_batch_start(low, high, max) - 1;
    let rest = reverse_batches(low, next, max);
    assert((high - low) / max >= 0) by (nonlinear_arith)
        requires
            low <= high,
            max >= 1,
    ;
    assert(0 * max == 0 && (0 + 1) * max == max) by (nonlinear_arith);
    if low <= next {
        assert((next - low) / max == (high - low) / max - 1) by (nonlinear_arith)
            requires
                next == high - max,
                max >= 1,
        ;
        assert forall|i: int| 0 <= i < rest.len() implies all.drop_first()[i] == rest[i] by {
            assert(high - (i + 1) * max == next - i * max) by (nonlinear_arith)
                requires
                    next == high - max,
            ;
            assert(high - (i + 2) * max == next - (i + 1) * max) by (nonlinear_arith)
                requires
                    next == high - max,
            ;
        }
    } else {
        assert((high - low) / max == 0) by (nonlinear_arith)
            requires
                low <= high,
                high - low < max,
        ;
    }
    assert(all.drop_first() =~= rest);
}

/// The batches, oldest first, tile the blocks from `low` to `high`: the first begins at `low`, the
/// last ends at `high`, each begins right behind the one before it, and none is empty or larger
/// than `max`.
pub proof fn forward_batches_tile(low: int, high: int, max: int)
    requires
        0 <= low <= high <= u64::MAX,
        max >= 1,
    ensures
        forward_batches(low, high, max).len() >= 1,
        forward_batches(low, high, max)[0].start == low,
        forward_batches(low, high, max).last().end == high,
        forall|i: int|
            #![trigger forward_batches(low, high, max)[i]]
            0 <= i < forward_batches(low, high, max).len() ==> {
                let batch = forward_batches(low, high, max)[i];
                &&& low <= batch.start <= batch.end <= high
                &&& batch.end - batch.start < max
            },
        forall|i: int, j: int|
            #![trigger forward_batches(low, high, max)[i], forward_batches(low, high, max)[j]]
            0 <= i && j == i + 1 && j < forward_batches(low, high, max).len()
                ==> forward_batches(low, high, max)[j].start == forward_batches(
                low,
                high,
                max,
            )[i].end + 1,
    decreases high - low,
{
    lemma_forward_step(low, high, max);
    let all = forward_batches(low, high, max);
    let next = first_batch_end(low, high, max) + 1;
    let rest = forward_batches(next, high, max);
    assert(rest == all.drop_first());
    if next <= high {
        forward_batches_tile(next, high, max);
        assert(all.last() == rest.last());
        assert forall|i: int| 0 <= i < all.len() implies {
            let batch = #[trigger] all[i];
            &&& low <= batch.start <= batch.end <= high
            &&& batch.end - batch.start < max
        } by {
            if i > 0 {
                assert(all[i] == rest[i - 1]);
            }
        }
        assert forall|i: int, j: int|
            0 <= i && j == i + 1 && j < all.len() implies (#[trigger] all[j]).start == (
        #[trigger] all[i]).end + 1 by {
            assert(all[j] == rest[j - 1]);
            if i > 0 {
                assert(all[i] == rest[i - 1]);
            }
        }
    } else {
        assert(rest.len() == 0);
        assert(all.len() == 1);
    }
}

/// The batches, newest first, tile the blocks from `low` to `high`: the first ends at `high`, the
/// last begins at `low`, each ends right before the one that came before it, and none is empty or
/// larger than `max`.
pub proof fn reverse_batches_tile(low: int, high: int, max: int)
    requires
        0 <= low <= high <= u64::MAX,
        max >= 1,
    ensures
        reverse_batches(low, high, max).len() >= 1,
        reverse_batches(low, high, max)[0].end == high,
        reverse_batches(low, high, max).last().start == low,
        forall|i: int|
            #![trigger reverse_batches(low, high, max)[i]]
            0 <= i < reverse_batches(low, high, max).len() ==> {
                let batch = reverse_batches(low, high, max)[i];
                &&& low <= batch.start <= batch.end <= high
                &&& batch.end - batch.start < max
            },
        forall|i: int, j: int|
            #![trigger reverse_batches(low, high, max)[i], reverse_batches(low, high, max)[j]]
            0 <= i && j == i + 1 && j < reverse_batches(low, high, max).len()
                ==> reverse_batches(low, high, max)[j].end + 1 == reverse_batches(
                low,
                high,
                max,
            )[i].start,
    decreases high - low,
{
    lemma_reverse_step(low, high, max);
    let all = reverse_batches(low, high, max);
    let next = last_batch_start(low, high, max) - 1;
    let rest = reverse_batches(low, next, max);
    assert(rest == all.drop_first());
    if low <= next {
        reverse_batches_tile(low, next, max);
        assert(all.last() == rest.last());
        assert forall|i: int| 0 <= i < all.len() implies {
            let batch = #[trigger] all[i];
            &&& low <= batch.start <= batch.end <= high
            &&& batch.end - batch.start < max
        } by {
            if i > 0 {
                assert(all[i] == rest[i - 1]);
            }
        }
        assert forall|i: int, j: int|
            0 <= i && j == i + 1 && j < all.len() implies (#[trigger] all[j]).end + 1 == (
        #[trigger] all[i]).start by {
            assert(all[j] == rest[j - 1]);
            if i > 0 {
                assert(all[i] == rest[i - 1]);
            }
        }
    } else {
        assert(rest.len() == 0);
        assert(all.len() == 1);
    }
}

/// A block lies in some batch, counted from either end, if and only if it lies between `low` and
/// `high`.
pub proof fn batches_cover(low: int, high: int, max: int, number: int)
    requires
        0 <= low <= u64::MAX,
        0 <= high <= u64::MAX,
        max >= 1,
    ensures
        low <= number <= high <==> exists|i: int|
            0 <= i < forward_batches(low, high, max).len() && (#[trigger] forward_batches(
                low,
                high,
                max,
            )[i]).has_block(number),
        low <= number <= high <==> exists|i: int|
            0 <= i < reverse_batches(low, high, max).len() && (#[trigger] reverse_batches(
                low,
                high,
                max,
            )[i]).has_block(number),
    decreases high - low,
{
    let forward = forward_batches(low, high, max);
    let reverse = reverse_batches(low, high, max);
    if low <= high {
        forward_batches_tile(low, high, max);
        reverse_batches_tile(low, high, max);
        lemma_forward_step(low, high, max);
        lemma_reverse_step(low, high, max);
        let next = first_batch_end(low, high, max) + 1;
        let prev = last_batch_start(low, high, max) - 1;
        if low <= number < next {
            assert(forward[0].has_block(number));
        } else if next <= number <= high {
            batches_cover(next, high, max, number);
            let rest = forward_batches(next, high, max);
            let i = choose|i: int| 0 <= i < rest.len() && (#[trigger] rest[i]).has_block(number);
            assert(forward[i + 1] == rest[i]);
        }
        if prev < number <= high {
            assert(reverse[0].has_block(number));
        } else if low <= number <= prev {
            batches_cover(low, prev, max, number);
            let rest = reverse_batches(low, prev, max);
            let i = choose|i: int| 0 <= i < rest.len() && (#[trigger] rest[i]).has_block(number);
            assert(reverse[i + 1] == rest[i]);
        }
    }
}

/// Whether `batches` are exactly the blocks from `low` to `high`, in order and without overlap, in
/// batches that are neither empty nor larger than `max`.
pub open spec fn tiles(batches: Seq<BlockRange>, low: int, high: int, max: int) -> bool {
    if low > high {
        batches.len() == 0
    } else {
        &&& batches.len() >= 1
        &&& batches[0].start == low
        &&& batches.last().end == high
        &&& forall|i: int|
            0 <= i < batches.len() ==> (#[trigger] batches[i]).start <= batches[i].end
                && batches[i].end - batches[i].start < max
        &&& forall|i: int, j: int|
            #![trigger batches[i], batches[j]]
            0 <= i && j == i + 1 && j < batches.len() ==> batches[j].start == batches[i].end + 1
    }
}

/// The batches of a range, oldest first, are its blocks in order.
pub proof fn forward_batches_are_tiles(low: int, high: int, max: int)
    requires
        0 <= low <= u64::MAX,
        0 <= high <= u64::MAX,
        max >= 1,
    ensures
        tiles(forward_batches(low, high, max), low, high, max),
{
    if low <= high {
        forward_batches_tile(low, high, max);
    }
}

/// The blocks before `middle` and those from it on, in order, are all blocks in order.
pub proof fn tiles_join(
    first: Seq<BlockRange>,
    second: Seq<BlockRange>,
    low: int,
    middle: int,
    high: int,
    max: int,
)
    requires
        tiles(first, low, middle - 1, max),
        tiles(second, middle, high, max),
        low <= middle <= high + 1,
    ensures
        tiles(first + second, low, high, max),
{
    if first.len() == 0 {
        assert(first + second =~= second);
    } else if second.len() == 0 {
        assert(first + second =~= first);
    } else {
        let both = first + second;
        assert(both.last() == second.last());
        assert forall|i: int, j: int|
            0 <= i && j == i + 1 && j < both.len() implies (#[trigger] both[j]).start == (
        #[trigger] both[i]).end + 1 by {
            if j < first.len() {
                assert(first[j].start == first[i].end + 1);
            } else if j == first.len() {
                assert(both[i] == first.last());
                assert(both[j] == second[0]);
            } else {
                assert(both[i] == second[i - first.len()]);
                assert(both[j] == second[j - first.len()]);
                assert(second[j - first.len()].start == second[i - first.len()].end + 1);
            }
        }
    }
}

/// There are no more batches than blocks.
pub proof fn lemma_batches_bound(low: int, high: int, max: int)
    requires
        max >= 1,
    ensures
        low <= high ==> batches_in(low, high, max) <= high - low + 1,
        low > high ==> batches_in(low, high, max) == 0,
{
    if low <= high {
        assert(0 <= (high - low) / max <= high - low) by (nonlinear_arith)
            requires
                low <= high,
                max >= 1,
        ;
    }
}

/// An iterator that yields block ranges in batches of a bounded size.
#[derive(Debug, Clone)]
pub struct RangeIterator {
    /// Where the next batch begins.
    current: BlockNumber,
    /// The boundary iterated toward.
    end: BlockNumber,
    /// Maximum blocks per batch.
    max_block_range: u64,
    /// Direction of iteration.
    direction: Direction,
    /// Whether iteration has completed.
    exhausted: bool,
}

impl RangeIterator {
    /// Where the next batch begins.
    pub closed spec fn position(&self) -> BlockNumber {
        self.current
    }

    /// The boundary iterated toward.
    pub closed spec fn boundary(&self) -> BlockNumber {
        self.end
    }

    /// Maximum blocks per batch.
    pub closed spec fn max(&self) -> u64 {
        self.max_block_range
    }

    /// Direction of iteration.
    pub closed spec fn way(&self) -> Direction {
        self.direction
    }

    /// Whether iteration has completed.
    pub closed spec fn done(&self) -> bool {
        self.exhausted
    }

    /// Batches are not empty, and there are batches left exactly while iteration is not complete.
    pub open spec fn wf(&self) -> bool {
        &&& self.max() >= 1
        &&& !self.done() ==> match self.way() {
            Direction::Forward => self.position() <= self.boundary(),
            Direction::Reverse => self.position() >= self.boundary(),
        }
    }

    /// The batches still to come.
    pub open spec fn pending(&self) -> Seq<BlockRange> {
        if self.done() {
            Seq::empty()
        } else {
            match self.way() {
                Direction::Forward => forward_batches(
                    self.position() as int,
                    self.boundary() as int,
                    self.max() as int,
                ),
                Direction::Reverse => reverse_batches(
                    self.boundary() as int,
                    self.position() as int,
                    self.max() as int,
                ),
            }
        }
    }

    /// Creates a forward iterator (oldest to newest).
    ///
    /// Yields ranges from `start` toward `end`, inclusive.
    #[must_use]
    pub fn forward(start: BlockNumber, end: BlockNumber, max_block_range: u64) -> (iter: Self)
        requires
            max_block_range >= 1,
        ensures
            iter.wf(),
            iter.way() == Direction::Forward,
            iter.position() == start,
            iter.boundary() == end,
            iter.max() == max_block_range,
            iter.done() == (start > end),
            iter.pending() == forward_batches(start as int, end as int, max_block_range as int),
    {
        let iter = RangeIterator {
            current: start,
            end,
            max_block_range,
            direction: Direction::Forward,
            exhausted: start > end,
        };
        assert(iter.pending() =~= forward_batches(
            start as int,
            end as int,
            max_block_range as int,
        ));
        iter
    }

    /// Creates a reverse iterator (newest to oldest).
    ///
    /// Yields ranges from `start` (higher) toward `end` (lower), inclusive.
    /// Each yielded range still runs from its lower block to its higher one.
    #[must_use]
    pub fn reverse(start: BlockNumber, end: BlockNumber, max_block_range: u64) -> (iter: Self)
        requires
            max_block_range >= 1,
        ensures
            iter.wf(),
            iter.way() == Direction::Reverse,
            iter.position() == start,
            iter.boundary() == end,
            iter.max() == max_block_range,
            iter.done() == (start < end),
            iter.pending() == reverse_batches(end as int, start as int, max_block_range as int),
    {
        let iter = RangeIterator {
            current: start,
            end,
            max_block_range,
            direction: Direction::Reverse,
            exhausted: start < end,
        };
        assert(iter.pending() =~= reverse_batches(
            end as int,
            start as int,
            max_block_range as int,
        ));
        iter
    }

    /// Resets the iterator to continue from a new position.
    ///
    /// Useful after detecting a reorg to rescan from a common ancestor.
    pub fn reset_to(&mut self, block: BlockNumber)
        requires
            old(self).wf(),
        ensures
            final(self).wf(),
            final(self).position() == block,
            final(self).boundary() == old(self).boundary(),
            final(self).max() == old(self).max(),
            final(self).way() == old(self).way(),
            final(self).done() == match old(self).way() {
                Direction::Forward => block > old(self).boundary(),
                Direction::Reverse => block < old(self).boundary(),
            },
            final(self).pending() == match old(self).way() {
                Direction::Forward => forward_batches(
                    block as int,
                    old(self).boundary() as int,
                    old(self).max() as int,
                ),
                Direction::Reverse => reverse_batches(
                    old(self).boundary() as int,
                    block as int,
                    old(self).max() as int,
                ),
            },
    {
        self.current = block;
        self.exhausted = match self.direction {
            Direction::Forward => self.current > self.end,
            Direction::Reverse => self.current < self.end,
        };
        assert(self.pending() =~= match self.way() {
            Direction::Forward => forward_batches(
                block as int,
                self.boundary() as int,
                self.max() as int,
            ),
            Direction::Reverse => reverse_batches(
                self.boundary() as int,
                block as int,
                self.max() as int,
            ),
        });
    }

    /// Returns the current position.
    #[must_use]
    pub fn current(&self) -> (block: BlockNumber)
        ensures
            block == self.position(),
    {
        self.current
    }

    /// Returns the end boundary.
    #[must_use]
    pub fn end(&self) -> (block: BlockNumber)
        ensures
            block == self.boundary(),
    {
        self.end
    }

    /// Returns the direction of iteration.
    #[must_use]
    pub fn direction(&self) -> (direction: Direction)
        ensures
            direction == self.way(),
    {
        self.direction
    }

    /// Returns whether iteration has completed.
    #[must_use]
    pub fn is_exhausted(&self) -> (done: bool)
        ensures
            done == self.done(),
            self.wf() ==> (done <==> self.pending().len() == 0),
    {
        proof {
            if self.wf() && !self.done() {
                match self.way() {
                    Direction::Forward => lemma_forward_step(
                        self.position() as int,
                        self.boundary() as int,
                        self.max() as int,
                    ),
                    Direction::Reverse => lemma_reverse_step(
                        self.boundary() as int,
                        self.position() as int,
                        self.max() as int,
                    ),
                }
            }
        }
        self.exhausted
    }

    /// Takes the next batch.
    pub fn next(&mut self) -> (batch: Option<BlockRange>)
        requires
            old(self).wf(),
        ensures
            final(self).wf(),
            final(self).boundary() == old(self).boundary(),
            final(self).max() == old(self).max(),
            final(self).way() == old(self).way(),
            batch is None <==> old(self).done(),
            batch is None <==> old(self).pending().len() == 0,
            batch is None ==> *final(self) == *old(self),
            batch matches Some(range) ==> {
                &&& range == old(self).pending()[0]
                &&& final(self).pending() == old(self).pending().drop_first()
                &&& final(self).position() == (if final(self).done() {
                    old(self).position() as int
                } else {
                    match old(self).way() {
                        Direction::Forward => range.end + 1,
                        Direction::Reverse => range.start - 1,
                    }
                })
            },
    {
        if self.exhausted {
            return None;
        }
        proof {
            match self.way() {
                Direction::Forward => lemma_forward_step(
                    self.position() as int,
                    self.boundary() as int,
                    self.max() as int,
                ),
                Direction::Reverse => lemma_reverse_step(
                    self.boundary() as int,
                    self.position() as int,
                    self.max() as int,
                ),
            }
        }
        match self.direction {
            Direction::Forward => {
                let batch_start: u64 = self.current;
                let limit: u64 = batch_start.saturating_add(self.max_block_range - 1);
                let batch_end: u64 = if limit <= self.end {
                    limit
                } else {
                    self.end
                };
                if batch_end >= self.end {
                    self.exhausted = true;
                } else {
                    self.current = batch_end + 1;
                }
                assert(self.pending() =~= old(self).pending().drop_first());
                Some(BlockRange { start: batch_start, end: batch_end })
            },
            Direction::Reverse => {
                let batch_high: u64 = self.current;
                let limit: u64 = batch_high.saturating_sub(self.max_block_range - 1);
                let batch_low: u64 = if limit >= self.end {
                    limit
                } else {
                    self.end
                };
                if batch_low <= self.end {
                    self.exhausted = true;
                } else {
                    self.current = batch_low - 1;
                }
                assert(self.pending() =~= old(self).pending().drop_first());
                Some(BlockRange { start: batch_low, end: batch_high })
            },
        }
    }
}

/// Every batch but the last one is full, in either direction.
pub proof fn batches_are_full(low: int, high: int, max: int, i: int)
    requires
        0 <= low <= high <= u64::MAX,
        max >= 1,
        0 <= i,
    ensures
        i + 1 < forward_batches(low, high, max).len() ==> {
            let batch = forward_batches(low, high, max)[i];
            batch.end - batch.start + 1 == max
        },
        i + 1 < reverse_batches(low, high, max).len() ==> {
            let batch = reverse_batches(low, high, max)[i];
            batch.end - batch.start + 1 == max
        },
    decreases high - low,
{
    lemma_forward_step(low, high, max);
    lemma_reverse_step(low, high, max);
    let next = first_batch_end(low, high, max) + 1;
    let prev = last_batch_start(low, high, max) - 1;
    if next <= high {
        if i > 0 {
            let all = forward_batches(low, high, max);
            batches_are_full(next, high, max, i - 1);
            if i < all.len() {
                assert(all[i] == all.drop_first()[i - 1]);
            }
        }
    } else {
        assert(forward_batches(next, high, max).len() == 0);
    }
    if low <= prev {
        if i > 0 {
            let all = reverse_batches(low, high, max);
            batches_are_full(low, prev, max, i - 1);
            if i < all.len() {
                assert(all[i] == all.drop_first()[i - 1]);
            }
        }
    } else {
        assert(reverse_batches(low, prev, max).len() == 0);
    }
}

} // verus!
