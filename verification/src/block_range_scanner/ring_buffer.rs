//! The most recent blocks, kept to tell how far a reorganisation reaches back.

use crate::types::{BlockNumHash, BlockNumber};
use std::collections::VecDeque;
use vstd::prelude::*;

verus! {

/// Configuration for how many past block hashes to retain for reorg detection.
#[derive(Copy, Clone, Debug, PartialEq, Eq, Structural)]
pub enum RingBufferCapacity {
    /// Keep at most `n` items.
    ///
    /// A value of `0` disables storing past block hashes and thereby reorg detection.
    Limited(usize),
    /// Keep an unbounded number of items.
    ///
    /// WARNING: This can lead to unbounded memory growth over long-running processes.
    /// Avoid using this in production deployments without an external bound.
    Infinite,
}

impl From<u8> for RingBufferCapacity {
    fn from(value: u8) -> (capacity: Self) {
        RingBufferCapacity::Limited(value as usize)
    }
}

impl vstd::std_specs::convert::FromSpecImpl<u8> for RingBufferCapacity {
    open spec fn obeys_from_spec() -> bool {
        true
    }

    open spec fn from_spec(value: u8) -> Self {
        RingBufferCapacity::Limited(value as usize)
    }
}

impl From<u16> for RingBufferCapacity {
    fn from(value: u16) -> (capacity: Self) {
        RingBufferCapacity::Limited(value as usize)
    }
}

impl vstd::std_specs::convert::FromSpecImpl<u16> for RingBufferCapacity {
    open spec fn obeys_from_spec() -> bool {
        true
    }

    open spec fn from_spec(value: u16) -> Self {
        RingBufferCapacity::Limited(value as usize)
    }
}

impl From<u32> for RingBufferCapacity {
    fn from(value: u32) -> (capacity: Self) {
        RingBufferCapacity::Limited(value as usize)
    }
}

impl vstd::std_specs::convert::FromSpecImpl<u32> for RingBufferCapacity {
    open spec fn obeys_from_spec() -> bool {
        true
    }

    open spec fn from_spec(value: u32) -> Self {
        RingBufferCapacity::Limited(value as usize)
    }
}

impl From<usize> for RingBufferCapacity {
    fn from(value: usize) -> (capacity: Self) {
        RingBufferCapacity::Limited(value)
    }
}

impl vstd::std_specs::convert::FromSpecImpl<usize> for RingBufferCapacity {
    open spec fn obeys_from_spec() -> bool {
        true
    }

    open spec fn from_spec(value: usize) -> Self {
        RingBufferCapacity::Limited(value)
    }
}

/// What a buffer of the given capacity retains of `blocks`: the newest of them, as many as fit.
pub open spec fn retained(
    blocks: Seq<BlockNumHash>,
    capacity: RingBufferCapacity,
) -> Seq<BlockNumHash> {
    match capacity {
        RingBufferCapacity::Infinite => blocks,
        RingBufferCapacity::Limited(limit) => if blocks.len() <= limit {
            blocks
        } else {
            blocks.skip(blocks.len() - limit)
        },
    }
}

/// Whether a buffer of the given capacity has room for `blocks`.
pub open spec fn fits(blocks: Seq<BlockNumHash>, capacity: RingBufferCapacity) -> bool {
    capacity matches RingBufferCapacity::Limited(limit) ==> blocks.len() <= limit
}

/// Whether `blocks` are in order of their numbers.
pub open spec fn in_order(blocks: Seq<BlockNumHash>) -> bool {
    forall|i: int, j: int| 0 <= i <= j < blocks.len() ==> blocks[i].number <= blocks[j].number
}

/// The newest blocks seen, oldest first.
#[derive(Clone, Debug)]
pub struct RingBuffer {
    inner: VecDeque<BlockNumHash>,
    capacity: RingBufferCapacity,
}

impl View for RingBuffer {
    type V = Seq<BlockNumHash>;

    closed spec fn view(&self) -> Seq<BlockNumHash> {
        self.inner@
    }
}

impl RingBuffer {
    /// How many blocks the buffer may hold.
    pub closed spec fn limit(&self) -> RingBufferCapacity {
        self.capacity
    }

    /// The buffer holds no more than its capacity allows.
    pub open spec fn wf(&self) -> bool {
        fits(self@, self.limit())
    }

    /// Creates an empty [`RingBuffer`] with a specific capacity.
    pub fn new(capacity: RingBufferCapacity) -> (buffer: Self)
        ensures
            buffer.wf(),
            buffer@ == Seq::<BlockNumHash>::empty(),
            buffer.limit() == capacity,
    {
        RingBuffer { inner: VecDeque::new(), capacity }
    }

    /// Whether the buffer never holds any blocks.
    pub fn is_disabled(&self) -> (disabled: bool)
        ensures
            disabled == (self.limit() == RingBufferCapacity::Limited(0)),
    {
        match self.capacity {
            RingBufferCapacity::Limited(limit) => limit == 0,
            RingBufferCapacity::Infinite => false,
        }
    }

    /// Adds a new `BlockNumHash` to the buffer.
    ///
    /// If limited capacity and the buffer is full, the oldest element is removed to make space.
    pub fn push(&mut self, item: BlockNumHash)
        requires
            old(self).wf(),
        ensures
            final(self).wf(),
            final(self).limit() == old(self).limit(),
            final(self)@ == retained(old(self)@.push(item), old(self).limit()),
    {
        match self.capacity {
            RingBufferCapacity::Infinite => {
                self.inner.push_back(item);
            },
            RingBufferCapacity::Limited(limit) => {
                if limit != 0 {
                    if self.inner.len() == limit {
                        self.inner.pop_front();
                    }
                    self.inner.push_back(item);
                }
            },
        }
        assert(self@ =~= retained(old(self)@.push(item), old(self).limit()));
    }

    /// Appends multiple `BlockNumHash` entries to the buffer.
    pub fn append(&mut self, items: Vec<BlockNumHash>)
        requires
            old(self).wf(),
        ensures
            final(self).wf(),
            final(self).limit() == old(self).limit(),
            final(self)@ == retained(old(self)@ + items@, old(self).limit()),
    {
        let mut i: usize = 0;
        assert(self@ =~= retained(old(self)@ + items@.take(0), self.limit()));
        while i < items.len()
            invariant
                i <= items.len(),
                self.wf(),
                self.limit() == old(self).limit(),
                self@ == retained(old(self)@ + items@.take(i as int), self.limit()),
            decreases items.len() - i,
        {
            let ghost before = self@;
            self.push(items[i]);
            assert(old(self)@ + items@.take(i + 1) =~= (old(self)@ + items@.take(i as int)).push(
                items@[i as int],
            ));
            assert(self@ =~= retained(old(self)@ + items@.take(i + 1), self.limit()));
            i = i + 1;
        }
        assert(items@.take(i as int) =~= items@);
    }

    /// Returns true if the buffer is empty.
    pub fn is_empty(&self) -> (empty: bool)
        ensures
            empty == (self@.len() == 0),
    {
        self.inner.len() == 0
    }

    /// Returns a reference to the oldest element in the buffer.
    pub fn front(&self) -> (oldest: Option<&BlockNumHash>)
        ensures
            oldest is None <==> self@.len() == 0,
            oldest matches Some(block) ==> *block == self@[0],
    {
        if self.inner.len() == 0 {
            None
        } else {
            Some(&self.inner[0])
        }
    }

    /// Returns a reference to the newest element in the buffer.
    pub fn back(&self) -> (newest: Option<&BlockNumHash>)
        ensures
            newest is None <==> self@.len() == 0,
            newest matches Some(block) ==> *block == self@.last(),
    {
        let len: usize = self.inner.len();
        if len == 0 {
            None
        } else {
            Some(&self.inner[len - 1])
        }
    }

    /// Removes and returns the newest element in the buffer.
    pub fn pop_back(&mut self) -> (newest: Option<BlockNumHash>)
        requires
            old(self).wf(),
        ensures
            final(self).wf(),
            final(self).limit() == old(self).limit(),
            newest is None <==> old(self)@.len() == 0,
            newest is None ==> final(self)@ == old(self)@,
            newest matches Some(block) ==> {
                &&& block == old(self)@.last()
                &&& final(self)@ == old(self)@.drop_last()
            },
    {
        self.inner.pop_back()
    }

    /// The number of leading entries below `number`, or up to and including it.
    fn partition_point(&self, number: BlockNumber, inclusive: bool) -> (idx: usize)
        ensures
            idx <= self@.len(),
            in_order(self@) ==> {
                &&& forall|i: int|
                    0 <= i < idx ==> (#[trigger] self@[i]).number < number || (inclusive
                        && self@[i].number == number)
                &&& forall|i: int|
                    idx <= i < self@.len() ==> (#[trigger] self@[i]).number > number || (!inclusive
                        && self@[i].number == number)
            },
    {
        let mut low: usize = 0;
        let mut high: usize = self.inner.len();
        while low < high
            invariant
                low <= high <= self@.len(),
                in_order(self@) ==> {
                    &&& forall|i: int|
                        0 <= i < low ==> (#[trigger] self@[i]).number < number || (inclusive
                            && self@[i].number == number)
                    &&& forall|i: int|
                        high <= i < self@.len() ==> (#[trigger] self@[i]).number > number || (
                        !inclusive && self@[i].number == number)
                },
            decreases high - low,
        {
            let mid: usize = low + (high - low) / 2;
            let entry: BlockNumber = self.inner[mid].number;
            assert(entry == self@[mid as int].number);
            if entry < number || (inclusive && entry == number) {
                low = mid + 1;
            } else {
                high = mid;
            }
        }
        low
    }

    /// Finds a block by its number.
    ///
    /// Since blocks are stored in sorted order, uses binary search for O(log n) lookup.  The entry
    /// found always has that number; that an entry of that number is found, and the oldest one, is
    /// promised of a buffer in order.
    pub fn get(&self, number: BlockNumber) -> (found: Option<&BlockNumHash>)
        ensures
            found matches Some(block) ==> exists|i: int|
                #![trigger self@[i]]
                {
                    &&& 0 <= i < self@.len()
                    &&& self@[i] == *block
                    &&& block.number == number
                    &&& in_order(self@) ==> forall|j: int|
                        0 <= j < i ==> (#[trigger] self@[j]).number < number
                },
            in_order(self@) ==> (found is None <==> forall|i: int|
                0 <= i < self@.len() ==> (#[trigger] self@[i]).number != number),
    {
        let idx: usize = self.partition_point(number, false);
        if idx < self.inner.len() && self.inner[idx].number == number {
            assert(self@[idx as int].number == number);
            Some(&self.inner[idx])
        } else {
            None
        }
    }

    /// Truncates the buffer, keeping only blocks up to and including `keep_number`.
    ///
    /// Removes all blocks with number > `keep_number`.
    /// Uses binary search since the buffer is sorted by block number.  What is kept is always a
    /// run of the oldest entries; which run is promised of a buffer in order.
    pub fn truncate_after(&mut self, keep_number: BlockNumber)
        requires
            old(self).wf(),
        ensures
            final(self).wf(),
            final(self).limit() == old(self).limit(),
            final(self)@.len() <= old(self)@.len(),
            final(self)@ == old(self)@.take(final(self)@.len() as int),
            in_order(old(self)@) ==> {
                &&& forall|i: int|
                    0 <= i < final(self)@.len() ==> (#[trigger] old(self)@[i]).number <= keep_number
                &&& forall|i: int|
                    final(self)@.len() <= i < old(self)@.len() ==> (#[trigger] old(self)@[i]).number
                        > keep_number
            },
    {
        let idx: usize = self.partition_point(keep_number, true);
        self.inner.truncate(idx);
        assert(self@ =~= old(self)@.take(idx as int));
    }

    /// Clears all elements currently stored in the buffer.
    pub fn clear(&mut self)
        requires
            old(self).wf(),
        ensures
            final(self).wf(),
            final(self).limit() == old(self).limit(),
            final(self)@ == Seq::<BlockNumHash>::empty(),
    {
        self.inner.clear();
    }
}

/// Pushing blocks one after the other keeps the newest of all of them, as many as fit.
pub proof fn pushes_keep_newest(
    blocks: Seq<BlockNumHash>,
    more: Seq<BlockNumHash>,
    capacity: RingBufferCapacity,
)
    ensures
        retained(retained(blocks, capacity) + more, capacity) == retained(blocks + more, capacity),
{
    assert(retained(retained(blocks, capacity) + more, capacity) =~= retained(
        blocks + more,
        capacity,
    ));
}

/// A block later than all buffered ones keeps a buffer in order.
pub proof fn later_push_keeps_order(
    blocks: Seq<BlockNumHash>,
    block: BlockNumHash,
    capacity: RingBufferCapacity,
)
    requires
        in_order(blocks),
        blocks.len() > 0 ==> blocks.last().number <= block.number,
    ensures
        in_order(retained(blocks.push(block), capacity)),
{
    let pushed = blocks.push(block);
    assert(in_order(pushed));
    let kept = retained(pushed, capacity);
    assert forall|i: int, j: int| 0 <= i <= j < kept.len() implies kept[i].number
        <= kept[j].number by {
        match capacity {
            RingBufferCapacity::Infinite => {},
            RingBufferCapacity::Limited(limit) => {
                if pushed.len() > limit {
                    assert(kept[i] == pushed[i + pushed.len() - limit]);
                    assert(kept[j] == pushed[j + pushed.len() - limit]);
                }
            },
        }
    }
}

/// Of the blocks pushed, the newest are retained, in order: as many as there is room for.
pub proof fn newest_blocks_are_retained(
    blocks: Seq<BlockNumHash>,
    capacity: RingBufferCapacity,
    i: int,
)
    requires
        0 <= i < blocks.len(),
    ensures
        match capacity {
            RingBufferCapacity::Infinite => {
                let kept = retained(blocks, capacity);
                kept.len() == blocks.len() && kept[i] == blocks[i]
            },
            RingBufferCapacity::Limited(limit) => {
                let kept = retained(blocks, capacity);
                &&& blocks.len() <= limit ==> kept.len() == blocks.len() && kept[i] == blocks[i]
                &&& blocks.len() > limit ==> kept.len() == limit
                &&& blocks.len() > limit && i < limit ==> kept[i] == blocks[blocks.len() - limit
                    + i]
            },
        },
{
}

/// A buffer has room for a sequence of blocks exactly if all of them are retained.
pub proof fn what_fits_is_retained(blocks: Seq<BlockNumHash>, capacity: RingBufferCapacity)
    ensures
        fits(blocks, capacity) <==> retained(blocks, capacity) == blocks,
        fits(retained(blocks, capacity), capacity),
{
    if let RingBufferCapacity::Limited(limit) = capacity {
        if blocks.len() > limit {
            assert(retained(blocks, capacity).len() == limit);
        }
    }
}

/// A number stands for a capacity of just so many blocks.
pub proof fn capacity_is_the_number_given(small: u8, medium: u16, large: u32, size: usize)
    ensures
        <RingBufferCapacity as vstd::std_specs::convert::FromSpec<u8>>::from_spec(small)
            == RingBufferCapacity::Limited(small as usize),
        <RingBufferCapacity as vstd::std_specs::convert::FromSpec<u16>>::from_spec(medium)
            == RingBufferCapacity::Limited(medium as usize),
        <RingBufferCapacity as vstd::std_specs::convert::FromSpec<u32>>::from_spec(large)
            == RingBufferCapacity::Limited(large as usize),
        <RingBufferCapacity as vstd::std_specs::convert::FromSpec<usize>>::from_spec(size)
            == RingBufferCapacity::Limited(size),
{
}

} // verus!
