//! Plain values shared by all scanners.

use vstd::prelude::*;

verus! {

/// Height of a block.
pub type BlockNumber = u64;

/// Hash of a block.
#[derive(Clone, Copy, Debug)]
pub struct BlockHash {
    pub bytes: [u8; 32],
}

impl View for BlockHash {
    type V = Seq<u8>;

    open spec fn view(&self) -> Seq<u8> {
        self.bytes@
    }
}

impl BlockHash {
    /// The hash whose bytes all equal `byte`.
    pub fn repeat_byte(byte: u8) -> (hash: BlockHash)
        ensures
            hash@ == Seq::new(32, |i: int| byte),
    {
        let hash = BlockHash { bytes: [byte; 32] };
        assert(hash@ =~= Seq::new(32, |i: int| byte));
        hash
    }
}

impl PartialEq for BlockHash {
    fn eq(&self, other: &Self) -> (same: bool) {
        let mut i: usize = 0;
        while i < 32
            invariant
                i <= 32,
                forall|j: int| 0 <= j < i ==> self.bytes@[j] == other.bytes@[j],
            decreases 32 - i,
        {
            if self.bytes[i] != other.bytes[i] {
                assert(self.bytes@[i as int] != other.bytes@[i as int]);
                return false;
            }
            i = i + 1;
        }
        assert(self.bytes =~= other.bytes);
        true
    }
}

impl vstd::std_specs::cmp::PartialEqSpecImpl for BlockHash {
    open spec fn obeys_eq_spec() -> bool {
        true
    }

    open spec fn eq_spec(&self, other: &Self) -> bool {
        *self == *other
    }
}

impl Eq for BlockHash {

}

/// Address of a contract.
#[derive(Clone, Copy, Debug)]
pub struct Address {
    pub bytes: [u8; 20],
}

impl View for Address {
    type V = Seq<u8>;

    open spec fn view(&self) -> Seq<u8> {
        self.bytes@
    }
}

impl PartialEq for Address {
    fn eq(&self, other: &Self) -> (same: bool) {
        let mut i: usize = 0;
        while i < 20
            invariant
                i <= 20,
                forall|j: int| 0 <= j < i ==> self.bytes@[j] == other.bytes@[j],
            decreases 20 - i,
        {
            if self.bytes[i] != other.bytes[i] {
                assert(self.bytes@[i as int] != other.bytes@[i as int]);
                return false;
            }
            i = i + 1;
        }
        assert(self.bytes =~= other.bytes);
        true
    }
}

impl vstd::std_specs::cmp::PartialEqSpecImpl for Address {
    open spec fn obeys_eq_spec() -> bool {
        true
    }

    open spec fn eq_spec(&self, other: &Self) -> bool {
        *self == *other
    }
}

impl Eq for Address {

}

/// A block, as far as reorganisations are concerned: its height and its hash.
#[derive(Clone, Copy, Debug)]
pub struct BlockNumHash {
    pub number: BlockNumber,
    pub hash: BlockHash,
}

impl PartialEq for BlockNumHash {
    fn eq(&self, other: &Self) -> (same: bool) {
        self.number == other.number && self.hash == other.hash
    }
}

impl vstd::std_specs::cmp::PartialEqSpecImpl for BlockNumHash {
    open spec fn obeys_eq_spec() -> bool {
        true
    }

    open spec fn eq_spec(&self, other: &Self) -> bool {
        *self == *other
    }
}

impl Eq for BlockNumHash {

}

impl BlockNumHash {
    /// The block of the given height and hash.
    pub fn new(number: BlockNumber, hash: BlockHash) -> (block: BlockNumHash)
        ensures
            block.number == number,
            block.hash == hash,
    {
        BlockNumHash { number, hash }
    }
}

/// The blocks from `start` to `end`, both included.
#[derive(Clone, Copy, Debug, PartialEq, Eq, Structural)]
pub struct BlockRange {
    pub start: BlockNumber,
    pub end: BlockNumber,
}

impl BlockRange {
    /// Whether block `number` lies in the range.
    pub open spec fn has_block(self, number: int) -> bool {
        self.start <= number <= self.end
    }

    /// The range from `start` to `end`, both included.
    pub fn new(start: BlockNumber, end: BlockNumber) -> (range: BlockRange)
        ensures
            range.start == start,
            range.end == end,
    {
        BlockRange { start, end }
    }
}

/// A block, named by its height or by its role on the chain.
#[derive(Clone, Copy, Debug, PartialEq, Eq, Structural)]
pub enum BlockNumberOrTag {
    Latest,
    Finalized,
    Safe,
    Earliest,
    Pending,
    Number(BlockNumber),
}

/// A block, named by its hash, its height or its role on the chain.
#[derive(Clone, Copy, Debug)]
pub enum BlockId {
    Hash {
        hash: BlockHash,
        require_canonical: Option<bool>,
    },
    Number(BlockNumberOrTag),
}

/// A span of time, in nanoseconds.
pub type TimeSpan = u128;

/// So many seconds.
pub fn seconds(secs: u64) -> (span: TimeSpan)
    ensures
        span == secs * 1_000_000_000,
{
    secs as u128 * 1_000_000_000
}

/// So many milliseconds.
pub fn milliseconds(millis: u64) -> (span: TimeSpan)
    ensures
        span == millis * 1_000_000,
{
    millis as u128 * 1_000_000
}

/// Whether anybody still reads from a stream.
#[derive(Clone, Copy, Debug, PartialEq, Eq, Structural)]
pub enum ChannelState {
    Open,
    Closed,
}

impl ChannelState {
    /// Whether nobody reads from the stream any more.
    pub fn is_closed(&self) -> (closed: bool)
        ensures
            closed == (*self == ChannelState::Closed),
    {
        match self {
            ChannelState::Open => false,
            ChannelState::Closed => true,
        }
    }
}

/// What a scanner tells its consumers besides data.
#[derive(Clone, Copy, Debug, PartialEq, Eq, Structural)]
pub enum Notification {
    /// The historical part is complete; what follows is live.
    SwitchingToLive,
    /// Blocks after `common_ancestor` are no longer on the chain.
    ReorgDetected {
        common_ancestor: BlockNumber,
    },
}

/// An item of a stream: data, or a notification.
#[derive(Clone, Copy, Debug, PartialEq, Eq)]
pub enum ScannerMessage<T> {
    Data(T),
    Notification(Notification),
}

} // verus!
