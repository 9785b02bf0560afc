//! Detection of chain reorganisations.
//!
//! Checking a block takes several questions to the node.  A check is therefore a conversation:
//! [`DefaultReorgHandler::check`] gives the first question, if there is any, and each answer, handed
//! to [`DefaultReorgHandler::resume`], gives the next question or the outcome.

#[allow(unused_imports)]
use super::ring_buffer;
use super::ring_buffer::{RingBuffer, RingBufferCapacity};
use crate::error::ScannerError;
#[allow(unused_imports)]
use crate::types::{BlockHash, BlockId};
use crate::types::{BlockNumHash, BlockNumberOrTag};
use vstd::prelude::*;

verus! {

/// What the node is asked in the course of a check, and why.
#[derive(Clone, Copy, Debug)]
pub enum ReorgQuery {
    /// Is this block, the one to check, still on the chain?
    Incoming(BlockNumHash),
    /// Is this buffered block still on the chain?
    Candidate(BlockNumHash),
    /// Is this block, found on the chain, at least as new as the finalized one?
    Ancestor(BlockNumHash),
    /// Which block is finalized, no buffered block being on the chain any more?
    Fallback,
}

impl ReorgQuery {
    /// The block that answers the question.
    pub open spec fn asks_for(self) -> BlockNumberOrTag {
        match self {
            ReorgQuery::Incoming(block) => BlockNumberOrTag::Number(block.number),
            ReorgQuery::Candidate(candidate) => BlockNumberOrTag::Number(candidate.number),
            ReorgQuery::Ancestor(_) => BlockNumberOrTag::Finalized,
            ReorgQuery::Fallback => BlockNumberOrTag::Finalized,
        }
    }

    /// The block to ask the node for.
    pub fn target(&self) -> (target: BlockNumberOrTag)
        ensures
            target == self.asks_for(),
    {
        match self {
            ReorgQuery::Incoming(block) => BlockNumberOrTag::Number(block.number),
            ReorgQuery::Candidate(candidate) => BlockNumberOrTag::Number(candidate.number),
            ReorgQuery::Ancestor(_) => BlockNumberOrTag::Finalized,
            ReorgQuery::Fallback => BlockNumberOrTag::Finalized,
        }
    }
}

/// How a check goes on.
#[derive(Debug)]
pub enum ReorgStep {
    /// With this question.
    Ask(ReorgQuery),
    /// Not at all: the outcome is the common ancestor if there was a reorg, `None` if there was
    /// none, or the error that kept it from being found out.
    Done(Result<Option<BlockNumHash>, ScannerError>),
}

/// What the node says of a block.
pub type BlockReply = Result<BlockNumHash, ScannerError>;

/// Whether reorgs are not to be detected, no blocks being stored.
pub open spec fn disabled(capacity: RingBufferCapacity) -> bool {
    capacity == RingBufferCapacity::Limited(0)
}

/// How a check begins: the node is asked for the block of that height, unless reorgs are not to be
/// detected.
pub open spec fn begun(capacity: RingBufferCapacity, block: BlockNumHash) -> ReorgStep {
    if disabled(capacity) {
        ReorgStep::Done(Ok(None))
    } else {
        ReorgStep::Ask(ReorgQuery::Incoming(block))
    }
}

/// The search for a buffered block that is still on the chain begins with the newest one.
pub open spec fn search(buffer: Seq<BlockNumHash>) -> ReorgStep {
    if buffer.len() == 0 {
        ReorgStep::Ask(ReorgQuery::Fallback)
    } else {
        ReorgStep::Ask(ReorgQuery::Candidate(buffer.last()))
    }
}

/// The buffer without its newest block.
pub open spec fn without_newest(buffer: Seq<BlockNumHash>) -> Seq<BlockNumHash> {
    if buffer.len() == 0 {
        buffer
    } else {
        buffer.drop_last()
    }
}

/// The buffer after a block was found on the chain: it is added, unless it is the newest already.
pub open spec fn with_confirmed(
    buffer: Seq<BlockNumHash>,
    capacity: RingBufferCapacity,
    block: BlockNumHash,
) -> Seq<BlockNumHash> {
    if buffer.len() > 0 && buffer.last().hash == block.hash {
        buffer
    } else {
        ring_buffer::retained(buffer.push(block), capacity)
    }
}

/// The buffer and the next step after `reply` to `query`.
pub open spec fn resumed(
    buffer: Seq<BlockNumHash>,
    capacity: RingBufferCapacity,
    query: ReorgQuery,
    reply: BlockReply,
) -> (Seq<BlockNumHash>, ReorgStep) {
    match query {
        ReorgQuery::Incoming(block) => match reply {
            Ok(canonical) => if canonical.hash == block.hash {
                (with_confirmed(buffer, capacity, block), ReorgStep::Done(Ok(None)))
            } else {
                (buffer, search(buffer))
            },
            Err(ScannerError::BlockNotFound(_)) => (buffer, search(buffer)),
            Err(e) => (buffer, ReorgStep::Done(Err(e))),
        },
        ReorgQuery::Candidate(candidate) => match reply {
            Ok(canonical) => if canonical.hash == candidate.hash {
                (buffer, ReorgStep::Ask(ReorgQuery::Ancestor(canonical)))
            } else {
                (without_newest(buffer), search(without_newest(buffer)))
            },
            Err(ScannerError::BlockNotFound(_)) => (
                without_newest(buffer),
                search(without_newest(buffer)),
            ),
            Err(e) => (buffer, ReorgStep::Done(Err(e))),
        },
        ReorgQuery::Ancestor(ancestor) => match reply {
            Ok(finalized) => if finalized.number <= ancestor.number {
                (buffer, ReorgStep::Done(Ok(Some(ancestor))))
            } else {
                (Seq::empty(), ReorgStep::Done(Ok(Some(finalized))))
            },
            Err(e) => (buffer, ReorgStep::Done(Err(e))),
        },
        ReorgQuery::Fallback => match reply {
            Ok(finalized) => (buffer, ReorgStep::Done(Ok(Some(finalized)))),
            Err(e) => (buffer, ReorgStep::Done(Err(e))),
        },
    }
}

/// Handles reorgs with a buffer of the blocks seen last.
///
/// * **Duplicate block detection** - If the incoming block hash matches the last buffered hash, it
///   is not added again to prevent buffer pollution from duplicate checks.
///
/// * **Empty buffer on reorg** - If a reorg is detected but the buffer is empty (e.g., first block
///   after initialization), the finalized block is the common ancestor.
///
/// * **Deep reorg beyond buffer capacity** - If all buffered blocks are reorged (buffer
///   exhausted), the finalized block is used as a safe fallback to prevent data loss.
///
/// * **Common ancestor beyond finalized** - This can happen if not all sequental blocks are
///   checked and stored. If the found common ancestor has a lower block number than the finalized
///   block, the finalized block is used instead and the buffer is cleared.
///
/// * **Network errors during lookup** - Errors other than that a block was not found are
///   propagated immediately rather than being treated as reorgs.
///
/// * **Finalized block unavailable** - If the finalized block cannot be fetched when needed as a
///   fallback, the error is propagated to the caller.
///
/// * **Zero capacity** - If no blocks are to be stored, reorgs are not detected, and the node is
///   not asked.
#[derive(Clone, Debug)]
pub struct DefaultReorgHandler {
    buffer: RingBuffer,
}

impl View for DefaultReorgHandler {
    type V = Seq<BlockNumHash>;

    closed spec fn view(&self) -> Seq<BlockNumHash> {
        self.buffer@
    }
}

impl DefaultReorgHandler {
    /// How many blocks the handler remembers.
    pub closed spec fn capacity(&self) -> RingBufferCapacity {
        self.buffer.limit()
    }

    /// The buffer is within its capacity.
    pub closed spec fn wf(&self) -> bool {
        self.buffer.wf()
    }

    /// A handler that remembers as many blocks as `capacity` says, and none yet.
    pub fn new(capacity: RingBufferCapacity) -> (handler: Self)
        ensures
            handler.wf(),
            handler@ == Seq::<BlockNumHash>::empty(),
            handler.capacity() == capacity,
    {
        DefaultReorgHandler { buffer: RingBuffer::new(capacity) }
    }

    /// A handler that remembers the blocks of `buffer`.
    pub fn with_buffer(buffer: RingBuffer) -> (handler: Self)
        requires
            buffer.wf(),
        ensures
            handler.wf(),
            handler@ == buffer@,
            handler.capacity() == buffer.limit(),
    {
        DefaultReorgHandler { buffer }
    }

    /// Begins to check whether `block` was reorged.
    pub fn check(&self, block: BlockNumHash) -> (step: ReorgStep)
        ensures
            step == begun(self.capacity(), block),
    {
        if self.buffer.is_disabled() {
            ReorgStep::Done(Ok(None))
        } else {
            ReorgStep::Ask(ReorgQuery::Incoming(block))
        }
    }

    /// Goes on with a check after the node's answer to its last question.
    pub fn resume(&mut self, query: ReorgQuery, reply: BlockReply) -> (step: ReorgStep)
        requires
            old(self).wf(),
        ensures
            final(self).wf(),
            final(self).capacity() == old(self).capacity(),
            (final(self)@, step) == resumed(old(self)@, old(self).capacity(), query, reply),
    {
        match query {
            ReorgQuery::Incoming(block) => match Self::reorg_detected(block, reply) {
                Ok(detected) => {
                    if detected {
                        return self.next_candidate();
                    }
                    let known: bool = match self.buffer.back() {
                        Some(newest) => newest.hash == block.hash,
                        None => false,
                    };
                    if !known {
                        self.buffer.push(block);
                    }
                    ReorgStep::Done(Ok(None))
                },
                Err(e) => ReorgStep::Done(Err(e)),
            },
            ReorgQuery::Candidate(candidate) => match reply {
                Ok(canonical) => {
                    if canonical.hash == candidate.hash {
                        return ReorgStep::Ask(ReorgQuery::Ancestor(canonical));
                    }
                    let _ = self.buffer.pop_back();
                    self.next_candidate()
                },
                Err(ScannerError::BlockNotFound(_)) => {
                    let _ = self.buffer.pop_back();
                    self.next_candidate()
                },
                Err(e) => ReorgStep::Done(Err(e)),
            },
            ReorgQuery::Ancestor(ancestor) => ReorgStep::Done(
                self.return_common_ancestor(ancestor, reply),
            ),
            ReorgQuery::Fallback => match reply {
                Ok(finalized) => ReorgStep::Done(Ok(Some(finalized))),
                Err(e) => ReorgStep::Done(Err(e)),
            },
        }
    }

    /// Whether `block` is off the chain, given the block that the node has at its height.
    pub fn reorg_detected(block: BlockNumHash, reply: BlockReply) -> (detected: Result<
        bool,
        ScannerError,
    >)
        ensures
            detected == match reply {
                Ok(canonical) => Ok::<bool, ScannerError>(canonical.hash != block.hash),
                Err(ScannerError::BlockNotFound(_)) => Ok(true),
                Err(e) => Err(e),
            },
    {
        match reply {
            Ok(canonical) => Ok(canonical.hash != block.hash),
            Err(ScannerError::BlockNotFound(_)) => Ok(true),
            Err(e) => Err(e),
        }
    }

    /// Asks about the newest buffered block, or for the finalized block if there is none.
    fn next_candidate(&self) -> (step: ReorgStep)
        ensures
            step == search(self@),
    {
        match self.buffer.back() {
            Some(candidate) => ReorgStep::Ask(ReorgQuery::Candidate(*candidate)),
            None => ReorgStep::Ask(ReorgQuery::Fallback),
        }
    }

    /// The outcome of a check that found `ancestor`, given the finalized block: the newer of the
    /// two.  No buffered block is needed any more if that is the finalized one.
    fn return_common_ancestor(&mut self, ancestor: BlockNumHash, reply: BlockReply) -> (outcome:
        Result<Option<BlockNumHash>, ScannerError>)
        requires
            old(self).wf(),
        ensures
            final(self).wf(),
            final(self).capacity() == old(self).capacity(),
            (final(self)@, ReorgStep::Done(outcome)) == resumed(
                old(self)@,
                old(self).capacity(),
                ReorgQuery::Ancestor(ancestor),
                reply,
            ),
    {
        match reply {
            Ok(finalized) => {
                if finalized.number <= ancestor.number {
                    Ok(Some(ancestor))
                } else {
                    self.buffer.clear();
                    Ok(Some(finalized))
                }
            },
            Err(e) => Err(e),
        }
    }
}

/// A chain that stays as it is while a check runs.
pub ghost struct Chain {
    /// The hash of the block at each height.
    pub hashes: Map<u64, BlockHash>,
    /// The finalized block.
    pub finalized: BlockNumHash,
}

impl Chain {
    /// Whether the block is on the chain.
    pub open spec fn has(self, block: BlockNumHash) -> bool {
        self.hashes.contains_key(block.number) && self.hashes[block.number] == block.hash
    }

    /// What a node on this chain answers.
    pub open spec fn answer(self, query: ReorgQuery) -> BlockReply {
        match query.asks_for() {
            BlockNumberOrTag::Number(number) => if self.hashes.contains_key(number) {
                Ok(BlockNumHash { number, hash: self.hashes[number] })
            } else {
                Err(ScannerError::BlockNotFound(BlockId::Number(BlockNumberOrTag::Number(number))))
            },
            _ => Ok(self.finalized),
        }
    }
}

/// How far a question is from the outcome, the buffer staying the same.
pub open spec fn distance(query: ReorgQuery) -> nat {
    match query {
        ReorgQuery::Incoming(_) => 3,
        ReorgQuery::Candidate(_) => 2,
        ReorgQuery::Ancestor(_) => 1,
        ReorgQuery::Fallback => 0,
    }
}

/// The buffer and the outcome at the end of a check that goes on with `query` while the chain
/// stays as it is.
pub open spec fn concluded(
    chain: Chain,
    buffer: Seq<BlockNumHash>,
    capacity: RingBufferCapacity,
    query: ReorgQuery,
) -> (Seq<BlockNumHash>, Result<Option<BlockNumHash>, ScannerError>)
    decreases buffer.len(), distance(query),
{
    match resumed(buffer, capacity, query, chain.answer(query)) {
        (buffer_after, ReorgStep::Done(outcome)) => (buffer_after, outcome),
        (buffer_after, ReorgStep::Ask(next)) => concluded(chain, buffer_after, capacity, next),
    }
}

/// The buffer and the outcome at the end of a check of `block` while the chain stays as it is.
pub open spec fn checked(
    chain: Chain,
    buffer: Seq<BlockNumHash>,
    capacity: RingBufferCapacity,
    block: BlockNumHash,
) -> (Seq<BlockNumHash>, Result<Option<BlockNumHash>, ScannerError>) {
    match begun(capacity, block) {
        ReorgStep::Done(outcome) => (buffer, outcome),
        ReorgStep::Ask(query) => concluded(chain, buffer, capacity, query),
    }
}

/// A check of a block that is on the chain finds no reorg, and remembers the block.
pub proof fn canonical_block_is_no_reorg(
    chain: Chain,
    buffer: Seq<BlockNumHash>,
    capacity: RingBufferCapacity,
    block: BlockNumHash,
)
    requires
        ring_buffer::fits(buffer, capacity),
        chain.has(block),
    ensures
        checked(chain, buffer, capacity, block) == (
            with_confirmed(buffer, capacity, block),
            Ok::<Option<BlockNumHash>, ScannerError>(None),
        ),
{
    if disabled(capacity) {
        assert(buffer =~= with_confirmed(buffer, capacity, block));
    }
}

/// If no blocks are to be stored, no check finds a reorg, and none is stored.
pub proof fn zero_capacity_disables_detection(
    chain: Chain,
    buffer: Seq<BlockNumHash>,
    block: BlockNumHash,
)
    requires
        ring_buffer::fits(buffer, RingBufferCapacity::Limited(0)),
    ensures
        checked(chain, buffer, RingBufferCapacity::Limited(0), block) == (
            Seq::<BlockNumHash>::empty(),
            Ok::<Option<BlockNumHash>, ScannerError>(None),
        ),
{
    assert(buffer =~= Seq::empty());
}

/// The buffer and the outcome of a check that finds the buffered block at `newest` on the chain:
/// that block is the common ancestor, unless the finalized one is newer.
pub open spec fn found(chain: Chain, buffer: Seq<BlockNumHash>, newest: int) -> (
    Seq<BlockNumHash>,
    Result<Option<BlockNumHash>, ScannerError>,
) {
    if chain.finalized.number <= buffer[newest].number {
        (buffer.take(newest + 1), Ok(Some(buffer[newest])))
    } else {
        (Seq::empty(), Ok(Some(chain.finalized)))
    }
}

/// The search among the buffered blocks ends at the newest one on the chain.
proof fn lemma_search(
    chain: Chain,
    buffer: Seq<BlockNumHash>,
    capacity: RingBufferCapacity,
    newest: int,
)
    requires
        0 <= newest < buffer.len(),
        chain.has(buffer[newest]),
        forall|i: int| newest < i < buffer.len() ==> !chain.has(#[trigger] buffer[i]),
    ensures
        concluded(chain, buffer, capacity, ReorgQuery::Candidate(buffer.last())) == found(
            chain,
            buffer,
            newest,
        ),
    decreases buffer.len(),
{
    reveal_with_fuel(concluded, 3);
    if newest == buffer.len() - 1 {
        assert(buffer.take(newest + 1) =~= buffer);
    } else {
        assert(!chain.has(buffer[buffer.len() - 1]));
        let rest = buffer.drop_last();
        assert(forall|i: int| 0 <= i < rest.len() ==> rest[i] == #[trigger] buffer[i]);
        lemma_search(chain, rest, capacity, newest);
        assert(rest.take(newest + 1) =~= buffer.take(newest + 1));
    }
}

/// The search among the buffered blocks falls back to the finalized block if none is on the chain.
proof fn lemma_search_fails(
    chain: Chain,
    buffer: Seq<BlockNumHash>,
    capacity: RingBufferCapacity,
    query: ReorgQuery,
)
    requires
        search(buffer) == ReorgStep::Ask(query),
        forall|i: int| 0 <= i < buffer.len() ==> !chain.has(#[trigger] buffer[i]),
    ensures
        concluded(chain, buffer, capacity, query) == (
            Seq::<BlockNumHash>::empty(),
            Ok::<Option<BlockNumHash>, ScannerError>(Some(chain.finalized)),
        ),
    decreases buffer.len(),
{
    if buffer.len() == 0 {
        assert(buffer =~= Seq::empty());
    } else {
        assert(!chain.has(buffer[buffer.len() - 1]));
        let rest = buffer.drop_last();
        assert(forall|i: int| 0 <= i < rest.len() ==> rest[i] == #[trigger] buffer[i]);
        let next = search(rest)->Ask_0;
        lemma_search_fails(chain, rest, capacity, next);
    }
}

/// A check of a block that left the chain gives the newest buffered block on the chain as the
/// common ancestor, and forgets the blocks after it; or the finalized block, and forgets all, if
/// that one is newer.
pub proof fn reorg_returns_newest_canonical(
    chain: Chain,
    buffer: Seq<BlockNumHash>,
    capacity: RingBufferCapacity,
    block: BlockNumHash,
    newest: int,
)
    requires
        ring_buffer::fits(buffer, capacity),
        !chain.has(block),
        0 <= newest < buffer.len(),
        chain.has(buffer[newest]),
        forall|i: int| newest < i < buffer.len() ==> !chain.has(#[trigger] buffer[i]),
    ensures
        checked(chain, buffer, capacity, block) == found(chain, buffer, newest),
{
    lemma_search(chain, buffer, capacity, newest);
}

/// A check of a block that left the chain, with no buffered block on the chain, gives the
/// finalized block as the common ancestor, and forgets all buffered blocks.
pub proof fn reorg_beyond_buffer_returns_finalized(
    chain: Chain,
    buffer: Seq<BlockNumHash>,
    capacity: RingBufferCapacity,
    block: BlockNumHash,
)
    requires
        !disabled(capacity),
        !chain.has(block),
        forall|i: int| 0 <= i < buffer.len() ==> !chain.has(#[trigger] buffer[i]),
    ensures
        checked(chain, buffer, capacity, block) == (
            Seq::<BlockNumHash>::empty(),
            Ok::<Option<BlockNumHash>, ScannerError>(Some(chain.finalized)),
        ),
{
    lemma_search_fails(chain, buffer, capacity, search(buffer)->Ask_0);
}

/// The common ancestor that a check gives is never older than the finalized block, and is on the
/// chain if the finalized block is.
pub proof fn common_ancestor_is_not_before_finalized(
    chain: Chain,
    buffer: Seq<BlockNumHash>,
    capacity: RingBufferCapacity,
    block: BlockNumHash,
    ancestor: BlockNumHash,
)
    requires
        ring_buffer::fits(buffer, capacity),
        checked(chain, buffer, capacity, block).1 == Ok::<Option<BlockNumHash>, ScannerError>(
            Some(ancestor),
        ),
    ensures
        !chain.has(block),
        ancestor.number >= chain.finalized.number,
        chain.has(chain.finalized) ==> chain.has(ancestor),
{
    if chain.has(block) {
        canonical_block_is_no_reorg(chain, buffer, capacity, block);
    } else if exists|i: int| 0 <= i < buffer.len() && chain.has(#[trigger] buffer[i]) {
        let newest = newest_on(chain, buffer);
        lemma_newest_on(chain, buffer);
        reorg_returns_newest_canonical(chain, buffer, capacity, block, newest);
    } else {
        reorg_beyond_buffer_returns_finalized(chain, buffer, capacity, block);
    }
}

/// The index of the newest buffered block on the chain.
spec fn newest_on(chain: Chain, buffer: Seq<BlockNumHash>) -> int
    decreases buffer.len(),
{
    if buffer.len() == 0 {
        -1
    } else if chain.has(buffer.last()) {
        buffer.len() - 1
    } else {
        newest_on(chain, buffer.drop_last())
    }
}

proof fn lemma_newest_on(chain: Chain, buffer: Seq<BlockNumHash>)
    ensures
        -1 <= newest_on(chain, buffer) < buffer.len(),
        newest_on(chain, buffer) >= 0 ==> chain.has(buffer[newest_on(chain, buffer)]),
        forall|i: int|
            newest_on(chain, buffer) < i < buffer.len() ==> !chain.has(#[trigger] buffer[i]),
    decreases buffer.len(),
{
    if buffer.len() > 0 && !chain.has(buffer.last()) {
        let rest = buffer.drop_last();
        lemma_newest_on(chain, rest);
        assert(forall|i: int| 0 <= i < rest.len() ==> #[trigger] buffer[i] == rest[i]);
    }
}

/// A block found on the chain is remembered behind all those remembered before, unless it is the
/// newest of them already.  Only the oldest is forgotten, and only if there is no room for all.
pub proof fn canonical_block_is_remembered(
    buffer: Seq<BlockNumHash>,
    capacity: RingBufferCapacity,
    block: BlockNumHash,
    canonical: BlockNumHash,
)
    requires
        capacity matches RingBufferCapacity::Limited(limit) ==> buffer.len() <= limit,
        canonical.hash == block.hash,
    ensures
        ({
            let (after, step) = resumed(
                buffer,
                capacity,
                ReorgQuery::Incoming(block),
                Ok(canonical),
            );
            let known = buffer.len() > 0 && buffer.last().hash == block.hash;
            &&& step matches ReorgStep::Done(Ok(None))
            &&& known ==> after == buffer
            &&& !known ==> match capacity {
                RingBufferCapacity::Infinite => after == buffer.push(block),
                RingBufferCapacity::Limited(limit) => {
                    &&& buffer.len() < limit ==> after == buffer.push(block)
                    &&& buffer.len() == limit ==> after == buffer.push(block).drop_first()
                },
            }
        }),
{
    let (after, step) = resumed(buffer, capacity, ReorgQuery::Incoming(block), Ok(canonical));
    if let RingBufferCapacity::Limited(limit) = capacity {
        if buffer.len() == limit {
            assert(buffer.push(block).skip(1) =~= buffer.push(block).drop_first());
        }
    }
}

/// The blocks remembered after checks of `blocks`, one after the other, all being on the chain.
pub open spec fn remembered(
    buffer: Seq<BlockNumHash>,
    capacity: RingBufferCapacity,
    blocks: Seq<BlockNumHash>,
) -> Seq<BlockNumHash>
    decreases blocks.len(),
{
    if blocks.len() == 0 {
        buffer
    } else {
        let before = remembered(buffer, capacity, blocks.drop_last());
        resumed(before, capacity, ReorgQuery::Incoming(blocks.last()), Ok(blocks.last())).0
    }
}

/// After checks of blocks that are all on the chain, no block being checked twice in a row, the
/// newest of them are remembered, in order: as many as there is room for.
pub proof fn checked_blocks_are_remembered_in_order(
    capacity: RingBufferCapacity,
    blocks: Seq<BlockNumHash>,
)
    requires
        capacity != RingBufferCapacity::Limited(0),
        forall|i: int, j: int|
            #![trigger blocks[i], blocks[j]]
            0 <= i && j == i + 1 && j < blocks.len() ==> blocks[i].hash != blocks[j].hash,
    ensures
        match capacity {
            RingBufferCapacity::Infinite => remembered(Seq::empty(), capacity, blocks) == blocks,
            RingBufferCapacity::Limited(limit) => remembered(Seq::empty(), capacity, blocks)
                == blocks.skip(
                if blocks.len() <= limit {
                    0
                } else {
                    blocks.len() - limit
                },
            ),
        },
    decreases blocks.len(),
{
    let none = Seq::<BlockNumHash>::empty();
    if blocks.len() == 0 {
        assert(blocks =~= none);
        assert(blocks.skip(0) =~= none);
    } else {
        let rest = blocks.drop_last();
        assert forall|i: int, j: int|
            #![trigger rest[i], rest[j]]
            0 <= i && j == i + 1 && j < rest.len() implies rest[i].hash != rest[j].hash by {
            assert(rest[i] == blocks[i] && rest[j] == blocks[j]);
        }
        checked_blocks_are_remembered_in_order(capacity, rest);
        let before = remembered(none, capacity, rest);
        if rest.len() > 0 {
            assert(before.last() == rest.last());
            assert(rest.last() == blocks[blocks.len() - 2]);
        }
        canonical_block_is_remembered(before, capacity, blocks.last(), blocks.last());
        assert(rest.push(blocks.last()) =~= blocks);
        if let RingBufferCapacity::Limited(limit) = capacity {
            if blocks.len() <= limit {
                assert(rest.skip(0) =~= rest);
                assert(blocks.skip(0) =~= blocks);
            } else if rest.len() <= limit {
                assert(rest.skip(0) =~= rest);
                assert(blocks.drop_first() =~= blocks.skip(blocks.len() - limit));
            } else {
                assert(before.push(blocks.last()).drop_first() =~= blocks.skip(
                    blocks.len() - limit,
                ));
            }
        }
    }
}

/// A check asks for the block of the same height first; for buffered blocks by their heights, the
/// newest first; and otherwise for the finalized block.
pub proof fn check_asks_for_the_right_blocks(
    buffer: Seq<BlockNumHash>,
    capacity: RingBufferCapacity,
    block: BlockNumHash,
    canonical: BlockNumHash,
)
    requires
        capacity != RingBufferCapacity::Limited(0),
        canonical.hash != block.hash,
    ensures
        begun(capacity, block) matches ReorgStep::Ask(query) && query.asks_for()
            == BlockNumberOrTag::Number(block.number) && query == ReorgQuery::Incoming(block),
        ({
            let (after, step) = resumed(
                buffer,
                capacity,
                ReorgQuery::Incoming(block),
                Ok(canonical),
            );
            &&& after == buffer
            &&& step matches ReorgStep::Ask(query)
            &&& buffer.len() == 0 ==> query is Fallback && query.asks_for()
                == BlockNumberOrTag::Finalized
            &&& buffer.len() > 0 ==> query == ReorgQuery::Candidate(buffer.last())
                && query.asks_for() == BlockNumberOrTag::Number(buffer.last().number)
        }),
        ReorgQuery::Ancestor(block).asks_for() == BlockNumberOrTag::Finalized,
{
}

/// A buffered block that has left the chain is forgotten, and it alone; one that is still there
/// stays, and the finalized block is asked for.
pub proof fn buffered_block_stays_if_it_is_on_the_chain(
    buffer: Seq<BlockNumHash>,
    capacity: RingBufferCapacity,
    canonical: BlockNumHash,
    id: BlockId,
)
    requires
        buffer.len() > 0,
    ensures
        ({
            let newest = ReorgQuery::Candidate(buffer.last());
            let (after, step) = resumed(buffer, capacity, newest, Ok(canonical));
            let (gone, next) = resumed(
                buffer,
                capacity,
                newest,
                Err(ScannerError::BlockNotFound(id)),
            );
            &&& canonical.hash == buffer.last().hash ==> {
                &&& after == buffer
                &&& step == ReorgStep::Ask(ReorgQuery::Ancestor(canonical))
            }
            &&& canonical.hash != buffer.last().hash ==> after == buffer.drop_last() && step
                == next
            &&& gone == buffer.drop_last()
            &&& buffer.len() > 1 ==> next == ReorgStep::Ask(
                ReorgQuery::Candidate(buffer[buffer.len() - 2]),
            )
            &&& buffer.len() == 1 ==> next == ReorgStep::Ask(ReorgQuery::Fallback)
        }),
{
}

/// The common ancestor is the block found, or the finalized block if that one is newer; in that
/// case nothing stays buffered.  If no block was found it is the finalized block.
pub proof fn newer_of_ancestor_and_finalized_is_returned(
    buffer: Seq<BlockNumHash>,
    capacity: RingBufferCapacity,
    ancestor: BlockNumHash,
    finalized: BlockNumHash,
)
    ensures
        ancestor.number >= finalized.number ==> resumed(
            buffer,
            capacity,
            ReorgQuery::Ancestor(ancestor),
            Ok(finalized),
        ) == (buffer, ReorgStep::Done(Ok(Some(ancestor)))),
        ancestor.number < finalized.number ==> resumed(
            buffer,
            capacity,
            ReorgQuery::Ancestor(ancestor),
            Ok(finalized),
        ) == (Seq::<BlockNumHash>::empty(), ReorgStep::Done(Ok(Some(finalized)))),
        resumed(buffer, capacity, ReorgQuery::Fallback, Ok(finalized)) == (
            buffer,
            ReorgStep::Done(Ok(Some(finalized))),
        ),
{
}

/// A block that is not found counts as one that has left the chain; the finalized block excepted.
/// Any other error ends a check, and nothing is forgotten on its account.
pub proof fn errors_end_a_check(
    buffer: Seq<BlockNumHash>,
    capacity: RingBufferCapacity,
    query: ReorgQuery,
    error: ScannerError,
    other: BlockNumHash,
)
    ensures
        !(error is BlockNotFound) || query is Ancestor || query is Fallback ==> resumed(
            buffer,
            capacity,
            query,
            Err(error),
        ) == (buffer, ReorgStep::Done(Err(error))),
        error is BlockNotFound ==> (query matches ReorgQuery::Incoming(block) ==> (other.hash
            != block.hash ==> resumed(buffer, capacity, query, Err(error)) == resumed(
            buffer,
            capacity,
            query,
            Ok(other),
        ))),
{
}

/// When a block has left the chain, the newest buffered block that is still on it is the common
/// ancestor, and of the buffer only the blocks up to it stay; but if the finalized block is newer,
/// that one is, and none stay.
pub proof fn common_ancestor_is_the_newest_on_the_chain(
    chain: Chain,
    buffer: Seq<BlockNumHash>,
    capacity: RingBufferCapacity,
    block: BlockNumHash,
    newest: int,
)
    requires
        capacity matches RingBufferCapacity::Limited(limit) ==> buffer.len() <= limit,
        !chain.has(block),
        0 <= newest < buffer.len(),
        chain.has(buffer[newest]),
        forall|i: int| newest < i < buffer.len() ==> !chain.has(#[trigger] buffer[i]),
    ensures
        ({
            let (after, outcome) = checked(chain, buffer, capacity, block);
            &&& chain.finalized.number <= buffer[newest].number ==> {
                &&& outcome == Ok::<Option<BlockNumHash>, ScannerError>(Some(buffer[newest]))
                &&& after == buffer.take(newest + 1)
            }
            &&& chain.finalized.number > buffer[newest].number ==> {
                &&& outcome == Ok::<Option<BlockNumHash>, ScannerError>(Some(chain.finalized))
                &&& after.len() == 0
            }
        }),
{
    reorg_returns_newest_canonical(chain, buffer, capacity, block, newest);
}

} // verus!
