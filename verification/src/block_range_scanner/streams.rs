//! The streams of the subscription service.

use super::message::{Message, ScannerMessage, ScannerStatus};
#[allow(unused_imports)]
use super::range_iterator;
#[allow(unused_imports)]
use super::range_iterator::Direction;
use super::range_iterator::RangeIterator;
#[allow(unused_imports)]
use super::scanner;
#[allow(unused_imports)]
use super::scanner::SyncPlan;
use crate::error::ScannerError;
use crate::types::{BlockHash, BlockNumHash, BlockNumber, BlockRange, ChannelState};
use std::collections::VecDeque;
use vstd::prelude::*;

verus! {

/// The streaming of past blocks, oldest first, without any reorg check.
#[derive(Debug)]
pub struct HistoricalBlocks {
    iter: RangeIterator,
}

impl HistoricalBlocks {
    /// The batches still to be sent.
    pub closed spec fn pending(&self) -> Seq<BlockRange> {
        self.iter.pending()
    }

    /// Batches are not empty.
    pub closed spec fn wf(&self) -> bool {
        self.iter.wf() && self.iter.way() == Direction::Forward
    }

    /// Begins to stream the blocks from `start` to `end`.
    pub fn stream_historical_blocks(
        start: BlockNumber,
        end: BlockNumber,
        max_block_range: u64,
    ) -> (stream: Self)
        requires
            max_block_range >= 1,
        ensures
            stream.wf(),
            stream.pending() == range_iterator::forward_batches(
                start as int,
                end as int,
                max_block_range as int,
            ),
    {
        HistoricalBlocks { iter: RangeIterator::forward(start, end, max_block_range) }
    }

    /// The next batch to send, if the subscriber still listens.
    pub fn next(&mut self, channel: ChannelState) -> (batch: Option<BlockRange>)
        requires
            old(self).wf(),
        ensures
            final(self).wf(),
            channel == ChannelState::Closed ==> batch is None && *final(self) == *old(self),
            channel == ChannelState::Open ==> (batch is None <==> old(self).pending().len() == 0),
            channel == ChannelState::Open && batch is None ==> *final(self) == *old(self),
            batch matches Some(batch) ==> {
                &&& batch == old(self).pending()[0]
                &&& final(self).pending() == old(self).pending().drop_first()
            },
    {
        if channel.is_closed() {
            return None;
        }
        self.iter.next()
    }
}

/// Where a rewind stands.
#[derive(Debug)]
pub enum RewindPhase {
    /// A batch is being sent.
    Sending {
        batch: BlockRange,
    },
    /// Whether the newest block is still on the chain is being found out.
    CheckingTip,
    /// A reorg is being announced.
    Notifying,
    /// The block that has replaced the newest block is being fetched.
    FetchingTip,
    /// The rewind is over.
    Finished,
}

/// What a rewind waits for, and hears.
#[derive(Debug)]
pub enum RewindEvent {
    /// The message was sent, whether or not anybody listened.
    Sent,
    /// Whether the chain has a block of the hash asked about.
    TipKnown(Result<bool, ScannerError>),
    /// The block that is now at the height of the newest block.
    TipFetched(Result<BlockNumHash, ScannerError>),
}

/// What a rewind asks for.
#[derive(Debug)]
pub enum RewindAction {
    /// Send this message to the subscriber.
    Send(Message),
    /// Find out whether the chain has a block of this hash.
    CheckTip(BlockHash),
    /// Fetch the block of this number.
    FetchTip(BlockNumber),
    /// Nothing; the rewind is over.
    Finish(Result<(), ScannerError>),
}

/// A rewind, as a value.
#[verifier::ext_equal]
pub ghost struct RewindState {
    /// The newest block to stream.
    pub from: u64,
    /// The oldest block to stream.
    pub to: u64,
    pub max_block_range: u64,
    /// The hash of the newest block.
    pub tip_hash: BlockHash,
    /// The batches not begun yet.
    pub pending: Seq<BlockRange>,
    pub phase: RewindPhase,
}

impl RewindState {
    /// Goes to the next batch.
    pub open spec fn advanced(self) -> RewindState {
        if self.pending.len() == 0 {
            RewindState { phase: RewindPhase::Finished, ..self }
        } else {
            RewindState {
                phase: RewindPhase::Sending { batch: self.pending[0] },
                pending: self.pending.drop_first(),
                ..self
            }
        }
    }

    /// All batches, newest first.
    pub open spec fn all_batches(self) -> Seq<BlockRange> {
        range_iterator::reverse_batches(
            self.to as int,
            self.from as int,
            self.max_block_range as int,
        )
    }

    /// The state after an event.  An event that is not waited for changes nothing.
    pub open spec fn after(self, event: RewindEvent) -> RewindState {
        match (self.phase, event) {
            (RewindPhase::Sending { .. }, RewindEvent::Sent) => if self.pending.len() == 0 {
                RewindState { phase: RewindPhase::Finished, ..self }
            } else {
                RewindState { phase: RewindPhase::CheckingTip, ..self }
            },
            (RewindPhase::CheckingTip, RewindEvent::TipKnown(known)) => match known {
                Ok(true) => self.advanced(),
                Ok(false) => RewindState { phase: RewindPhase::Notifying, ..self },
                Err(_) => RewindState { phase: RewindPhase::Finished, ..self },
            },
            (RewindPhase::Notifying, RewindEvent::Sent) => RewindState {
                phase: RewindPhase::FetchingTip,
                ..self
            },
            (RewindPhase::FetchingTip, RewindEvent::TipFetched(fetched)) => match fetched {
                Ok(tip) => RewindState {
                    tip_hash: tip.hash,
                    pending: self.all_batches(),
                    ..self
                }.advanced(),
                Err(_) => RewindState { phase: RewindPhase::Finished, ..self },
            },
            _ => self,
        }
    }

    /// What is asked for in the present phase.
    pub open spec fn action(self) -> RewindAction {
        match self.phase {
            RewindPhase::Sending { batch } => RewindAction::Send(Message::Data(batch)),
            RewindPhase::CheckingTip => RewindAction::CheckTip(self.tip_hash),
            RewindPhase::Notifying => RewindAction::Send(
                Message::Status(ScannerStatus::ReorgDetected),
            ),
            RewindPhase::FetchingTip => RewindAction::FetchTip(self.from),
            RewindPhase::Finished => RewindAction::Finish(Ok(())),
        }
    }

    /// What is asked for after an event: to end with an error, or what the new phase asks for.
    pub open spec fn reaction(self, event: RewindEvent) -> RewindAction {
        match (self.phase, event) {
            (RewindPhase::CheckingTip, RewindEvent::TipKnown(Err(e))) => RewindAction::Finish(
                Err(e),
            ),
            (RewindPhase::FetchingTip, RewindEvent::TipFetched(Err(e))) => RewindAction::Finish(
                Err(e),
            ),
            _ => self.after(event).action(),
        }
    }
}

/// The streaming of past blocks, newest batch first.  After each batch but the last, the newest
/// block is checked; if it has left the chain, the rewind begins again.
#[derive(Debug)]
pub struct Rewind {
    from: BlockNumber,
    to: BlockNumber,
    tip_hash: BlockHash,
    iter: RangeIterator,
    phase: RewindPhase,
}

impl View for Rewind {
    type V = RewindState;

    closed spec fn view(&self) -> RewindState {
        RewindState {
            from: self.from,
            to: self.to,
            max_block_range: self.iter.max(),
            tip_hash: self.tip_hash,
            pending: self.iter.pending(),
            phase: self.phase,
        }
    }
}

/// The state in which a rewind from block `from` to block `to` begins.
pub open spec fn rewind_begun(
    from: BlockNumHash,
    to: u64,
    max_block_range: u64,
) -> RewindState {
    RewindState {
        from: from.number,
        to,
        max_block_range,
        tip_hash: from.hash,
        pending: range_iterator::reverse_batches(
            to as int,
            from.number as int,
            max_block_range as int,
        ),
        phase: RewindPhase::Finished,
    }.advanced()
}

impl Rewind {
    /// Batches are not empty and come newest first.
    pub closed spec fn wf(&self) -> bool {
        &&& self.iter.wf()
        &&& self.iter.way() == Direction::Reverse
        &&& self.iter.boundary() == self.to
    }

    fn advance(&mut self)
        requires
            old(self).wf(),
        ensures
            final(self).wf(),
            final(self)@ == old(self)@.advanced(),
    {
        match self.iter.next() {
            Some(batch) => {
                self.phase = RewindPhase::Sending { batch };
            },
            None => {
                self.phase = RewindPhase::Finished;
            },
        }
        assert(self@ =~= old(self)@.advanced());
    }

    /// Begins to stream blocks in reverse order from `from` to `to`.
    pub fn stream_rewind(
        from: BlockNumHash,
        to: BlockNumHash,
        max_block_range: u64,
    ) -> (rewind: Self)
        requires
            max_block_range >= 1,
        ensures
            rewind.wf(),
            rewind@ == rewind_begun(from, to.number, max_block_range),
    {
        let mut rewind = Rewind {
            from: from.number,
            to: to.number,
            tip_hash: from.hash,
            iter: RangeIterator::reverse(from.number, to.number, max_block_range),
            phase: RewindPhase::Finished,
        };
        rewind.advance();
        rewind
    }

    /// What is to be done next.
    pub fn action(&self) -> (action: RewindAction)
        ensures
            action == self@.action(),
    {
        match &self.phase {
            RewindPhase::Sending { batch } => RewindAction::Send(ScannerMessage::Data(*batch)),
            RewindPhase::CheckingTip => RewindAction::CheckTip(self.tip_hash),
            RewindPhase::Notifying => RewindAction::Send(
                ScannerMessage::Status(ScannerStatus::ReorgDetected),
            ),
            RewindPhase::FetchingTip => RewindAction::FetchTip(self.from),
            RewindPhase::Finished => RewindAction::Finish(Ok(())),
        }
    }

    /// Takes in what came of the last action, and says what is to be done next.
    pub fn step(&mut self, event: RewindEvent) -> (action: RewindAction)
        requires
            old(self).wf(),
        ensures
            final(self).wf(),
            final(self)@ == old(self)@.after(event),
            action == old(self)@.reaction(event),
    {
        match (&self.phase, event) {
            (RewindPhase::Sending { .. }, RewindEvent::Sent) => {
                if self.iter.is_exhausted() {
                    self.phase = RewindPhase::Finished;
                } else {
                    self.phase = RewindPhase::CheckingTip;
                }
            },
            (RewindPhase::CheckingTip, RewindEvent::TipKnown(known)) => match known {
                Ok(known) => {
                    if known {
                        self.advance();
                    } else {
                        self.phase = RewindPhase::Notifying;
                    }
                },
                Err(e) => {
                    self.phase = RewindPhase::Finished;
                    return RewindAction::Finish(Err(e));
                },
            },
            (RewindPhase::Notifying, RewindEvent::Sent) => {
                self.phase = RewindPhase::FetchingTip;
            },
            (RewindPhase::FetchingTip, RewindEvent::TipFetched(fetched)) => match fetched {
                Ok(tip) => {
                    self.tip_hash = tip.hash;
                    self.iter.reset_to(self.from);
                    self.advance();
                },
                Err(e) => {
                    self.phase = RewindPhase::Finished;
                    return RewindAction::Finish(Err(e));
                },
            },
            _ => {},
        }
        self.action()
    }
}

/// What a new block gives to send: that there was a reorg, and then a range of blocks.
#[derive(Clone, Copy, Debug, PartialEq, Eq, Structural)]
pub struct LiveOutput {
    pub reorg: bool,
    pub range: Option<BlockRange>,
}

impl LiveOutput {
    /// The messages to send, in order: first that there was a reorg, if there was one, and then the
    /// range, if there is one.
    pub open spec fn sent(self) -> Seq<Message> {
        (if self.reorg {
            seq![Message::Status(ScannerStatus::ReorgDetected)]
        } else {
            Seq::empty()
        }) + (match self.range {
            Some(range) => seq![Message::Data(range)],
            None => Seq::empty(),
        })
    }

    /// The messages to send, in order.
    pub fn messages(&self) -> (messages: Vec<Message>)
        ensures
            messages@ == self.sent(),
    {
        let mut messages: Vec<Message> = Vec::new();
        if self.reorg {
            messages.push(ScannerMessage::Status(ScannerStatus::ReorgDetected));
        }
        if let Some(range) = self.range {
            messages.push(ScannerMessage::Data(range));
        }
        assert(messages@ =~= self.sent());
        messages
    }
}

/// The streaming of new blocks.
///
/// Blocks before the first one to stream are skipped until that one, or a later one, comes.  A
/// block that comes a second time tells that there was a reorg.
#[derive(Clone, Copy, Debug, PartialEq, Eq, Structural)]
pub struct LiveBlocks {
    /// The next block to stream.
    pub range_start: BlockNumber,
    /// The first block to come, as long as it has not.
    pub cutoff: Option<BlockNumber>,
    pub block_confirmations: u64,
    pub max_block_range: u64,
}

impl LiveBlocks {
    /// Whether a block is skipped, the stream not having begun.
    pub open spec fn skips(self, incoming: u64) -> bool {
        self.cutoff matches Some(cutoff) && incoming < cutoff
    }

    /// The newest block confirmed by `incoming`.
    pub open spec fn confirmed_by(self, incoming: u64) -> u64 {
        scanner::confirmed_tip(incoming, self.block_confirmations) as u64
    }

    /// The first block not streamed yet, or to be streamed again.
    pub open spec fn begins_at(self, incoming: u64) -> u64 {
        if incoming < self.range_start {
            self.confirmed_by(incoming)
        } else {
            self.range_start
        }
    }

    /// The last block that can be streamed at once.
    pub open spec fn ends_at(self, incoming: u64) -> u64 {
        let begin = self.begins_at(incoming);
        if self.confirmed_by(incoming) - begin < self.max_block_range {
            self.confirmed_by(incoming)
        } else {
            (begin + self.max_block_range - 1) as u64
        }
    }

    /// What is to be sent when block `incoming` comes.
    pub open spec fn output(self, incoming: u64) -> LiveOutput {
        if self.skips(incoming) {
            LiveOutput { reorg: false, range: None }
        } else {
            LiveOutput {
                reorg: incoming < self.range_start,
                range: if self.confirmed_by(incoming) >= self.begins_at(incoming) {
                    Some(
                        BlockRange { start: self.begins_at(incoming), end: self.ends_at(incoming) },
                    )
                } else {
                    None
                },
            }
        }
    }

    /// The stream after block `incoming`.
    pub open spec fn after(self, incoming: u64) -> LiveBlocks {
        if self.skips(incoming) {
            self
        } else {
            LiveBlocks {
                cutoff: None,
                range_start: if self.confirmed_by(incoming) >= self.begins_at(incoming) {
                    (self.ends_at(incoming) + 1) as u64
                } else {
                    self.begins_at(incoming)
                },
                ..self
            }
        }
    }

    /// Begins to stream new blocks from `range_start` on.
    pub fn stream_live_blocks(
        range_start: BlockNumber,
        block_confirmations: u64,
        max_block_range: u64,
    ) -> (stream: Self)
        ensures
            stream == live_begun(range_start, block_confirmations, max_block_range),
    {
        LiveBlocks { range_start, cutoff: Some(range_start), block_confirmations, max_block_range }
    }

    /// Takes in a new block, and says what is to be sent.
    pub fn incoming(&mut self, incoming: BlockNumber) -> (output: LiveOutput)
        requires
            old(self).max_block_range >= 1,
            incoming < u64::MAX,
        ensures
            output == old(self).output(incoming),
            *final(self) == old(self).after(incoming),
    {
        if let Some(cutoff) = self.cutoff {
            if incoming < cutoff {
                return LiveOutput { reorg: false, range: None };
            }
            self.cutoff = None;
        }
        let confirmed: u64 = incoming.saturating_sub(self.block_confirmations);
        let reorg: bool = incoming < self.range_start;
        if reorg {
            self.range_start = confirmed;
        }
        if confirmed >= self.range_start {
            let limit: u64 = self.range_start.saturating_add(self.max_block_range - 1);
            let range_end: u64 = if confirmed <= limit {
                confirmed
            } else {
                limit
            };
            let range = BlockRange { start: self.range_start, end: range_end };
            self.range_start = range_end + 1;
            LiveOutput { reorg, range: Some(range) }
        } else {
            LiveOutput { reorg, range: None }
        }
    }
}

/// What is forwarded of a message held back while past blocks were streamed: of a range, the
/// blocks from `cutoff` on.
pub open spec fn forwarded(message: Message, cutoff: u64) -> Option<Message> {
    match message {
        ScannerMessage::Data(range) => if range.start >= cutoff {
            Some(message)
        } else if range.end > cutoff {
            Some(Message::Data(BlockRange { start: cutoff, end: range.end }))
        } else {
            None
        },
        _ => Some(message),
    }
}

/// What is forwarded of messages held back, in order.
pub open spec fn all_forwarded(messages: Seq<Message>, cutoff: u64) -> Seq<Message>
    decreases messages.len(),
{
    if messages.len() == 0 {
        Seq::empty()
    } else {
        let before = all_forwarded(messages.drop_last(), cutoff);
        match forwarded(messages.last(), cutoff) {
            Some(message) => before.push(message),
            None => before,
        }
    }
}

/// What is forwarded of a message held back.
pub fn forward_buffered(message: Message, cutoff: BlockNumber) -> (kept: Option<Message>)
    ensures
        kept == forwarded(message, cutoff),
{
    match message {
        ScannerMessage::Data(range) => {
            if range.start >= cutoff {
                Some(ScannerMessage::Data(range))
            } else if range.end > cutoff {
                Some(ScannerMessage::Data(BlockRange { start: cutoff, end: range.end }))
            } else {
                None
            }
        },
        other => Some(other),
    }
}

/// What is forwarded of messages held back, in order.
pub fn process_live_block_buffer(buffer: VecDeque<Message>, cutoff: BlockNumber) -> (kept: Vec<
    Message,
>)
    ensures
        kept@ == all_forwarded(buffer@, cutoff),
{
    let ghost all = buffer@;
    let mut buffer = buffer;
    let mut kept: Vec<Message> = Vec::new();
    assert(kept@ =~= all_forwarded(all.take(0), cutoff));
    while buffer.len() > 0
        invariant
            buffer@.len() <= all.len(),
            buffer@ == all.skip(all.len() - buffer@.len()),
            kept@ == all_forwarded(all.take(all.len() - buffer@.len()), cutoff),
        decreases buffer.len(),
    {
        let ghost done = all.len() - buffer@.len();
        let message = buffer.pop_front().unwrap();
        assert(all.take(done + 1).drop_last() =~= all.take(done));
        assert(all.take(done + 1).last() == message);
        assert(buffer@ =~= all.skip(done + 1));
        match forward_buffered(message, cutoff) {
            Some(message) => {
                kept.push(message);
            },
            None => {},
        }
    }
    assert(all.take(all.len() as int) =~= all);
    kept
}

/// The messages that carry `batches`.
pub open spec fn as_data(batches: Seq<BlockRange>) -> Seq<Message> {
    batches.map_values(|batch: BlockRange| Message::Data(batch))
}

/// What happens when all goes well: the newest block stays on the chain, and is found under `tip`.
pub open spec fn calm_event(action: RewindAction, tip: BlockNumHash) -> RewindEvent {
    match action {
        RewindAction::CheckTip(_) => RewindEvent::TipKnown(Ok(true)),
        RewindAction::FetchTip(_) => RewindEvent::TipFetched(Ok(tip)),
        _ => RewindEvent::Sent,
    }
}

/// The messages sent from `state` on when all goes well.
pub open spec fn calm_rewind(state: RewindState, tip: BlockNumHash) -> Seq<Message>
    decreases
            (match state.phase {
                RewindPhase::Notifying => 2int,
                RewindPhase::FetchingTip => 1,
                _ => 0,
            }),
            state.pending.len(),
            (match state.phase {
                RewindPhase::Sending { .. } => 2int,
                RewindPhase::CheckingTip => 1,
                _ => 0,
            }),
{
    let action = state.action();
    match action {
        RewindAction::Finish(_) => Seq::empty(),
        RewindAction::Send(message) => seq![message] + calm_rewind(
            state.after(calm_event(action, tip)),
            tip,
        ),
        _ => calm_rewind(state.after(calm_event(action, tip)), tip),
    }
}

proof fn lemma_calm_rewind(state: RewindState, tip: BlockNumHash)
    ensures
        calm_rewind(state.advanced(), tip) == as_data(state.pending),
    decreases state.pending.len(),
{
    let next = state.advanced();
    if state.pending.len() == 0 {
        assert(as_data(state.pending) =~= Seq::empty());
    } else {
        let sent = next.after(RewindEvent::Sent);
        if next.pending.len() == 0 {
            assert(calm_rewind(sent, tip) =~= Seq::empty());
            assert(as_data(state.pending) =~= seq![Message::Data(state.pending[0])]
                + Seq::empty());
        } else {
            lemma_calm_rewind(sent, tip);
            assert(sent.after(RewindEvent::TipKnown(Ok(true))) == sent.advanced());
            assert(calm_rewind(sent, tip) == calm_rewind(sent.advanced(), tip));
            assert(as_data(state.pending) =~= seq![Message::Data(state.pending[0])] + as_data(
                next.pending,
            ));
        }
    }
}

/// When all goes well, a rewind streams the blocks from `to` to `from` batch by batch, newest
/// first, each block once.
pub proof fn calm_rewind_streams_each_block_once(
    from: BlockNumHash,
    to: u64,
    max_block_range: u64,
    tip: BlockNumHash,
)
    requires
        to <= from.number,
        max_block_range >= 1,
    ensures
        calm_rewind(rewind_begun(from, to, max_block_range), tip) == as_data(
            range_iterator::reverse_batches(
                to as int,
                from.number as int,
                max_block_range as int,
            ),
        ),
{
    let begun = RewindState {
        from: from.number,
        to,
        max_block_range,
        tip_hash: from.hash,
        pending: range_iterator::reverse_batches(
            to as int,
            from.number as int,
            max_block_range as int,
        ),
        phase: RewindPhase::Finished,
    };
    lemma_calm_rewind(begun, tip);
}

/// If the newest block has left the chain, the reorg is announced and the rewind begins again,
/// with the block that has replaced it.
pub proof fn rewind_begins_again_after_reorg(state: RewindState, tip: BlockNumHash)
    requires
        state.phase is CheckingTip,
    ensures
        calm_rewind(state.after(RewindEvent::TipKnown(Ok(false))), tip) == seq![
            Message::Status(ScannerStatus::ReorgDetected),
        ] + as_data(state.all_batches()),
        state.after(RewindEvent::TipKnown(Ok(false))).after(RewindEvent::Sent).after(
            RewindEvent::TipFetched(Ok(tip)),
        ).tip_hash == tip.hash,
{
    let notifying = state.after(RewindEvent::TipKnown(Ok(false)));
    let fetching = notifying.after(RewindEvent::Sent);
    let again = RewindState { tip_hash: tip.hash, pending: fetching.all_batches(), ..fetching };
    lemma_calm_rewind(again, tip);
    assert(fetching.after(RewindEvent::TipFetched(Ok(tip))) == again.advanced());
    assert(calm_rewind(fetching, tip) == calm_rewind(again.advanced(), tip));
}

/// A range of new blocks is confirmed, and no larger than a batch.
pub proof fn live_ranges_are_confirmed_and_capped(stream: LiveBlocks, incoming: u64)
    requires
        stream.max_block_range >= 1,
    ensures
        stream.output(incoming).range matches Some(range) ==> {
            &&& range.start <= range.end <= stream.confirmed_by(incoming)
            &&& range.end - range.start < stream.max_block_range
        },
{
}

/// The ranges streamed for the blocks that come.
pub open spec fn live_ranges(stream: LiveBlocks, blocks: Seq<u64>) -> Seq<BlockRange>
    decreases blocks.len(),
{
    if blocks.len() == 0 {
        Seq::empty()
    } else {
        let first = match stream.output(blocks[0]).range {
            Some(range) => seq![range],
            None => Seq::empty(),
        };
        first + live_ranges(stream.after(blocks[0]), blocks.drop_first())
    }
}

/// The stream after all the blocks.
pub open spec fn live_after(stream: LiveBlocks, blocks: Seq<u64>) -> LiveBlocks
    decreases blocks.len(),
{
    if blocks.len() == 0 {
        stream
    } else {
        live_after(stream.after(blocks[0]), blocks.drop_first())
    }
}

/// Whether no block comes a second time: none is before the blocks already streamed.
pub open spec fn no_reorg(stream: LiveBlocks, blocks: Seq<u64>) -> bool
    decreases blocks.len(),
{
    blocks.len() == 0 || {
        &&& blocks[0] < u64::MAX
        &&& !stream.output(blocks[0]).reorg
        &&& no_reorg(stream.after(blocks[0]), blocks.drop_first())
    }
}

/// As long as there is no reorg, new blocks are streamed without a gap, each once and in order.
pub proof fn live_blocks_are_streamed_once(stream: LiveBlocks, blocks: Seq<u64>)
    requires
        stream.max_block_range >= 1,
        no_reorg(stream, blocks),
    ensures
        stream.range_start <= live_after(stream, blocks).range_start,
        range_iterator::tiles(
            live_ranges(stream, blocks),
            stream.range_start as int,
            live_after(stream, blocks).range_start - 1,
            stream.max_block_range as int,
        ),
    decreases blocks.len(),
{
    if blocks.len() > 0 {
        let next = stream.after(blocks[0]);
        let rest = live_ranges(next, blocks.drop_first());
        live_blocks_are_streamed_once(next, blocks.drop_first());
        match stream.output(blocks[0]).range {
            Some(range) => {
                range_iterator::tiles_join(
                    seq![range],
                    rest,
                    stream.range_start as int,
                    next.range_start as int,
                    live_after(stream, blocks).range_start - 1,
                    stream.max_block_range as int,
                );
            },
            None => {
                assert(Seq::<BlockRange>::empty() + rest =~= rest);
            },
        }
    }
}

/// A reorg that replaces only blocks not streamed yet, since they are not confirmed, is not
/// announced, and nothing is streamed again.
pub proof fn shallow_reorg_is_not_announced(stream: LiveBlocks, incoming: u64)
    requires
        incoming >= stream.range_start,
    ensures
        !stream.output(incoming).reorg,
        stream.output(incoming).range matches Some(range) ==> range.start == stream.range_start,
{
}

/// A block that comes a second time is reported as a reorg, and then streaming goes back to the
/// block that it confirms.
pub proof fn live_reorg_goes_back(stream: LiveBlocks, incoming: u64)
    requires
        stream.max_block_range >= 1,
        !stream.skips(incoming),
        incoming < stream.range_start,
    ensures
        stream.output(incoming) == (LiveOutput {
            reorg: true,
            range: Some(
                BlockRange {
                    start: stream.confirmed_by(incoming),
                    end: stream.confirmed_by(incoming),
                },
            ),
        }),
        stream.output(incoming).sent() == seq![
            Message::Status(ScannerStatus::ReorgDetected),
            Message::Data(
                BlockRange {
                    start: stream.confirmed_by(incoming),
                    end: stream.confirmed_by(incoming),
                },
            ),
        ],
{
}

/// What is forwarded of a range begins at `cutoff` or behind it, and holds every block of the
/// range behind `cutoff`, and no other block.
pub proof fn forwarded_blocks_are_from_cutoff(range: BlockRange, cutoff: u64, number: int)
    ensures
        forwarded(Message::Data(range), cutoff) matches Some(message) ==> {
            &&& message matches Message::Data(kept) && kept.start >= cutoff
            &&& message->Data_0.has_block(number) ==> range.has_block(number)
        },
        number > cutoff && range.has_block(number) ==> {
            &&& forwarded(Message::Data(range), cutoff) matches Some(Message::Data(kept))
            &&& kept.has_block(number)
        },
{
}

/// Messages that carry no range are all forwarded.
pub proof fn other_messages_are_forwarded(message: Message, cutoff: u64)
    requires
        !(message is Data),
    ensures
        forwarded(message, cutoff) == Some(message),
{
}

/// Nothing is lost or streamed twice where new blocks take over from past ones: they begin right
/// behind the last past block, and, as long as there is no reorg, all of them are forwarded.
pub proof fn live_blocks_take_over_from_history(
    start: u64,
    latest: u64,
    block_confirmations: u64,
    max_block_range: u64,
    history: BlockRange,
    live_start: u64,
    cutoff: u64,
    blocks: Seq<u64>,
)
    requires
        latest < u64::MAX,
        scanner::sync_plan(start, latest, block_confirmations) == (SyncPlan::HistoryThenLive {
            history,
            live_start,
            cutoff,
        }),
        max_block_range >= 1,
        no_reorg(live_begun(live_start, block_confirmations, max_block_range), blocks),
    ensures
        all_forwarded(
            as_data(
                live_ranges(live_begun(live_start, block_confirmations, max_block_range), blocks),
            ),
            cutoff,
        ) == as_data(
            live_ranges(live_begun(live_start, block_confirmations, max_block_range), blocks),
        ),
        range_iterator::tiles(
            range_iterator::forward_batches(
                history.start as int,
                history.end as int,
                max_block_range as int,
            ) + live_ranges(
                live_begun(live_start, block_confirmations, max_block_range),
                blocks,
            ),
            start as int,
            live_after(
                live_begun(live_start, block_confirmations, max_block_range),
                blocks,
            ).range_start - 1,
            max_block_range as int,
        ),
{
    let live = live_begun(live_start, block_confirmations, max_block_range);
    let ranges = live_ranges(live, blocks);
    live_blocks_are_streamed_once(live, blocks);
    range_iterator::forward_batches_are_tiles(
        history.start as int,
        history.end as int,
        max_block_range as int,
    );
    range_iterator::tiles_join(
        range_iterator::forward_batches(
            history.start as int,
            history.end as int,
            max_block_range as int,
        ),
        ranges,
        start as int,
        live_start as int,
        live_after(live, blocks).range_start - 1,
        max_block_range as int,
    );
    assert forall|i: int| 0 <= i < ranges.len() implies (#[trigger] ranges[i]).start
        >= cutoff by {
        lemma_tiles_from(
            ranges,
            live_start as int,
            live_after(live, blocks).range_start - 1,
            max_block_range as int,
            i,
        );
    }
    lemma_forward_all(ranges, cutoff);
}

/// The state in which the streaming of new blocks begins.
pub open spec fn live_begun(
    range_start: u64,
    block_confirmations: u64,
    max_block_range: u64,
) -> LiveBlocks {
    LiveBlocks { range_start, cutoff: Some(range_start), block_confirmations, max_block_range }
}

proof fn lemma_tiles_from(batches: Seq<BlockRange>, low: int, high: int, max: int, i: int)
    requires
        range_iterator::tiles(batches, low, high, max),
        0 <= i < batches.len(),
    ensures
        batches[i].start >= low,
    decreases i,
{
    if i > 0 {
        lemma_tiles_from(batches, low, high, max, i - 1);
        assert(batches[i].start == batches[i - 1].end + 1);
        assert(batches[i - 1].start <= batches[i - 1].end);
    }
}

proof fn lemma_forward_all(ranges: Seq<BlockRange>, cutoff: u64)
    requires
        forall|i: int| 0 <= i < ranges.len() ==> (#[trigger] ranges[i]).start >= cutoff,
    ensures
        all_forwarded(as_data(ranges), cutoff) == as_data(ranges),
    decreases ranges.len(),
{
    if ranges.len() == 0 {
        assert(as_data(ranges) =~= Seq::empty());
    } else {
        assert(as_data(ranges).drop_last() =~= as_data(ranges.drop_last()));
        lemma_forward_all(ranges.drop_last(), cutoff);
        assert(ranges[ranges.len() - 1].start >= cutoff);
        assert(as_data(ranges) =~= as_data(ranges.drop_last()).push(as_data(ranges).last()));
    }
}

/// Between any two batches of a rewind the newest block is looked up by its hash, once; behind the
/// last batch it is not.
pub proof fn tip_is_checked_between_batches(state: RewindState, batch: BlockRange)
    requires
        state.phase == (RewindPhase::Sending { batch }),
    ensures
        state.action() == RewindAction::Send(Message::Data(batch)),
        state.pending.len() > 0 ==> {
            let checking = state.after(RewindEvent::Sent);
            &&& state.reaction(RewindEvent::Sent) == RewindAction::CheckTip(state.tip_hash)
            &&& checking.pending == state.pending
            &&& checking.tip_hash == state.tip_hash
            &&& checking.reaction(RewindEvent::TipKnown(Ok(true))) == RewindAction::Send(
                Message::Data(state.pending[0]),
            )
            &&& checking.after(RewindEvent::TipKnown(Ok(true))).pending
                == state.pending.drop_first()
            &&& checking.after(RewindEvent::TipKnown(Ok(true))).tip_hash == state.tip_hash
        },
        state.pending.len() == 0 ==> state.reaction(RewindEvent::Sent) == RewindAction::Finish(
            Ok(()),
        ),
{
}

/// If the newest block is gone, that is announced; then the block of its number is fetched, whose
/// hash is the one to look up from then on; and then the rewind begins with the newest batch.
pub proof fn lost_tip_is_replaced(state: RewindState, tip: BlockNumHash)
    requires
        state.phase is CheckingTip,
        state.to <= state.from,
        state.max_block_range >= 1,
    ensures
        ({
            let lost = state.after(RewindEvent::TipKnown(Ok(false)));
            let fetching = lost.after(RewindEvent::Sent);
            let again = fetching.after(RewindEvent::TipFetched(Ok(tip)));
            &&& state.reaction(RewindEvent::TipKnown(Ok(false))) == RewindAction::Send(
                Message::Status(ScannerStatus::ReorgDetected),
            )
            &&& lost.reaction(RewindEvent::Sent) == RewindAction::FetchTip(state.from)
            &&& again.tip_hash == tip.hash
            &&& again.from == state.from
            &&& again.to == state.to
            &&& again.max_block_range == state.max_block_range
            &&& fetching.reaction(RewindEvent::TipFetched(Ok(tip))) matches RewindAction::Send(
                Message::Data(batch),
            )
            &&& batch.end == state.from
            &&& batch.start == if state.from - state.to < state.max_block_range {
                state.to as int
            } else {
                state.from - state.max_block_range + 1
            }
        }),
{
    range_iterator::reverse_batches_tile(
        state.to as int,
        state.from as int,
        state.max_block_range as int,
    );
    range_iterator::lemma_reverse_step(
        state.to as int,
        state.from as int,
        state.max_block_range as int,
    );
}

/// A rewind begins with the newest batch, and looks up the newest block by its hash.
pub proof fn rewind_begins_with_the_newest_batch(
    from: BlockNumHash,
    to: u64,
    max_block_range: u64,
)
    requires
        to <= from.number,
        max_block_range >= 1,
    ensures
        ({
            let begun = rewind_begun(from, to, max_block_range);
            &&& begun.tip_hash == from.hash
            &&& begun.from == from.number
            &&& begun.to == to
            &&& begun.max_block_range == max_block_range
            &&& begun.action() matches RewindAction::Send(Message::Data(batch))
            &&& batch.end == from.number
            &&& batch.start == if from.number - to < max_block_range {
                to as int
            } else {
                from.number - max_block_range + 1
            }
        }),
{
    range_iterator::reverse_batches_tile(to as int, from.number as int, max_block_range as int);
    range_iterator::lemma_reverse_step(to as int, from.number as int, max_block_range as int);
}

/// A question that fails ends the rewind with that error.
pub proof fn failed_question_ends_the_rewind(state: RewindState, error: ScannerError)
    ensures
        state.phase is CheckingTip ==> {
            &&& state.reaction(RewindEvent::TipKnown(Err(error))) == RewindAction::Finish(
                Err(error),
            )
            &&& state.after(RewindEvent::TipKnown(Err(error))).phase is Finished
        },
        state.phase is FetchingTip ==> {
            &&& state.reaction(RewindEvent::TipFetched(Err(error))) == RewindAction::Finish(
                Err(error),
            )
            &&& state.after(RewindEvent::TipFetched(Err(error))).phase is Finished
        },
{
}

/// Blocks before the first one expected are passed over.  From then on, each block that is not
/// before the next one to stream has those streamed that it confirms, a batch of them at most; any
/// other tells of a reorg, and has the block streamed again that it confirms.
pub proof fn new_block_streams_what_it_confirms(stream: LiveBlocks, incoming: u64)
    requires
        stream.max_block_range >= 1,
        incoming < u64::MAX,
    ensures
        ({
            let confirmed = if incoming < stream.block_confirmations {
                0
            } else {
                incoming - stream.block_confirmations
            };
            let early = stream.cutoff is Some && incoming < stream.cutoff->0;
            let output = stream.output(incoming);
            let next = stream.after(incoming);
            &&& early ==> !output.reorg && output.range is None && next == stream
            &&& !early ==> {
                &&& output.reorg <==> incoming < stream.range_start
                &&& next.cutoff is None
                &&& next.block_confirmations == stream.block_confirmations
                &&& next.max_block_range == stream.max_block_range
            }
            &&& !early && output.reorg ==> {
                &&& output.range matches Some(range)
                &&& range.start == confirmed
                &&& range.end == confirmed
                &&& next.range_start == confirmed + 1
            }
            &&& !early && !output.reorg && confirmed < stream.range_start ==> {
                &&& output.range is None
                &&& next.range_start == stream.range_start
            }
            &&& !early && !output.reorg && confirmed >= stream.range_start ==> {
                &&& output.range matches Some(range)
                &&& range.start == stream.range_start
                &&& range.end == if confirmed - stream.range_start < stream.max_block_range {
                    confirmed as int
                } else {
                    stream.range_start + stream.max_block_range - 1
                }
                &&& next.range_start == range.end + 1
            }
        }),
{
}

/// New blocks are streamed from the block asked for on, and none before it comes is looked at.
pub proof fn live_stream_begins_at_start(
    range_start: u64,
    block_confirmations: u64,
    max_block_range: u64,
)
    ensures
        ({
            let stream = live_begun(range_start, block_confirmations, max_block_range);
            &&& stream.range_start == range_start
            &&& stream.cutoff == Some(range_start)
            &&& stream.block_confirmations == block_confirmations
            &&& stream.max_block_range == max_block_range
        }),
{
}

/// A reorg is told of before the range; whatever there is to send is sent, and nothing else.
pub proof fn reorg_is_sent_before_the_range(output: LiveOutput)
    ensures
        output.sent().len() == (if output.reorg {
            1int
        } else {
            0
        }) + (if output.range is Some {
            1int
        } else {
            0
        }),
        output.reorg ==> output.sent()[0] == Message::Status(ScannerStatus::ReorgDetected),
        output.range matches Some(range) ==> output.sent().last() == Message::Data(range),
{
}

/// A range held back is forwarded whole if it begins at `cutoff` or behind it, from `cutoff` on if
/// it reaches beyond, and otherwise not at all.
pub proof fn range_is_cut_at_cutoff(range: BlockRange, cutoff: u64)
    ensures
        range.start >= cutoff ==> forwarded(Message::Data(range), cutoff) == Some(
            Message::Data(range),
        ),
        range.start < cutoff < range.end ==> {
            &&& forwarded(Message::Data(range), cutoff) matches Some(Message::Data(kept))
            &&& kept.start == cutoff
            &&& kept.end == range.end
        },
        range.start < cutoff && range.end <= cutoff ==> forwarded(Message::Data(range), cutoff)
            is None,
{
}

/// Messages are forwarded one by one, in the order in which they were held back.
pub proof fn messages_are_forwarded_in_order(messages: Seq<Message>, message: Message, cutoff: u64)
    ensures
        all_forwarded(Seq::empty(), cutoff) == Seq::<Message>::empty(),
        all_forwarded(messages.push(message), cutoff) == all_forwarded(messages, cutoff) + (
        match forwarded(message, cutoff) {
            Some(kept) => seq![kept],
            None => Seq::empty(),
        }),
{
    assert(messages.push(message).drop_last() =~= messages);
    let before = all_forwarded(messages, cutoff);
    assert(before + Seq::empty() =~= before);
    if let Some(kept) = forwarded(message, cutoff) {
        assert(before + seq![kept] =~= before.push(kept));
    }
}

} // verus!
