//! Streaming of past blocks.
//!
//! Finalized blocks are streamed without further ado.  The others are streamed too, and again as
//! long as the last one turns out to have been replaced meanwhile.

use super::common::{range_message, Message};
#[allow(unused_imports)]
use super::common;
#[allow(unused_imports)]
use super::range_iterator;
use super::range_iterator::RangeIterator;
use super::reorg_handler::BlockReply;
use crate::error::ScannerError;
#[allow(unused_imports)]
use crate::types::BlockNumHash;
use crate::types::{BlockHash, BlockNumber, BlockRange, ChannelState, Notification, ScannerMessage};
use vstd::prelude::*;

verus! {

/// What happens once a reorg has been announced.
#[derive(Clone, Copy, Debug, PartialEq, Eq, Structural)]
pub enum ReorgPolicy {
    /// The blocks are streamed again, unless they are finalized by now.  A failure cuts the stream
    /// short.
    UnlessFinalized,
    /// The blocks are streamed again.  A failure of the reorg check counts as the end of the
    /// stream.
    Always,
}

/// Where the streaming of past blocks stands.
#[derive(Clone, Copy, Debug)]
pub enum HistoricalPhase {
    /// The number of the finalized block is being asked for.
    AskingFinalized,
    /// A batch of finalized blocks is being sent.
    SendingFinalized {
        batch: BlockRange,
    },
    /// The last block is being fetched before the blocks that are not finalized are sent.
    FetchingEnd,
    /// A batch of blocks that are not finalized is being sent; the last block had this hash.
    Sending {
        batch: BlockRange,
        end_hash: BlockHash,
    },
    /// The last block is being fetched again; it had this hash.
    FetchingEndAgain {
        end_hash: BlockHash,
    },
    /// A reorg is being announced; the last block has this hash now.
    Notifying {
        end_hash: BlockHash,
    },
    /// The number of the finalized block is being asked for again.
    AskingFinalizedAgain {
        end_hash: BlockHash,
    },
    /// Streaming is over; `Some` unless it was cut short.
    Finished {
        complete: Option<()>,
    },
}

/// What the streaming of past blocks waits for, and hears.
#[derive(Debug)]
pub enum HistoricalEvent {
    /// The number of the finalized block, or why it is not known.
    Finalized(Result<BlockNumber, ScannerError>),
    /// The block that was to be fetched, or why it was not.
    Fetched(BlockReply),
    /// The message was handed over, or nobody listens any more.
    Sent(ChannelState),
}

/// What the streaming of past blocks asks for.
#[derive(Debug)]
pub enum HistoricalAction {
    /// Find out the number of the finalized block.
    AskFinalized,
    /// Fetch the block of this number.
    Fetch(BlockNumber),
    /// Send this message.
    Send(Message),
    /// Send this error, if anybody listens; streaming is over.
    Fail(ScannerError),
    /// Nothing; streaming is over.
    Finish(Option<()>),
}

/// The streaming of past blocks, as a value.
#[verifier::ext_equal]
pub ghost struct HistoricalState {
    pub start: u64,
    pub end: u64,
    pub max_block_range: u64,
    pub policy: ReorgPolicy,
    /// The first block that was not finalized when streaming began.
    pub non_finalized_start: u64,
    /// The batches not begun yet.
    pub pending: Seq<BlockRange>,
    pub phase: HistoricalPhase,
}

/// The last finalized block to stream.
pub open spec fn finalized_end(finalized: u64, end: u64) -> u64 {
    if finalized <= end {
        finalized
    } else {
        end
    }
}

/// The first block to stream that is not finalized.
pub open spec fn first_non_finalized(start: u64, end: u64, finalized: u64) -> int {
    if start > finalized_end(finalized, end) {
        start as int
    } else {
        finalized_end(finalized, end) + 1
    }
}

impl HistoricalState {
    /// The state in another phase.
    pub open spec fn at(self, phase: HistoricalPhase) -> HistoricalState {
        HistoricalState { phase, ..self }
    }

    /// The end of the stream.
    pub open spec fn finished(self, complete: Option<()>) -> HistoricalState {
        self.at(HistoricalPhase::Finished { complete })
    }

    /// Goes to the next batch of finalized blocks, or past them.
    pub open spec fn next_finalized(self) -> HistoricalState {
        if self.pending.len() > 0 {
            HistoricalState {
                phase: HistoricalPhase::SendingFinalized { batch: self.pending[0] },
                pending: self.pending.drop_first(),
                ..self
            }
        } else if self.non_finalized_start > self.end {
            self.finished(Some(()))
        } else {
            self.at(HistoricalPhase::FetchingEnd)
        }
    }

    /// Goes to the next batch of blocks that are not finalized, or past them.
    pub open spec fn next_batch(self, end_hash: BlockHash) -> HistoricalState {
        if self.pending.len() > 0 {
            HistoricalState {
                phase: HistoricalPhase::Sending { batch: self.pending[0], end_hash },
                pending: self.pending.drop_first(),
                ..self
            }
        } else {
            self.at(HistoricalPhase::FetchingEndAgain { end_hash })
        }
    }

    /// The batches of all blocks that are not finalized.
    pub open spec fn non_finalized(self) -> Seq<BlockRange> {
        range_iterator::forward_batches(
            self.non_finalized_start as int,
            self.end as int,
            self.max_block_range as int,
        )
    }

    /// Streams all blocks that are not finalized.
    pub open spec fn stream_non_finalized(self, end_hash: BlockHash) -> HistoricalState {
        HistoricalState { pending: self.non_finalized(), ..self }.next_batch(end_hash)
    }

    /// Streams the finalized blocks first.
    pub open spec fn stream_finalized(self, finalized: u64) -> HistoricalState {
        HistoricalState {
            pending: range_iterator::forward_batches(
                self.start as int,
                finalized_end(finalized, self.end) as int,
                self.max_block_range as int,
            ),
            non_finalized_start: first_non_finalized(self.start, self.end, finalized) as u64,
            ..self
        }.next_finalized()
    }

    /// How the stream ends when the reorg check fails.
    pub open spec fn check_failed(self) -> HistoricalState {
        self.finished(
            match self.policy {
                ReorgPolicy::UnlessFinalized => None,
                ReorgPolicy::Always => Some(()),
            },
        )
    }

    /// The block before those that are not finalized, as an estimate of the common ancestor.
    pub open spec fn common_ancestor(self) -> u64 {
        if self.non_finalized_start == 0 {
            0
        } else {
            (self.non_finalized_start - 1) as u64
        }
    }

    /// The state after an event.  An event that is not waited for changes nothing.
    pub open spec fn after(self, event: HistoricalEvent) -> HistoricalState {
        match (self.phase, event) {
            (
                HistoricalPhase::AskingFinalized,
                HistoricalEvent::Finalized(finalized),
            ) => self.stream_finalized(
                match finalized {
                    Ok(number) => number,
                    Err(_) => 0,
                },
            ),
            (
                HistoricalPhase::SendingFinalized { .. },
                HistoricalEvent::Sent(channel),
            ) => match channel {
                ChannelState::Open => self.next_finalized(),
                ChannelState::Closed => self.finished(None),
            },
            (HistoricalPhase::FetchingEnd, HistoricalEvent::Fetched(reply)) => match reply {
                Ok(block) => self.stream_non_finalized(block.hash),
                Err(_) => self.finished(None),
            },
            (
                HistoricalPhase::Sending { end_hash, .. },
                HistoricalEvent::Sent(channel),
            ) => match channel {
                ChannelState::Open => self.next_batch(end_hash),
                ChannelState::Closed => self.finished(None),
            },
            (
                HistoricalPhase::FetchingEndAgain { end_hash },
                HistoricalEvent::Fetched(reply),
            ) => match reply {
                Ok(block) => if block.hash == end_hash {
                    self.finished(Some(()))
                } else {
                    self.at(HistoricalPhase::Notifying { end_hash: block.hash })
                },
                Err(_) => self.check_failed(),
            },
            (
                HistoricalPhase::Notifying { end_hash },
                HistoricalEvent::Sent(channel),
            ) => match channel {
                ChannelState::Open => match self.policy {
                    ReorgPolicy::UnlessFinalized => self.at(
                        HistoricalPhase::AskingFinalizedAgain { end_hash },
                    ),
                    ReorgPolicy::Always => self.stream_non_finalized(end_hash),
                },
                ChannelState::Closed => self.check_failed(),
            },
            (
                HistoricalPhase::AskingFinalizedAgain { end_hash },
                HistoricalEvent::Finalized(finalized),
            ) => match finalized {
                Ok(number) => if number >= self.end {
                    self.finished(Some(()))
                } else {
                    self.stream_non_finalized(end_hash)
                },
                Err(_) => self.finished(None),
            },
            _ => self,
        }
    }

    /// What is asked for in the present phase.
    pub open spec fn action(self) -> HistoricalAction {
        match self.phase {
            HistoricalPhase::AskingFinalized => HistoricalAction::AskFinalized,
            HistoricalPhase::SendingFinalized { batch } => HistoricalAction::Send(
                Message::Data(batch),
            ),
            HistoricalPhase::FetchingEnd => HistoricalAction::Fetch(self.end),
            HistoricalPhase::Sending { batch, .. } => HistoricalAction::Send(Message::Data(batch)),
            HistoricalPhase::FetchingEndAgain { .. } => HistoricalAction::Fetch(self.end),
            HistoricalPhase::Notifying { .. } => HistoricalAction::Send(
                Message::Notification(
                    Notification::ReorgDetected { common_ancestor: self.common_ancestor() },
                ),
            ),
            HistoricalPhase::AskingFinalizedAgain { .. } => HistoricalAction::AskFinalized,
            HistoricalPhase::Finished { complete } => HistoricalAction::Finish(complete),
        }
    }

    /// What is asked for after an event: to report an error, or what the new phase asks for.
    pub open spec fn reaction(self, event: HistoricalEvent) -> HistoricalAction {
        match (self.phase, event) {
            (
                HistoricalPhase::FetchingEnd,
                HistoricalEvent::Fetched(Err(e)),
            ) => HistoricalAction::Fail(e),
            (
                HistoricalPhase::FetchingEndAgain { .. },
                HistoricalEvent::Fetched(Err(e)),
            ) => HistoricalAction::Fail(e),
            (
                HistoricalPhase::AskingFinalizedAgain { .. },
                HistoricalEvent::Finalized(Err(e)),
            ) => HistoricalAction::Fail(e),
            _ => self.after(event).action(),
        }
    }
}

/// The state in which the streaming of the blocks from `start` to `end` begins.
pub open spec fn historical_begun(
    start: u64,
    end: u64,
    max_block_range: u64,
    policy: ReorgPolicy,
) -> HistoricalState {
    HistoricalState {
        start,
        end,
        max_block_range,
        policy,
        non_finalized_start: start,
        pending: Seq::empty(),
        phase: HistoricalPhase::AskingFinalized,
    }
}

/// The streaming of the past blocks from `start` to `end`.
#[derive(Debug)]
pub struct HistoricalStream {
    start: BlockNumber,
    end: BlockNumber,
    max_block_range: u64,
    policy: ReorgPolicy,
    non_finalized_start: BlockNumber,
    iter: RangeIterator,
    phase: HistoricalPhase,
}

impl View for HistoricalStream {
    type V = HistoricalState;

    closed spec fn view(&self) -> HistoricalState {
        HistoricalState {
            start: self.start,
            end: self.end,
            max_block_range: self.max_block_range,
            policy: self.policy,
            non_finalized_start: self.non_finalized_start,
            pending: self.iter.pending(),
            phase: self.phase,
        }
    }
}

impl HistoricalStream {
    /// Batches are not empty, and there is a block number behind the last block.
    pub closed spec fn wf(&self) -> bool {
        &&& self.iter.wf()
        &&& self.max_block_range >= 1
        &&& self.end < u64::MAX
    }

    /// Begins to stream the blocks from `start` to `end`.
    pub fn begin(
        start: BlockNumber,
        end: BlockNumber,
        max_block_range: u64,
        policy: ReorgPolicy,
    ) -> (stream: Self)
        requires
            max_block_range >= 1,
            end < u64::MAX,
        ensures
            stream.wf(),
            stream@ == historical_begun(start, end, max_block_range, policy),
    {
        let stream = HistoricalStream {
            start,
            end,
            max_block_range,
            policy,
            non_finalized_start: start,
            iter: RangeIterator::forward(1, 0, max_block_range),
            phase: HistoricalPhase::AskingFinalized,
        };
        assert(stream@ =~= historical_begun(start, end, max_block_range, policy));
        stream
    }

    /// Begins to stream the blocks from `start` to `end`; after a reorg, those that are not
    /// finalized are streamed again unless they are by then.
    pub fn stream_historical_range(
        start: BlockNumber,
        end: BlockNumber,
        max_block_range: u64,
    ) -> (stream: Self)
        requires
            max_block_range >= 1,
            end < u64::MAX,
        ensures
            stream.wf(),
            stream@ == historical_begun(
                start,
                end,
                max_block_range,
                ReorgPolicy::UnlessFinalized,
            ),
    {
        Self::begin(start, end, max_block_range, ReorgPolicy::UnlessFinalized)
    }

    fn next_finalized(&mut self)
        requires
            old(self).wf(),
        ensures
            final(self).wf(),
            final(self)@ == old(self)@.next_finalized(),
    {
        match self.iter.next() {
            Some(batch) => {
                self.phase = HistoricalPhase::SendingFinalized { batch };
            },
            None => {
                if self.non_finalized_start > self.end {
                    self.phase = HistoricalPhase::Finished { complete: Some(()) };
                } else {
                    self.phase = HistoricalPhase::FetchingEnd;
                }
            },
        }
        assert(self@ =~= old(self)@.next_finalized());
    }

    fn next_batch(&mut self, end_hash: BlockHash)
        requires
            old(self).wf(),
        ensures
            final(self).wf(),
            final(self)@ == old(self)@.next_batch(end_hash),
    {
        match self.iter.next() {
            Some(batch) => {
                self.phase = HistoricalPhase::Sending { batch, end_hash };
            },
            None => {
                self.phase = HistoricalPhase::FetchingEndAgain { end_hash };
            },
        }
        assert(self@ =~= old(self)@.next_batch(end_hash));
    }

    /// Streams finalized blocks without reorg checks, given the finalized block.
    fn stream_finalized_blocks(&mut self, finalized: BlockNumber)
        requires
            old(self).wf(),
        ensures
            final(self).wf(),
            final(self)@ == old(self)@.stream_finalized(finalized),
    {
        let finalized_batch_end: u64 = if finalized <= self.end {
            finalized
        } else {
            self.end
        };
        self.iter = RangeIterator::forward(self.start, finalized_batch_end, self.max_block_range);
        self.non_finalized_start = if self.start > finalized_batch_end {
            self.start
        } else {
            finalized_batch_end + 1
        };
        self.next_finalized();
    }

    /// Streams the blocks that are not finalized.
    fn stream_non_finalized_blocks(&mut self, end_hash: BlockHash)
        requires
            old(self).wf(),
        ensures
            final(self).wf(),
            final(self)@ == old(self)@.stream_non_finalized(end_hash),
    {
        self.iter = RangeIterator::forward(
            self.non_finalized_start,
            self.end,
            self.max_block_range,
        );
        self.next_batch(end_hash);
    }

    fn check_failed(&mut self)
        requires
            old(self).wf(),
        ensures
            final(self).wf(),
            final(self)@ == old(self)@.check_failed(),
    {
        self.phase = match self.policy {
            ReorgPolicy::UnlessFinalized => HistoricalPhase::Finished { complete: None },
            ReorgPolicy::Always => HistoricalPhase::Finished { complete: Some(()) },
        };
    }

    /// What is to be done next.
    pub fn action(&self) -> (action: HistoricalAction)
        ensures
            action == self@.action(),
    {
        match self.phase {
            HistoricalPhase::AskingFinalized => HistoricalAction::AskFinalized,
            HistoricalPhase::SendingFinalized { batch } => HistoricalAction::Send(
                range_message(batch),
            ),
            HistoricalPhase::FetchingEnd => HistoricalAction::Fetch(self.end),
            HistoricalPhase::Sending { batch, .. } => HistoricalAction::Send(range_message(batch)),
            HistoricalPhase::FetchingEndAgain { .. } => HistoricalAction::Fetch(self.end),
            HistoricalPhase::Notifying { .. } => HistoricalAction::Send(
                ScannerMessage::Notification(
                    Notification::ReorgDetected {
                        common_ancestor: self.non_finalized_start.saturating_sub(1),
                    },
                ),
            ),
            HistoricalPhase::AskingFinalizedAgain { .. } => HistoricalAction::AskFinalized,
            HistoricalPhase::Finished { complete } => HistoricalAction::Finish(complete),
        }
    }

    /// Takes in what came of the last action, and says what is to be done next.
    pub fn step(&mut self, event: HistoricalEvent) -> (action: HistoricalAction)
        requires
            old(self).wf(),
        ensures
            final(self).wf(),
            final(self)@ == old(self)@.after(event),
            action == old(self)@.reaction(event),
    {
        match (self.phase, event) {
            (HistoricalPhase::AskingFinalized, HistoricalEvent::Finalized(finalized)) => {
                let number: u64 = match finalized {
                    Ok(number) => number,
                    Err(_) => 0,
                };
                self.stream_finalized_blocks(number);
            },
            (HistoricalPhase::SendingFinalized { .. }, HistoricalEvent::Sent(channel)) => {
                if channel.is_closed() {
                    self.phase = HistoricalPhase::Finished { complete: None };
                } else {
                    self.next_finalized();
                }
            },
            (HistoricalPhase::FetchingEnd, HistoricalEvent::Fetched(reply)) => match reply {
                Ok(block) => {
                    self.stream_non_finalized_blocks(block.hash);
                },
                Err(e) => {
                    self.phase = HistoricalPhase::Finished { complete: None };
                    return HistoricalAction::Fail(e);
                },
            },
            (HistoricalPhase::Sending { end_hash, .. }, HistoricalEvent::Sent(channel)) => {
                if channel.is_closed() {
                    self.phase = HistoricalPhase::Finished { complete: None };
                } else {
                    self.next_batch(end_hash);
                }
            },
            (
                HistoricalPhase::FetchingEndAgain { end_hash },
                HistoricalEvent::Fetched(reply),
            ) => match reply {
                Ok(block) => {
                    if block.hash == end_hash {
                        self.phase = HistoricalPhase::Finished { complete: Some(()) };
                    } else {
                        self.phase = HistoricalPhase::Notifying { end_hash: block.hash };
                    }
                },
                Err(e) => {
                    self.check_failed();
                    return HistoricalAction::Fail(e);
                },
            },
            (HistoricalPhase::Notifying { end_hash }, HistoricalEvent::Sent(channel)) => {
                if channel.is_closed() {
                    self.check_failed();
                } else {
                    match self.policy {
                        ReorgPolicy::UnlessFinalized => {
                            self.phase = HistoricalPhase::AskingFinalizedAgain { end_hash };
                        },
                        ReorgPolicy::Always => {
                            self.stream_non_finalized_blocks(end_hash);
                        },
                    }
                }
            },
            (
                HistoricalPhase::AskingFinalizedAgain { end_hash },
                HistoricalEvent::Finalized(finalized),
            ) => match finalized {
                Ok(number) => {
                    if number >= self.end {
                        self.phase = HistoricalPhase::Finished { complete: Some(()) };
                    } else {
                        self.stream_non_finalized_blocks(end_hash);
                    }
                },
                Err(e) => {
                    self.phase = HistoricalPhase::Finished { complete: None };
                    return HistoricalAction::Fail(e);
                },
            },
            _ => {},
        }
        self.action()
    }
}

/// What to stream of the past: the blocks from `start` to `end`, in batches of `max_block_range`.
#[derive(Clone, Copy, Debug, PartialEq, Eq, Structural)]
pub struct HistoricalRangeHandler {
    pub max_block_range: u64,
    pub start: BlockNumber,
    pub end: BlockNumber,
}

impl HistoricalRangeHandler {
    /// The handler of the blocks from `start` to `end`.
    pub fn new(max_block_range: u64, start: BlockNumber, end: BlockNumber) -> (handler: Self)
        ensures
            handler == (HistoricalRangeHandler { max_block_range, start, end }),
    {
        HistoricalRangeHandler { max_block_range, start, end }
    }

    /// Begins to stream; after a reorg, the blocks that were not finalized are streamed again.
    pub fn run(self) -> (stream: HistoricalStream)
        requires
            self.max_block_range >= 1,
            self.end < u64::MAX,
        ensures
            stream.wf(),
            stream@ == historical_begun(
                self.start,
                self.end,
                self.max_block_range,
                ReorgPolicy::Always,
            ),
    {
        HistoricalStream::begin(self.start, self.end, self.max_block_range, ReorgPolicy::Always)
    }
}

/// What happens when all goes well: the finalized block is known, the last block keeps its hash,
/// and messages are taken.
pub open spec fn calm_event(
    action: HistoricalAction,
    finalized: u64,
    end_hash: BlockHash,
) -> HistoricalEvent {
    match action {
        HistoricalAction::AskFinalized => HistoricalEvent::Finalized(Ok(finalized)),
        HistoricalAction::Fetch(number) => HistoricalEvent::Fetched(
            Ok(BlockNumHash { number, hash: end_hash }),
        ),
        _ => HistoricalEvent::Sent(ChannelState::Open),
    }
}

/// The messages sent in the next `steps` steps, and the state then, when all goes well.
pub open spec fn calm_run(
    state: HistoricalState,
    finalized: u64,
    end_hash: BlockHash,
    steps: nat,
) -> (Seq<Message>, HistoricalState)
    decreases steps,
{
    let action = state.action();
    if steps == 0 || action is Finish {
        (Seq::empty(), state)
    } else {
        let rest = calm_run(
            state.after(calm_event(action, finalized, end_hash)),
            finalized,
            end_hash,
            (steps - 1) as nat,
        );
        match action {
            HistoricalAction::Send(message) => (seq![message] + rest.0, rest.1),
            _ => rest,
        }
    }
}

/// Sending the batches that are not finalized ends the stream.
proof fn lemma_calm_sending(
    state: HistoricalState,
    finalized: u64,
    end_hash: BlockHash,
    steps: nat,
)
    requires
        steps >= state.pending.len() + 2,
    ensures
        calm_run(state.next_batch(end_hash), finalized, end_hash, steps).0 == common::as_data(
            state.pending,
        ),
        calm_run(state.next_batch(end_hash), finalized, end_hash, steps).1.phase == (
        HistoricalPhase::Finished { complete: Some(()) }),
    decreases state.pending.len(),
{
    let next = state.next_batch(end_hash);
    if state.pending.len() == 0 {
        reveal_with_fuel(calm_run, 3);
        assert(common::as_data(state.pending) =~= Seq::empty());
    } else {
        lemma_calm_sending(next, finalized, end_hash, (steps - 1) as nat);
        assert(next.after(HistoricalEvent::Sent(ChannelState::Open)) == next.next_batch(end_hash));
        assert(common::as_data(state.pending) =~= seq![Message::Data(state.pending[0])]
            + common::as_data(state.pending.drop_first()));
    }
}

/// Sending the finalized batches leads on to the others.
proof fn lemma_calm_finalized(
    state: HistoricalState,
    finalized: u64,
    end_hash: BlockHash,
    steps: nat,
)
    requires
        steps >= state.pending.len() + state.non_finalized().len() + 3,
        state.max_block_range >= 1,
    ensures
        calm_run(state.next_finalized(), finalized, end_hash, steps).0 == common::as_data(
            state.pending + state.non_finalized(),
        ),
        calm_run(state.next_finalized(), finalized, end_hash, steps).1.phase == (
        HistoricalPhase::Finished { complete: Some(()) }),
    decreases state.pending.len(),
{
    let next = state.next_finalized();
    if state.pending.len() > 0 {
        lemma_calm_finalized(next, finalized, end_hash, (steps - 1) as nat);
        assert(next.after(HistoricalEvent::Sent(ChannelState::Open)) == next.next_finalized());
        assert(common::as_data(state.pending + state.non_finalized()) =~= seq![
            Message::Data(state.pending[0]),
        ] + common::as_data(state.pending.drop_first() + state.non_finalized()));
    } else if state.non_finalized_start > state.end {
        assert(state.non_finalized().len() == 0);
        assert(common::as_data(state.pending + state.non_finalized()) =~= Seq::empty());
    } else {
        let streaming = HistoricalState { pending: state.non_finalized(), ..next };
        lemma_calm_sending(streaming, finalized, end_hash, (steps - 1) as nat);
        assert(next.after(
            HistoricalEvent::Fetched(Ok(BlockNumHash { number: state.end, hash: end_hash })),
        ) == streaming.next_batch(end_hash));
        assert(state.pending + state.non_finalized() =~= state.non_finalized());
    }
}

/// When all goes well, the blocks from `start` to `end` are streamed, each once and in order: the
/// finalized ones first, then the others; and the stream is complete.
pub proof fn calm_history_is_streamed_once(
    start: u64,
    end: u64,
    max_block_range: u64,
    policy: ReorgPolicy,
    finalized: u64,
    end_hash: BlockHash,
    steps: nat,
)
    requires
        start <= end < u64::MAX,
        max_block_range >= 1,
        steps >= 2 * (end - start) + 8,
    ensures
        calm_run(
            historical_begun(start, end, max_block_range, policy),
            finalized,
            end_hash,
            steps,
        ).0 == common::as_data(
            range_iterator::forward_batches(
                start as int,
                finalized_end(finalized, end) as int,
                max_block_range as int,
            ) + range_iterator::forward_batches(
                first_non_finalized(start, end, finalized),
                end as int,
                max_block_range as int,
            ),
        ),
        range_iterator::tiles(
            range_iterator::forward_batches(
                start as int,
                finalized_end(finalized, end) as int,
                max_block_range as int,
            ) + range_iterator::forward_batches(
                first_non_finalized(start, end, finalized),
                end as int,
                max_block_range as int,
            ),
            start as int,
            end as int,
            max_block_range as int,
        ),
        calm_run(
            historical_begun(start, end, max_block_range, policy),
            finalized,
            end_hash,
            steps,
        ).1.phase == (HistoricalPhase::Finished { complete: Some(()) }),
{
    let begun = historical_begun(start, end, max_block_range, policy);
    let last_finalized = finalized_end(finalized, end) as int;
    let rest = first_non_finalized(start, end, finalized);
    let streaming = HistoricalState {
        pending: range_iterator::forward_batches(start as int, last_finalized, max_block_range as int),
        non_finalized_start: rest as u64,
        ..begun
    };
    range_iterator::forward_batches_are_tiles(start as int, last_finalized, max_block_range as int);
    range_iterator::forward_batches_are_tiles(rest, end as int, max_block_range as int);
    range_iterator::tiles_join(
        streaming.pending,
        streaming.non_finalized(),
        start as int,
        rest,
        end as int,
        max_block_range as int,
    );
    range_iterator::lemma_batches_bound(start as int, last_finalized, max_block_range as int);
    range_iterator::lemma_batches_bound(rest, end as int, max_block_range as int);
    lemma_calm_finalized(streaming, finalized, end_hash, (steps - 1) as nat);
    assert(begun.after(HistoricalEvent::Finalized(Ok(finalized))) == streaming.next_finalized());
}

/// If the last block has been replaced, the reorg is announced; and unless all blocks are
/// finalized by then, all that were not finalized at the beginning are streamed again.
pub proof fn replaced_end_is_announced_and_streamed_again(
    state: HistoricalState,
    old_hash: BlockHash,
    new_end: BlockNumHash,
    finalized: u64,
    steps: nat,
)
    requires
        state.phase == (HistoricalPhase::FetchingEndAgain { end_hash: old_hash }),
        new_end.hash != old_hash,
        state.max_block_range >= 1,
        steps >= state.non_finalized().len() + 4,
    ensures
        calm_run(
            state.after(HistoricalEvent::Fetched(Ok(new_end))),
            finalized,
            new_end.hash,
            steps,
        ).0 == seq![
            Message::Notification(
                Notification::ReorgDetected { common_ancestor: state.common_ancestor() },
            ),
        ] + (if state.policy == ReorgPolicy::UnlessFinalized && finalized >= state.end {
            Seq::empty()
        } else {
            common::as_data(state.non_finalized())
        }),
{
    let notifying = state.after(HistoricalEvent::Fetched(Ok(new_end)));
    let next = notifying.after(HistoricalEvent::Sent(ChannelState::Open));
    let end_hash = new_end.hash;
    match state.policy {
        ReorgPolicy::Always => {
            let streaming = HistoricalState { pending: state.non_finalized(), ..notifying };
            lemma_calm_sending(streaming, finalized, end_hash, (steps - 1) as nat);
            assert(next == streaming.next_batch(end_hash));
        },
        ReorgPolicy::UnlessFinalized => {
            let after = next.after(HistoricalEvent::Finalized(Ok(finalized)));
            reveal_with_fuel(calm_run, 3);
            if finalized < state.end {
                let streaming = HistoricalState { pending: state.non_finalized(), ..next };
                lemma_calm_sending(streaming, finalized, end_hash, (steps - 2) as nat);
                assert(after == streaming.next_batch(end_hash));
            }
        },
    }
}

/// Blocks that are finalized come first, and those that are not begin right behind them.  If the
/// finalized block is not known, the very first block is taken for it.
pub proof fn finalized_blocks_come_first(
    state: HistoricalState,
    finalized: Result<u64, ScannerError>,
)
    requires
        state.phase is AskingFinalized,
        state.start <= state.end,
        state.end < u64::MAX,
        state.max_block_range >= 1,
    ensures
        ({
            let number: u64 = match finalized {
                Ok(number) => number,
                Err(_) => 0,
            };
            let last = if number < state.end {
                number
            } else {
                state.end
            };
            let event = HistoricalEvent::Finalized(finalized);
            let next = state.after(event);
            let all = range_iterator::forward_batches(
                state.start as int,
                last as int,
                state.max_block_range as int,
            );
            &&& state.action() is AskFinalized
            &&& next.start == state.start
            &&& next.end == state.end
            &&& next.max_block_range == state.max_block_range
            &&& next.policy == state.policy
            &&& next.non_finalized_start == if state.start > last {
                state.start as int
            } else {
                last + 1
            }
            &&& state.start <= last ==> {
                &&& state.reaction(event) == HistoricalAction::Send(Message::Data(all[0]))
                &&& next.phase == (HistoricalPhase::SendingFinalized { batch: all[0] })
                &&& next.pending == all.drop_first()
            }
            &&& state.start > last ==> {
                &&& state.reaction(event) == HistoricalAction::Fetch(state.end)
                &&& next.phase is FetchingEnd
            }
        }),
{
    let number: u64 = match finalized {
        Ok(number) => number,
        Err(_) => 0,
    };
    let last: u64 = if number < state.end {
        number
    } else {
        state.end
    };
    if state.start <= last {
        range_iterator::lemma_forward_step(
            state.start as int,
            last as int,
            state.max_block_range as int,
        );
    }
}

/// Finalized batches follow one another; behind them the stream is complete, or the last block of
/// all is fetched, before the blocks that are not finalized are streamed.
pub proof fn finalized_batches_follow_one_another(state: HistoricalState, block: BlockNumHash)
    requires
        state.phase is SendingFinalized,
        state.max_block_range >= 1,
    ensures
        ({
            let sent = HistoricalEvent::Sent(ChannelState::Open);
            let next = state.after(sent);
            let rest = range_iterator::forward_batches(
                state.non_finalized_start as int,
                state.end as int,
                state.max_block_range as int,
            );
            &&& state.pending.len() > 0 ==> {
                &&& state.reaction(sent) == HistoricalAction::Send(Message::Data(state.pending[0]))
                &&& next.phase == (HistoricalPhase::SendingFinalized { batch: state.pending[0] })
                &&& next.pending == state.pending.drop_first()
            }
            &&& state.pending.len() == 0 && state.non_finalized_start > state.end
                ==> state.reaction(sent) == HistoricalAction::Finish(Some(()))
            &&& state.pending.len() == 0 && state.non_finalized_start <= state.end ==> {
                let fetched = HistoricalEvent::Fetched(Ok(block));
                let streaming = next.after(fetched);
                &&& state.reaction(sent) == HistoricalAction::Fetch(state.end)
                &&& next.reaction(fetched) == HistoricalAction::Send(Message::Data(rest[0]))
                &&& streaming.phase == (HistoricalPhase::Sending {
                    batch: rest[0],
                    end_hash: block.hash,
                })
                &&& streaming.pending == rest.drop_first()
            }
            &&& next.non_finalized_start == state.non_finalized_start
            &&& next.end == state.end
            &&& next.policy == state.policy
            &&& state.reaction(HistoricalEvent::Sent(ChannelState::Closed))
                == HistoricalAction::Finish(None)
        }),
{
    if state.non_finalized_start <= state.end {
        range_iterator::lemma_forward_step(
            state.non_finalized_start as int,
            state.end as int,
            state.max_block_range as int,
        );
    }
}

/// Batches that are not finalized follow one another; behind them the last block of all is fetched
/// again.  If it has the hash that it had, the stream is complete; otherwise a reorg is announced,
/// back to the block before those that are not finalized.
pub proof fn end_is_compared_after_the_last_batch(
    state: HistoricalState,
    batch: BlockRange,
    end_hash: BlockHash,
    block: BlockNumHash,
)
    requires
        state.phase == (HistoricalPhase::Sending { batch, end_hash }),
    ensures
        ({
            let sent = HistoricalEvent::Sent(ChannelState::Open);
            let fetched = HistoricalEvent::Fetched(Ok(block));
            let next = state.after(sent);
            &&& state.pending.len() > 0 ==> {
                &&& state.reaction(sent) == HistoricalAction::Send(Message::Data(state.pending[0]))
                &&& next.phase == (HistoricalPhase::Sending { batch: state.pending[0], end_hash })
                &&& next.pending == state.pending.drop_first()
            }
            &&& state.pending.len() == 0 ==> {
                &&& state.reaction(sent) == HistoricalAction::Fetch(state.end)
                &&& block.hash == end_hash ==> next.reaction(fetched) == HistoricalAction::Finish(
                    Some(()),
                )
                &&& block.hash != end_hash ==> {
                    &&& next.reaction(fetched) matches HistoricalAction::Send(
                        Message::Notification(Notification::ReorgDetected { common_ancestor }),
                    )
                    &&& common_ancestor == if state.non_finalized_start == 0 {
                        0
                    } else {
                        state.non_finalized_start - 1
                    }
                    &&& next.after(fetched).phase == (HistoricalPhase::Notifying {
                        end_hash: block.hash,
                    })
                }
            }
            &&& next.non_finalized_start == state.non_finalized_start
            &&& next.end == state.end
            &&& next.policy == state.policy
            &&& next.max_block_range == state.max_block_range
            &&& state.reaction(HistoricalEvent::Sent(ChannelState::Closed))
                == HistoricalAction::Finish(None)
        }),
{
}

/// After a reorg the blocks that were not finalized are streamed again, with the hash that their
/// last one has now; where blocks finalized meanwhile are left alone, that is asked first.
pub proof fn replaced_blocks_are_streamed_again(
    state: HistoricalState,
    end_hash: BlockHash,
    finalized: u64,
)
    requires
        state.phase == (HistoricalPhase::Notifying { end_hash }),
        state.non_finalized_start <= state.end,
        state.max_block_range >= 1,
    ensures
        ({
            let sent = HistoricalEvent::Sent(ChannelState::Open);
            let known = HistoricalEvent::Finalized(Ok(finalized));
            let next = state.after(sent);
            let rest = range_iterator::forward_batches(
                state.non_finalized_start as int,
                state.end as int,
                state.max_block_range as int,
            );
            &&& state.policy is Always ==> {
                &&& state.reaction(sent) == HistoricalAction::Send(Message::Data(rest[0]))
                &&& next.phase == (HistoricalPhase::Sending { batch: rest[0], end_hash })
                &&& next.pending == rest.drop_first()
            }
            &&& state.policy is UnlessFinalized ==> {
                &&& state.reaction(sent) is AskFinalized
                &&& finalized >= state.end ==> next.reaction(known) == HistoricalAction::Finish(
                    Some(()),
                )
                &&& finalized < state.end ==> {
                    let again = next.after(known);
                    &&& next.reaction(known) == HistoricalAction::Send(Message::Data(rest[0]))
                    &&& again.phase == (HistoricalPhase::Sending { batch: rest[0], end_hash })
                    &&& again.pending == rest.drop_first()
                }
            }
        }),
{
    range_iterator::lemma_forward_step(
        state.non_finalized_start as int,
        state.end as int,
        state.max_block_range as int,
    );
}

/// An error is reported as it is, and streaming is over.  It counts as complete only where the
/// check alone failed, or could not be told of, and that is no reason to cut the stream short.
pub proof fn failure_ends_the_history(state: HistoricalState, error: ScannerError)
    ensures
        state.phase is FetchingEnd ==> {
            let failed = HistoricalEvent::Fetched(Err(error));
            &&& state.reaction(failed) == HistoricalAction::Fail(error)
            &&& state.after(failed).action() == HistoricalAction::Finish(None)
        },
        state.phase is FetchingEndAgain ==> {
            let failed = HistoricalEvent::Fetched(Err(error));
            &&& state.reaction(failed) == HistoricalAction::Fail(error)
            &&& state.policy is UnlessFinalized ==> state.after(failed).action()
                == HistoricalAction::Finish(None)
            &&& state.policy is Always ==> state.after(failed).action() == HistoricalAction::Finish(
                Some(()),
            )
        },
        state.phase is AskingFinalizedAgain ==> {
            let failed = HistoricalEvent::Finalized(Err(error));
            &&& state.reaction(failed) == HistoricalAction::Fail(error)
            &&& state.after(failed).action() == HistoricalAction::Finish(None)
        },
        state.phase is Notifying ==> {
            let closed = HistoricalEvent::Sent(ChannelState::Closed);
            &&& state.policy is UnlessFinalized ==> state.reaction(closed)
                == HistoricalAction::Finish(None)
            &&& state.policy is Always ==> state.reaction(closed) == HistoricalAction::Finish(
                Some(()),
            )
        },
{
}

/// The streaming of past blocks begins by asking for the finalized block.
pub proof fn history_begins_by_asking_for_finalized(
    start: u64,
    end: u64,
    max_block_range: u64,
    policy: ReorgPolicy,
)
    ensures
        ({
            let begun = historical_begun(start, end, max_block_range, policy);
            &&& begun.phase is AskingFinalized
            &&& begun.start == start
            &&& begun.end == end
            &&& begun.max_block_range == max_block_range
            &&& begun.policy == policy
        }),
{
}

} // verus!
