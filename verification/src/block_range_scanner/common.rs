//! Streaming of a range of blocks, one batch at a time, with a reorg check after each batch.

#[allow(unused_imports)]
use super::range_iterator;
#[allow(unused_imports)]
use super::range_iterator::Direction;
use super::range_iterator::RangeIterator;
use super::reorg_handler::BlockReply;
use crate::error::ScannerError;
#[allow(unused_imports)]
use crate::types::BlockHash;
use crate::types::{BlockNumHash, BlockNumber, BlockRange, ChannelState, Notification, ScannerMessage};
use vstd::prelude::*;

verus! {

/// Default maximum number of blocks per streamed range.
pub const DEFAULT_MAX_BLOCK_RANGE: u64 = 1000;

/// Default confirmation depth used by scanners that accept a `block_confirmations` setting.
pub const DEFAULT_BLOCK_CONFIRMATIONS: u64 = 0;

/// Default per-stream buffer size used by scanners.
pub const DEFAULT_STREAM_BUFFER_CAPACITY: usize = 50000;

/// Convenience alias for a streamed block-range message.
pub type Message = ScannerMessage<BlockRange>;

/// The result type yielded by block-range streams.
pub type BlockScannerResult = Result<Message, ScannerError>;

/// The message that carries `range`.
pub fn range_message(range: BlockRange) -> (message: Message)
    ensures
        message == Message::Data(range),
{
    ScannerMessage::Data(range)
}

/// The stream item that carries `range`.
pub fn into_scanner_message_result(range: BlockRange) -> (item: BlockScannerResult)
    ensures
        item == Ok::<Message, ScannerError>(Message::Data(range)),
{
    Ok(range_message(range))
}

/// Whether a message carries exactly `range`.
pub fn message_is_range(message: &Message, range: &BlockRange) -> (same: bool)
    ensures
        same == (*message == Message::Data(*range)),
{
    match message {
        ScannerMessage::Data(data) => *data == *range,
        ScannerMessage::Notification(_) => false,
    }
}

/// Where the streaming of a range stands.
#[derive(Clone, Copy, Debug)]
pub enum RangePhase {
    /// The last block of the batch is being fetched.
    Fetching {
        batch: BlockRange,
    },
    /// The batch is being sent; `end` is its last block.
    Sending {
        batch: BlockRange,
        end: BlockNumHash,
    },
    /// The last block of the batch just sent is being checked.
    Checking {
        end: BlockNumHash,
    },
    /// A reorg back to `ancestor` is being announced.
    Notifying {
        ancestor: BlockNumber,
        end: BlockNumHash,
    },
    /// Streaming is over; the last block of the last batch, unless it was cut short.
    Finished {
        last: Option<BlockNumHash>,
    },
}

/// What the streaming of a range waits for, and hears.
#[derive(Debug)]
pub enum RangeEvent {
    /// The block that was to be fetched, or why it was not.
    Fetched(BlockReply),
    /// The message was handed over, or nobody listens any more.
    Sent(ChannelState),
    /// The outcome of the reorg check.
    Checked(Result<Option<BlockNumHash>, ScannerError>),
}

/// What the streaming of a range asks for.
#[derive(Debug)]
pub enum RangeAction {
    /// Fetch the block of this number.
    Fetch(BlockNumber),
    /// Send this message.
    Send(Message),
    /// Check whether this block was reorged.
    Check(BlockNumHash),
    /// Send this error, if anybody listens; streaming is over.
    Fail(ScannerError),
    /// Nothing; streaming is over.
    Finish(Option<BlockNumHash>),
}

/// The streaming of a range, as a value.
#[verifier::ext_equal]
pub ghost struct RangeState {
    /// Where to begin again, at the earliest, after a reorg.
    pub min_common_ancestor: u64,
    /// The last block of the range.
    pub end: u64,
    /// The size of a batch.
    pub max_block_range: u64,
    /// The batches not begun yet.
    pub pending: Seq<BlockRange>,
    /// The last block of the last complete batch.
    pub last: Option<BlockNumHash>,
    pub phase: RangePhase,
}

impl RangeState {
    /// Goes to the next batch, or ends.
    pub open spec fn advanced(self) -> RangeState {
        if self.pending.len() == 0 {
            RangeState { phase: RangePhase::Finished { last: self.last }, ..self }
        } else {
            RangeState {
                phase: RangePhase::Fetching { batch: self.pending[0] },
                pending: self.pending.drop_first(),
                ..self
            }
        }
    }

    /// Ends before the range is complete.
    pub open spec fn cut_short(self) -> RangeState {
        RangeState { phase: RangePhase::Finished { last: None }, ..self }
    }

    /// Where streaming begins again after a reorg back to `ancestor`.
    pub open spec fn restart(self, ancestor: u64) -> int {
        if ancestor + 1 >= self.min_common_ancestor {
            ancestor + 1
        } else {
            self.min_common_ancestor as int
        }
    }

    /// All batches from the restart on.
    pub open spec fn rewound(self, ancestor: u64) -> Seq<BlockRange> {
        range_iterator::forward_batches(
            self.restart(ancestor),
            self.end as int,
            self.max_block_range as int,
        )
    }

    /// What is asked for in the present phase.
    pub open spec fn action(self) -> RangeAction {
        match self.phase {
            RangePhase::Fetching { batch } => RangeAction::Fetch(batch.end),
            RangePhase::Sending { batch, .. } => RangeAction::Send(Message::Data(batch)),
            RangePhase::Checking { end } => RangeAction::Check(end),
            RangePhase::Notifying { ancestor, .. } => RangeAction::Send(
                Message::Notification(Notification::ReorgDetected { common_ancestor: ancestor }),
            ),
            RangePhase::Finished { last } => RangeAction::Finish(last),
        }
    }

    /// The state after an event.  An event that is not waited for changes nothing.
    pub open spec fn after(self, event: RangeEvent) -> RangeState {
        match (self.phase, event) {
            (RangePhase::Fetching { batch }, RangeEvent::Fetched(Ok(end))) => RangeState {
                phase: RangePhase::Sending { batch, end },
                ..self
            },
            (RangePhase::Fetching { .. }, RangeEvent::Fetched(Err(_))) => self.cut_short(),
            (RangePhase::Sending { end, .. }, RangeEvent::Sent(ChannelState::Open)) => RangeState {
                phase: RangePhase::Checking { end },
                ..self
            },
            (RangePhase::Sending { .. }, RangeEvent::Sent(ChannelState::Closed)) => self.cut_short(),
            (RangePhase::Checking { end }, RangeEvent::Checked(Ok(None))) => RangeState {
                last: Some(end),
                ..self
            }.advanced(),
            (RangePhase::Checking { end }, RangeEvent::Checked(Ok(Some(ancestor)))) => RangeState {
                phase: RangePhase::Notifying { ancestor: ancestor.number, end },
                ..self
            },
            (RangePhase::Checking { .. }, RangeEvent::Checked(Err(_))) => self.cut_short(),
            (
                RangePhase::Notifying { ancestor, end },
                RangeEvent::Sent(ChannelState::Open),
            ) => RangeState {
                last: Some(end),
                pending: self.rewound(ancestor),
                ..self
            }.advanced(),
            (
                RangePhase::Notifying { .. },
                RangeEvent::Sent(ChannelState::Closed),
            ) => self.cut_short(),
            _ => self,
        }
    }

    /// What is asked for after an event: to report an error, or what the new phase asks for.
    pub open spec fn reaction(self, event: RangeEvent) -> RangeAction {
        match (self.phase, event) {
            (RangePhase::Fetching { .. }, RangeEvent::Fetched(Err(e))) => RangeAction::Fail(e),
            (RangePhase::Checking { .. }, RangeEvent::Checked(Err(e))) => RangeAction::Fail(e),
            _ => self.after(event).action(),
        }
    }

    /// The batches not sent yet, if no reorg comes.
    pub open spec fn to_send(self) -> Seq<BlockRange> {
        match self.phase {
            RangePhase::Fetching { batch } => seq![batch] + self.pending,
            RangePhase::Sending { batch, .. } => seq![batch] + self.pending,
            RangePhase::Checking { .. } => self.pending,
            RangePhase::Notifying { ancestor, .. } => self.rewound(ancestor),
            RangePhase::Finished { .. } => Seq::empty(),
        }
    }

    /// No reorg is announced that leaves no block to begin again with.
    pub open spec fn wf(self) -> bool {
        &&& self.max_block_range >= 1
        &&& self.phase matches RangePhase::Notifying { ancestor, .. } ==> ancestor < u64::MAX
    }
}

/// An event that names no common ancestor at the very end of the block numbers.
pub open spec fn event_in_range(event: RangeEvent) -> bool {
    event matches RangeEvent::Checked(Ok(Some(ancestor))) ==> ancestor.number < u64::MAX
}

/// The streaming of the blocks from a start to an end: fetches the last block of each batch, sends
/// the batch, and has that block checked.  After a reorg, begins again behind the common ancestor.
#[derive(Debug)]
pub struct RangeStream {
    min_common_ancestor: BlockNumber,
    iter: RangeIterator,
    last: Option<BlockNumHash>,
    phase: RangePhase,
}

impl View for RangeStream {
    type V = RangeState;

    closed spec fn view(&self) -> RangeState {
        RangeState {
            min_common_ancestor: self.min_common_ancestor,
            end: self.iter.boundary(),
            max_block_range: self.iter.max(),
            pending: self.iter.pending(),
            last: self.last,
            phase: self.phase,
        }
    }
}

/// The state in which the streaming of the blocks from `start` to `end` begins.
pub open spec fn range_begun(
    min_common_ancestor: u64,
    start: u64,
    end: u64,
    max_block_range: u64,
) -> RangeState {
    RangeState {
        min_common_ancestor,
        end,
        max_block_range,
        pending: range_iterator::forward_batches(start as int, end as int, max_block_range as int),
        last: None,
        phase: RangePhase::Finished { last: None },
    }.advanced()
}

impl RangeStream {
    /// Batches are not empty and come oldest first.
    pub closed spec fn wf(&self) -> bool {
        &&& self.iter.wf()
        &&& self.iter.way() == Direction::Forward
        &&& self@.wf()
    }

    /// Begins to stream the blocks from `next_start_block` to `end`.
    pub fn stream_range_with_reorg_handling(
        min_common_ancestor: BlockNumber,
        next_start_block: BlockNumber,
        end: BlockNumber,
        max_block_range: u64,
    ) -> (stream: Self)
        requires
            max_block_range >= 1,
        ensures
            stream.wf(),
            stream@ == range_begun(min_common_ancestor, next_start_block, end, max_block_range),
    {
        let mut stream = RangeStream {
            min_common_ancestor,
            iter: RangeIterator::forward(next_start_block, end, max_block_range),
            last: None,
            phase: RangePhase::Finished { last: None },
        };
        stream.advance();
        stream
    }

    /// Goes to the next batch, or ends.
    fn advance(&mut self)
        requires
            old(self).iter.wf(),
            old(self).iter.way() == Direction::Forward,
        ensures
            final(self).wf(),
            final(self)@ == old(self)@.advanced(),
    {
        match self.iter.next() {
            Some(batch) => {
                self.phase = RangePhase::Fetching { batch };
            },
            None => {
                self.phase = RangePhase::Finished { last: self.last };
            },
        }
        assert(self@ =~= old(self)@.advanced());
    }

    /// What is to be done next.
    pub fn action(&self) -> (action: RangeAction)
        ensures
            action == self@.action(),
    {
        match self.phase {
            RangePhase::Fetching { batch } => RangeAction::Fetch(batch.end),
            RangePhase::Sending { batch, .. } => RangeAction::Send(range_message(batch)),
            RangePhase::Checking { end } => RangeAction::Check(end),
            RangePhase::Notifying { ancestor, .. } => RangeAction::Send(
                ScannerMessage::Notification(
                    Notification::ReorgDetected { common_ancestor: ancestor },
                ),
            ),
            RangePhase::Finished { last } => RangeAction::Finish(last),
        }
    }

    /// Takes in what came of the last action, and says what is to be done next.
    pub fn step(&mut self, event: RangeEvent) -> (action: RangeAction)
        requires
            old(self).wf(),
            event_in_range(event),
        ensures
            final(self).wf(),
            final(self)@ == old(self)@.after(event),
            action == old(self)@.reaction(event),
    {
        match (self.phase, event) {
            (RangePhase::Fetching { batch }, RangeEvent::Fetched(reply)) => match reply {
                Ok(end) => {
                    self.phase = RangePhase::Sending { batch, end };
                },
                Err(e) => {
                    self.phase = RangePhase::Finished { last: None };
                    return RangeAction::Fail(e);
                },
            },
            (RangePhase::Sending { end, .. }, RangeEvent::Sent(channel)) => {
                if channel.is_closed() {
                    self.phase = RangePhase::Finished { last: None };
                } else {
                    self.phase = RangePhase::Checking { end };
                }
            },
            (RangePhase::Checking { end }, RangeEvent::Checked(outcome)) => match outcome {
                Ok(None) => {
                    self.last = Some(end);
                    self.advance();
                },
                Ok(Some(ancestor)) => {
                    self.phase = RangePhase::Notifying { ancestor: ancestor.number, end };
                },
                Err(e) => {
                    self.phase = RangePhase::Finished { last: None };
                    return RangeAction::Fail(e);
                },
            },
            (RangePhase::Notifying { ancestor, end }, RangeEvent::Sent(channel)) => {
                if channel.is_closed() {
                    self.phase = RangePhase::Finished { last: None };
                } else {
                    let after: u64 = ancestor + 1;
                    let restart: u64 = if after >= self.min_common_ancestor {
                        after
                    } else {
                        self.min_common_ancestor
                    };
                    self.iter.reset_to(restart);
                    self.last = Some(end);
                    self.advance();
                }
            },
            _ => {},
        }
        self.action()
    }
}

/// The messages that carry `batches`.
pub open spec fn as_data(batches: Seq<BlockRange>) -> Seq<Message> {
    batches.map_values(|batch: BlockRange| Message::Data(batch))
}

/// What happens when all goes well: blocks are found, with the given hashes, messages are taken,
/// and checks find no reorg.
pub open spec fn calm_event(action: RangeAction, hashes: spec_fn(u64) -> BlockHash) -> RangeEvent {
    match action {
        RangeAction::Fetch(number) => RangeEvent::Fetched(
            Ok(BlockNumHash { number, hash: hashes(number) }),
        ),
        RangeAction::Check(_) => RangeEvent::Checked(Ok(None)),
        _ => RangeEvent::Sent(ChannelState::Open),
    }
}

/// The messages sent from `state` on, and how streaming ends, when all goes well.
pub open spec fn calm_run(state: RangeState, hashes: spec_fn(u64) -> BlockHash) -> (
    Seq<Message>,
    Option<BlockNumHash>,
)
    decreases
            (if state.phase is Notifying {
                1int
            } else {
                0
            }),
            state.pending.len(),
            (match state.phase {
                RangePhase::Fetching { .. } => 3int,
                RangePhase::Sending { .. } => 2,
                RangePhase::Checking { .. } => 1,
                _ => 0,
            }),
{
    let action = state.action();
    match action {
        RangeAction::Finish(last) => (Seq::empty(), last),
        _ => {
            let rest = calm_run(state.after(calm_event(action, hashes)), hashes);
            match action {
                RangeAction::Send(message) => (seq![message] + rest.0, rest.1),
                _ => rest,
            }
        },
    }
}

proof fn lemma_calm_run(state: RangeState, hashes: spec_fn(u64) -> BlockHash)
    requires
        !(state.phase is Notifying),
    ensures
        calm_run(state, hashes).0 == as_data(state.to_send()),
        calm_run(state, hashes).1 == match state.phase {
            RangePhase::Finished { last } => last,
            _ => if state.pending.len() > 0 {
                Some(
                    BlockNumHash {
                        number: state.pending.last().end,
                        hash: hashes(state.pending.last().end),
                    },
                )
            } else {
                match state.phase {
                    RangePhase::Fetching { batch } => Some(
                        BlockNumHash { number: batch.end, hash: hashes(batch.end) },
                    ),
                    RangePhase::Sending { end, .. } => Some(end),
                    RangePhase::Checking { end } => Some(end),
                    _ => None,
                }
            },
        },
    decreases
            state.pending.len(),
            (match state.phase {
                RangePhase::Fetching { .. } => 3int,
                RangePhase::Sending { .. } => 2,
                RangePhase::Checking { .. } => 1,
                _ => 0,
            }),
{
    let action = state.action();
    match state.phase {
        RangePhase::Finished { .. } => {
            assert(calm_run(state, hashes).0 =~= as_data(state.to_send()));
        },
        _ => {
            let next = state.after(calm_event(action, hashes));
            lemma_calm_run(next, hashes);
            if state.phase is Checking && state.pending.len() > 0 {
                assert(seq![state.pending[0]] + state.pending.drop_first() =~= state.pending);
            }
            assert(calm_run(state, hashes).0 =~= as_data(state.to_send()));
        },
    }
}

/// When all goes well, the blocks from `start` to `end` are streamed batch by batch, each block
/// once and in order, and streaming ends with the block `end`.
pub proof fn calm_range_is_streamed_once(
    min_common_ancestor: u64,
    start: u64,
    end: u64,
    max_block_range: u64,
    hashes: spec_fn(u64) -> BlockHash,
)
    requires
        start <= end,
        max_block_range >= 1,
    ensures
        calm_run(range_begun(min_common_ancestor, start, end, max_block_range), hashes) == (
            as_data(
                range_iterator::forward_batches(start as int, end as int, max_block_range as int),
            ),
            Some(BlockNumHash { number: end, hash: hashes(end) }),
        ),
{
    let batches = range_iterator::forward_batches(start as int, end as int, max_block_range as int);
    range_iterator::forward_batches_tile(start as int, end as int, max_block_range as int);
    let state = range_begun(min_common_ancestor, start, end, max_block_range);
    lemma_calm_run(state, hashes);
    assert(seq![batches[0]] + batches.drop_first() =~= batches);
}

/// A reorg found by the check of a batch is announced, and all blocks behind the common ancestor,
/// though none before the minimum, are streamed again.
pub proof fn reorg_is_announced_and_streamed_again(
    state: RangeState,
    ancestor: BlockNumHash,
    hashes: spec_fn(u64) -> BlockHash,
)
    requires
        state.phase is Checking,
    ensures
        calm_run(state.after(RangeEvent::Checked(Ok(Some(ancestor)))), hashes).0 == seq![
            Message::Notification(Notification::ReorgDetected { common_ancestor: ancestor.number }),
        ] + as_data(state.rewound(ancestor.number)),
{
    let notifying = state.after(RangeEvent::Checked(Ok(Some(ancestor))));
    let restarted = notifying.after(RangeEvent::Sent(ChannelState::Open));
    lemma_calm_run(restarted, hashes);
    let batches = state.rewound(ancestor.number);
    if batches.len() > 0 {
        assert(seq![batches[0]] + batches.drop_first() =~= batches);
    }
    assert(as_data(restarted.to_send()) =~= as_data(batches));
}

/// Whether all batches still to be sent lie between `low` and the end of the range, and none is
/// empty or too large.
pub open spec fn sends_within(state: RangeState, low: int) -> bool {
    forall|i: int|
        0 <= i < state.to_send().len() ==> {
            let batch = #[trigger] state.to_send()[i];
            &&& low <= batch.start <= batch.end <= state.end
            &&& batch.end - batch.start < state.max_block_range
        }
}

proof fn lemma_sends_within(state: RangeState, low: int, from: int)
    requires
        state.max_block_range >= 1,
        0 <= low <= from,
        from <= u64::MAX,
        state.pending == range_iterator::forward_batches(
            from,
            state.end as int,
            state.max_block_range as int,
        ),
    ensures
        sends_within(state.advanced(), low),
{
    if from <= state.end {
        range_iterator::forward_batches_tile(from, state.end as int, state.max_block_range as int);
        let next = state.advanced();
        assert(next.to_send() =~= state.pending);
    } else {
        assert(state.pending.len() == 0);
    }
}

/// Only blocks of the range are ever streamed, apart from those between the minimum and its
/// start: it is so at the beginning, and stays so whatever happens.
pub proof fn only_blocks_of_the_range_are_streamed(
    min_common_ancestor: u64,
    start: u64,
    end: u64,
    max_block_range: u64,
    state: RangeState,
    event: RangeEvent,
)
    requires
        max_block_range >= 1,
        min_common_ancestor <= start,
    ensures
        sends_within(
            range_begun(min_common_ancestor, start, end, max_block_range),
            min_common_ancestor as int,
        ),
        state.wf() && event_in_range(event) && sends_within(
            state,
            state.min_common_ancestor as int,
        ) ==> sends_within(state.after(event), state.min_common_ancestor as int),
{
    let batches = range_iterator::forward_batches(start as int, end as int, max_block_range as int);
    let begun = RangeState {
        min_common_ancestor,
        end,
        max_block_range,
        pending: batches,
        last: None,
        phase: RangePhase::Finished { last: None },
    };
    lemma_sends_within(begun, min_common_ancestor as int, start as int);
    let low = state.min_common_ancestor as int;
    if state.wf() && event_in_range(event) && sends_within(state, low) {
        match (state.phase, event) {
            (RangePhase::Notifying { ancestor, end }, RangeEvent::Sent(ChannelState::Open)) => {
                let rewound = RangeState {
                    last: Some(end),
                    pending: state.rewound(ancestor),
                    ..state
                };
                lemma_sends_within(rewound, low, state.restart(ancestor));
            },
            (RangePhase::Checking { end }, RangeEvent::Checked(Ok(None))) => {
                assert(state.to_send() == state.pending);
                let next = state.after(event);
                if state.pending.len() > 0 {
                    assert(next.to_send() =~= state.pending);
                }
            },
            (RangePhase::Checking { end }, RangeEvent::Checked(Ok(Some(ancestor)))) => {
                let from = state.restart(ancestor.number);
                let next = state.after(event);
                if from <= state.end {
                    range_iterator::forward_batches_tile(
                        from,
                        state.end as int,
                        state.max_block_range as int,
                    );
                }
                assert(next.to_send() == state.rewound(ancestor.number));
            },
            (RangePhase::Sending { batch, .. }, RangeEvent::Sent(ChannelState::Open)) => {
                let next = state.after(event);
                assert forall|i: int| 0 <= i < next.to_send().len() implies {
                    let batch = #[trigger] next.to_send()[i];
                    &&& low <= batch.start <= batch.end <= state.end
                    &&& batch.end - batch.start < state.max_block_range
                } by {
                    assert(next.to_send()[i] == state.to_send()[i + 1]);
                }
            },
            _ => {
                let next = state.after(event);
                assert(next.to_send() =~= state.to_send() || next.to_send().len() == 0);
            },
        }
    }
}

/// A range is streamed from its first batch on, if it has any block at all.
pub proof fn range_begins_with_its_first_batch(
    min_common_ancestor: u64,
    start: u64,
    end: u64,
    max_block_range: u64,
)
    requires
        max_block_range >= 1,
    ensures
        ({
            let begun = range_begun(min_common_ancestor, start, end, max_block_range);
            let all = range_iterator::forward_batches(
                start as int,
                end as int,
                max_block_range as int,
            );
            &&& begun.min_common_ancestor == min_common_ancestor
            &&& begun.end == end
            &&& begun.max_block_range == max_block_range
            &&& start > end ==> begun.action() == RangeAction::Finish(None)
            &&& start <= end ==> {
                &&& begun.phase == (RangePhase::Fetching { batch: all[0] })
                &&& begun.pending == all.drop_first()
                &&& begun.last is None
            }
        }),
{
    if start <= end {
        range_iterator::lemma_forward_step(start as int, end as int, max_block_range as int);
    }
}

/// Each batch is sent once its last block is known, and that very block is checked once the batch
/// is sent; only then comes the next batch.  The last block of the last batch is what is left.
pub proof fn each_batch_is_sent_and_its_end_checked(
    state: RangeState,
    batch: BlockRange,
    end: BlockNumHash,
)
    requires
        state.phase == (RangePhase::Fetching { batch }),
    ensures
        ({
            let fetched = RangeEvent::Fetched(Ok(end));
            let sent = RangeEvent::Sent(ChannelState::Open);
            let calm = RangeEvent::Checked(Ok(None));
            let sending = state.after(fetched);
            let checking = sending.after(sent);
            let next = checking.after(calm);
            &&& state.action() == RangeAction::Fetch(batch.end)
            &&& state.reaction(fetched) == RangeAction::Send(Message::Data(batch))
            &&& sending.reaction(sent) == RangeAction::Check(end)
            &&& next.last == Some(end)
            &&& next.end == state.end
            &&& next.min_common_ancestor == state.min_common_ancestor
            &&& next.max_block_range == state.max_block_range
            &&& state.pending.len() == 0 ==> checking.reaction(calm) == RangeAction::Finish(
                Some(end),
            )
            &&& state.pending.len() > 0 ==> {
                &&& checking.reaction(calm) == RangeAction::Fetch(state.pending[0].end)
                &&& next.phase == (RangePhase::Fetching { batch: state.pending[0] })
                &&& next.pending == state.pending.drop_first()
            }
        }),
{
}

/// A reorg is announced with the number of the common ancestor.  Then the blocks behind it are
/// streamed again up to the end of the range, but none before the earliest allowed; if there are
/// none, the block that was checked is what is left.
pub proof fn blocks_behind_the_ancestor_are_streamed_again(
    state: RangeState,
    end: BlockNumHash,
    ancestor: BlockNumHash,
)
    requires
        state.phase == (RangePhase::Checking { end }),
        state.max_block_range >= 1,
        ancestor.number < u64::MAX,
    ensures
        ({
            let reorg = RangeEvent::Checked(Ok(Some(ancestor)));
            let sent = RangeEvent::Sent(ChannelState::Open);
            let announcing = state.after(reorg);
            let again = announcing.after(sent);
            let restart = if ancestor.number + 1 < state.min_common_ancestor {
                state.min_common_ancestor as int
            } else {
                ancestor.number + 1
            };
            let all = range_iterator::forward_batches(
                restart,
                state.end as int,
                state.max_block_range as int,
            );
            &&& state.reaction(reorg) == RangeAction::Send(
                Message::Notification(
                    Notification::ReorgDetected { common_ancestor: ancestor.number },
                ),
            )
            &&& again.end == state.end
            &&& again.min_common_ancestor == state.min_common_ancestor
            &&& again.max_block_range == state.max_block_range
            &&& again.last == Some(end)
            &&& restart > state.end ==> announcing.reaction(sent) == RangeAction::Finish(Some(end))
            &&& restart <= state.end ==> {
                &&& again.phase == (RangePhase::Fetching { batch: all[0] })
                &&& again.pending == all.drop_first()
            }
        }),
{
    let restart = if ancestor.number + 1 < state.min_common_ancestor {
        state.min_common_ancestor as int
    } else {
        ancestor.number + 1
    };
    if restart <= state.end {
        range_iterator::lemma_forward_step(
            restart,
            state.end as int,
            state.max_block_range as int,
        );
    }
}

/// An error is reported as it is, and streaming is over; so it is once nobody listens.  Nothing is
/// left then.
pub proof fn failure_cuts_the_range_short(state: RangeState, error: ScannerError)
    ensures
        state.phase is Fetching ==> {
            &&& state.reaction(RangeEvent::Fetched(Err(error))) == RangeAction::Fail(error)
            &&& state.after(RangeEvent::Fetched(Err(error))).action() == RangeAction::Finish(None)
        },
        state.phase is Checking ==> {
            &&& state.reaction(RangeEvent::Checked(Err(error))) == RangeAction::Fail(error)
            &&& state.after(RangeEvent::Checked(Err(error))).action() == RangeAction::Finish(None)
        },
        state.phase is Sending || state.phase is Notifying ==> state.reaction(
            RangeEvent::Sent(ChannelState::Closed),
        ) == RangeAction::Finish(None),
{
}

/// An event that is not waited for changes nothing.
pub proof fn range_ignores_unexpected_events(
    state: RangeState,
    reply: BlockReply,
    channel: ChannelState,
    checked: Result<Option<BlockNumHash>, ScannerError>,
)
    ensures
        !(state.phase is Fetching) ==> state.after(RangeEvent::Fetched(reply)) == state,
        !(state.phase is Sending || state.phase is Notifying) ==> state.after(
            RangeEvent::Sent(channel),
        ) == state,
        !(state.phase is Checking) ==> state.after(RangeEvent::Checked(checked)) == state,
{
}

} // verus!
