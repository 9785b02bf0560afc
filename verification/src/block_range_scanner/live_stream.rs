//! Streaming of new blocks as they are confirmed.

#[allow(unused_imports)]
use super::common;
#[allow(unused_imports)]
use super::common::RangeState;
use super::common::{Message, RangeAction, RangeEvent, RangeStream};
#[allow(unused_imports)]
use super::range_iterator;
use crate::error::ScannerError;
#[allow(unused_imports)]
use crate::types::BlockHash;
use crate::types::{BlockNumHash, BlockNumber, ChannelState, Notification, ScannerMessage};
use vstd::prelude::*;

verus! {

/// What a block subscription reports in place of a block.
#[derive(Debug)]
pub enum SubscriptionError {
    /// So many blocks were missed; the next one comes all the same.
    Lagged(u64),
    /// No block came in time.
    Timeout,
    /// The node failed.
    RpcError(String),
    /// The subscription was closed.
    Closed,
}

/// The next item of a block subscription: the number of a new block or an error, or nothing if
/// the subscription has ended.
pub type SubscriptionItem = Option<Result<BlockNumber, SubscriptionError>>;

/// What live streaming waits for, and hears.
#[derive(Debug)]
pub enum LiveEvent {
    /// The next item of the block subscription.
    Incoming(SubscriptionItem),
    /// What came of an action.
    Range(RangeEvent),
}

/// What live streaming asks for.
#[derive(Debug)]
pub enum LiveAction {
    /// Wait for the next item of the block subscription.
    Await,
    /// Fetch the block of this number.
    Fetch(BlockNumber),
    /// Send this message.
    Send(Message),
    /// Check whether this block was reorged.
    Check(BlockNumHash),
    /// Send this error, if anybody listens; streaming is over.
    Fail(ScannerError),
    /// Nothing; streaming is over.
    Finish,
}

/// The newest block with so many blocks on top, the tip included in neither count.
pub open spec fn confirmed(tip: u64, block_confirmations: u64) -> u64 {
    if tip >= block_confirmations {
        (tip - block_confirmations) as u64
    } else {
        0
    }
}

/// Where live streaming stands.
pub ghost enum LiveStage {
    /// No block has come yet that confirms the first one to stream.
    AwaitingFirst,
    /// Consumers are being told that live streaming begins.
    Announcing {
        tip: u64,
    },
    /// Blocks up to the last confirmed one are being streamed.
    Streaming {
        range: RangeState,
    },
    /// All confirmed blocks are streamed; `previous` is the last of them.  There is none if a reorg
    /// has left no block to stream that is confirmed.
    Waiting {
        previous: Option<BlockNumHash>,
    },
    /// The last block streamed is being checked, a new block having come.
    Checking {
        previous: BlockNumHash,
        tip: u64,
    },
    /// A reorg is being announced.
    Notifying {
        ancestor: BlockNumHash,
        tip: u64,
    },
    /// Streaming is over.
    Finished,
}

/// Live streaming, as a value.
pub ghost struct LiveState {
    /// The first block to stream.
    pub stream_start: u64,
    /// How many blocks must follow a block before it is streamed.
    pub block_confirmations: u64,
    /// The size of a batch.
    pub max_block_range: u64,
    /// Whether consumers are told when live streaming begins.
    pub notify: bool,
    pub stage: LiveStage,
}

/// What is reported to consumers of an error of the subscription; being behind is not reported.
pub open spec fn reported(error: SubscriptionError) -> Option<ScannerError> {
    match error {
        SubscriptionError::Lagged(_) => None,
        SubscriptionError::Timeout => Some(ScannerError::Timeout),
        SubscriptionError::RpcError(text) => Some(ScannerError::RpcError(text)),
        SubscriptionError::Closed => Some(ScannerError::SubscriptionClosed),
    }
}

/// Why streaming cannot go on after an item of the subscription, if it cannot.
pub open spec fn fatal(event: LiveEvent) -> Option<ScannerError> {
    match event {
        LiveEvent::Incoming(Some(Err(error))) => reported(error),
        _ => None,
    }
}

impl LiveState {
    /// The state with another stage.
    pub open spec fn at(self, stage: LiveStage) -> LiveState {
        LiveState { stage, ..self }
    }

    /// The earliest block that a reorg may send streaming back to.
    pub open spec fn min_common_ancestor(self) -> u64 {
        if self.stream_start == 0 {
            0
        } else {
            (self.stream_start - 1) as u64
        }
    }

    /// The last block that `tip` confirms.
    pub open spec fn confirmed_by(self, tip: u64) -> u64 {
        confirmed(tip, self.block_confirmations)
    }

    /// Streams the blocks from `start` to the last one that `tip` confirms.
    pub open spec fn streaming(self, start: u64, tip: u64) -> LiveState {
        self.at(
            LiveStage::Streaming {
                range: common::range_begun(
                    self.min_common_ancestor(),
                    start,
                    self.confirmed_by(tip),
                    self.max_block_range,
                ),
            },
        )
    }

    /// Streams the blocks behind `streamed` that `tip` confirms, if there are any.
    pub open spec fn after_block(self, streamed: BlockNumHash, tip: u64) -> LiveState {
        if self.confirmed_by(tip) <= streamed.number {
            self.at(LiveStage::Waiting { previous: Some(streamed) })
        } else {
            self.streaming((streamed.number + 1) as u64, tip)
        }
    }

    /// Streams all blocks that `tip` confirms, from the first one on, if there are any.
    pub open spec fn from_start(self, tip: u64) -> LiveState {
        if self.confirmed_by(tip) < self.stream_start {
            self.at(LiveStage::Waiting { previous: None })
        } else {
            self.streaming(self.stream_start, tip)
        }
    }

    /// Streams what follows the common ancestor of a reorg.
    pub open spec fn after_reorg(self, ancestor: BlockNumHash, tip: u64) -> LiveState {
        if ancestor.number < self.stream_start {
            self.from_start(tip)
        } else {
            self.after_block(ancestor, tip)
        }
    }

    /// The state once the streaming of confirmed blocks is where `range` is.
    pub open spec fn with_range(self, range: RangeState) -> LiveState {
        match range.action() {
            RangeAction::Finish(None) => self.at(LiveStage::Finished),
            RangeAction::Finish(Some(last)) => self.at(LiveStage::Waiting { previous: Some(last) }),
            _ => self.at(LiveStage::Streaming { range }),
        }
    }

    /// The state after a new block.
    pub open spec fn after_tip(self, tip: u64) -> LiveState {
        match self.stage {
            LiveStage::AwaitingFirst => if self.confirmed_by(tip) < self.stream_start {
                self
            } else if self.notify {
                self.at(LiveStage::Announcing { tip })
            } else {
                self.streaming(self.stream_start, tip)
            },
            LiveStage::Waiting { previous: Some(previous) } => self.at(
                LiveStage::Checking { previous, tip },
            ),
            LiveStage::Waiting { previous: None } => self.from_start(tip),
            _ => self,
        }
    }

    /// Whether an item of the subscription is waited for.
    pub open spec fn awaits(self) -> bool {
        self.stage is AwaitingFirst || self.stage is Waiting
    }

    /// The state after an event.  An event that is not waited for changes nothing.
    pub open spec fn after(self, event: LiveEvent) -> LiveState {
        match event {
            LiveEvent::Incoming(item) => if !self.awaits() {
                self
            } else {
                match item {
                    None => self.at(LiveStage::Finished),
                    Some(Ok(tip)) => self.after_tip(tip),
                    Some(Err(error)) => if reported(error) is Some {
                        self.at(LiveStage::Finished)
                    } else {
                        self
                    },
                }
            },
            LiveEvent::Range(event) => match self.stage {
                LiveStage::Announcing { tip } => match event {
                    RangeEvent::Sent(ChannelState::Open) => self.streaming(self.stream_start, tip),
                    RangeEvent::Sent(ChannelState::Closed) => self.at(LiveStage::Finished),
                    _ => self,
                },
                LiveStage::Streaming { range } => self.with_range(range.after(event)),
                LiveStage::Checking { previous, tip } => match event {
                    RangeEvent::Checked(Ok(None)) => self.after_block(previous, tip),
                    RangeEvent::Checked(Ok(Some(ancestor))) => self.at(
                        LiveStage::Notifying { ancestor, tip },
                    ),
                    RangeEvent::Checked(Err(_)) => self.at(LiveStage::Finished),
                    _ => self,
                },
                LiveStage::Notifying { ancestor, tip } => match event {
                    RangeEvent::Sent(ChannelState::Open) => self.after_reorg(ancestor, tip),
                    RangeEvent::Sent(ChannelState::Closed) => self.at(LiveStage::Finished),
                    _ => self,
                },
                _ => self,
            },
        }
    }

    /// What is asked for at the present stage.
    pub open spec fn action(self) -> LiveAction {
        match self.stage {
            LiveStage::AwaitingFirst => LiveAction::Await,
            LiveStage::Announcing { .. } => LiveAction::Send(
                Message::Notification(Notification::SwitchingToLive),
            ),
            LiveStage::Streaming { range } => forwarded(range.action()),
            LiveStage::Waiting { .. } => LiveAction::Await,
            LiveStage::Checking { previous, .. } => LiveAction::Check(previous),
            LiveStage::Notifying { ancestor, .. } => LiveAction::Send(
                Message::Notification(
                    Notification::ReorgDetected { common_ancestor: ancestor.number },
                ),
            ),
            LiveStage::Finished => LiveAction::Finish,
        }
    }

    /// What is asked for after an event: to report an error, or what the new stage asks for.
    pub open spec fn reaction(self, event: LiveEvent) -> LiveAction {
        match (self.stage, event) {
            (
                LiveStage::Checking { .. },
                LiveEvent::Range(RangeEvent::Checked(Err(error))),
            ) => LiveAction::Fail(error),
            (LiveStage::Streaming { range }, LiveEvent::Range(event)) => match range.reaction(
                event,
            ) {
                RangeAction::Fail(error) => LiveAction::Fail(error),
                _ => self.after(LiveEvent::Range(event)).action(),
            },
            _ => match fatal(event) {
                Some(error) if self.awaits() => LiveAction::Fail(error),
                _ => self.after(event).action(),
            },
        }
    }
}

/// An action of the streaming of a range, as one of live streaming.
pub open spec fn forwarded(action: RangeAction) -> LiveAction {
    match action {
        RangeAction::Fetch(number) => LiveAction::Fetch(number),
        RangeAction::Send(message) => LiveAction::Send(message),
        RangeAction::Check(block) => LiveAction::Check(block),
        RangeAction::Fail(error) => LiveAction::Fail(error),
        RangeAction::Finish(_) => LiveAction::Finish,
    }
}

/// Where live streaming stands.
#[derive(Debug)]
enum LivePhase {
    AwaitingFirst,
    Announcing {
        tip: BlockNumber,
    },
    Streaming {
        range: RangeStream,
    },
    Waiting {
        previous: Option<BlockNumHash>,
    },
    Checking {
        previous: BlockNumHash,
        tip: BlockNumber,
    },
    Notifying {
        ancestor: BlockNumHash,
        tip: BlockNumber,
    },
    Finished,
}

impl LivePhase {
    spec fn stage(self) -> LiveStage {
        match self {
            LivePhase::AwaitingFirst => LiveStage::AwaitingFirst,
            LivePhase::Announcing { tip } => LiveStage::Announcing { tip },
            LivePhase::Streaming { range } => LiveStage::Streaming { range: range@ },
            LivePhase::Waiting { previous } => LiveStage::Waiting { previous },
            LivePhase::Checking { previous, tip } => LiveStage::Checking { previous, tip },
            LivePhase::Notifying { ancestor, tip } => LiveStage::Notifying { ancestor, tip },
            LivePhase::Finished => LiveStage::Finished,
        }
    }
}

/// The streaming of new blocks.
///
/// Nothing is streamed until a block comes that confirms `stream_start`.  Then all confirmed
/// blocks are streamed, and after each further block those that it confirms.  Before that, the
/// last block streamed is checked; after a reorg, the blocks behind the common ancestor are
/// streamed again.
#[derive(Debug)]
pub struct LiveStream {
    stream_start: BlockNumber,
    block_confirmations: u64,
    max_block_range: u64,
    notify: bool,
    phase: LivePhase,
}

impl View for LiveStream {
    type V = LiveState;

    closed spec fn view(&self) -> LiveState {
        LiveState {
            stream_start: self.stream_start,
            block_confirmations: self.block_confirmations,
            max_block_range: self.max_block_range,
            notify: self.notify,
            stage: self.phase.stage(),
        }
    }
}

impl LiveStream {
    /// Batches are not empty, and the streaming of confirmed blocks is in order.
    pub closed spec fn wf(&self) -> bool {
        &&& self.max_block_range >= 1
        &&& self.phase matches LivePhase::Streaming { range } ==> range.wf() && !(
        range@.action() is Finish)
        &&& self.phase matches LivePhase::Announcing { tip } ==> self.stream_start
            <= self@.confirmed_by(tip)
    }

    /// Begins to stream new blocks from `stream_start` on.
    pub fn stream_live_blocks(
        stream_start: BlockNumber,
        block_confirmations: u64,
        max_block_range: u64,
        notify_after_first_block: bool,
    ) -> (stream: Self)
        requires
            max_block_range >= 1,
        ensures
            stream.wf(),
            stream@ == (LiveState {
                stream_start,
                block_confirmations,
                max_block_range,
                notify: notify_after_first_block,
                stage: LiveStage::AwaitingFirst,
            }),
    {
        LiveStream {
            stream_start,
            block_confirmations,
            max_block_range,
            notify: notify_after_first_block,
            phase: LivePhase::AwaitingFirst,
        }
    }

    /// Streams the blocks from `start` to the last one that `tip` confirms.
    fn stream_range(&mut self, start: BlockNumber, tip: BlockNumber)
        requires
            old(self).wf(),
            start <= old(self)@.confirmed_by(tip),
        ensures
            final(self).wf(),
            final(self)@ == old(self)@.streaming(start, tip),
    {
        let end: u64 = tip.saturating_sub(self.block_confirmations);
        proof {
            range_iterator::forward_batches_tile(
                start as int,
                end as int,
                self.max_block_range as int,
            );
        }
        let range = RangeStream::stream_range_with_reorg_handling(
            self.stream_start.saturating_sub(1),
            start,
            end,
            self.max_block_range,
        );
        self.phase = LivePhase::Streaming { range };
    }

    /// Streams the blocks behind `streamed` that `tip` confirms, if there are any.
    fn stream_next_batch(&mut self, streamed: BlockNumHash, tip: BlockNumber)
        requires
            old(self).wf(),
        ensures
            final(self).wf(),
            final(self)@ == old(self)@.after_block(streamed, tip),
    {
        let end: u64 = tip.saturating_sub(self.block_confirmations);
        if end <= streamed.number {
            self.phase = LivePhase::Waiting { previous: Some(streamed) };
        } else {
            self.stream_range(streamed.number + 1, tip);
        }
    }

    /// Streams all blocks that `tip` confirms, from the first one on, if there are any.
    fn stream_from_start(&mut self, tip: BlockNumber)
        requires
            old(self).wf(),
        ensures
            final(self).wf(),
            final(self)@ == old(self)@.from_start(tip),
    {
        if self.is_relevant(tip) {
            self.stream_range(self.stream_start, tip);
        } else {
            self.phase = LivePhase::Waiting { previous: None };
        }
    }

    /// Goes on behind the common ancestor of a reorg.
    fn handle_reorg_detected(&mut self, ancestor: BlockNumHash, tip: BlockNumber)
        requires
            old(self).wf(),
        ensures
            final(self).wf(),
            final(self)@ == old(self)@.after_reorg(ancestor, tip),
    {
        if ancestor.number < self.stream_start {
            self.stream_from_start(tip);
        } else {
            self.stream_next_batch(ancestor, tip);
        }
    }

    /// Whether the block that starts the stream is confirmed by `tip`.
    pub fn is_relevant(&self, tip: BlockNumber) -> (relevant: bool)
        ensures
            relevant == (self@.confirmed_by(tip) >= self@.stream_start),
    {
        tip.saturating_sub(self.block_confirmations) >= self.stream_start
    }

    /// What is to be done next.
    pub fn action(&self) -> (action: LiveAction)
        ensures
            action == self@.action(),
    {
        match &self.phase {
            LivePhase::AwaitingFirst => LiveAction::Await,
            LivePhase::Announcing { .. } => LiveAction::Send(
                ScannerMessage::Notification(Notification::SwitchingToLive),
            ),
            LivePhase::Streaming { range } => match range.action() {
                RangeAction::Fetch(number) => LiveAction::Fetch(number),
                RangeAction::Send(message) => LiveAction::Send(message),
                RangeAction::Check(block) => LiveAction::Check(block),
                RangeAction::Fail(error) => LiveAction::Fail(error),
                RangeAction::Finish(_) => LiveAction::Finish,
            },
            LivePhase::Waiting { .. } => LiveAction::Await,
            LivePhase::Checking { previous, .. } => LiveAction::Check(*previous),
            LivePhase::Notifying { ancestor, .. } => LiveAction::Send(
                ScannerMessage::Notification(
                    Notification::ReorgDetected { common_ancestor: ancestor.number },
                ),
            ),
            LivePhase::Finished => LiveAction::Finish,
        }
    }

    /// Takes in a new block.
    fn step_tip(&mut self, tip: BlockNumber)
        requires
            old(self).wf(),
        ensures
            final(self).wf(),
            final(self)@ == old(self)@.after_tip(tip),
    {
        match &self.phase {
            LivePhase::AwaitingFirst => {
                if self.is_relevant(tip) {
                    if self.notify {
                        self.phase = LivePhase::Announcing { tip };
                    } else {
                        self.stream_range(self.stream_start, tip);
                    }
                }
            },
            LivePhase::Waiting { previous } => {
                match *previous {
                    Some(previous) => {
                        self.phase = LivePhase::Checking { previous, tip };
                    },
                    None => {
                        self.stream_from_start(tip);
                    },
                }
            },
            _ => {},
        }
    }

    /// Takes in an item of the block subscription.
    fn step_incoming(&mut self, item: SubscriptionItem) -> (action: LiveAction)
        requires
            old(self).wf(),
        ensures
            final(self).wf(),
            final(self)@ == old(self)@.after(LiveEvent::Incoming(item)),
            action == old(self)@.reaction(LiveEvent::Incoming(item)),
    {
        let awaits: bool = match &self.phase {
            LivePhase::AwaitingFirst => true,
            LivePhase::Waiting { .. } => true,
            _ => false,
        };
        if awaits {
            match item {
                None => {
                    self.phase = LivePhase::Finished;
                },
                Some(Ok(tip)) => {
                    self.step_tip(tip);
                },
                Some(Err(error)) => match error {
                    SubscriptionError::Lagged(_) => {},
                    SubscriptionError::Timeout => {
                        self.phase = LivePhase::Finished;
                        return LiveAction::Fail(ScannerError::Timeout);
                    },
                    SubscriptionError::RpcError(text) => {
                        self.phase = LivePhase::Finished;
                        return LiveAction::Fail(ScannerError::RpcError(text));
                    },
                    SubscriptionError::Closed => {
                        self.phase = LivePhase::Finished;
                        return LiveAction::Fail(ScannerError::SubscriptionClosed);
                    },
                },
            }
        }
        self.action()
    }

    /// Takes in what came of an action of the streaming of confirmed blocks.
    fn step_range(&mut self, event: RangeEvent) -> (action: LiveAction)
        requires
            old(self).wf(),
            old(self)@.stage is Streaming,
            common::event_in_range(event),
        ensures
            final(self).wf(),
            final(self)@ == old(self)@.after(LiveEvent::Range(event)),
            action == old(self)@.reaction(LiveEvent::Range(event)),
    {
        let mut reaction: RangeAction = RangeAction::Finish(None);
        if let LivePhase::Streaming { range } = &mut self.phase {
            reaction = range.step(event);
        }
        match reaction {
            RangeAction::Finish(last) => {
                match last {
                    Some(last) => {
                        self.phase = LivePhase::Waiting { previous: Some(last) };
                    },
                    None => {
                        self.phase = LivePhase::Finished;
                    },
                }
                self.action()
            },
            RangeAction::Fail(error) => {
                self.phase = LivePhase::Finished;
                LiveAction::Fail(error)
            },
            _ => self.action(),
        }
    }

    /// Takes in an event, and says what is to be done next.
    pub fn step(&mut self, event: LiveEvent) -> (action: LiveAction)
        requires
            old(self).wf(),
            event matches LiveEvent::Range(event) ==> common::event_in_range(event),
        ensures
            final(self).wf(),
            final(self)@ == old(self)@.after(event),
            action == old(self)@.reaction(event),
    {
        match event {
            LiveEvent::Incoming(item) => self.step_incoming(item),
            LiveEvent::Range(event) => {
                match &self.phase {
                    LivePhase::Streaming { .. } => {
                        return self.step_range(event);
                    },
                    LivePhase::Announcing { tip } => {
                        let tip: BlockNumber = *tip;
                        if let RangeEvent::Sent(channel) = event {
                            if channel.is_closed() {
                                self.phase = LivePhase::Finished;
                            } else {
                                self.stream_range(self.stream_start, tip);
                            }
                        }
                    },
                    LivePhase::Checking { previous, tip } => {
                        let previous: BlockNumHash = *previous;
                        let tip: BlockNumber = *tip;
                        if let RangeEvent::Checked(outcome) = event {
                            match outcome {
                                Ok(None) => {
                                    self.stream_next_batch(previous, tip);
                                },
                                Ok(Some(ancestor)) => {
                                    self.phase = LivePhase::Notifying { ancestor, tip };
                                },
                                Err(error) => {
                                    self.phase = LivePhase::Finished;
                                    return LiveAction::Fail(error);
                                },
                            }
                        }
                    },
                    LivePhase::Notifying { ancestor, tip } => {
                        let ancestor: BlockNumHash = *ancestor;
                        let tip: BlockNumber = *tip;
                        if let RangeEvent::Sent(channel) = event {
                            if channel.is_closed() {
                                self.phase = LivePhase::Finished;
                            } else {
                                self.handle_reorg_detected(ancestor, tip);
                            }
                        }
                    },
                    _ => {},
                }
                self.action()
            },
        }
    }
}

/// What happens when all goes well: blocks are found, with the given hashes, messages are taken,
/// and checks find no reorg.
pub open spec fn calm_event(action: LiveAction, hashes: spec_fn(u64) -> BlockHash) -> LiveEvent {
    LiveEvent::Range(
        match action {
            LiveAction::Fetch(number) => RangeEvent::Fetched(
                Ok(BlockNumHash { number, hash: hashes(number) }),
            ),
            LiveAction::Check(_) => RangeEvent::Checked(Ok(None)),
            _ => RangeEvent::Sent(ChannelState::Open),
        },
    )
}

/// How far a stage is from waiting for a block: stages before streaming, announcements of a reorg
/// while streaming, batches to begin, steps of a batch.
pub open spec fn steps_left(stage: LiveStage) -> (nat, nat, nat, nat) {
    match stage {
        LiveStage::Announcing { .. } => (1, 0, 0, 0),
        LiveStage::Checking { .. } => (1, 0, 0, 0),
        LiveStage::Notifying { .. } => (1, 0, 0, 0),
        LiveStage::Streaming { range } => (
            0,
            if range.phase is Notifying {
                1
            } else {
                0
            },
            range.pending.len(),
            match range.phase {
                common::RangePhase::Fetching { .. } => 4,
                common::RangePhase::Sending { .. } => 3,
                common::RangePhase::Checking { .. } => 2,
                _ => 1,
            },
        ),
        _ => (0, 0, 0, 0),
    }
}

/// The messages sent from `state` on until a block is waited for, and the state then, when all
/// goes well.
pub open spec fn calm_run(state: LiveState, hashes: spec_fn(u64) -> BlockHash) -> (
    Seq<Message>,
    LiveState,
)
    decreases
            steps_left(state.stage).0,
            steps_left(state.stage).1,
            steps_left(state.stage).2,
            steps_left(state.stage).3,
{
    let action = state.action();
    match action {
        LiveAction::Await => (Seq::empty(), state),
        LiveAction::Finish => (Seq::empty(), state),
        LiveAction::Fail(_) => (Seq::empty(), state),
        _ => {
            let rest = calm_run(state.after(calm_event(action, hashes)), hashes);
            match action {
                LiveAction::Send(message) => (seq![message] + rest.0, rest.1),
                _ => rest,
            }
        },
    }
}

proof fn lemma_calm_streaming(state: LiveState, hashes: spec_fn(u64) -> BlockHash)
    requires
        state.stage is Streaming,
        !(state.stage->range.action() is Finish),
    ensures
        calm_run(state, hashes).0 == common::calm_run(state.stage->range, hashes).0,
        calm_run(state, hashes).1 == match common::calm_run(state.stage->range, hashes).1 {
            Some(last) => state.at(LiveStage::Waiting { previous: Some(last) }),
            None => state.at(LiveStage::Finished),
        },
    decreases
            steps_left(state.stage).0,
            steps_left(state.stage).1,
            steps_left(state.stage).2,
            steps_left(state.stage).3,
{
    let range = state.stage->range;
    let next = state.after(calm_event(state.action(), hashes));
    let range_next = range.after(common::calm_event(range.action(), hashes));
    if range_next.action() is Finish {
        assert(common::calm_run(range_next, hashes).0 =~= Seq::empty());
        assert(calm_run(next, hashes).0 =~= Seq::empty());
    } else {
        lemma_calm_streaming(next, hashes);
    }
}

/// When all goes well, streaming sends exactly the blocks from `start` to the last confirmed one,
/// and then waits.
proof fn lemma_calm_range(
    state: LiveState,
    start: u64,
    tip: u64,
    hashes: spec_fn(u64) -> BlockHash,
)
    requires
        state.max_block_range >= 1,
        start <= state.confirmed_by(tip),
    ensures
        calm_run(state.streaming(start, tip), hashes) == (
            common::as_data(
                range_iterator::forward_batches(
                    start as int,
                    state.confirmed_by(tip) as int,
                    state.max_block_range as int,
                ),
            ),
            state.at(
                LiveStage::Waiting {
                    previous: Some(
                        BlockNumHash {
                            number: state.confirmed_by(tip),
                            hash: hashes(state.confirmed_by(tip)),
                        },
                    ),
                },
            ),
        ),
{
    let end = state.confirmed_by(tip);
    range_iterator::forward_batches_tile(start as int, end as int, state.max_block_range as int);
    common::calm_range_is_streamed_once(
        state.min_common_ancestor(),
        start,
        end,
        state.max_block_range,
        hashes,
    );
    lemma_calm_streaming(state.streaming(start, tip), hashes);
}

/// Nothing is streamed, and consumers are told nothing, until a block confirms the first block to
/// stream.  That block has all confirmed blocks streamed, behind the announcement if there is to
/// be one.
pub proof fn first_relevant_block_starts_the_stream(
    state: LiveState,
    tip: u64,
    hashes: spec_fn(u64) -> BlockHash,
)
    requires
        state.stage is AwaitingFirst,
        state.max_block_range >= 1,
    ensures
        state.confirmed_by(tip) < state.stream_start ==> state.after(
            LiveEvent::Incoming(Some(Ok(tip))),
        ) == state,
        state.confirmed_by(tip) >= state.stream_start ==> calm_run(
            state.after(LiveEvent::Incoming(Some(Ok(tip)))),
            hashes,
        ).0 == (if state.notify {
            seq![Message::Notification(Notification::SwitchingToLive)]
        } else {
            Seq::empty()
        }) + common::as_data(
            range_iterator::forward_batches(
                state.stream_start as int,
                state.confirmed_by(tip) as int,
                state.max_block_range as int,
            ),
        ),
{
    if state.confirmed_by(tip) >= state.stream_start {
        lemma_calm_range(state, state.stream_start, tip, hashes);
        let data = common::as_data(
            range_iterator::forward_batches(
                state.stream_start as int,
                state.confirmed_by(tip) as int,
                state.max_block_range as int,
            ),
        );
        assert(Seq::<Message>::empty() + data =~= data);
    }
}

/// When all goes well, a new block has exactly those blocks streamed that it confirms and the
/// blocks before did not: each confirmed block is streamed once, in order.
pub proof fn new_block_streams_what_it_confirms(
    state: LiveState,
    previous: BlockNumHash,
    tip: u64,
    hashes: spec_fn(u64) -> BlockHash,
)
    requires
        state.stage == (LiveStage::Waiting { previous: Some(previous) }),
        state.max_block_range >= 1,
    ensures
        calm_run(state.after(LiveEvent::Incoming(Some(Ok(tip)))), hashes) == (if state.confirmed_by(
            tip,
        ) <= previous.number {
            (Seq::empty(), state)
        } else {
            (
                common::as_data(
                    range_iterator::forward_batches(
                        previous.number + 1,
                        state.confirmed_by(tip) as int,
                        state.max_block_range as int,
                    ),
                ),
                state.at(
                    LiveStage::Waiting {
                        previous: Some(
                            BlockNumHash {
                                number: state.confirmed_by(tip),
                                hash: hashes(state.confirmed_by(tip)),
                            },
                        ),
                    },
                ),
            )
        }),
{
    let checking = state.after(LiveEvent::Incoming(Some(Ok(tip))));
    let next = checking.after(LiveEvent::Range(RangeEvent::Checked(Ok(None))));
    assert(checking.action() == LiveAction::Check(previous));
    assert(next == state.after_block(previous, tip));
    if state.confirmed_by(tip) > previous.number {
        lemma_calm_range(state, (previous.number + 1) as u64, tip, hashes);
        assert(calm_run(checking, hashes) == calm_run(next, hashes));
    } else {
        assert(next == state);
        assert(calm_run(next, hashes) == (Seq::<Message>::empty(), state));
    }
}

/// A reorg found when a new block comes is announced, and all confirmed blocks behind the common
/// ancestor, though none before the first block to stream, are streamed again.
pub proof fn reorg_is_announced_and_streamed_again(
    state: LiveState,
    previous: BlockNumHash,
    tip: u64,
    ancestor: BlockNumHash,
    hashes: spec_fn(u64) -> BlockHash,
)
    requires
        state.stage == (LiveStage::Checking { previous, tip }),
        state.max_block_range >= 1,
    ensures
        calm_run(
            state.after(LiveEvent::Range(RangeEvent::Checked(Ok(Some(ancestor))))),
            hashes,
        ).0 == seq![
            Message::Notification(Notification::ReorgDetected { common_ancestor: ancestor.number }),
        ] + common::as_data(
            range_iterator::forward_batches(
                if ancestor.number < state.stream_start {
                    state.stream_start as int
                } else {
                    ancestor.number + 1
                },
                state.confirmed_by(tip) as int,
                state.max_block_range as int,
            ),
        ),
{
    let notifying = state.after(LiveEvent::Range(RangeEvent::Checked(Ok(Some(ancestor)))));
    let next = notifying.after(LiveEvent::Range(RangeEvent::Sent(ChannelState::Open)));
    assert(next == state.after_reorg(ancestor, tip));
    let start = if ancestor.number < state.stream_start {
        state.stream_start as int
    } else {
        ancestor.number + 1
    };
    let data = common::as_data(
        range_iterator::forward_batches(
            start,
            state.confirmed_by(tip) as int,
            state.max_block_range as int,
        ),
    );
    if start <= state.confirmed_by(tip) {
        lemma_calm_range(state, start as u64, tip, hashes);
    } else {
        assert(data =~= Seq::empty());
        assert(calm_run(next, hashes).0 =~= data);
    }
}

/// A reorg that reaches back before the first block to stream, and leaves none that is confirmed,
/// has all blocks streamed from there on as soon as a new block confirms them.
pub proof fn stream_goes_on_after_deep_reorg(
    state: LiveState,
    tip: u64,
    hashes: spec_fn(u64) -> BlockHash,
)
    requires
        state.stage == (LiveStage::Waiting { previous: None }),
        state.max_block_range >= 1,
    ensures
        state.confirmed_by(tip) < state.stream_start ==> state.after(
            LiveEvent::Incoming(Some(Ok(tip))),
        ) == state,
        state.confirmed_by(tip) >= state.stream_start ==> calm_run(
            state.after(LiveEvent::Incoming(Some(Ok(tip)))),
            hashes,
        ).0 == common::as_data(
            range_iterator::forward_batches(
                state.stream_start as int,
                state.confirmed_by(tip) as int,
                state.max_block_range as int,
            ),
        ),
{
    if state.confirmed_by(tip) >= state.stream_start {
        lemma_calm_range(state, state.stream_start, tip, hashes);
    }
}

/// A reorg that leaves the last block streamed on the chain is not announced: only blocks are
/// sent.
pub proof fn shallow_reorg_is_not_announced(
    state: LiveState,
    previous: BlockNumHash,
    tip: u64,
    hashes: spec_fn(u64) -> BlockHash,
    i: int,
)
    requires
        state.stage == (LiveStage::Waiting { previous: Some(previous) }),
        state.max_block_range >= 1,
        0 <= i < calm_run(state.after(LiveEvent::Incoming(Some(Ok(tip)))), hashes).0.len(),
    ensures
        calm_run(state.after(LiveEvent::Incoming(Some(Ok(tip)))), hashes).0[i] is Data,
{
    new_block_streams_what_it_confirms(state, previous, tip, hashes);
}

/// Whether the last blocks of the batches sent, as far as they are still of use, are none before
/// `low`.
pub open spec fn ends_from(range: RangeState, low: int) -> bool {
    &&& range.last matches Some(last) ==> last.number >= low
    &&& match range.phase {
        common::RangePhase::Sending { end, .. } => end.number >= low,
        common::RangePhase::Checking { end } => end.number >= low,
        common::RangePhase::Notifying { end, .. } => end.number >= low,
        common::RangePhase::Finished { last: Some(last) } => last.number >= low,
        _ => true,
    }
}

/// Whether a block that was fetched is the one that was asked for.
pub open spec fn answers(state: LiveState, event: LiveEvent) -> bool {
    match (state.stage, event) {
        (
            LiveStage::Streaming { range },
            LiveEvent::Range(RangeEvent::Fetched(Ok(block))),
        ) => range.phase matches common::RangePhase::Fetching { batch } ==> block.number
            == batch.end,
        _ => true,
    }
}

/// Whether only blocks are to be streamed that the newest block so far confirms, and none before
/// the one that precedes the first block to stream.
pub open spec fn streams_confirmed(state: LiveState, newest: u64) -> bool {
    match state.stage {
        LiveStage::Announcing { tip } => tip <= newest,
        LiveStage::Waiting { previous: Some(previous) } => previous.number
            >= state.min_common_ancestor(),
        LiveStage::Checking { previous, tip } => tip <= newest && previous.number
            >= state.min_common_ancestor(),
        LiveStage::Notifying { tip, .. } => tip <= newest,
        LiveStage::Streaming { range } => {
            &&& range.wf()
            &&& range.min_common_ancestor == state.min_common_ancestor()
            &&& range.end <= state.confirmed_by(newest)
            &&& common::sends_within(range, state.min_common_ancestor() as int)
            &&& ends_from(range, state.min_common_ancestor() as int)
        },
        _ => true,
    }
}

/// A new block counts among those seen.
pub open spec fn newest_after(newest: u64, event: LiveEvent) -> u64 {
    match event {
        LiveEvent::Incoming(Some(Ok(tip))) => if tip > newest {
            tip
        } else {
            newest
        },
        _ => newest,
    }
}

/// No block is streamed before it is confirmed, and none before the one that precedes the first
/// block to stream, whatever happens, as long as the blocks fetched are those asked for.
pub proof fn only_confirmed_blocks_are_streamed(state: LiveState, newest: u64, event: LiveEvent)
    requires
        state.max_block_range >= 1,
        streams_confirmed(state, newest),
        event matches LiveEvent::Range(event) ==> common::event_in_range(event),
        answers(state, event),
    ensures
        streams_confirmed(state.after(event), newest_after(newest, event)),
{
    let next = state.after(event);
    let low = state.min_common_ancestor() as int;
    if let LiveStage::Streaming { range: before } = state.stage {
        if let LiveEvent::Range(range_event) = event {
            common::only_blocks_of_the_range_are_streamed(
                before.min_common_ancestor,
                before.min_common_ancestor,
                before.end,
                before.max_block_range,
                before,
                range_event,
            );
            if let common::RangePhase::Fetching { batch } = before.phase {
                assert(before.to_send()[0] == batch);
            }
            assert(ends_from(before.after(range_event), low));
        }
    } else if let LiveStage::Streaming { range } = next.stage {
        let start = match state.stage {
            LiveStage::Checking { previous, .. } => (previous.number + 1) as u64,
            LiveStage::Notifying { ancestor, .. } => if ancestor.number < state.stream_start {
                state.stream_start
            } else {
                (ancestor.number + 1) as u64
            },
            _ => state.stream_start,
        };
        common::only_blocks_of_the_range_are_streamed(
            range.min_common_ancestor,
            start,
            range.end,
            range.max_block_range,
            range,
            RangeEvent::Sent(ChannelState::Open),
        );
    }
}

/// A new block confirms the blocks that so many blocks follow; near the start of the chain it
/// confirms the very first block.
pub proof fn confirmed_blocks_are_followed_by_so_many(state: LiveState, tip: u64)
    ensures
        tip >= state.block_confirmations ==> state.confirmed_by(tip) + state.block_confirmations
            == tip,
        tip < state.block_confirmations ==> state.confirmed_by(tip) == 0,
        confirmed(tip, state.block_confirmations) == state.confirmed_by(tip),
{
}

/// Nothing is streamed until a block comes that confirms the first one.  Then consumers are told,
/// if they want to be, and the blocks from the first one to the last confirmed one are streamed.
pub proof fn stream_waits_for_the_first_block(state: LiveState, tip: u64)
    requires
        state.stage is AwaitingFirst,
        state.max_block_range >= 1,
    ensures
        ({
            let block = LiveEvent::Incoming(Some(Ok(tip)));
            let sent = LiveEvent::Range(RangeEvent::Sent(ChannelState::Open));
            let last = if tip < state.block_confirmations {
                0
            } else {
                tip - state.block_confirmations
            };
            let range = common::range_begun(
                if state.stream_start == 0 {
                    0
                } else {
                    (state.stream_start - 1) as u64
                },
                state.stream_start,
                last as u64,
                state.max_block_range,
            );
            let next = state.after(block);
            &&& state.action() is Await
            &&& last < state.stream_start ==> next == state && state.reaction(block) is Await
            &&& last >= state.stream_start && !state.notify ==> next.stage == (
            LiveStage::Streaming { range })
            &&& last >= state.stream_start && state.notify ==> {
                &&& state.reaction(block) == LiveAction::Send(
                    Message::Notification(Notification::SwitchingToLive),
                )
                &&& next.after(sent).stage == (LiveStage::Streaming { range })
            }
            &&& next.stream_start == state.stream_start
            &&& next.block_confirmations == state.block_confirmations
            &&& next.max_block_range == state.max_block_range
        }),
{
}

/// Before anything is streamed on account of a new block, the last block streamed is checked.  If
/// it is still there, the blocks behind it that the new block confirms are streamed, if there are
/// any.
pub proof fn last_block_is_checked_before_the_next(
    state: LiveState,
    previous: BlockNumHash,
    tip: u64,
)
    requires
        state.stage == (LiveStage::Waiting { previous: Some(previous) }),
        state.max_block_range >= 1,
    ensures
        ({
            let block = LiveEvent::Incoming(Some(Ok(tip)));
            let calm = LiveEvent::Range(RangeEvent::Checked(Ok(None)));
            let last = if tip < state.block_confirmations {
                0
            } else {
                tip - state.block_confirmations
            };
            let checking = state.after(block);
            let next = checking.after(calm);
            &&& state.action() is Await
            &&& state.reaction(block) == LiveAction::Check(previous)
            &&& last <= previous.number ==> {
                &&& checking.reaction(calm) is Await
                &&& next.stage == (LiveStage::Waiting { previous: Some(previous) })
            }
            &&& last > previous.number ==> next.stage == (LiveStage::Streaming {
                range: common::range_begun(
                    if state.stream_start == 0 {
                        0
                    } else {
                        (state.stream_start - 1) as u64
                    },
                    (previous.number + 1) as u64,
                    last as u64,
                    state.max_block_range,
                ),
            })
            &&& next.stream_start == state.stream_start
            &&& next.block_confirmations == state.block_confirmations
            &&& next.max_block_range == state.max_block_range
        }),
{
}

/// A reorg is announced with the number of the common ancestor.  Then the blocks behind it that the
/// new block confirms are streamed, but none before the first block to stream; if there are none,
/// the next block is waited for.
pub proof fn confirmed_blocks_behind_the_ancestor_are_streamed(
    state: LiveState,
    previous: BlockNumHash,
    tip: u64,
    ancestor: BlockNumHash,
)
    requires
        state.stage == (LiveStage::Checking { previous, tip }),
        state.max_block_range >= 1,
    ensures
        ({
            let reorg = LiveEvent::Range(RangeEvent::Checked(Ok(Some(ancestor))));
            let sent = LiveEvent::Range(RangeEvent::Sent(ChannelState::Open));
            let last = if tip < state.block_confirmations {
                0
            } else {
                tip - state.block_confirmations
            };
            let restart = if ancestor.number < state.stream_start {
                state.stream_start as int
            } else {
                ancestor.number + 1
            };
            let announcing = state.after(reorg);
            let again = announcing.after(sent);
            &&& state.reaction(reorg) == LiveAction::Send(
                Message::Notification(
                    Notification::ReorgDetected { common_ancestor: ancestor.number },
                ),
            )
            &&& last < restart ==> {
                &&& announcing.reaction(sent) is Await
                &&& again.stage == (LiveStage::Waiting {
                    previous: if ancestor.number < state.stream_start {
                        None
                    } else {
                        Some(ancestor)
                    },
                })
            }
            &&& last >= restart ==> again.stage == (LiveStage::Streaming {
                range: common::range_begun(
                    if state.stream_start == 0 {
                        0
                    } else {
                        (state.stream_start - 1) as u64
                    },
                    restart as u64,
                    last as u64,
                    state.max_block_range,
                ),
            })
        }),
{
}

/// If no block is left that was streamed, the next block has all streamed that it confirms.
pub proof fn stream_begins_anew_without_a_last_block(state: LiveState, tip: u64)
    requires
        state.stage == (LiveStage::Waiting { previous: None }),
        state.max_block_range >= 1,
    ensures
        ({
            let last = if tip < state.block_confirmations {
                0
            } else {
                tip - state.block_confirmations
            };
            let next = state.after(LiveEvent::Incoming(Some(Ok(tip))));
            &&& last < state.stream_start ==> next == state
            &&& last >= state.stream_start ==> next.stage == (LiveStage::Streaming {
                range: common::range_begun(
                    if state.stream_start == 0 {
                        0
                    } else {
                        (state.stream_start - 1) as u64
                    },
                    state.stream_start,
                    last as u64,
                    state.max_block_range,
                ),
            })
        }),
{
}

/// While blocks are streamed, what the streaming of the range asks for is asked for, and what it
/// hears is told to it.  Once it is complete, the next block is waited for; an error is reported.
pub proof fn streaming_asks_what_the_range_asks(
    state: LiveState,
    range: RangeState,
    event: RangeEvent,
)
    requires
        state.stage == (LiveStage::Streaming { range }),
    ensures
        match range.action() {
            RangeAction::Fetch(number) => state.action() == LiveAction::Fetch(number),
            RangeAction::Send(message) => state.action() == LiveAction::Send(message),
            RangeAction::Check(block) => state.action() == LiveAction::Check(block),
            _ => true,
        },
        ({
            let next = state.after(LiveEvent::Range(event));
            let action = state.reaction(LiveEvent::Range(event));
            match range.reaction(event) {
                RangeAction::Fetch(number) => action == LiveAction::Fetch(number) && next.stage == (
                LiveStage::Streaming { range: range.after(event) }),
                RangeAction::Send(message) => action == LiveAction::Send(message) && next.stage == (
                LiveStage::Streaming { range: range.after(event) }),
                RangeAction::Check(block) => action == LiveAction::Check(block) && next.stage == (
                LiveStage::Streaming { range: range.after(event) }),
                RangeAction::Fail(error) => action == LiveAction::Fail(error) && next.stage
                    is Finished,
                RangeAction::Finish(None) => action is Finish && next.stage is Finished,
                RangeAction::Finish(Some(last)) => action is Await && next.stage == (
                LiveStage::Waiting { previous: Some(last) }),
            }
        }),
{
}

/// Missed blocks do not matter.  Any other error of the subscription is reported under its own
/// name, and streaming is over, as it is when the subscription ends.
pub proof fn subscription_errors_are_reported(state: LiveState, missed: u64, text: String)
    requires
        state.stage is AwaitingFirst || state.stage is Waiting,
    ensures
        ({
            let lagged = LiveEvent::Incoming(Some(Err(SubscriptionError::Lagged(missed))));
            let timeout = LiveEvent::Incoming(Some(Err(SubscriptionError::Timeout)));
            let failed = LiveEvent::Incoming(Some(Err(SubscriptionError::RpcError(text))));
            let closed = LiveEvent::Incoming(Some(Err(SubscriptionError::Closed)));
            let ended = LiveEvent::Incoming(None);
            &&& state.after(lagged) == state && state.reaction(lagged) is Await
            &&& state.reaction(timeout) == LiveAction::Fail(ScannerError::Timeout)
            &&& state.reaction(failed) == LiveAction::Fail(ScannerError::RpcError(text))
            &&& state.reaction(closed) == LiveAction::Fail(ScannerError::SubscriptionClosed)
            &&& state.reaction(ended) is Finish
            &&& state.after(timeout).stage is Finished
            &&& state.after(failed).stage is Finished
            &&& state.after(closed).stage is Finished
            &&& state.after(ended).stage is Finished
        }),
{
}

/// A check that fails is reported, and streaming is over; so it is once nobody listens.
pub proof fn failure_ends_live_streaming(state: LiveState, error: ScannerError)
    ensures
        state.stage is Checking ==> {
            let failed = LiveEvent::Range(RangeEvent::Checked(Err(error)));
            &&& state.reaction(failed) == LiveAction::Fail(error)
            &&& state.after(failed).stage is Finished
        },
        state.stage is Announcing || state.stage is Notifying ==> {
            let closed = LiveEvent::Range(RangeEvent::Sent(ChannelState::Closed));
            &&& state.reaction(closed) is Finish
            &&& state.after(closed).stage is Finished
        },
        state.stage is Finished ==> state.action() is Finish,
{
}

} // verus!
