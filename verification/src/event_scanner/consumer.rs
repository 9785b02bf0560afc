//! From block ranges to the logs of a listener.

use super::request::EventListener;
use crate::block_range_scanner::message::{Message, ScannerMessage, ScannerStatus};
use crate::error::ScannerError;
use crate::event_filter::Filter;
use crate::types::{BlockRange, ChannelState};
use vstd::prelude::*;

verus! {

/// What becomes of the logs found in block ranges.
#[derive(Copy, Clone, Debug, PartialEq, Eq, Structural)]
pub enum ConsumerMode {
    /// They are delivered as they are found.
    Stream,
    /// The last so many of them are delivered together, ranges coming newest first.
    CollectLatest {
        count: usize,
    },
}

/// A message to a listener, of logs of type `L`.
pub type EventMessage<L> = ScannerMessage<Vec<L>, ScannerError>;

/// A message to a listener, as a value.
pub ghost enum MessageView<L> {
    Data(Seq<L>),
    Error(ScannerError),
    Status(ScannerStatus),
}

/// The value of a message.
pub open spec fn message_view<L>(message: EventMessage<L>) -> MessageView<L> {
    match message {
        ScannerMessage::Data(logs) => MessageView::Data(logs@),
        ScannerMessage::Error(error) => MessageView::Error(error),
        ScannerMessage::Status(status) => MessageView::Status(status),
    }
}

/// Where a consumer stands.
#[derive(Clone, Copy, Debug, PartialEq, Eq, Structural)]
pub enum ConsumerPhase {
    /// The next block range is waited for.
    Receiving,
    /// The logs of a block range are being fetched.
    Fetching,
    /// A message is being sent.
    Sending,
    /// The logs collected are being sent.
    Delivering,
    /// Nothing follows.
    Finished,
}

/// What a consumer waits for, and hears.
#[derive(Debug)]
pub enum ConsumerEvent<L> {
    /// The next message about block ranges.
    Received(Message),
    /// So many messages about block ranges were missed.
    Lagged(u64),
    /// No more messages about block ranges come.
    Closed,
    /// The logs that were to be fetched, or why they were not.
    Logs(Result<Vec<L>, ScannerError>),
    /// The message was handed over, or nobody listens any more.
    Sent(ChannelState),
}

/// What a consumer asks for.
#[derive(Debug)]
pub enum ConsumerAction<L> {
    /// Wait for the next message about block ranges.
    Receive,
    /// Fetch the logs of these blocks.
    GetLogs(BlockRange),
    /// Send this message.
    Send(EventMessage<L>),
    /// Nothing; the event was not waited for.
    Ignore,
    /// Nothing; the consumer is done.
    Finish,
}

/// What a consumer asks for, as a value.
pub ghost enum ActionView<L> {
    Receive,
    GetLogs(BlockRange),
    Send(MessageView<L>),
    Ignore,
    Finish,
}

/// The value of an action.
pub open spec fn action_view<L>(action: ConsumerAction<L>) -> ActionView<L> {
    match action {
        ConsumerAction::Receive => ActionView::Receive,
        ConsumerAction::GetLogs(range) => ActionView::GetLogs(range),
        ConsumerAction::Send(message) => ActionView::Send(message_view(message)),
        ConsumerAction::Ignore => ActionView::Ignore,
        ConsumerAction::Finish => ActionView::Finish,
    }
}

/// A consumer, as a value.
#[verifier::ext_equal]
pub ghost struct ConsumerState<L> {
    pub mode: ConsumerMode,
    /// The logs collected, newest first.
    pub collected: Seq<L>,
    pub phase: ConsumerPhase,
}

/// The logs collected once those of an older range are added: the newest ones, newest first, no
/// more than `count`.
pub open spec fn with_older<L>(collected: Seq<L>, logs: Seq<L>, count: nat) -> Seq<L> {
    let room = count - collected.len();
    if room <= 0 {
        collected
    } else if logs.len() <= room {
        collected + logs.reverse()
    } else {
        collected + logs.reverse().take(room)
    }
}

impl<L> ConsumerState<L> {
    /// The state in another phase.
    pub open spec fn at(self, phase: ConsumerPhase) -> Self {
        ConsumerState { phase, ..self }
    }

    /// Ends; if logs were collected, with their delivery, oldest first.
    pub open spec fn ended(self) -> (Self, ActionView<L>) {
        match self.mode {
            ConsumerMode::Stream => (self.at(ConsumerPhase::Finished), ActionView::Finish),
            ConsumerMode::CollectLatest { .. } => (
                ConsumerState {
                    collected: Seq::empty(),
                    phase: ConsumerPhase::Delivering,
                    ..self
                },
                ActionView::Send(MessageView::Data(self.collected.reverse())),
            ),
        }
    }

    /// Waits for the next block range.
    pub open spec fn receives(self) -> (Self, ActionView<L>) {
        (self.at(ConsumerPhase::Receiving), ActionView::Receive)
    }

    /// Sends a message.
    pub open spec fn sends(self, message: MessageView<L>) -> (Self, ActionView<L>) {
        (self.at(ConsumerPhase::Sending), ActionView::Send(message))
    }

    /// Forgets logs collected from blocks that have left the chain: a rewind begins again.
    pub open spec fn after_status(self, status: ScannerStatus) -> Self {
        if status == ScannerStatus::ReorgDetected && self.mode is CollectLatest {
            ConsumerState { collected: Seq::empty(), ..self }
        } else {
            self
        }
    }

    /// Takes in the logs of a range.
    pub open spec fn after_logs(self, logs: Seq<L>) -> (Self, ActionView<L>) {
        if logs.len() == 0 {
            self.receives()
        } else {
            match self.mode {
                ConsumerMode::Stream => self.sends(MessageView::Data(logs)),
                ConsumerMode::CollectLatest { count } => {
                    let next = ConsumerState {
                        collected: with_older(self.collected, logs, count as nat),
                        ..self
                    };
                    if next.collected.len() >= count {
                        next.ended()
                    } else {
                        next.receives()
                    }
                },
            }
        }
    }

    /// The state after an event, and what is asked for.
    pub open spec fn stepped(self, event: ConsumerEvent<L>) -> (Self, ActionView<L>) {
        match (self.phase, event) {
            (ConsumerPhase::Receiving, ConsumerEvent::Received(message)) => match message {
                ScannerMessage::Data(range) => (
                    self.at(ConsumerPhase::Fetching),
                    ActionView::GetLogs(range),
                ),
                ScannerMessage::Error(error) => self.sends(MessageView::Error(error)),
                ScannerMessage::Status(status) => self.after_status(status).sends(
                    MessageView::Status(status),
                ),
            },
            (ConsumerPhase::Receiving, ConsumerEvent::Lagged(count)) => self.sends(
                MessageView::Error(ScannerError::Lagged(count)),
            ),
            (ConsumerPhase::Receiving, ConsumerEvent::Closed) => self.ended(),
            (ConsumerPhase::Fetching, ConsumerEvent::Logs(logs)) => match logs {
                Ok(logs) => self.after_logs(logs@),
                Err(error) => self.sends(MessageView::Error(error)),
            },
            (ConsumerPhase::Sending, ConsumerEvent::Sent(channel)) => match channel {
                ChannelState::Open => self.receives(),
                ChannelState::Closed => self.ended(),
            },
            (ConsumerPhase::Delivering, ConsumerEvent::Sent(_)) => (
                self.at(ConsumerPhase::Finished),
                ActionView::Finish,
            ),
            _ => (self, ActionView::Ignore),
        }
    }
}

/// A consumer of block ranges: fetches the logs of each, and passes them on to a listener.
#[derive(Debug)]
pub struct LogConsumer<L> {
    mode: ConsumerMode,
    collected: Vec<L>,
    phase: ConsumerPhase,
}

impl<L> View for LogConsumer<L> {
    type V = ConsumerState<L>;

    closed spec fn view(&self) -> ConsumerState<L> {
        ConsumerState { mode: self.mode, collected: self.collected@, phase: self.phase }
    }
}

/// A consumer that has collected nothing and waits for the first block range.
pub open spec fn consumer_begun<L>(mode: ConsumerMode) -> ConsumerState<L> {
    ConsumerState { mode, collected: Seq::empty(), phase: ConsumerPhase::Receiving }
}

impl<L> LogConsumer<L> {
    /// A consumer that waits for the first block range.
    pub fn new(mode: ConsumerMode) -> (consumer: Self)
        ensures
            consumer@ == consumer_begun::<L>(mode),
    {
        let consumer = LogConsumer {
            mode,
            collected: Vec::new(),
            phase: ConsumerPhase::Receiving,
        };
        assert(consumer@ =~= consumer_begun::<L>(mode));
        consumer
    }

    fn receive(&mut self) -> (action: ConsumerAction<L>)
        ensures
            (final(self)@, action_view(action)) == old(self)@.receives(),
    {
        self.phase = ConsumerPhase::Receiving;
        ConsumerAction::Receive
    }

    fn send(&mut self, message: EventMessage<L>) -> (action: ConsumerAction<L>)
        ensures
            (final(self)@, action_view(action)) == old(self)@.sends(message_view(message)),
    {
        self.phase = ConsumerPhase::Sending;
        ConsumerAction::Send(message)
    }

    /// Ends; if logs were collected, with their delivery, oldest first.
    fn end(&mut self) -> (action: ConsumerAction<L>)
        ensures
            (final(self)@, action_view(action)) == old(self)@.ended(),
    {
        match self.mode {
            ConsumerMode::Stream => {
                self.phase = ConsumerPhase::Finished;
                ConsumerAction::Finish
            },
            ConsumerMode::CollectLatest { .. } => {
                self.phase = ConsumerPhase::Delivering;
                let mut newest_first: Vec<L> = Vec::new();
                newest_first.append(&mut self.collected);
                let ghost all = newest_first@;
                let mut logs: Vec<L> = Vec::new();
                assert(logs@ =~= all.reverse().take(0));
                while newest_first.len() > 0
                    invariant
                        newest_first@.len() <= all.len(),
                        newest_first@ == all.take(newest_first@.len() as int),
                        logs@ == all.reverse().take(all.len() - newest_first@.len()),
                    decreases newest_first.len(),
                {
                    let ghost done = all.len() - newest_first@.len();
                    let log = newest_first.pop().unwrap();
                    logs.push(log);
                    assert(newest_first@ =~= all.take(newest_first@.len() as int));
                    assert(logs@ =~= all.reverse().take(done + 1));
                }
                assert(logs@ =~= all.reverse());
                assert(all =~= old(self)@.collected);
                assert(self@ =~= old(self)@.ended().0);
                ConsumerAction::Send(ScannerMessage::Data(logs))
            },
        }
    }

    /// Adds logs of an older range to those collected, newest first, as long as there is room.
    fn collect(&mut self, logs: Vec<L>, count: usize)
        ensures
            final(self)@ == (ConsumerState {
                collected: with_older(old(self)@.collected, logs@, count as nat),
                ..old(self)@
            }),
    {
        let ghost all = logs@;
        let ghost before = self.collected@;
        let mut logs = logs;
        assert(self.collected@ =~= before + all.reverse().take(0));
        while logs.len() > 0 && self.collected.len() < count
            invariant
                self.mode == old(self).mode,
                self.phase == old(self).phase,
                before == old(self)@.collected,
                logs@.len() <= all.len(),
                logs@ == all.take(logs@.len() as int),
                self.collected@ == before + all.reverse().take(all.len() - logs@.len()),
                all.len() > logs@.len() ==> self.collected@.len() <= count,
            decreases logs.len(),
        {
            let ghost done = all.len() - logs@.len();
            let log = logs.pop().unwrap();
            self.collected.push(log);
            assert(logs@ =~= all.take(logs@.len() as int));
            assert(self.collected@ =~= before + all.reverse().take(done + 1));
        }
        assert(self.collected@ =~= with_older(before, all, count as nat));
        assert(self@ =~= (ConsumerState {
            collected: with_older(old(self)@.collected, all, count as nat),
            ..old(self)@
        }));
    }

    /// Takes in the logs of a range.
    fn step_logs(&mut self, logs: Vec<L>) -> (action: ConsumerAction<L>)
        ensures
            (final(self)@, action_view(action)) == old(self)@.after_logs(logs@),
    {
        if logs.len() == 0 {
            return self.receive();
        }
        match self.mode {
            ConsumerMode::Stream => self.send(ScannerMessage::Data(logs)),
            ConsumerMode::CollectLatest { count } => {
                self.collect(logs, count);
                if self.collected.len() >= count {
                    self.end()
                } else {
                    self.receive()
                }
            },
        }
    }

    /// Takes in a message about block ranges.
    fn step_received(&mut self, message: Message) -> (action: ConsumerAction<L>)
        requires
            old(self)@.phase == ConsumerPhase::Receiving,
        ensures
            (final(self)@, action_view(action)) == old(self)@.stepped(
                ConsumerEvent::Received(message),
            ),
    {
        match message {
            ScannerMessage::Data(range) => {
                self.phase = ConsumerPhase::Fetching;
                ConsumerAction::GetLogs(range)
            },
            ScannerMessage::Error(error) => self.send(ScannerMessage::Error(error)),
            ScannerMessage::Status(status) => {
                if status == ScannerStatus::ReorgDetected {
                    if let ConsumerMode::CollectLatest { .. } = self.mode {
                        self.collected = Vec::new();
                        assert(self@ =~= old(self)@.after_status(status));
                    }
                }
                self.send(ScannerMessage::Status(status))
            },
        }
    }

    /// Takes in what came of the last action, and says what is to be done next.
    pub fn step(&mut self, event: ConsumerEvent<L>) -> (action: ConsumerAction<L>)
        ensures
            (final(self)@, action_view(action)) == old(self)@.stepped(event),
    {
        match (self.phase, event) {
            (ConsumerPhase::Receiving, ConsumerEvent::Received(message)) => self.step_received(
                message,
            ),
            (ConsumerPhase::Receiving, ConsumerEvent::Lagged(count)) => self.send(
                ScannerMessage::Error(ScannerError::Lagged(count)),
            ),
            (ConsumerPhase::Receiving, ConsumerEvent::Closed) => self.end(),
            (ConsumerPhase::Fetching, ConsumerEvent::Logs(logs)) => match logs {
                Ok(logs) => self.step_logs(logs),
                Err(error) => self.send(ScannerMessage::Error(error)),
            },
            (ConsumerPhase::Sending, ConsumerEvent::Sent(channel)) => {
                if channel.is_closed() {
                    self.end()
                } else {
                    self.receive()
                }
            },
            (ConsumerPhase::Delivering, ConsumerEvent::Sent(_)) => {
                self.phase = ConsumerPhase::Finished;
                ConsumerAction::Finish
            },
            _ => ConsumerAction::Ignore,
        }
    }
}

/// The logs of ranges that come newest first, oldest log first.
pub open spec fn chronological<L>(batches: Seq<Seq<L>>) -> Seq<L>
    decreases batches.len(),
{
    if batches.len() == 0 {
        Seq::empty()
    } else {
        batches.last() + chronological(batches.drop_last())
    }
}

/// The last `count` of some logs, or all of them if there are fewer.
pub open spec fn latest<L>(logs: Seq<L>, count: nat) -> Seq<L> {
    if logs.len() <= count {
        logs
    } else {
        logs.skip(logs.len() - count)
    }
}

/// A consumer for each listener, together with what it asks the node for, of each block range.
pub fn spawn_log_consumers<S, L>(
    listeners: &Vec<EventListener<S>>,
    mode: ConsumerMode,
) -> (consumers: Vec<(Filter, LogConsumer<L>)>)
    ensures
        consumers@.len() == listeners@.len(),
        forall|i: int|
            #![trigger consumers@[i]]
            0 <= i < listeners@.len() ==> {
                &&& consumers@[i].0@ == listeners@[i].filter@.restriction()
                &&& consumers@[i].1@ == consumer_begun::<L>(mode)
            },
{
    let mut consumers: Vec<(Filter, LogConsumer<L>)> = Vec::new();
    let mut i: usize = 0;
    while i < listeners.len()
        invariant
            i <= listeners.len(),
            consumers@.len() == i,
            forall|j: int|
                #![trigger consumers@[j]]
                0 <= j < i ==> {
                    &&& consumers@[j].0@ == listeners@[j].filter@.restriction()
                    &&& consumers@[j].1@ == consumer_begun::<L>(mode)
                },
        decreases listeners.len() - i,
    {
        let filter = Filter::from(&listeners[i].filter);
        consumers.push((filter, LogConsumer::new(mode)));
        i = i + 1;
    }
    consumers
}

/// The logs collected of ranges that come newest first.
pub open spec fn collected_of<L>(batches: Seq<Seq<L>>, count: nat) -> Seq<L>
    decreases batches.len(),
{
    if batches.len() == 0 {
        Seq::empty()
    } else {
        with_older(collected_of(batches.drop_last(), count), batches.last(), count)
    }
}

/// However the logs are spread over ranges that come newest first, those delivered are the last
/// `count` of all, or all if there are fewer, oldest first.
pub proof fn latest_logs_are_delivered_in_order<L>(batches: Seq<Seq<L>>, count: nat)
    ensures
        collected_of(batches, count).reverse() == latest(chronological(batches), count),
    decreases batches.len(),
{
    let collected = collected_of(batches, count);
    let all = chronological(batches);
    if batches.len() > 0 {
        let rest = batches.drop_last();
        let newer = chronological(rest);
        let logs = batches.last();
        latest_logs_are_delivered_in_order(rest, count);
        let before = collected_of(rest, count);
        assert(before.reverse() == latest(newer, count));
        assert(before.len() == latest(newer, count).len());
        assert(before =~= latest(newer, count).reverse());
        assert(all == logs + newer);
    }
    assert(collected.reverse() =~= latest(all, count));
}

/// Collecting a range of logs after others makes the collection that of all of them; the consumer
/// ends with their delivery as soon as there are enough.
pub proof fn collecting_follows_the_ranges<L>(
    state: ConsumerState<L>,
    count: usize,
    batches: Seq<Seq<L>>,
    logs: Vec<L>,
)
    requires
        state.mode == (ConsumerMode::CollectLatest { count }),
        state.phase == ConsumerPhase::Fetching,
        state.collected == collected_of(batches, count as nat),
        logs@.len() > 0,
    ensures
        ({
            let next = state.stepped(ConsumerEvent::Logs(Ok(logs)));
            let collected = collected_of(batches.push(logs@), count as nat);
            if collected.len() >= count {
                next.1 == ActionView::Send(
                    MessageView::Data(
                        latest(chronological(batches.push(logs@)), count as nat),
                    ),
                )
            } else {
                next.1 == ActionView::<L>::Receive && next.0.collected == collected
            }
        }),
{
    assert(batches.push(logs@).drop_last() =~= batches);
    latest_logs_are_delivered_in_order(batches.push(logs@), count as nat);
}

/// After a reorg the collection begins again: what is delivered then are the latest logs of the
/// ranges that follow, oldest first.
pub proof fn reorg_begins_the_collection_again<L>(state: ConsumerState<L>, count: usize)
    requires
        state.mode == (ConsumerMode::CollectLatest { count }),
        state.phase == ConsumerPhase::Receiving,
    ensures
        state.stepped(
            ConsumerEvent::Received(ScannerMessage::Status(ScannerStatus::ReorgDetected)),
        ).0.collected == collected_of(Seq::<Seq<L>>::empty(), count as nat),
{
}

/// A consumer that streams passes on every message and all logs, in the order in which they come,
/// and nothing else; a listener that misses messages is told how many.
pub proof fn streaming_passes_everything_on<L>(
    state: ConsumerState<L>,
    logs: Vec<L>,
    error: ScannerError,
    status: ScannerStatus,
    missed: u64,
)
    requires
        state.mode == ConsumerMode::Stream,
    ensures
        state.phase == ConsumerPhase::Fetching ==> {
            &&& state.stepped(ConsumerEvent::Logs(Ok(logs))).1 == (if logs@.len() == 0 {
                ActionView::Receive
            } else {
                ActionView::Send(MessageView::Data(logs@))
            })
            &&& state.stepped(ConsumerEvent::Logs(Err(error))).1 == ActionView::<L>::Send(
                MessageView::Error(error),
            )
        },
        state.phase == ConsumerPhase::Receiving ==> {
            &&& state.stepped(ConsumerEvent::Received(ScannerMessage::Error(error))).1
                == ActionView::<L>::Send(MessageView::Error(error))
            &&& state.stepped(ConsumerEvent::Received(ScannerMessage::Status(status))).1
                == ActionView::<L>::Send(MessageView::Status(status))
            &&& state.stepped(ConsumerEvent::Lagged(missed)).1 == ActionView::<L>::Send(
                MessageView::Error(ScannerError::Lagged(missed)),
            )
            &&& state.stepped(ConsumerEvent::Closed).1 == ActionView::<L>::Finish
        },
{
}

/// What a consumer sends to a listener who keeps listening, given the logs of the block ranges that
/// it receives until no more come.
pub open spec fn sent_for<L>(
    state: ConsumerState<L>,
    ranges: Seq<BlockRange>,
    logs: Seq<Vec<L>>,
) -> Seq<MessageView<L>>
    decreases logs.len(),
{
    if logs.len() == 0 {
        match state.stepped(ConsumerEvent::Closed).1 {
            ActionView::Send(message) => seq![message],
            _ => Seq::empty(),
        }
    } else {
        let received = ConsumerEvent::Received(ScannerMessage::Data(ranges[0]));
        let (next, action) = state.stepped(received).0.stepped(ConsumerEvent::Logs(Ok(logs[0])));
        let rest = logs.drop_first();
        match action {
            ActionView::Send(message) => {
                let after = next.stepped(ConsumerEvent::Sent(ChannelState::Open));
                if after.1 is Finish {
                    seq![message]
                } else {
                    seq![message] + sent_for(after.0, ranges.drop_first(), rest)
                }
            },
            _ => sent_for(next, ranges.drop_first(), rest),
        }
    }
}

/// The logs of the ranges.
pub open spec fn log_views<L>(logs: Seq<Vec<L>>) -> Seq<Seq<L>> {
    logs.map_values(|batch: Vec<L>| batch@)
}

proof fn lemma_enough_is_enough<L>(batches: Seq<Seq<L>>, more: Seq<Seq<L>>, count: nat)
    requires
        collected_of(batches, count).len() >= count,
    ensures
        collected_of(batches + more, count) == collected_of(batches, count),
    decreases more.len(),
{
    if more.len() == 0 {
        assert(batches + more =~= batches);
    } else {
        assert((batches + more).drop_last() =~= batches + more.drop_last());
        lemma_enough_is_enough(batches, more.drop_last(), count);
    }
}

proof fn lemma_empty_range_adds_nothing<L>(batches: Seq<Seq<L>>, count: nat)
    requires
        batches.len() > 0,
        batches.last().len() == 0,
    ensures
        collected_of(batches, count) == collected_of(batches.drop_last(), count),
{
    let before = collected_of(batches.drop_last(), count);
    assert(before + batches.last().reverse() =~= before);
}

proof fn lemma_latest_come_together<L>(
    state: ConsumerState<L>,
    count: usize,
    before: Seq<Seq<L>>,
    ranges: Seq<BlockRange>,
    logs: Seq<Vec<L>>,
)
    requires
        state.mode == (ConsumerMode::CollectLatest { count }),
        state.phase == ConsumerPhase::Receiving,
        state.collected == collected_of(before, count as nat),
        ranges.len() == logs.len(),
    ensures
        sent_for(state, ranges, logs) == seq![
            MessageView::Data(latest(chronological(before + log_views(logs)), count as nat)),
        ],
    decreases logs.len(),
{
    let all = before + log_views(logs);
    latest_logs_are_delivered_in_order(all, count as nat);
    if logs.len() == 0 {
        assert(all =~= before);
    } else {
        let batches = before.push(logs[0]@);
        let rest = logs.drop_first();
        assert(all =~= batches + log_views(rest));
        assert(batches.drop_last() =~= before);
        if logs[0]@.len() == 0 {
            lemma_empty_range_adds_nothing(batches, count as nat);
            let next = state.stepped(
                ConsumerEvent::Received(ScannerMessage::Data(ranges[0])),
            ).0.stepped(ConsumerEvent::Logs(Ok(logs[0]))).0;
            lemma_latest_come_together(next, count, batches, ranges.drop_first(), rest);
        } else if collected_of(batches, count as nat).len() >= count {
            lemma_enough_is_enough(batches, log_views(rest), count as nat);
        } else {
            let next = state.stepped(
                ConsumerEvent::Received(ScannerMessage::Data(ranges[0])),
            ).0.stepped(ConsumerEvent::Logs(Ok(logs[0]))).0;
            lemma_latest_come_together(next, count, batches, ranges.drop_first(), rest);
        }
    }
}

/// A listener for the latest events gets one message with the latest of all logs, oldest first: as
/// many as wanted, or all if there are fewer.
pub proof fn latest_logs_come_in_one_message<L>(
    count: usize,
    ranges: Seq<BlockRange>,
    logs: Seq<Vec<L>>,
)
    requires
        ranges.len() == logs.len(),
    ensures
        ({
            let all = chronological(log_views(logs));
            let delivered = latest(all, count as nat);
            &&& sent_for(
                consumer_begun::<L>(ConsumerMode::CollectLatest { count }),
                ranges,
                logs,
            ) == seq![MessageView::Data(delivered)]
            &&& delivered.len() == if all.len() < count {
                all.len()
            } else {
                count as nat
            }
        }),
{
    let state = consumer_begun::<L>(ConsumerMode::CollectLatest { count });
    let none = Seq::<Seq<L>>::empty();
    assert(state.collected =~= collected_of(none, count as nat));
    lemma_latest_come_together(state, count, none, ranges, logs);
    assert(none + log_views(logs) =~= log_views(logs));
}

/// A listener who streams gets the logs of each range that has any, in the order of the ranges.
pub proof fn streamed_logs_come_range_by_range<L>(
    state: ConsumerState<L>,
    ranges: Seq<BlockRange>,
    logs: Seq<Vec<L>>,
)
    requires
        state.mode == ConsumerMode::Stream,
        state.phase == ConsumerPhase::Receiving,
        ranges.len() == logs.len(),
    ensures
        sent_for(state, ranges, logs) == log_views(logs).filter(
            |batch: Seq<L>| batch.len() > 0,
        ).map_values(|batch: Seq<L>| MessageView::Data(batch)),
    decreases logs.len(),
{
    let some = |batch: Seq<L>| batch.len() > 0;
    let data = |batch: Seq<L>| MessageView::Data(batch);
    let all = log_views(logs);
    if logs.len() == 0 {
        reveal(Seq::filter);
        assert(all.filter(some).map_values(data) =~= Seq::empty());
    } else {
        let rest = logs.drop_first();
        assert(all =~= seq![logs[0]@] + log_views(rest));
        lemma_filter_first(logs[0]@, log_views(rest), some);
        let next = state.stepped(
            ConsumerEvent::Received(ScannerMessage::Data(ranges[0])),
        ).0.stepped(ConsumerEvent::Logs(Ok(logs[0]))).0;
        if logs[0]@.len() == 0 {
            streamed_logs_come_range_by_range(next, ranges.drop_first(), rest);
        } else {
            let after = next.stepped(ConsumerEvent::Sent(ChannelState::Open)).0;
            streamed_logs_come_range_by_range(after, ranges.drop_first(), rest);
            assert((seq![logs[0]@] + log_views(rest).filter(some)).map_values(data)
                =~= seq![MessageView::Data(logs[0]@)] + log_views(rest).filter(some).map_values(
                data,
            ));
        }
    }
}

proof fn lemma_filter_first<A>(first: A, rest: Seq<A>, keep: spec_fn(A) -> bool)
    ensures
        (seq![first] + rest).filter(keep) == if keep(first) {
            seq![first] + rest.filter(keep)
        } else {
            rest.filter(keep)
        },
    decreases rest.len(),
{
    reveal(Seq::filter);
    let all = seq![first] + rest;
    if rest.len() == 0 {
        assert(all.drop_last() =~= Seq::empty());
        assert(all.drop_last().filter(keep) =~= Seq::empty());
        assert(rest.filter(keep) =~= Seq::empty());
        assert(all.filter(keep) =~= if keep(first) {
            seq![first]
        } else {
            Seq::empty()
        });
    } else {
        assert(all.drop_last() =~= seq![first] + rest.drop_last());
        lemma_filter_first(first, rest.drop_last(), keep);
        assert(all.last() == rest.last());
        assert(all.filter(keep) =~= if keep(first) {
            seq![first] + rest.filter(keep)
        } else {
            rest.filter(keep)
        });
    }
}

/// The logs that are fetched are those of the range received: of all its blocks, and of no other.
pub proof fn logs_of_the_received_range_are_fetched<L>(state: ConsumerState<L>, range: BlockRange)
    requires
        state.phase == ConsumerPhase::Receiving,
    ensures
        ({
            let (next, action) = state.stepped(
                ConsumerEvent::Received(ScannerMessage::Data(range)),
            );
            &&& action matches ActionView::GetLogs(asked)
            &&& asked.start == range.start
            &&& asked.end == range.end
            &&& next.phase == ConsumerPhase::Fetching
            &&& next.mode == state.mode
            &&& next.collected == state.collected
        }),
{
}

/// Whatever the mode, errors and statuses are passed on as they come, and so is the number of
/// messages missed.  Only a reorg has anything forgotten that was collected.
pub proof fn errors_and_statuses_are_passed_on<L>(
    state: ConsumerState<L>,
    error: ScannerError,
    status: ScannerStatus,
    missed: u64,
)
    ensures
        state.phase == ConsumerPhase::Receiving ==> {
            let failed = state.stepped(ConsumerEvent::Received(ScannerMessage::Error(error)));
            let told = state.stepped(ConsumerEvent::Received(ScannerMessage::Status(status)));
            let lagged = state.stepped(ConsumerEvent::Lagged(missed));
            &&& failed.1 == ActionView::<L>::Send(MessageView::Error(error))
            &&& told.1 == ActionView::<L>::Send(MessageView::Status(status))
            &&& lagged.1 == ActionView::<L>::Send(
                MessageView::Error(ScannerError::Lagged(missed)),
            )
            &&& failed.0.collected == state.collected
            &&& lagged.0.collected == state.collected
            &&& status != ScannerStatus::ReorgDetected ==> told.0.collected == state.collected
            &&& status == ScannerStatus::ReorgDetected && state.mode is CollectLatest
                ==> told.0.collected.len() == 0
            &&& failed.0.phase == ConsumerPhase::Sending && failed.0.mode == state.mode
            &&& told.0.phase == ConsumerPhase::Sending && told.0.mode == state.mode
            &&& lagged.0.phase == ConsumerPhase::Sending && lagged.0.mode == state.mode
        },
        state.phase == ConsumerPhase::Fetching ==> {
            let failed = state.stepped(ConsumerEvent::Logs(Err(error)));
            &&& failed.1 == ActionView::<L>::Send(MessageView::Error(error))
            &&& failed.0.collected == state.collected
            &&& failed.0.phase == ConsumerPhase::Sending && failed.0.mode == state.mode
        },
{
}

/// After a message the next range is waited for, as long as somebody listens.  If nobody does, or
/// no more ranges come, what was collected is delivered, oldest first, and then nothing follows.
pub proof fn consumer_goes_on_until_nobody_listens<L>(state: ConsumerState<L>, channel: ChannelState)
    ensures
        state.phase == ConsumerPhase::Sending ==> {
            let (next, action) = state.stepped(ConsumerEvent::Sent(ChannelState::Open));
            &&& action is Receive
            &&& next.phase == ConsumerPhase::Receiving
            &&& next.collected == state.collected
            &&& next.mode == state.mode
        },
        state.phase == ConsumerPhase::Sending && state.mode is Stream ==> {
            let (next, action) = state.stepped(ConsumerEvent::Sent(ChannelState::Closed));
            action is Finish && next.phase == ConsumerPhase::Finished
        },
        state.phase == ConsumerPhase::Sending && state.mode is CollectLatest ==> {
            let (next, action) = state.stepped(ConsumerEvent::Sent(ChannelState::Closed));
            &&& action matches ActionView::Send(MessageView::Data(logs))
            &&& logs.len() == state.collected.len()
            &&& forall|i: int|
                0 <= i < logs.len() ==> #[trigger] logs[i] == state.collected[logs.len() - 1 - i]
            &&& next.phase == ConsumerPhase::Delivering
        },
        state.phase == ConsumerPhase::Receiving && state.mode is CollectLatest ==> {
            let (next, action) = state.stepped(ConsumerEvent::Closed);
            &&& action matches ActionView::Send(MessageView::Data(logs))
            &&& logs.len() == state.collected.len()
            &&& forall|i: int|
                0 <= i < logs.len() ==> #[trigger] logs[i] == state.collected[logs.len() - 1 - i]
            &&& next.phase == ConsumerPhase::Delivering
        },
        state.phase == ConsumerPhase::Receiving && state.mode is Stream ==> {
            let (next, action) = state.stepped(ConsumerEvent::Closed);
            action is Finish && next.phase == ConsumerPhase::Finished
        },
        state.phase == ConsumerPhase::Delivering ==> {
            let (next, action) = state.stepped(ConsumerEvent::Sent(channel));
            action is Finish && next.phase == ConsumerPhase::Finished
        },
{
}

/// Of the logs of a range the newest are collected, newest first, behind those collected before:
/// as many as are still wanted, or all if there are fewer.  As soon as there are enough, they are
/// delivered, oldest first; until then the next range is waited for.
pub proof fn newest_logs_of_a_range_are_collected<L>(
    state: ConsumerState<L>,
    count: usize,
    logs: Vec<L>,
)
    requires
        state.mode == (ConsumerMode::CollectLatest { count }),
        state.phase == ConsumerPhase::Fetching,
        state.collected.len() < count,
    ensures
        ({
            let (next, action) = state.stepped(ConsumerEvent::Logs(Ok(logs)));
            let before = state.collected.len();
            let total = before + logs@.len();
            &&& total < count ==> {
                &&& action is Receive
                &&& next.phase == ConsumerPhase::Receiving
                &&& next.mode == state.mode
                &&& next.collected.len() == total
                &&& forall|i: int|
                    0 <= i < before ==> #[trigger] next.collected[i] == state.collected[i]
                &&& forall|i: int|
                    before <= i < total ==> #[trigger] next.collected[i] == logs@[total - 1 - i]
            }
            &&& total >= count ==> {
                &&& action matches ActionView::Send(MessageView::Data(sent))
                &&& sent.len() == count
                &&& forall|i: int|
                    0 <= i < before ==> #[trigger] sent[count - 1 - i] == state.collected[i]
                &&& forall|i: int|
                    before <= i < count ==> #[trigger] sent[count - 1 - i] == logs@[total - 1 - i]
                &&& next.phase == ConsumerPhase::Delivering
            }
        }),
{
}

/// Events that are not waited for change nothing.
pub proof fn unexpected_events_are_ignored<L>(
    state: ConsumerState<L>,
    message: Message,
    logs: Result<Vec<L>, ScannerError>,
    channel: ChannelState,
    missed: u64,
)
    ensures
        state.phase != ConsumerPhase::Receiving ==> {
            &&& state.stepped(ConsumerEvent::Received(message)) == (
                state,
                ActionView::<L>::Ignore,
            )
            &&& state.stepped(ConsumerEvent::Lagged(missed)) == (state, ActionView::<L>::Ignore)
            &&& state.stepped(ConsumerEvent::Closed) == (state, ActionView::<L>::Ignore)
        },
        state.phase != ConsumerPhase::Fetching ==> state.stepped(ConsumerEvent::Logs(logs)) == (
            state,
            ActionView::<L>::Ignore,
        ),
        state.phase != ConsumerPhase::Sending && state.phase != ConsumerPhase::Delivering
            ==> state.stepped(ConsumerEvent::Sent(channel)) == (state, ActionView::<L>::Ignore),
{
}

/// A consumer begins with nothing collected, in the mode asked for, and waits for a range.
pub proof fn consumer_begins_with_nothing<L>(mode: ConsumerMode)
    ensures
        consumer_begun::<L>(mode).mode == mode,
        consumer_begun::<L>(mode).collected.len() == 0,
        consumer_begun::<L>(mode).phase == ConsumerPhase::Receiving,
{
}

/// Nothing is lost of an action that is seen as a value: neither its kind nor what it carries.
pub proof fn actions_are_seen_as_they_are<L>(
    range: BlockRange,
    logs: Vec<L>,
    error: ScannerError,
    status: ScannerStatus,
)
    ensures
        action_view(ConsumerAction::<L>::GetLogs(range)) == ActionView::<L>::GetLogs(range),
        action_view(ConsumerAction::Send(ScannerMessage::Data(logs))) == ActionView::Send(
            MessageView::Data(logs@),
        ),
        action_view(ConsumerAction::<L>::Send(ScannerMessage::Error(error))) == ActionView::<
            L,
        >::Send(MessageView::Error(error)),
        action_view(ConsumerAction::<L>::Send(ScannerMessage::Status(status))) == ActionView::<
            L,
        >::Send(MessageView::Status(status)),
        action_view(ConsumerAction::<L>::Receive) is Receive,
        action_view(ConsumerAction::<L>::Ignore) is Ignore,
        action_view(ConsumerAction::<L>::Finish) is Finish,
{
}

} // verus!
