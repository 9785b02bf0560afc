//! The subscription service: one subscriber at a time, who asks for live blocks, past blocks,
//! past blocks followed by live ones, or past blocks in reverse.

use super::message::{Message, ScannerMessage, ScannerStatus};
use crate::error::ScannerError;
use crate::types::{
    BlockId, BlockNumHash, BlockNumber, BlockNumberOrTag, BlockRange, ChannelState,
};
use vstd::prelude::*;

verus! {

/// Most messages that may wait for the subscriber.
pub const MAX_BUFFERED_MESSAGES: usize = 50000;

/// Maximum amount of reorged blocks on Ethereum (after this amount of block confirmations, a block
/// is considered final)
pub const DEFAULT_REORG_REWIND_DEPTH: u64 = 64;

/// What a client asks of the service: `S` is where messages go, `R` where the answer goes.
#[derive(Debug)]
pub enum Command<S, R> {
    StreamLive {
        sender: S,
        block_confirmations: u64,
        response: R,
    },
    StreamHistorical {
        sender: S,
        start_height: BlockNumberOrTag,
        end_height: BlockNumberOrTag,
        response: R,
    },
    StreamFrom {
        sender: S,
        start_height: BlockNumberOrTag,
        block_confirmations: u64,
        response: R,
    },
    Rewind {
        sender: S,
        start_height: BlockNumberOrTag,
        end_height: BlockNumberOrTag,
        response: R,
    },
    Unsubscribe {
        response: R,
    },
    Shutdown {
        response: R,
    },
}

impl<S, R> Command<S, R> {
    /// Who is to receive messages, if the command asks for any.
    pub open spec fn subscriber(self) -> Option<S> {
        match self {
            Command::StreamLive { sender, .. } => Some(sender),
            Command::StreamHistorical { sender, .. } => Some(sender),
            Command::StreamFrom { sender, .. } => Some(sender),
            Command::Rewind { sender, .. } => Some(sender),
            Command::Unsubscribe { .. } => None,
            Command::Shutdown { .. } => None,
        }
    }

    /// What is to be done for the command.
    pub open spec fn work(self) -> Work<R> {
        match self {
            Command::StreamLive { block_confirmations, response, .. } => Work::Live {
                block_confirmations,
                response,
            },
            Command::StreamHistorical { start_height, end_height, response, .. } =>
                Work::Historical { start_height, end_height, response },
            Command::StreamFrom { start_height, block_confirmations, response, .. } => Work::Sync {
                start_height,
                block_confirmations,
                response,
            },
            Command::Rewind { start_height, end_height, response, .. } => Work::Rewind {
                start_height,
                end_height,
                response,
            },
            Command::Unsubscribe { response } => Work::Done { response },
            Command::Shutdown { response } => Work::Done { response },
        }
    }
}

/// What is left to do for a command that was accepted, and where the answer goes.
#[derive(Debug)]
pub enum Work<R> {
    /// Stream new blocks.
    Live {
        block_confirmations: u64,
        response: R,
    },
    /// Stream past blocks.
    Historical {
        start_height: BlockNumberOrTag,
        end_height: BlockNumberOrTag,
        response: R,
    },
    /// Stream past blocks, then new ones.
    Sync {
        start_height: BlockNumberOrTag,
        block_confirmations: u64,
        response: R,
    },
    /// Stream past blocks, newest first.
    Rewind {
        start_height: BlockNumberOrTag,
        end_height: BlockNumberOrTag,
        response: R,
    },
    /// Nothing: the answer is that all is well.
    Done {
        response: R,
    },
}

/// The subscription service.
#[derive(Debug)]
pub struct Service<S> {
    /// The size of a batch.
    pub max_block_range: u64,
    /// Where messages go.
    pub subscriber: Option<S>,
    pub websocket_connected: bool,
    /// Messages handed over so far.
    pub processed_count: u64,
    /// Commands that failed so far.
    pub error_count: u64,
    /// Whether the service is to stop.
    pub shutdown: bool,
}

impl<S> Service<S> {
    /// A service without a subscriber.
    pub fn new(max_block_range: u64) -> (service: Self)
        ensures
            service == (Service::<S> {
                max_block_range,
                subscriber: None,
                websocket_connected: false,
                processed_count: 0,
                error_count: 0,
                shutdown: false,
            }),
    {
        Service {
            max_block_range,
            subscriber: None,
            websocket_connected: false,
            processed_count: 0,
            error_count: 0,
            shutdown: false,
        }
    }

    /// Whether a new subscriber can be taken.
    pub fn ensure_no_subscriber(&self) -> (free: Result<(), ScannerError>)
        ensures
            free == (if self.subscriber is Some {
                Err::<(), ScannerError>(ScannerError::MultipleSubscribers)
            } else {
                Ok(())
            }),
    {
        if self.subscriber.is_some() {
            return Err(ScannerError::MultipleSubscribers);
        }
        Ok(())
    }

    /// The service without its subscriber.
    pub open spec fn unsubscribed(self) -> Self {
        if self.subscriber is Some {
            Service { subscriber: None, websocket_connected: false, ..self }
        } else {
            self
        }
    }

    /// Lets the subscriber go, if there is one.
    pub fn handle_unsubscribe(&mut self)
        ensures
            *final(self) == old(self).unsubscribed(),
    {
        if self.subscriber.is_some() {
            self.subscriber = None;
            self.websocket_connected = false;
        }
    }

    /// Whether a command is refused: it brings a subscriber, and there is one already.
    pub open spec fn refuses<R>(self, command: Command<S, R>) -> bool {
        command.subscriber() is Some && self.subscriber is Some
    }

    /// The service after a command.
    pub open spec fn commanded<R>(self, command: Command<S, R>) -> Self {
        if self.refuses(command) {
            self
        } else {
            match command {
                Command::Unsubscribe { .. } => self.unsubscribed(),
                Command::Shutdown { .. } => Service { shutdown: true, ..self.unsubscribed() },
                _ => Service { subscriber: command.subscriber(), ..self },
            }
        }
    }

    /// Accepts a command, or refuses it.
    ///
    /// A command that brings a subscriber is refused if there is one already; the service stays
    /// as it is, and the command is dropped together with the place for its answer.
    pub fn handle_command<R>(&mut self, command: Command<S, R>) -> (work: Result<
        Work<R>,
        ScannerError,
    >)
        ensures
            work == (if old(self).refuses(command) {
                Err::<Work<R>, ScannerError>(ScannerError::MultipleSubscribers)
            } else {
                Ok(command.work())
            }),
            *final(self) == old(self).commanded(command),
    {
        match command {
            Command::StreamLive { sender, block_confirmations, response } => {
                if let Err(e) = self.ensure_no_subscriber() {
                    return Err(e);
                }
                self.subscriber = Some(sender);
                Ok(Work::Live { block_confirmations, response })
            },
            Command::StreamHistorical { sender, start_height, end_height, response } => {
                if let Err(e) = self.ensure_no_subscriber() {
                    return Err(e);
                }
                self.subscriber = Some(sender);
                Ok(Work::Historical { start_height, end_height, response })
            },
            Command::StreamFrom { sender, start_height, block_confirmations, response } => {
                if let Err(e) = self.ensure_no_subscriber() {
                    return Err(e);
                }
                self.subscriber = Some(sender);
                Ok(Work::Sync { start_height, block_confirmations, response })
            },
            Command::Rewind { sender, start_height, end_height, response } => {
                if let Err(e) = self.ensure_no_subscriber() {
                    return Err(e);
                }
                self.subscriber = Some(sender);
                Ok(Work::Rewind { start_height, end_height, response })
            },
            Command::Unsubscribe { response } => {
                self.handle_unsubscribe();
                Ok(Work::Done { response })
            },
            Command::Shutdown { response } => {
                self.shutdown = true;
                self.handle_unsubscribe();
                Ok(Work::Done { response })
            },
        }
    }

    /// Counts a command that failed.
    pub fn record_error(&mut self)
        requires
            old(self).error_count < u64::MAX,
        ensures
            *final(self) == (Service {
                error_count: (old(self).error_count + 1) as u64,
                ..*old(self)
            }),
    {
        self.error_count = self.error_count + 1;
    }

    /// Takes note of what came of a message to the subscriber: one that nobody listens for any
    /// more is the last.
    pub fn send_to_subscriber(&mut self, channel: ChannelState)
        requires
            old(self).processed_count < u64::MAX,
        ensures
            *final(self) == (if old(self).subscriber is None {
                *old(self)
            } else {
                match channel {
                    ChannelState::Closed => old(self).unsubscribed(),
                    ChannelState::Open => Service {
                        processed_count: (old(self).processed_count + 1) as u64,
                        ..*old(self)
                    },
                }
            }),
    {
        if self.subscriber.is_some() {
            if channel.is_closed() {
                self.subscriber = None;
                self.websocket_connected = false;
            } else {
                self.processed_count = self.processed_count + 1;
            }
        }
    }

    /// Hands over the subscriber to a stream that is all it gets.
    pub fn take_subscriber(&mut self) -> (sender: Result<S, ScannerError>)
        ensures
            sender == match old(self).subscriber {
                Some(sender) => Ok::<S, ScannerError>(sender),
                None => Err(ScannerError::ServiceShutdown),
            },
            *final(self) == (Service { subscriber: None, ..*old(self) }),
    {
        match self.subscriber.take() {
            Some(sender) => Ok(sender),
            None => Err(ScannerError::ServiceShutdown),
        }
    }
}

/// What a client learns of its command: the answer, or that the service is shutting down if the
/// command could not be handed over or the place for its answer was dropped.
pub open spec fn outcome_of(
    handed_over: bool,
    answer: Option<Result<(), ScannerError>>,
) -> Result<(), ScannerError> {
    match answer {
        Some(answer) if handed_over => answer,
        _ => Err(ScannerError::ServiceShutdown),
    }
}

/// What a client learns of its command: the answer, or that the service is shutting down if the
/// command could not be handed over or the place for its answer was dropped.
pub fn command_outcome(
    handed_over: bool,
    answer: Option<Result<(), ScannerError>>,
) -> (outcome: Result<(), ScannerError>)
    ensures
        outcome == outcome_of(handed_over, answer),
{
    if !handed_over {
        return Err(ScannerError::ServiceShutdown);
    }
    match answer {
        Some(answer) => answer,
        None => Err(ScannerError::ServiceShutdown),
    }
}

/// The error that says that no such block was found.
pub open spec fn not_found(height: BlockNumberOrTag) -> ScannerError {
    ScannerError::BlockNotFound(BlockId::Number(height))
}

/// The first block of a live stream that begins at the newest block.
///
/// The next block to come is the one behind `latest`; the first to be streamed is the one that it
/// confirms.
pub fn handle_live(latest: BlockNumber, block_confirmations: u64) -> (range_start: BlockNumber)
    requires
        latest < u64::MAX,
    ensures
        range_start == (if latest + 1 >= block_confirmations {
            latest + 1 - block_confirmations
        } else {
            0
        }),
{
    (latest + 1).saturating_sub(block_confirmations)
}

/// The blocks between two blocks, both included, in whichever order they are given.
pub open spec fn between(start: BlockNumber, end: BlockNumber) -> BlockRange {
    if start > end {
        BlockRange { start: end, end: start }
    } else {
        BlockRange { start, end }
    }
}

/// The range to stream of the past, given the numbers of the two blocks that bound it, as far as
/// they were found.  The bounds may come in either order.
pub fn handle_historical(
    start_height: BlockNumberOrTag,
    end_height: BlockNumberOrTag,
    bounds: Result<(Option<BlockNumber>, Option<BlockNumber>), ScannerError>,
) -> (range: Result<BlockRange, ScannerError>)
    ensures
        range == match bounds {
            Err(e) => Err::<BlockRange, ScannerError>(e),
            Ok((None, _)) => Err(not_found(start_height)),
            Ok((Some(_), None)) => Err(not_found(end_height)),
            Ok((Some(start), Some(end))) => Ok(between(start, end)),
        },
{
    let (start, end) = match bounds {
        Ok(bounds) => bounds,
        Err(e) => return Err(e),
    };
    let start: u64 = match start {
        Some(number) => number,
        None => return Err(ScannerError::BlockNotFound(BlockId::Number(start_height))),
    };
    let end: u64 = match end {
        Some(number) => number,
        None => return Err(ScannerError::BlockNotFound(BlockId::Number(end_height))),
    };
    if start > end {
        Ok(BlockRange { start: end, end: start })
    } else {
        Ok(BlockRange { start, end })
    }
}

/// How past blocks are followed by new ones.
#[derive(Clone, Copy, Debug, PartialEq, Eq, Structural)]
pub enum SyncPlan {
    /// There is no past to stream: new blocks from `range_start` on.
    Live {
        range_start: BlockNumber,
    },
    /// The blocks of `history`, meanwhile holding back new blocks from `live_start` on, and then
    /// what is held back, from `cutoff` on.
    HistoryThenLive {
        history: BlockRange,
        live_start: BlockNumber,
        cutoff: BlockNumber,
    },
}

/// The newest block that is confirmed when `latest` is the newest block.
pub open spec fn confirmed_tip(latest: u64, block_confirmations: u64) -> int {
    if latest >= block_confirmations {
        latest - block_confirmations
    } else {
        0
    }
}

/// How the blocks from `start` on are streamed when `latest` is the newest block.
pub open spec fn sync_plan(start: u64, latest: u64, block_confirmations: u64) -> SyncPlan {
    let tip = confirmed_tip(latest, block_confirmations);
    if start > tip {
        SyncPlan::Live { range_start: start }
    } else {
        SyncPlan::HistoryThenLive {
            history: BlockRange { start, end: tip as u64 },
            live_start: (tip + 1) as u64,
            cutoff: tip as u64,
        }
    }
}

/// The number that a stream begins at: that of the block, if it was found, or else that of the
/// block behind the newest one, if that is the one asked for.
pub open spec fn sync_start(
    start_height: BlockNumberOrTag,
    found: Option<BlockNumber>,
    latest: BlockNumber,
) -> Option<BlockNumber> {
    match (found, start_height) {
        (Some(number), _) => Some(number),
        (None, BlockNumberOrTag::Number(number)) if number == latest + 1 => Some(number),
        _ => None,
    }
}

/// Plans a stream of past blocks followed by new ones, given the numbers of the first and of the
/// newest block, as far as they were found.
///
/// The stream may begin at the block that is to come next.
pub fn handle_sync(
    start_height: BlockNumberOrTag,
    block_confirmations: u64,
    blocks: Result<(Option<BlockNumber>, Option<BlockNumber>), ScannerError>,
) -> (plan: Result<SyncPlan, ScannerError>)
    requires
        blocks matches Ok((_, Some(latest))) ==> latest < u64::MAX,
    ensures
        plan == match blocks {
            Err(e) => Err::<SyncPlan, ScannerError>(e),
            Ok((None, None)) => Err(not_found(start_height)),
            Ok((Some(_), None)) => Err(not_found(BlockNumberOrTag::Latest)),
            Ok((found, Some(latest))) => match sync_start(start_height, found, latest) {
                Some(start) => Ok(sync_plan(start, latest, block_confirmations)),
                None => Err(not_found(start_height)),
            },
        },
{
    let (found, latest) = match blocks {
        Ok(blocks) => blocks,
        Err(e) => return Err(e),
    };
    let latest: u64 = match (latest, found) {
        (Some(number), _) => number,
        (None, Some(_)) => return Err(
            ScannerError::BlockNotFound(BlockId::Number(BlockNumberOrTag::Latest)),
        ),
        (None, None) => return Err(ScannerError::BlockNotFound(BlockId::Number(start_height))),
    };
    let start: u64 = match (found, start_height) {
        (Some(number), _) => number,
        (None, BlockNumberOrTag::Number(number)) if number == latest + 1 => number,
        _ => return Err(ScannerError::BlockNotFound(BlockId::Number(start_height))),
    };
    let tip: u64 = latest.saturating_sub(block_confirmations);
    if start > tip {
        return Ok(SyncPlan::Live { range_start: start });
    }
    Ok(
        SyncPlan::HistoryThenLive {
            history: BlockRange { start, end: tip },
            live_start: tip + 1,
            cutoff: tip,
        },
    )
}

/// What follows the past blocks of a plan, given what came of them: the news that what follows is
/// live, before the new blocks that were held back.
pub fn after_history(outcome: Result<(), ScannerError>) -> (next: Result<Message, ScannerError>)
    ensures
        match outcome {
            Ok(_) => next == Ok::<Message, ScannerError>(
                ScannerMessage::Status(ScannerStatus::SwitchingToLive),
            ),
            Err(e) => {
                &&& next matches Err(ScannerError::HistoricalSyncError(cause))
                &&& cause@ == e.text()
            },
        },
{
    match outcome {
        Ok(_) => Ok(ScannerMessage::Status(ScannerStatus::SwitchingToLive)),
        Err(e) => Err(ScannerError::HistoricalSyncError(e.to_text())),
    }
}

/// Two blocks, the newer one first.
pub open spec fn newest_first(start: BlockNumHash, end: BlockNumHash) -> (
    BlockNumHash,
    BlockNumHash,
) {
    if start.number > end.number {
        (start, end)
    } else {
        (end, start)
    }
}

/// The blocks between which to rewind, newest first, given the two blocks that bound the range as
/// far as they were found.  The bounds may come in either order.
pub fn handle_rewind(
    start_height: BlockNumberOrTag,
    end_height: BlockNumberOrTag,
    start: Result<Option<BlockNumHash>, ScannerError>,
    end: Result<Option<BlockNumHash>, ScannerError>,
) -> (bounds: Result<(BlockNumHash, BlockNumHash), ScannerError>)
    ensures
        bounds == match (start, end) {
            (Err(e), _) => Err::<(BlockNumHash, BlockNumHash), ScannerError>(e),
            (Ok(None), _) => Err(not_found(start_height)),
            (Ok(Some(_)), Err(e)) => Err(e),
            (Ok(Some(_)), Ok(None)) => Err(not_found(end_height)),
            (Ok(Some(start)), Ok(Some(end))) => Ok(newest_first(start, end)),
        },
{
    let start: BlockNumHash = match start {
        Ok(Some(block)) => block,
        Ok(None) => return Err(ScannerError::BlockNotFound(BlockId::Number(start_height))),
        Err(e) => return Err(e),
    };
    let end: BlockNumHash = match end {
        Ok(Some(block)) => block,
        Ok(None) => return Err(ScannerError::BlockNotFound(BlockId::Number(end_height))),
        Err(e) => return Err(e),
    };
    if start.number > end.number {
        Ok((start, end))
    } else {
        Ok((end, start))
    }
}

/// The bounds of a range may be given in either order.
pub proof fn bounds_come_in_any_order(start: BlockNumHash, end: BlockNumHash)
    ensures
        between(start.number, end.number) == between(end.number, start.number),
        between(start.number, end.number).start <= between(start.number, end.number).end,
        newest_first(start, end).0.number >= newest_first(start, end).1.number,
        start.number != end.number ==> newest_first(start, end) == newest_first(end, start),
{
}

/// A command that would bring a second subscriber changes nothing, and whoever sent it learns that
/// the service is shutting down: the place for its answer is dropped.
pub proof fn second_subscriber_is_refused<S, R>(service: Service<S>, command: Command<S, R>)
    requires
        service.subscriber is Some,
        command.subscriber() is Some,
    ensures
        service.refuses(command),
        service.commanded(command) == service,
        outcome_of(true, None) == Err::<(), ScannerError>(ScannerError::ServiceShutdown),
{
}

/// Once a client has unsubscribed, the next one is accepted.
pub proof fn next_subscriber_is_accepted<S, R>(
    service: Service<S>,
    leave: Command<S, R>,
    next: Command<S, R>,
)
    requires
        leave is Unsubscribe,
        next.subscriber() is Some,
    ensures
        !service.refuses(leave),
        !service.commanded(leave).refuses(next),
        service.commanded(leave).commanded(next).subscriber == next.subscriber(),
{
}

/// However past and new blocks are put together, the first block is the one asked for: none is
/// left out and none that comes before it is streamed.
pub proof fn sync_begins_at_start(start: u64, latest: u64, block_confirmations: u64)
    requires
        latest < u64::MAX,
    ensures
        match sync_plan(start, latest, block_confirmations) {
            SyncPlan::Live { range_start } => range_start == start,
            SyncPlan::HistoryThenLive { history, live_start, .. } => {
                &&& history.start == start
                &&& history.start <= history.end
                &&& live_start == history.end + 1
            },
        },
{
}

/// The work for a command is of the command's kind, and carries its heights, its confirmations and
/// the place for its answer; the subscriber is the one that the command brings.
pub proof fn work_carries_the_command<S, R>(
    sender: S,
    start_height: BlockNumberOrTag,
    end_height: BlockNumberOrTag,
    block_confirmations: u64,
    response: R,
)
    ensures
        ({
            let command = Command::StreamLive { sender, block_confirmations, response };
            &&& command.subscriber() == Some(sender)
            &&& command.work() matches Work::Live { block_confirmations: count, response: place }
            &&& count == block_confirmations
            &&& place == response
        }),
        ({
            let command = Command::StreamHistorical { sender, start_height, end_height, response };
            &&& command.subscriber() == Some(sender)
            &&& command.work() matches Work::Historical {
                start_height: start,
                end_height: end,
                response: place,
            }
            &&& start == start_height
            &&& end == end_height
            &&& place == response
        }),
        ({
            let command = Command::StreamFrom {
                sender,
                start_height,
                block_confirmations,
                response,
            };
            &&& command.subscriber() == Some(sender)
            &&& command.work() matches Work::Sync {
                start_height: start,
                block_confirmations: count,
                response: place,
            }
            &&& start == start_height
            &&& count == block_confirmations
            &&& place == response
        }),
        ({
            let command = Command::Rewind { sender, start_height, end_height, response };
            &&& command.subscriber() == Some(sender)
            &&& command.work() matches Work::Rewind {
                start_height: start,
                end_height: end,
                response: place,
            }
            &&& start == start_height
            &&& end == end_height
            &&& place == response
        }),
        ({
            let command = Command::<S, R>::Unsubscribe { response };
            &&& command.subscriber() is None
            &&& command.work() matches Work::Done { response: place }
            &&& place == response
        }),
        ({
            let command = Command::<S, R>::Shutdown { response };
            &&& command.subscriber() is None
            &&& command.work() matches Work::Done { response: place }
            &&& place == response
        }),
{
}

/// A service without a subscriber takes the one that a command brings, and stays as it is
/// otherwise.
pub proof fn free_service_takes_the_subscriber<S, R>(
    service: Service<S>,
    command: Command<S, R>,
    sender: S,
)
    requires
        service.subscriber is None,
        command.subscriber() == Some(sender),
    ensures
        !service.refuses(command),
        ({
            let next = service.commanded(command);
            &&& next.subscriber == Some(sender)
            &&& next.max_block_range == service.max_block_range
            &&& next.websocket_connected == service.websocket_connected
            &&& next.processed_count == service.processed_count
            &&& next.error_count == service.error_count
            &&& next.shutdown == service.shutdown
        }),
{
}

/// Whoever leaves, or shuts the service down, is never refused, and leaves no subscriber; only a
/// shutdown stops the service.  Nothing that was counted is forgotten.
pub proof fn leaving_frees_the_service<S, R>(service: Service<S>, response: R)
    ensures
        !service.refuses(Command::<S, R>::Unsubscribe { response }),
        !service.refuses(Command::<S, R>::Shutdown { response }),
        ({
            let left = service.commanded(Command::<S, R>::Unsubscribe { response });
            &&& left.subscriber is None
            &&& left.shutdown == service.shutdown
            &&& left.max_block_range == service.max_block_range
            &&& left.processed_count == service.processed_count
            &&& left.error_count == service.error_count
            &&& service.subscriber is Some ==> !left.websocket_connected
            &&& service.subscriber is None ==> left == service
            &&& left == service.unsubscribed()
        }),
        ({
            let stopped = service.commanded(Command::<S, R>::Shutdown { response });
            &&& stopped.subscriber is None
            &&& stopped.shutdown
            &&& stopped.max_block_range == service.max_block_range
            &&& stopped.processed_count == service.processed_count
            &&& stopped.error_count == service.error_count
        }),
{
}

/// A client learns that all is well exactly if its command was handed over and answered so.  An
/// answer that tells of an error is passed on, and an answer that never comes means that the
/// service is shutting down.
pub proof fn answer_is_passed_on(handed_over: bool, answer: Option<Result<(), ScannerError>>)
    ensures
        outcome_of(handed_over, answer) is Ok <==> handed_over && answer matches Some(Ok(_)),
        handed_over ==> (answer matches Some(Err(error)) ==> outcome_of(handed_over, answer)
            == Err::<(), ScannerError>(error)),
        !handed_over || answer is None ==> outcome_of(handed_over, answer) == Err::<
            (),
            ScannerError,
        >(ScannerError::ServiceShutdown),
{
}

/// The range between two blocks, given in either order, holds the two blocks and those between
/// them, and no other.
pub proof fn range_is_bounded_by_the_two_blocks(first: u64, second: u64, number: int)
    ensures
        between(first, second).start <= number <= between(first, second).end <==> (first <= number
            <= second || second <= number <= first),
{
}

/// Of two blocks none is exchanged for another when the newer one is put first.
pub proof fn newer_block_is_put_first(first: BlockNumHash, second: BlockNumHash)
    ensures
        first.number > second.number ==> newest_first(first, second) == (first, second),
        first.number <= second.number ==> newest_first(first, second) == (second, first),
{
}

/// Past blocks are streamed up to the newest one that has the confirmations asked for, and no
/// further; new blocks follow right behind.  There is no past to stream exactly if the start is
/// not confirmed yet, the very first block excepted.
pub proof fn history_ends_at_the_newest_confirmed_block(
    start: u64,
    latest: u64,
    block_confirmations: u64,
)
    requires
        latest < u64::MAX,
    ensures
        sync_plan(start, latest, block_confirmations) is Live <==> start + block_confirmations
            > latest && start > 0,
        match sync_plan(start, latest, block_confirmations) {
            SyncPlan::Live { range_start } => range_start == start,
            SyncPlan::HistoryThenLive { history, live_start, cutoff } => {
                &&& history.start == start
                &&& latest >= block_confirmations ==> history.end + block_confirmations == latest
                &&& latest < block_confirmations ==> history.end == 0
                &&& live_start == history.end + 1
                &&& cutoff == history.end
            },
        },
{
}

/// A stream begins at the block that was found, whatever was asked for.  If none was found, it
/// begins only at a block asked for by its number, and only if that is the next one to come.
pub proof fn start_is_found_or_comes_next(
    start_height: BlockNumberOrTag,
    found: Option<u64>,
    latest: u64,
)
    ensures
        found matches Some(number) ==> sync_start(start_height, found, latest) == Some(number),
        found is None ==> (sync_start(start_height, found, latest) matches Some(number) ==> number
            == latest + 1 && start_height == BlockNumberOrTag::Number(number)),
        found is None && latest < u64::MAX && start_height == BlockNumberOrTag::Number(
            (latest + 1) as u64,
        ) ==> sync_start(start_height, found, latest) is Some,
{
}

/// The error for a block that was not found names what was asked for.
pub proof fn missing_block_is_named(height: BlockNumberOrTag)
    ensures
        not_found(height) matches ScannerError::BlockNotFound(BlockId::Number(named)) && named
            == height,
{
}

/// What [`handle_sync`] plans for the blocks found: history from the start up to the newest block
/// with the confirmations asked for, or new blocks alone if the start does not have them yet.
pub proof fn planned_history_is_confirmed(
    start_height: BlockNumberOrTag,
    block_confirmations: u64,
    start: u64,
    latest: u64,
    plan: Result<SyncPlan, ScannerError>,
)
    requires
        latest < u64::MAX,
        call_ensures(
            handle_sync,
            (start_height, block_confirmations, Ok((Some(start), Some(latest)))),
            plan,
        ),
    ensures
        match plan {
            Ok(SyncPlan::Live { range_start }) => {
                &&& range_start == start
                &&& start > 0
                &&& start + block_confirmations > latest
            },
            Ok(SyncPlan::HistoryThenLive { history, live_start, cutoff }) => {
                &&& start == 0 || start + block_confirmations <= latest
                &&& history.start == start
                &&& latest >= block_confirmations ==> history.end + block_confirmations == latest
                &&& latest < block_confirmations ==> history.end == 0
                &&& live_start == history.end + 1
                &&& cutoff == history.end
            },
            Err(_) => false,
        },
{
}

/// What [`handle_live`] gives is the block that the next one to come confirms.
pub proof fn next_block_confirms_the_first(latest: u64, block_confirmations: u64, first: u64)
    requires
        latest < u64::MAX,
        call_ensures(handle_live, (latest, block_confirmations), first),
    ensures
        block_confirmations <= latest + 1 ==> first + block_confirmations == latest + 1,
        block_confirmations > latest + 1 ==> first == 0,
{
}

/// What [`handle_historical`] gives is the range between the blocks found; a block that was not
/// found is named, the start first.
pub proof fn history_lies_between_the_blocks_found(
    start_height: BlockNumberOrTag,
    end_height: BlockNumberOrTag,
    start: Option<u64>,
    end: Option<u64>,
    range: Result<BlockRange, ScannerError>,
)
    requires
        call_ensures(handle_historical, (start_height, end_height, Ok((start, end))), range),
    ensures
        start is None ==> range == Err::<BlockRange, ScannerError>(
            ScannerError::BlockNotFound(BlockId::Number(start_height)),
        ),
        start is Some && end is None ==> range == Err::<BlockRange, ScannerError>(
            ScannerError::BlockNotFound(BlockId::Number(end_height)),
        ),
        start is Some && end is Some ==> {
            &&& range matches Ok(range)
            &&& range.start <= range.end
            &&& (range.start == start->0 && range.end == end->0) || (range.start == end->0
                && range.end == start->0)
        },
{
}

/// What [`handle_rewind`] gives are the two blocks found, the newer one first; a block that was not
/// found is named, the start first.
pub proof fn rewind_goes_from_the_newer_block(
    start_height: BlockNumberOrTag,
    end_height: BlockNumberOrTag,
    start: Option<BlockNumHash>,
    end: Option<BlockNumHash>,
    bounds: Result<(BlockNumHash, BlockNumHash), ScannerError>,
)
    requires
        call_ensures(handle_rewind, (start_height, end_height, Ok(start), Ok(end)), bounds),
    ensures
        start is None ==> bounds == Err::<(BlockNumHash, BlockNumHash), ScannerError>(
            ScannerError::BlockNotFound(BlockId::Number(start_height)),
        ),
        start is Some && end is None ==> bounds == Err::<(BlockNumHash, BlockNumHash), ScannerError>(
            ScannerError::BlockNotFound(BlockId::Number(end_height)),
        ),
        start is Some && end is Some ==> {
            &&& bounds matches Ok((newer, older))
            &&& newer.number >= older.number
            &&& (newer == start->0 && older == end->0) || (newer == end->0 && older == start->0)
        },
{
}

} // verus!
