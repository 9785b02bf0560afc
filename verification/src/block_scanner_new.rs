//! A scanner of half-open block ranges: past blocks in batches, then new ones.

#[allow(unused_imports)]
use crate::text;
use crate::text::push_decimal;
use crate::types::{BlockHash, BlockNumHash, BlockNumber, BlockNumberOrTag, ChannelState, TimeSpan};
use std::collections::VecDeque;
use std::ops::Range;
use vstd::prelude::*;
use vstd::string::*;

verus! {

/// Blocks per batch unless set otherwise.
pub const DEFAULT_BLOCKS_READ_PER_EPOCH: usize = 1000;

/// Time between retries unless set otherwise.
pub const DEFAULT_RETRY_INTERVAL: TimeSpan = 12_000_000_000;

/// Confirmations unless set otherwise.
pub const DEFAULT_BLOCK_CONFIRMATIONS: u64 = 0;

/// Most messages that may wait for the subscriber.
pub const MAX_BUFFERED_MESSAGES: usize = 50000;

/// How many blocks a reorg sends the scanner back unless set otherwise.
pub const DEFAULT_REORG_REWIND_DEPTH: u64 = 0;

/// What can go wrong.  A failure from outside is carried as the text that describes it.
#[derive(Debug)]
pub enum BlockScannerError {
    HttpError(String),
    SerializationError(String),
    RpcError(String),
    ChannelError,
    ServiceShutdown,
    MultipleSubscribers,
    HistoricalSyncError(String),
    WebSocketConnectionFailed(usize),
    Eof,
}

impl BlockScannerError {
    /// The error in words.
    pub open spec fn text(self) -> Seq<char> {
        match self {
            BlockScannerError::HttpError(cause) => "HTTP request failed: "@ + cause@,
            BlockScannerError::SerializationError(cause) => "Serialization error: "@ + cause@,
            BlockScannerError::RpcError(cause) => "RPC error: "@ + cause@,
            BlockScannerError::ChannelError => "Channel send error"@,
            BlockScannerError::ServiceShutdown => "Service is shutting down"@,
            BlockScannerError::MultipleSubscribers => "Only one subscriber allowed at a time"@,
            BlockScannerError::HistoricalSyncError(cause) => "Historical sync failed: "@ + cause@,
            BlockScannerError::WebSocketConnectionFailed(attempts) =>
                "WebSocket connection failed after "@ + text::numeral(attempts as nat, 10)
                + " attempts"@,
            BlockScannerError::Eof => "End of block batch"@,
        }
    }

    /// The error in words.
    pub fn to_text(&self) -> (words: String)
        ensures
            words@ == self.text(),
    {
        match self {
            BlockScannerError::HttpError(cause) => labelled("HTTP request failed: ", cause),
            BlockScannerError::SerializationError(cause) => labelled(
                "Serialization error: ",
                cause,
            ),
            BlockScannerError::RpcError(cause) => labelled("RPC error: ", cause),
            BlockScannerError::ChannelError => "Channel send error".to_string(),
            BlockScannerError::ServiceShutdown => "Service is shutting down".to_string(),
            BlockScannerError::MultipleSubscribers =>
                "Only one subscriber allowed at a time".to_string(),
            BlockScannerError::HistoricalSyncError(cause) => labelled(
                "Historical sync failed: ",
                cause,
            ),
            BlockScannerError::WebSocketConnectionFailed(attempts) => {
                let mut words = "WebSocket connection failed after ".to_string();
                push_decimal(&mut words, *attempts as u64);
                words.append(" attempts");
                words
            },
            BlockScannerError::Eof => "End of block batch".to_string(),
        }
    }
}

/// A cause with a label in front.
fn labelled(label: &str, cause: &String) -> (words: String)
    ensures
        words@ == label@ + cause@,
{
    let mut words = label.to_string();
    words.append(cause.as_str());
    words
}

/// What a client asks of the service: `S` is where ranges go, `R` and `T` where answers go.
#[derive(Debug)]
pub enum Command<S, R, T> {
    Subscribe {
        sender: S,
        start_height: BlockNumberOrTag,
        end_height: Option<BlockNumberOrTag>,
        response: R,
    },
    Unsubscribe {
        response: R,
    },
    GetStatus {
        response: T,
    },
    Shutdown {
        response: R,
    },
}

/// A block, by its hash and its height.
#[derive(Clone, Copy, Debug)]
pub struct BlockHashAndNumber {
    pub hash: BlockHash,
    pub number: BlockNumber,
}

impl BlockHashAndNumber {
    /// The block, of which the header is known.
    pub fn from_header(header: BlockNumHash) -> (block: Self)
        ensures
            block == (BlockHashAndNumber { hash: header.hash, number: header.number }),
    {
        BlockHashAndNumber { hash: header.hash, number: header.number }
    }
}

/// How the service is doing.
#[derive(Clone, Copy, Debug)]
pub struct ServiceStatus {
    pub is_subscribed: bool,
    pub last_synced_block: Option<BlockHashAndNumber>,
    pub websocket_connected: bool,
    pub processed_count: u64,
    pub error_count: u64,
}

/// How to reach the node.
#[derive(Debug)]
pub enum ConnectionType {
    /// Over a WebSocket at this address.
    Ws(String),
    /// Over an IPC socket at this path.
    Ipc(String),
}

/// The settings of a scanner that knows its node.
#[derive(Debug)]
pub struct ConnectedBlockScanner {
    pub connection: ConnectionType,
    pub blocks_read_per_epoch: usize,
    pub reorg_rewind_depth: u64,
    pub retry_interval: TimeSpan,
    pub block_confirmations: u64,
}

/// The settings of a scanner.
#[derive(Clone, Copy, Debug, PartialEq, Eq, Structural)]
pub struct BlockScanner {
    pub blocks_read_per_epoch: usize,
    pub reorg_rewind_depth: u64,
    pub retry_interval: TimeSpan,
    pub block_confirmations: u64,
}

impl Default for BlockScanner {
    fn default() -> (scanner: Self)
        ensures
            scanner == default_scanner(),
    {
        Self::new()
    }
}

/// The settings that hold unless set otherwise.
pub open spec fn default_scanner() -> BlockScanner {
    BlockScanner {
        blocks_read_per_epoch: DEFAULT_BLOCKS_READ_PER_EPOCH,
        reorg_rewind_depth: DEFAULT_REORG_REWIND_DEPTH,
        retry_interval: DEFAULT_RETRY_INTERVAL,
        block_confirmations: DEFAULT_BLOCK_CONFIRMATIONS,
    }
}

impl BlockScanner {
    /// The settings that hold unless set otherwise.
    #[must_use]
    pub fn new() -> (scanner: Self)
        ensures
            scanner == default_scanner(),
    {
        BlockScanner {
            blocks_read_per_epoch: DEFAULT_BLOCKS_READ_PER_EPOCH,
            reorg_rewind_depth: DEFAULT_REORG_REWIND_DEPTH,
            retry_interval: DEFAULT_RETRY_INTERVAL,
            block_confirmations: DEFAULT_BLOCK_CONFIRMATIONS,
        }
    }

    /// Sets how many blocks make a batch.
    #[must_use]
    pub fn with_blocks_read_per_epoch(&mut self, blocks_read_per_epoch: usize) -> (scanner:
        &mut Self)
        ensures
            *scanner == (BlockScanner { blocks_read_per_epoch, ..*old(self) }),
            *final(self) == *final(scanner),
    {
        self.blocks_read_per_epoch = blocks_read_per_epoch;
        self
    }

    /// Sets how many blocks a reorg sends the scanner back.
    #[must_use]
    pub fn with_reorg_rewind_depth(&mut self, reorg_rewind_depth: u64) -> (scanner: &mut Self)
        ensures
            *scanner == (BlockScanner { reorg_rewind_depth, ..*old(self) }),
            *final(self) == *final(scanner),
    {
        self.reorg_rewind_depth = reorg_rewind_depth;
        self
    }

    /// Sets the time between retries.
    #[must_use]
    pub fn with_retry_interval(&mut self, retry_interval: TimeSpan) -> (scanner: &mut Self)
        ensures
            *scanner == (BlockScanner { retry_interval, ..*old(self) }),
            *final(self) == *final(scanner),
    {
        self.retry_interval = retry_interval;
        self
    }

    /// Sets how many confirmations a block needs.
    #[must_use]
    pub fn with_block_confirmations(&mut self, block_confirmations: u64) -> (scanner: &mut Self)
        ensures
            *scanner == (BlockScanner { block_confirmations, ..*old(self) }),
            *final(self) == *final(scanner),
    {
        self.block_confirmations = block_confirmations;
        self
    }

    /// A scanner with these settings and a node behind a WebSocket.
    #[must_use]
    pub fn connect_ws(&self, ws_url: String) -> (connected: ConnectedBlockScanner)
        ensures
            connected == (ConnectedBlockScanner {
                connection: ConnectionType::Ws(ws_url),
                blocks_read_per_epoch: self.blocks_read_per_epoch,
                reorg_rewind_depth: self.reorg_rewind_depth,
                retry_interval: self.retry_interval,
                block_confirmations: self.block_confirmations,
            }),
    {
        ConnectedBlockScanner {
            connection: ConnectionType::Ws(ws_url),
            blocks_read_per_epoch: self.blocks_read_per_epoch,
            reorg_rewind_depth: self.reorg_rewind_depth,
            retry_interval: self.retry_interval,
            block_confirmations: self.block_confirmations,
        }
    }

    /// A scanner with these settings and a node behind an IPC socket.
    #[must_use]
    pub fn connect_ipc(&self, ipc_path: String) -> (connected: ConnectedBlockScanner)
        ensures
            connected == (ConnectedBlockScanner {
                connection: ConnectionType::Ipc(ipc_path),
                blocks_read_per_epoch: self.blocks_read_per_epoch,
                reorg_rewind_depth: self.reorg_rewind_depth,
                retry_interval: self.retry_interval,
                block_confirmations: self.block_confirmations,
            }),
    {
        ConnectedBlockScanner {
            connection: ConnectionType::Ipc(ipc_path),
            blocks_read_per_epoch: self.blocks_read_per_epoch,
            reorg_rewind_depth: self.reorg_rewind_depth,
            retry_interval: self.retry_interval,
            block_confirmations: self.block_confirmations,
        }
    }
}

/// What is left to do for a command, and what it is answered.
#[derive(Debug)]
pub enum Work<R, T> {
    /// Stream the blocks from `start_height` on to `end_height`, if there is one; then answer.
    Sync {
        start_height: BlockNumberOrTag,
        end_height: Option<BlockNumberOrTag>,
        response: R,
    },
    /// Answer with the outcome.
    Answer {
        outcome: Result<(), BlockScannerError>,
        response: R,
    },
    /// Answer with the status.
    Report {
        status: ServiceStatus,
        response: T,
    },
}

/// The service that streams to one subscriber.
#[derive(Debug)]
pub struct BlockScannerService<S> {
    pub subscriber: Option<S>,
    /// The block up to which past blocks are streamed.
    pub current: Option<BlockHashAndNumber>,
    pub websocket_connected: bool,
    pub processed_count: u64,
    pub error_count: u64,
    pub shutdown: bool,
}

impl<S> BlockScannerService<S> {
    /// A service without a subscriber.
    pub fn new() -> (service: Self)
        ensures
            service == (BlockScannerService::<S> {
                subscriber: None,
                current: None,
                websocket_connected: false,
                processed_count: 0,
                error_count: 0,
                shutdown: false,
            }),
    {
        BlockScannerService {
            subscriber: None,
            current: None,
            websocket_connected: false,
            processed_count: 0,
            error_count: 0,
            shutdown: false,
        }
    }

    /// The service without its subscriber.
    pub open spec fn unsubscribed(self) -> Self {
        if self.subscriber is Some {
            BlockScannerService { subscriber: None, websocket_connected: false, ..self }
        } else {
            self
        }
    }

    /// How the service is doing.
    pub open spec fn status(self) -> ServiceStatus {
        ServiceStatus {
            is_subscribed: self.subscriber is Some,
            last_synced_block: self.current,
            websocket_connected: self.websocket_connected,
            processed_count: self.processed_count,
            error_count: self.error_count,
        }
    }

    /// Lets the subscriber go, if there is one.
    pub fn handle_unsubscribe(&mut self)
        ensures
            *final(self) == old(self).unsubscribed(),
    {
        if self.subscriber.is_some() {
            self.subscriber = None;
            self.websocket_connected = false;
        }
    }

    /// How the service is doing.
    pub fn get_status(&self) -> (status: ServiceStatus)
        ensures
            status == self.status(),
    {
        ServiceStatus {
            is_subscribed: self.subscriber.is_some(),
            last_synced_block: self.current,
            websocket_connected: self.websocket_connected,
            processed_count: self.processed_count,
            error_count: self.error_count,
        }
    }

    /// Takes in a command.  A subscriber that comes while there is one is told that there is.
    pub fn handle_command<R, T>(&mut self, command: Command<S, R, T>) -> (work: Work<R, T>)
        ensures
            match command {
                Command::Subscribe { sender, start_height, end_height, response } => if old(
                    self,
                ).subscriber is Some {
                    &&& work == Work::<R, T>::Answer {
                        outcome: Err(BlockScannerError::MultipleSubscribers),
                        response,
                    }
                    &&& *final(self) == *old(self)
                } else {
                    &&& work == Work::<R, T>::Sync { start_height, end_height, response }
                    &&& *final(self) == (BlockScannerService {
                        subscriber: Some(sender),
                        ..*old(self)
                    })
                },
                Command::Unsubscribe { response } => {
                    &&& work == Work::<R, T>::Answer { outcome: Ok(()), response }
                    &&& *final(self) == old(self).unsubscribed()
                },
                Command::GetStatus { response } => {
                    &&& work == Work::<R, T>::Report { status: old(self).status(), response }
                    &&& *final(self) == *old(self)
                },
                Command::Shutdown { response } => {
                    &&& work == Work::<R, T>::Answer { outcome: Ok(()), response }
                    &&& *final(self) == (BlockScannerService {
                        shutdown: true,
                        ..old(self).unsubscribed()
                    })
                },
            },
    {
        match command {
            Command::Subscribe { sender, start_height, end_height, response } => {
                if self.subscriber.is_some() {
                    return Work::Answer {
                        outcome: Err(BlockScannerError::MultipleSubscribers),
                        response,
                    };
                }
                self.subscriber = Some(sender);
                Work::Sync { start_height, end_height, response }
            },
            Command::Unsubscribe { response } => {
                self.handle_unsubscribe();
                Work::Answer { outcome: Ok(()), response }
            },
            Command::GetStatus { response } => Work::Report { status: self.get_status(), response },
            Command::Shutdown { response } => {
                self.shutdown = true;
                self.handle_unsubscribe();
                Work::Answer { outcome: Ok(()), response }
            },
        }
    }

    /// Takes note of what came of a message to the subscriber.
    pub fn send_to_subscriber(&mut self, channel: ChannelState)
        requires
            old(self).processed_count < u64::MAX,
        ensures
            *final(self) == (if old(self).subscriber is None {
                *old(self)
            } else {
                match channel {
                    ChannelState::Closed => old(self).unsubscribed(),
                    ChannelState::Open => BlockScannerService {
                        processed_count: (old(self).processed_count + 1) as u64,
                        ..*old(self)
                    },
                }
            }),
    {
        if self.subscriber.is_some() {
            if channel.is_closed() {
                self.subscriber = None;
                self.websocket_connected = false;
            } else {
                self.processed_count = self.processed_count + 1;
            }
        }
    }
}

/// The block up to which past blocks are streamed: the one asked for, or the newest.
pub fn sync_end_height(end_height: Option<BlockNumberOrTag>) -> (height: BlockNumberOrTag)
    ensures
        height == match end_height {
            Some(height) => height,
            None => BlockNumberOrTag::Latest,
        },
{
    match end_height {
        Some(height) => height,
        None => BlockNumberOrTag::Latest,
    }
}

/// How past blocks are followed by what comes next.
#[derive(Clone, Copy, Debug, PartialEq, Eq, Structural)]
pub struct Transition {
    /// Whether new blocks are held back meanwhile, and streamed then.
    pub live: bool,
    /// The last of the past blocks.
    pub cutoff: BlockNumber,
}

/// What follows past blocks that were streamed.
#[derive(Clone, Copy, Debug, PartialEq, Eq, Structural)]
pub enum Continuation {
    /// The new blocks that were held back, from `cutoff` on, and those that follow.
    Forward {
        cutoff: BlockNumber,
    },
    /// The news that nothing follows.
    SendEof,
}

impl Transition {
    /// How the past blocks up to `cutoff` are followed by what comes next: by nothing if an end was
    /// asked for, and otherwise by new blocks.
    pub fn sync_with_transition(
        end_height: Option<BlockNumberOrTag>,
        cutoff: BlockNumber,
    ) -> (transition: Self)
        ensures
            transition == (Transition { live: end_height is None, cutoff }),
    {
        Transition { live: end_height.is_none(), cutoff }
    }

    /// What follows, given what came of the past blocks.
    pub fn after_history(&self, outcome: Result<(), String>) -> (next: Result<
        Continuation,
        BlockScannerError,
    >)
        ensures
            next == match outcome {
                Err(cause) => Err::<Continuation, BlockScannerError>(
                    BlockScannerError::HistoricalSyncError(cause),
                ),
                Ok(_) => Ok(
                    if self.live {
                        Continuation::Forward { cutoff: self.cutoff }
                    } else {
                        Continuation::SendEof
                    },
                ),
            },
    {
        match outcome {
            Err(cause) => Err(BlockScannerError::HistoricalSyncError(cause)),
            Ok(_) => if self.live {
                Ok(Continuation::Forward { cutoff: self.cutoff })
            } else {
                Ok(Continuation::SendEof)
            },
        }
    }
}

/// Where the streaming of past blocks stands.
#[derive(Debug)]
pub enum SyncPhase {
    /// Whether the current block is still on the chain is being found out.
    Checking,
    /// It is not; the number of the newest block is being asked for.
    AskingHead,
    /// The block to go back to is being fetched.
    FetchingRewound {
        height: BlockNumber,
    },
    /// The block behind the batch is being fetched.
    FetchingEnd {
        batch_to: BlockNumber,
    },
    /// The batch is being sent; `end` is the block behind it.
    Sending {
        batch_to: BlockNumber,
        end: BlockHashAndNumber,
    },
    /// Streaming is over.
    Finished,
}

/// What the streaming of past blocks waits for, and hears.
#[derive(Debug)]
pub enum SyncEvent {
    /// Whether the chain has a block of the hash asked about.
    Known(Result<bool, BlockScannerError>),
    /// The number of the newest block.
    Head(Result<BlockNumber, BlockScannerError>),
    /// The block that was to be fetched.
    Fetched(Result<BlockNumHash, BlockScannerError>),
    /// The batch was sent, whether or not anybody listened.
    Sent,
}

/// What the streaming of past blocks asks for.
#[derive(Debug)]
pub enum SyncAction {
    /// Find out whether the chain has a block of this hash.
    CheckHash(BlockHash),
    /// Find out the number of the newest block.
    AskHead,
    /// Fetch the block of this number.
    Fetch(BlockNumber),
    /// Send this range of blocks.
    Send(Range<BlockNumber>),
    /// Nothing; streaming is over.
    Finish(Result<(), BlockScannerError>),
}

/// The block to go back to after a reorg: so many blocks before the current one, but not behind
/// the newest.
pub open spec fn rewound_to(current: u64, reorg_rewind_depth: u64, head: u64) -> u64 {
    let back = if current <= reorg_rewind_depth {
        0
    } else {
        current - reorg_rewind_depth
    };
    if head < back {
        head
    } else {
        back as u64
    }
}

/// The block behind the batch that begins at `current`.
pub open spec fn batch_end(current: u64, blocks_read_per_epoch: usize, end: u64) -> u64 {
    if current + blocks_read_per_epoch > end {
        end
    } else {
        (current + blocks_read_per_epoch) as u64
    }
}

/// The block to go back to after a reorg.
pub fn rewind_height(
    current: BlockNumber,
    reorg_rewind_depth: u64,
    head: BlockNumber,
) -> (height: BlockNumber)
    ensures
        height == rewound_to(current, reorg_rewind_depth, head),
{
    let back: u64 = if current <= reorg_rewind_depth {
        0
    } else {
        current - reorg_rewind_depth
    };
    if head < back {
        head
    } else {
        back
    }
}

/// The streaming of the past blocks from a start up to, but without, an end.
///
/// Before each batch the current block is checked.  If it has left the chain, the batch begins so
/// many blocks earlier.
#[derive(Debug)]
pub struct HistoricalSync {
    pub blocks_read_per_epoch: usize,
    pub reorg_rewind_depth: u64,
    /// The first block of the next batch.
    pub current: BlockHashAndNumber,
    /// The block behind the last one to stream.
    pub end: BlockNumber,
    pub phase: SyncPhase,
}

impl HistoricalSync {
    /// The state in which the next batch begins, or in which all batches are sent.
    pub open spec fn next_batch(self, current: BlockHashAndNumber) -> HistoricalSync {
        HistoricalSync {
            current,
            phase: if current.number < self.end {
                SyncPhase::Checking
            } else {
                SyncPhase::Finished
            },
            ..self
        }
    }

    /// The state in which the batch that begins at `current` is made.
    pub open spec fn batch_from(self, current: BlockHashAndNumber) -> HistoricalSync {
        HistoricalSync {
            current,
            phase: SyncPhase::FetchingEnd {
                batch_to: batch_end(current.number, self.blocks_read_per_epoch, self.end),
            },
            ..self
        }
    }

    /// The state after an event.  An event that is not waited for changes nothing.
    pub open spec fn after(self, event: SyncEvent) -> HistoricalSync {
        match (self.phase, event) {
            (SyncPhase::Checking, SyncEvent::Known(known)) => match known {
                Ok(true) => self.batch_from(self.current),
                Ok(false) => HistoricalSync { phase: SyncPhase::AskingHead, ..self },
                Err(_) => HistoricalSync { phase: SyncPhase::Finished, ..self },
            },
            (SyncPhase::AskingHead, SyncEvent::Head(head)) => HistoricalSync {
                phase: match head {
                    Ok(head) => SyncPhase::FetchingRewound {
                        height: rewound_to(self.current.number, self.reorg_rewind_depth, head),
                    },
                    Err(_) => SyncPhase::Finished,
                },
                ..self
            },
            (SyncPhase::FetchingRewound { .. }, SyncEvent::Fetched(fetched)) => match fetched {
                Ok(block) => self.batch_from(
                    BlockHashAndNumber { hash: block.hash, number: block.number },
                ),
                Err(_) => HistoricalSync { phase: SyncPhase::Finished, ..self },
            },
            (SyncPhase::FetchingEnd { batch_to }, SyncEvent::Fetched(fetched)) => HistoricalSync {
                phase: match fetched {
                    Ok(block) => SyncPhase::Sending {
                        batch_to,
                        end: BlockHashAndNumber { hash: block.hash, number: block.number },
                    },
                    Err(_) => SyncPhase::Finished,
                },
                ..self
            },
            (SyncPhase::Sending { end, .. }, SyncEvent::Sent) => self.next_batch(end),
            _ => self,
        }
    }

    /// What is asked for after an event.
    pub open spec fn reaction(self, event: SyncEvent) -> SyncAction {
        match (self.phase, event) {
            (SyncPhase::Checking, SyncEvent::Known(Err(e))) => SyncAction::Finish(Err(e)),
            (SyncPhase::AskingHead, SyncEvent::Head(Err(e))) => SyncAction::Finish(Err(e)),
            (SyncPhase::FetchingRewound { .. }, SyncEvent::Fetched(Err(e))) => SyncAction::Finish(
                Err(e),
            ),
            (SyncPhase::FetchingEnd { .. }, SyncEvent::Fetched(Err(e))) => SyncAction::Finish(
                Err(e),
            ),
            _ => self.after(event).action(),
        }
    }

    /// What is asked for in the present phase.
    pub open spec fn action(self) -> SyncAction {
        match self.phase {
            SyncPhase::Checking => SyncAction::CheckHash(self.current.hash),
            SyncPhase::AskingHead => SyncAction::AskHead,
            SyncPhase::FetchingRewound { height } => SyncAction::Fetch(height),
            SyncPhase::FetchingEnd { batch_to } => SyncAction::Fetch(batch_to),
            SyncPhase::Sending { batch_to, .. } => SyncAction::Send(
                Range { start: self.current.number, end: batch_to },
            ),
            SyncPhase::Finished => SyncAction::Finish(Ok(())),
        }
    }

    /// Begins to stream the blocks from `start` up to, but without, `end`.
    pub fn sync_historical_data(
        blocks_read_per_epoch: usize,
        reorg_rewind_depth: u64,
        start: BlockNumHash,
        end: BlockNumHash,
    ) -> (sync: Self)
        ensures
            sync == sync_begun(blocks_read_per_epoch, reorg_rewind_depth, start, end.number),
    {
        let current = BlockHashAndNumber::from_header(start);
        HistoricalSync {
            blocks_read_per_epoch,
            reorg_rewind_depth,
            current,
            end: end.number,
            phase: if current.number < end.number {
                SyncPhase::Checking
            } else {
                SyncPhase::Finished
            },
        }
    }

    /// Makes the batch that begins at `current`.
    fn begin_batch(&mut self, current: BlockHashAndNumber)
        ensures
            *final(self) == old(self).batch_from(current),
    {
        let blocks: u64 = self.blocks_read_per_epoch as u64;
        let batch_to: u64 = if current.number >= self.end || blocks > self.end - current.number {
            self.end
        } else {
            current.number + blocks
        };
        self.current = current;
        self.phase = SyncPhase::FetchingEnd { batch_to };
    }

    /// What is to be done next.
    pub fn next_action(&self) -> (action: SyncAction)
        ensures
            action == self.action(),
    {
        match &self.phase {
            SyncPhase::Checking => SyncAction::CheckHash(self.current.hash),
            SyncPhase::AskingHead => SyncAction::AskHead,
            SyncPhase::FetchingRewound { height } => SyncAction::Fetch(*height),
            SyncPhase::FetchingEnd { batch_to } => SyncAction::Fetch(*batch_to),
            SyncPhase::Sending { batch_to, .. } => SyncAction::Send(
                Range { start: self.current.number, end: *batch_to },
            ),
            SyncPhase::Finished => SyncAction::Finish(Ok(())),
        }
    }

    /// Takes in what came of the last action, and says what is to be done next.
    pub fn step(&mut self, event: SyncEvent) -> (action: SyncAction)
        ensures
            *final(self) == old(self).after(event),
            action == old(self).reaction(event),
    {
        match (&self.phase, event) {
            (SyncPhase::Checking, SyncEvent::Known(known)) => match known {
                Ok(known) => {
                    if known {
                        self.begin_batch(self.current);
                    } else {
                        self.phase = SyncPhase::AskingHead;
                    }
                },
                Err(e) => {
                    self.phase = SyncPhase::Finished;
                    return SyncAction::Finish(Err(e));
                },
            },
            (SyncPhase::AskingHead, SyncEvent::Head(head)) => match head {
                Ok(head) => {
                    let height: u64 = rewind_height(
                        self.current.number,
                        self.reorg_rewind_depth,
                        head,
                    );
                    self.phase = SyncPhase::FetchingRewound { height };
                },
                Err(e) => {
                    self.phase = SyncPhase::Finished;
                    return SyncAction::Finish(Err(e));
                },
            },
            (SyncPhase::FetchingRewound { .. }, SyncEvent::Fetched(fetched)) => match fetched {
                Ok(block) => {
                    self.begin_batch(BlockHashAndNumber::from_header(block));
                },
                Err(e) => {
                    self.phase = SyncPhase::Finished;
                    return SyncAction::Finish(Err(e));
                },
            },
            (SyncPhase::FetchingEnd { batch_to }, SyncEvent::Fetched(fetched)) => match fetched {
                Ok(block) => {
                    self.phase = SyncPhase::Sending {
                        batch_to: *batch_to,
                        end: BlockHashAndNumber::from_header(block),
                    };
                },
                Err(e) => {
                    self.phase = SyncPhase::Finished;
                    return SyncAction::Finish(Err(e));
                },
            },
            (SyncPhase::Sending { end, .. }, SyncEvent::Sent) => {
                let current: BlockHashAndNumber = *end;
                self.current = current;
                self.phase = if current.number < self.end {
                    SyncPhase::Checking
                } else {
                    SyncPhase::Finished
                };
            },
            _ => {},
        }
        self.next_action()
    }
}

/// The state in which the streaming of past blocks begins.
pub open spec fn sync_begun(
    blocks_read_per_epoch: usize,
    reorg_rewind_depth: u64,
    start: BlockNumHash,
    end: u64,
) -> HistoricalSync {
    HistoricalSync {
        blocks_read_per_epoch,
        reorg_rewind_depth,
        current: BlockHashAndNumber { hash: start.hash, number: start.number },
        end,
        phase: SyncPhase::Finished,
    }.next_batch(BlockHashAndNumber { hash: start.hash, number: start.number })
}

/// The new blocks, held back while past ones are streamed.
#[derive(Clone, Copy, Debug, PartialEq, Eq, Structural)]
pub struct LiveBuffer {
    /// The first block not held back yet.
    pub current: BlockNumber,
}

impl LiveBuffer {
    /// The range to hold back when block `incoming` comes.
    pub open spec fn held(self, incoming: u64) -> Option<Range<u64>> {
        if self.current == incoming {
            None
        } else {
            Some(Range { start: self.current, end: (incoming + 1) as u64 })
        }
    }

    /// The buffer after block `incoming`.
    pub open spec fn after(self, incoming: u64) -> LiveBuffer {
        if self.current == incoming {
            self
        } else {
            LiveBuffer { current: (incoming + 1) as u64 }
        }
    }

    /// Takes in a new block, and gives the range to hold back: all blocks up to the new one, the
    /// new one included.  A block that is just the next one waits for its successor.
    pub fn websocket_buffer_task(&mut self, incoming: BlockNumber) -> (range: Option<
        Range<BlockNumber>,
    >)
        requires
            incoming < u64::MAX,
        ensures
            range == old(self).held(incoming),
            *final(self) == old(self).after(incoming),
    {
        if self.current == incoming {
            return None;
        }
        let range = Range { start: self.current, end: incoming + 1 };
        self.current = incoming + 1;
        Some(range)
    }
}

/// What is forwarded of a range held back: its blocks from `cutoff` on.
pub open spec fn forwarded(range: Range<u64>, cutoff: u64) -> Option<Range<u64>> {
    if range.start >= cutoff {
        Some(range)
    } else if range.end > cutoff {
        Some(Range { start: cutoff, end: range.end })
    } else {
        None
    }
}

/// What is forwarded of ranges held back, in order.
pub open spec fn all_forwarded(ranges: Seq<Range<u64>>, cutoff: u64) -> Seq<Range<u64>>
    decreases ranges.len(),
{
    if ranges.len() == 0 {
        Seq::empty()
    } else {
        let before = all_forwarded(ranges.drop_last(), cutoff);
        match forwarded(ranges.last(), cutoff) {
            Some(range) => before.push(range),
            None => before,
        }
    }
}

/// What is forwarded of a range held back.
pub fn forward_buffered(range: Range<BlockNumber>, cutoff: BlockNumber) -> (kept: Option<
    Range<BlockNumber>,
>)
    ensures
        kept == forwarded(range, cutoff),
{
    if range.start >= cutoff {
        Some(range)
    } else if range.end > cutoff {
        Some(Range { start: cutoff, end: range.end })
    } else {
        None
    }
}

/// What is forwarded of ranges held back, in order.
pub fn process_buffered_messages(
    buffer: VecDeque<Range<BlockNumber>>,
    cutoff: BlockNumber,
) -> (kept: Vec<Range<BlockNumber>>)
    ensures
        kept@ == all_forwarded(buffer@, cutoff),
{
    let ghost all = buffer@;
    let mut buffer = buffer;
    let mut kept: Vec<Range<BlockNumber>> = Vec::new();
    assert(kept@ =~= all_forwarded(all.take(0), cutoff));
    while buffer.len() > 0
        invariant
            buffer@.len() <= all.len(),
            buffer@ == all.skip(all.len() - buffer@.len()),
            kept@ == all_forwarded(all.take(all.len() - buffer@.len()), cutoff),
        decreases buffer.len(),
    {
        let ghost done = all.len() - buffer@.len();
        let range = buffer.pop_front().unwrap();
        assert(all.take(done + 1).drop_last() =~= all.take(done));
        assert(all.take(done + 1).last() == range);
        assert(buffer@ =~= all.skip(done + 1));
        match forward_buffered(range, cutoff) {
            Some(range) => {
                kept.push(range);
            },
            None => {},
        }
    }
    assert(all.take(all.len() as int) =~= all);
    kept
}

/// What a client learns of a command: the answer, or that the service is shutting down if the
/// command could not be handed over or the place for its answer was dropped.
pub fn command_outcome<A>(handed_over: bool, answer: Option<A>) -> (outcome: Result<
    A,
    BlockScannerError,
>)
    ensures
        outcome == match answer {
            Some(answer) if handed_over => Ok::<A, BlockScannerError>(answer),
            _ => Err(BlockScannerError::ServiceShutdown),
        },
{
    if !handed_over {
        return Err(BlockScannerError::ServiceShutdown);
    }
    match answer {
        Some(answer) => Ok(answer),
        None => Err(BlockScannerError::ServiceShutdown),
    }
}

/// What happens when all goes well: no block leaves the chain, and blocks have the given hashes.
pub open spec fn calm_event(action: SyncAction, hashes: spec_fn(u64) -> BlockHash) -> SyncEvent {
    match action {
        SyncAction::CheckHash(_) => SyncEvent::Known(Ok(true)),
        SyncAction::Fetch(number) => SyncEvent::Fetched(
            Ok(BlockNumHash { number, hash: hashes(number) }),
        ),
        _ => SyncEvent::Sent,
    }
}

/// The ranges sent from `sync` on in the next `steps` steps when all goes well.
pub open spec fn calm_ranges(
    sync: HistoricalSync,
    hashes: spec_fn(u64) -> BlockHash,
    steps: nat,
) -> Seq<Range<u64>>
    decreases steps,
{
    let action = sync.action();
    if steps == 0 || action is Finish {
        Seq::empty()
    } else {
        let rest = calm_ranges(
            sync.after(calm_event(action, hashes)),
            hashes,
            (steps - 1) as nat,
        );
        match action {
            SyncAction::Send(range) => seq![range] + rest,
            _ => rest,
        }
    }
}

/// Whether `ranges` are the blocks from `low` up to, but without, `high`, each once and in order;
/// none of them is empty.
pub open spec fn adjoining(ranges: Seq<Range<u64>>, low: int, high: int) -> bool {
    if low >= high {
        ranges.len() == 0
    } else {
        &&& ranges.len() >= 1
        &&& ranges[0].start == low
        &&& ranges.last().end == high
        &&& forall|i: int|
            0 <= i < ranges.len() ==> (#[trigger] ranges[i]).start < ranges[i].end
        &&& forall|i: int, j: int|
            #![trigger ranges[i], ranges[j]]
            0 <= i && j == i + 1 && j < ranges.len() ==> ranges[j].start == ranges[i].end
    }
}

/// Whether `ranges` are the blocks from `low` up to, but without, `high`, in order and in batches
/// that are neither empty nor larger than `max`.
pub open spec fn half_open_tiles(ranges: Seq<Range<u64>>, low: int, high: int, max: int) -> bool {
    &&& adjoining(ranges, low, high)
    &&& forall|i: int|
        0 <= i < ranges.len() ==> (#[trigger] ranges[i]).end - ranges[i].start <= max
}

/// When all goes well, the blocks from the start up to, but without, the end are streamed, each
/// once and in order.
pub proof fn calm_history_is_streamed_once(
    sync: HistoricalSync,
    hashes: spec_fn(u64) -> BlockHash,
    steps: nat,
)
    requires
        sync.blocks_read_per_epoch >= 1,
        sync.phase == (if sync.current.number < sync.end {
            SyncPhase::Checking
        } else {
            SyncPhase::Finished
        }),
        steps >= 3 * (sync.end - sync.current.number),
    ensures
        half_open_tiles(
            calm_ranges(sync, hashes, steps),
            sync.current.number as int,
            sync.end as int,
            sync.blocks_read_per_epoch as int,
        ),
    decreases sync.end - sync.current.number,
{
    if sync.current.number < sync.end {
        reveal_with_fuel(calm_ranges, 4);
        let fetching = sync.after(SyncEvent::Known(Ok(true)));
        let to = batch_end(sync.current.number, sync.blocks_read_per_epoch, sync.end);
        let sending = fetching.after(
            SyncEvent::Fetched(Ok(BlockNumHash { number: to, hash: hashes(to) })),
        );
        let next = sending.after(SyncEvent::Sent);
        calm_history_is_streamed_once(next, hashes, (steps - 3) as nat);
        let range = Range::<u64> { start: sync.current.number, end: to };
        let rest = calm_ranges(next, hashes, (steps - 3) as nat);
        let all = calm_ranges(sync, hashes, steps);
        assert(all =~= seq![range] + rest);
        assert(forall|i: int| 0 < i < all.len() ==> #[trigger] all[i] == rest[i - 1]);
        if rest.len() > 0 {
            assert(all.last() == rest.last());
        }
        assert forall|i: int, j: int|
            0 <= i && j == i + 1 && j < all.len() implies (#[trigger] all[j]).start == (
        #[trigger] all[i]).end by {
            assert(all[j] == rest[j - 1]);
            if i > 0 {
                assert(all[i] == rest[i - 1]);
                assert(rest[j - 1].start == rest[i - 1].end);
            }
        }
    }
}

/// The ranges held back of the blocks that come.
pub open spec fn held_back(buffer: LiveBuffer, blocks: Seq<u64>) -> Seq<Range<u64>>
    decreases blocks.len(),
{
    if blocks.len() == 0 {
        Seq::empty()
    } else {
        let first = match buffer.held(blocks[0]) {
            Some(range) => seq![range],
            None => Seq::empty(),
        };
        first + held_back(buffer.after(blocks[0]), blocks.drop_first())
    }
}

/// The buffer after all the blocks.
pub open spec fn buffered(buffer: LiveBuffer, blocks: Seq<u64>) -> LiveBuffer
    decreases blocks.len(),
{
    if blocks.len() == 0 {
        buffer
    } else {
        buffered(buffer.after(blocks[0]), blocks.drop_first())
    }
}

/// Whether the blocks rise: none comes that is held back already.
pub open spec fn rising(buffer: LiveBuffer, blocks: Seq<u64>) -> bool
    decreases blocks.len(),
{
    blocks.len() == 0 || {
        &&& buffer.current <= blocks[0] < u64::MAX
        &&& rising(buffer.after(blocks[0]), blocks.drop_first())
    }
}

/// Ranges that meet are put together.
proof fn lemma_adjoining_join(
    first: Seq<Range<u64>>,
    second: Seq<Range<u64>>,
    low: int,
    middle: int,
    high: int,
)
    requires
        low <= middle <= high,
        adjoining(first, low, middle),
        adjoining(second, middle, high),
    ensures
        adjoining(first + second, low, high),
{
    let all = first + second;
    if low == middle {
        assert(all =~= second);
    } else if middle == high {
        assert(all =~= first);
    } else {
        assert(all[0] == first[0]);
        assert(all.last() == second.last());
        assert forall|i: int, j: int|
            0 <= i && j == i + 1 && j < all.len() implies (#[trigger] all[j]).start == (
        #[trigger] all[i]).end by {
            if j < first.len() {
                assert(first[j].start == first[i].end);
            } else if i >= first.len() {
                assert(second[j - first.len()].start == second[i - first.len()].end);
            } else {
                assert(all[i] == first.last());
                assert(all[j] == second[0]);
            }
        }
    }
}

/// As long as blocks rise, they are held back without a gap, each once and in order.
proof fn lemma_held_back(buffer: LiveBuffer, blocks: Seq<u64>)
    requires
        rising(buffer, blocks),
    ensures
        buffer.current <= buffered(buffer, blocks).current,
        adjoining(
            held_back(buffer, blocks),
            buffer.current as int,
            buffered(buffer, blocks).current as int,
        ),
        forall|i: int|
            0 <= i < held_back(buffer, blocks).len() ==> (#[trigger] held_back(
                buffer,
                blocks,
            )[i]).start >= buffer.current,
    decreases blocks.len(),
{
    if blocks.len() > 0 {
        let next = buffer.after(blocks[0]);
        let rest = held_back(next, blocks.drop_first());
        lemma_held_back(next, blocks.drop_first());
        match buffer.held(blocks[0]) {
            Some(range) => {
                lemma_adjoining_join(
                    seq![range],
                    rest,
                    buffer.current as int,
                    next.current as int,
                    buffered(buffer, blocks).current as int,
                );
                let all = held_back(buffer, blocks);
                assert(all =~= seq![range] + rest);
                assert forall|i: int| 0 <= i < all.len() implies (#[trigger] all[i]).start
                    >= buffer.current by {
                    if i > 0 {
                        assert(all[i] == rest[i - 1]);
                    }
                }
            },
            None => {
                assert(held_back(buffer, blocks) =~= rest);
            },
        }
    }
}

/// Ranges that begin at `cutoff` or behind it are forwarded as they are.
proof fn lemma_all_forwarded(ranges: Seq<Range<u64>>, cutoff: u64)
    requires
        forall|i: int| 0 <= i < ranges.len() ==> (#[trigger] ranges[i]).start >= cutoff,
    ensures
        all_forwarded(ranges, cutoff) == ranges,
    decreases ranges.len(),
{
    if ranges.len() > 0 {
        let before = ranges.drop_last();
        assert(forall|i: int| 0 <= i < before.len() ==> #[trigger] before[i] == ranges[i]);
        lemma_all_forwarded(before, cutoff);
        assert(ranges.last() == ranges[ranges.len() - 1]);
        assert(before.push(ranges.last()) =~= ranges);
    } else {
        assert(ranges =~= Seq::empty());
    }
}

/// Nothing is lost or streamed twice where new blocks take over from past ones.  When all goes
/// well, and as long as new blocks rise from the end of the past on, the past ranges and the ranges
/// held back, which are all forwarded, are together the blocks from the start on up to the last one
/// held back, each once and in order.
pub proof fn new_blocks_take_over_from_history(
    sync: HistoricalSync,
    hashes: spec_fn(u64) -> BlockHash,
    steps: nat,
    blocks: Seq<u64>,
)
    requires
        sync.blocks_read_per_epoch >= 1,
        sync.current.number <= sync.end,
        sync.phase == (if sync.current.number < sync.end {
            SyncPhase::Checking
        } else {
            SyncPhase::Finished
        }),
        steps >= 3 * (sync.end - sync.current.number),
        rising(LiveBuffer { current: sync.end }, blocks),
    ensures
        all_forwarded(held_back(LiveBuffer { current: sync.end }, blocks), sync.end) == held_back(
            LiveBuffer { current: sync.end },
            blocks,
        ),
        adjoining(
            calm_ranges(sync, hashes, steps) + all_forwarded(
                held_back(LiveBuffer { current: sync.end }, blocks),
                sync.end,
            ),
            sync.current.number as int,
            buffered(LiveBuffer { current: sync.end }, blocks).current as int,
        ),
{
    let buffer = LiveBuffer { current: sync.end };
    calm_history_is_streamed_once(sync, hashes, steps);
    lemma_held_back(buffer, blocks);
    lemma_all_forwarded(held_back(buffer, blocks), sync.end);
    lemma_adjoining_join(
        calm_ranges(sync, hashes, steps),
        held_back(buffer, blocks),
        sync.current.number as int,
        sync.end as int,
        buffered(buffer, blocks).current as int,
    );
}

/// After a reorg the scanner goes back no further than the depth, and not behind the newest block.
pub proof fn rewind_is_bounded(current: u64, reorg_rewind_depth: u64, head: u64)
    ensures
        rewound_to(current, reorg_rewind_depth, head) <= head,
        rewound_to(current, reorg_rewind_depth, head) <= current,
        current <= head ==> current - rewound_to(current, reorg_rewind_depth, head)
            <= reorg_rewind_depth,
{
}

/// After a reorg the scanner goes back by its depth, to the very first block if there are not so
/// many; but if the newest block is before that, to the newest block.
pub proof fn rewind_goes_back_by_the_depth(current: u64, reorg_rewind_depth: u64, head: u64)
    ensures
        ({
            let height = rewound_to(current, reorg_rewind_depth, head);
            &&& height + reorg_rewind_depth > current ==> height == 0
            &&& height + reorg_rewind_depth < current ==> height == head
            &&& height <= head
        }),
{
}

/// A batch has as many blocks as are read at a time, or all that are left if those are fewer.
pub proof fn batch_is_full_or_the_last(current: u64, blocks_read_per_epoch: usize, end: u64)
    ensures
        ({
            let to = batch_end(current, blocks_read_per_epoch, end);
            &&& to <= end
            &&& to == end || to == current + blocks_read_per_epoch
            &&& current <= end ==> current <= to && to - current <= blocks_read_per_epoch
        }),
{
}

/// Before each batch the block that it begins with is looked up by its hash.  If it is there, the
/// block behind the batch is fetched, and then the batch is sent; the next one begins with the
/// block fetched.
pub proof fn first_block_is_checked_before_each_batch(sync: HistoricalSync, block: BlockNumHash)
    requires
        sync.phase is Checking,
    ensures
        ({
            let known = SyncEvent::Known(Ok(true));
            let fetched = SyncEvent::Fetched(Ok(block));
            let fetching = sync.after(known);
            let sending = fetching.after(fetched);
            let next = sending.after(SyncEvent::Sent);
            let to = if sync.current.number + sync.blocks_read_per_epoch > sync.end {
                sync.end as int
            } else {
                sync.current.number + sync.blocks_read_per_epoch
            };
            &&& sync.action() == SyncAction::CheckHash(sync.current.hash)
            &&& sync.reaction(known) matches SyncAction::Fetch(number)
            &&& number == to
            &&& fetching.reaction(fetched) matches SyncAction::Send(range)
            &&& range.start == sync.current.number
            &&& range.end == to
            &&& next.current.number == block.number
            &&& next.current.hash == block.hash
            &&& next.end == sync.end
            &&& next.blocks_read_per_epoch == sync.blocks_read_per_epoch
            &&& next.reorg_rewind_depth == sync.reorg_rewind_depth
            &&& block.number < sync.end ==> next.phase is Checking && sending.reaction(
                SyncEvent::Sent,
            ) == SyncAction::CheckHash(block.hash)
            &&& block.number >= sync.end ==> sending.reaction(SyncEvent::Sent)
                == SyncAction::Finish(Ok(()))
        }),
{
}

/// If the block that a batch begins with has left the chain, the newest block is asked for, then
/// the block so many before it is fetched, and the batch begins with that one.
pub proof fn batch_begins_earlier_after_a_reorg(
    sync: HistoricalSync,
    head: u64,
    block: BlockNumHash,
)
    requires
        sync.phase is Checking,
    ensures
        ({
            let lost = SyncEvent::Known(Ok(false));
            let asking = sync.after(lost);
            let fetching = asking.after(SyncEvent::Head(Ok(head)));
            let again = fetching.after(SyncEvent::Fetched(Ok(block)));
            let back = if sync.current.number < sync.reorg_rewind_depth {
                0
            } else {
                sync.current.number - sync.reorg_rewind_depth
            };
            &&& sync.reaction(lost) is AskHead
            &&& asking.reaction(SyncEvent::Head(Ok(head))) matches SyncAction::Fetch(number)
            &&& number == if head < back {
                head as int
            } else {
                back as int
            }
            &&& again.current.number == block.number
            &&& again.current.hash == block.hash
            &&& again.end == sync.end
            &&& again.blocks_read_per_epoch == sync.blocks_read_per_epoch
            &&& again.reorg_rewind_depth == sync.reorg_rewind_depth
            &&& fetching.reaction(SyncEvent::Fetched(Ok(block))) matches SyncAction::Fetch(to)
            &&& to == if block.number + sync.blocks_read_per_epoch > sync.end {
                sync.end as int
            } else {
                block.number + sync.blocks_read_per_epoch
            }
        }),
{
}

/// A question that fails ends the stream with that error.
pub proof fn failed_question_ends_the_sync(sync: HistoricalSync, error: BlockScannerError)
    ensures
        sync.phase is Checking ==> {
            let failed = SyncEvent::Known(Err(error));
            sync.reaction(failed) == SyncAction::Finish(Err(error)) && sync.after(failed).phase
                is Finished
        },
        sync.phase is AskingHead ==> {
            let failed = SyncEvent::Head(Err(error));
            sync.reaction(failed) == SyncAction::Finish(Err(error)) && sync.after(failed).phase
                is Finished
        },
        sync.phase is FetchingRewound || sync.phase is FetchingEnd ==> {
            let failed = SyncEvent::Fetched(Err(error));
            sync.reaction(failed) == SyncAction::Finish(Err(error)) && sync.after(failed).phase
                is Finished
        },
{
}

/// Past blocks are streamed from the start on; there are none if the start is not before the end.
pub proof fn sync_begins_at_the_start(
    blocks_read_per_epoch: usize,
    reorg_rewind_depth: u64,
    start: BlockNumHash,
    end: u64,
)
    ensures
        ({
            let begun = sync_begun(blocks_read_per_epoch, reorg_rewind_depth, start, end);
            &&& begun.blocks_read_per_epoch == blocks_read_per_epoch
            &&& begun.reorg_rewind_depth == reorg_rewind_depth
            &&& begun.current.number == start.number
            &&& begun.current.hash == start.hash
            &&& begun.end == end
            &&& start.number < end ==> begun.phase is Checking
            &&& start.number >= end ==> begun.action() == SyncAction::Finish(Ok(()))
        }),
{
}

/// When a block comes, the blocks not held back yet are, up to it and with it; but the very next
/// block waits for its successor.
pub proof fn new_block_is_held_back_with_those_before(buffer: LiveBuffer, incoming: u64)
    requires
        incoming < u64::MAX,
    ensures
        buffer.current == incoming ==> buffer.held(incoming) is None && buffer.after(incoming)
            == buffer,
        buffer.current != incoming ==> {
            &&& buffer.held(incoming) matches Some(range)
            &&& range.start == buffer.current
            &&& range.end == incoming + 1
            &&& buffer.after(incoming).current == incoming + 1
        },
{
}

/// Of a range held back the blocks from `cutoff` on are forwarded, and no other; if there are none,
/// nothing is.
pub proof fn held_back_blocks_are_forwarded_from_cutoff(
    range: Range<u64>,
    cutoff: u64,
    number: int,
)
    requires
        range.start < range.end,
    ensures
        match forwarded(range, cutoff) {
            Some(kept) => {
                &&& kept.start < kept.end
                &&& kept.start <= number < kept.end <==> range.start <= number < range.end && number
                    >= cutoff
            },
            None => range.end <= cutoff,
        },
        range.start >= cutoff ==> forwarded(range, cutoff) == Some(range),
{
}

/// Ranges are forwarded one by one, in the order in which they were held back.
pub proof fn ranges_are_forwarded_in_order(
    ranges: Seq<Range<u64>>,
    range: Range<u64>,
    cutoff: u64,
)
    ensures
        all_forwarded(Seq::empty(), cutoff) == Seq::<Range<u64>>::empty(),
        all_forwarded(ranges.push(range), cutoff) == all_forwarded(ranges, cutoff) + (
        match forwarded(range, cutoff) {
            Some(kept) => seq![kept],
            None => Seq::empty(),
        }),
{
    assert(ranges.push(range).drop_last() =~= ranges);
    let before = all_forwarded(ranges, cutoff);
    assert(before + Seq::empty() =~= before);
    if let Some(kept) = forwarded(range, cutoff) {
        assert(before + seq![kept] =~= before.push(kept));
    }
}

/// A service tells what it knows of itself.  Once its subscriber is let go there is none, and
/// nothing else is forgotten but that it was connected.
pub proof fn status_tells_of_the_service<S>(service: BlockScannerService<S>)
    ensures
        service.status().is_subscribed <==> service.subscriber is Some,
        service.status().last_synced_block == service.current,
        service.status().websocket_connected == service.websocket_connected,
        service.status().processed_count == service.processed_count,
        service.status().error_count == service.error_count,
        service.unsubscribed().subscriber is None,
        service.unsubscribed().current == service.current,
        service.unsubscribed().processed_count == service.processed_count,
        service.unsubscribed().error_count == service.error_count,
        service.unsubscribed().shutdown == service.shutdown,
        service.subscriber is Some ==> !service.unsubscribed().websocket_connected,
        service.subscriber is None ==> service.unsubscribed() == service,
{
}

/// The cause of a failure ends the words that tell of it.
pub proof fn words_end_with_the_cause(cause: String)
    ensures
        BlockScannerError::HttpError(cause).text() == "HTTP request failed: "@ + cause@,
        BlockScannerError::SerializationError(cause).text() == "Serialization error: "@ + cause@,
        BlockScannerError::RpcError(cause).text() == "RPC error: "@ + cause@,
        BlockScannerError::HistoricalSyncError(cause).text() == "Historical sync failed: "@
            + cause@,
{
}

/// Unless set otherwise, a thousand blocks make a batch, calls are repeated after twelve seconds, and
/// neither confirmations nor a way back are asked for.
pub proof fn default_scanner_settings()
    ensures
        default_scanner().blocks_read_per_epoch == 1000,
        default_scanner().reorg_rewind_depth == 0,
        default_scanner().retry_interval == 12_000_000_000,
        default_scanner().block_confirmations == 0,
{
}

} // verus!
