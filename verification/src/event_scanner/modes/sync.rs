//! Past events, followed by new ones as they come.

use crate::block_range_scanner::common::DEFAULT_BLOCK_CONFIRMATIONS;
use crate::block_range_scanner::message::ScannerStatus;
use crate::block_range_scanner::{BlockRangeScanner, ConnectedBlockRangeScanner};
use crate::error::ScannerError;
use crate::event_filter::EventFilter;
use crate::event_scanner::consumer::ConsumerMode;
use crate::event_scanner::request::{EventListener, Scan, StreamRequest};
#[allow(unused_imports)]
use crate::event_scanner::scanner::sync;
use crate::event_scanner::scanner::sync::LivePhase;
use crate::types::{BlockId, BlockNumber, BlockNumberOrTag};
use vstd::prelude::*;

verus! {

/// Past events followed by new ones: where to begin is still to be chosen.
#[derive(Debug)]
pub struct SyncScannerBuilder;

impl SyncScannerBuilder {
    /// Nothing chosen yet.
    #[must_use]
    pub fn new() -> (builder: Self)
        ensures
            builder == SyncScannerBuilder,
    {
        SyncScannerBuilder
    }

    /// Scans the latest `count` matching events per registered listener, then automatically
    /// transitions to live streaming mode.
    #[must_use]
    pub fn from_latest<P>(self, count: usize) -> (builder: SyncFromLatestScannerBuilder<P>)
        ensures
            builder.block_range_scanner.is_default(),
            builder.latest_events_count == count,
            builder.block_confirmations == DEFAULT_BLOCK_CONFIRMATIONS,
    {
        SyncFromLatestScannerBuilder::new(count)
    }

    /// Streams events from a block on, then automatically transitions to live streaming mode.
    #[must_use]
    pub fn from_block<P>(self, block: BlockNumberOrTag) -> (builder:
        SyncFromBlockEventScannerBuilder<P>)
        ensures
            builder.block_range_scanner.is_default(),
            builder.from_block == block,
            builder.block_confirmations == DEFAULT_BLOCK_CONFIRMATIONS,
    {
        SyncFromBlockEventScannerBuilder::new(block)
    }
}

/// The settings of a scanner for events from a block on.
#[derive(Debug)]
pub struct SyncFromBlockEventScannerBuilder<P> {
    pub block_range_scanner: BlockRangeScanner<P>,
    /// The first block.
    pub from_block: BlockNumberOrTag,
    /// How many blocks confirm a block.
    pub block_confirmations: u64,
}

/// A scanner for events from a block on.
pub struct SyncFromBlockEventScanner<P, S> {
    pub config: SyncFromBlockEventScannerBuilder<P>,
    pub block_range_scanner: ConnectedBlockRangeScanner<P>,
    pub listeners: Vec<EventListener<S>>,
}

impl<P> SyncFromBlockEventScannerBuilder<P> {
    /// The default settings.
    #[must_use]
    pub fn new(from_block: BlockNumberOrTag) -> (builder: Self)
        ensures
            builder.block_range_scanner.is_default(),
            builder.from_block == from_block,
            builder.block_confirmations == DEFAULT_BLOCK_CONFIRMATIONS,
    {
        SyncFromBlockEventScannerBuilder {
            block_range_scanner: BlockRangeScanner::new(),
            from_block,
            block_confirmations: DEFAULT_BLOCK_CONFIRMATIONS,
        }
    }

    /// Sets the most blocks in a range.
    #[must_use]
    pub fn max_block_range(self, max_block_range: u64) -> (builder: Self)
        ensures
            builder == (SyncFromBlockEventScannerBuilder {
                block_range_scanner: BlockRangeScanner {
                    max_block_range,
                    ..self.block_range_scanner
                },
                ..self
            }),
    {
        SyncFromBlockEventScannerBuilder {
            block_range_scanner: self.block_range_scanner.max_block_range(max_block_range),
            ..self
        }
    }

    /// Sets how many blocks confirm a block.
    #[must_use]
    pub fn block_confirmations(self, count: u64) -> (builder: Self)
        ensures
            builder == (SyncFromBlockEventScannerBuilder { block_confirmations: count, ..self }),
    {
        SyncFromBlockEventScannerBuilder { block_confirmations: count, ..self }
    }

    /// The scanner, connected to a node.
    #[must_use]
    pub fn connect<S>(self, provider: P) -> (scanner: SyncFromBlockEventScanner<P, S>)
        ensures
            scanner.config == (SyncFromBlockEventScannerBuilder {
                block_range_scanner: scanner.config.block_range_scanner,
                ..self
            }),
            scanner.config.block_range_scanner.is_handed_over(self.block_range_scanner),
            scanner.block_range_scanner.is_connected(self.block_range_scanner, provider),
            scanner.listeners@ == Seq::<EventListener<S>>::empty(),
    {
        let mut config = self;
        let block_range_scanner = config.block_range_scanner.hand_over(provider);
        SyncFromBlockEventScanner { config, block_range_scanner, listeners: Vec::new() }
    }
}

impl<P, S> SyncFromBlockEventScanner<P, S> {
    /// Adds a listener: events that match `filter` go to `sender`.
    pub fn subscribe(&mut self, filter: EventFilter, sender: S)
        ensures
            final(self).listeners@ == old(self).listeners@.push(EventListener { filter, sender }),
            *final(self) == (SyncFromBlockEventScanner {
                listeners: final(self).listeners,
                ..*old(self)
            }),
    {
        self.listeners.push(EventListener { filter, sender });
    }

    /// Starts the scanner: events from the block on, then new ones.
    pub fn start(self) -> (scan: Scan<P, S>)
        ensures
            scan == (Scan {
                block_range_scanner: self.block_range_scanner,
                listeners: self.listeners,
                request: StreamRequest::From {
                    start_height: self.config.from_block,
                    block_confirmations: self.config.block_confirmations,
                },
                mode: ConsumerMode::Stream,
            }),
    {
        Scan {
            block_range_scanner: self.block_range_scanner,
            listeners: self.listeners,
            request: StreamRequest::From {
                start_height: self.config.from_block,
                block_confirmations: self.config.block_confirmations,
            },
            mode: ConsumerMode::Stream,
        }
    }
}

/// The settings of a scanner for the latest events and all that follow.
#[derive(Debug)]
pub struct SyncFromLatestScannerBuilder<P> {
    pub block_range_scanner: BlockRangeScanner<P>,
    /// How many of the latest events are wanted.
    pub latest_events_count: usize,
    /// How many blocks confirm a block.
    pub block_confirmations: u64,
}

/// A scanner for the latest events and all that follow.
pub struct SyncFromLatestEventScanner<P, S> {
    pub config: SyncFromLatestScannerBuilder<P>,
    pub block_range_scanner: ConnectedBlockRangeScanner<P>,
    pub listeners: Vec<EventListener<S>>,
}

impl<P> SyncFromLatestScannerBuilder<P> {
    /// The default settings.
    #[must_use]
    pub fn new(count: usize) -> (builder: Self)
        ensures
            builder.block_range_scanner.is_default(),
            builder.latest_events_count == count,
            builder.block_confirmations == DEFAULT_BLOCK_CONFIRMATIONS,
    {
        SyncFromLatestScannerBuilder {
            block_range_scanner: BlockRangeScanner::new(),
            latest_events_count: count,
            block_confirmations: DEFAULT_BLOCK_CONFIRMATIONS,
        }
    }

    /// Sets how many blocks confirm a block.
    #[must_use]
    pub fn block_confirmations(self, count: u64) -> (builder: Self)
        ensures
            builder == (SyncFromLatestScannerBuilder { block_confirmations: count, ..self }),
    {
        SyncFromLatestScannerBuilder { block_confirmations: count, ..self }
    }

    /// The scanner, connected to a node.
    #[must_use]
    pub fn connect<S>(self, provider: P) -> (scanner: SyncFromLatestEventScanner<P, S>)
        ensures
            scanner.config == (SyncFromLatestScannerBuilder {
                block_range_scanner: scanner.config.block_range_scanner,
                ..self
            }),
            scanner.config.block_range_scanner.is_handed_over(self.block_range_scanner),
            scanner.block_range_scanner.is_connected(self.block_range_scanner, provider),
            scanner.listeners@ == Seq::<EventListener<S>>::empty(),
    {
        let mut config = self;
        let block_range_scanner = config.block_range_scanner.hand_over(provider);
        SyncFromLatestEventScanner { config, block_range_scanner, listeners: Vec::new() }
    }
}

impl<P, S> SyncFromLatestEventScanner<P, S> {
    /// Adds a listener: events that match `filter` go to `sender`.
    pub fn subscribe(&mut self, filter: EventFilter, sender: S)
        ensures
            final(self).listeners@ == old(self).listeners@.push(EventListener { filter, sender }),
            *final(self) == (SyncFromLatestEventScanner {
                listeners: final(self).listeners,
                ..*old(self)
            }),
    {
        self.listeners.push(EventListener { filter, sender });
    }

    /// Starts the scanner; `latest_block` is what the node answers when asked for its newest block.
    /// The search for the latest events ends there, and new events are those behind it.
    pub fn start(self, latest_block: Result<Option<BlockNumber>, ScannerError>) -> (started: Result<
        (Scan<P, S>, LivePhase),
        ScannerError,
    >)
        requires
            latest_block matches Ok(Some(number)) ==> number < u64::MAX,
        ensures
            match latest_block {
                Err(e) => started == Err::<(Scan<P, S>, LivePhase), ScannerError>(e),
                Ok(None) => started == Err::<(Scan<P, S>, LivePhase), ScannerError>(
                    ScannerError::BlockNotFound(BlockId::Number(BlockNumberOrTag::Latest)),
                ),
                Ok(Some(number)) => {
                    &&& started matches Ok((scan, live))
                    &&& scan == (Scan {
                        block_range_scanner: self.block_range_scanner,
                        listeners: self.listeners,
                        request: sync::latest_request(number),
                        mode: ConsumerMode::CollectLatest {
                            count: self.config.latest_events_count,
                        },
                    })
                    &&& live == sync::live_phase(number, self.config.block_confirmations)
                },
            },
    {
        let latest_block: BlockNumber = match latest_block {
            Ok(Some(number)) => number,
            Ok(None) => return Err(
                ScannerError::BlockNotFound(BlockId::Number(BlockNumberOrTag::Latest)),
            ),
            Err(e) => return Err(e),
        };
        let live = LivePhase {
            announcement: ScannerStatus::SwitchingToLive,
            request: StreamRequest::From {
                start_height: BlockNumberOrTag::Number(latest_block + 1),
                block_confirmations: self.config.block_confirmations,
            },
            mode: ConsumerMode::Stream,
        };
        let scan = Scan {
            block_range_scanner: self.block_range_scanner,
            listeners: self.listeners,
            request: StreamRequest::Rewind {
                start_height: BlockNumberOrTag::Earliest,
                end_height: BlockNumberOrTag::Number(latest_block),
            },
            mode: ConsumerMode::CollectLatest { count: self.config.latest_events_count },
        };
        Ok((scan, live))
    }
}

} // verus!
