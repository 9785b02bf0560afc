//! The latest events.

use crate::block_range_scanner::common::DEFAULT_BLOCK_CONFIRMATIONS;
use crate::block_range_scanner::{BlockRangeScanner, ConnectedBlockRangeScanner};
use crate::event_filter::EventFilter;
use crate::event_scanner::consumer::ConsumerMode;
use crate::event_scanner::request::{EventListener, Scan, StreamRequest};
use crate::types::BlockNumberOrTag;
use vstd::prelude::*;

verus! {

/// The settings of a scanner for the latest events.
#[derive(Debug)]
pub struct LatestScannerBuilder<P> {
    pub block_range_scanner: BlockRangeScanner<P>,
    /// How many events are wanted.
    pub count: usize,
    /// One end of the range.
    pub from_block: BlockNumberOrTag,
    /// The other end of the range.
    pub to_block: BlockNumberOrTag,
    /// How many blocks confirm a block.
    pub block_confirmations: u64,
}

/// A scanner for the latest events.
pub struct LatestEventScanner<P, S> {
    pub config: LatestScannerBuilder<P>,
    pub block_range_scanner: ConnectedBlockRangeScanner<P>,
    pub listeners: Vec<EventListener<S>>,
}

impl<P> LatestScannerBuilder<P> {
    /// The default settings.
    #[must_use]
    pub fn new() -> (builder: Self)
        ensures
            builder.block_range_scanner.is_default(),
            builder.count == 1,
            builder.from_block == BlockNumberOrTag::Latest,
            builder.to_block == BlockNumberOrTag::Earliest,
            builder.block_confirmations == DEFAULT_BLOCK_CONFIRMATIONS,
    {
        LatestScannerBuilder {
            block_range_scanner: BlockRangeScanner::new(),
            count: 1,
            from_block: BlockNumberOrTag::Latest,
            to_block: BlockNumberOrTag::Earliest,
            block_confirmations: DEFAULT_BLOCK_CONFIRMATIONS,
        }
    }

    /// Sets the most blocks in a range.
    #[must_use]
    pub fn max_block_range(self, max_block_range: u64) -> (builder: Self)
        ensures
            builder == (LatestScannerBuilder {
                block_range_scanner: BlockRangeScanner {
                    max_block_range,
                    ..self.block_range_scanner
                },
                ..self
            }),
    {
        LatestScannerBuilder {
            block_range_scanner: self.block_range_scanner.max_block_range(max_block_range),
            ..self
        }
    }

    /// Sets how many blocks confirm a block.
    #[must_use]
    pub fn block_confirmations(self, confirmations: u64) -> (builder: Self)
        ensures
            builder == (LatestScannerBuilder { block_confirmations: confirmations, ..self }),
    {
        LatestScannerBuilder { block_confirmations: confirmations, ..self }
    }

    /// Sets how many events are wanted.
    #[must_use]
    pub fn count(self, count: usize) -> (builder: Self)
        ensures
            builder == (LatestScannerBuilder { count, ..self }),
    {
        LatestScannerBuilder { count, ..self }
    }

    /// Sets one end of the range.
    #[must_use]
    pub fn from_block(self, block: BlockNumberOrTag) -> (builder: Self)
        ensures
            builder == (LatestScannerBuilder { from_block: block, ..self }),
    {
        LatestScannerBuilder { from_block: block, ..self }
    }

    /// Sets the other end of the range.
    #[must_use]
    pub fn to_block(self, block: BlockNumberOrTag) -> (builder: Self)
        ensures
            builder == (LatestScannerBuilder { to_block: block, ..self }),
    {
        LatestScannerBuilder { to_block: block, ..self }
    }

    /// The scanner, connected to a node.
    #[must_use]
    pub fn connect<S>(self, provider: P) -> (scanner: LatestEventScanner<P, S>)
        ensures
            scanner.config == (LatestScannerBuilder {
                block_range_scanner: scanner.config.block_range_scanner,
                ..self
            }),
            scanner.config.block_range_scanner.is_handed_over(self.block_range_scanner),
            scanner.block_range_scanner.is_connected(self.block_range_scanner, provider),
            scanner.listeners@ == Seq::<EventListener<S>>::empty(),
    {
        let mut config = self;
        let block_range_scanner = config.block_range_scanner.hand_over(provider);
        LatestEventScanner { config, block_range_scanner, listeners: Vec::new() }
    }
}

impl<P, S> LatestEventScanner<P, S> {
    /// Adds a listener: events that match `filter` go to `sender`.
    pub fn subscribe(&mut self, filter: EventFilter, sender: S)
        ensures
            final(self).listeners@ == old(self).listeners@.push(EventListener { filter, sender }),
            *final(self) == (LatestEventScanner {
                listeners: final(self).listeners,
                ..*old(self)
            }),
    {
        self.listeners.push(EventListener { filter, sender });
    }

    /// Starts the scanner: the range is searched newest first until enough events are found.
    pub fn start(self) -> (scan: Scan<P, S>)
        ensures
            scan == (Scan {
                block_range_scanner: self.block_range_scanner,
                listeners: self.listeners,
                request: StreamRequest::Rewind {
                    start_height: self.config.from_block,
                    end_height: self.config.to_block,
                },
                mode: ConsumerMode::CollectLatest { count: self.config.count },
            }),
    {
        Scan {
            block_range_scanner: self.block_range_scanner,
            listeners: self.listeners,
            request: StreamRequest::Rewind {
                start_height: self.config.from_block,
                end_height: self.config.to_block,
            },
            mode: ConsumerMode::CollectLatest { count: self.config.count },
        }
    }
}

} // verus!
