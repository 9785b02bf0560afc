//! Events of a range of past blocks.

use crate::block_range_scanner::{BlockRangeScanner, ConnectedBlockRangeScanner};
use crate::event_filter::EventFilter;
use crate::event_scanner::consumer::ConsumerMode;
use crate::event_scanner::request::{EventListener, Scan, StreamRequest};
use crate::types::BlockNumberOrTag;
use vstd::prelude::*;

verus! {

/// The settings of a scanner for past events.
#[derive(Debug)]
pub struct HistoricScannerBuilder<P> {
    pub block_range_scanner: BlockRangeScanner<P>,
    /// One end of the range.
    pub from_block: BlockNumberOrTag,
    /// The other end of the range.
    pub to_block: BlockNumberOrTag,
}

/// A scanner for past events.
pub struct HistoricEventScanner<P, S> {
    pub config: HistoricScannerBuilder<P>,
    pub block_range_scanner: ConnectedBlockRangeScanner<P>,
    pub listeners: Vec<EventListener<S>>,
}

impl<P> HistoricScannerBuilder<P> {
    /// The default settings.
    #[must_use]
    pub fn new() -> (builder: Self)
        ensures
            builder.block_range_scanner.is_default(),
            builder.from_block == BlockNumberOrTag::Earliest,
            builder.to_block == BlockNumberOrTag::Latest,
    {
        HistoricScannerBuilder {
            block_range_scanner: BlockRangeScanner::new(),
            from_block: BlockNumberOrTag::Earliest,
            to_block: BlockNumberOrTag::Latest,
        }
    }

    /// Sets the most blocks in a range.
    #[must_use]
    pub fn max_block_range(self, max_block_range: u64) -> (builder: Self)
        ensures
            builder == (HistoricScannerBuilder {
                block_range_scanner: BlockRangeScanner {
                    max_block_range,
                    ..self.block_range_scanner
                },
                ..self
            }),
    {
        HistoricScannerBuilder {
            block_range_scanner: self.block_range_scanner.max_block_range(max_block_range),
            ..self
        }
    }

    /// Sets one end of the range.
    #[must_use]
    pub fn from_block(self, block: BlockNumberOrTag) -> (builder: Self)
        ensures
            builder == (HistoricScannerBuilder { from_block: block, ..self }),
    {
        HistoricScannerBuilder { from_block: block, ..self }
    }

    /// Sets the other end of the range.
    #[must_use]
    pub fn to_block(self, block: BlockNumberOrTag) -> (builder: Self)
        ensures
            builder == (HistoricScannerBuilder { to_block: block, ..self }),
    {
        HistoricScannerBuilder { to_block: block, ..self }
    }

    /// The scanner, connected to a node.
    #[must_use]
    pub fn connect<S>(self, provider: P) -> (scanner: HistoricEventScanner<P, S>)
        ensures
            scanner.config == (HistoricScannerBuilder {
                block_range_scanner: scanner.config.block_range_scanner,
                ..self
            }),
            scanner.config.block_range_scanner.is_handed_over(self.block_range_scanner),
            scanner.block_range_scanner.is_connected(self.block_range_scanner, provider),
            scanner.listeners@ == Seq::<EventListener<S>>::empty(),
    {
        let mut config = self;
        let block_range_scanner = config.block_range_scanner.hand_over(provider);
        HistoricEventScanner { config, block_range_scanner, listeners: Vec::new() }
    }
}

impl<P, S> HistoricEventScanner<P, S> {
    /// Adds a listener: events that match `filter` go to `sender`.
    pub fn subscribe(&mut self, filter: EventFilter, sender: S)
        ensures
            final(self).listeners@ == old(self).listeners@.push(EventListener { filter, sender }),
            *final(self) == (HistoricEventScanner {
                listeners: final(self).listeners,
                ..*old(self)
            }),
    {
        self.listeners.push(EventListener { filter, sender });
    }

    /// Starts the scanner: events of the range, oldest first.
    pub fn start(self) -> (scan: Scan<P, S>)
        ensures
            scan == (Scan {
                block_range_scanner: self.block_range_scanner,
                listeners: self.listeners,
                request: StreamRequest::Historical {
                    start_height: self.config.from_block,
                    end_height: self.config.to_block,
                },
                mode: ConsumerMode::Stream,
            }),
    {
        Scan {
            block_range_scanner: self.block_range_scanner,
            listeners: self.listeners,
            request: StreamRequest::Historical {
                start_height: self.config.from_block,
                end_height: self.config.to_block,
            },
            mode: ConsumerMode::Stream,
        }
    }
}

} // verus!
