//! New events, as they come.

use crate::block_range_scanner::common::DEFAULT_BLOCK_CONFIRMATIONS;
use crate::block_range_scanner::{BlockRangeScanner, ConnectedBlockRangeScanner};
use crate::event_filter::EventFilter;
use crate::event_scanner::consumer::ConsumerMode;
use crate::event_scanner::request::{EventListener, Scan, StreamRequest};
use vstd::prelude::*;

verus! {

/// The settings of a scanner for new events.
#[derive(Debug)]
pub struct LiveScannerBuilder<P> {
    pub block_range_scanner: BlockRangeScanner<P>,
    /// How many blocks confirm a block.
    pub block_confirmations: u64,
}

/// A scanner for new events.
pub struct LiveEventScanner<P, S> {
    pub config: LiveScannerBuilder<P>,
    pub block_range_scanner: ConnectedBlockRangeScanner<P>,
    pub listeners: Vec<EventListener<S>>,
}

impl<P> LiveScannerBuilder<P> {
    /// The default settings.
    #[must_use]
    pub fn new() -> (builder: Self)
        ensures
            builder.block_range_scanner.is_default(),
            builder.block_confirmations == DEFAULT_BLOCK_CONFIRMATIONS,
    {
        LiveScannerBuilder {
            block_range_scanner: BlockRangeScanner::new(),
            block_confirmations: DEFAULT_BLOCK_CONFIRMATIONS,
        }
    }

    /// Sets the most blocks in a range.
    #[must_use]
    pub fn max_block_range(self, max_block_range: u64) -> (builder: Self)
        ensures
            builder == (LiveScannerBuilder {
                block_range_scanner: BlockRangeScanner {
                    max_block_range,
                    ..self.block_range_scanner
                },
                ..self
            }),
    {
        LiveScannerBuilder {
            block_range_scanner: self.block_range_scanner.max_block_range(max_block_range),
            ..self
        }
    }

    /// Sets how many blocks confirm a block.
    #[must_use]
    pub fn block_confirmations(self, confirmations: u64) -> (builder: Self)
        ensures
            builder == (LiveScannerBuilder { block_confirmations: confirmations, ..self }),
    {
        LiveScannerBuilder { block_confirmations: confirmations, ..self }
    }

    /// The scanner, connected to a node.
    #[must_use]
    pub fn connect<S>(self, provider: P) -> (scanner: LiveEventScanner<P, S>)
        ensures
            scanner.config == (LiveScannerBuilder {
                block_range_scanner: scanner.config.block_range_scanner,
                ..self
            }),
            scanner.config.block_range_scanner.is_handed_over(self.block_range_scanner),
            scanner.block_range_scanner.is_connected(self.block_range_scanner, provider),
            scanner.listeners@ == Seq::<EventListener<S>>::empty(),
    {
        let mut config = self;
        let block_range_scanner = config.block_range_scanner.hand_over(provider);
        LiveEventScanner { config, block_range_scanner, listeners: Vec::new() }
    }
}

impl<P, S> LiveEventScanner<P, S> {
    /// Adds a listener: events that match `filter` go to `sender`.
    pub fn subscribe(&mut self, filter: EventFilter, sender: S)
        ensures
            final(self).listeners@ == old(self).listeners@.push(EventListener { filter, sender }),
            *final(self) == (LiveEventScanner {
                listeners: final(self).listeners,
                ..*old(self)
            }),
    {
        self.listeners.push(EventListener { filter, sender });
    }

    /// Starts the scanner: events of blocks that are confirmed, as they come.
    pub fn start(self) -> (scan: Scan<P, S>)
        ensures
            scan == (Scan {
                block_range_scanner: self.block_range_scanner,
                listeners: self.listeners,
                request: StreamRequest::Live { block_confirmations: self.config.block_confirmations },
                mode: ConsumerMode::Stream,
            }),
    {
        Scan {
            block_range_scanner: self.block_range_scanner,
            listeners: self.listeners,
            request: StreamRequest::Live { block_confirmations: self.config.block_confirmations },
            mode: ConsumerMode::Stream,
        }
    }
}

} // verus!
