//! The latest events.

use super::{EventScanner, EventScannerBuilder, LatestEvents};
use crate::block_range_scanner::common::DEFAULT_BLOCK_CONFIRMATIONS;
use crate::block_range_scanner::BlockRangeScanner;
use crate::error::ScannerError;
use crate::event_scanner::consumer::ConsumerMode;
use crate::event_scanner::request::{Scan, StreamRequest};
use crate::event_scanner::stream::StartProof;
use crate::types::BlockNumberOrTag;
use vstd::prelude::*;

verus! {

impl<P> EventScannerBuilder<LatestEvents, P> {
    /// The latest `count` events of all blocks.
    #[must_use]
    pub fn new(count: usize) -> (builder: Self)
        ensures
            builder.config == (LatestEvents {
                count,
                from_block: BlockNumberOrTag::Latest,
                to_block: BlockNumberOrTag::Earliest,
                block_confirmations: DEFAULT_BLOCK_CONFIRMATIONS,
            }),
            builder.block_range_scanner.is_default(),
    {
        EventScannerBuilder {
            config: LatestEvents {
                count,
                from_block: BlockNumberOrTag::Latest,
                to_block: BlockNumberOrTag::Earliest,
                block_confirmations: DEFAULT_BLOCK_CONFIRMATIONS,
            },
            block_range_scanner: BlockRangeScanner::new(),
        }
    }

    /// Sets how many blocks confirm a block.
    #[must_use]
    pub fn block_confirmations(self, confirmations: u64) -> (builder: Self)
        ensures
            builder == (EventScannerBuilder {
                config: LatestEvents { block_confirmations: confirmations, ..self.config },
                ..self
            }),
    {
        EventScannerBuilder {
            config: LatestEvents { block_confirmations: confirmations, ..self.config },
            ..self
        }
    }

    /// Sets one end of the range.
    #[must_use]
    pub fn from_block(self, block: BlockNumberOrTag) -> (builder: Self)
        ensures
            builder == (EventScannerBuilder {
                config: LatestEvents { from_block: block, ..self.config },
                ..self
            }),
    {
        EventScannerBuilder { config: LatestEvents { from_block: block, ..self.config }, ..self }
    }

    /// Sets the other end of the range.
    #[must_use]
    pub fn to_block(self, block: BlockNumberOrTag) -> (builder: Self)
        ensures
            builder == (EventScannerBuilder {
                config: LatestEvents { to_block: block, ..self.config },
                ..self
            }),
    {
        EventScannerBuilder { config: LatestEvents { to_block: block, ..self.config }, ..self }
    }

    /// Connects to a node.
    ///
    /// It is an error if the event count is zero, or the most blocks in a range are.
    pub fn connect<S>(self, provider: P) -> (scanner: Result<
        EventScanner<LatestEvents, P, S>,
        ScannerError,
    >)
        ensures
            if self.config.count == 0 {
                scanner == Err::<EventScanner<LatestEvents, P, S>, ScannerError>(
                    ScannerError::InvalidEventCount,
                )
            } else if self.block_range_scanner.max_block_range == 0 {
                scanner == Err::<EventScanner<LatestEvents, P, S>, ScannerError>(
                    ScannerError::InvalidMaxBlockRange,
                )
            } else {
                scanner matches Ok(scanner) && scanner.is_new(
                    self.config,
                    self.block_range_scanner,
                    provider,
                )
            },
    {
        if self.config.count == 0 {
            return Err(ScannerError::InvalidEventCount);
        }
        self.build(provider)
    }
}

impl<P, S> EventScanner<LatestEvents, P, S> {
    /// Starts the scanner: the range is searched newest first until enough events are found.
    pub fn start(self) -> (started: (Scan<P, S>, StartProof))
        ensures
            started.0 == self.scan(
                StreamRequest::Rewind {
                    start_height: self.config.from_block,
                    end_height: self.config.to_block,
                },
                ConsumerMode::CollectLatest { count: self.config.count },
            ),
            started.1.shows_start(),
    {
        let request = StreamRequest::Rewind {
            start_height: self.config.from_block,
            end_height: self.config.to_block,
        };
        let mode = ConsumerMode::CollectLatest { count: self.config.count };
        self.start_with(request, mode)
    }
}

} // verus!
