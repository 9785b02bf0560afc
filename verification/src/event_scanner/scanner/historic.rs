//! Events of a range of past blocks.

use super::{EventScanner, EventScannerBuilder, Historic};
use crate::error::ScannerError;
use crate::event_scanner::consumer::ConsumerMode;
use crate::event_scanner::request::{Scan, StreamRequest};
use crate::event_scanner::stream::StartProof;
use crate::types::{BlockNumber, BlockNumberOrTag};
use vstd::prelude::*;

verus! {

/// The number that a height stands for when `latest` is the newest block.
pub open spec fn block_number(block: BlockNumberOrTag, latest: BlockNumber) -> BlockNumber {
    match block {
        BlockNumberOrTag::Number(number) => number,
        BlockNumberOrTag::Earliest => 0,
        _ => latest,
    }
}

/// The later of the two ends of the range.
pub open spec fn last_block(config: Historic, latest: BlockNumber) -> BlockNumber {
    let from = block_number(config.from_block, latest);
    let to = block_number(config.to_block, latest);
    if from > to {
        from
    } else {
        to
    }
}

/// Helper function to resolve `BlockNumberOrTag` to u64
fn resolve_block_number(block: &BlockNumberOrTag, latest: BlockNumber) -> (number: BlockNumber)
    ensures
        number == block_number(*block, latest),
{
    match block {
        BlockNumberOrTag::Number(number) => *number,
        BlockNumberOrTag::Earliest => 0,
        _ => latest,
    }
}

impl<P> EventScannerBuilder<Historic, P> {
    /// Sets the first block of the range.
    #[must_use]
    pub fn from_block(self, block: BlockNumberOrTag) -> (builder: Self)
        ensures
            builder == (EventScannerBuilder {
                config: Historic { from_block: block, ..self.config },
                ..self
            }),
    {
        EventScannerBuilder { config: Historic { from_block: block, ..self.config }, ..self }
    }

    /// Sets the last block of the range.
    #[must_use]
    pub fn to_block(self, block: BlockNumberOrTag) -> (builder: Self)
        ensures
            builder == (EventScannerBuilder {
                config: Historic { to_block: block, ..self.config },
                ..self
            }),
    {
        EventScannerBuilder { config: Historic { to_block: block, ..self.config }, ..self }
    }

    /// Connects to a node with block range validation; `latest_block` is what the node answers when
    /// asked for its newest block.
    ///
    /// It is an error if the most blocks in a range are zero, if the node does not answer, or if
    /// an end of the range is beyond the newest block.
    pub fn connect<S>(
        self,
        provider: P,
        latest_block: Result<BlockNumber, ScannerError>,
    ) -> (scanner: Result<EventScanner<Historic, P, S>, ScannerError>)
        ensures
            match (self.block_range_scanner.max_block_range, latest_block) {
                (0, _) => scanner == Err::<EventScanner<Historic, P, S>, ScannerError>(
                    ScannerError::InvalidMaxBlockRange,
                ),
                (_, Err(e)) => scanner == Err::<EventScanner<Historic, P, S>, ScannerError>(e),
                (_, Ok(latest)) => if last_block(self.config, latest) > latest {
                    scanner == Err::<EventScanner<Historic, P, S>, ScannerError>(
                        ScannerError::BlockExceedsLatest(last_block(self.config, latest), latest),
                    )
                } else {
                    scanner matches Ok(scanner) && scanner.is_new(
                        self.config,
                        self.block_range_scanner,
                        provider,
                    )
                },
            },
    {
        let scanner: EventScanner<Historic, P, S> = match self.build(provider) {
            Ok(scanner) => scanner,
            Err(e) => return Err(e),
        };
        let latest: BlockNumber = match latest_block {
            Ok(latest) => latest,
            Err(e) => return Err(e),
        };
        let from: BlockNumber = resolve_block_number(&scanner.config.from_block, latest);
        let to: BlockNumber = resolve_block_number(&scanner.config.to_block, latest);
        let max_block: BlockNumber = if from > to {
            from
        } else {
            to
        };
        if max_block > latest {
            return Err(ScannerError::BlockExceedsLatest(max_block, latest));
        }
        Ok(scanner)
    }
}

impl<P, S> EventScanner<Historic, P, S> {
    /// Starts the scanner: events of the range, oldest first.
    pub fn start(self) -> (started: (Scan<P, S>, StartProof))
        ensures
            started.0 == self.scan(
                StreamRequest::Historical {
                    start_height: self.config.from_block,
                    end_height: self.config.to_block,
                },
                ConsumerMode::Stream,
            ),
            started.1.shows_start(),
    {
        let request = StreamRequest::Historical {
            start_height: self.config.from_block,
            end_height: self.config.to_block,
        };
        self.start_with(request, ConsumerMode::Stream)
    }
}

/// A range reaches beyond the newest block exactly if one of its ends is a number that does; the
/// later end is then the one to name.
pub proof fn range_exceeds_latest_by_a_number(config: Historic, latest: BlockNumber)
    ensures
        last_block(config, latest) > latest <==> {
            ||| config.from_block matches BlockNumberOrTag::Number(number) && number > latest
            ||| config.to_block matches BlockNumberOrTag::Number(number) && number > latest
        },
        config.from_block matches BlockNumberOrTag::Number(number) ==> last_block(config, latest)
            >= number,
        config.to_block matches BlockNumberOrTag::Number(number) ==> last_block(config, latest)
            >= number,
        last_block(config, latest) > latest ==> config.from_block == BlockNumberOrTag::Number(
            last_block(config, latest),
        ) || config.to_block == BlockNumberOrTag::Number(last_block(config, latest)),
{
}

} // verus!
