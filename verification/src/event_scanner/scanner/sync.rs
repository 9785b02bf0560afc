//! Past events, followed by new ones as they come.

use super::{
    EventScanner, EventScannerBuilder, SyncFromBlock, SyncFromLatestEvents, Synchronize,
};
use crate::block_range_scanner::common::DEFAULT_BLOCK_CONFIRMATIONS;
use crate::block_range_scanner::message::ScannerStatus;
#[allow(unused_imports)]
use crate::block_range_scanner::scanner;
use crate::block_range_scanner::BlockRangeScanner;
use crate::error::ScannerError;
use crate::event_scanner::consumer::ConsumerMode;
use crate::event_scanner::request::{Scan, StreamRequest};
use crate::event_scanner::stream::StartProof;
use crate::types::{BlockId, BlockNumber, BlockNumberOrTag};
use vstd::prelude::*;

verus! {

impl<P> EventScannerBuilder<Synchronize, P> {
    /// Scans the latest `count` matching events per registered listener, then automatically
    /// transitions to live streaming mode.
    #[must_use]
    pub fn from_latest(self, count: usize) -> (builder: EventScannerBuilder<
        SyncFromLatestEvents,
        P,
    >)
        ensures
            builder.config == (SyncFromLatestEvents {
                count,
                block_confirmations: DEFAULT_BLOCK_CONFIRMATIONS,
            }),
            builder.block_range_scanner.is_default(),
    {
        EventScannerBuilder::<SyncFromLatestEvents, P>::new(count)
    }

    /// Streams events from a specific starting block to the present, then automatically
    /// transitions to live streaming mode.
    #[must_use]
    pub fn from_block(self, block: BlockNumberOrTag) -> (builder: EventScannerBuilder<
        SyncFromBlock,
        P,
    >)
        ensures
            builder.config == (SyncFromBlock {
                from_block: block,
                block_confirmations: DEFAULT_BLOCK_CONFIRMATIONS,
            }),
            builder.block_range_scanner.is_default(),
    {
        EventScannerBuilder::<SyncFromBlock, P>::new(block)
    }
}

impl<P> EventScannerBuilder<SyncFromBlock, P> {
    /// Events from a block on.
    #[must_use]
    pub fn new(from_block: BlockNumberOrTag) -> (builder: Self)
        ensures
            builder.config == (SyncFromBlock {
                from_block,
                block_confirmations: DEFAULT_BLOCK_CONFIRMATIONS,
            }),
            builder.block_range_scanner.is_default(),
    {
        EventScannerBuilder {
            config: SyncFromBlock { from_block, block_confirmations: DEFAULT_BLOCK_CONFIRMATIONS },
            block_range_scanner: BlockRangeScanner::new(),
        }
    }

    /// Sets how many blocks confirm a block.
    #[must_use]
    pub fn block_confirmations(self, confirmations: u64) -> (builder: Self)
        ensures
            builder == (EventScannerBuilder {
                config: SyncFromBlock { block_confirmations: confirmations, ..self.config },
                ..self
            }),
    {
        EventScannerBuilder {
            config: SyncFromBlock { block_confirmations: confirmations, ..self.config },
            ..self
        }
    }

    /// Connects to a node; it is an error if the most blocks in a range are zero.
    pub fn connect<S>(self, provider: P) -> (scanner: Result<
        EventScanner<SyncFromBlock, P, S>,
        ScannerError,
    >)
        ensures
            self.block_range_scanner.max_block_range == 0 <==> scanner is Err,
            scanner matches Err(e) ==> e == ScannerError::InvalidMaxBlockRange,
            scanner matches Ok(scanner) ==> scanner.is_new(
                self.config,
                self.block_range_scanner,
                provider,
            ),
    {
        self.build(provider)
    }
}

impl<P, S> EventScanner<SyncFromBlock, P, S> {
    /// Starts the scanner.
    pub fn start(self) -> (started: (Scan<P, S>, StartProof))
        ensures
            started.0 == self.scan(
                StreamRequest::From {
                    start_height: self.config.from_block,
                    block_confirmations: self.config.block_confirmations,
                },
                ConsumerMode::Stream,
            ),
            started.1.shows_start(),
    {
        let request = StreamRequest::From {
            start_height: self.config.from_block,
            block_confirmations: self.config.block_confirmations,
        };
        self.start_with(request, ConsumerMode::Stream)
    }
}

impl<P> EventScannerBuilder<SyncFromLatestEvents, P> {
    /// The latest `count` events, then new ones.
    #[must_use]
    pub fn new(count: usize) -> (builder: Self)
        ensures
            builder.config == (SyncFromLatestEvents {
                count,
                block_confirmations: DEFAULT_BLOCK_CONFIRMATIONS,
            }),
            builder.block_range_scanner.is_default(),
    {
        EventScannerBuilder {
            config: SyncFromLatestEvents {
                count,
                block_confirmations: DEFAULT_BLOCK_CONFIRMATIONS,
            },
            block_range_scanner: BlockRangeScanner::new(),
        }
    }

    /// Sets how many blocks confirm a block.
    #[must_use]
    pub fn block_confirmations(self, confirmations: u64) -> (builder: Self)
        ensures
            builder == (EventScannerBuilder {
                config: SyncFromLatestEvents { block_confirmations: confirmations, ..self.config },
                ..self
            }),
    {
        EventScannerBuilder {
            config: SyncFromLatestEvents { block_confirmations: confirmations, ..self.config },
            ..self
        }
    }

    /// Connects to a node; it is an error if the most blocks in a range are zero.
    pub fn connect<S>(self, provider: P) -> (scanner: Result<
        EventScanner<SyncFromLatestEvents, P, S>,
        ScannerError,
    >)
        ensures
            self.block_range_scanner.max_block_range == 0 <==> scanner is Err,
            scanner matches Err(e) ==> e == ScannerError::InvalidMaxBlockRange,
            scanner matches Ok(scanner) ==> scanner.is_new(
                self.config,
                self.block_range_scanner,
                provider,
            ),
    {
        self.build(provider)
    }
}

/// What follows the latest events.
#[derive(Clone, Copy, Debug, PartialEq, Eq, Structural)]
pub struct LivePhase {
    /// What listeners are told in between.
    pub announcement: ScannerStatus,
    /// The ranges asked for.
    pub request: StreamRequest,
    /// What each listener does with the events in them.
    pub mode: ConsumerMode,
}

/// The ranges that are searched for the latest events: those up to the newest block.
pub open spec fn latest_request(latest_block: BlockNumber) -> StreamRequest {
    StreamRequest::Rewind {
        start_height: BlockNumberOrTag::Earliest,
        end_height: BlockNumberOrTag::Number(latest_block),
    }
}

/// What follows the search up to the newest block: the blocks behind it.
pub open spec fn live_phase(latest_block: BlockNumber, block_confirmations: u64) -> LivePhase {
    LivePhase {
        announcement: ScannerStatus::SwitchingToLive,
        request: StreamRequest::From {
            start_height: BlockNumberOrTag::Number((latest_block + 1) as u64),
            block_confirmations,
        },
        mode: ConsumerMode::Stream,
    }
}

impl<P, S> EventScanner<SyncFromLatestEvents, P, S> {
    /// Starts the scanner; `latest_block` is what the node answers when asked for its newest block.
    ///
    /// The newest block bounds both phases, so that no event is delivered twice and none is missed
    /// if further blocks arrive in the meantime.
    pub fn start(self, latest_block: Result<Option<BlockNumber>, ScannerError>) -> (started: Result<
        (Scan<P, S>, LivePhase, StartProof),
        ScannerError,
    >)
        requires
            latest_block matches Ok(Some(number)) ==> number < u64::MAX,
        ensures
            match latest_block {
                Err(e) => started == Err::<(Scan<P, S>, LivePhase, StartProof), ScannerError>(e),
                Ok(None) => started == Err::<(Scan<P, S>, LivePhase, StartProof), ScannerError>(
                    ScannerError::BlockNotFound(BlockId::Number(BlockNumberOrTag::Latest)),
                ),
                Ok(Some(number)) => {
                    &&& started matches Ok((scan, live, start))
                    &&& scan == self.scan(
                        latest_request(number),
                        ConsumerMode::CollectLatest { count: self.config.count },
                    )
                    &&& live == live_phase(number, self.config.block_confirmations)
                    &&& start.shows_start()
                },
            },
    {
        let latest_block: BlockNumber = match latest_block {
            Ok(Some(number)) => number,
            Ok(None) => return Err(
                ScannerError::BlockNotFound(BlockId::Number(BlockNumberOrTag::Latest)),
            ),
            Err(e) => return Err(e),
        };
        let block_confirmations: u64 = self.config.block_confirmations;
        let mode = ConsumerMode::CollectLatest { count: self.config.count };
        let (scan, start) = self.start_with(
            StreamRequest::Rewind {
                start_height: BlockNumberOrTag::Earliest,
                end_height: BlockNumberOrTag::Number(latest_block),
            },
            mode,
        );
        let live = LivePhase {
            announcement: ScannerStatus::SwitchingToLive,
            request: StreamRequest::From {
                start_height: BlockNumberOrTag::Number(latest_block + 1),
                block_confirmations,
            },
            mode: ConsumerMode::Stream,
        };
        Ok((scan, live, start))
    }
}

/// No block is scanned in both phases and none is left out between them: the first phase ends with
/// the block that was the newest at the start, and the second begins with the one behind it,
/// whatever the newest block is by then and whether or not the one behind it exists yet.
pub proof fn phases_meet(
    latest_block: BlockNumber,
    block_confirmations: u64,
    later_latest: BlockNumber,
)
    requires
        latest_block <= later_latest < u64::MAX,
    ensures
        latest_request(latest_block) matches StreamRequest::Rewind { start_height, end_height }
            && start_height == BlockNumberOrTag::Earliest && end_height
            == BlockNumberOrTag::Number(latest_block),
        ({
            let next = (latest_block + 1) as u64;
            let found = if next <= later_latest {
                Some(next)
            } else {
                None
            };
            &&& live_phase(latest_block, block_confirmations).request == (StreamRequest::From {
                start_height: BlockNumberOrTag::Number(next),
                block_confirmations,
            })
            &&& scanner::sync_start(BlockNumberOrTag::Number(next), found, later_latest) == Some(
                next,
            )
            &&& match scanner::sync_plan(next, later_latest, block_confirmations) {
                scanner::SyncPlan::Live { range_start } => range_start == latest_block + 1,
                scanner::SyncPlan::HistoryThenLive { history, live_start, .. } => {
                    &&& history.start == latest_block + 1
                    &&& live_start == history.end + 1
                },
            }
        }),
{
}

/// Between the two phases listeners are told that what follows is live, and then every event is
/// passed on.
pub proof fn new_events_are_announced_and_streamed(
    latest_block: BlockNumber,
    block_confirmations: u64,
)
    ensures
        live_phase(latest_block, block_confirmations).announcement
            == ScannerStatus::SwitchingToLive,
        live_phase(latest_block, block_confirmations).mode == ConsumerMode::Stream,
{
}

} // verus!
