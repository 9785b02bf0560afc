//! A client that starts a scan over a range of blocks or from a block on.

use super::consumer::ConsumerMode;
use super::request::{request, EventListener, StreamRequest};
#[allow(unused_imports)]
use super::request;
#[allow(unused_imports)]
use crate::block_scanner_new;
use crate::block_scanner_new::BlockScanner;
use crate::event_filter::EventFilter;
use crate::types::BlockNumberOrTag;
use vstd::prelude::*;

verus! {

/// The settings of an event scanner.
#[derive(Clone, Copy, Debug, PartialEq, Eq, Structural)]
pub struct EventScanner {
    pub block_range_scanner: BlockScanner,
}

impl Default for EventScanner {
    fn default() -> (scanner: Self)
        ensures
            scanner.block_range_scanner == block_scanner_new::default_scanner(),
    {
        Self::new()
    }
}

impl EventScanner {
    /// The settings that hold unless set otherwise.
    #[must_use]
    pub fn new() -> (scanner: Self)
        ensures
            scanner.block_range_scanner == block_scanner_new::default_scanner(),
    {
        EventScanner { block_range_scanner: BlockScanner::new() }
    }

    /// Configures how many blocks are read per epoch during a historical sync.
    #[must_use]
    pub fn with_blocks_read_per_epoch(self, blocks_read_per_epoch: usize) -> (scanner: Self)
        ensures
            scanner.block_range_scanner == (BlockScanner {
                blocks_read_per_epoch,
                ..self.block_range_scanner
            }),
    {
        EventScanner {
            block_range_scanner: BlockScanner {
                blocks_read_per_epoch,
                ..self.block_range_scanner
            },
        }
    }

    /// Sets the depth to rewind when a reorg is detected.
    #[must_use]
    pub fn with_reorg_rewind_depth(self, reorg_rewind_depth: u64) -> (scanner: Self)
        ensures
            scanner.block_range_scanner == (BlockScanner {
                reorg_rewind_depth,
                ..self.block_range_scanner
            }),
    {
        EventScanner {
            block_range_scanner: BlockScanner { reorg_rewind_depth, ..self.block_range_scanner },
        }
    }

    /// Configures how many confirmations are required before processing a block (used for reorgs).
    #[must_use]
    pub fn with_block_confirmations(self, block_confirmations: u64) -> (scanner: Self)
        ensures
            scanner.block_range_scanner == (BlockScanner {
                block_confirmations,
                ..self.block_range_scanner
            }),
    {
        EventScanner {
            block_range_scanner: BlockScanner { block_confirmations, ..self.block_range_scanner },
        }
    }

    /// A client of the scanner, connected to a node.
    pub fn connect_provider<P, S>(self, provider: P) -> (client: Client<P, S>)
        ensures
            client.event_scanner.provider == provider,
            client.event_scanner.settings == self.block_range_scanner,
            client.event_scanner.event_listeners@ == Seq::<EventListener<S>>::empty(),
    {
        Client {
            event_scanner: ConnectedEventScanner {
                provider,
                settings: self.block_range_scanner,
                event_listeners: Vec::new(),
            },
        }
    }
}

/// A scanner that is connected to a node; `P` is a node, and `S` is where events are sent.
pub struct ConnectedEventScanner<P, S> {
    pub provider: P,
    pub settings: BlockScanner,
    pub event_listeners: Vec<EventListener<S>>,
}

impl<P, S> ConnectedEventScanner<P, S> {
    /// Starts a scan: over past blocks if an end is given, over new blocks if the start is the
    /// newest block, and otherwise over past blocks followed by new ones.
    pub fn start(
        &self,
        start_height: BlockNumberOrTag,
        end_height: Option<BlockNumberOrTag>,
    ) -> (plan: (StreamRequest, ConsumerMode))
        ensures
            plan.0 == request::requested(
                start_height,
                end_height,
                self.settings.block_confirmations,
            ),
            plan.1 == ConsumerMode::Stream,
    {
        (
            request(start_height, end_height, self.settings.block_confirmations),
            ConsumerMode::Stream,
        )
    }

    /// Starts a search for the latest `count` events of a range.
    pub fn scan_latest(
        &self,
        count: usize,
        start_height: BlockNumberOrTag,
        end_height: BlockNumberOrTag,
    ) -> (plan: (StreamRequest, ConsumerMode))
        ensures
            plan.0 == (StreamRequest::Rewind { start_height, end_height }),
            plan.1 == (ConsumerMode::CollectLatest { count }),
    {
        (
            StreamRequest::Rewind { start_height, end_height },
            ConsumerMode::CollectLatest { count },
        )
    }

    /// Adds a listener.
    fn add_event_listener(&mut self, event_listener: EventListener<S>)
        ensures
            final(self).event_listeners@ == old(self).event_listeners@.push(event_listener),
            *final(self) == (ConnectedEventScanner {
                event_listeners: final(self).event_listeners,
                ..*old(self)
            }),
    {
        self.event_listeners.push(event_listener);
    }
}

/// A client of an event scanner.
pub struct Client<P, S> {
    pub event_scanner: ConnectedEventScanner<P, S>,
}

impl<P, S> Client<P, S> {
    /// Adds a listener: events that match `event_filter` go to `sender`.
    pub fn create_event_stream(&mut self, event_filter: EventFilter, sender: S)
        ensures
            final(self).event_scanner.event_listeners@ == old(
                self,
            ).event_scanner.event_listeners@.push(EventListener { filter: event_filter, sender }),
            final(self).event_scanner == (ConnectedEventScanner {
                event_listeners: final(self).event_scanner.event_listeners,
                ..old(self).event_scanner
            }),
    {
        self.event_scanner.add_event_listener(EventListener { filter: event_filter, sender });
    }

    /// Starts the scanner.
    ///
    /// Selects live, historical, or historical-then-live mode based on `start_height`/`end_height`.
    pub fn start_scanner(
        &self,
        start_height: BlockNumberOrTag,
        end_height: Option<BlockNumberOrTag>,
    ) -> (plan: (StreamRequest, ConsumerMode))
        ensures
            plan.0 == request::requested(
                start_height,
                end_height,
                self.event_scanner.settings.block_confirmations,
            ),
            plan.1 == ConsumerMode::Stream,
    {
        self.event_scanner.start(start_height, end_height)
    }

    /// Scans the latest `count` matching events across all blocks.
    pub fn scan_latest(&self, count: usize) -> (plan: (StreamRequest, ConsumerMode))
        ensures
            plan.0 == (StreamRequest::Rewind {
                start_height: BlockNumberOrTag::Earliest,
                end_height: BlockNumberOrTag::Latest,
            }),
            plan.1 == (ConsumerMode::CollectLatest { count }),
    {
        self.event_scanner.scan_latest(
            count,
            BlockNumberOrTag::Earliest,
            BlockNumberOrTag::Latest,
        )
    }

    /// Scans the latest `count` matching events within a range of blocks.
    pub fn scan_latest_in_range(
        &self,
        count: usize,
        start_height: BlockNumberOrTag,
        end_height: BlockNumberOrTag,
    ) -> (plan: (StreamRequest, ConsumerMode))
        ensures
            plan.0 == (StreamRequest::Rewind { start_height, end_height }),
            plan.1 == (ConsumerMode::CollectLatest { count }),
    {
        self.event_scanner.scan_latest(count, start_height, end_height)
    }
}

} // verus!
