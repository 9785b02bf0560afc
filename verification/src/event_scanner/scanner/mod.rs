//! A scanner for events, in one of several modes.

pub mod historic;
pub mod latest;
pub mod live;
pub mod sync;

use super::consumer::ConsumerMode;
use super::request::{EventListener, Scan, StreamRequest};
use super::stream::{EventSubscription, StartProof};
use crate::block_range_scanner::common::DEFAULT_BLOCK_CONFIRMATIONS;
use crate::block_range_scanner::{BlockRangeScanner, ConnectedBlockRangeScanner};
use crate::error::ScannerError;
use crate::event_filter::EventFilter;
use crate::types::BlockNumberOrTag;
use vstd::prelude::*;

verus! {

/// How many blocks confirm a block in live mode unless set otherwise.
pub const DEFAULT_LIVE_BLOCK_CONFIRMATIONS: u64 = 12;

/// Marker indicating that a scanner mode has not been selected yet.
#[derive(Default, Debug)]
pub struct Unspecified;

/// Mode marker for historical range scanning.
#[derive(Debug, Clone, Copy, PartialEq, Eq, Structural)]
pub struct Historic {
    pub from_block: BlockNumberOrTag,
    pub to_block: BlockNumberOrTag,
}

/// Mode marker for live streaming.
#[derive(Debug, Clone, Copy, PartialEq, Eq, Structural)]
pub struct Live {
    pub block_confirmations: u64,
}

/// Mode marker for latest-events collection.
#[derive(Debug, Clone, Copy, PartialEq, Eq, Structural)]
pub struct LatestEvents {
    pub count: usize,
    pub from_block: BlockNumberOrTag,
    pub to_block: BlockNumberOrTag,
    pub block_confirmations: u64,
}

/// Marker indicating that a sync mode must be selected.
#[derive(Default, Debug)]
pub struct Synchronize;

/// Mode marker for scanning by syncing from the specified count of latest events and then switching
/// to live mode.
#[derive(Debug, Clone, Copy, PartialEq, Eq, Structural)]
pub struct SyncFromLatestEvents {
    pub count: usize,
    pub block_confirmations: u64,
}

/// Mode marker for scanning by syncing from the specified block and then switching to live mode.
#[derive(Debug, Clone, Copy, PartialEq, Eq, Structural)]
pub struct SyncFromBlock {
    pub from_block: BlockNumberOrTag,
    pub block_confirmations: u64,
}

impl Default for Historic {
    fn default() -> (mode: Self)
        ensures
            mode == (Historic {
                from_block: BlockNumberOrTag::Earliest,
                to_block: BlockNumberOrTag::Latest,
            }),
    {
        Historic { from_block: BlockNumberOrTag::Earliest, to_block: BlockNumberOrTag::Latest }
    }
}

impl Default for Live {
    fn default() -> (mode: Self)
        ensures
            mode == (Live { block_confirmations: DEFAULT_LIVE_BLOCK_CONFIRMATIONS }),
    {
        Live { block_confirmations: DEFAULT_LIVE_BLOCK_CONFIRMATIONS }
    }
}

/// An event scanner configured in mode `M`; `P` is a node, and `S` is where events are sent.
///
/// Register subscriptions with [`EventScanner::subscribe`], then start the scanner with the
/// mode-specific `start()` method.
pub struct EventScanner<M, P, S> {
    pub config: M,
    pub block_range_scanner: ConnectedBlockRangeScanner<P>,
    pub listeners: Vec<EventListener<S>>,
}

impl<M, P, S> EventScanner<M, P, S> {
    /// Whether this is a scanner with these settings and no listener.
    pub open spec fn is_new(self, config: M, settings: BlockRangeScanner<P>, provider: P) -> bool {
        &&& self.config == config
        &&& self.block_range_scanner.is_connected(settings, provider)
        &&& self.listeners@ == Seq::<EventListener<S>>::empty()
    }

    /// A scanner without listeners.
    pub fn new(config: M, block_range_scanner: ConnectedBlockRangeScanner<P>) -> (scanner: Self)
        ensures
            scanner.config == config,
            scanner.block_range_scanner == block_range_scanner,
            scanner.listeners@ == Seq::<EventListener<S>>::empty(),
    {
        EventScanner { config, block_range_scanner, listeners: Vec::new() }
    }

    /// Returns the configured stream buffer capacity.
    #[must_use]
    pub fn buffer_capacity(&self) -> (capacity: usize)
        ensures
            capacity == self.block_range_scanner.buffer_capacity,
    {
        self.block_range_scanner.buffer_capacity()
    }

    /// Registers an event subscription: events that match `filter` go to `sender`, and come out of
    /// `receiver` once the scanner has been started.
    ///
    /// Each call creates a separate subscription with its own buffer.
    #[must_use]
    pub fn subscribe<R>(&mut self, filter: EventFilter, sender: S, receiver: R) -> (subscription:
        EventSubscription<R>)
        ensures
            final(self).listeners@ == old(self).listeners@.push(EventListener { filter, sender }),
            *final(self) == (EventScanner { listeners: final(self).listeners, ..*old(self) }),
            subscription.inner() == receiver,
    {
        self.listeners.push(EventListener { filter, sender });
        EventSubscription::new(receiver)
    }

    /// The scan of the listeners, and the proof that it was started.
    fn start_with(self, request: StreamRequest, mode: ConsumerMode) -> (started: (
        Scan<P, S>,
        StartProof,
    ))
        ensures
            started.0 == self.scan(request, mode),
            started.1.shows_start(),
    {
        (
            Scan {
                block_range_scanner: self.block_range_scanner,
                listeners: self.listeners,
                request,
                mode,
            },
            StartProof::new(),
        )
    }

    /// The scan of the listeners.
    pub open spec fn scan(self, request: StreamRequest, mode: ConsumerMode) -> Scan<P, S> {
        Scan {
            block_range_scanner: self.block_range_scanner,
            listeners: self.listeners,
            request,
            mode,
        }
    }
}

/// The settings of an event scanner in mode `M`; `P` is a node.
#[derive(Debug)]
pub struct EventScannerBuilder<M, P> {
    pub config: M,
    pub block_range_scanner: BlockRangeScanner<P>,
}

impl<P> Default for EventScannerBuilder<Historic, P> {
    fn default() -> (builder: Self)
        ensures
            builder.config == (Historic {
                from_block: BlockNumberOrTag::Earliest,
                to_block: BlockNumberOrTag::Latest,
            }),
            builder.block_range_scanner.is_default(),
    {
        EventScannerBuilder {
            config: Historic::default(),
            block_range_scanner: BlockRangeScanner::new(),
        }
    }
}

impl<P> Default for EventScannerBuilder<Live, P> {
    fn default() -> (builder: Self)
        ensures
            builder.config == (Live { block_confirmations: DEFAULT_LIVE_BLOCK_CONFIRMATIONS }),
            builder.block_range_scanner.is_default(),
    {
        EventScannerBuilder {
            config: Live::default(),
            block_range_scanner: BlockRangeScanner::new(),
        }
    }
}

impl<P> Default for EventScannerBuilder<Synchronize, P> {
    fn default() -> (builder: Self)
        ensures
            builder.block_range_scanner.is_default(),
    {
        EventScannerBuilder { config: Synchronize, block_range_scanner: BlockRangeScanner::new() }
    }
}

impl<P> EventScannerBuilder<Unspecified, P> {
    /// Streams events from a historical block range.
    #[must_use]
    pub fn historic() -> (builder: EventScannerBuilder<Historic, P>)
        ensures
            builder.config == (Historic {
                from_block: BlockNumberOrTag::Earliest,
                to_block: BlockNumberOrTag::Latest,
            }),
            builder.block_range_scanner.is_default(),
    {
        EventScannerBuilder::<Historic, P>::default()
    }

    /// Streams new events as blocks are produced on-chain.  By default, waits for 12 block
    /// confirmations.
    #[must_use]
    pub fn live() -> (builder: EventScannerBuilder<Live, P>)
        ensures
            builder.config == (Live { block_confirmations: DEFAULT_LIVE_BLOCK_CONFIRMATIONS }),
            builder.block_range_scanner.is_default(),
    {
        EventScannerBuilder::<Live, P>::default()
    }

    /// Creates a builder for sync mode scanners that combine historical catch-up with live
    /// streaming.
    #[must_use]
    pub fn sync() -> (builder: EventScannerBuilder<Synchronize, P>)
        ensures
            builder.block_range_scanner.is_default(),
    {
        EventScannerBuilder::<Synchronize, P>::default()
    }

    /// Streams the latest `count` matching events per registered listener.
    #[must_use]
    pub fn latest(count: usize) -> (builder: EventScannerBuilder<LatestEvents, P>)
        ensures
            builder.config == (LatestEvents {
                count,
                from_block: BlockNumberOrTag::Latest,
                to_block: BlockNumberOrTag::Earliest,
                block_confirmations: DEFAULT_BLOCK_CONFIRMATIONS,
            }),
            builder.block_range_scanner.is_default(),
    {
        EventScannerBuilder::<LatestEvents, P>::new(count)
    }
}

impl<M, P> EventScannerBuilder<M, P> {
    /// Sets the most blocks in a range.
    #[must_use]
    pub fn max_block_range(self, max_block_range: u64) -> (builder: Self)
        ensures
            builder.config == self.config,
            builder.block_range_scanner == (BlockRangeScanner {
                max_block_range,
                ..self.block_range_scanner
            }),
    {
        EventScannerBuilder {
            config: self.config,
            block_range_scanner: self.block_range_scanner.max_block_range(max_block_range),
        }
    }

    /// The scanner, connected to a node; ranges without blocks are refused.
    fn build<S>(self, provider: P) -> (scanner: Result<
        EventScanner<M, P, S>,
        ScannerError,
    >)
        ensures
            self.block_range_scanner.max_block_range == 0 <==> scanner is Err,
            scanner matches Err(e) ==> e == ScannerError::InvalidMaxBlockRange,
            scanner matches Ok(scanner) ==> scanner.is_new(
                self.config,
                self.block_range_scanner,
                provider,
            ),
    {
        match self.block_range_scanner.build(provider) {
            Ok(connected) => Ok(EventScanner::new(self.config, connected)),
            Err(e) => Err(e),
        }
    }
}

/// A scan is made for the listeners of the scanner, with the request and the mode given.
pub proof fn scan_is_for_the_listeners<M, P, S>(
    scanner: EventScanner<M, P, S>,
    request: StreamRequest,
    mode: ConsumerMode,
)
    ensures
        scanner.scan(request, mode).listeners == scanner.listeners,
        scanner.scan(request, mode).block_range_scanner == scanner.block_range_scanner,
        scanner.scan(request, mode).request == request,
        scanner.scan(request, mode).mode == mode,
{
}

/// A new scanner has the settings given and no listener yet.
pub proof fn new_scanner_has_no_listener<M, P, S>(
    scanner: EventScanner<M, P, S>,
    config: M,
    settings: BlockRangeScanner<P>,
    provider: P,
)
    requires
        scanner.is_new(config, settings, provider),
    ensures
        scanner.config == config,
        scanner.listeners@.len() == 0,
        scanner.block_range_scanner.max_block_range == settings.max_block_range,
        scanner.block_range_scanner.buffer_capacity == settings.buffer_capacity,
        scanner.block_range_scanner.provider@.providers == seq![provider]
            + settings.fallback_providers@,
{
}

} // verus!
