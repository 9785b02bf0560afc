//! Past events, followed by new ones as they come.

use super::{BaseConfig, BaseConfigBuilder};
use crate::block_range_scanner::common::DEFAULT_BLOCK_CONFIRMATIONS;
use crate::event_filter::EventFilter;
use crate::event_lib::scanner::{EventScannerService, Plan};
use crate::event_scanner::consumer::ConsumerMode;
use crate::event_scanner::request::{EventListener, StreamRequest};
use crate::types::BlockNumberOrTag;
use vstd::prelude::*;

verus! {

/// The settings of a scanner for events from a block on.
#[derive(Debug)]
pub struct SyncModeConfig<P> {
    pub base: BaseConfig<P>,
    /// The first block.
    pub from_block: BlockNumberOrTag,
    /// How many blocks confirm a block.
    pub block_confirmations: u64,
}

/// A scanner for events from a block on.
pub struct SyncModeScanner<P, S> {
    pub mode: SyncModeConfig<P>,
    pub inner: EventScannerService<P, S>,
}

impl<P> BaseConfigBuilder<P> for SyncModeConfig<P> {
    open spec fn base(self) -> BaseConfig<P> {
        self.base
    }

    open spec fn with_base(self, base: BaseConfig<P>) -> Self {
        SyncModeConfig { base, ..self }
    }

    fn base_mut(&mut self) -> (base: &mut BaseConfig<P>) {
        &mut self.base
    }
}

impl<P> SyncModeConfig<P> {
    /// The default settings.
    pub fn new() -> (config: Self)
        ensures
            config.base.block_range_scanner.is_default(),
            config.from_block == BlockNumberOrTag::Earliest,
            config.block_confirmations == DEFAULT_BLOCK_CONFIRMATIONS,
    {
        SyncModeConfig {
            base: BaseConfig::new(),
            from_block: BlockNumberOrTag::Earliest,
            block_confirmations: DEFAULT_BLOCK_CONFIRMATIONS,
        }
    }

    /// Sets the first block.
    #[must_use]
    pub fn from_block(self, block: BlockNumberOrTag) -> (config: Self)
        ensures
            config == (SyncModeConfig { from_block: block, ..self }),
    {
        SyncModeConfig { from_block: block, ..self }
    }

    /// Sets how many blocks confirm a block.
    #[must_use]
    pub fn block_confirmations(self, count: u64) -> (config: Self)
        ensures
            config == (SyncModeConfig { block_confirmations: count, ..self }),
    {
        SyncModeConfig { block_confirmations: count, ..self }
    }

    /// The scanner, connected to a node.
    pub fn connect_provider<S>(self, provider: P) -> (scanner: SyncModeScanner<P, S>)
        ensures
            scanner.mode == (SyncModeConfig { base: scanner.mode.base, ..self }),
            scanner.mode.base.block_range_scanner.is_handed_over(self.base.block_range_scanner),
            scanner.inner.is_new(scanner.inner.block_range_scanner),
            scanner.inner.block_range_scanner.is_connected(
                self.base.block_range_scanner,
                provider,
            ),
    {
        let mut mode = self;
        let connected = mode.base.block_range_scanner.hand_over(provider);
        SyncModeScanner { mode, inner: EventScannerService::from_config(connected) }
    }
}

impl<P, S> SyncModeScanner<P, S> {
    /// Adds a listener: events that match `filter` go to `sender`.
    pub fn create_event_stream(&mut self, filter: EventFilter, sender: S)
        ensures
            final(self).mode == old(self).mode,
            final(self).inner.is_joined(old(self).inner, EventListener { filter, sender }),
    {
        self.inner.create_event_stream(filter, sender);
    }

    /// Streams the events from the block on, then new ones as they come.
    pub fn stream(self) -> (plan: Plan)
        ensures
            plan.0 == (StreamRequest::From {
                start_height: self.mode.from_block,
                block_confirmations: self.mode.block_confirmations,
            }),
            plan.1 == ConsumerMode::Stream,
    {
        self.inner.stream_from(self.mode.from_block, self.mode.block_confirmations)
    }
}

/// Other settings in common replace the old ones, and the start and the confirmations stay.
pub proof fn common_settings_are_replaced<P>(config: SyncModeConfig<P>, base: BaseConfig<P>)
    ensures
        config.with_base(base).base() == base,
        config.with_base(base).from_block == config.from_block,
        config.with_base(base).block_confirmations == config.block_confirmations,
{
}

} // verus!
