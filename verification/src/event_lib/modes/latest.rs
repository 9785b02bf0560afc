//! The latest events.

use super::{BaseConfig, BaseConfigBuilder};
use crate::block_range_scanner::common::DEFAULT_BLOCK_CONFIRMATIONS;
use crate::event_filter::EventFilter;
use crate::event_lib::scanner::{EventScannerService};
use crate::event_scanner::request::EventListener;
use crate::types::BlockNumberOrTag;
use vstd::prelude::*;

verus! {

/// The settings of a scanner for the latest events.
#[derive(Debug)]
pub struct LatestScannerConfig<P> {
    pub base: BaseConfig<P>,
    /// How many events are wanted.
    pub count: u64,
    /// The first block.
    pub from_block: BlockNumberOrTag,
    /// The last block.
    pub to_block: BlockNumberOrTag,
    /// How many blocks confirm a block.
    pub block_confirmations: u64,
    /// Whether new events follow.
    pub switch_to_live: bool,
}

/// A scanner for the latest events.
pub struct LatestEventScanner<P, S> {
    pub config: LatestScannerConfig<P>,
    pub inner: EventScannerService<P, S>,
}

impl<P> BaseConfigBuilder<P> for LatestScannerConfig<P> {
    open spec fn base(self) -> BaseConfig<P> {
        self.base
    }

    open spec fn with_base(self, base: BaseConfig<P>) -> Self {
        LatestScannerConfig { base, ..self }
    }

    fn base_mut(&mut self) -> (base: &mut BaseConfig<P>) {
        &mut self.base
    }
}

impl<P> LatestScannerConfig<P> {
    /// The default settings.
    pub fn new() -> (config: Self)
        ensures
            config.base.block_range_scanner.is_default(),
            config.count == 1,
            config.from_block == BlockNumberOrTag::Earliest,
            config.to_block == BlockNumberOrTag::Latest,
            config.block_confirmations == DEFAULT_BLOCK_CONFIRMATIONS,
            config.switch_to_live == false,
    {
        LatestScannerConfig {
            base: BaseConfig::new(),
            count: 1,
            from_block: BlockNumberOrTag::Earliest,
            to_block: BlockNumberOrTag::Latest,
            block_confirmations: DEFAULT_BLOCK_CONFIRMATIONS,
            switch_to_live: false,
        }
    }

    /// Sets how many blocks confirm a block.
    #[must_use]
    pub fn block_confirmations(self, count: u64) -> (config: Self)
        ensures
            config == (LatestScannerConfig { block_confirmations: count, ..self }),
    {
        LatestScannerConfig { block_confirmations: count, ..self }
    }

    /// Sets how many events are wanted.
    #[must_use]
    pub fn count(self, count: u64) -> (config: Self)
        ensures
            config == (LatestScannerConfig { count, ..self }),
    {
        LatestScannerConfig { count, ..self }
    }

    /// Sets the first block.
    #[must_use]
    pub fn from_block(self, block: BlockNumberOrTag) -> (config: Self)
        ensures
            config == (LatestScannerConfig { from_block: block, ..self }),
    {
        LatestScannerConfig { from_block: block, ..self }
    }

    /// Sets the last block.
    #[must_use]
    pub fn to_block(self, block: BlockNumberOrTag) -> (config: Self)
        ensures
            config == (LatestScannerConfig { to_block: block, ..self }),
    {
        LatestScannerConfig { to_block: block, ..self }
    }

    /// Has new events follow.
    #[must_use]
    pub fn then_live(self) -> (config: Self)
        ensures
            config == (LatestScannerConfig { switch_to_live: true, ..self }),
    {
        LatestScannerConfig { switch_to_live: true, ..self }
    }

    /// The scanner, connected to a node.
    pub fn connect_provider<S>(self, provider: P) -> (scanner: LatestEventScanner<P, S>)
        ensures
            scanner.config == (LatestScannerConfig { base: scanner.config.base, ..self }),
            scanner.config.base.block_range_scanner.is_handed_over(self.base.block_range_scanner),
            scanner.inner.is_new(scanner.inner.block_range_scanner),
            scanner.inner.block_range_scanner.is_connected(
                self.base.block_range_scanner,
                provider,
            ),
    {
        let mut config = self;
        let connected = config.base.block_range_scanner.hand_over(provider);
        LatestEventScanner { config, inner: EventScannerService::from_config(connected) }
    }
}

impl<P, S> LatestEventScanner<P, S> {
    /// Adds a listener: events that match `filter` go to `sender`.
    pub fn create_event_stream(&mut self, filter: EventFilter, sender: S)
        ensures
            final(self).config == old(self).config,
            final(self).inner.is_joined(old(self).inner, EventListener { filter, sender }),
    {
        self.inner.create_event_stream(filter, sender);
    }
}

/// Other settings in common replace the old ones, and all others stay.
pub proof fn common_settings_are_replaced<P>(config: LatestScannerConfig<P>, base: BaseConfig<P>)
    ensures
        config.with_base(base).base() == base,
        config.with_base(base).count == config.count,
        config.with_base(base).from_block == config.from_block,
        config.with_base(base).to_block == config.to_block,
        config.with_base(base).block_confirmations == config.block_confirmations,
        config.with_base(base).switch_to_live == config.switch_to_live,
{
}

} // verus!
