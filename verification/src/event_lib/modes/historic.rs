//! Past events.

use super::{BaseConfig, BaseConfigBuilder};
use crate::event_filter::EventFilter;
use crate::event_lib::scanner::{EventScannerService, Plan};
use crate::event_scanner::consumer::ConsumerMode;
use crate::event_scanner::request::{EventListener, StreamRequest};
use crate::types::BlockNumberOrTag;
use vstd::prelude::*;

verus! {

/// The settings of a scanner for past events.
#[derive(Debug)]
pub struct HistoricScannerConfig<P> {
    pub base: BaseConfig<P>,
    /// The first block.
    pub from_block: BlockNumberOrTag,
    /// The last block.
    pub to_block: BlockNumberOrTag,
}

/// A scanner for past events.
pub struct HistoricEventScanner<P, S> {
    pub config: HistoricScannerConfig<P>,
    pub inner: EventScannerService<P, S>,
}

impl<P> BaseConfigBuilder<P> for HistoricScannerConfig<P> {
    open spec fn base(self) -> BaseConfig<P> {
        self.base
    }

    open spec fn with_base(self, base: BaseConfig<P>) -> Self {
        HistoricScannerConfig { base, ..self }
    }

    fn base_mut(&mut self) -> (base: &mut BaseConfig<P>) {
        &mut self.base
    }
}

impl<P> HistoricScannerConfig<P> {
    /// The default settings.
    pub fn new() -> (config: Self)
        ensures
            config.base.block_range_scanner.is_default(),
            config.from_block == BlockNumberOrTag::Earliest,
            config.to_block == BlockNumberOrTag::Latest,
    {
        HistoricScannerConfig {
            base: BaseConfig::new(),
            from_block: BlockNumberOrTag::Earliest,
            to_block: BlockNumberOrTag::Latest,
        }
    }

    /// Sets the first block.
    #[must_use]
    pub fn from_block(self, block: BlockNumberOrTag) -> (config: Self)
        ensures
            config == (HistoricScannerConfig { from_block: block, ..self }),
    {
        HistoricScannerConfig { from_block: block, ..self }
    }

    /// Sets the last block.
    #[must_use]
    pub fn to_block(self, block: BlockNumberOrTag) -> (config: Self)
        ensures
            config == (HistoricScannerConfig { to_block: block, ..self }),
    {
        HistoricScannerConfig { to_block: block, ..self }
    }

    /// The scanner, connected to a node.
    pub fn connect<S>(self, provider: P) -> (scanner: HistoricEventScanner<P, S>)
        ensures
            scanner.config == (HistoricScannerConfig { base: scanner.config.base, ..self }),
            scanner.config.base.block_range_scanner.is_handed_over(self.base.block_range_scanner),
            scanner.inner.is_new(scanner.inner.block_range_scanner),
            scanner.inner.block_range_scanner.is_connected(
                self.base.block_range_scanner,
                provider,
            ),
    {
        let mut config = self;
        let connected = config.base.block_range_scanner.hand_over(provider);
        HistoricEventScanner { config, inner: EventScannerService::from_config(connected) }
    }
}

impl<P, S> HistoricEventScanner<P, S> {
    /// Adds a listener: events that match `filter` go to `sender`.
    pub fn create_event_stream(&mut self, filter: EventFilter, sender: S)
        ensures
            final(self).config == old(self).config,
            final(self).inner.is_joined(old(self).inner, EventListener { filter, sender }),
    {
        self.inner.create_event_stream(filter, sender);
    }

    /// Streams the events of the range.
    pub fn run(self) -> (plan: Plan)
        ensures
            plan.0 == (StreamRequest::Historical {
                start_height: self.config.from_block,
                end_height: self.config.to_block,
            }),
            plan.1 == ConsumerMode::Stream,
    {
        self.inner.stream_historical(self.config.from_block, self.config.to_block)
    }
}

/// Other settings in common replace the old ones, and the range stays.
pub proof fn common_settings_are_replaced<P>(
    config: HistoricScannerConfig<P>,
    base: BaseConfig<P>,
)
    ensures
        config.with_base(base).base() == base,
        config.with_base(base).from_block == config.from_block,
        config.with_base(base).to_block == config.to_block,
{
}

} // verus!
