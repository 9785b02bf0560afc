//! The modes of a scanner.

pub mod historic;
pub mod latest;
pub mod live;
pub mod subscribe;
pub mod sync;

use crate::block_range_scanner::common::DEFAULT_BLOCK_CONFIRMATIONS;
use crate::block_range_scanner::BlockRangeScanner;
use crate::types::BlockNumberOrTag;
use historic::HistoricScannerConfig;
use latest::LatestScannerConfig;
use live::LiveModeConfig;
use sync::SyncModeConfig;
use vstd::prelude::*;

verus! {

/// Where a scanner is configured.
#[derive(Debug)]
pub struct EventScanner;

impl EventScanner {
    /// A scanner for past events.
    #[must_use]
    pub fn historic<P>() -> (config: HistoricScannerConfig<P>)
        ensures
            config.base.block_range_scanner.is_default(),
            config.from_block == BlockNumberOrTag::Earliest,
            config.to_block == BlockNumberOrTag::Latest,
    {
        HistoricScannerConfig::new()
    }

    /// A scanner for new events.
    #[must_use]
    pub fn live<P>() -> (config: LiveModeConfig<P>)
        ensures
            config.base.block_range_scanner.is_default(),
            config.block_confirmations == DEFAULT_BLOCK_CONFIRMATIONS,
    {
        LiveModeConfig::new()
    }

    /// A scanner for past events and the new ones that follow.
    #[must_use]
    pub fn sync<P>() -> (config: SyncModeConfig<P>)
        ensures
            config.base.block_range_scanner.is_default(),
            config.from_block == BlockNumberOrTag::Earliest,
            config.block_confirmations == DEFAULT_BLOCK_CONFIRMATIONS,
    {
        SyncModeConfig::new()
    }

    /// A scanner for the latest events.
    #[must_use]
    pub fn latest<P>() -> (config: LatestScannerConfig<P>)
        ensures
            config.base.block_range_scanner.is_default(),
            config.count == 1,
            config.from_block == BlockNumberOrTag::Earliest,
            config.to_block == BlockNumberOrTag::Latest,
            config.block_confirmations == DEFAULT_BLOCK_CONFIRMATIONS,
            !config.switch_to_live,
    {
        LatestScannerConfig::new()
    }
}

/// What all scanners have in common; `P` is a node.
#[derive(Debug)]
pub struct BaseConfig<P> {
    pub block_range_scanner: BlockRangeScanner<P>,
}

impl<P> BaseConfig<P> {
    /// The default settings.
    fn new() -> (base: Self)
        ensures
            base.block_range_scanner.is_default(),
    {
        BaseConfig { block_range_scanner: BlockRangeScanner::new() }
    }
}

/// Settings that hold those which all scanners have in common.
pub trait BaseConfigBuilder<P>: Sized {
    /// The settings in common.
    spec fn base(self) -> BaseConfig<P>;

    /// These settings, with others in common.
    spec fn with_base(self, base: BaseConfig<P>) -> Self;

    /// Gives access to the settings in common.
    fn base_mut(&mut self) -> (base: &mut BaseConfig<P>)
        ensures
            *base == old(self).base(),
            *final(self) == old(self).with_base(*final(base)),
    ;

    /// Sets the most blocks in a range.
    #[must_use]
    fn max_block_range(self, max_block_range: u64) -> (config: Self)
        ensures
            config == self.with_base(
                BaseConfig {
                    block_range_scanner: BlockRangeScanner {
                        max_block_range,
                        ..self.base().block_range_scanner
                    },
                },
            ),
    {
        let mut config = self;
        let base = config.base_mut();
        base.block_range_scanner.max_block_range = max_block_range;
        config
    }
}

} // verus!
