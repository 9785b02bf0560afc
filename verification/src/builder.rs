//! The settings of a scanner that calls back for each event.

use crate::callback::strategy::FixedRetryConfig;
#[allow(unused_imports)]
use crate::callback::strategy::fixed_retry;
use crate::types::Address;
use vstd::prelude::*;
use vstd::string::*;

verus! {

/// An event to look for, and what is called for it.
#[derive(Debug)]
pub struct EventFilter<C> {
    pub contract_address: Address,
    pub event: String,
    pub callback: C,
}

/// The settings of a scanner; `C` is what is called for an event.
#[derive(Debug)]
pub struct ScannerBuilder<C> {
    pub rpc_url: String,
    pub start_block: Option<u64>,
    pub end_block: Option<u64>,
    pub max_blocks_per_filter: u64,
    pub tracked_events: Vec<EventFilter<C>>,
    pub callback_config: FixedRetryConfig,
}

impl<C> ScannerBuilder<C> {
    /// Whether two builders differ at most in the events that they track.
    pub open spec fn agrees_with(self, other: Self) -> bool {
        &&& self.rpc_url == other.rpc_url
        &&& self.start_block == other.start_block
        &&& self.end_block == other.end_block
        &&& self.max_blocks_per_filter == other.max_blocks_per_filter
        &&& self.callback_config == other.callback_config
    }

    /// The settings that hold unless set otherwise, for a node at the given address.
    pub fn new(rpc_url: &str) -> (builder: Self)
        ensures
            builder.rpc_url@ == rpc_url@,
            builder.start_block is None,
            builder.end_block is None,
            builder.max_blocks_per_filter == 1000,
            builder.tracked_events@ == Seq::<EventFilter<C>>::empty(),
            builder.callback_config == (FixedRetryConfig {
                max_attempts: fixed_retry::BACK_OFF_MAX_RETRIES,
                delay_ms: fixed_retry::BACK_OFF_MAX_DELAY_MS,
            }),
    {
        ScannerBuilder {
            rpc_url: rpc_url.to_string(),
            start_block: None,
            end_block: None,
            max_blocks_per_filter: 1000,
            tracked_events: Vec::new(),
            callback_config: FixedRetryConfig::default(),
        }
    }

    /// Sets the first block.
    #[must_use]
    pub fn start_block(self, start_block: u64) -> (builder: Self)
        ensures
            builder == (ScannerBuilder { start_block: Some(start_block), ..self }),
    {
        ScannerBuilder { start_block: Some(start_block), ..self }
    }

    /// Sets the last block.
    #[must_use]
    pub fn end_block(self, end_block: u64) -> (builder: Self)
        ensures
            builder == (ScannerBuilder { end_block: Some(end_block), ..self }),
    {
        ScannerBuilder { end_block: Some(end_block), ..self }
    }

    /// Sets how many blocks are asked for at once.
    #[must_use]
    pub fn max_blocks_per_filter(self, max_blocks: u64) -> (builder: Self)
        ensures
            builder == (ScannerBuilder { max_blocks_per_filter: max_blocks, ..self }),
    {
        ScannerBuilder { max_blocks_per_filter: max_blocks, ..self }
    }

    /// Adds an event to look for.
    #[must_use]
    pub fn add_event_filter(self, filter: EventFilter<C>) -> (builder: Self)
        ensures
            builder.agrees_with(self),
            builder.tracked_events@ == self.tracked_events@.push(filter),
    {
        let mut builder = self;
        builder.tracked_events.push(filter);
        builder
    }

    /// Adds events to look for.
    #[must_use]
    pub fn add_event_filters(self, filters: Vec<EventFilter<C>>) -> (builder: Self)
        ensures
            builder.agrees_with(self),
            builder.tracked_events@ == self.tracked_events@ + filters@,
    {
        let mut builder = self;
        let mut filters = filters;
        builder.tracked_events.append(&mut filters);
        builder
    }

    /// Sets what is done when a callback fails.
    #[must_use]
    pub fn callback_config(self, cfg: FixedRetryConfig) -> (builder: Self)
        ensures
            builder == (ScannerBuilder { callback_config: cfg, ..self }),
    {
        ScannerBuilder { callback_config: cfg, ..self }
    }
}

} // verus!
