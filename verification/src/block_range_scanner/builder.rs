//! How a scanner of block ranges is set up and connected to a node.

use super::common::{DEFAULT_MAX_BLOCK_RANGE, DEFAULT_STREAM_BUFFER_CAPACITY};
use super::scanner::Service;
use crate::error::ScannerError;
#[allow(unused_imports)]
use crate::robust_provider;
use crate::robust_provider::{RobustProvider, DEFAULT_MAX_TIMEOUT, DEFAULT_MIN_DELAY};
use crate::types::TimeSpan;
use vstd::prelude::*;

verus! {

/// Default number of retries after a failed attempt.
pub const DEFAULT_MAX_RETRIES: usize = 3;

/// The settings of a scanner of block ranges; `P` is a node.
#[derive(Debug)]
pub struct BlockRangeScanner<P> {
    /// The most blocks in a range.
    pub max_block_range: u64,
    /// How long a request may take.
    pub max_timeout: TimeSpan,
    /// How often a request is repeated.
    pub max_retries: usize,
    /// The first pause between two requests.
    pub retry_interval: TimeSpan,
    /// Nodes that stand in for the first.
    pub fallback_providers: Vec<P>,
    /// How many messages may wait for whoever reads them.
    pub buffer_capacity: usize,
}

impl<P> Default for BlockRangeScanner<P> {
    fn default() -> (settings: Self)
        ensures
            settings.is_default(),
    {
        Self::new()
    }
}

impl<P> BlockRangeScanner<P> {
    /// Whether the settings are those of a new scanner.
    pub open spec fn is_default(self) -> bool {
        &&& self.max_block_range == DEFAULT_MAX_BLOCK_RANGE
        &&& self.max_timeout == DEFAULT_MAX_TIMEOUT
        &&& self.max_retries == DEFAULT_MAX_RETRIES
        &&& self.retry_interval == DEFAULT_MIN_DELAY
        &&& self.fallback_providers@ == Seq::<P>::empty()
        &&& self.buffer_capacity == DEFAULT_STREAM_BUFFER_CAPACITY
    }

    /// The default settings.
    #[must_use]
    pub fn new() -> (settings: Self)
        ensures
            settings.is_default(),
    {
        BlockRangeScanner {
            max_block_range: DEFAULT_MAX_BLOCK_RANGE,
            max_timeout: DEFAULT_MAX_TIMEOUT,
            max_retries: DEFAULT_MAX_RETRIES,
            retry_interval: DEFAULT_MIN_DELAY,
            fallback_providers: Vec::new(),
            buffer_capacity: DEFAULT_STREAM_BUFFER_CAPACITY,
        }
    }

    /// Sets the most blocks in a range.
    #[must_use]
    pub fn max_block_range(self, max_block_range: u64) -> (settings: Self)
        ensures
            settings == (BlockRangeScanner { max_block_range, ..self }),
    {
        BlockRangeScanner { max_block_range, ..self }
    }

    /// Sets how long a request may take.
    #[must_use]
    pub fn with_max_timeout(self, max_timeout: TimeSpan) -> (settings: Self)
        ensures
            settings == (BlockRangeScanner { max_timeout, ..self }),
    {
        BlockRangeScanner { max_timeout, ..self }
    }

    /// Sets how often a request is repeated.
    #[must_use]
    pub fn with_max_retries(self, max_retries: usize) -> (settings: Self)
        ensures
            settings == (BlockRangeScanner { max_retries, ..self }),
    {
        BlockRangeScanner { max_retries, ..self }
    }

    /// Sets the first pause between two requests.
    #[must_use]
    pub fn with_retry_interval(self, retry_interval: TimeSpan) -> (settings: Self)
        ensures
            settings == (BlockRangeScanner { retry_interval, ..self }),
    {
        BlockRangeScanner { retry_interval, ..self }
    }

    /// Adds a node that stands in for the first.
    #[must_use]
    pub fn fallback_provider(self, provider: P) -> (settings: Self)
        ensures
            settings.fallback_providers@ == self.fallback_providers@.push(provider),
            settings == (BlockRangeScanner {
                fallback_providers: settings.fallback_providers,
                ..self
            }),
    {
        let mut settings = self;
        settings.fallback_providers.push(provider);
        settings
    }

    /// Sets how many messages may wait for whoever reads them.
    #[must_use]
    pub fn buffer_capacity(self, buffer_capacity: usize) -> (settings: Self)
        ensures
            settings == (BlockRangeScanner { buffer_capacity, ..self }),
    {
        BlockRangeScanner { buffer_capacity, ..self }
    }

    /// Whether these are the given settings, the nodes that stand in for the first having been
    /// handed over to a connected scanner.
    pub open spec fn is_handed_over(self, settings: Self) -> bool {
        &&& self.fallback_providers@ == Seq::<P>::empty()
        &&& self == (BlockRangeScanner {
            fallback_providers: self.fallback_providers,
            ..settings
        })
    }

    /// The scanner, connected to a node and to those that stand in for it, which are handed over.
    pub(crate) fn hand_over(&mut self, provider: P) -> (connected: ConnectedBlockRangeScanner<P>)
        ensures
            connected.is_connected(*old(self), provider),
            final(self).is_handed_over(*old(self)),
    {
        let mut fallback_providers: Vec<P> = Vec::new();
        std::mem::swap(&mut fallback_providers, &mut self.fallback_providers);
        ConnectedBlockRangeScanner {
            provider: RobustProvider::new(provider).max_timeout(self.max_timeout).max_retries(
                self.max_retries,
            ).min_delay(self.retry_interval).fallbacks(fallback_providers),
            max_block_range: self.max_block_range,
            buffer_capacity: self.buffer_capacity,
        }
    }

    /// The scanner, connected to a node and to those that stand in for it.
    #[must_use]
    pub fn connect(self, provider: P) -> (connected: ConnectedBlockRangeScanner<P>)
        ensures
            connected.is_connected(self, provider),
    {
        let mut settings = self;
        settings.hand_over(provider)
    }

    /// The scanner, connected to a node and to those that stand in for it; ranges without blocks
    /// are refused.
    pub fn build(self, provider: P) -> (connected: Result<
        ConnectedBlockRangeScanner<P>,
        ScannerError,
    >)
        ensures
            self.max_block_range == 0 <==> connected is Err,
            connected matches Err(e) ==> e == ScannerError::InvalidMaxBlockRange,
            connected matches Ok(connected) ==> connected.is_connected(self, provider),
    {
        if self.max_block_range == 0 {
            return Err(ScannerError::InvalidMaxBlockRange);
        }
        Ok(self.connect(provider))
    }
}

/// A scanner of block ranges that is connected to a node.
#[derive(Debug)]
pub struct ConnectedBlockRangeScanner<P> {
    pub provider: RobustProvider<P>,
    pub max_block_range: u64,
    pub buffer_capacity: usize,
}

impl<P> ConnectedBlockRangeScanner<P> {
    /// There is a node.
    pub open spec fn wf(&self) -> bool {
        self.provider.wf()
    }

    /// Whether this is what the settings give for a node: it comes first, and those that stand in
    /// for it follow in order.
    pub open spec fn is_connected(self, settings: BlockRangeScanner<P>, provider: P) -> bool {
        &&& self.wf()
        &&& self.provider@ == (robust_provider::ProviderView {
            providers: seq![provider] + settings.fallback_providers@,
            max_timeout: settings.max_timeout,
            max_retries: settings.max_retries,
            min_delay: settings.retry_interval,
        })
        &&& self.max_block_range == settings.max_block_range
        &&& self.buffer_capacity == settings.buffer_capacity
    }

    /// Returns a reference to the underlying provider.
    #[must_use]
    pub fn provider(&self) -> (provider: &RobustProvider<P>)
        ensures
            *provider == self.provider,
    {
        &self.provider
    }

    /// Returns the stream buffer capacity.
    #[must_use]
    pub fn buffer_capacity(&self) -> (capacity: usize)
        ensures
            capacity == self.buffer_capacity,
    {
        self.buffer_capacity
    }

    /// The subscription service of the scanner.
    pub fn run<S>(&self) -> (service: Service<S>)
        ensures
            service == (Service::<S> {
                max_block_range: self.max_block_range,
                subscriber: None,
                websocket_connected: false,
                processed_count: 0,
                error_count: 0,
                shutdown: false,
            }),
    {
        Service::new(self.max_block_range)
    }
}

/// A connected scanner asks the node given first, then those that stand in for it, in order; its
/// other settings are those given.  None of those that were handed over is left behind.
pub proof fn settings_are_handed_over<P>(
    settings: BlockRangeScanner<P>,
    provider: P,
    connected: ConnectedBlockRangeScanner<P>,
    left: BlockRangeScanner<P>,
)
    requires
        connected.is_connected(settings, provider),
        left.is_handed_over(settings),
    ensures
        connected.provider@.providers.len() == settings.fallback_providers@.len() + 1,
        connected.provider@.providers[0] == provider,
        forall|i: int|
            0 <= i < settings.fallback_providers@.len()
                ==> #[trigger] connected.provider@.providers[i + 1]
                == settings.fallback_providers@[i],
        connected.provider@.max_timeout == settings.max_timeout,
        connected.provider@.max_retries == settings.max_retries,
        connected.provider@.min_delay == settings.retry_interval,
        connected.max_block_range == settings.max_block_range,
        connected.buffer_capacity == settings.buffer_capacity,
        left.fallback_providers@.len() == 0,
        left.max_block_range == settings.max_block_range,
        left.max_timeout == settings.max_timeout,
        left.max_retries == settings.max_retries,
        left.retry_interval == settings.retry_interval,
        left.buffer_capacity == settings.buffer_capacity,
{
}

} // verus!
