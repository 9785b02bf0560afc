//! New events, as they come.

use super::{EventScanner, EventScannerBuilder, Live};
use crate::error::ScannerError;
use crate::event_scanner::consumer::ConsumerMode;
use crate::event_scanner::request::{Scan, StreamRequest};
use crate::event_scanner::stream::StartProof;
use vstd::prelude::*;

verus! {

impl<P> EventScannerBuilder<Live, P> {
    /// Sets how many blocks confirm a block.
    #[must_use]
    pub fn block_confirmations(self, confirmations: u64) -> (builder: Self)
        ensures
            builder == (EventScannerBuilder {
                config: Live { block_confirmations: confirmations },
                ..self
            }),
    {
        EventScannerBuilder { config: Live { block_confirmations: confirmations }, ..self }
    }

    /// Connects to a node; it is an error if the most blocks in a range are zero.
    pub fn connect<S>(self, provider: P) -> (scanner: Result<
        EventScanner<Live, P, S>,
        ScannerError,
    >)
        ensures
            self.block_range_scanner.max_block_range == 0 <==> scanner is Err,
            scanner matches Err(e) ==> e == ScannerError::InvalidMaxBlockRange,
            scanner matches Ok(scanner) ==> scanner.is_new(
                self.config,
                self.block_range_scanner,
                provider,
            ),
    {
        self.build(provider)
    }
}

impl<P, S> EventScanner<Live, P, S> {
    /// Starts the scanner in live mode.
    pub fn start(self) -> (started: (Scan<P, S>, StartProof))
        ensures
            started.0 == self.scan(
                StreamRequest::Live { block_confirmations: self.config.block_confirmations },
                ConsumerMode::Stream,
            ),
            started.1.shows_start(),
    {
        let request = StreamRequest::Live {
            block_confirmations: self.config.block_confirmations,
        };
        self.start_with(request, ConsumerMode::Stream)
    }
}

} // verus!
