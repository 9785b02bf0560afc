//! The service behind the scanners: who listens, and which block ranges are asked for.

use crate::block_range_scanner::ConnectedBlockRangeScanner;
use crate::event_filter::EventFilter;
use crate::event_scanner::consumer::ConsumerMode;
use crate::event_scanner::request::{EventListener, StreamRequest};
use crate::types::BlockNumberOrTag;
use vstd::prelude::*;

verus! {

/// The block ranges asked for, and what each listener does with the events in them.
pub type Plan = (StreamRequest, ConsumerMode);

/// The service behind the scanners; `P` is a node, and `S` is where events are sent.
pub struct EventScannerService<P, S> {
    pub block_range_scanner: ConnectedBlockRangeScanner<P>,
    pub event_listeners: Vec<EventListener<S>>,
}

impl<P, S> EventScannerService<P, S> {
    /// Whether nobody listens yet, and this is the scanner of block ranges.
    pub open spec fn is_new(self, block_range_scanner: ConnectedBlockRangeScanner<P>) -> bool {
        &&& self.block_range_scanner == block_range_scanner
        &&& self.event_listeners@ == Seq::<EventListener<S>>::empty()
    }

    /// The service, with one listener more.
    pub open spec fn is_joined(self, old_service: Self, listener: EventListener<S>) -> bool {
        &&& self.block_range_scanner == old_service.block_range_scanner
        &&& self.event_listeners@ == old_service.event_listeners@.push(listener)
    }

    /// A service without listeners.
    pub fn from_config(block_range_scanner: ConnectedBlockRangeScanner<P>) -> (service: Self)
        ensures
            service.is_new(block_range_scanner),
    {
        EventScannerService { block_range_scanner, event_listeners: Vec::new() }
    }

    /// Adds a listener: events that match `event_filter` go to `sender`.
    pub fn create_event_stream(&mut self, event_filter: EventFilter, sender: S)
        ensures
            final(self).is_joined(*old(self), EventListener { filter: event_filter, sender }),
    {
        self.add_event_listener(EventListener { filter: event_filter, sender });
    }

    /// Adds a listener.
    fn add_event_listener(&mut self, event_listener: EventListener<S>)
        ensures
            final(self).is_joined(*old(self), event_listener),
    {
        self.event_listeners.push(event_listener);
    }

    /// Streams new events as they come.
    pub fn stream_live(&self, block_confirmations: u64) -> (plan: Plan)
        ensures
            plan.0 == (StreamRequest::Live { block_confirmations }),
            plan.1 == ConsumerMode::Stream,
    {
        (StreamRequest::Live { block_confirmations }, ConsumerMode::Stream)
    }

    /// Streams the events of a range of past blocks.
    pub fn stream_historical(
        &self,
        start_height: BlockNumberOrTag,
        end_height: BlockNumberOrTag,
    ) -> (plan: Plan)
        ensures
            plan.0 == (StreamRequest::Historical { start_height, end_height }),
            plan.1 == ConsumerMode::Stream,
    {
        (StreamRequest::Historical { start_height, end_height }, ConsumerMode::Stream)
    }

    /// Streams the events from a block on, then new ones as they come.
    pub fn stream_from(&self, start_height: BlockNumberOrTag, block_confirmations: u64) -> (plan:
        Plan)
        ensures
            plan.0 == (StreamRequest::From { start_height, block_confirmations }),
            plan.1 == ConsumerMode::Stream,
    {
        (StreamRequest::From { start_height, block_confirmations }, ConsumerMode::Stream)
    }

    /// Delivers the latest `count` events of a range of past blocks.
    pub fn stream_latest(
        &self,
        count: usize,
        start_height: BlockNumberOrTag,
        end_height: BlockNumberOrTag,
    ) -> (plan: Plan)
        ensures
            plan.0 == (StreamRequest::Rewind { start_height, end_height }),
            plan.1 == (ConsumerMode::CollectLatest { count }),
    {
        (
            StreamRequest::Rewind { start_height, end_height },
            ConsumerMode::CollectLatest { count },
        )
    }
}

/// A new service has no listener.  One that joins comes behind those before it.
pub proof fn listeners_join_in_order<P, S>(
    service: EventScannerService<P, S>,
    joined: EventScannerService<P, S>,
    listener: EventListener<S>,
    block_range_scanner: ConnectedBlockRangeScanner<P>,
)
    ensures
        service.is_new(block_range_scanner) ==> service.event_listeners@.len() == 0
            && service.block_range_scanner == block_range_scanner,
        joined.is_joined(service, listener) ==> {
            &&& joined.event_listeners@.len() == service.event_listeners@.len() + 1
            &&& joined.event_listeners@.last() == listener
            &&& joined.event_listeners@.drop_last() == service.event_listeners@
            &&& joined.block_range_scanner == service.block_range_scanner
        },
{
}

} // verus!
