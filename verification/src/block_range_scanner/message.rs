//! Messages of the subscription service.

use crate::error::ScannerError;
use crate::types::BlockRange;
use vstd::prelude::*;

verus! {

/// What the service tells its subscriber besides data.
#[derive(Clone, Copy, Debug, PartialEq, Eq, Structural)]
pub enum ScannerStatus {
    /// The historical part is complete.
    ChainTipReached,
    /// What follows is live.
    SwitchingToLive,
    /// Blocks already streamed have left the chain.
    ReorgDetected,
}

/// An item of a stream: data, an error, or a status.
#[derive(Clone, Debug)]
pub enum ScannerMessage<T, E> {
    Data(T),
    Error(E),
    Status(ScannerStatus),
}

/// A message about a range of blocks.
pub type Message = ScannerMessage<BlockRange, ScannerError>;

impl From<BlockRange> for Message {
    fn from(range: BlockRange) -> (message: Message) {
        ScannerMessage::Data(range)
    }
}

impl vstd::std_specs::convert::FromSpecImpl<BlockRange> for Message {
    open spec fn obeys_from_spec() -> bool {
        true
    }

    open spec fn from_spec(range: BlockRange) -> Message {
        ScannerMessage::Data(range)
    }
}

impl From<ScannerError> for Message {
    fn from(error: ScannerError) -> (message: Message) {
        ScannerMessage::Error(error)
    }
}

impl vstd::std_specs::convert::FromSpecImpl<ScannerError> for Message {
    open spec fn obeys_from_spec() -> bool {
        true
    }

    open spec fn from_spec(error: ScannerError) -> Message {
        ScannerMessage::Error(error)
    }
}

impl From<ScannerStatus> for Message {
    fn from(status: ScannerStatus) -> (message: Message) {
        ScannerMessage::Status(status)
    }
}

impl vstd::std_specs::convert::FromSpecImpl<ScannerStatus> for Message {
    open spec fn obeys_from_spec() -> bool {
        true
    }

    open spec fn from_spec(status: ScannerStatus) -> Message {
        ScannerMessage::Status(status)
    }
}

impl PartialEq<BlockRange> for Message {
    fn eq(&self, other: &BlockRange) -> (same: bool) {
        match self {
            ScannerMessage::Data(range) => *range == *other,
            _ => false,
        }
    }
}

impl vstd::std_specs::cmp::PartialEqSpecImpl<BlockRange> for Message {
    open spec fn obeys_eq_spec() -> bool {
        true
    }

    open spec fn eq_spec(&self, other: &BlockRange) -> bool {
        *self == Message::Data(*other)
    }
}

/// A range, an error or a status becomes the message that carries it.
pub proof fn message_carries_what_it_is_made_of(
    range: BlockRange,
    error: ScannerError,
    status: ScannerStatus,
)
    ensures
        <Message as vstd::std_specs::convert::FromSpec<BlockRange>>::from_spec(range)
            == Message::Data(range),
        <Message as vstd::std_specs::convert::FromSpec<ScannerError>>::from_spec(error)
            == Message::Error(error),
        <Message as vstd::std_specs::convert::FromSpec<ScannerStatus>>::from_spec(status)
            == Message::Status(status),
{
}

} // verus!
