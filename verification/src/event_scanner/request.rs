//! What a scanner asks for when it starts, and who hears of it.

use super::consumer::ConsumerMode;
use crate::block_range_scanner::scanner::Command;
use crate::block_range_scanner::ConnectedBlockRangeScanner;
use crate::event_filter::EventFilter;
use crate::types::BlockNumberOrTag;
use vstd::prelude::*;

verus! {

/// Someone who wants to hear of events: `S` is where they are sent.
pub struct EventListener<S> {
    pub filter: EventFilter,
    pub sender: S,
}

/// The block ranges that a scanner asks for.
#[derive(Clone, Copy, Debug, PartialEq, Eq, Structural)]
pub enum StreamRequest {
    /// Ranges of new blocks.
    Live {
        block_confirmations: u64,
    },
    /// Ranges of past blocks.
    Historical {
        start_height: BlockNumberOrTag,
        end_height: BlockNumberOrTag,
    },
    /// Ranges of past blocks, then of new ones.
    From {
        start_height: BlockNumberOrTag,
        block_confirmations: u64,
    },
    /// Ranges of past blocks, newest first.
    Rewind {
        start_height: BlockNumberOrTag,
        end_height: BlockNumberOrTag,
    },
}

impl StreamRequest {
    /// The command that asks for the ranges.
    pub open spec fn command<S, R>(self, sender: S, response: R) -> Command<S, R> {
        match self {
            StreamRequest::Live { block_confirmations } => Command::StreamLive {
                sender,
                block_confirmations,
                response,
            },
            StreamRequest::Historical { start_height, end_height } => Command::StreamHistorical {
                sender,
                start_height,
                end_height,
                response,
            },
            StreamRequest::From { start_height, block_confirmations } => Command::StreamFrom {
                sender,
                start_height,
                block_confirmations,
                response,
            },
            StreamRequest::Rewind { start_height, end_height } => Command::Rewind {
                sender,
                start_height,
                end_height,
                response,
            },
        }
    }

    /// The command that asks for the ranges: they are sent to `sender`, and the answer to
    /// `response`.
    pub fn into_command<S, R>(self, sender: S, response: R) -> (command: Command<S, R>)
        ensures
            command == self.command(sender, response),
    {
        match self {
            StreamRequest::Live { block_confirmations } => Command::StreamLive {
                sender,
                block_confirmations,
                response,
            },
            StreamRequest::Historical { start_height, end_height } => Command::StreamHistorical {
                sender,
                start_height,
                end_height,
                response,
            },
            StreamRequest::From { start_height, block_confirmations } => Command::StreamFrom {
                sender,
                start_height,
                block_confirmations,
                response,
            },
            StreamRequest::Rewind { start_height, end_height } => Command::Rewind {
                sender,
                start_height,
                end_height,
                response,
            },
        }
    }
}

/// What a client asks for: past blocks if an end is given, new blocks if the start is the newest
/// block, and otherwise past blocks followed by new ones.
pub open spec fn requested(
    start_height: BlockNumberOrTag,
    end_height: Option<BlockNumberOrTag>,
    block_confirmations: u64,
) -> StreamRequest {
    match (start_height, end_height) {
        (_, Some(end_height)) => StreamRequest::Historical { start_height, end_height },
        (BlockNumberOrTag::Latest, None) => StreamRequest::Live { block_confirmations },
        (_, None) => StreamRequest::From { start_height, block_confirmations },
    }
}

/// What a client asks for: past blocks if an end is given, new blocks if the start is the newest
/// block, and otherwise past blocks followed by new ones.
pub fn request(
    start_height: BlockNumberOrTag,
    end_height: Option<BlockNumberOrTag>,
    block_confirmations: u64,
) -> (request: StreamRequest)
    ensures
        request == requested(start_height, end_height, block_confirmations),
{
    match end_height {
        Some(end_height) => StreamRequest::Historical { start_height, end_height },
        None => match start_height {
            BlockNumberOrTag::Latest => StreamRequest::Live { block_confirmations },
            _ => StreamRequest::From { start_height, block_confirmations },
        },
    }
}

/// A scan that is about to begin: the ranges asked for, and what each listener does with the events
/// in them.
pub struct Scan<P, S> {
    pub block_range_scanner: ConnectedBlockRangeScanner<P>,
    pub listeners: Vec<EventListener<S>>,
    pub request: StreamRequest,
    pub mode: ConsumerMode,
}

/// The command for a request is of the request's kind and carries all that the request does; the
/// ranges go to the sender given, and the answer to the place given.
pub proof fn command_carries_the_request<S, R>(
    sender: S,
    response: R,
    start_height: BlockNumberOrTag,
    end_height: BlockNumberOrTag,
    block_confirmations: u64,
)
    ensures
        ({
            let live = StreamRequest::Live { block_confirmations };
            let historical = StreamRequest::Historical { start_height, end_height };
            let from = StreamRequest::From { start_height, block_confirmations };
            let rewind = StreamRequest::Rewind { start_height, end_height };
            &&& live.command(sender, response) == (Command::StreamLive {
                sender,
                block_confirmations,
                response,
            })
            &&& historical.command(sender, response) == (Command::StreamHistorical {
                sender,
                start_height,
                end_height,
                response,
            })
            &&& from.command(sender, response) == (Command::StreamFrom {
                sender,
                start_height,
                block_confirmations,
                response,
            })
            &&& rewind.command(sender, response) == (Command::Rewind {
                sender,
                start_height,
                end_height,
                response,
            })
        }),
{
}

/// Whoever names an end asks for past blocks up to it.  Whoever names none asks for new blocks too,
/// and for past ones unless the start is the newest block.
pub proof fn request_follows_from_the_heights(
    start_height: BlockNumberOrTag,
    end_height: BlockNumberOrTag,
    block_confirmations: u64,
)
    ensures
        requested(start_height, Some(end_height), block_confirmations) == (
        StreamRequest::Historical { start_height, end_height }),
        start_height == BlockNumberOrTag::Latest ==> requested(
            start_height,
            None,
            block_confirmations,
        ) == (StreamRequest::Live { block_confirmations }),
        start_height != BlockNumberOrTag::Latest ==> requested(
            start_height,
            None,
            block_confirmations,
        ) == (StreamRequest::From { start_height, block_confirmations }),
{
}

} // verus!
