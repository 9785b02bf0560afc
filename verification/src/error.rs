//! What can go wrong while scanning.

use crate::types::{BlockId, BlockNumber};
use crate::text::{push_block_id, push_decimal};
#[allow(unused_imports)]
use crate::text;
use vstd::prelude::*;
use vstd::string::*;

verus! {

/// The error of a scan.  A failure of the node is carried as the text that describes it.
#[derive(Clone, Debug)]
pub enum ScannerError {
    /// An RPC call failed.
    RpcError(String),
    /// The service that was asked has stopped.
    ServiceShutdown,
    /// The chain has no such block.
    BlockNotFound(BlockId),
    /// The node did not answer in time.
    Timeout,
    /// An RPC call failed, and so did all its repetitions.
    RetryFailure(String),
    /// The service streams to one subscriber only, and has one.
    MultipleSubscribers,
    /// The historical part of a scan failed.
    HistoricalSyncError(String),
    /// The connection was given up after so many attempts.
    WebSocketConnectionFailed(usize),
    /// A scan was asked to begin or to end (first block) behind the newest block (second).
    BlockExceedsLatest(BlockNumber, BlockNumber),
    /// A range of no blocks was asked for.
    InvalidMaxBlockRange,
    /// The latest no events were asked for.
    InvalidEventCount,
    /// The block subscription ended.
    SubscriptionClosed,
    /// The consumer missed so many messages.
    Lagged(u64),
}

impl ScannerError {
    /// The error in words.
    pub open spec fn text(self) -> Seq<char> {
        match self {
            ScannerError::RpcError(cause) => "RPC error: "@ + cause@,
            ScannerError::ServiceShutdown => "Service is shutting down"@,
            ScannerError::BlockNotFound(id) => "Block not found, Block Id: "@ + text::block_id_text(
                id,
            ),
            ScannerError::Timeout => "Operation timed out"@,
            ScannerError::RetryFailure(cause) =>
                "RPC call failed after exhausting all retry attempts: "@ + cause@,
            ScannerError::MultipleSubscribers => "Only one subscriber allowed at a time"@,
            ScannerError::HistoricalSyncError(cause) => "Historical sync failed: "@ + cause@,
            ScannerError::WebSocketConnectionFailed(attempts) =>
                "WebSocket connection failed after "@ + text::numeral(attempts as nat, 10)
                + " attempts"@,
            ScannerError::BlockExceedsLatest(block, latest) => "Block "@ + text::numeral(
                block as nat,
                10,
            ) + " exceeds the latest block "@ + text::numeral(latest as nat, 10),
            ScannerError::InvalidMaxBlockRange => "Max block range must be greater than zero"@,
            ScannerError::InvalidEventCount => "Event count must be greater than zero"@,
            ScannerError::SubscriptionClosed => "Subscription closed"@,
            ScannerError::Lagged(skipped) => "Lagged behind by "@ + text::numeral(
                skipped as nat,
                10,
            ) + " messages"@,
        }
    }

    /// The error in words.
    pub fn to_text(&self) -> (words: String)
        ensures
            words@ == self.text(),
    {
        let mut words = String::new();
        match self {
            ScannerError::RpcError(cause) => {
                words.append("RPC error: ");
                words.append(cause.as_str());
            },
            ScannerError::ServiceShutdown => words.append("Service is shutting down"),
            ScannerError::BlockNotFound(id) => {
                words.append("Block not found, Block Id: ");
                push_block_id(&mut words, id);
            },
            ScannerError::Timeout => words.append("Operation timed out"),
            ScannerError::RetryFailure(cause) => {
                words.append("RPC call failed after exhausting all retry attempts: ");
                words.append(cause.as_str());
            },
            ScannerError::MultipleSubscribers => words.append(
                "Only one subscriber allowed at a time",
            ),
            ScannerError::HistoricalSyncError(cause) => {
                words.append("Historical sync failed: ");
                words.append(cause.as_str());
            },
            ScannerError::WebSocketConnectionFailed(attempts) => {
                words.append("WebSocket connection failed after ");
                push_decimal(&mut words, *attempts as u64);
                words.append(" attempts");
            },
            ScannerError::BlockExceedsLatest(block, latest) => {
                words.append("Block ");
                push_decimal(&mut words, *block);
                words.append(" exceeds the latest block ");
                push_decimal(&mut words, *latest);
            },
            ScannerError::InvalidMaxBlockRange => words.append(
                "Max block range must be greater than zero",
            ),
            ScannerError::InvalidEventCount => words.append(
                "Event count must be greater than zero",
            ),
            ScannerError::SubscriptionClosed => words.append("Subscription closed"),
            ScannerError::Lagged(skipped) => {
                words.append("Lagged behind by ");
                push_decimal(&mut words, *skipped);
                words.append(" messages");
            },
        }
        assert(words@ =~= self.text());
        words
    }
}

/// The cause of a failure ends the words that tell of it.
pub proof fn words_end_with_the_cause(cause: String)
    ensures
        ScannerError::RpcError(cause).text() == "RPC error: "@ + cause@,
        ScannerError::RetryFailure(cause).text()
            == "RPC call failed after exhausting all retry attempts: "@ + cause@,
        ScannerError::HistoricalSyncError(cause).text() == "Historical sync failed: "@ + cause@,
{
}

/// Errors of one kind that tell of different numbers are told apart by their words.
pub proof fn words_tell_the_number(a: u64, b: u64, latest: u64, x: usize, y: usize)
    ensures
        ScannerError::Lagged(a).text() == ScannerError::Lagged(b).text() ==> a == b,
        ScannerError::WebSocketConnectionFailed(x).text()
            == ScannerError::WebSocketConnectionFailed(y).text() ==> x == y,
        ScannerError::BlockExceedsLatest(latest, a).text() == ScannerError::BlockExceedsLatest(
            latest,
            b,
        ).text() ==> a == b,
{
    let lagged = "Lagged behind by "@;
    let failed = "WebSocket connection failed after "@;
    let exceeds = "Block "@ + text::numeral(latest as nat, 10) + " exceeds the latest block "@;
    lemma_middle(lagged, text::numeral(a as nat, 10), text::numeral(b as nat, 10), " messages"@);
    lemma_middle(failed, text::numeral(x as nat, 10), text::numeral(y as nat, 10), " attempts"@);
    lemma_middle(exceeds, text::numeral(a as nat, 10), text::numeral(b as nat, 10), Seq::empty());
    assert(exceeds + text::numeral(a as nat, 10) + Seq::empty() =~= exceeds + text::numeral(
        a as nat,
        10,
    ));
    assert(exceeds + text::numeral(b as nat, 10) + Seq::empty() =~= exceeds + text::numeral(
        b as nat,
        10,
    ));
    if text::numeral(a as nat, 10) == text::numeral(b as nat, 10) {
        text::numerals_differ(a as nat, b as nat, 10);
    }
    if text::numeral(x as nat, 10) == text::numeral(y as nat, 10) {
        text::numerals_differ(x as nat, y as nat, 10);
    }
}

proof fn lemma_middle(before: Seq<char>, a: Seq<char>, b: Seq<char>, after: Seq<char>)
    ensures
        before + a + after == before + b + after ==> a == b,
{
    if before + a + after == before + b + after {
        let whole = before + a + after;
        let start = before.len() as int;
        assert(whole.len() == (before + b + after).len());
        assert(whole.subrange(start, start + a.len()) =~= a);
        assert((before + b + after).subrange(start, start + b.len()) =~= b);
    }
}

} // verus!
