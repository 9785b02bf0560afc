//! Messages about logs.

use super::consumer::EventMessage;
use crate::block_range_scanner::message::ScannerMessage;
use crate::error::ScannerError;
use crate::types::{Address, BlockHash};
use vstd::prelude::*;
use vstd::string::*;

verus! {

/// Why a scan for events failed.
#[derive(Debug)]
pub enum EventScannerError {
    /// Block ranges could not be scanned.
    BlockRangeScanner(ScannerError),
    /// The node failed; the text describes how.
    Provider(String),
}

impl From<ScannerError> for EventScannerError {
    fn from(error: ScannerError) -> (wrapped: EventScannerError) {
        EventScannerError::BlockRangeScanner(error)
    }
}

impl vstd::std_specs::convert::FromSpecImpl<ScannerError> for EventScannerError {
    open spec fn obeys_from_spec() -> bool {
        true
    }

    open spec fn from_spec(error: ScannerError) -> EventScannerError {
        EventScannerError::BlockRangeScanner(error)
    }
}

impl EventScannerError {
    /// The error in words.
    pub open spec fn text(self) -> Seq<char> {
        match self {
            EventScannerError::BlockRangeScanner(error) => "Block range scanner error: "@
                + error.text(),
            EventScannerError::Provider(cause) => "Provider error: "@ + cause@,
        }
    }

    /// The error in words.
    pub fn to_text(&self) -> (words: String)
        ensures
            words@ == self.text(),
    {
        match self {
            EventScannerError::BlockRangeScanner(error) => {
                let mut words = "Block range scanner error: ".to_string();
                words.append(error.to_text().as_str());
                words
            },
            EventScannerError::Provider(cause) => {
                let mut words = "Provider error: ".to_string();
                words.append(cause.as_str());
                words
            },
        }
    }
}

/// What a log says: its topics and its data.
#[derive(Clone, Debug)]
pub struct LogData {
    pub topics: Vec<BlockHash>,
    pub data: Vec<u8>,
}

/// A log, as far as messages are compared.
#[derive(Clone, Debug)]
pub struct Log {
    pub address: Address,
    pub data: LogData,
    pub transaction_hash: Option<BlockHash>,
}

/// A log that is expected.
#[derive(Clone, Debug)]
pub struct LogMetadata {
    pub event: LogData,
    pub address: Address,
    pub tx_hash: BlockHash,
}

/// What a log says, as a value.
pub ghost struct LogDataView {
    pub topics: Seq<BlockHash>,
    pub data: Seq<u8>,
}

impl View for LogData {
    type V = LogDataView;

    open spec fn view(&self) -> LogDataView {
        LogDataView { topics: self.topics@, data: self.data@ }
    }
}

/// Whether two logs say the same.
pub fn same_log_data(a: &LogData, b: &LogData) -> (same: bool)
    ensures
        same == (a@ == b@),
{
    if a.topics.len() != b.topics.len() || a.data.len() != b.data.len() {
        return false;
    }
    let mut i: usize = 0;
    while i < a.topics.len()
        invariant
            i <= a.topics.len(),
            a.topics@.len() == b.topics@.len(),
            forall|j: int| 0 <= j < i ==> a.topics@[j] == b.topics@[j],
        decreases a.topics.len() - i,
    {
        if a.topics[i] != b.topics[i] {
            assert(a.topics@[i as int] != b.topics@[i as int]);
            return false;
        }
        i = i + 1;
    }
    assert(a.topics@ =~= b.topics@);
    let mut i: usize = 0;
    while i < a.data.len()
        invariant
            i <= a.data.len(),
            a.data@.len() == b.data@.len(),
            forall|j: int| 0 <= j < i ==> a.data@[j] == b.data@[j],
        decreases a.data.len() - i,
    {
        if a.data[i] != b.data[i] {
            assert(a.data@[i as int] != b.data@[i as int]);
            return false;
        }
        i = i + 1;
    }
    assert(a.data@ =~= b.data@);
    true
}

/// Whether a message carries logs that say exactly what is expected, in order.
pub fn message_has_events(message: &EventMessage<Log>, expected: &Vec<LogData>) -> (same: bool)
    ensures
        same == (message matches ScannerMessage::Data(logs) && logs@.len() == expected@.len()
            && forall|i: int|
            0 <= i < logs@.len() ==> (#[trigger] logs@[i]).data@ == expected@[i]@),
{
    match message {
        ScannerMessage::Data(logs) => {
            if logs.len() != expected.len() {
                return false;
            }
            let mut i: usize = 0;
            while i < logs.len()
                invariant
                    message matches ScannerMessage::Data(all) && logs@ == all@,
                    i <= logs.len(),
                    logs@.len() == expected@.len(),
                    forall|j: int| 0 <= j < i ==> (#[trigger] logs@[j]).data@ == expected@[j]@,
                decreases logs.len() - i,
            {
                if !same_log_data(&logs[i].data, &expected[i]) {
                    assert(logs@[i as int].data@ != expected@[i as int]@);
                    return false;
                }
                i = i + 1;
            }
            true
        },
        _ => false,
    }
}

/// Whether a log is the expected one: what it says, the contract and the transaction.
pub open spec fn is_expected(log: Log, expected: LogMetadata) -> bool {
    &&& log.data@ == expected.event@
    &&& log.address == expected.address
    &&& log.transaction_hash == Some(expected.tx_hash)
}

/// Whether a message carries exactly the expected logs, in order.  Logs in a message have a
/// transaction.
pub fn message_has_metadata(
    message: &EventMessage<Log>,
    expected: &Vec<LogMetadata>,
) -> (same: bool)
    requires
        message matches ScannerMessage::Data(logs) ==> forall|i: int|
            0 <= i < logs@.len() ==> (#[trigger] logs@[i]).transaction_hash is Some,
    ensures
        same == (message matches ScannerMessage::Data(logs) && logs@.len() == expected@.len()
            && forall|i: int|
            0 <= i < logs@.len() ==> is_expected(#[trigger] logs@[i], expected@[i])),
{
    match message {
        ScannerMessage::Data(logs) => {
            if logs.len() != expected.len() {
                return false;
            }
            let mut i: usize = 0;
            while i < logs.len()
                invariant
                    message matches ScannerMessage::Data(all) && logs@ == all@,
                    i <= logs.len(),
                    logs@.len() == expected@.len(),
                    forall|j: int| 0 <= j < i ==> is_expected(#[trigger] logs@[j], expected@[j]),
                decreases logs.len() - i,
            {
                let hash_matches: bool = match &logs[i].transaction_hash {
                    Some(hash) => *hash == expected[i].tx_hash,
                    None => false,
                };
                if !hash_matches || logs[i].address != expected[i].address || !same_log_data(
                    &logs[i].data,
                    &expected[i].event,
                ) {
                    assert(!is_expected(logs@[i as int], expected@[i as int]));
                    return false;
                }
                i = i + 1;
            }
            true
        },
        _ => false,
    }
}

/// A log is the expected one only if its topics, its data, its contract and its transaction are
/// those expected; and then it is.
pub proof fn expected_log_agrees_in_all(log: Log, expected: LogMetadata)
    ensures
        is_expected(log, expected) <==> {
            &&& log.data.topics@ == expected.event.topics@
            &&& log.data.data@ == expected.event.data@
            &&& log.address == expected.address
            &&& log.transaction_hash matches Some(hash)
            &&& hash == expected.tx_hash
        },
{
}

/// The cause of a failure ends the words that tell of it.
pub proof fn words_end_with_the_cause(cause: String, error: ScannerError)
    ensures
        EventScannerError::Provider(cause).text() == "Provider error: "@ + cause@,
        EventScannerError::BlockRangeScanner(error).text() == "Block range scanner error: "@
            + error.text(),
{
}

} // verus!
