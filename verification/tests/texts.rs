use event_scanner::block_range_scanner::message;
use event_scanner::error::ScannerError;
use event_scanner::text::{push_block_id, push_decimal, push_height, push_hex, push_joined};
use event_scanner::types::{BlockHash, BlockId, BlockNumberOrTag, BlockRange};

fn decimal(n: u64) -> String {
    let mut text = String::new();
    push_decimal(&mut text, n);
    text
}

fn height(height: BlockNumberOrTag) -> String {
    let mut text = String::new();
    push_height(&mut text, height);
    text
}

#[test]
fn numbers_are_written_out() {
    assert_eq!(decimal(0), "0");
    assert_eq!(decimal(1234567890), "1234567890");
    assert_eq!(decimal(u64::MAX), u64::MAX.to_string());
    assert_eq!(height(BlockNumberOrTag::Number(0)), "0x0");
    assert_eq!(height(BlockNumberOrTag::Number(0xbeef)), "0xbeef");
    assert_eq!(height(BlockNumberOrTag::Safe), "safe");
    assert_eq!(height(BlockNumberOrTag::Finalized), "finalized");
    assert_eq!(height(BlockNumberOrTag::Pending), "pending");
    let mut text = "0x".to_string();
    push_hex(&mut text, &[0, 15, 16, 255]);
    assert_eq!(text, "0x000f10ff");
}

#[test]
fn parts_are_joined() {
    let mut text = "[".to_string();
    push_joined(&mut text, &vec!["a".to_string(), "b".to_string(), "c".to_string()], ", ");
    assert_eq!(text, "[a, b, c");
    let mut text = String::new();
    push_joined(&mut text, &vec![], ", ");
    assert_eq!(text, "");
}

#[test]
fn heights_and_hashes_read_as_the_node_writes_them() {
    use_alloy(BlockNumberOrTag::Number(77), alloy::eips::BlockNumberOrTag::Number(77));
    use_alloy(BlockNumberOrTag::Latest, alloy::eips::BlockNumberOrTag::Latest);
    use_alloy(BlockNumberOrTag::Earliest, alloy::eips::BlockNumberOrTag::Earliest);
    let mut text = String::new();
    let hash = BlockHash::repeat_byte(0xab);
    push_block_id(&mut text, &BlockId::Hash { hash, require_canonical: None });
    let theirs = alloy::eips::BlockId::from(alloy::primitives::B256::repeat_byte(0xab));
    assert_eq!(text, theirs.to_string());
}

fn use_alloy(ours: BlockNumberOrTag, theirs: alloy::eips::BlockNumberOrTag) {
    assert_eq!(height(ours), theirs.to_string());
    let mut text = String::new();
    push_block_id(&mut text, &BlockId::Number(ours));
    assert_eq!(text, alloy::eips::BlockId::Number(theirs).to_string());
}

#[test]
fn scanner_errors_have_words() {
    let cases = [
        (ScannerError::ServiceShutdown, "Service is shutting down"),
        (ScannerError::Timeout, "Operation timed out"),
        (
            ScannerError::BlockNotFound(BlockId::Number(BlockNumberOrTag::Number(16))),
            "Block not found, Block Id: 0x10",
        ),
        (
            ScannerError::RetryFailure("gone".to_string()),
            "RPC call failed after exhausting all retry attempts: gone",
        ),
        (ScannerError::MultipleSubscribers, "Only one subscriber allowed at a time"),
        (
            ScannerError::WebSocketConnectionFailed(4),
            "WebSocket connection failed after 4 attempts",
        ),
    ];
    for (error, words) in cases {
        assert_eq!(error.to_text(), words);
    }
    assert!(ScannerError::RpcError("gone".to_string()).to_text().ends_with("gone"));
    assert!(ScannerError::HistoricalSyncError("gone".to_string()).to_text().ends_with("gone"));
    assert!(ScannerError::BlockExceedsLatest(12, 10).to_text().contains("12"));
    assert!(ScannerError::Lagged(17).to_text().contains("17"));
}

#[test]
fn messages_come_from_what_they_carry() {
    let range = BlockRange::new(1, 2);
    let message = message::Message::from(range);
    assert!(message == range);
    assert!(message != BlockRange::new(1, 3));
    assert!(matches!(
        message::Message::from(message::ScannerStatus::ReorgDetected),
        message::ScannerMessage::Status(message::ScannerStatus::ReorgDetected)
    ));
    assert!(matches!(
        message::Message::from(ScannerError::Timeout),
        message::ScannerMessage::Error(ScannerError::Timeout)
    ));
}
