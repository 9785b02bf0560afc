use event_scanner::block_channel;
use event_scanner::block_scanner::{
    BlockScanner, BlockScannerBuilder, BlockScannerError, ConnectAction, ConnectEvent, StartError,
    StartQuery, StartReply, StartStep, DEFAULT_BLOCKS_READ_PER_EPOCH, DEFAULT_BLOCK_CONFIRMATIONS,
    DEFAULT_REORG_REWIND_DEPTH, DEFAULT_RETRY_INTERVAL,
};
use event_scanner::types::BlockNumberOrTag::{Finalized, Latest, Number};
use event_scanner::types::{seconds, BlockHash, BlockNumHash, BlockNumberOrTag};

/// What is called for each block, in these tests.
type OnBlocks = char;

fn block(number: u64) -> BlockNumHash {
    BlockNumHash::new(number, BlockHash::repeat_byte(number as u8))
}

/// A chain without gaps up to `head`.
fn connect(builder: &BlockScannerBuilder<OnBlocks>, head: u64) -> ConnectAction {
    let number = |height: BlockNumberOrTag| match height {
        BlockNumberOrTag::Number(number) if number <= head => Some(number),
        BlockNumberOrTag::Number(_) => None,
        BlockNumberOrTag::Earliest => Some(0),
        _ => Some(head),
    };
    let mut check = builder.connect_provider();
    let mut action = check.next_action();
    loop {
        action = match action {
            ConnectAction::AskHead => check.step(ConnectEvent::Head(Ok(head))),
            ConnectAction::Resolve(height) => {
                check.step(ConnectEvent::Resolved(Ok(number(height))))
            }
            ConnectAction::Fetch(height) => {
                let found = number(height).map(block).ok_or("no such block".to_string());
                check.step(ConnectEvent::Fetched(found))
            }
            done => return done,
        };
    }
}

fn between(start: BlockNumberOrTag, end: Option<BlockNumberOrTag>) -> BlockScannerBuilder<OnBlocks> {
    let mut builder = BlockScannerBuilder::new();
    let _ = builder.with_start_height(start);
    if let Some(end) = end {
        let _ = builder.with_end_height(end);
    }
    builder
}

#[test]
fn test_block_scanner_error_display() {
    assert_eq!(BlockScannerError::ErrEOF.to_text(), "end of block batch iterator");
    assert_eq!(BlockScannerError::ErrContinue.to_text(), "continue");
    assert_eq!(BlockScannerError::TerminalError(42).to_text(), "terminal error at block height 42");
}

#[test]
fn other_errors_have_words() {
    let error = BlockScannerError::EndHeightSmallerThanStartHeight(
        BlockNumberOrTag::Number(20),
        BlockNumberOrTag::Number(3),
    );
    assert_eq!(error.to_text(), "start height (0x14) > end height (0x3)");
    assert_eq!(
        BlockScannerError::NonExistentStartHeader(BlockNumberOrTag::Latest).to_text(),
        "failed to get start header, height: latest"
    );
    assert_eq!(
        BlockScannerError::NonExistentEndHeader(BlockNumberOrTag::Earliest).to_text(),
        "failed to get end header, height: earliest"
    );
    assert_eq!(BlockScannerError::Rpc("gone".to_string()).to_text(), "gone");
    assert_eq!(
        StartError::from(BlockScannerError::ErrContinue).to_text(),
        BlockScannerError::ErrContinue.to_text()
    );
    assert_eq!(StartError::SendError("full".to_string()).to_text(), "full");
    assert_eq!(block_channel::ErrEOF.to_text(), "end of block batch iterator");
    assert_eq!(block_channel::ErrContinue.to_text(), "continue");
}

#[test]
fn test_builder_defaults() {
    let builder = BlockScannerBuilder::<OnBlocks>::new();
    assert_eq!(builder.blocks_read_per_epoch, DEFAULT_BLOCKS_READ_PER_EPOCH);
    assert!(matches!(builder.start_height, BlockNumberOrTag::Latest));
    assert!(builder.end_height.is_none());
    assert_eq!(builder.reorg_rewind_depth, DEFAULT_REORG_REWIND_DEPTH);
    assert_eq!(builder.retry_interval, DEFAULT_RETRY_INTERVAL);
    assert_eq!(builder.block_confirmations, DEFAULT_BLOCK_CONFIRMATIONS);
}

#[test]
fn test_builder_setters() {
    let mut builder = BlockScannerBuilder::<OnBlocks>::new();
    let _ = builder.with_blocks_read_per_epoch(25);
    let _ = builder.with_start_height(BlockNumberOrTag::Earliest);
    let _ = builder.with_end_height(BlockNumberOrTag::Latest);
    let _ = builder.with_on_blocks('f');
    let _ = builder.with_reorg_rewind_depth(5);
    let interval = seconds(3);
    let _ = builder.with_retry_interval(interval);
    let _ = builder.with_block_confirmations(12);

    assert_eq!(builder.blocks_read_per_epoch, 25);
    assert!(matches!(builder.start_height, BlockNumberOrTag::Earliest));
    assert!(matches!(builder.end_height, Some(BlockNumberOrTag::Latest)));
    assert_eq!(builder.reorg_rewind_depth, 5);
    assert_eq!(builder.retry_interval, interval);
    assert_eq!(builder.block_confirmations, 12);
}

#[test]
fn test_connect_ws_and_start_stream_eof() {
    let builder = BlockScannerBuilder::<OnBlocks>::new();
    let ConnectAction::Connected(start, end) = connect(&builder, 0) else {
        panic!("connection refused")
    };
    let scanner: BlockScanner<u8, OnBlocks> = builder.connected(1, start, end);
    assert!(matches!(scanner.ensure_current_not_reorged(), StartStep::Ready));

    let stream = scanner.start();
    match stream.first() {
        Some(Err(BlockScannerError::ErrEOF)) => {}
        other => panic!("expected first stream item to be ErrEOF, got: {other:?}"),
    }
}

#[test]
fn range_with_an_end_is_sent_first() {
    let builder = between(BlockNumberOrTag::Number(3), Some(BlockNumberOrTag::Number(8)));
    let ConnectAction::Connected(start, end) = connect(&builder, 10) else {
        panic!("connection refused")
    };
    let mut scanner: BlockScanner<u8, OnBlocks> = builder.connected(1, start, end);
    assert_eq!(*scanner.provider(), 1);
    assert!(matches!(
        scanner.ensure_current_not_reorged(),
        StartStep::Ask(StartQuery::Current(hash)) if hash == block(3).hash
    ));
    assert!(matches!(scanner.resume(StartReply::Current(Ok(true))), StartStep::Ready));
    assert_eq!(scanner.current.number, 3);
    let stream = scanner.start();
    assert_eq!(stream.len(), 3);
    assert!(matches!(&stream[0], Ok(range) if *range == (3..8)));
    assert!(matches!(stream[1], Err(BlockScannerError::ErrEOF)));
    assert!(matches!(stream[2], Err(BlockScannerError::ErrEOF)));
}

#[test]
fn scanner_goes_back_if_its_block_left_the_chain() {
    let builder = between(BlockNumberOrTag::Number(7), Some(BlockNumberOrTag::Number(8)));
    let ConnectAction::Connected(start, end) = connect(&builder, 10) else {
        panic!("connection refused")
    };
    let mut scanner: BlockScanner<u8, OnBlocks> = builder.connected(1, start, end);
    scanner.reorg_rewind_depth = 5;
    assert_eq!(scanner.rewind_on_reorg_detected(10), 2);
    assert_eq!(scanner.rewind_on_reorg_detected(1), 1);
    let step = scanner.resume(StartReply::Current(Ok(false)));
    assert!(matches!(step, StartStep::Ask(StartQuery::Head)));
    let step = scanner.resume(StartReply::Head(Ok(10)));
    assert!(matches!(step, StartStep::Ask(StartQuery::Block(2))));
    assert_eq!(scanner.current.number, 7);
    assert!(matches!(scanner.resume(StartReply::Block(Ok(block(2)))), StartStep::Ready));
    assert_eq!(scanner.current.number, 2);
    let step = scanner.resume(StartReply::Head(Err("gone".to_string())));
    assert!(matches!(
        step,
        StartStep::Refused(StartError::BlockScannerError(BlockScannerError::Rpc(e))) if e == "gone"
    ));
}

#[test]
fn heights_are_checked_against_the_chain() {
    assert!(matches!(
        connect(&between(Number(3), Some(Number(11))), 10),
        ConnectAction::Refused(BlockScannerError::NonExistentEndHeader(Number(11)))
    ));
    assert!(matches!(
        connect(&between(Number(8), Some(Number(3))), 10),
        ConnectAction::Refused(BlockScannerError::EndHeightSmallerThanStartHeight(
            Number(8),
            Number(3)
        ))
    ));
    assert!(matches!(
        connect(&between(Number(12), Some(Number(3))), 10),
        ConnectAction::Refused(BlockScannerError::EndHeightSmallerThanStartHeight(..))
    ));
    assert!(matches!(
        connect(&between(Number(12), None), 10),
        ConnectAction::Refused(BlockScannerError::Rpc(_))
    ));
    assert!(matches!(
        connect(&between(Latest, Some(Finalized)), 10),
        ConnectAction::Connected(BlockNumHash { number: 10, .. }, Some(10))
    ));
    assert!(matches!(
        connect(&between(Latest, None), 10),
        ConnectAction::Connected(BlockNumHash { number: 10, .. }, None)
    ));
}

#[test]
fn missing_start_is_reported() {
    let mut check = between(Number(3), Some(Number(8))).connect_provider();
    assert!(matches!(check.next_action(), ConnectAction::AskHead));
    assert!(matches!(check.step(ConnectEvent::Head(Ok(10))), ConnectAction::AskHead));
    assert!(matches!(
        check.step(ConnectEvent::Head(Ok(10))),
        ConnectAction::Resolve(Number(3))
    ));
    assert!(matches!(
        check.step(ConnectEvent::Resolved(Ok(None))),
        ConnectAction::Refused(BlockScannerError::NonExistentStartHeader(Number(3)))
    ));
}

#[test]
fn failing_node_is_reported() {
    let builder = between(BlockNumberOrTag::Number(3), Some(BlockNumberOrTag::Number(8)));
    let mut check = builder.connect_provider();
    assert!(matches!(check.next_action(), ConnectAction::AskHead));
    assert!(matches!(
        check.step(ConnectEvent::Head(Err("gone".to_string()))),
        ConnectAction::Refused(BlockScannerError::Rpc(cause)) if cause == "gone"
    ));
}

#[test]
fn channel_scanner_takes_over_the_settings() {
    let mut builder = block_channel::BlockScannerBuilder::<OnBlocks>::new();
    let _ = builder.with_blocks_read_per_epoch(25);
    let _ = builder.with_start_height(BlockNumberOrTag::Earliest);
    let _ = builder.with_end_height(BlockNumberOrTag::Latest);
    let _ = builder.with_on_blocks('f');
    let _ = builder.with_reorg_rewind_depth(5);
    let _ = builder.with_retry_interval(seconds(3));
    let _ = builder.with_block_confirmations(12);
    let scanner = builder.connect_provider(9u8);
    assert_eq!(scanner.provider, 9);
    assert_eq!(scanner.blocks_read_per_epoch, 25);
    assert_eq!(scanner.start_height, BlockNumberOrTag::Earliest);
    assert_eq!(scanner.end_height, BlockNumberOrTag::Latest);
    assert_eq!(scanner.reorg_rewind_depth, 5);
    assert_eq!(scanner.retry_interval, seconds(3));
    assert_eq!(scanner.block_confirmations, 12);
}
