use alloy::primitives::keccak256;
use event_scanner::block_scanner_new::{
    command_outcome, process_buffered_messages, sync_end_height, BlockHashAndNumber, BlockScanner,
    BlockScannerError, BlockScannerService, Command, ConnectionType, Continuation, HistoricalSync,
    LiveBuffer, SyncAction, SyncEvent, Transition, Work,
};
use event_scanner::event_scanner_ref as events;
use event_scanner::event_scanner_ref::{
    EventFilterRef, EventScan, EventScannerService, ScanAction, ScanEvent,
};
use event_scanner::types::{
    seconds, Address, BlockHash, BlockNumHash, BlockNumberOrTag, BlockRange, ChannelState,
};
use std::collections::VecDeque;
use std::ops::Range;

fn block(number: u64) -> BlockNumHash {
    BlockNumHash::new(number, BlockHash::repeat_byte(number as u8))
}

/// What is sent of the past: the chain forgets the hashes in `gone`, once.
fn synced(sync: &mut HistoricalSync, head: u64, mut gone: Vec<u64>) -> Vec<Range<u64>> {
    let mut sent = Vec::new();
    let mut action = sync.next_action();
    loop {
        action = match action {
            SyncAction::CheckHash(hash) => {
                let known = match gone.iter().position(|n| block(*n).hash == hash) {
                    Some(i) => {
                        gone.remove(i);
                        false
                    }
                    None => true,
                };
                sync.step(SyncEvent::Known(Ok(known)))
            }
            SyncAction::AskHead => sync.step(SyncEvent::Head(Ok(head))),
            SyncAction::Fetch(number) => sync.step(SyncEvent::Fetched(Ok(block(number)))),
            SyncAction::Send(range) => {
                sent.push(range);
                sync.step(SyncEvent::Sent)
            }
            SyncAction::Finish(outcome) => {
                outcome.unwrap();
                return sent;
            }
        }
    }
}

#[test]
fn settings_are_taken_over() {
    let mut scanner = BlockScanner::new();
    assert_eq!(scanner.blocks_read_per_epoch, 1000);
    assert_eq!(scanner.retry_interval, seconds(12));
    let _ = scanner.with_blocks_read_per_epoch(5);
    let _ = scanner.with_reorg_rewind_depth(6);
    let _ = scanner.with_retry_interval(seconds(7));
    let _ = scanner.with_block_confirmations(8);
    let connected = scanner.connect_ws("ws://localhost:8545".to_string());
    assert_eq!(connected.blocks_read_per_epoch, 5);
    assert_eq!(connected.reorg_rewind_depth, 6);
    assert_eq!(connected.retry_interval, seconds(7));
    assert_eq!(connected.block_confirmations, 8);
    assert!(matches!(connected.connection, ConnectionType::Ws(url) if url == "ws://localhost:8545"));
    let connected = scanner.connect_ipc("/tmp/node.ipc".to_string());
    assert!(matches!(connected.connection, ConnectionType::Ipc(path) if path == "/tmp/node.ipc"));
}

#[test]
fn service_takes_one_subscriber_at_a_time() {
    let mut service: BlockScannerService<u8> = BlockScannerService::new();
    let subscribe = |sender| Command::<u8, char, char>::Subscribe {
        sender,
        start_height: BlockNumberOrTag::Number(1),
        end_height: None,
        response: 'r',
    };
    assert!(matches!(
        service.handle_command(subscribe(1)),
        Work::Sync { start_height: BlockNumberOrTag::Number(1), end_height: None, response: 'r' }
    ));
    assert!(matches!(
        service.handle_command(subscribe(2)),
        Work::Answer { outcome: Err(BlockScannerError::MultipleSubscribers), response: 'r' }
    ));
    service.send_to_subscriber(ChannelState::Open);
    let Work::Report { status, response: 's' } =
        service.handle_command(Command::<u8, char, char>::GetStatus { response: 's' })
    else {
        panic!("no status")
    };
    assert!(status.is_subscribed);
    assert_eq!(status.processed_count, 1);
    assert!(status.last_synced_block.is_none());
    assert!(matches!(
        service.handle_command(Command::<u8, char, char>::Unsubscribe { response: 'u' }),
        Work::Answer { outcome: Ok(()), response: 'u' }
    ));
    assert!(service.subscriber.is_none());
    assert!(matches!(
        service.handle_command(Command::<u8, char, char>::Shutdown { response: 'x' }),
        Work::Answer { outcome: Ok(()), response: 'x' }
    ));
    assert!(service.shutdown);
    assert!(matches!(command_outcome(true, Some(3)), Ok(3)));
    assert!(matches!(
        command_outcome::<u8>(false, None),
        Err(BlockScannerError::ServiceShutdown)
    ));
}

#[test]
fn past_blocks_are_sent_in_half_open_ranges() {
    let mut sync = HistoricalSync::sync_historical_data(4, 0, block(3), block(12));
    assert_eq!(synced(&mut sync, 12, vec![]), vec![3..7, 7..11, 11..12]);
    let mut sync = HistoricalSync::sync_historical_data(4, 0, block(3), block(3));
    assert!(synced(&mut sync, 12, vec![]).is_empty());
}

#[test]
fn past_blocks_are_sent_again_after_a_reorg() {
    let mut sync = HistoricalSync::sync_historical_data(4, 2, block(3), block(12));
    assert_eq!(synced(&mut sync, 12, vec![7]), vec![3..7, 5..9, 9..12]);
}

#[test]
fn failure_ends_the_past() {
    let mut sync = HistoricalSync::sync_historical_data(4, 2, block(3), block(12));
    assert!(matches!(
        sync.step(SyncEvent::Known(Err(BlockScannerError::Eof))),
        SyncAction::Finish(Err(BlockScannerError::Eof))
    ));
}

#[test]
fn past_is_followed_by_new_blocks_or_by_the_end() {
    assert_eq!(sync_end_height(None), BlockNumberOrTag::Latest);
    assert_eq!(
        sync_end_height(Some(BlockNumberOrTag::Number(3))),
        BlockNumberOrTag::Number(3)
    );
    let open = Transition::sync_with_transition(None, 12);
    assert!(open.live);
    assert!(matches!(open.after_history(Ok(())), Ok(Continuation::Forward { cutoff: 12 })));
    let closed = Transition::sync_with_transition(Some(BlockNumberOrTag::Number(12)), 12);
    assert!(!closed.live);
    assert!(matches!(closed.after_history(Ok(())), Ok(Continuation::SendEof)));
    assert!(matches!(
        open.after_history(Err("gone".to_string())),
        Err(BlockScannerError::HistoricalSyncError(cause)) if cause == "gone"
    ));
}

#[test]
fn block_scanner_new_live_mode_processes_all_blocks() {
    let mut buffer = LiveBuffer { current: 5 };
    let mut held = VecDeque::new();
    for number in 6..=15 {
        held.extend(buffer.websocket_buffer_task(number));
    }
    let mut block_range_start = 0;
    for range in process_buffered_messages(held, 5) {
        if block_range_start == 0 {
            block_range_start = range.start;
        }
        assert_eq!(block_range_start, range.start);
        assert!(range.end >= range.start);
        block_range_start = range.end;
    }
    // the last block waits for its successor
    assert_eq!(block_range_start, 15);
    assert_eq!(buffer.websocket_buffer_task(16), Some(15..17));
}

#[test]
fn held_back_ranges_follow_the_past_without_a_gap() {
    let start = BlockNumHash::new(3, BlockHash::repeat_byte(3));
    let end = BlockNumHash::new(8, BlockHash::repeat_byte(8));
    let mut sync = HistoricalSync::sync_historical_data(2, 0, start, end);
    let mut ranges = Vec::new();
    let mut action = sync.next_action();
    loop {
        let event = match action {
            SyncAction::CheckHash(_) => SyncEvent::Known(Ok(true)),
            SyncAction::Fetch(number) => {
                SyncEvent::Fetched(Ok(BlockNumHash::new(number, BlockHash::repeat_byte(1))))
            }
            SyncAction::Send(range) => {
                ranges.push(range);
                SyncEvent::Sent
            }
            SyncAction::Finish(_) => break,
            other => panic!("unexpected action: {other:?}"),
        };
        action = sync.step(event);
    }
    let mut buffer = LiveBuffer { current: 8 };
    let held = [8, 9, 12].into_iter().filter_map(|number| buffer.websocket_buffer_task(number));
    let held = held.collect();
    ranges.extend(process_buffered_messages(held, 8));
    assert_eq!(ranges, vec![3..5, 5..7, 7..8, 8..10, 10..13]);
}

#[test]
fn held_back_ranges_are_trimmed() {
    let held = VecDeque::from(vec![1..4, 4..9, 9..12]);
    assert_eq!(process_buffered_messages(held, 6), vec![6..9, 9..12]);
}

#[test]
fn block_scanner_errors_have_words() {
    let cause = || "gone".to_string();
    let cases = [
        (BlockScannerError::HttpError(cause()), "HTTP request failed: gone"),
        (BlockScannerError::SerializationError(cause()), "Serialization error: gone"),
        (BlockScannerError::RpcError(cause()), "RPC error: gone"),
        (BlockScannerError::ChannelError, "Channel send error"),
        (BlockScannerError::ServiceShutdown, "Service is shutting down"),
        (BlockScannerError::MultipleSubscribers, "Only one subscriber allowed at a time"),
        (BlockScannerError::HistoricalSyncError(cause()), "Historical sync failed: gone"),
        (
            BlockScannerError::WebSocketConnectionFailed(3),
            "WebSocket connection failed after 3 attempts",
        ),
        (BlockScannerError::Eof, "End of block batch"),
    ];
    for (error, words) in cases {
        assert_eq!(error.to_text(), words);
    }
    let current = BlockHashAndNumber::from_header(block(4));
    assert_eq!(current.number, 4);
    assert!(current.hash == block(4).hash);
}

fn transfer() -> EventFilterRef {
    EventFilterRef {
        contract_address: Address { bytes: [7; 20] },
        event: "Transfer(address,address,uint256)".to_string(),
    }
}

#[test]
fn event_is_asked_for_by_contract_signature_and_blocks() {
    let filter = transfer().over(3, 9);
    assert!(filter.address == Some(Address { bytes: [7; 20] }));
    assert_eq!(filter.blocks, Some(BlockRange::new(3, 9)));
    let topic = filter.event_signatures.unwrap();
    assert_eq!(topic.len(), 1);
    assert!(topic.matches(&keccak256(b"Transfer(address,address,uint256)")));
}

#[test]
fn subscribers_are_numbered() {
    let mut service: EventScannerService<u8, char> = EventScannerService::new();
    let subscribe = events::Command::<u8, char, char>::Subscribe {
        sender: 1,
        tracked_event: transfer(),
        response: 'r',
    };
    assert!(matches!(
        service.handle_command(subscribe),
        events::Work::Subscribe { sender: 1, response: 'r', .. }
    ));
    assert!(matches!(service.handle_subscribe(1, Ok('t')), Ok(1)));
    assert!(matches!(
        service.handle_subscribe(2, Err(BlockScannerError::MultipleSubscribers)),
        Err(BlockScannerError::MultipleSubscribers)
    ));
    assert!(matches!(service.handle_subscribe(2, Ok('u')), Ok(2)));
    let fetch = events::Command::<u8, char, char>::Fetch {
        sender: 3,
        tracked_event: transfer(),
        from_block: BlockNumberOrTag::Earliest,
        to_block: BlockNumberOrTag::Latest,
        response: 'f',
    };
    assert!(matches!(service.handle_command(fetch), events::Work::Nothing));
    assert!(matches!(
        events::command_outcome::<u64>(true, None),
        Err(BlockScannerError::ServiceShutdown)
    ));
    let leave = events::Command::<u8, char, char>::Unsubscribe { response: 'l' };
    assert!(matches!(
        service.handle_command(leave),
        events::Work::Done { response: 'l', released } if released == [(1, 1, 't'), (2, 2, 'u')]
    ));
    assert!(matches!(service.handle_subscribe(2, Ok('v')), Ok(1)));
    assert!(!service.is_shutdown());
    let stop = events::Command::<u8, char, char>::Shutdown { response: 's' };
    assert!(matches!(
        service.handle_command(stop),
        events::Work::Done { response: 's', released } if released == [(1, 2, 'v')]
    ));
    assert!(service.is_shutdown());
}

#[test]
fn event_scan_passes_on_logs_and_errors_until_the_end() {
    let mut scan = EventScan::spawn_event_scanner();
    assert!(matches!(
        scan.step::<u8>(ScanEvent::Received(Ok(3..9))),
        ScanAction::GetLogs(3, 9)
    ));
    assert!(matches!(
        scan.step(ScanEvent::Logs(Ok(vec![1u8, 2]))),
        ScanAction::Send(Ok(logs)) if logs == vec![1, 2]
    ));
    assert!(matches!(
        scan.step::<u8>(ScanEvent::Sent(ChannelState::Closed)),
        ScanAction::Receive
    ));
    assert!(matches!(scan.step::<u8>(ScanEvent::Received(Ok(9..12))), ScanAction::GetLogs(9, 12)));
    assert!(matches!(scan.step::<u8>(ScanEvent::Logs(Ok(vec![]))), ScanAction::Receive));
    assert!(matches!(
        scan.step::<u8>(ScanEvent::Received(Err(BlockScannerError::ChannelError))),
        ScanAction::Send(Err(BlockScannerError::ChannelError))
    ));
    assert!(matches!(
        scan.step::<u8>(ScanEvent::Sent(ChannelState::Open)),
        ScanAction::Receive
    ));
    assert!(matches!(scan.step::<u8>(ScanEvent::Received(Ok(12..13))), ScanAction::GetLogs(12, 13)));
    assert!(matches!(
        scan.step::<u8>(ScanEvent::Logs(Err("gone".to_string()))),
        ScanAction::Receive
    ));
    assert!(matches!(
        scan.step::<u8>(ScanEvent::Received(Err(BlockScannerError::Eof))),
        ScanAction::Send(Err(BlockScannerError::Eof))
    ));
    assert!(matches!(scan.step::<u8>(ScanEvent::Sent(ChannelState::Open)), ScanAction::Finish));
    assert!(matches!(scan.step::<u8>(ScanEvent::Received(Ok(13..14))), ScanAction::Ignore));
}

#[test]
fn event_scanner_settings_are_taken_over() {
    let scanner = events::EventScanner::default()
        .with_blocks_read_per_epoch(5)
        .with_reorg_rewind_depth(6)
        .with_block_confirmations(7);
    assert_eq!(scanner.block_range_scanner.blocks_read_per_epoch, 5);
    assert_eq!(scanner.block_range_scanner.reorg_rewind_depth, 6);
    assert_eq!(scanner.block_range_scanner.block_confirmations, 7);
}
