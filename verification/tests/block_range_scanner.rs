use event_scanner::block_range_scanner::common::{
    DEFAULT_BLOCK_CONFIRMATIONS, DEFAULT_MAX_BLOCK_RANGE, DEFAULT_STREAM_BUFFER_CAPACITY,
};
use event_scanner::block_range_scanner::message::{Message, ScannerMessage, ScannerStatus};
use event_scanner::block_range_scanner::scanner::{
    after_history, command_outcome, handle_historical, handle_live, handle_rewind, handle_sync, Command, Service,
    SyncPlan, Work,
};
use event_scanner::block_range_scanner::streams::{
    process_live_block_buffer, HistoricalBlocks, LiveBlocks, Rewind, RewindAction, RewindEvent,
};
use event_scanner::block_range_scanner::BlockRangeScanner;
use event_scanner::error::ScannerError;
use event_scanner::robust_provider::{DEFAULT_MAX_TIMEOUT, DEFAULT_MIN_DELAY};
use event_scanner::types::{
    seconds, BlockHash, BlockId, BlockNumHash, BlockNumberOrTag, BlockRange, ChannelState,
};
use std::collections::VecDeque;

fn range(start: u64, end: u64) -> BlockRange {
    BlockRange::new(start, end)
}

fn data(start: u64, end: u64) -> Message {
    ScannerMessage::Data(range(start, end))
}

fn block(number: u64) -> BlockNumHash {
    BlockNumHash::new(number, BlockHash::repeat_byte(number as u8))
}

fn ranges_of(messages: Vec<Message>) -> Vec<BlockRange> {
    messages
        .into_iter()
        .map(|message| match message {
            ScannerMessage::Data(range) => range,
            other => panic!("unexpected message: {other:?}"),
        })
        .collect()
}

fn forwarded(messages: Vec<Message>, cutoff: u64) -> Vec<BlockRange> {
    ranges_of(process_live_block_buffer(VecDeque::from(messages), cutoff))
}

/// What a rewind between two blocks of an undisturbed chain sends.
fn rewound(start: u64, end: u64, max_block_range: u64) -> Vec<BlockRange> {
    let (from, to) = handle_rewind(
        BlockNumberOrTag::Number(start),
        BlockNumberOrTag::Number(end),
        Ok(Some(block(start))),
        Ok(Some(block(end))),
    )
    .unwrap();
    let mut rewind = Rewind::stream_rewind(from, to, max_block_range);
    let mut sent = Vec::new();
    let mut action = rewind.action();
    loop {
        match action {
            RewindAction::Send(ScannerMessage::Data(range)) => {
                sent.push(range);
                action = rewind.step(RewindEvent::Sent);
            }
            RewindAction::CheckTip(_) => action = rewind.step(RewindEvent::TipKnown(Ok(true))),
            RewindAction::Finish(outcome) => {
                outcome.unwrap();
                return sent;
            }
            other => panic!("unexpected action: {other:?}"),
        }
    }
}

/// What a stream of past blocks sends.
fn past(start: u64, end: u64, max_block_range: u64) -> Vec<BlockRange> {
    let bounds = handle_historical(
        BlockNumberOrTag::Number(start),
        BlockNumberOrTag::Number(end),
        Ok((Some(start), Some(end))),
    )
    .unwrap();
    let mut stream =
        HistoricalBlocks::stream_historical_blocks(bounds.start, bounds.end, max_block_range);
    let mut sent = Vec::new();
    while let Some(batch) = stream.next(ChannelState::Open) {
        sent.push(batch);
    }
    sent
}

fn streamed(stream: &mut LiveBlocks, blocks: std::ops::RangeInclusive<u64>) -> Vec<BlockRange> {
    let mut sent = Vec::new();
    for number in blocks {
        let output = stream.incoming(number);
        assert!(!output.reorg);
        sent.extend(output.range);
    }
    sent
}

#[test]
fn block_range_scanner_defaults_match_constants() {
    let scanner = BlockRangeScanner::<u32>::new();

    assert_eq!(scanner.max_block_range, DEFAULT_MAX_BLOCK_RANGE);
    assert_eq!(scanner.max_block_range, 1000);
    assert_eq!(scanner.max_timeout, DEFAULT_MAX_TIMEOUT);
    assert_eq!(scanner.retry_interval, DEFAULT_MIN_DELAY);
    assert!(scanner.fallback_providers.is_empty());
    assert_eq!(scanner.buffer_capacity, DEFAULT_STREAM_BUFFER_CAPACITY);
}

#[test]
fn builder_methods_update_configuration() {
    let max_block_range = 42;

    let scanner = BlockRangeScanner::<u32>::new().max_block_range(max_block_range);

    assert_eq!(scanner.max_block_range, max_block_range);
}

#[test]
fn connected_scanner_takes_over_the_settings() {
    let scanner = BlockRangeScanner::new()
        .max_block_range(7)
        .with_max_timeout(seconds(5))
        .with_max_retries(4)
        .with_retry_interval(seconds(2))
        .fallback_provider(8u32)
        .buffer_capacity(99);
    assert_eq!(scanner.fallback_providers, vec![8]);
    let connected = scanner.connect(7u32);
    assert_eq!(connected.max_block_range, 7);
    assert_eq!(connected.buffer_capacity(), 99);
    assert_eq!(*connected.provider().root(), 7);
    assert_eq!(connected.provider().provider(1), Some(&8));
    assert_eq!(connected.provider().provider(2), None);
    assert_eq!(connected.provider().limits(), (seconds(5), 4, seconds(2)));
    let service: Service<u8> = connected.run();
    assert_eq!(service.max_block_range, 7);
    assert!(service.subscriber.is_none());
}

#[test]
fn scanner_without_blocks_in_a_range_is_refused() {
    let scanner = BlockRangeScanner::<u32>::new().max_block_range(0);
    assert!(matches!(scanner.build(1), Err(ScannerError::InvalidMaxBlockRange)));
    assert!(BlockRangeScanner::<u32>::new().build(1).is_ok());
}

#[test]
fn send_to_subscriber_increments_processed_count() {
    let mut service: Service<u8> = Service::new(DEFAULT_MAX_BLOCK_RANGE);
    service.subscriber = Some(1);

    service.send_to_subscriber(ChannelState::Open);

    assert_eq!(service.processed_count, 1);
    assert!(service.subscriber.is_some());
}

#[test]
fn send_to_subscriber_removes_closed_channel() {
    let mut service: Service<u8> = Service::new(DEFAULT_MAX_BLOCK_RANGE);
    service.websocket_connected = true;
    service.subscriber = Some(1);

    service.send_to_subscriber(ChannelState::Closed);

    assert!(service.subscriber.is_none());
    assert!(!service.websocket_connected);
    assert_eq!(service.processed_count, 0);
}

#[test]
fn handle_unsubscribe_clears_subscriber() {
    let mut service: Service<u8> = Service::new(DEFAULT_MAX_BLOCK_RANGE);
    service.websocket_connected = true;
    service.subscriber = Some(1);

    service.handle_unsubscribe();

    assert!(service.subscriber.is_none());
    assert!(!service.websocket_connected);
}

#[test]
fn second_subscriber_is_refused_and_the_first_stays() {
    let mut service: Service<u8> = Service::new(10);
    let first = Command::StreamLive { sender: 1, block_confirmations: 3, response: 'a' };
    assert!(matches!(
        service.handle_command(first),
        Ok(Work::Live { block_confirmations: 3, response: 'a' })
    ));
    let second = Command::Rewind {
        sender: 2,
        start_height: BlockNumberOrTag::Latest,
        end_height: BlockNumberOrTag::Earliest,
        response: 'b',
    };
    assert!(matches!(
        service.handle_command::<char>(second),
        Err(ScannerError::MultipleSubscribers)
    ));
    assert_eq!(service.subscriber, Some(1));
    assert!(matches!(command_outcome(true, None), Err(ScannerError::ServiceShutdown)));
    service.record_error();
    assert_eq!(service.error_count, 1);

    let leave = Command::Unsubscribe { response: 'c' };
    assert!(matches!(service.handle_command(leave), Ok(Work::Done { response: 'c' })));
    let third = Command::StreamFrom {
        sender: 3,
        start_height: BlockNumberOrTag::Number(5),
        block_confirmations: 0,
        response: 'd',
    };
    assert!(service.handle_command(third).is_ok());
    assert_eq!(service.subscriber, Some(3));
    assert!(matches!(service.take_subscriber(), Ok(3)));
    assert!(matches!(service.take_subscriber(), Err(ScannerError::ServiceShutdown)));

    let stop = Command::Shutdown { response: 'e' };
    assert!(matches!(service.handle_command(stop), Ok(Work::Done { response: 'e' })));
    assert!(service.shutdown);
}

#[test]
fn command_outcome_is_the_answer_if_there_is_one() {
    assert!(command_outcome(true, Some(Ok(()))).is_ok());
    assert!(matches!(
        command_outcome(true, Some(Err(ScannerError::Timeout))),
        Err(ScannerError::Timeout)
    ));
    assert!(matches!(command_outcome(false, Some(Ok(()))), Err(ScannerError::ServiceShutdown)));
}

#[test]
fn block_range_scanner_live_mode_processes_all_blocks() {
    let start = handle_live(4, DEFAULT_BLOCK_CONFIRMATIONS);
    assert_eq!(start, 5);
    let mut stream = LiveBlocks::stream_live_blocks(start, DEFAULT_BLOCK_CONFIRMATIONS, 1000);
    let mut block_range_start = 0;
    let sent = streamed(&mut stream, 5..=14);
    assert_eq!(sent.len(), 10);
    for range in sent {
        if block_range_start == 0 {
            block_range_start = range.start;
        }
        assert_eq!(block_range_start, range.start);
        assert!(range.end >= range.start);
        block_range_start = range.end + 1;
    }
}

#[test]
fn stream_from_latest_starts_at_tip_not_confirmed() {
    let block_confirmations = 5;
    let latest_head = 20;
    let plan = handle_sync(
        BlockNumberOrTag::Latest,
        block_confirmations,
        Ok((Some(latest_head), Some(latest_head))),
    )
    .unwrap();
    let SyncPlan::Live { range_start } = plan else { panic!("unexpected plan: {plan:?}") };
    let expected_blocks = 10;
    let mut stream = LiveBlocks::stream_live_blocks(range_start, block_confirmations, 1000);
    let sent = streamed(&mut stream, 21..=40);
    let mut expected_range_start = latest_head;
    for range in sent.iter().take(expected_blocks) {
        assert_eq!(expected_range_start, range.start);
        assert_eq!(range.end, range.start);
        expected_range_start += 1;
    }
    assert_eq!(expected_range_start, latest_head + expected_blocks as u64);
}

#[test]
fn live_mode_respects_block_confirmations() {
    let block_confirmations = 5;
    let latest_head: u64 = 20;
    let expected_blocks = 10;
    let start = handle_live(latest_head, block_confirmations);
    let mut stream = LiveBlocks::stream_live_blocks(start, block_confirmations, 1000);
    let sent = streamed(&mut stream, 21..=30);
    let mut expected_range_start = latest_head.saturating_sub(block_confirmations) + 1;
    for range in sent {
        assert_eq!(expected_range_start, range.start);
        assert_eq!(range.end, range.start);
        expected_range_start += 1;
    }
    assert_eq!(
        expected_range_start,
        latest_head + expected_blocks as u64 + 1 - block_confirmations
    );
}

#[test]
fn live_mode_respects_block_confirmations_on_new_chain() {
    let block_confirmations = 5;
    let start = handle_live(0, block_confirmations);
    let mut stream = LiveBlocks::stream_live_blocks(start, block_confirmations, 1000);
    // blocks confirm nothing until there are enough of them
    assert_eq!(streamed(&mut stream, 1..=6), vec![range(0, 0), range(1, 1)]);
}

#[test]
fn continuous_blocks_if_reorg_less_than_block_confirmation() {
    let block_confirmations = 5;
    let start = handle_live(0, block_confirmations);
    let mut stream = LiveBlocks::stream_live_blocks(start, block_confirmations, 1000);
    let mut sent = streamed(&mut stream, 1..=10);
    // the last blocks are replaced, one fewer than confirmations
    sent.extend(streamed(&mut stream, 7..=10));
    sent.extend(streamed(&mut stream, 11..=30));

    let mut block_range_start = 0;
    let end_loop = 20;
    for range in sent.iter().take(end_loop) {
        if block_range_start == 0 {
            block_range_start = range.start;
        }
        assert_eq!(block_range_start, range.start);
        assert!(range.end >= range.start);
        block_range_start = range.end + 1;
    }
    assert_eq!(block_range_start, 20);
}

#[test]
fn shallow_block_confirmation_does_not_mitigate_reorg() {
    let block_confirmations = 3;
    let start = handle_live(0, block_confirmations);
    let mut stream = LiveBlocks::stream_live_blocks(start, block_confirmations, 1000);
    let mut block_num = Vec::new();
    let mut reorg_detected = false;
    // the last blocks are replaced, five more than confirmations
    for number in (1..=10).chain(3..=10).chain(11..=40) {
        let output = stream.incoming(number);
        reorg_detected |= output.reorg;
        block_num.extend(output.range);
    }
    assert!(reorg_detected, "Reorg should have been detected");
    let mut found_reorg_pattern = false;
    for window in block_num.windows(2) {
        if window[1].start < window[0].end {
            found_reorg_pattern = true;
            break;
        }
    }
    assert!(found_reorg_pattern);
}

#[test]
fn live_stream_goes_back_after_reorg() {
    let mut stream = LiveBlocks::stream_live_blocks(5, 2, 1000);
    assert_eq!(streamed(&mut stream, 5..=10), vec![range(5, 5), range(6, 6), range(7, 7), range(8, 8)]);
    let output = stream.incoming(8);
    assert!(output.reorg);
    assert_eq!(output.range, Some(range(6, 6)));
    // the reorg is announced first
    let messages = output.messages();
    assert_eq!(messages.len(), 2);
    assert!(matches!(messages[0], ScannerMessage::Status(ScannerStatus::ReorgDetected)));
    assert!(matches!(messages[1], ScannerMessage::Data(sent) if sent == range(6, 6)));
    let messages = stream.incoming(9).messages();
    assert_eq!(messages.len(), 1);
    assert!(matches!(messages[0], ScannerMessage::Data(sent) if sent == range(7, 7)));
}

#[test]
fn live_stream_is_cut_into_ranges() {
    let mut stream = LiveBlocks::stream_live_blocks(0, 0, 3);
    assert_eq!(stream.incoming(9).range, Some(range(0, 2)));
    assert_eq!(stream.incoming(10).range, Some(range(3, 5)));
}

#[test]
fn historic_mode_respects_blocks_read_per_epoch() {
    // ranges where each batch is of max blocks per epoch size
    assert_eq!(past(0, 19, 5), vec![range(0, 4), range(5, 9), range(10, 14), range(15, 19)]);
    // ranges where last batch is smaller than blocks per epoch
    assert_eq!(past(93, 99, 5), vec![range(93, 97), range(98, 99)]);
    // range where blocks per epoch is larger than the number of blocks in the range
    assert_eq!(past(3, 5, 5), vec![range(3, 5)]);
    // single item range
    assert_eq!(past(3, 3, 5), vec![range(3, 3)]);
    // range where blocks per epoch is larger than the number of blocks on chain
    assert_eq!(past(0, 20, 200), vec![range(0, 20)]);
    assert_eq!(past(0, 99, 200), vec![range(0, 99)]);
}

#[test]
fn historic_mode_normalises_start_and_end_block() {
    assert_eq!(past(10, 0, 5), vec![range(0, 4), range(5, 9), range(10, 10)]);
}

#[test]
fn past_blocks_end_when_nobody_listens() {
    let mut stream = HistoricalBlocks::stream_historical_blocks(0, 19, 5);
    assert_eq!(stream.next(ChannelState::Open), Some(range(0, 4)));
    assert_eq!(stream.next(ChannelState::Closed), None);
}

#[test]
fn historical_bounds_must_be_found() {
    let start = BlockNumberOrTag::Number(1);
    let end = BlockNumberOrTag::Finalized;
    assert!(matches!(
        handle_historical(start, end, Ok((None, Some(3)))),
        Err(ScannerError::BlockNotFound(BlockId::Number(BlockNumberOrTag::Number(1))))
    ));
    assert!(matches!(
        handle_historical(start, end, Ok((Some(1), None))),
        Err(ScannerError::BlockNotFound(BlockId::Number(BlockNumberOrTag::Finalized)))
    ));
    assert!(matches!(
        handle_historical(start, end, Err(ScannerError::Timeout)),
        Err(ScannerError::Timeout)
    ));
}

#[test]
fn past_blocks_are_followed_by_new_ones() {
    let start = BlockNumberOrTag::Number(3);
    assert_eq!(
        handle_sync(start, 5, Ok((Some(3), Some(20)))).unwrap(),
        SyncPlan::HistoryThenLive { history: range(3, 15), live_start: 16, cutoff: 15 }
    );
    assert_eq!(
        handle_sync(start, 5, Ok((Some(3), Some(7)))).unwrap(),
        SyncPlan::Live { range_start: 3 }
    );
    // the block that is to come next
    assert_eq!(
        handle_sync(BlockNumberOrTag::Number(21), 5, Ok((None, Some(20)))).unwrap(),
        SyncPlan::Live { range_start: 21 }
    );
    assert!(matches!(
        handle_sync(BlockNumberOrTag::Number(22), 5, Ok((None, Some(20)))),
        Err(ScannerError::BlockNotFound(BlockId::Number(BlockNumberOrTag::Number(22))))
    ));
    assert!(matches!(
        handle_sync(BlockNumberOrTag::Number(20), 5, Ok((None, Some(20)))),
        Err(ScannerError::BlockNotFound(BlockId::Number(BlockNumberOrTag::Number(20))))
    ));
    assert!(matches!(
        handle_sync(BlockNumberOrTag::Safe, 5, Ok((None, None))),
        Err(ScannerError::BlockNotFound(BlockId::Number(BlockNumberOrTag::Safe)))
    ));
    assert!(matches!(
        handle_sync(start, 5, Ok((Some(3), None))),
        Err(ScannerError::BlockNotFound(BlockId::Number(BlockNumberOrTag::Latest)))
    ));
    assert!(matches!(
        handle_sync(start, 5, Err(ScannerError::Timeout)),
        Err(ScannerError::Timeout)
    ));
}

#[test]
fn past_blocks_are_followed_by_news_of_the_tip() {
    assert!(matches!(
        after_history(Ok(())),
        Ok(ScannerMessage::Status(ScannerStatus::SwitchingToLive))
    ));
    assert!(matches!(
        after_history(Err(ScannerError::Timeout)),
        Err(ScannerError::HistoricalSyncError(cause)) if cause == "Operation timed out"
    ));
}

#[test]
fn buffered_messages_trim_ranges_prior_to_cutoff() {
    let messages = vec![data(51, 55), data(56, 60), data(61, 70)];
    // All ranges should be forwarded as-is since they're after cutoff
    assert_eq!(forwarded(messages, 50), vec![range(51, 55), range(56, 60), range(61, 70)]);
}

#[test]
fn ranges_entirely_before_cutoff_are_discarded() {
    let messages = vec![data(40, 50), data(51, 60), data(61, 70)];
    // All ranges should be discarded since they're before cutoff
    assert_eq!(forwarded(messages, 100), vec![]);
}

#[test]
fn ranges_overlapping_cutoff_are_trimmed() {
    let messages = vec![data(70, 80), data(60, 80), data(74, 76)];
    // All ranges should be trimmed to start at cutoff (75)
    assert_eq!(forwarded(messages, 75), vec![range(75, 80), range(75, 80), range(75, 76)]);
}

#[test]
fn mixed_ranges_are_handled_correctly() {
    let messages = vec![
        data(30, 45),  // Before cutoff: discard
        data(46, 55),  // Overlaps: trim to 50..=55
        data(56, 65),  // After cutoff: forward as-is
        data(40, 49),  // Before cutoff: discard
        data(49, 51),  // Overlaps: trim to 50..=51
        data(51, 100), // After cutoff: forward as-is
    ];
    assert_eq!(
        forwarded(messages, 50),
        vec![range(50, 55), range(56, 65), range(50, 51), range(51, 100)]
    );
}

#[test]
fn edge_case_range_exactly_at_cutoff() {
    let messages = vec![
        data(99, 99),   // Just before: discard
        data(100, 100), // Exactly at: forward
        data(99, 100),  // Includes cutoff: trim to 100..=100
        data(100, 101), // Starts at cutoff: forward
    ];
    // ensure no duplicates
    assert_eq!(forwarded(messages, 100), vec![range(100, 100), range(100, 101)]);
}

#[test]
fn cutoff_at_zero_handles_all_ranges() {
    let messages = vec![data(0, 5), data(6, 10), data(11, 25)];
    // All ranges should be forwarded since they're all >= 0
    assert_eq!(forwarded(messages, 0), vec![range(0, 5), range(6, 10), range(11, 25)]);
}

#[test]
fn forwards_errors_to_subscribers() {
    let buffer = VecDeque::from(vec![
        ScannerMessage::Error(ScannerError::WebSocketConnectionFailed(4)),
        ScannerMessage::Status(ScannerStatus::ReorgDetected),
    ]);
    let kept = process_live_block_buffer(buffer, 10);
    assert_eq!(kept.len(), 2);
    match &kept[0] {
        ScannerMessage::Error(ScannerError::WebSocketConnectionFailed(attempts)) => {
            assert_eq!(*attempts, 4);
        }
        other => panic!("unexpected message: {other:?}"),
    }
    assert!(matches!(kept[1], ScannerMessage::Status(ScannerStatus::ReorgDetected)));
}

#[test]
fn rewind_single_batch_when_epoch_larger_than_range() {
    // Range length is 51, epoch is 100 -> single batch [100..=150]
    assert_eq!(rewound(100, 150, 100), vec![range(100, 150)]);
}

#[test]
fn rewind_exact_multiple_of_epoch_creates_full_batches_in_reverse() {
    // 0..=14 with epoch 5 -> [10..=14, 5..=9, 0..=4]
    assert_eq!(rewound(0, 14, 5), vec![range(10, 14), range(5, 9), range(0, 4)]);
}

#[test]
fn rewind_with_remainder_trims_first_batch_to_stream_start() {
    // 3..=12 with epoch 4 -> ends: 12,8,4 -> batches: [9..=12, 5..=8, 3..=4]
    assert_eq!(rewound(3, 12, 4), vec![range(9, 12), range(5, 8), range(3, 4)]);
}

#[test]
fn rewind_single_block_range() {
    assert_eq!(rewound(7, 7, 5), vec![range(7, 7)]);
}

#[test]
fn rewind_epoch_of_one_sends_each_block_in_reverse_order() {
    // 5..=8 with epoch 1 -> [8..=8, 7..=7, 6..=6, 5..=5]
    assert_eq!(rewound(5, 8, 1), vec![range(8, 8), range(7, 7), range(6, 6), range(5, 5)]);
}

#[test]
fn command_rewind_defaults_latest_to_earliest_batches_correctly() {
    assert_eq!(rewound(0, 20, 7), vec![range(14, 20), range(7, 13), range(0, 6)]);
}

#[test]
fn command_rewind_handles_start_and_end_in_any_order() {
    assert_eq!(rewound(15, 3, 5), vec![range(11, 15), range(6, 10), range(3, 5)]);
    assert_eq!(rewound(3, 15, 5), vec![range(11, 15), range(6, 10), range(3, 5)]);
}

#[test]
fn command_rewind_propagates_block_not_found_error() {
    let res = handle_rewind(
        BlockNumberOrTag::Number(0),
        BlockNumberOrTag::Number(999),
        Ok(Some(block(0))),
        Ok(None),
    );
    match res {
        Err(ScannerError::BlockNotFound(id)) => {
            assert!(matches!(id, BlockId::Number(BlockNumberOrTag::Number(999))));
        }
        other => panic!("unexpected result: {other:?}"),
    }
    assert!(matches!(
        handle_rewind(
            BlockNumberOrTag::Number(5),
            BlockNumberOrTag::Latest,
            Ok(None),
            Err(ScannerError::Timeout),
        ),
        Err(ScannerError::BlockNotFound(BlockId::Number(BlockNumberOrTag::Number(5))))
    ));
    assert!(matches!(
        handle_rewind(
            BlockNumberOrTag::Number(5),
            BlockNumberOrTag::Latest,
            Ok(Some(block(5))),
            Err(ScannerError::Timeout),
        ),
        Err(ScannerError::Timeout)
    ));
}

#[test]
fn rewind_begins_again_at_the_new_tip() {
    let mut rewind = Rewind::stream_rewind(block(14), block(0), 5);
    assert!(matches!(
        rewind.action(),
        RewindAction::Send(ScannerMessage::Data(BlockRange { start: 10, end: 14 }))
    ));
    let RewindAction::CheckTip(hash) = rewind.step(RewindEvent::Sent) else {
        panic!("the tip is not checked")
    };
    assert!(hash == BlockHash::repeat_byte(14));
    assert!(matches!(
        rewind.step(RewindEvent::TipKnown(Ok(false))),
        RewindAction::Send(ScannerMessage::Status(ScannerStatus::ReorgDetected))
    ));
    assert!(matches!(rewind.step(RewindEvent::Sent), RewindAction::FetchTip(14)));
    let replaced = BlockNumHash::new(14, BlockHash::repeat_byte(99));
    assert!(matches!(
        rewind.step(RewindEvent::TipFetched(Ok(replaced))),
        RewindAction::Send(ScannerMessage::Data(BlockRange { start: 10, end: 14 }))
    ));
}
