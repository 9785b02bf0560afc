use event_scanner::block_range_scanner::common::{
    into_scanner_message_result, message_is_range, range_message, Message, RangeAction, RangeEvent,
    RangeStream,
};
use event_scanner::block_range_scanner::historical_range_handler::{
    HistoricalAction, HistoricalEvent, HistoricalRangeHandler, HistoricalStream, ReorgPolicy,
};
use event_scanner::block_range_scanner::live_stream::{
    LiveAction, LiveEvent, LiveStream, SubscriptionError,
};
use event_scanner::block_range_scanner::reorg_handler::{
    BlockReply, DefaultReorgHandler, ReorgStep,
};
use event_scanner::block_range_scanner::ring_buffer::{RingBuffer, RingBufferCapacity};
use event_scanner::error::ScannerError;
use event_scanner::types::{
    BlockHash, BlockId, BlockNumHash, BlockNumberOrTag, BlockRange, ChannelState, Notification,
    ScannerMessage,
};

fn range(start: u64, end: u64) -> BlockRange {
    BlockRange::new(start, end)
}

fn block(number: u64) -> BlockNumHash {
    forked(number, number as u8)
}

fn forked(number: u64, byte: u8) -> BlockNumHash {
    BlockNumHash::new(number, BlockHash::repeat_byte(byte))
}

fn not_found(number: u64) -> ScannerError {
    ScannerError::BlockNotFound(BlockId::Number(BlockNumberOrTag::Number(number)))
}

fn data(start: u64, end: u64) -> Message {
    ScannerMessage::Data(range(start, end))
}

fn reorg(common_ancestor: u64) -> Message {
    ScannerMessage::Notification(Notification::ReorgDetected { common_ancestor })
}

/// Answers the questions of a reorg check, the newest answer last.
fn checked(
    handler: &mut DefaultReorgHandler,
    block: BlockNumHash,
    mut answer: impl FnMut(BlockNumberOrTag) -> BlockReply,
) -> Result<Option<BlockNumHash>, ScannerError> {
    let mut step = handler.check(block);
    loop {
        match step {
            ReorgStep::Ask(query) => {
                let reply = answer(query.target());
                step = handler.resume(query, reply);
            }
            ReorgStep::Done(outcome) => return outcome,
        }
    }
}

#[test]
fn detects_reorg_when_old_hash_is_available_but_not_canonical() {
    let parent_hash = BlockHash::repeat_byte(0x09);
    let old_hash = BlockHash::repeat_byte(0x0a);
    let new_hash = BlockHash::repeat_byte(0x0b);
    let parent_block = BlockNumHash::new(9, parent_hash);
    let old_block = BlockNumHash::new(10, old_hash);
    let new_block = BlockNumHash::new(10, new_hash);

    let mut buffer = RingBuffer::new(RingBufferCapacity::Limited(10));
    buffer.push(BlockNumHash::new(9, parent_hash));
    buffer.push(BlockNumHash::new(10, old_hash));
    let mut handler = DefaultReorgHandler::with_buffer(buffer);

    let common_ancestor = checked(&mut handler, old_block, |target| match target {
        BlockNumberOrTag::Number(10) => Ok(new_block),
        _ => Ok(parent_block),
    })
    .unwrap()
    .expect("reorg should be detected");

    assert_eq!(common_ancestor.number, 9);
    assert!(common_ancestor.hash == parent_hash);
}

#[test]
fn block_on_the_chain_is_no_reorg() {
    let mut handler = DefaultReorgHandler::new(RingBufferCapacity::Limited(10));
    assert!(checked(&mut handler, block(5), |_| Ok(block(5))).unwrap().is_none());
}

#[test]
fn reorg_beyond_the_buffer_goes_back_to_the_finalized_block() {
    let mut handler = DefaultReorgHandler::new(RingBufferCapacity::Limited(10));
    for number in 5..=7 {
        assert!(checked(&mut handler, block(number), |_| Ok(block(number))).unwrap().is_none());
    }
    let mut asked = Vec::new();
    let ancestor = checked(&mut handler, block(8), |target| {
        asked.push(target);
        match target {
            BlockNumberOrTag::Finalized => Ok(block(3)),
            BlockNumberOrTag::Number(number) => Ok(forked(number, 0xff)),
            other => panic!("unexpected question: {other:?}"),
        }
    })
    .unwrap();
    assert_eq!(ancestor.unwrap().number, 3);
    assert_eq!(asked.last(), Some(&BlockNumberOrTag::Finalized));
}

#[test]
fn failed_lookup_is_passed_on() {
    let mut handler = DefaultReorgHandler::new(RingBufferCapacity::Limited(10));
    let outcome = checked(&mut handler, block(5), |_| Err(ScannerError::Timeout));
    assert!(matches!(outcome, Err(ScannerError::Timeout)));
    assert!(matches!(
        DefaultReorgHandler::reorg_detected(block(5), Err(not_found(5))),
        Ok(true)
    ));
    assert!(matches!(DefaultReorgHandler::reorg_detected(block(5), Ok(block(5))), Ok(false)));
}

#[test]
fn zero_capacity_disables_reorg_detection() {
    let mut handler = DefaultReorgHandler::new(RingBufferCapacity::Limited(0));
    assert!(matches!(handler.check(block(5)), ReorgStep::Done(Ok(None))));
    let outcome = checked(&mut handler, block(5), |target| panic!("unexpected: {target:?}"));
    assert!(outcome.unwrap().is_none());
}

/// What a stream sends, given the outcomes of its reorg checks; once these are used up there is no
/// reorg.
fn streamed(stream: &mut RangeStream, checks: Vec<Option<u64>>) -> Vec<Message> {
    let mut checks = checks.into_iter();
    let mut sent = Vec::new();
    let mut action = stream.action();
    loop {
        action = match action {
            RangeAction::Fetch(number) => stream.step(RangeEvent::Fetched(Ok(block(number)))),
            RangeAction::Send(message) => {
                sent.push(message);
                stream.step(RangeEvent::Sent(ChannelState::Open))
            }
            RangeAction::Check(_) => {
                let ancestor = checks.next().flatten().map(block);
                stream.step(RangeEvent::Checked(Ok(ancestor)))
            }
            RangeAction::Finish(_) => return sent,
            RangeAction::Fail(error) => panic!("{error:?}"),
        }
    }
}

#[test]
fn range_is_streamed_in_batches() {
    let mut stream = RangeStream::stream_range_with_reorg_handling(0, 3, 12, 4);
    assert_eq!(streamed(&mut stream, vec![]), vec![data(3, 6), data(7, 10), data(11, 12)]);
}

#[test]
fn range_is_streamed_again_after_a_reorg() {
    let mut stream = RangeStream::stream_range_with_reorg_handling(4, 4, 12, 4);
    assert_eq!(
        streamed(&mut stream, vec![None, Some(8)]),
        vec![data(4, 7), data(8, 11), reorg(8), data(9, 12)]
    );
    // blocks before the start of the stream are not streamed
    let mut stream = RangeStream::stream_range_with_reorg_handling(4, 4, 12, 4);
    assert_eq!(
        streamed(&mut stream, vec![Some(1)]),
        vec![data(4, 7), reorg(1), data(4, 7), data(8, 11), data(12, 12)]
    );
}

#[test]
fn range_stream_ends_on_failure() {
    let mut stream = RangeStream::stream_range_with_reorg_handling(0, 3, 12, 4);
    assert!(matches!(
        stream.step(RangeEvent::Fetched(Err(ScannerError::Timeout))),
        RangeAction::Fail(ScannerError::Timeout)
    ));

    let mut stream = RangeStream::stream_range_with_reorg_handling(0, 3, 12, 4);
    assert!(matches!(stream.step(RangeEvent::Fetched(Ok(block(6)))), RangeAction::Send(_)));
    assert!(matches!(
        stream.step(RangeEvent::Sent(ChannelState::Closed)),
        RangeAction::Finish(None)
    ));
}

#[test]
fn messages_carry_ranges() {
    assert_eq!(range_message(range(1, 2)), data(1, 2));
    assert!(matches!(into_scanner_message_result(range(1, 2)), Ok(message) if message == data(1, 2)));
    assert!(message_is_range(&data(1, 2), &range(1, 2)));
    assert!(!message_is_range(&data(1, 2), &range(1, 3)));
    assert!(!message_is_range(&reorg(1), &range(1, 2)));
}

/// Feeds new blocks to a stream, and gives what it sends; reorg checks find the given ancestors.
fn live(stream: &mut LiveStream, blocks: &[u64], checks: Vec<Option<u64>>) -> Vec<Message> {
    let mut checks = checks.into_iter();
    let mut sent = Vec::new();
    for number in blocks {
        assert!(matches!(stream.action(), LiveAction::Await));
        let mut action = stream.step(LiveEvent::Incoming(Some(Ok(*number))));
        loop {
            action = match action {
                LiveAction::Await => break,
                LiveAction::Fetch(number) => {
                    stream.step(LiveEvent::Range(RangeEvent::Fetched(Ok(block(number)))))
                }
                LiveAction::Send(message) => {
                    sent.push(message);
                    stream.step(LiveEvent::Range(RangeEvent::Sent(ChannelState::Open)))
                }
                LiveAction::Check(_) => {
                    let ancestor = checks.next().flatten().map(block);
                    stream.step(LiveEvent::Range(RangeEvent::Checked(Ok(ancestor))))
                }
                other => panic!("unexpected action: {other:?}"),
            }
        }
    }
    sent
}

#[test]
fn new_blocks_are_streamed_once_confirmed() {
    let mut stream = LiveStream::stream_live_blocks(10, 2, 100, true);
    assert!(!stream.is_relevant(11));
    assert!(stream.is_relevant(12));
    assert_eq!(
        live(&mut stream, &[9, 11, 12, 13, 15], vec![]),
        vec![
            ScannerMessage::Notification(Notification::SwitchingToLive),
            data(10, 10),
            data(11, 11),
            data(12, 13),
        ]
    );
}

#[test]
fn new_blocks_are_streamed_again_after_a_reorg() {
    let mut stream = LiveStream::stream_live_blocks(10, 0, 100, false);
    // the last block streamed is checked when the next one comes
    assert_eq!(
        live(&mut stream, &[10, 11, 12, 13], vec![None, None, None, None, None, Some(10)]),
        vec![data(10, 10), data(11, 11), data(12, 12), reorg(10), data(11, 13)]
    );
}

#[test]
fn stream_goes_on_after_a_reorg_before_its_start() {
    let mut stream = LiveStream::stream_live_blocks(10, 2, 100, false);
    // the chain is shorter now
    assert_eq!(
        live(&mut stream, &[12, 11, 12, 13], vec![None, Some(4)]),
        vec![data(10, 10), reorg(4), data(10, 10), data(11, 11)]
    );
}

#[test]
fn subscription_errors_end_the_stream_but_for_lag() {
    let mut stream = LiveStream::stream_live_blocks(10, 0, 100, false);
    assert_eq!(live(&mut stream, &[10], vec![]), vec![data(10, 10)]);
    assert!(matches!(
        stream.step(LiveEvent::Incoming(Some(Err(SubscriptionError::Closed)))),
        LiveAction::Fail(ScannerError::SubscriptionClosed)
    ));

    let mut stream = LiveStream::stream_live_blocks(10, 0, 100, false);
    assert_eq!(live(&mut stream, &[10], vec![]), vec![data(10, 10)]);
    assert!(matches!(
        stream.step(LiveEvent::Incoming(Some(Err(SubscriptionError::Timeout)))),
        LiveAction::Fail(ScannerError::Timeout)
    ));

    let mut stream = LiveStream::stream_live_blocks(10, 0, 100, false);
    assert!(matches!(stream.step(LiveEvent::Incoming(None)), LiveAction::Finish));
}

/// What a stream of past blocks sends, given the finalized block and whether the last block is
/// replaced once it was fetched.
fn past(stream: &mut HistoricalStream, finalized: u64, replaced: bool) -> Vec<Message> {
    let mut sent = Vec::new();
    let mut fetched = false;
    let mut action = stream.action();
    loop {
        action = match action {
            HistoricalAction::AskFinalized => stream.step(HistoricalEvent::Finalized(Ok(finalized))),
            HistoricalAction::Fetch(number) => {
                let byte = if fetched && replaced { 0xff } else { 0x01 };
                fetched = true;
                stream.step(HistoricalEvent::Fetched(Ok(forked(number, byte))))
            }
            HistoricalAction::Send(message) => {
                sent.push(message);
                stream.step(HistoricalEvent::Sent(ChannelState::Open))
            }
            HistoricalAction::Finish(_) => return sent,
            HistoricalAction::Fail(error) => panic!("{error:?}"),
        }
    }
}

#[test]
fn past_blocks_are_streamed_once_on_a_calm_chain() {
    let mut stream = HistoricalStream::stream_historical_range(0, 19, 5);
    assert_eq!(
        past(&mut stream, 7, false),
        vec![data(0, 4), data(5, 7), data(8, 12), data(13, 17), data(18, 19)]
    );
    let mut stream = HistoricalStream::stream_historical_range(0, 9, 5);
    assert_eq!(past(&mut stream, 100, false), vec![data(0, 4), data(5, 9)]);
    let mut stream = HistoricalRangeHandler::new(5, 3, 9).run();
    assert_eq!(past(&mut stream, 0, false), vec![data(3, 7), data(8, 9)]);
}

#[test]
fn past_blocks_that_were_replaced_are_streamed_again() {
    let mut stream = HistoricalStream::begin(0, 9, 5, ReorgPolicy::Always);
    assert_eq!(
        past(&mut stream, 3, true),
        vec![
            data(0, 3),
            data(4, 8),
            data(9, 9),
            reorg(3),
            data(4, 8),
            data(9, 9),
        ]
    );
}
