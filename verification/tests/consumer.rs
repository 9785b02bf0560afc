use event_scanner::block_range_scanner::message::{ScannerMessage, ScannerStatus};
use event_scanner::error::ScannerError;
use event_scanner::event_filter::EventFilter;
use event_scanner::event_scanner::consumer::{
    spawn_log_consumers, ConsumerAction, ConsumerEvent, ConsumerMode, EventMessage, LogConsumer,
};
use event_scanner::event_scanner::message::{
    message_has_events, message_has_metadata, same_log_data, EventScannerError, Log, LogData,
    LogMetadata,
};
use event_scanner::event_scanner::request::EventListener;
use event_scanner::types::{Address, BlockHash, BlockRange, ChannelState};

/// A log, in most of these tests.
type L = u32;

fn ranges(start: u64, end: u64) -> ConsumerEvent<L> {
    ConsumerEvent::Received(ScannerMessage::Data(BlockRange::new(start, end)))
}

fn status(status: ScannerStatus) -> ConsumerEvent<L> {
    ConsumerEvent::Received(ScannerMessage::Status(status))
}

/// Hands a consumer the logs of the ranges, and gives what it sends before it waits again.
fn fed(consumer: &mut LogConsumer<L>, logs: Vec<L>) -> Vec<EventMessage<L>> {
    let mut action = consumer.step(ranges(0, 9));
    assert!(matches!(action, ConsumerAction::GetLogs(BlockRange { start: 0, end: 9 })));
    action = consumer.step(ConsumerEvent::Logs(Ok(logs)));
    finish(consumer, action)
}

fn finish(consumer: &mut LogConsumer<L>, mut action: ConsumerAction<L>) -> Vec<EventMessage<L>> {
    let mut sent = Vec::new();
    while let ConsumerAction::Send(message) = action {
        sent.push(message);
        action = consumer.step(ConsumerEvent::Sent(ChannelState::Open));
    }
    sent
}

fn logs(sent: Vec<EventMessage<L>>) -> Vec<Vec<L>> {
    sent.into_iter()
        .map(|message| match message {
            ScannerMessage::Data(logs) => logs,
            other => panic!("unexpected message: {other:?}"),
        })
        .collect()
}

#[test]
fn streamed_logs_are_sent_as_they_are_found() {
    let mut consumer = LogConsumer::new(ConsumerMode::Stream);
    assert_eq!(logs(fed(&mut consumer, vec![1, 2, 3])), vec![vec![1, 2, 3]]);
    assert!(fed(&mut consumer, vec![]).is_empty());
    assert_eq!(logs(fed(&mut consumer, vec![4])), vec![vec![4]]);
    let action = consumer.step(ConsumerEvent::Lagged(3));
    assert!(matches!(
        action,
        ConsumerAction::Send(ScannerMessage::Error(ScannerError::Lagged(3)))
    ));
    finish(&mut consumer, action);
    assert!(matches!(consumer.step(ConsumerEvent::Closed), ConsumerAction::Finish));
}

#[test]
fn errors_and_statuses_are_passed_on() {
    let mut consumer: LogConsumer<L> = LogConsumer::new(ConsumerMode::Stream);
    let action = consumer.step(status(ScannerStatus::SwitchingToLive));
    assert!(matches!(
        action,
        ConsumerAction::Send(ScannerMessage::Status(ScannerStatus::SwitchingToLive))
    ));
    finish(&mut consumer, action);
    let action =
        consumer.step(ConsumerEvent::Received(ScannerMessage::Error(ScannerError::Timeout)));
    assert!(matches!(
        action,
        ConsumerAction::Send(ScannerMessage::Error(ScannerError::Timeout))
    ));
    finish(&mut consumer, action);
    let _ = consumer.step(ranges(0, 9));
    let action = consumer.step(ConsumerEvent::Logs(Err(ScannerError::Timeout)));
    assert!(matches!(
        action,
        ConsumerAction::Send(ScannerMessage::Error(ScannerError::Timeout))
    ));
    // nobody listens any more
    assert!(matches!(
        consumer.step(ConsumerEvent::Sent(ChannelState::Closed)),
        ConsumerAction::Finish
    ));
}

#[test]
fn latest_logs_are_delivered_oldest_first() {
    let mut consumer = LogConsumer::new(ConsumerMode::CollectLatest { count: 5 });
    // newer ranges come first
    assert!(fed(&mut consumer, vec![7, 8, 9]).is_empty());
    assert_eq!(logs(fed(&mut consumer, vec![3, 4, 5, 6])), vec![vec![5, 6, 7, 8, 9]]);
}

#[test]
fn fewer_logs_than_wanted_are_delivered_at_the_end() {
    let mut consumer = LogConsumer::new(ConsumerMode::CollectLatest { count: 5 });
    assert!(fed(&mut consumer, vec![8, 9]).is_empty());
    assert!(fed(&mut consumer, vec![7]).is_empty());
    let action = consumer.step(ConsumerEvent::Closed);
    assert_eq!(logs(finish(&mut consumer, action)), vec![vec![7, 8, 9]]);

    let mut consumer: LogConsumer<L> = LogConsumer::new(ConsumerMode::CollectLatest { count: 5 });
    let action = consumer.step(ConsumerEvent::Closed);
    assert_eq!(logs(finish(&mut consumer, action)), vec![Vec::<L>::new()]);
}

#[test]
fn collection_begins_again_after_a_reorg() {
    let mut consumer = LogConsumer::new(ConsumerMode::CollectLatest { count: 3 });
    assert!(fed(&mut consumer, vec![8, 9]).is_empty());
    let action = consumer.step(status(ScannerStatus::ReorgDetected));
    let sent = finish(&mut consumer, action);
    assert!(matches!(sent[0], ScannerMessage::Status(ScannerStatus::ReorgDetected)));
    assert!(fed(&mut consumer, vec![108, 109]).is_empty());
    assert_eq!(logs(fed(&mut consumer, vec![6, 7])), vec![vec![7, 108, 109]]);
}

#[test]
fn each_listener_has_a_consumer_of_its_own() {
    let address = Address { bytes: [7; 20] };
    let listeners = vec![
        EventListener { filter: EventFilter::new(), sender: 'a' },
        EventListener { filter: EventFilter::new().with_contract_address(address), sender: 'b' },
    ];
    let mut consumers =
        spawn_log_consumers::<char, L>(&listeners, ConsumerMode::CollectLatest { count: 1 });
    assert_eq!(consumers.len(), 2);
    assert!(consumers[0].0.address.is_none());
    assert!(consumers[1].0.address == Some(address));
    assert_eq!(logs(fed(&mut consumers[1].1, vec![3, 4])), vec![vec![4]]);
}

fn log_data(topic: u8, data: &[u8]) -> LogData {
    LogData { topics: vec![BlockHash::repeat_byte(topic)], data: data.to_vec() }
}

fn log(topic: u8, data: &[u8]) -> Log {
    Log {
        address: Address { bytes: [topic; 20] },
        data: log_data(topic, data),
        transaction_hash: Some(BlockHash::repeat_byte(0xaa)),
    }
}

fn metadata(topic: u8, data: &[u8]) -> LogMetadata {
    LogMetadata {
        event: log_data(topic, data),
        address: Address { bytes: [topic; 20] },
        tx_hash: BlockHash::repeat_byte(0xaa),
    }
}

#[test]
fn messages_are_compared_by_what_their_logs_say() {
    let message: EventMessage<Log> = ScannerMessage::Data(vec![log(1, b"one"), log(2, b"two")]);
    assert!(message_has_events(&message, &vec![log_data(1, b"one"), log_data(2, b"two")]));
    assert!(!message_has_events(&message, &vec![log_data(2, b"two"), log_data(1, b"one")]));
    assert!(!message_has_events(&message, &vec![log_data(1, b"one")]));
    assert!(!message_has_events(&message, &vec![log_data(1, b"one"), log_data(2, b"twa")]));
    assert!(!same_log_data(&log_data(1, b"one"), &log_data(3, b"one")));
    let error: EventMessage<Log> = ScannerMessage::Error(ScannerError::Timeout);
    assert!(!message_has_events(&error, &vec![]));
    assert!(!message_has_metadata(&error, &vec![]));
}

#[test]
fn messages_are_compared_by_contract_and_transaction() {
    let message: EventMessage<Log> = ScannerMessage::Data(vec![log(1, b"one"), log(2, b"two")]);
    assert!(message_has_metadata(&message, &vec![metadata(1, b"one"), metadata(2, b"two")]));
    let mut other = metadata(2, b"two");
    other.address = Address { bytes: [9; 20] };
    assert!(!message_has_metadata(&message, &vec![metadata(1, b"one"), other]));
    let mut other = metadata(2, b"two");
    other.tx_hash = BlockHash::repeat_byte(0xbb);
    assert!(!message_has_metadata(&message, &vec![metadata(1, b"one"), other]));
}

#[test]
fn event_scanner_errors_have_words() {
    assert_eq!(
        EventScannerError::from(ScannerError::ServiceShutdown).to_text(),
        "Block range scanner error: Service is shutting down"
    );
    assert_eq!(
        EventScannerError::Provider("gone".to_string()).to_text(),
        "Provider error: gone"
    );
}
