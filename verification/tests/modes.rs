use event_scanner::block_range_scanner::common::DEFAULT_BLOCK_CONFIRMATIONS;
use event_scanner::block_range_scanner::message::ScannerStatus;
use event_scanner::block_range_scanner::scanner::{Command, MAX_BUFFERED_MESSAGES};
use event_scanner::block_range_scanner::BlockRangeScanner;
use event_scanner::error::ScannerError;
use event_scanner::event_filter::EventFilter;
use event_scanner::event_lib;
use event_scanner::event_lib::modes::historic::HistoricScannerConfig;
use event_scanner::event_lib::modes::subscribe::SubscribeMode;
use event_scanner::event_lib::modes::BaseConfigBuilder;
use event_scanner::event_scanner::client;
use event_scanner::event_scanner::consumer::ConsumerMode;
use event_scanner::event_scanner::modes::historic::HistoricScannerBuilder;
use event_scanner::event_scanner::modes::latest::LatestScannerBuilder;
use event_scanner::event_scanner::modes::live::LiveScannerBuilder;
use event_scanner::event_scanner::modes::sync::{
    SyncFromBlockEventScannerBuilder, SyncFromLatestScannerBuilder, SyncScannerBuilder,
};
use event_scanner::event_scanner::request::StreamRequest;
use event_scanner::event_scanner::scanner::{
    EventScanner, EventScannerBuilder, Historic, LatestEvents, Live, SyncFromBlock,
    SyncFromLatestEvents, Unspecified, DEFAULT_LIVE_BLOCK_CONFIRMATIONS,
};
use event_scanner::types::BlockNumberOrTag::{Earliest, Latest, Number};
use event_scanner::types::{BlockId, BlockNumberOrTag};
use tokio::sync::mpsc;

/// A node, in these tests.
type Node = u32;
/// Where events are sent, in these tests.
type Sender = u8;

type Builder = EventScannerBuilder<Unspecified, Node>;

// past events

#[test]
fn historic_test_historic_scanner_config_defaults() {
    let config = HistoricScannerConfig::<Node>::new();

    assert!(matches!(config.from_block, BlockNumberOrTag::Earliest));
    assert!(matches!(config.to_block, BlockNumberOrTag::Latest));

    let config = HistoricScannerBuilder::<Node>::new();

    assert!(matches!(config.from_block, BlockNumberOrTag::Earliest));
    assert!(matches!(config.to_block, BlockNumberOrTag::Latest));
}

#[test]
fn historic_test_historic_scanner_builder_pattern() {
    let config = HistoricScannerConfig::<Node>::new()
        .from_block(Number(100))
        .to_block(Number(200))
        .max_block_range(50);

    assert!(matches!(config.from_block, BlockNumberOrTag::Number(100)));
    assert!(matches!(config.to_block, BlockNumberOrTag::Number(200)));
    assert_eq!(config.base.block_range_scanner.max_block_range, 50);

    let builder =
        Builder::historic().to_block(Number(200)).max_block_range(50).from_block(Number(100));

    assert!(matches!(builder.config.from_block, BlockNumberOrTag::Number(100)));
    assert!(matches!(builder.config.to_block, BlockNumberOrTag::Number(200)));
    assert_eq!(builder.block_range_scanner.max_block_range, 50);
}

#[test]
fn test_historic_scanner_builder_pattern_chaining() {
    let config = HistoricScannerConfig::<Node>::new()
        .max_block_range(25)
        .from_block(BlockNumberOrTag::Number(50))
        .to_block(BlockNumberOrTag::Number(150));

    assert_eq!(config.base.block_range_scanner.max_block_range, 25);
    assert!(matches!(config.from_block, BlockNumberOrTag::Number(50)));
    assert!(matches!(config.to_block, BlockNumberOrTag::Number(150)));
}

#[test]
fn test_historic_scanner_builder_pattern_random_order_chaining() {
    let config = HistoricScannerBuilder::<Node>::new()
        .to_block(Number(200))
        .max_block_range(50)
        .from_block(Number(100));

    assert!(matches!(config.from_block, BlockNumberOrTag::Number(100)));
    assert!(matches!(config.to_block, BlockNumberOrTag::Number(200)));
    assert_eq!(config.block_range_scanner.max_block_range, 50);
}

#[test]
fn historic_test_historic_scanner_builder_with_different_block_types() {
    let config = HistoricScannerConfig::<Node>::new().from_block(Earliest).to_block(Latest);

    assert!(matches!(config.from_block, BlockNumberOrTag::Earliest));
    assert!(matches!(config.to_block, BlockNumberOrTag::Latest));

    let config = HistoricScannerBuilder::<Node>::new().from_block(Earliest).to_block(Latest);

    assert!(matches!(config.from_block, BlockNumberOrTag::Earliest));
    assert!(matches!(config.to_block, BlockNumberOrTag::Latest));

    let builder = Builder::historic().from_block(Earliest).to_block(Latest);

    assert!(matches!(builder.config.from_block, BlockNumberOrTag::Earliest));
    assert!(matches!(builder.config.to_block, BlockNumberOrTag::Latest));
}

#[test]
fn historic_test_historic_scanner_builder_last_call_wins() {
    let config = HistoricScannerBuilder::<Node>::new()
        .max_block_range(25)
        .max_block_range(55)
        .max_block_range(105)
        .from_block(Number(1))
        .from_block(Number(2))
        .to_block(Number(100))
        .to_block(Number(200));

    assert_eq!(config.block_range_scanner.max_block_range, 105);
    assert!(matches!(config.from_block, BlockNumberOrTag::Number(2)));
    assert!(matches!(config.to_block, BlockNumberOrTag::Number(200)));

    let builder = Builder::historic()
        .max_block_range(25)
        .max_block_range(55)
        .max_block_range(105)
        .from_block(Number(1))
        .from_block(Number(2))
        .to_block(Number(100))
        .to_block(Number(200));

    assert_eq!(builder.block_range_scanner.max_block_range, 105);
    assert!(matches!(builder.config.from_block, BlockNumberOrTag::Number(2)));
    assert!(matches!(builder.config.to_block, BlockNumberOrTag::Number(200)));
}

#[test]
fn historic_test_historic_event_stream_listeners_vector_updates() {
    let mut scanner = HistoricScannerBuilder::<Node>::new().connect::<Sender>(7);
    assert_eq!(scanner.listeners.len(), 0);
    scanner.subscribe(EventFilter::new(), 1);
    assert_eq!(scanner.listeners.len(), 1);
    scanner.subscribe(EventFilter::new(), 2);
    scanner.subscribe(EventFilter::new(), 3);
    assert_eq!(scanner.listeners.len(), 3);
}

#[test]
fn historic_test_historic_event_stream_channel_capacity() {
    let mut scanner = HistoricScannerBuilder::<Node>::new().connect::<mpsc::Sender<u8>>(7);
    let (sender, _receiver) = mpsc::channel(scanner.block_range_scanner.buffer_capacity());
    scanner.subscribe(EventFilter::new(), sender);
    let sender = &scanner.listeners[0].sender;
    assert_eq!(sender.capacity(), MAX_BUFFERED_MESSAGES);
}

#[test]
fn mod_test_historic_scanner_config_defaults() {
    let builder = EventScannerBuilder::<Historic, Node>::default();

    assert!(matches!(builder.config.from_block, BlockNumberOrTag::Earliest));
    assert!(matches!(builder.config.to_block, BlockNumberOrTag::Latest));
}

#[test]
fn mod_test_historic_event_stream_listeners_vector_updates() {
    let Ok(mut scanner) = Builder::historic().connect::<Sender>(7, Ok(10)) else {
        panic!("connection refused")
    };

    assert!(scanner.listeners.is_empty());

    let _stream1 = scanner.subscribe(EventFilter::new(), 1, 'a');
    assert_eq!(scanner.listeners.len(), 1);

    let _stream2 = scanner.subscribe(EventFilter::new(), 2, 'b');
    let _stream3 = scanner.subscribe(EventFilter::new(), 3, 'c');
    assert_eq!(scanner.listeners.len(), 3);
}

#[test]
fn mod_test_historic_event_stream_channel_capacity() {
    let Ok(mut scanner) = Builder::historic().connect::<mpsc::Sender<u8>>(7, Ok(10)) else {
        panic!("connection refused")
    };

    let (sender, receiver) = mpsc::channel(scanner.buffer_capacity());
    let _ = scanner.subscribe(EventFilter::new(), sender, receiver);

    let sender = &scanner.listeners[0].sender;
    assert_eq!(sender.capacity(), MAX_BUFFERED_MESSAGES);
}

#[test]
fn scanner_test_historic_event_stream_listeners_vector_updates() {
    let brs = BlockRangeScanner::<Node>::new().connect(7);

    let mut scanner = EventScanner::<Historic, Node, Sender>::new(Historic::default(), brs);

    assert!(scanner.listeners.is_empty());

    let _stream1 = scanner.subscribe(EventFilter::new(), 1, 'a');
    assert_eq!(scanner.listeners.len(), 1);

    let _stream2 = scanner.subscribe(EventFilter::new(), 2, 'b');
    let _stream3 = scanner.subscribe(EventFilter::new(), 3, 'c');
    assert_eq!(scanner.listeners.len(), 3);
}

#[test]
fn scanner_test_historic_event_stream_channel_capacity() {
    let brs = BlockRangeScanner::<Node>::new().connect(7);

    let mut scanner = EventScanner::new(Historic::default(), brs);

    let (sender, receiver) = mpsc::channel::<u8>(scanner.buffer_capacity());
    let _ = scanner.subscribe(EventFilter::new(), sender, receiver);
    let sender = &scanner.listeners[0].sender;
    assert_eq!(sender.capacity(), scanner.block_range_scanner.buffer_capacity());

    let custom_capacity = 1000;

    let brs = BlockRangeScanner::<Node>::new().buffer_capacity(custom_capacity).connect(7);

    let mut scanner = EventScanner::new(Historic::default(), brs);

    assert_eq!(scanner.block_range_scanner.buffer_capacity(), custom_capacity);

    let (sender, receiver) = mpsc::channel::<u8>(scanner.buffer_capacity());
    let _ = scanner.subscribe(EventFilter::new(), sender, receiver);
    let sender = &scanner.listeners[0].sender;
    assert_eq!(sender.capacity(), custom_capacity);
}

#[test]
fn test_from_block_above_latest_returns_error() {
    let latest_block = 3;

    let result = Builder::historic()
        .from_block(Number(latest_block + 100))
        .to_block(Number(latest_block))
        .connect::<Sender>(7, Ok(latest_block));

    match result {
        Err(ScannerError::BlockExceedsLatest(max, latest)) => {
            assert_eq!(max, latest_block + 100);
            assert_eq!(latest, latest_block);
        }
        _ => panic!("Expected BlockExceedsLatest error"),
    }
}

#[test]
fn test_to_block_above_latest_returns_error() {
    let latest_block = 3;

    let result = Builder::historic()
        .from_block(Number(0))
        .to_block(Number(latest_block + 100))
        .connect::<Sender>(7, Ok(latest_block));

    match result {
        Err(ScannerError::BlockExceedsLatest(max, latest)) => {
            assert_eq!(max, latest_block + 100);
            assert_eq!(latest, latest_block);
        }
        _ => panic!("Expected BlockExceedsLatest error"),
    }
}

#[test]
fn test_to_and_from_block_above_latest_returns_error() {
    let latest_block = 3;

    let result = Builder::historic()
        .to_block(Number(latest_block + 50))
        .to_block(Number(latest_block + 100))
        .connect::<Sender>(7, Ok(latest_block));

    match result {
        Err(ScannerError::BlockExceedsLatest(max, latest)) => {
            assert_eq!(max, latest_block + 100);
            assert_eq!(latest, latest_block);
        }
        _ => panic!("Expected BlockExceedsLatest error"),
    }
}

#[test]
fn test_historic_returns_error_with_zero_max_block_range() {
    let result = Builder::historic().max_block_range(0).connect::<Sender>(7, Ok(3));

    match result {
        Err(ScannerError::InvalidMaxBlockRange) => {}
        _ => panic!("Expected InvalidMaxBlockRange error"),
    }
}

#[test]
fn historic_connection_needs_an_answer() {
    let result = Builder::historic().connect::<Sender>(7, Err(ScannerError::Timeout));
    assert!(matches!(result, Err(ScannerError::Timeout)));
    let result = Builder::historic().from_block(Number(3)).connect::<Sender>(7, Ok(3));
    assert!(result.is_ok());
}

#[test]
fn historic_scanner_asks_for_the_range() {
    let Ok(mut scanner) =
        Builder::historic().from_block(Number(5)).to_block(Number(9)).connect::<Sender>(7, Ok(10))
    else {
        panic!("connection refused")
    };
    let subscription = scanner.subscribe(EventFilter::new(), 1, 'a');
    let (scan, start) = scanner.start();
    let request = StreamRequest::Historical { start_height: Number(5), end_height: Number(9) };
    assert_eq!(scan.request, request);
    assert_eq!(scan.mode, ConsumerMode::Stream);
    assert_eq!(scan.listeners.len(), 1);
    assert_eq!(subscription.stream(&start), 'a');

    let scan =
        HistoricScannerBuilder::<Node>::new().to_block(Number(9)).connect::<Sender>(7).start();
    let request = StreamRequest::Historical { start_height: Earliest, end_height: Number(9) };
    assert_eq!(scan.request, request);
    assert_eq!(scan.mode, ConsumerMode::Stream);

    let mut scanner = event_lib::EventScanner::historic::<Node>().connect::<Sender>(7);
    scanner.create_event_stream(EventFilter::new(), 4);
    assert_eq!(scanner.inner.event_listeners[0].sender, 4);
    let request = StreamRequest::Historical { start_height: Earliest, end_height: Latest };
    assert_eq!(scanner.run(), (request, ConsumerMode::Stream));
}

// the latest events

#[test]
fn latest_test_latest_scanner_config_defaults() {
    let config = LatestScannerBuilder::<Node>::new();

    assert_eq!(config.count, 1);
    assert!(matches!(config.from_block, BlockNumberOrTag::Latest));
    assert!(matches!(config.to_block, BlockNumberOrTag::Earliest));
    assert_eq!(config.block_confirmations, DEFAULT_BLOCK_CONFIRMATIONS);
}

#[test]
fn test_latest_scanner_builder_pattern_random_order_chaining() {
    let config = LatestScannerBuilder::<Node>::new()
        .max_block_range(25)
        .block_confirmations(5)
        .count(3)
        .from_block(BlockNumberOrTag::Number(50))
        .to_block(BlockNumberOrTag::Number(150));

    assert_eq!(config.block_range_scanner.max_block_range, 25);
    assert_eq!(config.block_confirmations, 5);
    assert_eq!(config.count, 3);
    assert!(matches!(config.from_block, BlockNumberOrTag::Number(50)));
    assert!(matches!(config.to_block, BlockNumberOrTag::Number(150)));
}

#[test]
fn latest_test_latest_scanner_builder_with_different_block_types() {
    let config = LatestScannerBuilder::<Node>::new()
        .from_block(Earliest)
        .to_block(Latest)
        .count(10)
        .block_confirmations(20);

    assert!(matches!(config.from_block, BlockNumberOrTag::Earliest));
    assert!(matches!(config.to_block, BlockNumberOrTag::Latest));
    assert_eq!(config.count, 10);
    assert_eq!(config.block_confirmations, 20);

    let builder = Builder::latest(10).from_block(Earliest).to_block(Latest).block_confirmations(20);

    assert!(matches!(builder.config.from_block, BlockNumberOrTag::Earliest));
    assert!(matches!(builder.config.to_block, BlockNumberOrTag::Latest));
    assert_eq!(builder.config.count, 10);
    assert_eq!(builder.config.block_confirmations, 20);
}

#[test]
fn latest_test_latest_scanner_builder_last_call_wins() {
    let config = LatestScannerBuilder::<Node>::new()
        .count(1)
        .count(2)
        .count(3)
        .from_block(Number(10))
        .from_block(Number(20))
        .to_block(Number(100))
        .to_block(Number(200))
        .block_confirmations(5)
        .block_confirmations(7)
        .max_block_range(50)
        .max_block_range(60);

    assert_eq!(config.count, 3);
    assert!(matches!(config.from_block, BlockNumberOrTag::Number(20)));
    assert!(matches!(config.to_block, BlockNumberOrTag::Number(200)));
    assert_eq!(config.block_confirmations, 7);
    assert_eq!(config.block_range_scanner.max_block_range, 60);

    let builder = Builder::latest(3)
        .from_block(Number(10))
        .from_block(Number(20))
        .to_block(Number(100))
        .to_block(Number(200))
        .block_confirmations(5)
        .block_confirmations(7)
        .max_block_range(50)
        .max_block_range(60);

    assert_eq!(builder.config.count, 3);
    assert!(matches!(builder.config.from_block, BlockNumberOrTag::Number(20)));
    assert!(matches!(builder.config.to_block, BlockNumberOrTag::Number(200)));
    assert_eq!(builder.config.block_confirmations, 7);
    assert_eq!(builder.block_range_scanner.max_block_range, 60);
}

#[test]
fn test_latest_scanner_builder_pattern() {
    let builder = Builder::latest(3)
        .max_block_range(25)
        .block_confirmations(5)
        .from_block(BlockNumberOrTag::Number(50))
        .to_block(BlockNumberOrTag::Number(150));

    assert_eq!(builder.block_range_scanner.max_block_range, 25);
    assert_eq!(builder.config.block_confirmations, 5);
    assert_eq!(builder.config.count, 3);
    assert!(matches!(builder.config.from_block, BlockNumberOrTag::Number(50)));
    assert!(matches!(builder.config.to_block, BlockNumberOrTag::Number(150)));
}

#[test]
fn mod_test_latest_scanner_config_defaults() {
    let builder = EventScannerBuilder::<LatestEvents, Node>::new(10);

    assert_eq!(builder.config.count, 10);
    assert!(matches!(builder.config.from_block, BlockNumberOrTag::Latest));
    assert!(matches!(builder.config.to_block, BlockNumberOrTag::Earliest));
    assert_eq!(builder.config.block_confirmations, DEFAULT_BLOCK_CONFIRMATIONS);
}

#[test]
fn test_latest_event_stream_listeners_vector_updates() {
    let mut scanner = LatestScannerBuilder::<Node>::new().connect::<Sender>(7);
    assert_eq!(scanner.listeners.len(), 0);
    scanner.subscribe(EventFilter::new(), 1);
    assert_eq!(scanner.listeners.len(), 1);
    scanner.subscribe(EventFilter::new(), 2);
    scanner.subscribe(EventFilter::new(), 3);
    assert_eq!(scanner.listeners.len(), 3);
}

#[test]
fn test_latest_event_stream_channel_capacity() {
    let mut scanner = LatestScannerBuilder::<Node>::new().connect::<mpsc::Sender<u8>>(7);
    let (sender, _receiver) = mpsc::channel(scanner.block_range_scanner.buffer_capacity());
    scanner.subscribe(EventFilter::new(), sender);
    let sender = &scanner.listeners[0].sender;
    assert_eq!(sender.capacity(), MAX_BUFFERED_MESSAGES);
}

#[test]
fn test_latest_returns_error_with_zero_count() {
    let result = Builder::latest(0).connect::<Sender>(7);

    match result {
        Err(ScannerError::InvalidEventCount) => {}
        _ => panic!("Expected InvalidEventCount error"),
    }
}

#[test]
fn test_latest_returns_error_with_zero_max_block_range() {
    let result = Builder::latest(10).max_block_range(0).connect::<Sender>(7);

    match result {
        Err(ScannerError::InvalidMaxBlockRange) => {}
        _ => panic!("Expected InvalidMaxBlockRange error"),
    }
}

#[test]
fn latest_scanner_asks_for_the_range_in_reverse() {
    let request = StreamRequest::Rewind { start_height: Latest, end_height: Earliest };
    let mode = ConsumerMode::CollectLatest { count: 4 };

    let Ok(scanner) = Builder::latest(4).connect::<Sender>(7) else {
        panic!("connection refused")
    };
    let (scan, _) = scanner.start();
    assert_eq!((scan.request, scan.mode), (request, mode));

    let scan = LatestScannerBuilder::<Node>::new().count(4).connect::<Sender>(7).start();
    assert_eq!((scan.request, scan.mode), (request, mode));

    let config = event_lib::EventScanner::latest::<Node>();
    assert_eq!(config.count, 1);
    assert_eq!((config.from_block, config.to_block), (Earliest, Latest));
    assert!(!config.switch_to_live);
    let config = config
        .count(4)
        .from_block(Number(2))
        .to_block(Number(8))
        .block_confirmations(3)
        .then_live()
        .max_block_range(9);
    assert!(config.switch_to_live);
    assert_eq!(config.base.block_range_scanner.max_block_range, 9);
    assert_eq!((config.count, config.block_confirmations), (4, 3));
    let scanner = config.connect_provider::<Sender>(7);
    let plan = scanner.inner.stream_latest(4, scanner.config.from_block, scanner.config.to_block);
    let request = StreamRequest::Rewind { start_height: Number(2), end_height: Number(8) };
    assert_eq!(plan, (request, mode));
}

// new events

#[test]
fn live_test_live_scanner_config_defaults() {
    let config = LiveScannerBuilder::<Node>::new();

    assert_eq!(config.block_confirmations, DEFAULT_BLOCK_CONFIRMATIONS);
}

#[test]
fn live_test_live_scanner_builder_pattern() {
    let config = LiveScannerBuilder::<Node>::new().max_block_range(25).block_confirmations(5);

    assert_eq!(config.block_range_scanner.max_block_range, 25);
    assert_eq!(config.block_confirmations, 5);

    let config = Builder::live().max_block_range(25).block_confirmations(5);

    assert_eq!(config.block_range_scanner.max_block_range, 25);
    assert_eq!(config.config.block_confirmations, 5);
}

#[test]
fn live_test_live_scanner_builder_with_zero_confirmations() {
    let config = LiveScannerBuilder::<Node>::new().block_confirmations(0).max_block_range(100);

    assert_eq!(config.block_confirmations, 0);
    assert_eq!(config.block_range_scanner.max_block_range, 100);

    let config = Builder::live().block_confirmations(0).max_block_range(100);

    assert_eq!(config.config.block_confirmations, 0);
    assert_eq!(config.block_range_scanner.max_block_range, 100);
}

#[test]
fn live_test_live_scanner_builder_last_call_wins() {
    let config = LiveScannerBuilder::<Node>::new()
        .max_block_range(25)
        .max_block_range(55)
        .max_block_range(105)
        .block_confirmations(2)
        .block_confirmations(4)
        .block_confirmations(8);

    assert_eq!(config.block_range_scanner.max_block_range, 105);
    assert_eq!(config.block_confirmations, 8);

    let config = Builder::live()
        .max_block_range(25)
        .max_block_range(55)
        .max_block_range(105)
        .block_confirmations(2)
        .block_confirmations(4)
        .block_confirmations(8);

    assert_eq!(config.block_range_scanner.max_block_range, 105);
    assert_eq!(config.config.block_confirmations, 8);
}

#[test]
fn mod_test_live_scanner_config_defaults() {
    let builder = EventScannerBuilder::<Live, Node>::default();

    assert_eq!(builder.config.block_confirmations, DEFAULT_LIVE_BLOCK_CONFIRMATIONS);
    assert_eq!(EventScannerBuilder::<Unspecified, Node>::live().config.block_confirmations, 12);
}

#[test]
fn test_live_event_stream_listeners_vector_updates() {
    let mut scanner = LiveScannerBuilder::<Node>::new().connect::<Sender>(7);
    assert_eq!(scanner.listeners.len(), 0);
    scanner.subscribe(EventFilter::new(), 1);
    assert_eq!(scanner.listeners.len(), 1);
    scanner.subscribe(EventFilter::new(), 2);
    scanner.subscribe(EventFilter::new(), 3);
    assert_eq!(scanner.listeners.len(), 3);
}

#[test]
fn test_live_event_stream_channel_capacity() {
    let mut scanner = LiveScannerBuilder::<Node>::new().connect::<mpsc::Sender<u8>>(7);
    let (sender, _receiver) = mpsc::channel(scanner.block_range_scanner.buffer_capacity());
    scanner.subscribe(EventFilter::new(), sender);
    let sender = &scanner.listeners[0].sender;
    assert_eq!(sender.capacity(), MAX_BUFFERED_MESSAGES);
}

#[test]
fn live_scanner_asks_for_new_blocks() {
    let request = StreamRequest::Live { block_confirmations: 6 };

    let Ok(scanner) = Builder::live().block_confirmations(6).connect::<Sender>(7) else {
        panic!("connection refused")
    };
    let (scan, _) = scanner.start();
    assert_eq!((scan.request, scan.mode), (request, ConsumerMode::Stream));
    assert!(matches!(
        Builder::live().max_block_range(0).connect::<Sender>(7),
        Err(ScannerError::InvalidMaxBlockRange)
    ));

    let scan =
        LiveScannerBuilder::<Node>::new().block_confirmations(6).connect::<Sender>(7).start();
    assert_eq!((scan.request, scan.mode), (request, ConsumerMode::Stream));

    let scanner =
        event_lib::EventScanner::live::<Node>().block_confirmations(6).connect_provider::<Sender>(7);
    assert_eq!(scanner.stream(), (request, ConsumerMode::Stream));

    let config = SubscribeMode::<Node>::new().block_confirmations(6).max_block_range(3);
    assert_eq!(config.base.block_range_scanner.max_block_range, 3);
    let mut scanner = config.connect_provider::<Sender>(7);
    scanner.create_event_stream(EventFilter::new(), 1);
    assert_eq!(scanner.inner.event_listeners.len(), 1);
    assert_eq!(scanner.stream(), (request, ConsumerMode::Stream));
}

// past events, then new ones

#[test]
fn from_block_sync_scanner_config_defaults() {
    let config = SyncFromBlockEventScannerBuilder::<Node>::new(BlockNumberOrTag::Earliest);

    assert!(matches!(config.from_block, BlockNumberOrTag::Earliest));
    assert_eq!(config.block_confirmations, DEFAULT_BLOCK_CONFIRMATIONS);
}

#[test]
fn from_block_sync_scanner_builder_pattern() {
    let config = SyncFromBlockEventScannerBuilder::<Node>::new(Number(50))
        .max_block_range(25)
        .block_confirmations(5);

    assert_eq!(config.block_range_scanner.max_block_range, 25);
    assert_eq!(config.block_confirmations, 5);
    assert!(matches!(config.from_block, BlockNumberOrTag::Number(50)));

    let builder = Builder::sync().from_block(Number(50)).max_block_range(25).block_confirmations(5);

    assert_eq!(builder.block_range_scanner.max_block_range, 25);
    assert_eq!(builder.config.block_confirmations, 5);
    assert!(matches!(builder.config.from_block, BlockNumberOrTag::Number(50)));
}

#[test]
fn from_block_sync_scanner_builder_with_different_block_types() {
    let config = SyncFromBlockEventScannerBuilder::<Node>::new(BlockNumberOrTag::Earliest)
        .block_confirmations(20)
        .max_block_range(100);

    assert!(matches!(config.from_block, BlockNumberOrTag::Earliest));
    assert_eq!(config.block_confirmations, 20);
    assert_eq!(config.block_range_scanner.max_block_range, 100);

    let builder = Builder::sync()
        .from_block(BlockNumberOrTag::Earliest)
        .block_confirmations(20)
        .max_block_range(100);

    assert!(matches!(builder.config.from_block, BlockNumberOrTag::Earliest));
    assert_eq!(builder.config.block_confirmations, 20);
    assert_eq!(builder.block_range_scanner.max_block_range, 100);
}

#[test]
fn from_block_sync_scanner_builder_with_zero_confirmations() {
    let config = SyncFromBlockEventScannerBuilder::<Node>::new(Number(0))
        .block_confirmations(0)
        .max_block_range(75);

    assert!(matches!(config.from_block, BlockNumberOrTag::Number(0)));
    assert_eq!(config.block_confirmations, 0);
    assert_eq!(config.block_range_scanner.max_block_range, 75);

    let builder = Builder::sync().from_block(Number(0)).block_confirmations(0).max_block_range(75);

    assert!(matches!(builder.config.from_block, BlockNumberOrTag::Number(0)));
    assert_eq!(builder.config.block_confirmations, 0);
    assert_eq!(builder.block_range_scanner.max_block_range, 75);
}

#[test]
fn from_block_sync_scanner_builder_last_call_wins() {
    let config = SyncFromBlockEventScannerBuilder::<Node>::new(Number(2))
        .max_block_range(25)
        .max_block_range(55)
        .max_block_range(105)
        .block_confirmations(5)
        .block_confirmations(7);

    assert_eq!(config.block_range_scanner.max_block_range, 105);
    assert!(matches!(config.from_block, BlockNumberOrTag::Number(2)));
    assert_eq!(config.block_confirmations, 7);

    let builder = Builder::sync()
        .from_block(Number(2))
        .max_block_range(25)
        .max_block_range(55)
        .max_block_range(105)
        .block_confirmations(5)
        .block_confirmations(7);

    assert_eq!(builder.block_range_scanner.max_block_range, 105);
    assert!(matches!(builder.config.from_block, BlockNumberOrTag::Number(2)));
    assert_eq!(builder.config.block_confirmations, 7);
}

#[test]
fn mod_sync_scanner_config_defaults() {
    let builder = EventScannerBuilder::<SyncFromBlock, Node>::new(BlockNumberOrTag::Earliest);

    assert!(matches!(builder.config.from_block, BlockNumberOrTag::Earliest));
    assert_eq!(builder.config.block_confirmations, DEFAULT_BLOCK_CONFIRMATIONS);
}

#[test]
fn sync_event_stream_listeners_vector_updates() {
    let mut scanner = SyncFromBlockEventScannerBuilder::<Node>::new(BlockNumberOrTag::Earliest)
        .connect::<Sender>(7);
    assert_eq!(scanner.listeners.len(), 0);
    scanner.subscribe(EventFilter::new(), 1);
    assert_eq!(scanner.listeners.len(), 1);
    scanner.subscribe(EventFilter::new(), 2);
    scanner.subscribe(EventFilter::new(), 3);
    assert_eq!(scanner.listeners.len(), 3);
}

#[test]
fn sync_event_stream_channel_capacity() {
    let mut scanner = SyncFromBlockEventScannerBuilder::<Node>::new(BlockNumberOrTag::Earliest)
        .connect::<mpsc::Sender<u8>>(7);
    let (sender, _receiver) = mpsc::channel(scanner.block_range_scanner.buffer_capacity());
    scanner.subscribe(EventFilter::new(), sender);
    let sender = &scanner.listeners[0].sender;
    assert_eq!(sender.capacity(), MAX_BUFFERED_MESSAGES);
}

#[test]
fn sync_scanner_asks_for_blocks_from_its_start_on() {
    let request = StreamRequest::From { start_height: Number(50), block_confirmations: 5 };

    let Ok(scanner) =
        Builder::sync().from_block(Number(50)).block_confirmations(5).connect::<Sender>(7)
    else {
        panic!("connection refused")
    };
    let (scan, _) = scanner.start();
    assert_eq!((scan.request, scan.mode), (request, ConsumerMode::Stream));

    let scan = SyncScannerBuilder::new()
        .from_block::<Node>(Number(50))
        .block_confirmations(5)
        .connect::<Sender>(7)
        .start();
    assert_eq!((scan.request, scan.mode), (request, ConsumerMode::Stream));

    let scanner = event_lib::EventScanner::sync::<Node>()
        .from_block(Number(50))
        .block_confirmations(5)
        .connect_provider::<Sender>(7);
    assert_eq!(scanner.stream(), (request, ConsumerMode::Stream));
}

#[test]
fn sync_from_latest_splits_at_the_newest_block() {
    let config = SyncFromLatestScannerBuilder::<Node>::new(10);
    assert_eq!(config.latest_events_count, 10);
    assert_eq!(config.block_confirmations, DEFAULT_BLOCK_CONFIRMATIONS);

    let rewind = StreamRequest::Rewind { start_height: Earliest, end_height: Number(20) };
    let from = StreamRequest::From { start_height: Number(21), block_confirmations: 5 };

    let mut scanner = SyncScannerBuilder::new()
        .from_latest::<Node>(10)
        .block_confirmations(5)
        .connect::<Sender>(7);
    scanner.subscribe(EventFilter::new(), 1);
    let Ok((scan, live)) = scanner.start(Ok(Some(20))) else { panic!("not started") };
    assert_eq!(scan.request, rewind);
    assert_eq!(scan.mode, ConsumerMode::CollectLatest { count: 10 });
    assert_eq!(scan.listeners.len(), 1);
    assert_eq!(live.announcement, ScannerStatus::SwitchingToLive);
    assert_eq!(live.request, from);
    assert_eq!(live.mode, ConsumerMode::Stream);

    let Ok(scanner) = Builder::sync().from_latest(10).block_confirmations(5).connect::<Sender>(7)
    else {
        panic!("connection refused")
    };
    let Ok((scan, live, _)) = scanner.start(Ok(Some(20))) else { panic!("not started") };
    assert_eq!((scan.request, live.request), (rewind, from));
}

#[test]
fn sync_from_latest_needs_the_newest_block() {
    let connect = || {
        EventScannerBuilder::<SyncFromLatestEvents, Node>::new(10).connect::<Sender>(7).ok().unwrap()
    };
    assert!(matches!(
        connect().start(Ok(None)),
        Err(ScannerError::BlockNotFound(BlockId::Number(BlockNumberOrTag::Latest)))
    ));
    assert!(matches!(
        connect().start(Err(ScannerError::Timeout)),
        Err(ScannerError::Timeout)
    ));
    let scanner = SyncFromLatestScannerBuilder::<Node>::new(10).connect::<Sender>(7);
    assert!(matches!(
        scanner.start(Ok(None)),
        Err(ScannerError::BlockNotFound(BlockId::Number(BlockNumberOrTag::Latest)))
    ));
}

// a client that chooses by start and end

#[test]
fn client_chooses_the_stream_by_start_and_end() {
    let scanner = client::EventScanner::new()
        .with_blocks_read_per_epoch(3)
        .with_reorg_rewind_depth(4)
        .with_block_confirmations(5);
    assert_eq!(scanner.block_range_scanner.blocks_read_per_epoch, 3);
    assert_eq!(scanner.block_range_scanner.reorg_rewind_depth, 4);
    let mut client = scanner.connect_provider::<Node, Sender>(7);
    client.create_event_stream(EventFilter::new(), 1);
    assert_eq!(client.event_scanner.event_listeners.len(), 1);
    assert_eq!(
        client.start_scanner(Number(1), Some(Latest)),
        (
            StreamRequest::Historical { start_height: Number(1), end_height: Latest },
            ConsumerMode::Stream
        )
    );
    assert_eq!(
        client.start_scanner(Latest, None),
        (StreamRequest::Live { block_confirmations: 5 }, ConsumerMode::Stream)
    );
    assert_eq!(
        client.start_scanner(Latest, Some(Latest)),
        (
            StreamRequest::Historical { start_height: Latest, end_height: Latest },
            ConsumerMode::Stream
        )
    );
    assert_eq!(
        client.start_scanner(Number(1), None),
        (
            StreamRequest::From { start_height: Number(1), block_confirmations: 5 },
            ConsumerMode::Stream
        )
    );
    assert_eq!(
        client.scan_latest(9),
        (
            StreamRequest::Rewind { start_height: Earliest, end_height: Latest },
            ConsumerMode::CollectLatest { count: 9 }
        )
    );
    assert_eq!(
        client.scan_latest_in_range(9, Number(2), Number(3)),
        (
            StreamRequest::Rewind { start_height: Number(2), end_height: Number(3) },
            ConsumerMode::CollectLatest { count: 9 }
        )
    );
}

#[test]
fn request_becomes_a_command() {
    let request = StreamRequest::From { start_height: Number(4), block_confirmations: 2 };
    assert!(matches!(
        request.into_command(1u8, 'r'),
        Command::StreamFrom {
            sender: 1,
            start_height: Number(4),
            block_confirmations: 2,
            response: 'r'
        }
    ));
    let request = StreamRequest::Rewind { start_height: Number(4), end_height: Latest };
    assert!(matches!(
        request.into_command(1u8, 'r'),
        Command::Rewind { sender: 1, start_height: Number(4), end_height: Latest, response: 'r' }
    ));
    let request = StreamRequest::Historical { start_height: Number(4), end_height: Latest };
    assert!(matches!(
        request.into_command(1u8, 'r'),
        Command::StreamHistorical {
            sender: 1,
            start_height: Number(4),
            end_height: Latest,
            response: 'r'
        }
    ));
    assert!(matches!(
        StreamRequest::Live { block_confirmations: 3 }.into_command(1u8, 'r'),
        Command::StreamLive { sender: 1, block_confirmations: 3, response: 'r' }
    ));
}
