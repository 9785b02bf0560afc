use event_scanner::builder::{EventFilter, ScannerBuilder};
use event_scanner::callback::strategy::{FixedRetryConfig, BACK_OFF_MAX_RETRIES};
use event_scanner::types::Address;

const WS_URL: &str = "ws://localhost:8545";
const ADDRESS_1: &str = "f39Fd6e51aad88F6F4ce6aB8827279cffFb92266";
const ADDRESS_2: &str = "70997970C51812dc3A010C7d01b50e0d17dc79C8";
const ADDRESS_3: &str = "3C44CdDdB6a900fa2b585dd299e03d12FA4293BC";

type Builder = ScannerBuilder<u8>;

fn address(digits: &str) -> Address {
    let address: alloy::primitives::Address = digits.parse().unwrap();
    Address { bytes: address.into_array() }
}

fn filter(digits: &str, event: &str) -> EventFilter<u8> {
    EventFilter { contract_address: address(digits), event: event.to_string(), callback: 0 }
}

#[test]
fn test_builder_new_defaults() {
    let builder = Builder::new(WS_URL);
    assert_eq!(builder.rpc_url, WS_URL);
    assert_eq!(builder.start_block, None);
    assert_eq!(builder.end_block, None);
    assert_eq!(builder.max_blocks_per_filter, 1000);
    assert!(builder.tracked_events.is_empty());
}

#[test]
fn test_builder_start_block() {
    let start_block = 100;
    let builder = Builder::new(WS_URL).start_block(start_block);
    assert_eq!(builder.start_block, Some(start_block));
}

#[test]
fn test_builder_end_block() {
    let end_block = 500;
    let builder = Builder::new(WS_URL).end_block(end_block);
    assert_eq!(builder.end_block, Some(end_block));
}

#[test]
fn test_builder_block_range() {
    let start_block = 100;
    let end_block = 500;
    let builder = Builder::new(WS_URL).start_block(start_block).end_block(end_block);
    assert_eq!(builder.start_block, Some(start_block));
    assert_eq!(builder.end_block, Some(end_block));
}

#[test]
fn test_builder_max_blocks_per_filter() {
    let max_blocks = 5000;
    let builder = Builder::new(WS_URL).max_blocks_per_filter(max_blocks);
    assert_eq!(builder.max_blocks_per_filter, max_blocks);
}

#[test]
fn test_builder_callback_config() {
    let max_attempts = 5;
    let delay_ms = 500;
    let config = FixedRetryConfig { max_attempts, delay_ms };

    let builder = Builder::new(WS_URL).callback_config(config);

    assert_eq!(builder.callback_config.max_attempts, max_attempts);
    assert_eq!(builder.callback_config.delay_ms, delay_ms);
}

#[test]
fn test_builder_default_callback_config() {
    let builder = Builder::new(WS_URL);

    assert_eq!(builder.callback_config.max_attempts, BACK_OFF_MAX_RETRIES);
    assert_eq!(builder.callback_config.delay_ms, 200);
}

#[test]
fn test_builder_add_event_filter() {
    let event = "Transfer(address,address,uint256)";
    let builder = Builder::new(WS_URL).add_event_filter(filter(ADDRESS_1, event));

    assert_eq!(builder.tracked_events.len(), 1);
    assert!(builder.tracked_events[0].contract_address == address(ADDRESS_1));
    assert_eq!(builder.tracked_events[0].event, event);
}

#[test]
fn test_builder_add_multiple_event_filters() {
    let event1 = "Transfer(address,address,uint256)";
    let event2 = "Approval(address,address,uint256)";

    let builder = Builder::new(WS_URL)
        .add_event_filter(filter(ADDRESS_1, event1))
        .add_event_filter(filter(ADDRESS_2, event2));

    assert_eq!(builder.tracked_events.len(), 2);
    for (i, (digits, event)) in [(ADDRESS_1, event1), (ADDRESS_2, event2)].iter().enumerate() {
        assert!(builder.tracked_events[i].contract_address == address(digits));
        assert_eq!(builder.tracked_events[i].event, *event);
    }
}

#[test]
fn test_builder_add_event_filters_batch() {
    let expected = [
        (ADDRESS_1, "Transfer(address,address,uint256)"),
        (ADDRESS_2, "Approval(address,address,uint256)"),
        (ADDRESS_3, "Mint(address,uint256)"),
    ];
    let filters = expected.iter().map(|(digits, event)| filter(digits, event)).collect();
    let builder = Builder::new(WS_URL).add_event_filters(filters);

    assert_eq!(builder.tracked_events.len(), expected.len());

    for (i, (digits, event)) in expected.iter().enumerate() {
        assert!(builder.tracked_events[i].contract_address == address(digits));
        assert_eq!(builder.tracked_events[i].event, *event);
    }
}

#[test]
fn test_builder_chain_all_methods() {
    let start_block = 100;
    let end_block = 500;
    let max_attempts = 5;
    let delay_ms = 500;
    let config = FixedRetryConfig { max_attempts, delay_ms };
    let max_blocks_per_filter = 2000;
    let builder = Builder::new(WS_URL)
        .start_block(start_block)
        .end_block(end_block)
        .max_blocks_per_filter(max_blocks_per_filter)
        .add_event_filter(filter(ADDRESS_1, "Transfer(address,address,uint256)"))
        .callback_config(config);

    assert_eq!(builder.start_block, Some(start_block));
    assert_eq!(builder.end_block, Some(end_block));
    assert_eq!(builder.max_blocks_per_filter, max_blocks_per_filter);
    assert_eq!(builder.tracked_events.len(), 1);
    assert_eq!(builder.callback_config.max_attempts, max_attempts);
    assert_eq!(builder.callback_config.delay_ms, delay_ms);
}
