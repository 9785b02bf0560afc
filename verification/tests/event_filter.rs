use alloy::primitives::keccak256;
use event_scanner::event_filter::{EventFilter, Filter};
use event_scanner::types::{Address, BlockHash, BlockRange};

const EVENT_ONE: &str = "EventOne()";
const EVENT_TWO: &str = "EventTwo()";
const HASH_ONE: &str = "0xa08dd6fd0d644da5df33d075cb9256203802f6948ab81b87079960711810dc91";
const HASH_TWO: &str = "0x16eb4fc7651e068f1c31303645026f82d5fced11a8d5209bbf272072be23ddff";

fn dead() -> Address {
    let address: alloy::primitives::Address =
        "0x000000000000000000000000000000000000dEaD".parse().unwrap();
    Address { bytes: address.into_array() }
}

fn hash(event: &str) -> BlockHash {
    BlockHash { bytes: keccak256(event.as_bytes()).0 }
}

fn owned(events: &[&str]) -> Vec<String> {
    events.iter().map(|event| event.to_string()).collect()
}

#[test]
fn display_default_no_address_no_events() {
    let filter = EventFilter::new();
    assert_eq!(filter.to_text(), "EventFilter()");
    assert_eq!(EventFilter::default().to_text(), "EventFilter()");
}

#[test]
fn display_with_address() {
    let filter = EventFilter::new().with_contract_address(dead());
    assert_eq!(
        filter.to_text(),
        "EventFilter(contract: 0x000000000000000000000000000000000000dEaD)"
    );
}

#[test]
fn display_single_event() {
    let filter = EventFilter::new().with_event(EVENT_ONE);
    assert_eq!(filter.to_text(), "EventFilter(events: [EventOne()])");
}

#[test]
fn display_single_event_signature() {
    let filter = EventFilter::new().with_event_signature(hash(EVENT_ONE));
    let expected =
        "EventFilter(event_signatures: [0xa08dd6fd0d644da5df33d075cb9256203802f6948ab81b87079960711810dc91])";
    assert_eq!(filter.to_text(), expected);
}

#[test]
fn display_multiple_events_with_address() {
    let filter = EventFilter::new()
        .with_contract_address(dead())
        .with_events(owned(&[EVENT_ONE, EVENT_TWO]));
    assert_eq!(
        filter.to_text(),
        "EventFilter(contract: 0x000000000000000000000000000000000000dEaD, events: [EventOne(), EventTwo()])"
    );
}

#[test]
fn display_multiple_event_signatures_with_address() {
    let filter = EventFilter::new()
        .with_contract_address(dead())
        .with_event_signatures(vec![hash(EVENT_ONE), hash(EVENT_TWO)]);
    let got = filter.to_text();
    // `Topic` doesn't guarantee the order of values it returns
    let expected_1 = format!(
        "EventFilter(contract: 0x000000000000000000000000000000000000dEaD, event_signatures: [{HASH_TWO}, {HASH_ONE}])"
    );
    let expected_2 = format!(
        "EventFilter(contract: 0x000000000000000000000000000000000000dEaD, event_signatures: [{HASH_ONE}, {HASH_TWO}])"
    );
    assert!(
        got == expected_1 || got == expected_2,
        "got: {got},\nexpected_1: {expected_1},\nexpected_2: {expected_2}"
    );
}

#[test]
fn display_multiple_events_and_event_signatures() {
    let filter = EventFilter::new()
        .with_events(owned(&[EVENT_ONE, EVENT_TWO]))
        .with_event_signatures(vec![hash(EVENT_ONE), hash(EVENT_TWO)]);
    let got = filter.to_text();
    let expected_1 = format!(
        "EventFilter(events: [EventOne(), EventTwo()], event_signatures: [{HASH_TWO}, {HASH_ONE}])"
    );
    let expected_2 = format!(
        "EventFilter(events: [EventOne(), EventTwo()], event_signatures: [{HASH_ONE}, {HASH_TWO}])"
    );
    assert!(
        got == expected_1 || got == expected_2,
        "got: {got},\nexpected_1: {expected_1},\nexpected_2: {expected_2}"
    );
}

#[test]
fn display_multiple_events_and_event_signatures_with_address() {
    let filter = EventFilter::new()
        .with_contract_address(dead())
        .with_events(owned(&[EVENT_ONE, EVENT_TWO]))
        .with_event_signatures(vec![hash(EVENT_ONE), hash(EVENT_TWO)]);
    let got = filter.to_text();
    let expected_1 = format!(
        "EventFilter(contract: 0x000000000000000000000000000000000000dEaD, events: [EventOne(), EventTwo()], event_signatures: [{HASH_TWO}, {HASH_ONE}])"
    );
    let expected_2 = format!(
        "EventFilter(contract: 0x000000000000000000000000000000000000dEaD, events: [EventOne(), EventTwo()], event_signatures: [{HASH_ONE}, {HASH_TWO}])"
    );
    assert!(
        got == expected_1 || got == expected_2,
        "got: {got},\nexpected_1: {expected_1},\nexpected_2: {expected_2}"
    );
}

#[test]
fn display_with_empty_events_vector_noop() {
    // Providing an empty events vector should behave as if no events were set.
    let filter = EventFilter::new().with_events(Vec::new());
    assert_eq!(filter.to_text(), "EventFilter()");
}

#[test]
fn empty_event_is_passed_over() {
    assert_eq!(EventFilter::new().with_event("").to_text(), "EventFilter()");
    let filter = EventFilter::new().with_event(EVENT_ONE).with_event(EVENT_TWO).with_event("");
    assert_eq!(filter.to_text(), "EventFilter(events: [EventOne(), EventTwo()])");
}

#[test]
fn all_events_holds_signatures_and_hashes() {
    let filter = EventFilter::new().with_event(EVENT_ONE).with_event_signature(hash(EVENT_TWO));
    let topic = filter.all_events();
    assert_eq!(topic.len(), 2);
    assert!(topic.matches(&keccak256(EVENT_ONE.as_bytes())));
    assert!(topic.matches(&keccak256(EVENT_TWO.as_bytes())));
    assert!(!topic.matches(&keccak256(b"EventThree()")));
    assert!(EventFilter::new().all_events().is_empty());
}

#[test]
fn hashes_add_up() {
    let filter = EventFilter::new()
        .with_event_signature(hash(EVENT_ONE))
        .with_event_signatures(vec![hash(EVENT_ONE), hash(EVENT_TWO)]);
    assert_eq!(filter.all_events().len(), 2);
}

#[test]
fn log_filter_asks_for_contract_events_and_blocks() {
    let filter = Filter::from(&EventFilter::new());
    assert!(filter.address.is_none());
    assert!(filter.event_signatures.is_none());
    assert!(filter.blocks.is_none());

    let wanted = EventFilter::new().with_contract_address(dead()).with_event(EVENT_ONE);
    let filter = Filter::from(wanted).over(BlockRange::new(3, 9));
    assert!(filter.address == Some(dead()));
    let topic = filter.event_signatures.unwrap();
    assert_eq!(topic.len(), 1);
    assert!(topic.matches(&keccak256(EVENT_ONE.as_bytes())));
    assert_eq!(filter.blocks, Some(BlockRange::new(3, 9)));
}

#[test]
fn text_has_the_hashes_in_the_order_given() {
    let filter = EventFilter::new().with_event(EVENT_ONE);
    assert_eq!(
        filter.text_with(&vec![hash(EVENT_TWO), hash(EVENT_ONE)]),
        format!("EventFilter(events: [EventOne()], event_signatures: [{HASH_TWO}, {HASH_ONE}])")
    );
}
