use event_scanner::block_range_scanner::ring_buffer::{RingBuffer, RingBufferCapacity};
use event_scanner::types::{BlockHash, BlockNumHash};

fn block(number: u64, byte: u8) -> BlockNumHash {
    BlockNumHash::new(number, BlockHash::repeat_byte(byte))
}

#[test]
fn zero_capacity_should_ignore_elements() {
    let mut buf = RingBuffer::new(RingBufferCapacity::Limited(0));
    buf.push(block(1, 1));
    assert!(buf.is_empty());
}

#[test]
fn push_and_back_returns_newest() {
    let mut buf = RingBuffer::new(RingBufferCapacity::Limited(10));
    buf.push(block(100, 1));
    buf.push(block(101, 2));
    assert_eq!(buf.back().unwrap().number, 101);
}

#[test]
fn front_returns_oldest() {
    let mut buf = RingBuffer::new(RingBufferCapacity::Limited(10));
    buf.push(block(100, 1));
    buf.push(block(101, 2));
    assert_eq!(buf.front().unwrap().number, 100);
}

#[test]
fn get_finds_block_by_number() {
    let mut buf = RingBuffer::new(RingBufferCapacity::Limited(10));
    let h1 = BlockHash::repeat_byte(1);
    let h2 = BlockHash::repeat_byte(2);
    let h3 = BlockHash::repeat_byte(3);

    buf.push(BlockNumHash::new(100, h1));
    buf.push(BlockNumHash::new(101, h2));
    buf.push(BlockNumHash::new(102, h3));

    assert_eq!(buf.get(100).map(|b| b.hash), Some(h1));
    assert_eq!(buf.get(101).map(|b| b.hash), Some(h2));
    assert_eq!(buf.get(102).map(|b| b.hash), Some(h3));
    assert!(buf.get(99).is_none());
    assert!(buf.get(103).is_none());
}

#[test]
fn truncate_after_keeps_blocks_up_to_number() {
    let mut buf = RingBuffer::new(RingBufferCapacity::Limited(10));
    buf.push(block(100, 1));
    buf.push(block(101, 2));
    buf.push(block(102, 3));
    buf.push(block(103, 4));

    buf.truncate_after(101);

    assert!(buf.get(100).is_some());
    assert!(buf.get(101).is_some());
    assert!(buf.get(102).is_none());
    assert!(buf.get(103).is_none());
}

#[test]
fn append_adds_multiple_blocks() {
    let mut buf = RingBuffer::new(RingBufferCapacity::Limited(10));
    buf.push(block(100, 1));
    buf.append(vec![block(101, 2), block(102, 3)]);

    assert_eq!(buf.back().unwrap().number, 102);
    assert!(buf.get(101).is_some());
}

#[test]
fn is_empty_works_correctly() {
    let mut buf = RingBuffer::new(RingBufferCapacity::Limited(10));
    assert!(buf.is_empty());
    buf.push(block(100, 1));
    assert!(!buf.is_empty());
    buf.clear();
    assert!(buf.is_empty());
}

#[test]
fn limited_capacity_evicts_oldest() {
    let mut buf = RingBuffer::new(RingBufferCapacity::Limited(3));
    buf.push(block(100, 1));
    buf.push(block(101, 2));
    buf.push(block(102, 3));
    buf.push(block(103, 4));

    assert!(buf.get(100).is_none()); // evicted
    assert_eq!(buf.front().unwrap().number, 101);
    assert_eq!(buf.back().unwrap().number, 103);
}
