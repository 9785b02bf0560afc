use event_scanner::block_range_scanner::batch_iterator::{BatchIterator, Direction};
use event_scanner::types::BlockRange;

#[test]
fn forward_basic() {
    let mut iter = BatchIterator::forward(100, 250, 50);
    assert_eq!(iter.next(), Some(BlockRange::new(100, 149)));
    assert_eq!(iter.next(), Some(BlockRange::new(150, 199)));
    assert_eq!(iter.next(), Some(BlockRange::new(200, 249)));
    assert_eq!(iter.next(), Some(BlockRange::new(250, 250)));
    assert_eq!(iter.next(), None);
}

#[test]
fn reverse_basic() {
    let mut iter = BatchIterator::reverse(250, 100, 50);
    assert_eq!(iter.next(), Some(BlockRange::new(201, 250)));
    assert_eq!(iter.next(), Some(BlockRange::new(151, 200)));
    assert_eq!(iter.next(), Some(BlockRange::new(101, 150)));
    assert_eq!(iter.next(), Some(BlockRange::new(100, 100)));
    assert_eq!(iter.next(), None);
}

#[test]
fn forward_single_batch() {
    let mut iter = BatchIterator::forward(100, 120, 50);
    assert_eq!(iter.next(), Some(BlockRange::new(100, 120)));
    assert_eq!(iter.next(), None);
}

#[test]
fn reverse_single_batch() {
    let mut iter = BatchIterator::reverse(120, 100, 50);
    assert_eq!(iter.next(), Some(BlockRange::new(100, 120)));
    assert_eq!(iter.next(), None);
}

#[test]
fn forward_exact_boundary() {
    let mut iter = BatchIterator::forward(100, 199, 50);
    assert_eq!(iter.next(), Some(BlockRange::new(100, 149)));
    assert_eq!(iter.next(), Some(BlockRange::new(150, 199)));
    assert_eq!(iter.next(), None);
}

#[test]
fn reverse_exact_boundary() {
    let mut iter = BatchIterator::reverse(199, 100, 50);
    assert_eq!(iter.next(), Some(BlockRange::new(150, 199)));
    assert_eq!(iter.next(), Some(BlockRange::new(100, 149)));
    assert_eq!(iter.next(), None);
}

#[test]
fn forward_empty_range() {
    let mut iter = BatchIterator::forward(200, 100, 50);
    assert_eq!(iter.next(), None);
    assert!(iter.is_exhausted());
}

#[test]
fn reverse_empty_range() {
    let mut iter = BatchIterator::reverse(100, 200, 50);
    assert_eq!(iter.next(), None);
    assert!(iter.is_exhausted());
}

#[test]
fn forward_single_block() {
    let mut iter = BatchIterator::forward(100, 100, 50);
    assert_eq!(iter.next(), Some(BlockRange::new(100, 100)));
    assert_eq!(iter.next(), None);
}

#[test]
fn reverse_single_block() {
    let mut iter = BatchIterator::reverse(100, 100, 50);
    assert_eq!(iter.next(), Some(BlockRange::new(100, 100)));
    assert_eq!(iter.next(), None);
}

#[test]
fn forward_max_block_range_one() {
    let mut iter = BatchIterator::forward(100, 103, 1);
    assert_eq!(iter.next(), Some(BlockRange::new(100, 100)));
    assert_eq!(iter.next(), Some(BlockRange::new(101, 101)));
    assert_eq!(iter.next(), Some(BlockRange::new(102, 102)));
    assert_eq!(iter.next(), Some(BlockRange::new(103, 103)));
    assert_eq!(iter.next(), None);
}

#[test]
fn reverse_max_block_range_one() {
    let mut iter = BatchIterator::reverse(103, 100, 1);
    assert_eq!(iter.next(), Some(BlockRange::new(103, 103)));
    assert_eq!(iter.next(), Some(BlockRange::new(102, 102)));
    assert_eq!(iter.next(), Some(BlockRange::new(101, 101)));
    assert_eq!(iter.next(), Some(BlockRange::new(100, 100)));
    assert_eq!(iter.next(), None);
}

#[test]
fn reset_to_rewinds_forward_iteration() {
    let mut iter = BatchIterator::forward(100, 300, 50);
    assert_eq!(iter.next(), Some(BlockRange::new(100, 149)));
    assert_eq!(iter.next(), Some(BlockRange::new(150, 199)));

    iter.reset_to(175);

    assert_eq!(iter.next(), Some(BlockRange::new(175, 224)));
    assert_eq!(iter.next(), Some(BlockRange::new(225, 274)));
    assert_eq!(iter.next(), Some(BlockRange::new(275, 300)));
    assert_eq!(iter.next(), None);
}

#[test]
fn reset_to_rewinds_reverse_iteration() {
    let mut iter = BatchIterator::reverse(300, 100, 50);
    assert_eq!(iter.next(), Some(BlockRange::new(251, 300)));
    assert_eq!(iter.next(), Some(BlockRange::new(201, 250)));

    // Reset to re-scan from a higher block (simulating reorg detection)
    iter.reset_to(280);

    assert_eq!(iter.next(), Some(BlockRange::new(231, 280)));
    assert_eq!(iter.next(), Some(BlockRange::new(181, 230)));
    assert_eq!(iter.next(), Some(BlockRange::new(131, 180)));
    assert_eq!(iter.next(), Some(BlockRange::new(100, 130)));
    assert_eq!(iter.next(), None);
}

#[test]
fn reset_to_after_exhausted() {
    let mut iter = BatchIterator::forward(100, 120, 50);
    assert_eq!(iter.next(), Some(BlockRange::new(100, 120)));
    assert_eq!(iter.next(), None);
    assert!(iter.is_exhausted());

    iter.reset_to(110);

    assert!(!iter.is_exhausted());
    assert_eq!(iter.next(), Some(BlockRange::new(110, 120)));
    assert_eq!(iter.next(), None);
}

#[test]
fn reset_to_beyond_end_exhausts_forward() {
    let mut iter = BatchIterator::forward(100, 200, 50);
    assert_eq!(iter.next(), Some(BlockRange::new(100, 149)));

    iter.reset_to(250);

    assert!(iter.is_exhausted());
    assert_eq!(iter.next(), None);
}

#[test]
fn reset_to_beyond_end_exhausts_reverse() {
    let mut iter = BatchIterator::reverse(200, 100, 50);
    assert_eq!(iter.next(), Some(BlockRange::new(151, 200)));

    iter.reset_to(50);

    assert!(iter.is_exhausted());
    assert_eq!(iter.next(), None);
}

#[test]
fn current_returns_position() {
    let mut iter = BatchIterator::forward(100, 300, 50);
    assert_eq!(iter.current(), 100);

    iter.next();
    assert_eq!(iter.current(), 150);

    iter.next();
    assert_eq!(iter.current(), 200);
}

#[test]
fn end_returns_boundary() {
    let iter = BatchIterator::forward(100, 300, 50);
    assert_eq!(iter.end(), 300);
}

#[test]
fn direction_returns_correct_value() {
    let forward = BatchIterator::forward(100, 200, 50);
    assert_eq!(forward.direction(), Direction::Forward);

    let reverse = BatchIterator::reverse(200, 100, 50);
    assert_eq!(reverse.direction(), Direction::Reverse);
}

#[test]
fn forward_starting_from_zero() {
    let mut iter = BatchIterator::forward(0, 100, 50);
    assert_eq!(iter.next(), Some(BlockRange::new(0, 49)));
    assert_eq!(iter.next(), Some(BlockRange::new(50, 99)));
    assert_eq!(iter.next(), Some(BlockRange::new(100, 100)));
    assert_eq!(iter.next(), None);
}

#[test]
fn reverse_ending_at_zero() {
    let mut iter = BatchIterator::reverse(100, 0, 50);
    assert_eq!(iter.next(), Some(BlockRange::new(51, 100)));
    assert_eq!(iter.next(), Some(BlockRange::new(1, 50)));
    assert_eq!(iter.next(), Some(BlockRange::new(0, 0)));
    assert_eq!(iter.next(), None);
}

#[test]
fn batch_count_increments() {
    let mut iter = BatchIterator::forward(100, 300, 50);
    assert_eq!(iter.batch_count(), 0);

    iter.next();
    assert_eq!(iter.batch_count(), 1);

    iter.next();
    assert_eq!(iter.batch_count(), 2);

    iter.next();
    assert_eq!(iter.batch_count(), 3);
}

#[test]
fn batch_count_persists_after_reset() {
    let mut iter = BatchIterator::forward(100, 300, 50);
    iter.next();
    iter.next();
    assert_eq!(iter.batch_count(), 2);

    iter.reset_to(150);

    // batch_count is not reset
    assert_eq!(iter.batch_count(), 2);

    iter.next();
    assert_eq!(iter.batch_count(), 3);
}
