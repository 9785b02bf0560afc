//! Streaming of block ranges.

pub mod batch_iterator;
pub mod builder;
pub mod common;
pub mod historical_range_handler;
pub mod live_stream;
pub mod message;
pub mod range_iterator;
pub mod reorg_handler;
pub mod ring_buffer;
pub mod scanner;
pub mod streams;

pub use builder::{BlockRangeScanner, ConnectedBlockRangeScanner};
pub use ring_buffer::RingBufferCapacity;
