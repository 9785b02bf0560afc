//! Builders for scanners, one for each mode.

pub mod historic;
pub mod latest;
pub mod live;
pub mod sync;
