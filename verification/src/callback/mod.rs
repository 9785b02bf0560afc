//! Calling back for each event.

pub mod strategy;
