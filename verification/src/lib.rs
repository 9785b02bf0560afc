//! Scanning of an Ethereum-like chain: block ranges, reorganisations and event logs.
//!
//! Everything that decides something lives here, as verified functions on plain values.  Waiting
//! for a node, for a channel or for a timer is left to the program that drives these functions.

pub mod block_channel;
pub mod block_range_scanner;
pub mod block_scanner;
pub mod block_scanner_new;
pub mod builder;
pub mod callback;
pub mod callback_strategy;
pub mod error;
pub mod event_filter;
pub mod event_lib;
pub mod event_scanner;
pub mod event_scanner_ref;
pub mod robust_provider;
pub mod text;
pub mod types;
