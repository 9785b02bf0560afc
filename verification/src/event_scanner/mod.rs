//! Scanning for events.

pub mod client;
pub mod consumer;
pub mod message;
pub mod modes;
pub mod request;
pub mod scanner;
pub mod stream;
