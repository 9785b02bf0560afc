//! Scanners that are configured by mode and share a service.

pub mod modes;
pub mod scanner;

pub use modes::EventScanner;
pub use scanner::EventScannerService;
