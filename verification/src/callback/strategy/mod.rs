//! What to do when a callback fails.

pub mod fixed_retry;
pub mod state_sync_aware;

pub use fixed_retry::{FixedRetryConfig, FixedRetryStrategy, BACK_OFF_MAX_RETRIES};
pub use state_sync_aware::{StateSyncAwareStrategy, StateSyncConfig};
