//! What to do when a callback fails, under one roof.

pub use crate::callback::strategy::fixed_retry::{
    FixedRetry, FixedRetryConfig, FixedRetryStrategy, RetryAction, BACK_OFF_MAX_RETRIES,
};
pub use crate::callback::strategy::state_sync_aware::{
    is_missing_trie_node_error, StateSyncAction, StateSyncAwareStrategy, StateSyncConfig,
    StateSyncEvent, StateSyncRetry, STATE_SYNC_MAX_RETRIES, STATE_SYNC_RETRY_INTERVAL,
    STATE_SYNC_RETRY_MAX_ELAPSED, STATE_SYNC_RETRY_MAX_INTERVAL,
};
use vstd::prelude::*;

verus! {

/// Milliseconds between calls unless set otherwise.
pub const FIXED_DELAY_MS: u64 = 200;

} // verus!
