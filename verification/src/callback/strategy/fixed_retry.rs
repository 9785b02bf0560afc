//! Calling again a fixed time after a failure, so many times.

use crate::types::{milliseconds, TimeSpan};
use vstd::prelude::*;

verus! {

/// How often a callback is called unless set otherwise.
pub const BACK_OFF_MAX_RETRIES: u64 = 5;

/// Milliseconds between calls unless set otherwise.
pub const BACK_OFF_MAX_DELAY_MS: u64 = 200;

/// How often, and at what distance, a callback is called.
#[derive(Clone, Copy, Debug, PartialEq, Eq, Structural)]
pub struct FixedRetryConfig {
    pub max_attempts: u64,
    pub delay_ms: u64,
}

impl Default for FixedRetryConfig {
    fn default() -> (cfg: Self)
        ensures
            cfg == (FixedRetryConfig {
                max_attempts: BACK_OFF_MAX_RETRIES,
                delay_ms: BACK_OFF_MAX_DELAY_MS,
            }),
    {
        FixedRetryConfig { max_attempts: BACK_OFF_MAX_RETRIES, delay_ms: BACK_OFF_MAX_DELAY_MS }
    }
}

impl FixedRetryConfig {
    /// How often a callback is called at most; it is called at least once.
    pub open spec fn attempts(self) -> u64 {
        if self.max_attempts >= 1 {
            self.max_attempts
        } else {
            1
        }
    }
}

/// What is to be done after a call: `E` is the error of the callback.
#[derive(Debug)]
pub enum RetryAction<E> {
    /// Wait so long, then call again.
    RetryAfter(TimeSpan),
    /// Nothing; this is the outcome.
    Done(Result<(), E>),
}

/// The retrying of a callback: how many calls were made so far.
#[derive(Clone, Copy, Debug, PartialEq, Eq, Structural)]
pub struct FixedRetry {
    pub cfg: FixedRetryConfig,
    pub calls: u64,
}

impl FixedRetry {
    /// The retrying with one more call made.
    pub open spec fn called(self) -> FixedRetry {
        FixedRetry { calls: (self.calls + 1) as u64, ..self }
    }

    /// Whether the next call, if it succeeds or does not, is the last.
    pub open spec fn ends(self, succeeds: bool) -> bool {
        succeeds || self.called().calls >= self.cfg.attempts()
    }

    /// Takes in what came of a call, and says what is to be done: a failure is followed by another
    /// call until all attempts are made.  The outcome is that of the last call.
    pub fn step<E>(&mut self, outcome: Result<(), E>) -> (action: RetryAction<E>)
        requires
            old(self).calls < old(self).cfg.attempts(),
        ensures
            *final(self) == old(self).called(),
            action == (if old(self).ends(outcome is Ok) {
                RetryAction::Done(outcome)
            } else {
                RetryAction::RetryAfter((old(self).cfg.delay_ms * 1_000_000) as u128)
            }),
    {
        self.calls = self.calls + 1;
        match outcome {
            Ok(done) => RetryAction::Done(Ok(done)),
            Err(e) => {
                let attempts: u64 = if self.cfg.max_attempts >= 1 {
                    self.cfg.max_attempts
                } else {
                    1
                };
                if self.calls < attempts {
                    RetryAction::RetryAfter(milliseconds(self.cfg.delay_ms))
                } else {
                    RetryAction::Done(Err(e))
                }
            },
        }
    }
}

/// Calls again a fixed time after a failure.
#[derive(Clone, Copy, Debug, PartialEq, Eq, Structural)]
pub struct FixedRetryStrategy {
    pub cfg: FixedRetryConfig,
}

impl FixedRetryStrategy {
    /// The strategy with the given settings.
    #[must_use]
    pub fn new(cfg: FixedRetryConfig) -> (strategy: Self)
        ensures
            strategy.cfg == cfg,
    {
        FixedRetryStrategy { cfg }
    }

    /// Begins to call: the first call is to be made right away.
    pub fn execute(&self) -> (retry: FixedRetry)
        ensures
            retry == (FixedRetry { cfg: self.cfg, calls: 0 }),
            retry.calls < retry.cfg.attempts(),
    {
        FixedRetry { cfg: self.cfg, calls: 0 }
    }
}

/// How many calls are made from here on, if the call after `n` others succeeds as `succeeds(n)`
/// says.
pub open spec fn calls_made(retry: FixedRetry, succeeds: spec_fn(u64) -> bool) -> nat
    decreases retry.cfg.attempts() - retry.calls,
    when retry.calls < retry.cfg.attempts()
{
    if retry.ends(succeeds(retry.calls)) {
        1
    } else {
        1 + calls_made(retry.called(), succeeds)
    }
}

/// A callback that always fails is called exactly as often as the settings allow.  No callback is
/// called more often, or again once it has succeeded, or not at all.
pub proof fn calls_are_bounded(retry: FixedRetry, succeeds: spec_fn(u64) -> bool)
    requires
        retry.calls < retry.cfg.attempts(),
    ensures
        1 <= calls_made(retry, succeeds) <= retry.cfg.attempts() - retry.calls,
        (forall|n: u64| !#[trigger] succeeds(n)) ==> calls_made(retry, succeeds)
            == retry.cfg.attempts() - retry.calls,
        forall|n: u64|
            retry.calls <= n < retry.calls + calls_made(retry, succeeds) - 1
                ==> !#[trigger] succeeds(n),
    decreases retry.cfg.attempts() - retry.calls,
{
    if !retry.ends(succeeds(retry.calls)) {
        calls_are_bounded(retry.called(), succeeds);
    }
}

/// A callback is called as often as the settings say, but at least once.
pub proof fn callback_is_called_at_least_once(cfg: FixedRetryConfig)
    ensures
        cfg.max_attempts >= 1 ==> cfg.attempts() == cfg.max_attempts,
        cfg.max_attempts == 0 ==> cfg.attempts() == 1,
{
}

/// A call that succeeds is the last one; one that fails is, if it makes the number of calls full.
pub proof fn call_is_the_last_if_it_succeeds(retry: FixedRetry)
    requires
        retry.calls < u64::MAX,
    ensures
        retry.called().calls == retry.calls + 1,
        retry.called().cfg == retry.cfg,
        retry.ends(true),
        retry.ends(false) <==> retry.calls + 1 >= retry.cfg.max_attempts,
{
}

} // verus!
