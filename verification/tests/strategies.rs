use event_scanner::callback::strategy::fixed_retry::RetryAction;
use event_scanner::callback::strategy::state_sync_aware::{
    is_missing_state_text, is_missing_trie_node_error, StateSyncAction, StateSyncEvent,
};
use event_scanner::callback::strategy::{
    FixedRetryConfig, FixedRetryStrategy, StateSyncAwareStrategy, StateSyncConfig,
};
use event_scanner::types::{milliseconds, seconds, TimeSpan};

fn called(outcome: Result<(), &'static str>, grown: TimeSpan) -> StateSyncEvent<&'static str> {
    let missing_state = match outcome {
        Ok(()) => false,
        Err(text) => is_missing_trie_node_error(text),
    };
    StateSyncEvent::Called { outcome, missing_state, grown }
}

#[test]
fn failing_callback_is_called_as_often_as_configured() {
    let cfg = FixedRetryConfig { max_attempts: 3, delay_ms: 50 };
    let mut retry = FixedRetryStrategy::new(cfg).execute();
    assert!(matches!(retry.step(Err('a')), RetryAction::RetryAfter(span) if span == milliseconds(50)));
    assert!(matches!(retry.step(Err('b')), RetryAction::RetryAfter(span) if span == milliseconds(50)));
    assert!(matches!(retry.step(Err('c')), RetryAction::Done(Err('c'))));
    assert_eq!(retry.calls, 3);
}

#[test]
fn success_ends_the_calls() {
    let mut retry = FixedRetryStrategy::new(FixedRetryConfig::default()).execute();
    assert!(matches!(retry.step(Err('a')), RetryAction::RetryAfter(_)));
    assert!(matches!(retry.step::<char>(Ok(())), RetryAction::Done(Ok(()))));
}

#[test]
fn no_attempts_are_one() {
    let cfg = FixedRetryConfig { max_attempts: 0, delay_ms: 50 };
    let mut retry = FixedRetryStrategy::new(cfg).execute();
    assert!(matches!(retry.step(Err('a')), RetryAction::Done(Err('a'))));
}

const MISSING: &str = "Missing Trie Node 0xabc (path ) State 0x12 is Not Available";

#[test]
fn missing_state_is_told_from_the_text() {
    assert!(is_missing_trie_node_error(MISSING));
    assert!(!is_missing_trie_node_error("missing trie node"));
    assert!(!is_missing_trie_node_error("state is not available"));
    assert!(!is_missing_trie_node_error("execution reverted"));
    assert!(!is_missing_state_text(MISSING));
    assert!(is_missing_state_text("missing trie node: state 0x12 is not available"));
}

#[test]
fn missing_state_is_waited_for_longer_and_longer() {
    let strategy = StateSyncAwareStrategy::new();
    assert_eq!(strategy.cfg.initial_interval, seconds(30));
    assert_eq!(strategy.cfg.max_interval, seconds(120));
    assert_eq!(strategy.cfg.max_elapsed, seconds(600));
    let retry = strategy.execute();
    let (retry, action) = retry.step(called(Err(MISSING), 0));
    assert!(matches!(action, StateSyncAction::Measure));
    let (retry, action) = retry.step(StateSyncEvent::Elapsed(0));
    assert!(matches!(action, StateSyncAction::CallAfter(span) if span == seconds(30)));
    let (retry, action) = retry.step(called(Err(MISSING), seconds(45)));
    assert!(matches!(action, StateSyncAction::Measure));
    let (retry, action) = retry.step(StateSyncEvent::Elapsed(seconds(30)));
    assert!(matches!(action, StateSyncAction::CallAfter(span) if span == seconds(45)));
    // no longer than the longest pause
    let (retry, _) = retry.step(called(Err(MISSING), seconds(500)));
    let (retry, action) = retry.step(StateSyncEvent::Elapsed(seconds(75)));
    assert!(matches!(action, StateSyncAction::CallAfter(span) if span == seconds(120)));
    // no longer than the longest time
    let (retry, _) = retry.step(called(Err("still missing"), seconds(180)));
    let (_, action) = retry.step(StateSyncEvent::Elapsed(seconds(600)));
    assert!(matches!(action, StateSyncAction::Done(Err("still missing"))));
}

#[test]
fn other_failures_are_retried_at_fixed_distances() {
    let strategy = StateSyncAwareStrategy::new()
        .with_fixed_retry_config(FixedRetryConfig { max_attempts: 2, delay_ms: 70 })
        .with_state_sync_config(StateSyncConfig::default());
    let retry = strategy.execute();
    let (retry, action) = retry.step(called(Err("reverted"), 0));
    assert!(matches!(action, StateSyncAction::CallAfter(0)));
    let (retry, action) = retry.step(called(Err("reverted"), 0));
    assert!(matches!(action, StateSyncAction::CallAfter(span) if span == milliseconds(70)));
    let (_, action) = retry.step(called(Err("reverted again"), 0));
    assert!(matches!(action, StateSyncAction::Done(Err("reverted again"))));

    let (_, action) = strategy.execute().step(called(Ok(()), 0));
    assert!(matches!(action, StateSyncAction::Done(Ok(()))));
}
