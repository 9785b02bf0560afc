use event_scanner::error::ScannerError;
use event_scanner::robust_provider::{
    require_block, Error, FallbackAction, RobustProvider, DEFAULT_MAX_ATTEMPTS,
    DEFAULT_MAX_TIMEOUT, DEFAULT_MIN_DELAY,
};
use event_scanner::types::{milliseconds, seconds, BlockId, BlockNumberOrTag};

/// Tries an operation on the providers; gives those that were tried, and the outcome.
fn tried(
    robust: &RobustProvider<char>,
    require_pubsub: bool,
    pubsub: Vec<bool>,
    operation: impl Fn(char) -> Result<u8, Error>,
) -> (String, Result<u8, Error>) {
    let mut names = String::new();
    let mut run = match robust.retry_with_total_timeout(require_pubsub, pubsub) {
        Ok(run) => run,
        Err(e) => return (names, Err(e)),
    };
    let mut index = run.current();
    loop {
        let provider = *robust.provider(index).unwrap();
        names.push(provider);
        match run.step(operation(provider)) {
            FallbackAction::Try(next) => index = next,
            FallbackAction::Done(outcome) => return (names, outcome),
        }
    }
}

fn three() -> RobustProvider<char> {
    RobustProvider::new('a').fallback('b').fallback('c')
}

#[test]
fn defaults_match_constants() {
    let robust = RobustProvider::new('a');
    assert_eq!(*robust.root(), 'a');
    assert_eq!(robust.limits(), (DEFAULT_MAX_TIMEOUT, DEFAULT_MAX_ATTEMPTS, DEFAULT_MIN_DELAY));
    assert_eq!(robust.limits(), (seconds(60), 3, seconds(1)));
    assert_eq!(RobustProvider::no_retry('a').limits(), (DEFAULT_MAX_TIMEOUT, 0, 0));
}

#[test]
fn setters_update_configuration() {
    let robust = RobustProvider::no_retry('a')
        .max_timeout(seconds(5))
        .max_retries(4)
        .min_delay(milliseconds(10))
        .fallback('b');
    assert_eq!(robust.limits(), (seconds(5), 4, milliseconds(10)));
    assert_eq!(*robust.root(), 'a');
    assert_eq!(robust.provider(1), Some(&'b'));
    assert_eq!(robust.provider(2), None);
}

#[test]
fn first_success_is_the_outcome() {
    let (names, outcome) = tried(&three(), false, vec![true; 3], |_| Ok(1));
    assert_eq!(names, "a");
    assert!(matches!(outcome, Ok(1)));
    let (names, outcome) = tried(&three(), false, vec![false; 3], |provider| match provider {
        'b' => Ok(2),
        _ => Err(Error::Timeout),
    });
    assert_eq!(names, "ab");
    assert!(matches!(outcome, Ok(2)));
}

#[test]
fn last_failure_is_the_outcome() {
    let (names, outcome) = tried(&three(), false, vec![true; 3], |provider| match provider {
        'c' => Err(Error::RpcError("gone".to_string())),
        _ => Err(Error::Timeout),
    });
    assert_eq!(names, "abc");
    assert!(matches!(outcome, Err(Error::RpcError(cause)) if cause == "gone"));
}

#[test]
fn test_subscribe_fails_causes_backup_to_be_used() {
    let robust = RobustProvider::no_retry('a').fallback('b').max_timeout(seconds(5));
    let (names, outcome) = tried(&robust, true, vec![true, true], |provider| match provider {
        'a' => Err(Error::Timeout),
        _ => Ok(1),
    });
    assert_eq!(names, "ab");
    assert!(outcome.is_ok(), "Expected subscribe blocks to work");
}

#[test]
fn test_ws_fails_http_fallback_returns_primary_error() {
    let robust = RobustProvider::no_retry('a').fallback('b').max_timeout(milliseconds(500));
    let (names, outcome) =
        tried(&robust, true, vec![true, false], |_| Err(Error::RpcError("gone".to_string())));
    // the substitute cannot push, and is not tried
    assert_eq!(names, "a");
    assert!(matches!(outcome, Err(Error::RpcError(cause)) if cause == "gone"));
}

#[test]
fn no_provider_can_push() {
    let (names, outcome) = tried(&three(), true, vec![false; 3], |_| Ok(7));
    assert_eq!(names, "");
    assert!(matches!(
        outcome,
        Err(Error::RpcError(cause)) if cause == "subscriptions are not available on this provider"
    ));
}

#[test]
fn providers_that_cannot_push_are_skipped() {
    let pubsub = || vec![false, true, false];
    let (names, outcome) = tried(&three(), true, pubsub(), |_| Ok(7));
    assert_eq!(names, "b");
    assert!(matches!(outcome, Ok(7)));
    let (names, outcome) = tried(&three(), true, pubsub(), |_| Err(Error::Timeout));
    assert_eq!(names, "b");
    assert!(matches!(outcome, Err(Error::Timeout)));
    let (names, _) = tried(&three(), false, pubsub(), |_| Err(Error::Timeout));
    assert_eq!(names, "abc");
}

#[test]
fn missing_block_is_an_error() {
    let id = BlockId::Number(BlockNumberOrTag::Number(7));
    assert!(matches!(require_block(Ok(Some(3)), id), Ok(3)));
    assert!(matches!(
        require_block::<u8>(Ok(None), id),
        Err(Error::BlockNotFound(BlockId::Number(BlockNumberOrTag::Number(7))))
    ));
    assert!(matches!(require_block::<u8>(Err(Error::Timeout), id), Err(Error::Timeout)));
}

#[test]
fn errors_keep_their_words() {
    let errors = || {
        vec![
            Error::Timeout,
            Error::RpcError("gone".to_string()),
            Error::BlockNotFound(BlockId::Number(BlockNumberOrTag::Latest)),
        ]
    };
    let words: Vec<String> = errors().iter().map(|error| error.to_text()).collect();
    assert_eq!(
        words,
        vec![
            "Operation timed out",
            "RPC call failed after exhausting all retry attempts: gone",
            "Block not found, Block Id: latest",
        ]
    );
    let scanner_words: Vec<String> =
        errors().into_iter().map(|error| ScannerError::from(error).to_text()).collect();
    assert_eq!(scanner_words, words);
}
