//! Access to a stream of events, once the scanner has been started.

use vstd::prelude::*;

verus! {

/// Proof that the scanner has been started.
///
/// Whoever reads from a stream of events must show such a token; so the scanner is started before
/// events are read.
#[derive(Debug, Clone, Copy, PartialEq, Eq, Structural)]
pub struct ScannerToken {
    /// Private field prevents construction outside this crate
    started: bool,
}

impl ScannerToken {
    /// Whether the token was given out by a scanner that was started.
    pub closed spec fn shows_start(self) -> bool {
        self.started
    }

    /// Creates a new scanner token.
    #[must_use]
    pub(crate) fn new() -> (token: Self)
        ensures
            token.shows_start(),
    {
        ScannerToken { started: true }
    }
}

/// Proof that the scanner has been started.
///
/// It is returned by `EventScanner::start()` and must be passed to
/// [`EventSubscription::stream()`] to access the event stream.
#[derive(Debug, Clone, Copy, PartialEq, Eq, Structural)]
pub struct StartProof {
    /// Private field prevents construction outside this crate
    token: ScannerToken,
}

impl StartProof {
    /// Whether the proof was given out by a scanner that was started.
    pub closed spec fn shows_start(self) -> bool {
        self.token.shows_start()
    }

    /// Creates a new start proof.
    #[must_use]
    pub(crate) fn new() -> (start: Self)
        ensures
            start.shows_start(),
    {
        StartProof { token: ScannerToken::new() }
    }
}

/// A subscription to scanner events that requires proof the scanner has started; `R` is where
/// events can be read.
#[derive(Debug)]
pub struct EventSubscription<R> {
    inner: R,
}

impl<R> EventSubscription<R> {
    /// Where events can be read.
    pub closed spec fn inner(self) -> R {
        self.inner
    }

    /// Creates a new subscription wrapping the given stream.
    pub(crate) fn new(inner: R) -> (subscription: Self)
        ensures
            subscription.inner() == inner,
    {
        EventSubscription { inner }
    }

    /// Access the event stream.
    ///
    /// Requires a reference to a [`StartProof`] as proof that the scanner has been started.
    #[must_use]
    pub fn stream(self, _proof: &StartProof) -> (stream: R)
        ensures
            stream == self.inner(),
    {
        self.inner
    }
}

} // verus!
