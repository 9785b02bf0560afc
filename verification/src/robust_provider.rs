//! A node with substitutes.
//!
//! An operation is tried on the primary node and then, as long as it fails, on one substitute
//! after the other.

use crate::error::ScannerError;
#[allow(unused_imports)]
use crate::text;
use crate::text::push_block_id;
use crate::types::{BlockId, TimeSpan};
use vstd::prelude::*;
use vstd::string::*;

verus! {

/// Default timeout used by `RobustProvider`
pub const DEFAULT_MAX_TIMEOUT: TimeSpan = 60_000_000_000;

/// Default maximum number of retry attempts.
pub const DEFAULT_MAX_ATTEMPTS: usize = 3;

/// Default base delay between retries.
pub const DEFAULT_MIN_DELAY: TimeSpan = 1_000_000_000;

/// Why an operation failed.
#[derive(Debug)]
pub enum Error {
    /// No answer came in time.
    Timeout,
    /// All attempts failed; the text describes the last failure.
    RpcError(String),
    /// There is no such block.
    BlockNotFound(BlockId),
}

impl Error {
    /// The error in words.
    pub open spec fn text(self) -> Seq<char> {
        match self {
            Error::Timeout => "Operation timed out"@,
            Error::RpcError(cause) => "RPC call failed after exhausting all retry attempts: "@
                + cause@,
            Error::BlockNotFound(id) => "Block not found, Block Id: "@ + text::block_id_text(id),
        }
    }

    /// The error in words.
    pub fn to_text(&self) -> (words: String)
        ensures
            words@ == self.text(),
    {
        match self {
            Error::Timeout => "Operation timed out".to_string(),
            Error::RpcError(cause) => {
                let mut words = "RPC call failed after exhausting all retry attempts: ".to_string();
                words.append(cause.as_str());
                words
            },
            Error::BlockNotFound(id) => {
                let mut words = "Block not found, Block Id: ".to_string();
                push_block_id(&mut words, id);
                words
            },
        }
    }
}

impl From<Error> for ScannerError {
    fn from(error: Error) -> (scanner_error: ScannerError) {
        match error {
            Error::Timeout => ScannerError::Timeout,
            Error::RpcError(cause) => ScannerError::RetryFailure(cause),
            Error::BlockNotFound(id) => ScannerError::BlockNotFound(id),
        }
    }
}

impl vstd::std_specs::convert::FromSpecImpl<Error> for ScannerError {
    open spec fn obeys_from_spec() -> bool {
        true
    }

    open spec fn from_spec(error: Error) -> ScannerError {
        match error {
            Error::Timeout => ScannerError::Timeout,
            Error::RpcError(cause) => ScannerError::RetryFailure(cause),
            Error::BlockNotFound(id) => ScannerError::BlockNotFound(id),
        }
    }
}

/// An error keeps its wording when it becomes an error of a scan.
pub proof fn scanner_error_keeps_the_words(error: Error)
    ensures
        <ScannerError as vstd::std_specs::convert::FromSpec<Error>>::from_spec(error).text()
            == error.text(),
{
}

/// Provider wrapper with built-in retry and timeout mechanisms; `P` is a node.
///
/// The first provider in the vector is treated as the primary provider.
#[derive(Debug)]
pub struct RobustProvider<P> {
    providers: Vec<P>,
    max_timeout: TimeSpan,
    max_retries: usize,
    min_delay: TimeSpan,
}

/// The settings of a provider, as a value.
#[verifier::ext_equal]
pub ghost struct ProviderView<P> {
    pub providers: Seq<P>,
    pub max_timeout: TimeSpan,
    pub max_retries: usize,
    pub min_delay: TimeSpan,
}

impl<P> View for RobustProvider<P> {
    type V = ProviderView<P>;

    closed spec fn view(&self) -> ProviderView<P> {
        ProviderView {
            providers: self.providers@,
            max_timeout: self.max_timeout,
            max_retries: self.max_retries,
            min_delay: self.min_delay,
        }
    }
}

impl<P> RobustProvider<P> {
    /// There is a primary provider.
    pub open spec fn wf(&self) -> bool {
        self@.providers.len() >= 1
    }

    /// Create a new `RobustProvider` with default settings.
    ///
    /// The provided provider is treated as the primary provider.
    #[must_use]
    pub fn new(provider: P) -> (robust: Self)
        ensures
            robust.wf(),
            robust@ == (ProviderView {
                providers: seq![provider],
                max_timeout: DEFAULT_MAX_TIMEOUT,
                max_retries: DEFAULT_MAX_ATTEMPTS,
                min_delay: DEFAULT_MIN_DELAY,
            }),
    {
        let mut providers: Vec<P> = Vec::new();
        providers.push(provider);
        assert(providers@ =~= seq![provider]);
        RobustProvider {
            providers,
            max_timeout: DEFAULT_MAX_TIMEOUT,
            max_retries: DEFAULT_MAX_ATTEMPTS,
            min_delay: DEFAULT_MIN_DELAY,
        }
    }

    /// Create a new `RobustProvider` with no retry attempts and only timeout set.
    ///
    /// The provided provider is treated as the primary provider.
    #[must_use]
    pub fn no_retry(provider: P) -> (robust: Self)
        ensures
            robust.wf(),
            robust@ == (ProviderView {
                providers: seq![provider],
                max_timeout: DEFAULT_MAX_TIMEOUT,
                max_retries: 0,
                min_delay: 0,
            }),
    {
        let mut providers: Vec<P> = Vec::new();
        providers.push(provider);
        assert(providers@ =~= seq![provider]);
        RobustProvider {
            providers,
            max_timeout: DEFAULT_MAX_TIMEOUT,
            max_retries: 0,
            min_delay: 0,
        }
    }

    /// Set the maximum timeout for RPC operations.
    #[must_use]
    pub fn max_timeout(self, timeout: TimeSpan) -> (robust: Self)
        ensures
            robust@ == (ProviderView { max_timeout: timeout, ..self@ }),
    {
        RobustProvider { max_timeout: timeout, ..self }
    }

    /// Set the maximum number of retry attempts.
    #[must_use]
    pub fn max_retries(self, max_retries: usize) -> (robust: Self)
        ensures
            robust@ == (ProviderView { max_retries, ..self@ }),
    {
        RobustProvider { max_retries, ..self }
    }

    /// Set the base delay for exponential backoff retries.
    #[must_use]
    pub fn min_delay(self, min_delay: TimeSpan) -> (robust: Self)
        ensures
            robust@ == (ProviderView { min_delay, ..self@ }),
    {
        RobustProvider { min_delay, ..self }
    }

    /// Get a reference to the primary provider (the first provider in the list)
    #[must_use]
    pub fn root(&self) -> (provider: &P)
        requires
            self.wf(),
        ensures
            *provider == self@.providers[0],
    {
        &self.providers[0]
    }

    /// Get a reference to a provider: the primary one is the first.
    pub fn provider(&self, index: usize) -> (provider: Option<&P>)
        ensures
            provider is Some <==> index < self@.providers.len(),
            provider matches Some(provider) ==> *provider == self@.providers[index as int],
    {
        if index < self.providers.len() {
            Some(&self.providers[index])
        } else {
            None
        }
    }

    /// How long an operation may take on one provider, how often it is tried again there after it has
    /// failed, and how long the first pause is.
    pub fn limits(&self) -> (limits: (TimeSpan, usize, TimeSpan))
        ensures
            limits == (self@.max_timeout, self@.max_retries, self@.min_delay),
    {
        (self.max_timeout, self.max_retries, self.min_delay)
    }

    /// Add a fallback provider to the list.
    ///
    /// Fallback providers are used when the primary provider times out or fails.
    #[must_use]
    pub fn fallback(self, provider: P) -> (robust: Self)
        ensures
            robust.wf(),
            robust@ == (ProviderView { providers: self@.providers.push(provider), ..self@ }),
    {
        let mut robust = self;
        robust.providers.push(provider);
        robust
    }

    /// Add fallback providers to the list, in order.
    #[must_use]
    pub fn fallbacks(self, providers: Vec<P>) -> (robust: Self)
        ensures
            self.wf() ==> robust.wf(),
            robust@ == (ProviderView { providers: self@.providers + providers@, ..self@ }),
    {
        let mut robust = self;
        let mut providers = providers;
        robust.providers.append(&mut providers);
        robust
    }

    /// Begins an operation; see [`FallbackRun`].  `pubsub` says of each provider whether it can
    /// push.
    ///
    /// If only providers that can push are of use, the others are skipped, the primary one
    /// included.  If there is none that can, no provider is tried.
    pub fn retry_with_total_timeout(&self, require_pubsub: bool, pubsub: Vec<bool>) -> (run: Result<
        FallbackRun,
        Error,
    >)
        requires
            self.wf(),
            pubsub@.len() == self@.providers.len(),
        ensures
            run is Ok <==> is_possible(require_pubsub, pubsub@),
            run matches Ok(run) ==> {
                &&& run.wf()
                &&& run@.pubsub == pubsub@
                &&& run@.require_pubsub == require_pubsub
                &&& run@.is_begun()
            },
            run matches Err(e) ==> {
                &&& e matches Error::RpcError(cause)
                &&& cause@ == "subscriptions are not available on this provider"@
            },
    {
        let mut i: usize = 0;
        while i < pubsub.len()
            invariant
                i <= pubsub.len(),
                forall|j: int| 0 <= j < i ==> require_pubsub && !#[trigger] pubsub@[j],
            decreases pubsub.len() - i,
        {
            if !require_pubsub || pubsub[i] {
                let ghost flags = pubsub@;
                let run = FallbackRun { pubsub, require_pubsub, current: i };
                assert forall|j: int| 0 <= j < run@.current implies !run@.usable(j) by {
                    assert(!flags[j]);
                }
                return Ok(run);
            }
            i = i + 1;
        }
        assert(pubsub@.len() > 0 ==> !pubsub@[0]);
        Err(
            Error::RpcError("subscriptions are not available on this provider".to_string()),
        )
    }
}

/// What is to be done next in an operation that gives a `T`.
#[derive(Debug)]
pub enum FallbackAction<T> {
    /// Try the operation on the provider of this index.
    Try(usize),
    /// Nothing; this is the outcome.
    Done(Result<T, Error>),
}

/// Whether there is a provider that can do what is asked: one that can push, if that is what it
/// takes.
pub open spec fn is_possible(require_pubsub: bool, pubsub: Seq<bool>) -> bool {
    require_pubsub ==> exists|i: int| 0 <= i < pubsub.len() && #[trigger] pubsub[i]
}

/// An operation that is tried on one provider after the other, as a value.
pub ghost struct FallbackState {
    /// Which providers can push.
    pub pubsub: Seq<bool>,
    /// Whether only providers that can push are of use.
    pub require_pubsub: bool,
    /// The provider that is being tried.
    pub current: usize,
}

impl FallbackState {
    /// Whether the provider is of use.
    pub open spec fn usable(self, index: int) -> bool {
        !self.require_pubsub || self.pubsub[index]
    }

    /// Whether the first provider of use is being tried.
    pub open spec fn is_begun(self) -> bool {
        forall|i: int| 0 <= i < self.current ==> !self.usable(i)
    }

    /// Whether `index` is the next substitute to try.
    pub open spec fn is_next(self, index: int) -> bool {
        &&& self.current < index < self.pubsub.len()
        &&& self.usable(index)
        &&& forall|i: int| self.current < i < index ==> !self.usable(i)
    }

    /// Whether there is no substitute left.
    pub open spec fn exhausted(self) -> bool {
        forall|i: int| self.current < i < self.pubsub.len() ==> !self.usable(i)
    }
}

/// An operation that is tried on one provider after the other.
#[derive(Debug)]
pub struct FallbackRun {
    pubsub: Vec<bool>,
    require_pubsub: bool,
    current: usize,
}

impl View for FallbackRun {
    type V = FallbackState;

    closed spec fn view(&self) -> FallbackState {
        FallbackState {
            pubsub: self.pubsub@,
            require_pubsub: self.require_pubsub,
            current: self.current,
        }
    }
}

impl FallbackRun {
    /// A provider is being tried that is of use.
    pub open spec fn wf(&self) -> bool {
        &&& self@.current < self@.pubsub.len()
        &&& self@.usable(self@.current as int)
    }

    /// The provider to try: the current one.
    pub fn current(&self) -> (index: usize)
        ensures
            index == self@.current,
    {
        self.current
    }

    /// Takes in what came of the operation on the current provider.  A success is the outcome;
    /// after a failure the next substitute is tried.  If there is none, the outcome is the last
    /// failure.
    pub fn step<T>(&mut self, outcome: Result<T, Error>) -> (action: FallbackAction<T>)
        requires
            old(self).wf(),
        ensures
            final(self).wf(),
            final(self)@.pubsub == old(self)@.pubsub,
            final(self)@.require_pubsub == old(self)@.require_pubsub,
            outcome is Ok || old(self)@.exhausted() <==> action is Done,
            action matches FallbackAction::Done(result) ==> {
                &&& final(self)@.current == old(self)@.current
                &&& result == outcome
            },
            action matches FallbackAction::Try(index) ==> {
                &&& old(self)@.is_next(index as int)
                &&& final(self)@.current == index
            },
    {
        match outcome {
            Ok(value) => FallbackAction::Done(Ok(value)),
            Err(e) => {
                let count: usize = self.pubsub.len();
                let mut i: usize = self.current + 1;
                while i < count
                    invariant
                        *self == *old(self),
                        self.wf(),
                        count == self.pubsub@.len(),
                        outcome is Err,
                        self.current < i <= self.pubsub@.len(),
                        forall|j: int| self@.current < j < i ==> !self@.usable(j),
                    decreases count - i,
                {
                    if !self.require_pubsub || self.pubsub[i] {
                        assert(old(self)@.usable(i as int));
                        self.current = i;
                        return FallbackAction::Try(i);
                    }
                    i = i + 1;
                }
                FallbackAction::Done(Err(e))
            },
        }
    }
}

/// The block, or that there is none.
pub fn require_block<B>(found: Result<Option<B>, Error>, id: BlockId) -> (block: Result<B, Error>)
    ensures
        block == match found {
            Ok(Some(block)) => Ok::<B, Error>(block),
            Ok(None) => Err(Error::BlockNotFound(id)),
            Err(e) => Err(e),
        },
{
    match found {
        Ok(Some(block)) => Ok(block),
        Ok(None) => Err(Error::BlockNotFound(id)),
        Err(e) => Err(e),
    }
}

/// The providers that are tried if all fail, `current` being the first.
pub open spec fn tried(state: FallbackState) -> Seq<usize>
    decreases state.pubsub.len() - state.current,
    when state.current < state.pubsub.len() <= usize::MAX
{
    if state.exhausted() {
        seq![state.current]
    } else {
        let next = choose|index: int| state.is_next(index);
        if state.current < next < state.pubsub.len() {
            seq![state.current] + tried(FallbackState { current: next as usize, ..state })
        } else {
            seq![state.current]
        }
    }
}

proof fn lemma_next_exists(state: FallbackState, from: int)
    requires
        state.current < from,
        from <= state.pubsub.len(),
        forall|i: int| state.current < i < from ==> !state.usable(i),
        !state.exhausted(),
    ensures
        exists|index: int| state.is_next(index),
    decreases state.pubsub.len() - from,
{
    if from < state.pubsub.len() && state.usable(from) {
        assert(state.is_next(from));
    } else if from < state.pubsub.len() {
        lemma_next_exists(state, from + 1);
    }
}

/// If all fail, the current provider is tried, and of those behind it all that are of use and no
/// others, in order.
proof fn lemma_tried(state: FallbackState)
    requires
        state.current < state.pubsub.len() <= usize::MAX,
    ensures
        tried(state).len() >= 1,
        tried(state)[0] == state.current,
        forall|i: int, j: int|
            0 <= i < j < tried(state).len() ==> (#[trigger] tried(state)[i]) < (
            #[trigger] tried(state)[j]),
        forall|i: int|
            #![trigger tried(state)[i]]
            0 < i < tried(state).len() ==> tried(state)[i] < state.pubsub.len() && state.usable(
                tried(state)[i] as int,
            ),
        forall|index: int|
            state.current < index < state.pubsub.len() && #[trigger] state.usable(index) ==> tried(
                state,
            ).contains(index as usize),
    decreases state.pubsub.len() - state.current,
{
    let all = tried(state);
    if !state.exhausted() {
        lemma_next_exists(state, state.current + 1);
        let next = choose|index: int| state.is_next(index);
        let after = FallbackState { current: next as usize, ..state };
        lemma_tried(after);
        let rest = tried(after);
        assert(all =~= seq![state.current] + rest);
        assert(forall|i: int| 0 < i < all.len() ==> #[trigger] all[i] == rest[i - 1]);
        assert forall|i: int, j: int| 0 <= i < j < all.len() implies (#[trigger] all[i]) < (
        #[trigger] all[j]) by {
            assert(all[j] == rest[j - 1]);
            if i > 0 {
                assert(all[i] == rest[i - 1]);
            } else if j > 1 {
                assert(rest[0] < rest[j - 1]);
            }
        }
        assert forall|index: int|
            state.current < index < state.pubsub.len() && #[trigger] state.usable(
                index,
            ) implies all.contains(index as usize) by {
            if index == next {
                assert(all[1] == rest[0]);
            } else {
                assert(index > next);
                assert(after.usable(index));
                assert(rest.contains(index as usize));
                let k = choose|k: int| 0 <= k < rest.len() && rest[k] == index as usize;
                assert(all[k + 1] == rest[k]);
            }
        }
        assert forall|i: int| 0 < i < all.len() implies (#[trigger] all[i]) < state.pubsub.len()
            && state.usable(all[i] as int) by {
            assert(all[i] == rest[i - 1]);
            if i > 1 {
                assert(after.usable(rest[i - 1] as int));
            }
        }
    }
}

/// If all fail, all providers that are of use are tried, and no others, in order and each once.
pub proof fn providers_are_tried_in_order(state: FallbackState)
    requires
        state.current < state.pubsub.len() <= usize::MAX,
        state.usable(state.current as int),
        state.is_begun(),
    ensures
        forall|i: int, j: int|
            0 <= i < j < tried(state).len() ==> (#[trigger] tried(state)[i]) < (
            #[trigger] tried(state)[j]),
        forall|index: int|
            0 <= index < state.pubsub.len() ==> (#[trigger] state.usable(index) <==> tried(
                state,
            ).contains(index as usize)),
{
    lemma_tried(state);
    assert forall|index: int| 0 <= index < state.pubsub.len() implies (#[trigger] state.usable(
        index,
    ) <==> tried(state).contains(index as usize)) by {
        if tried(state).contains(index as usize) {
            let i = choose|i: int| 0 <= i < tried(state).len() && tried(state)[i] == index as usize;
            if i > 0 {
                assert(state.usable(tried(state)[i] as int));
            }
        } else if state.usable(index) {
            assert(tried(state)[0] == state.current);
        }
    }
}

/// A failure of a node becomes a failed retry with the same cause; a timeout stays one, and a block
/// that was not found is named as before.
pub proof fn scanner_error_keeps_the_cause(cause: String, id: BlockId)
    ensures
        <ScannerError as vstd::std_specs::convert::FromSpec<Error>>::from_spec(Error::Timeout)
            == ScannerError::Timeout,
        <ScannerError as vstd::std_specs::convert::FromSpec<Error>>::from_spec(
            Error::RpcError(cause),
        ) == ScannerError::RetryFailure(cause),
        <ScannerError as vstd::std_specs::convert::FromSpec<Error>>::from_spec(
            Error::BlockNotFound(id),
        ) == ScannerError::BlockNotFound(id),
{
}

/// A provider is of use unless only those that can push are and it cannot.
pub proof fn providers_that_can_push_are_of_use(state: FallbackState, index: int)
    requires
        0 <= index < state.pubsub.len(),
    ensures
        state.require_pubsub ==> (state.usable(index) <==> state.pubsub[index]),
        !state.require_pubsub ==> state.usable(index),
        state.usable(index) ==> is_possible(state.require_pubsub, state.pubsub),
{
}

/// No provider of use is passed over: neither before the one that is tried first, nor between one
/// that fails and the next.  The last failure is final only if no provider of use follows.
pub proof fn no_provider_is_passed_over(state: FallbackState, index: int, next: int)
    requires
        0 <= index < state.pubsub.len(),
        !state.require_pubsub || state.pubsub[index],
    ensures
        state.is_begun() ==> state.current <= index,
        state.is_next(next) && state.current < index ==> next <= index,
        state.exhausted() ==> index <= state.current,
        state.is_next(next) ==> {
            &&& state.current < next < state.pubsub.len()
            &&& state.require_pubsub ==> state.pubsub[next]
        },
{
    assert(state.usable(index));
}

/// An operation is possible exactly if there is a provider of use for it.
pub proof fn operation_is_possible_with_a_provider_of_use(
    require_pubsub: bool,
    pubsub: Seq<bool>,
    index: int,
)
    requires
        0 <= index < pubsub.len(),
    ensures
        !require_pubsub ==> is_possible(require_pubsub, pubsub),
        pubsub[index] ==> is_possible(require_pubsub, pubsub),
        require_pubsub && (forall|i: int| 0 <= i < pubsub.len() ==> !#[trigger] pubsub[i])
            ==> !is_possible(require_pubsub, pubsub),
{
}

/// The cause of a failure ends the words that tell of it, and a block that was not found is named.
pub proof fn words_end_with_the_cause(cause: String, id: BlockId)
    ensures
        Error::RpcError(cause).text() == "RPC call failed after exhausting all retry attempts: "@
            + cause@,
        Error::BlockNotFound(id).text() == "Block not found, Block Id: "@ + text::block_id_text(id),
{
}

} // verus!
