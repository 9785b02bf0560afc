//! Waiting for a node that has not synced its state yet.

use super::fixed_retry::{FixedRetry, FixedRetryConfig, FixedRetryStrategy, RetryAction};
use crate::types::TimeSpan;
use vstd::prelude::*;

verus! {

/// Time to the first retry unless set otherwise.
pub const STATE_SYNC_RETRY_INTERVAL: TimeSpan = 30_000_000_000;

/// Number of retries of a state sync.
pub const STATE_SYNC_MAX_RETRIES: u64 = 12;

/// Longest time to a retry unless set otherwise.
pub const STATE_SYNC_RETRY_MAX_INTERVAL: TimeSpan = 120_000_000_000;

/// Time after which no retry is made unless set otherwise.
pub const STATE_SYNC_RETRY_MAX_ELAPSED: TimeSpan = 600_000_000_000;

/// How long to wait for the state.  The factor by which the time between retries grows is left to
/// the caller, who does the multiplication.
#[derive(Clone, Copy, Debug, PartialEq, Eq, Structural)]
pub struct StateSyncConfig {
    pub initial_interval: TimeSpan,
    pub max_interval: TimeSpan,
    pub max_elapsed: TimeSpan,
}

/// The settings that hold unless set otherwise.
pub open spec fn default_config() -> StateSyncConfig {
    StateSyncConfig {
        initial_interval: STATE_SYNC_RETRY_INTERVAL,
        max_interval: STATE_SYNC_RETRY_MAX_INTERVAL,
        max_elapsed: STATE_SYNC_RETRY_MAX_ELAPSED,
    }
}

impl Default for StateSyncConfig {
    fn default() -> (cfg: Self)
        ensures
            cfg == default_config(),
    {
        StateSyncConfig {
            initial_interval: STATE_SYNC_RETRY_INTERVAL,
            max_interval: STATE_SYNC_RETRY_MAX_INTERVAL,
            max_elapsed: STATE_SYNC_RETRY_MAX_ELAPSED,
        }
    }
}

/// Where the retrying stands.
#[derive(Debug)]
pub enum StateSyncPhase<E> {
    /// The first call is being made.
    First,
    /// The state was missing; the time passed so far is being measured.
    Timing {
        delay: TimeSpan,
        last: E,
    },
    /// The state was missing; the call is being made again after a pause of `delay`.
    Retrying {
        delay: TimeSpan,
    },
    /// The error was another one; calls are made at fixed distances.
    Fixed {
        retry: FixedRetry,
    },
    /// Retrying is over.
    Finished,
}

/// What the retrying hears.
#[derive(Debug)]
pub enum StateSyncEvent<E> {
    /// What came of a call: the outcome, whether the error says that the state is missing, and the
    /// last pause multiplied by the factor of growth.
    Called {
        outcome: Result<(), E>,
        missing_state: bool,
        grown: TimeSpan,
    },
    /// So much time has passed since the state was first found missing.
    Elapsed(TimeSpan),
}

/// What is to be done.
#[derive(Debug)]
pub enum StateSyncAction<E> {
    /// Make the call, after so long a pause.
    CallAfter(TimeSpan),
    /// Measure the time passed since the state was first found missing.
    Measure,
    /// Nothing; this is the outcome.
    Done(Result<(), E>),
}

/// The shorter of two spans.
pub open spec fn shorter(a: TimeSpan, b: TimeSpan) -> TimeSpan {
    if a <= b {
        a
    } else {
        b
    }
}

/// The retrying of a callback.
#[derive(Debug)]
pub struct StateSyncRetry<E> {
    pub cfg: StateSyncConfig,
    pub fixed: FixedRetryConfig,
    pub phase: StateSyncPhase<E>,
}

impl<E> StateSyncRetry<E> {
    /// Calls at fixed distances stay within their number.
    pub open spec fn wf(self) -> bool {
        self.phase matches StateSyncPhase::Fixed { retry } ==> retry.calls < retry.cfg.attempts()
    }

    /// The state in another phase.
    pub open spec fn at(self, phase: StateSyncPhase<E>) -> Self {
        StateSyncRetry { phase, ..self }
    }

    /// The state after an event, and what is to be done.  An event that is not waited for changes
    /// nothing, and is answered by what is to be done all the same.
    pub open spec fn stepped(self, event: StateSyncEvent<E>) -> (Self, StateSyncAction<E>) {
        match (self.phase, event) {
            (StateSyncPhase::First, StateSyncEvent::Called { outcome, missing_state, .. }) =>
                match outcome {
                    Ok(done) => (self.at(StateSyncPhase::Finished), StateSyncAction::Done(Ok(done))),
                    Err(e) => if missing_state {
                        (
                            self.at(
                                StateSyncPhase::Timing {
                                    delay: self.cfg.initial_interval,
                                    last: e,
                                },
                            ),
                            StateSyncAction::Measure,
                        )
                    } else {
                        (
                            self.at(
                                StateSyncPhase::Fixed {
                                    retry: FixedRetry { cfg: self.fixed, calls: 0 },
                                },
                            ),
                            StateSyncAction::CallAfter(0),
                        )
                    },
                },
            (StateSyncPhase::Timing { delay, last }, StateSyncEvent::Elapsed(elapsed)) =>
                if elapsed >= self.cfg.max_elapsed {
                    (self.at(StateSyncPhase::Finished), StateSyncAction::Done(Err(last)))
                } else {
                    (
                        self.at(StateSyncPhase::Retrying { delay }),
                        StateSyncAction::CallAfter(delay),
                    )
                },
            (StateSyncPhase::Retrying { .. }, StateSyncEvent::Called { outcome, grown, .. }) =>
                match outcome {
                    Ok(done) => (self.at(StateSyncPhase::Finished), StateSyncAction::Done(Ok(done))),
                    Err(e) => (
                        self.at(
                            StateSyncPhase::Timing {
                                delay: shorter(self.cfg.max_interval, grown),
                                last: e,
                            },
                        ),
                        StateSyncAction::Measure,
                    ),
                },
            (StateSyncPhase::Fixed { retry }, StateSyncEvent::Called { outcome, .. }) =>
                match outcome {
                    Ok(done) => (self.at(StateSyncPhase::Finished), StateSyncAction::Done(Ok(done))),
                    Err(e) => if retry.ends(false) {
                        (self.at(StateSyncPhase::Finished), StateSyncAction::Done(Err(e)))
                    } else {
                        (
                            self.at(StateSyncPhase::Fixed { retry: retry.called() }),
                            StateSyncAction::CallAfter((retry.cfg.delay_ms * 1_000_000) as u128),
                        )
                    },
                },
            _ => (self, self.action()),
        }
    }

    /// What is to be done in the present phase, apart from a pause.
    pub open spec fn action(self) -> StateSyncAction<E> {
        match self.phase {
            StateSyncPhase::Timing { .. } => StateSyncAction::Measure,
            StateSyncPhase::Finished => StateSyncAction::Done(Ok(())),
            _ => StateSyncAction::CallAfter(0),
        }
    }

    /// Takes in an event, and says what is to be done.
    pub fn step(self, event: StateSyncEvent<E>) -> (next: (Self, StateSyncAction<E>))
        requires
            self.wf(),
        ensures
            next.0.wf(),
            next == self.stepped(event),
    {
        let cfg = self.cfg;
        let fixed = self.fixed;
        match (self.phase, event) {
            (StateSyncPhase::First, StateSyncEvent::Called { outcome, missing_state, .. }) =>
                match outcome {
                    Ok(done) => (
                        StateSyncRetry { cfg, fixed, phase: StateSyncPhase::Finished },
                        StateSyncAction::Done(Ok(done)),
                    ),
                    Err(e) => {
                        if missing_state {
                            let phase = StateSyncPhase::Timing {
                                delay: cfg.initial_interval,
                                last: e,
                            };
                            (StateSyncRetry { cfg, fixed, phase }, StateSyncAction::Measure)
                        } else {
                            let retry = FixedRetryStrategy::new(fixed).execute();
                            let phase = StateSyncPhase::Fixed { retry };
                            (StateSyncRetry { cfg, fixed, phase }, StateSyncAction::CallAfter(0))
                        }
                    },
                },
            (StateSyncPhase::Timing { delay, last }, StateSyncEvent::Elapsed(elapsed)) => {
                if elapsed >= cfg.max_elapsed {
                    (
                        StateSyncRetry { cfg, fixed, phase: StateSyncPhase::Finished },
                        StateSyncAction::Done(Err(last)),
                    )
                } else {
                    (
                        StateSyncRetry { cfg, fixed, phase: StateSyncPhase::Retrying { delay } },
                        StateSyncAction::CallAfter(delay),
                    )
                }
            },
            (StateSyncPhase::Retrying { .. }, StateSyncEvent::Called { outcome, grown, .. }) =>
                match outcome {
                    Ok(done) => (
                        StateSyncRetry { cfg, fixed, phase: StateSyncPhase::Finished },
                        StateSyncAction::Done(Ok(done)),
                    ),
                    Err(e) => {
                        let delay: TimeSpan = if cfg.max_interval <= grown {
                            cfg.max_interval
                        } else {
                            grown
                        };
                        let phase = StateSyncPhase::Timing { delay, last: e };
                        (StateSyncRetry { cfg, fixed, phase }, StateSyncAction::Measure)
                    },
                },
            (StateSyncPhase::Fixed { retry }, StateSyncEvent::Called { outcome, .. }) => {
                let mut retry = retry;
                match retry.step(outcome) {
                    RetryAction::Done(outcome) => (
                        StateSyncRetry { cfg, fixed, phase: StateSyncPhase::Finished },
                        StateSyncAction::Done(outcome),
                    ),
                    RetryAction::RetryAfter(delay) => (
                        StateSyncRetry { cfg, fixed, phase: StateSyncPhase::Fixed { retry } },
                        StateSyncAction::CallAfter(delay),
                    ),
                }
            },
            (phase, _) => {
                let action = match &phase {
                    StateSyncPhase::Timing { .. } => StateSyncAction::Measure,
                    StateSyncPhase::Finished => StateSyncAction::Done(Ok(())),
                    _ => StateSyncAction::CallAfter(0),
                };
                (StateSyncRetry { cfg, fixed, phase }, action)
            },
        }
    }
}

/// Waits, longer and longer, for a node whose state is missing; calls again at fixed distances
/// after any other failure.
#[derive(Clone, Copy, Debug, PartialEq, Eq, Structural)]
pub struct StateSyncAwareStrategy {
    pub inner: FixedRetryStrategy,
    pub cfg: StateSyncConfig,
}

impl StateSyncAwareStrategy {
    /// The strategy with the settings that hold unless set otherwise.
    #[must_use]
    pub fn new() -> (strategy: Self)
        ensures
            strategy.inner.cfg == (FixedRetryConfig {
                max_attempts: super::fixed_retry::BACK_OFF_MAX_RETRIES,
                delay_ms: super::fixed_retry::BACK_OFF_MAX_DELAY_MS,
            }),
            strategy.cfg == default_config(),
    {
        StateSyncAwareStrategy {
            inner: FixedRetryStrategy::new(FixedRetryConfig::default()),
            cfg: StateSyncConfig::default(),
        }
    }

    /// Sets how long to wait for the state.
    #[must_use]
    pub fn with_state_sync_config(self, cfg: StateSyncConfig) -> (strategy: Self)
        ensures
            strategy == (StateSyncAwareStrategy { cfg, ..self }),
    {
        StateSyncAwareStrategy { inner: self.inner, cfg }
    }

    /// Sets how to call again after other failures.
    #[must_use]
    pub fn with_fixed_retry_config(self, cfg: FixedRetryConfig) -> (strategy: Self)
        ensures
            strategy.inner.cfg == cfg,
            strategy.cfg == self.cfg,
    {
        StateSyncAwareStrategy { inner: FixedRetryStrategy::new(cfg), cfg: self.cfg }
    }

    /// Begins to call: the first call is to be made right away.
    pub fn execute<E>(&self) -> (retry: StateSyncRetry<E>)
        ensures
            retry.wf(),
            retry == (StateSyncRetry {
                cfg: self.cfg,
                fixed: self.inner.cfg,
                phase: StateSyncPhase::<E>::First,
            }),
    {
        StateSyncRetry { cfg: self.cfg, fixed: self.inner.cfg, phase: StateSyncPhase::First }
    }
}

/// The pauses between calls while the state is missing are never longer than the limit, once the
/// first is over; and no call is made when the time is up.
pub proof fn state_sync_waits_are_bounded<E>(
    retry: StateSyncRetry<E>,
    event: StateSyncEvent<E>,
)
    requires
        retry.phase is Retrying || retry.phase is Timing,
    ensures
        retry.phase is Retrying ==> (retry.stepped(event).0.phase matches StateSyncPhase::Timing {
            delay,
            ..
        } ==> delay <= retry.cfg.max_interval),
        retry.phase is Timing && (event matches StateSyncEvent::Elapsed(elapsed) && elapsed
            >= retry.cfg.max_elapsed) ==> retry.stepped(event).1 == StateSyncAction::Done(
            Err::<(), E>(retry.phase->last),
        ),
{
}

/// Whether `pattern` stands somewhere in `text`.
pub open spec fn occurs(pattern: Seq<char>, text: Seq<char>) -> bool {
    exists|i: int|
        0 <= i <= text.len() - pattern.len() && #[trigger] text.subrange(i, i + pattern.len())
            == pattern
}

/// The text in lower case.
pub uninterp spec fn lower_case(text: Seq<char>) -> Seq<char>;

/// Calls [`str::to_lowercase`]: gives the text in lower case, which depends on the text alone.
#[verifier::external_body]
fn to_lower_case(text: &str) -> (lower: String)
    ensures
        lower@ == lower_case(text@),
{
    text.to_lowercase()
}

/// The characters of a text.
fn characters(text: &str) -> (characters: Vec<char>)
    ensures
        characters@ == text@,
{
    let mut characters: Vec<char> = Vec::new();
    for c in iter: text.chars()
        invariant
            iter.seq() == text@,
            characters@ == text@.take(iter.index() as int),
    {
        characters.push(c);
        assert(characters@ =~= text@.take(iter.index() + 1));
    }
    assert(text@.take(text@.len() as int) =~= text@);
    characters
}

/// Whether the pattern stands in the text at the given place.
fn occurs_at(pattern: &Vec<char>, text: &Vec<char>, place: usize) -> (found: bool)
    requires
        place + pattern.len() <= text.len(),
    ensures
        found == (text@.subrange(place as int, place + pattern@.len()) == pattern@),
{
    let ghost part = text@.subrange(place as int, place + pattern@.len());
    let mut i: usize = 0;
    while i < pattern.len()
        invariant
            i <= pattern.len(),
            place + pattern.len() <= text.len(),
            part == text@.subrange(place as int, place + pattern@.len()),
            forall|j: int| 0 <= j < i ==> pattern@[j] == #[trigger] part[j],
        decreases pattern.len() - i,
    {
        if pattern[i] != text[place + i] {
            assert(part[i as int] != pattern@[i as int]);
            return false;
        }
        i = i + 1;
    }
    assert(part =~= pattern@);
    true
}

/// Whether the pattern is a part of the text.
fn contains(text: &str, pattern: &str) -> (found: bool)
    ensures
        found == occurs(pattern@, text@),
{
    let whole: Vec<char> = characters(text);
    let part: Vec<char> = characters(pattern);
    if part.len() > whole.len() {
        return false;
    }
    let places: usize = whole.len() - part.len();
    let mut place: usize = 0;
    while place < places
        invariant
            whole@ == text@,
            part@ == pattern@,
            places + part.len() == whole.len(),
            place <= places,
            forall|i: int|
                0 <= i < place ==> #[trigger] text@.subrange(i, i + pattern@.len()) != pattern@,
        decreases places - place,
    {
        if occurs_at(&part, &whole, place) {
            return true;
        }
        place = place + 1;
    }
    occurs_at(&part, &whole, place)
}

/// Whether an error in lower case says that a node lacks the state of a block.
pub open spec fn tells_missing_state(lower: Seq<char>) -> bool {
    &&& occurs("missing trie node"@, lower)
    &&& occurs("state"@, lower)
    &&& occurs("not available"@, lower)
}

/// Whether an error in lower case says that a node lacks the state of a block.
pub fn is_missing_state_text(lower: &str) -> (missing: bool)
    ensures
        missing == tells_missing_state(lower@),
{
    contains(lower, "missing trie node") && contains(lower, "state") && contains(
        lower,
        "not available",
    )
}

/// Whether an error, in words, says that a node lacks the state of a block.
pub fn is_missing_trie_node_error(error: &str) -> (missing: bool)
    ensures
        missing == tells_missing_state(lower_case(error@)),
{
    let lower = to_lower_case(error);
    is_missing_state_text(lower.as_str())
}

/// A first call that succeeds is the only one.  If it fails since the state is missing, the time is
/// measured and the first pause is the one set; after any other failure the calls at fixed distances
/// begin at once, as if none had been made.
pub proof fn first_failure_decides_how_to_retry<E>(
    retry: StateSyncRetry<E>,
    error: E,
    missing_state: bool,
    grown: TimeSpan,
)
    requires
        retry.phase is First,
    ensures
        ({
            let failed = StateSyncEvent::Called { outcome: Err(error), missing_state, grown };
            let (next, action) = retry.stepped(failed);
            &&& missing_state ==> {
                &&& action is Measure
                &&& next.phase == (StateSyncPhase::Timing {
                    delay: retry.cfg.initial_interval,
                    last: error,
                })
            }
            &&& !missing_state ==> {
                &&& action == StateSyncAction::<E>::CallAfter(0)
                &&& next.phase matches StateSyncPhase::Fixed { retry: fixed }
                &&& fixed.cfg == retry.fixed
                &&& fixed.calls == 0
            }
            &&& next.cfg == retry.cfg
            &&& next.fixed == retry.fixed
        }),
{
}

/// While the state is missing, the call is made again after the pause, unless the time is up; then
/// the last error is the outcome.
pub proof fn call_is_made_again_until_the_time_is_up<E>(
    retry: StateSyncRetry<E>,
    delay: TimeSpan,
    last: E,
    elapsed: TimeSpan,
)
    requires
        retry.phase == (StateSyncPhase::Timing { delay, last }),
    ensures
        ({
            let (next, action) = retry.stepped(StateSyncEvent::Elapsed(elapsed));
            &&& elapsed >= retry.cfg.max_elapsed ==> action == StateSyncAction::Done(
                Err::<(), E>(last),
            ) && next.phase is Finished
            &&& elapsed < retry.cfg.max_elapsed ==> action == StateSyncAction::<E>::CallAfter(delay)
                && next.phase is Retrying
            &&& next.cfg == retry.cfg
            &&& next.fixed == retry.fixed
        }),
{
}

/// After a call that fails again, the pause is the grown one, but never longer than the limit; the
/// time is measured anew, and the error is the last one now.
pub proof fn pause_grows_up_to_the_limit<E>(
    retry: StateSyncRetry<E>,
    error: E,
    missing_state: bool,
    grown: TimeSpan,
)
    requires
        retry.phase is Retrying,
    ensures
        ({
            let failed = StateSyncEvent::Called { outcome: Err(error), missing_state, grown };
            let (next, action) = retry.stepped(failed);
            &&& action is Measure
            &&& next.phase matches StateSyncPhase::Timing { delay, last }
            &&& last == error
            &&& grown <= retry.cfg.max_interval ==> delay == grown
            &&& grown > retry.cfg.max_interval ==> delay == retry.cfg.max_interval
            &&& next.cfg == retry.cfg
            &&& next.fixed == retry.fixed
        }),
{
}

/// At fixed distances a call that fails is followed by another after the time set, until there were
/// as many as are allowed; then the error is the outcome.
pub proof fn other_failures_are_retried_at_fixed_distances<E>(
    retry: StateSyncRetry<E>,
    fixed: FixedRetry,
    error: E,
    missing_state: bool,
    grown: TimeSpan,
)
    requires
        retry.phase == (StateSyncPhase::<E>::Fixed { retry: fixed }),
        fixed.calls < u64::MAX,
    ensures
        ({
            let failed = StateSyncEvent::Called { outcome: Err(error), missing_state, grown };
            let (next, action) = retry.stepped(failed);
            &&& fixed.calls + 1 >= fixed.cfg.max_attempts ==> action == StateSyncAction::Done(
                Err::<(), E>(error),
            ) && next.phase is Finished
            &&& fixed.calls + 1 < fixed.cfg.max_attempts ==> {
                &&& action matches StateSyncAction::CallAfter(delay)
                &&& delay == fixed.cfg.delay_ms * 1_000_000
                &&& next.phase matches StateSyncPhase::Fixed { retry: more }
                &&& more.calls == fixed.calls + 1
                &&& more.cfg == fixed.cfg
            }
        }),
{
}

/// A call that succeeds is the last one, whatever came before.
pub proof fn success_ends_the_retrying<E>(
    retry: StateSyncRetry<E>,
    missing_state: bool,
    grown: TimeSpan,
)
    requires
        retry.phase is First || retry.phase is Retrying || retry.phase is Fixed,
    ensures
        ({
            let succeeded = StateSyncEvent::Called { outcome: Ok(()), missing_state, grown };
            let (next, action) = retry.stepped(succeeded);
            &&& action == StateSyncAction::Done(Ok::<(), E>(()))
            &&& next.phase is Finished
        }),
{
}

/// A pattern is found wherever it stands in a text, and found only if there is such a place.
pub proof fn pattern_is_found_where_it_stands(
    before: Seq<char>,
    pattern: Seq<char>,
    after: Seq<char>,
    text: Seq<char>,
)
    ensures
        occurs(pattern, before + pattern + after),
        occurs(pattern, text) ==> exists|first: Seq<char>, last: Seq<char>|
            text == #[trigger] (first + pattern + last),
{
    let whole = before + pattern + after;
    let place = before.len() as int;
    assert(whole.subrange(place, place + pattern.len()) =~= pattern);
    if occurs(pattern, text) {
        let i = choose|i: int|
            0 <= i <= text.len() - pattern.len() && #[trigger] text.subrange(i, i + pattern.len())
                == pattern;
        let first = text.take(i);
        let last = text.skip(i + pattern.len());
        assert(text =~= first + text.subrange(i, i + pattern.len()) + last);
        assert(text == first + pattern + last);
    }
}

/// An error tells of missing state exactly if all three of its signs stand in it.
pub proof fn missing_state_has_three_signs(lower: Seq<char>)
    ensures
        tells_missing_state(lower) <==> occurs("missing trie node"@, lower) && occurs(
            "state"@,
            lower,
        ) && occurs("not available"@, lower),
{
}

/// Unless set otherwise, the first pause is half a minute, none is longer than two minutes, and the
/// time is up after ten minutes.
pub proof fn default_waits()
    ensures
        default_config().initial_interval == 30_000_000_000,
        default_config().max_interval == 4 * default_config().initial_interval,
        default_config().max_elapsed == 5 * default_config().max_interval,
{
}

} // verus!
