//! The resilient request executor's decisions.
//!
//! Sending a request and sleeping happen outside; after each attempt the
//! caller reports what happened to a [`BackoffState`] and is told whether to
//! hand the response back, to sleep and try again, or to give up. Only
//! transport failures are retried: any HTTP response, whatever its status, is
//! handed back at once.

use vstd::prelude::*;

use crate::error::{Error, ErrorType};
use crate::text::prefixed;

verus! {

/// Attempts made at most for one request.
pub const MAX_ATTEMPTS: u32 = 5;

/// Delay before the first retry, in milliseconds.
pub const BASE_DELAY_MS: u64 = 100;

/// Largest delay between two attempts, in milliseconds.
pub const MAX_DELAY_MS: u64 = 500;

/// The delay after the `attempt`-th failed attempt (counting from one): the
/// base delay, doubled after each further failure, capped at the ceiling.
pub open spec fn delay_after(attempt: nat) -> nat
    decreases attempt,
{
    if attempt <= 1 {
        BASE_DELAY_MS as nat
    } else {
        let d = 2 * delay_after((attempt - 1) as nat);
        if d > MAX_DELAY_MS { MAX_DELAY_MS as nat } else { d }
    }
}

/// Delays never shrink from one attempt to the next and never pass the
/// ceiling.
pub proof fn lemma_delays_monotone_and_capped(a: nat, b: nat)
    requires
        1 <= a <= b,
    ensures
        delay_after(a) <= delay_after(b),
        delay_after(b) <= MAX_DELAY_MS,
        delay_after(a) >= BASE_DELAY_MS,
    decreases b,
{
    if b > a {
        lemma_delays_monotone_and_capped(a, (b - 1) as nat);
    } else if a > 1 {
        lemma_delays_monotone_and_capped((a - 1) as nat, (a - 1) as nat);
    }
}

/// The delay after the `attempt`-th failed attempt, computed on its own.
pub fn backoff_delay(attempt: u32) -> (r: u64)
    ensures
        r == delay_after(attempt as nat),
{
    let mut d: u64 = BASE_DELAY_MS;
    let mut k: u32 = 1;
    while k < attempt
        invariant
            1 <= k,
            attempt == 0 ==> k == 1,
            attempt > 0 ==> k <= attempt,
            d == delay_after(k as nat),
            d <= MAX_DELAY_MS,
        decreases attempt - k,
    {
        d = if 2 * d > MAX_DELAY_MS { MAX_DELAY_MS } else { 2 * d };
        k = k + 1;
    }
    assert(delay_after(0) == delay_after(1));
    d
}

/// What became of one attempt to send a request.
#[derive(Debug, Clone)]
pub enum AttemptOutcome {
    /// The server answered, with this HTTP status.
    Responded(u16),
    /// The request never got an answer: reset, timeout, name resolution.
    TransportFailed(String),
    /// The pending request could not be copied for this attempt.
    NotRepeatable,
}

/// What the caller does next.
#[derive(Debug, Clone)]
pub enum RetryDecision {
    /// Hand the response back to the caller.
    Deliver,
    /// Sleep this many milliseconds, then send again.
    SleepThenRetry(u64),
    /// Stop and fail with this error.
    GiveUp(Error),
}

/// Progress through the attempts of one request.
#[derive(Debug, Clone, Copy, PartialEq, Eq, Structural)]
pub struct BackoffState {
    /// The attempt being made, counting from one.
    pub attempt: u32,
    /// The delay to sleep if this attempt fails, in milliseconds.
    pub delay_ms: u64,
}

impl BackoffState {
    /// Within the attempt budget, with the delay that belongs to the attempt.
    pub open spec fn wf(self) -> bool {
        &&& 1 <= self.attempt <= MAX_ATTEMPTS
        &&& self.delay_ms == delay_after(self.attempt as nat)
    }

    /// The state for the attempt after this one.
    pub open spec fn advanced(self) -> BackoffState {
        BackoffState { attempt: (self.attempt + 1) as u32, delay_ms: delay_after((self.attempt + 1) as nat) as u64 }
    }

    /// The state before the first attempt.
    pub fn new() -> (r: BackoffState)
        ensures
            r.wf(),
            r.attempt == 1,
    {
        BackoffState { attempt: 1, delay_ms: BASE_DELAY_MS }
    }

    /// Records the outcome of the current attempt and says what to do next.
    ///
    /// A response of any status is delivered. A transport failure before the
    /// last attempt means sleeping the current delay and moving on to the next
    /// attempt, whose delay is doubled up to the ceiling; on the last attempt
    /// it means giving up with a `TimeoutError` that carries the cause. A
    /// request that cannot be repeated is an `InternalError`.
    pub fn on_outcome(&mut self, outcome: AttemptOutcome) -> (r: RetryDecision)
        requires
            old(self).wf(),
        ensures
            match outcome {
                AttemptOutcome::Responded(_) => r is Deliver && *final(self) == *old(self),
                AttemptOutcome::TransportFailed(cause) => if old(self).attempt < MAX_ATTEMPTS {
                    &&& r == RetryDecision::SleepThenRetry(old(self).delay_ms)
                    &&& *final(self) == old(self).advanced()
                    &&& final(self).wf()
                } else {
                    &&& r is GiveUp
                    &&& r->GiveUp_0.error_type == ErrorType::TimeoutError
                    &&& r->GiveUp_0.message@ == "request failed after retries: "@ + cause@
                    &&& *final(self) == *old(self)
                },
                AttemptOutcome::NotRepeatable => {
                    &&& r is GiveUp
                    &&& r->GiveUp_0.error_type == ErrorType::InternalError
                    &&& *final(self) == *old(self)
                },
            },
    {
        match outcome {
            AttemptOutcome::Responded(_) => RetryDecision::Deliver,
            AttemptOutcome::TransportFailed(cause) => {
                if self.attempt < MAX_ATTEMPTS {
                    let d = self.delay_ms;
                    self.attempt = self.attempt + 1;
                    self.delay_ms = if 2 * d > MAX_DELAY_MS { MAX_DELAY_MS } else { 2 * d };
                    RetryDecision::SleepThenRetry(d)
                } else {
                    RetryDecision::GiveUp(
                        Error {
                            error_type: ErrorType::TimeoutError,
                            message: prefixed("request failed after retries: ", cause.as_str()),
                        },
                    )
                }
            },
            AttemptOutcome::NotRepeatable => RetryDecision::GiveUp(
                Error::new(ErrorType::InternalError, "request cannot be cloned for retry"),
            ),
        }
    }
}

/// The delays slept through, in order, when the attempts made from state
/// `st` end as `outcomes` say, up to the first decision that is not a retry.
pub open spec fn slept_delays(st: BackoffState, outcomes: Seq<AttemptOutcome>) -> Seq<u64>
    decreases outcomes.len(),
{
    if outcomes.len() == 0 {
        Seq::empty()
    } else {
        match outcomes[0] {
            AttemptOutcome::TransportFailed(_) => if st.attempt < MAX_ATTEMPTS {
                seq![st.delay_ms] + slept_delays(st.advanced(), outcomes.drop_first())
            } else {
                Seq::empty()
            },
            _ => Seq::empty(),
        }
    }
}

/// Whether the attempts made from state `st`, ending as `outcomes` say,
/// hand a response back to the caller.
pub open spec fn run_delivers(st: BackoffState, outcomes: Seq<AttemptOutcome>) -> bool
    decreases outcomes.len(),
{
    if outcomes.len() == 0 {
        false
    } else {
        match outcomes[0] {
            AttemptOutcome::Responded(_) => true,
            AttemptOutcome::TransportFailed(_) => st.attempt < MAX_ATTEMPTS && run_delivers(
                st.advanced(),
                outcomes.drop_first(),
            ),
            AttemptOutcome::NotRepeatable => false,
        }
    }
}

proof fn lemma_failures_then_response_from(st: BackoffState, outcomes: Seq<AttemptOutcome>, k: nat)
    requires
        st.wf(),
        outcomes.len() == k + 1,
        forall|i: int| 0 <= i < k ==> #[trigger] outcomes[i] is TransportFailed,
        outcomes[k as int] is Responded,
        st.attempt + k <= MAX_ATTEMPTS,
    ensures
        run_delivers(st, outcomes),
        slept_delays(st, outcomes).len() == k,
        forall|i: int|
            0 <= i < k ==> #[trigger] slept_delays(st, outcomes)[i] == delay_after((st.attempt + i) as nat),
    decreases k,
{
    if k > 0 {
        assert(outcomes[0] is TransportFailed);
        let rest = outcomes.drop_first();
        assert forall|i: int| 0 <= i < k - 1 implies #[trigger] rest[i] is TransportFailed by {
            assert(rest[i] == outcomes[i + 1]);
        }
        assert(rest[k - 1] == outcomes[k as int]);
        lemma_failures_then_response_from(st.advanced(), rest, (k - 1) as nat);
        let tail = slept_delays(st.advanced(), rest);
        assert(slept_delays(st, outcomes) == seq![st.delay_ms] + tail);
        assert forall|i: int| 0 <= i < k implies #[trigger] slept_delays(st, outcomes)[i] == delay_after(
            (st.attempt + i) as nat,
        ) by {
            if i > 0 {
                assert(slept_delays(st, outcomes)[i] == tail[i - 1]);
            }
        }
    } else {
        assert(outcomes[0] is Responded);
    }
}

/// A request whose first `k` attempts fail in transport and whose next
/// attempt gets any response is answered with that response, after exactly
/// `k` sleeps whose delays never shrink and never pass the ceiling.
pub proof fn lemma_failures_then_response(outcomes: Seq<AttemptOutcome>, k: nat)
    requires
        k < MAX_ATTEMPTS,
        outcomes.len() == k + 1,
        forall|i: int| 0 <= i < k ==> #[trigger] outcomes[i] is TransportFailed,
        outcomes[k as int] is Responded,
    ensures
        run_delivers(BackoffState { attempt: 1, delay_ms: BASE_DELAY_MS }, outcomes),
        slept_delays(BackoffState { attempt: 1, delay_ms: BASE_DELAY_MS }, outcomes).len() == k,
        forall|i: int, j: int|
            0 <= i <= j < k ==> #[trigger] slept_delays(BackoffState { attempt: 1, delay_ms: BASE_DELAY_MS }, outcomes)[i]
                <= #[trigger] slept_delays(BackoffState { attempt: 1, delay_ms: BASE_DELAY_MS }, outcomes)[j]
                <= MAX_DELAY_MS,
{
    let st = BackoffState { attempt: 1, delay_ms: BASE_DELAY_MS };
    assert(delay_after(1) == BASE_DELAY_MS);
    lemma_failures_then_response_from(st, outcomes, k);
    let d = slept_delays(st, outcomes);
    assert forall|i: int, j: int| 0 <= i <= j < k implies #[trigger] d[i] <= #[trigger] d[j] <= MAX_DELAY_MS by {
        lemma_delays_monotone_and_capped((1 + i) as nat, (1 + j) as nat);
    }
}

/// A response on the first attempt, whatever its HTTP status, is handed back
/// without any sleep.
pub proof fn lemma_response_is_never_retried(outcomes: Seq<AttemptOutcome>)
    requires
        outcomes.len() > 0,
        outcomes[0] is Responded,
    ensures
        run_delivers(BackoffState { attempt: 1, delay_ms: BASE_DELAY_MS }, outcomes),
        slept_delays(BackoffState { attempt: 1, delay_ms: BASE_DELAY_MS }, outcomes).len() == 0,
{
}

} // verus!
