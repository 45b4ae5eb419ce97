//! Retrying calls that failed for a passing reason.
use std::time::{Duration, SystemTime};
use vstd::prelude::*;

use crate::client::errors;
use crate::client::ClientError;
use crate::double::Double;
use crate::status::{self, status_code, Code};
use crate::time::{self, since_epoch_nanos, NANOS_PER_SEC};

verus! {

/// The bit pattern of the number two.
pub const TWO_BITS: u64 = 0x4000_0000_0000_0000;

/// What a retry policy holds.
pub struct RetryPolicyView {
    pub max_attempts: u32,
    pub initial_backoff: Duration,
    pub max_backoff: Duration,
    pub multiplier: Double,
    pub jitter: bool,
}

/// Backoff policy for retrying *transient* call failures (those mapped to
/// [`ClientError::Transport`] / [`Overloaded`](ClientError::Overloaded)).
///
/// Applies to enqueue, ack, nack, extend, and get-server-info, but not to
/// reserve, which is a long poll. The default policy performs **no** retries
/// (`max_attempts == 1`); opt in by building one up. Every value allows at
/// least one attempt.
#[derive(Debug)]
pub struct RetryPolicy {
    max_attempts: u32,
    initial_backoff: Duration,
    max_backoff: Duration,
    multiplier: Double,
    jitter: bool,
}

impl View for RetryPolicy {
    type V = RetryPolicyView;

    closed spec fn view(&self) -> RetryPolicyView {
        RetryPolicyView {
            max_attempts: self.max_attempts,
            initial_backoff: self.initial_backoff,
            max_backoff: self.max_backoff,
            multiplier: self.multiplier,
            jitter: self.jitter,
        }
    }
}

impl Clone for RetryPolicy {
    fn clone(&self) -> (r: Self)
        ensures
            r@ == self@,
    {
        proof {
            use_type_invariant(self);
        }
        RetryPolicy {
            max_attempts: self.max_attempts,
            initial_backoff: self.initial_backoff,
            max_backoff: self.max_backoff,
            multiplier: self.multiplier,
            jitter: self.jitter,
        }
    }
}

impl Default for RetryPolicy {
    /// One attempt; a backoff of 100ms that doubles up to 10s, with jitter.
    fn default() -> (r: Self)
        ensures
            r@.max_attempts == 1,
            time::duration_nanos(r@.initial_backoff) == 100_000_000,
            time::duration_nanos(r@.max_backoff) == 10_000_000_000,
            r@.multiplier.bits == TWO_BITS,
            r@.jitter,
    {
        RetryPolicy {
            max_attempts: 1,
            initial_backoff: Duration::from_millis(100),
            max_backoff: Duration::from_secs(10),
            multiplier: Double { bits: TWO_BITS },
            jitter: true,
        }
    }
}

/// What to do after a failed call.
#[derive(Debug, Clone, Copy, PartialEq, Eq, Structural)]
pub enum RetryStep {
    /// Hand the failure to the caller.
    GiveUp,
    /// Wait out the backoff and call again.
    Retry,
}

/// Whether a call that failed with this code may succeed when it is tried again.
pub open spec fn transient_code(code: Code) -> bool {
    code is Unavailable || code is DeadlineExceeded || code is Aborted || code is ResourceExhausted
}

/// Returns whether a gRPC status is worth retrying.
pub fn is_transient(s: &tonic::Status) -> (r: bool)
    ensures
        r == transient_code(status::status_code_spec(*s)),
{
    is_transient_code(status_code(s))
}

/// Returns whether a call that failed with this code is worth retrying.
pub fn is_transient_code(code: Code) -> (r: bool)
    ensures
        r == transient_code(code),
{
    match code {
        Code::Unavailable
        | Code::DeadlineExceeded
        | Code::Aborted
        | Code::ResourceExhausted => true,
        _ => false,
    }
}

/// The errors that are retried are those that report a transport failure or an
/// overloaded server, except for a cancelled call, which is never tried again.
pub proof fn transient_errors(e: ClientError, code: Code, text: Seq<char>)
    requires
        errors::client_error_is(e, code, text),
    ensures
        transient_code(code) <==> (e is Transport || e is Overloaded) && !(code is Cancelled),
{
}

impl RetryPolicy {
    #[verifier::type_invariant]
    spec fn inv(self) -> bool {
        self.max_attempts >= 1
    }

    /// Sets the total number of attempts (including the first). Values below 1
    /// are clamped to 1, so `1` means "no retries".
    pub fn with_max_attempts(self, n: u32) -> (r: Self)
        ensures
            r@ == (RetryPolicyView {
                max_attempts: if n < 1 {
                    1
                } else {
                    n
                },
                ..self@
            }),
    {
        let max_attempts: u32 = if n < 1 {
            1
        } else {
            n
        };
        RetryPolicy { max_attempts, ..self }
    }

    /// Sets the backoff before the first retry. Each subsequent retry multiplies
    /// this by [`with_multiplier`](Self::with_multiplier), capped at
    /// [`with_max_backoff`](Self::with_max_backoff).
    pub fn with_initial_backoff(self, d: Duration) -> (r: Self)
        ensures
            r@ == (RetryPolicyView { initial_backoff: d, ..self@ }),
    {
        proof {
            use_type_invariant(&self);
        }
        RetryPolicy { initial_backoff: d, ..self }
    }

    /// Caps the backoff between retries.
    pub fn with_max_backoff(self, d: Duration) -> (r: Self)
        ensures
            r@ == (RetryPolicyView { max_backoff: d, ..self@ }),
    {
        proof {
            use_type_invariant(&self);
        }
        RetryPolicy { max_backoff: d, ..self }
    }

    /// Sets the exponential growth factor for the backoff. Values below one,
    /// and what is no number, are replaced by one (constant backoff).
    pub fn with_multiplier(self, m: Double) -> (r: Self)
        ensures
            r@ == (RetryPolicyView { multiplier: m.at_least_one_spec(), ..self@ }),
    {
        proof {
            use_type_invariant(&self);
        }
        RetryPolicy { multiplier: m.at_least_one(), ..self }
    }

    /// Disables jitter. By default each delay is randomized between a half and
    /// the whole of its computed value to avoid thundering herds.
    pub fn without_jitter(self) -> (r: Self)
        ensures
            r@ == (RetryPolicyView { jitter: false, ..self@ }),
    {
        proof {
            use_type_invariant(&self);
        }
        RetryPolicy { jitter: false, ..self }
    }

    /// Returns the configured number of attempts, which is at least one.
    pub fn max_attempts(&self) -> (n: u32)
        ensures
            n == self@.max_attempts,
            n >= 1,
    {
        proof {
            use_type_invariant(self);
        }
        self.max_attempts
    }

    /// Returns the backoff before the first retry.
    pub fn initial_backoff(&self) -> (d: Duration)
        ensures
            d == self@.initial_backoff,
    {
        self.initial_backoff
    }

    /// Returns the longest backoff.
    pub fn max_backoff(&self) -> (d: Duration)
        ensures
            d == self@.max_backoff,
    {
        self.max_backoff
    }

    /// Returns the growth factor of the backoff.
    pub fn multiplier(&self) -> (m: Double)
        ensures
            m == self@.multiplier,
    {
        self.multiplier
    }

    /// Returns whether delays are randomized.
    pub fn jitter(&self) -> (b: bool)
        ensures
            b == self@.jitter,
    {
        self.jitter
    }
}

/// What a retried call knows.
pub struct RetryStateView {
    /// Which attempt this is, counted from one.
    pub attempt: int,
    /// How long to wait before the next one.
    pub backoff: Duration,
}

/// The state of a call that is retried.
#[derive(Debug)]
pub struct RetryState {
    attempt: u32,
    backoff: Duration,
}

impl View for RetryState {
    type V = RetryStateView;

    closed spec fn view(&self) -> RetryStateView {
        RetryStateView { attempt: self.attempt as int, backoff: self.backoff }
    }
}

impl RetryState {
    /// The state before the first attempt.
    pub fn new(policy: &RetryPolicy) -> (r: Self)
        ensures
            r@ == (RetryStateView { attempt: 1, backoff: policy@.initial_backoff }),
    {
        RetryState { attempt: 1, backoff: policy.initial_backoff() }
    }

    /// What to do when the current attempt failed with this code: try again
    /// while attempts are left and the failure may pass. The next attempt is
    /// then the current one.
    pub fn after_failure(&mut self, policy: &RetryPolicy, code: Code) -> (step: RetryStep)
        ensures
            step == retry_step(policy@.max_attempts as int, old(self)@.attempt, code),
            final(self)@ == (RetryStateView {
                attempt: if step is Retry {
                    old(self)@.attempt + 1
                } else {
                    old(self)@.attempt
                },
                ..old(self)@
            }),
    {
        if self.attempt >= policy.max_attempts() || !is_transient_code(code) {
            RetryStep::GiveUp
        } else {
            self.attempt = self.attempt + 1;
            RetryStep::Retry
        }
    }

    /// Which attempt this is, counted from one.
    pub fn attempt(&self) -> (n: u32)
        ensures
            n == self@.attempt,
    {
        self.attempt
    }

    /// How long to wait before the next attempt, before jitter.
    pub fn backoff(&self) -> (d: Duration)
        ensures
            d == self@.backoff,
    {
        self.backoff
    }

    /// Sets how long to wait before the attempt after the next one: the grown
    /// backoff, capped as the policy says.
    pub fn grow_backoff(&mut self, policy: &RetryPolicy, grown: Option<Duration>)
        ensures
            final(self)@ == (RetryStateView {
                backoff: capped(grown, policy@.max_backoff),
                ..old(self)@
            }),
            time::duration_nanos(final(self)@.backoff) <= time::duration_nanos(policy@.max_backoff),
    {
        self.backoff = next_backoff(policy, grown);
    }
}

/// A grown backoff under a cap; the cap where it grew beyond what a duration
/// can hold.
pub open spec fn capped(grown: Option<Duration>, max_backoff: Duration) -> Duration {
    match grown {
        Some(d) => if time::duration_nanos(d) < time::duration_nanos(max_backoff) {
            d
        } else {
            max_backoff
        },
        None => max_backoff,
    }
}

/// The backoff after one that grew to the given length, or beyond what a
/// duration can hold: the lesser of that and the longest that the policy allows.
pub fn next_backoff(policy: &RetryPolicy, grown: Option<Duration>) -> (d: Duration)
    ensures
        d == capped(grown, policy@.max_backoff),
        time::duration_nanos(d) <= time::duration_nanos(policy@.max_backoff),
        grown matches Some(g) ==> time::duration_nanos(d) <= time::duration_nanos(g),
{
    match grown {
        Some(g) => if g.as_nanos() < policy.max_backoff().as_nanos() {
            g
        } else {
            policy.max_backoff()
        },
        None => policy.max_backoff(),
    }
}

/// How long a retried call waits before its retries, counted from one, where
/// `grown` gives what the backoff before each one grew to.
pub open spec fn backoff_before(
    policy: RetryPolicyView,
    grown: spec_fn(int) -> Option<Duration>,
    retry: int,
) -> Duration {
    if retry <= 1 {
        policy.initial_backoff
    } else {
        capped(grown(retry), policy.max_backoff)
    }
}

/// The first retry waits for the initial backoff, and no later one for longer
/// than the longest that the policy allows, whatever the backoff grew to.
pub proof fn later_backoffs_are_capped(
    policy: RetryPolicyView,
    grown: spec_fn(int) -> Option<Duration>,
    retry: int,
)
    ensures
        backoff_before(policy, grown, 1) == policy.initial_backoff,
        retry >= 2 ==> time::duration_nanos(backoff_before(policy, grown, retry))
            <= time::duration_nanos(policy.max_backoff),
{
}

/// What a policy with so many attempts does when the given attempt failed.
pub open spec fn retry_step(max_attempts: int, attempt: int, code: Code) -> RetryStep {
    if attempt >= max_attempts || !transient_code(code) {
        RetryStep::GiveUp
    } else {
        RetryStep::Retry
    }
}

/// The attempt after which a retried call ends. `outcomes` gives the code with
/// which each attempt would fail, and none where it would succeed.
pub open spec fn last_attempt(
    max_attempts: int,
    outcomes: spec_fn(int) -> Option<Code>,
    attempt: int,
) -> int
    decreases max_attempts - attempt,
{
    match outcomes(attempt) {
        None => attempt,
        Some(code) => if retry_step(max_attempts, attempt, code) is GiveUp {
            attempt
        } else {
            last_attempt(max_attempts, outcomes, attempt + 1)
        },
    }
}

/// A retried call ends within the allowed attempts. It ends with the first
/// attempt that succeeds or fails for good, or with the last one allowed; every
/// attempt before that one failed for a passing reason.
pub proof fn retry_ends(max_attempts: int, outcomes: spec_fn(int) -> Option<Code>, attempt: int)
    requires
        1 <= attempt <= max_attempts,
    ensures
        ({
            let last = last_attempt(max_attempts, outcomes, attempt);
            &&& attempt <= last <= max_attempts
            &&& forall|i: int|
                attempt <= i < last ==> ((#[trigger] outcomes(i)) matches Some(code)
                    && transient_code(code))
            &&& outcomes(last) matches Some(code) ==> !transient_code(code) || last == max_attempts
        }),
    decreases max_attempts - attempt,
{
    match outcomes(attempt) {
        None => {},
        Some(code) => {
            if retry_step(max_attempts, attempt, code) is Retry {
                retry_ends(max_attempts, outcomes, attempt + 1);
            }
        },
    }
}

/// Mixes the nanoseconds of the clock into a number below `2^16`.
pub open spec fn jitter_mix(nanos: u32) -> u64 {
    let a = nanos as u64 ^ (nanos as u64 >> 17);
    let b = ((a * 0xed5a_d4bb) % 0x1_0000_0000_0000_0000) as u64;
    (b ^ (b >> 11)) & 0xffff
}

/// Mixes the nanoseconds of the clock into a number below `2^16`, from which a
/// delay is randomized.
pub fn jitter_bits(nanos: u32) -> (r: u32)
    ensures
        r == jitter_mix(nanos),
        r < 65536,
{
    let mut x: u64 = nanos as u64;
    x = x ^ (x >> 17);
    x = x.wrapping_mul(0xed5a_d4bb);
    let y: u64 = (x ^ (x >> 11)) & 0xffff;
    assert(y <= 0xffff) by (bit_vector)
        requires
            y == (x ^ (x >> 11)) & 0xffff,
    ;
    y as u32
}

/// The nanoseconds of a point in time beyond its whole seconds since the Unix
/// epoch; zero before the epoch.
pub open spec fn subsec_nanos(t: SystemTime) -> u32 {
    if time::system_time_nanos(t) < 0 {
        0
    } else {
        (time::system_time_nanos(t) % 1_000_000_000) as u32
    }
}

/// A number below `2^16` mixed from the clock. What the clock says is not known
/// here; `jitter_bits` states what is made of it.
pub fn clock_jitter() -> (r: u32)
    ensures
        exists|t: SystemTime| #[trigger]
            call_ensures(SystemTime::now, (), t) && r == jitter_mix(subsec_nanos(t)),
        r < 65536,
{
    let nanos: u32 = match since_epoch_nanos() {
        Some(n) => (n % NANOS_PER_SEC) as u32,
        None => 0,
    };
    jitter_bits(nanos)
}

} // verus!
