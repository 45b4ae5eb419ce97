//! Failures: how they are reported, and which are tried again.
use std::time::Duration;
use vstd::prelude::*;

use crate::client::builder::{connect_error, root_cause};
use crate::client::retry::{self, is_transient_code, next_backoff};
use crate::client::{
    is_transient, ClientError, EnqueueError, ErrorChain, LeaseError, ReserveError, RetryPolicy,
    RetryState, RetryStep,
};
use crate::double::Double;
use crate::job::JobConversionError;
use crate::request::AtomicEnqueueError;
use crate::server_info::ServerInfoError;
use crate::status::{self, status_code, Code};
use crate::time;

verus! {

/// Each code stands for its own number, and a number without a code is unknown.
pub proof fn codes_have_their_numbers(n: i32, c: Code)
    requires
        call_ensures(Code::from_number, (n,), c),
    ensures
        c is Success <==> n == 0,
        c is Cancelled <==> n == 1,
        c is Unknown <==> n == 2 || n < 0 || n > 16,
        c is InvalidArgument <==> n == 3,
        c is DeadlineExceeded <==> n == 4,
        c is NotFound <==> n == 5,
        c is AlreadyExists <==> n == 6,
        c is PermissionDenied <==> n == 7,
        c is ResourceExhausted <==> n == 8,
        c is FailedPrecondition <==> n == 9,
        c is Aborted <==> n == 10,
        c is OutOfRange <==> n == 11,
        c is Unimplemented <==> n == 12,
        c is Internal <==> n == 13,
        c is Unavailable <==> n == 14,
        c is DataLoss <==> n == 15,
        c is Unauthenticated <==> n == 16,
{
}

/// The code of a status is the one with its number.
pub proof fn a_status_has_the_code_of_its_number(s: tonic::Status, c: Code, d: Code)
    requires
        call_ensures(status_code, (&s,), c),
        call_ensures(Code::from_number, (status::status_number(s),), d),
    ensures
        c == d,
{
}

/// A failed call is reported by its code, with the server's text: each kind of
/// error comes for its codes and for no others.
pub proof fn a_failure_is_reported_by_its_code(code: Code, text: &str, e: ClientError)
    requires
        call_ensures(ClientError::of_status, (code, text), e),
    ensures
        e is Transport <==> code is Unavailable || code is DeadlineExceeded || code is Aborted
            || code is Cancelled,
        e is Unauthenticated <==> code is Unauthenticated || code is PermissionDenied,
        e is Overloaded <==> code is ResourceExhausted,
        e is InvalidRequest <==> code is InvalidArgument,
        e is ServerInternal <==> code is Internal || code is DataLoss || code is Unknown,
        e is UnexpectedStatus <==> code is Success || code is NotFound || code is AlreadyExists
            || code is FailedPrecondition || code is OutOfRange || code is Unimplemented,
        e matches ClientError::Transport(m) ==> m@ == text@,
        e matches ClientError::Unauthenticated(m) ==> m@ == text@,
        e matches ClientError::Overloaded(m) ==> m@ == text@,
        e matches ClientError::InvalidRequest(m) ==> m@ == text@,
        e matches ClientError::ServerInternal(m) ==> m@ == text@,
        e matches ClientError::UnexpectedStatus { code: c, message: m } ==> c == code && m@
            == text@,
{
}

/// A failed lease call is reported as a lost lease for two codes, and else as
/// any other call; a failed reserve is reported as unknown queues for one code.
pub proof fn a_failure_is_reported_for_its_call(
    code: Code,
    text: &str,
    l: LeaseError,
    r: ReserveError,
)
    requires
        call_ensures(LeaseError::of_status, (code, text), l),
        call_ensures(ReserveError::of_status, (code, text), r),
    ensures
        l is JobNotFound <==> code is NotFound,
        l is AttemptMismatch <==> code is FailedPrecondition,
        r is UnknownQueues <==> code is FailedPrecondition,
        r matches ReserveError::UnknownQueues(m) ==> m@ == text@,
        l matches LeaseError::Client(e) ==> (e is Transport <==> code is Unavailable
            || code is DeadlineExceeded || code is Aborted || code is Cancelled),
        l matches LeaseError::Client(e) ==> (e is Overloaded <==> code is ResourceExhausted),
        l matches LeaseError::Client(e) ==> (e is Unauthenticated <==> code is Unauthenticated
            || code is PermissionDenied),
        l matches LeaseError::Client(e) ==> (e is InvalidRequest <==> code is InvalidArgument),
        l matches LeaseError::Client(e) ==> (e is ServerInternal <==> code is Internal
            || code is DataLoss || code is Unknown),
        r matches ReserveError::Client(e) ==> (e is Transport <==> code is Unavailable
            || code is DeadlineExceeded || code is Aborted || code is Cancelled),
        r matches ReserveError::Client(e) ==> (e is Overloaded <==> code is ResourceExhausted),
        r matches ReserveError::Client(e) ==> (e is Unauthenticated <==> code is Unauthenticated
            || code is PermissionDenied),
        r matches ReserveError::Client(e) ==> (e is InvalidRequest <==> code is InvalidArgument),
        r matches ReserveError::Client(e) ==> (e is ServerInternal <==> code is Internal
            || code is DataLoss || code is Unknown),
{
}

/// Whether a client error is the one for a failed call with this code and text.
pub open spec fn reports(e: ClientError, code: Code, text: Seq<char>) -> bool {
    match e {
        ClientError::Transport(m) => m@ == text && (code is Unavailable || code is DeadlineExceeded
            || code is Aborted || code is Cancelled),
        ClientError::Unauthenticated(m) => m@ == text && (code is Unauthenticated
            || code is PermissionDenied),
        ClientError::Overloaded(m) => m@ == text && code is ResourceExhausted,
        ClientError::InvalidRequest(m) => m@ == text && code is InvalidArgument,
        ClientError::ServerInternal(m) => m@ == text && (code is Internal || code is DataLoss
            || code is Unknown),
        ClientError::UnexpectedStatus { code: c, message: m } => m@ == text && c == code && (
        code is Success || code is NotFound || code is AlreadyExists || code is FailedPrecondition
            || code is OutOfRange || code is Unimplemented),
        _ => false,
    }
}

/// Every kind of call reports the code and the text of the status that it failed
/// with.
pub proof fn a_status_is_reported_whole(
    s: tonic::Status,
    code: Code,
    c: ClientError,
    q: EnqueueError,
    a: AtomicEnqueueError,
    l: LeaseError,
    r: ReserveError,
)
    requires
        call_ensures(status_code, (&s,), code),
        call_ensures(<ClientError as From<tonic::Status>>::from, (s,), c),
        call_ensures(<EnqueueError as From<tonic::Status>>::from, (s,), q),
        call_ensures(<AtomicEnqueueError as From<tonic::Status>>::from, (s,), a),
        call_ensures(<LeaseError as From<tonic::Status>>::from, (s,), l),
        call_ensures(<ReserveError as From<tonic::Status>>::from, (s,), r),
    ensures
        reports(c, code, status::status_text(s)),
        q matches EnqueueError::Client(e) && reports(e, code, status::status_text(s)),
        a matches AtomicEnqueueError::Client(e) && reports(e, code, status::status_text(s)),
        l is JobNotFound <==> code is NotFound,
        l is AttemptMismatch <==> code is FailedPrecondition,
        l matches LeaseError::Client(e) ==> reports(e, code, status::status_text(s)),
        r is UnknownQueues <==> code is FailedPrecondition,
        r matches ReserveError::UnknownQueues(m) ==> m@ == status::status_text(s),
        r matches ReserveError::Client(e) ==> reports(e, code, status::status_text(s)),
{
}

/// An error that a client met is handed on as it is by every kind of call.
pub proof fn a_client_error_is_handed_on(
    c: ClientError,
    q: EnqueueError,
    a: AtomicEnqueueError,
    l: LeaseError,
    r: ReserveError,
    j: JobConversionError,
    cj: ClientError,
    i: ServerInfoError,
    ci: ClientError,
)
    requires
        call_ensures(<EnqueueError as From<ClientError>>::from, (c,), q),
        call_ensures(<AtomicEnqueueError as From<ClientError>>::from, (c,), a),
        call_ensures(<LeaseError as From<ClientError>>::from, (c,), l),
        call_ensures(<ReserveError as From<ClientError>>::from, (c,), r),
        call_ensures(<ClientError as From<JobConversionError>>::from, (j,), cj),
        call_ensures(<ClientError as From<ServerInfoError>>::from, (i,), ci),
    ensures
        q == EnqueueError::Client(c),
        a == AtomicEnqueueError::Client(c),
        l == LeaseError::Client(c),
        r == ReserveError::Client(c),
        cj == ClientError::MalformedJob(j),
        ci == ClientError::MalformedServerInfo(i),
{
}

/// A failure is worth another attempt exactly for the four codes that say that
/// it may pass.
pub proof fn four_codes_are_transient(code: Code, r: bool, s: tonic::Status, q: bool)
    requires
        call_ensures(is_transient_code, (code,), r),
        call_ensures(is_transient, (&s,), q),
        call_ensures(status_code, (&s,), code),
    ensures
        r <==> code is Unavailable || code is DeadlineExceeded || code is Aborted
            || code is ResourceExhausted,
        q <==> r,
{
}

/// A failed call is tried again exactly while attempts are left and its code is
/// one of the four; the count goes up by one with each retry, and the backoff is
/// left alone.
pub proof fn a_call_is_retried_while_attempts_are_left(
    state: &mut RetryState,
    policy: RetryPolicy,
    code: Code,
    step: RetryStep,
)
    requires
        call_ensures(RetryState::after_failure, (state, &policy, code), step),
    ensures
        step is Retry <==> old(state)@.attempt < policy@.max_attempts && (code is Unavailable
            || code is DeadlineExceeded || code is Aborted || code is ResourceExhausted),
        step is Retry ==> final(state)@.attempt == old(state)@.attempt + 1,
        step is GiveUp ==> final(state)@.attempt == old(state)@.attempt,
        final(state)@.backoff == old(state)@.backoff,
{
}

/// The same of the decision alone.
pub proof fn the_attempts_of_a_policy_are_used_up(max_attempts: int, attempt: int, code: Code)
    ensures
        retry::retry_step(max_attempts, attempt, code) is Retry <==> attempt < max_attempts && (
        code is Unavailable || code is DeadlineExceeded || code is Aborted
            || code is ResourceExhausted),
{
}

/// A retried call starts with its first attempt and the initial backoff.
pub proof fn a_call_starts_with_its_first_attempt(policy: RetryPolicy, state: RetryState)
    requires
        call_ensures(RetryState::new, (&policy,), state),
    ensures
        state@.attempt == 1,
        state@.backoff == policy@.initial_backoff,
{
}

/// A grown backoff is the lesser of what it grew to and the longest that the
/// policy allows, and the longest where it outgrew all durations.
pub proof fn a_backoff_is_capped_and_no_more(policy: RetryPolicy, grown: Option<Duration>, d: Duration)
    requires
        call_ensures(next_backoff, (&policy, grown), d),
    ensures
        grown is None ==> d == policy@.max_backoff,
        grown matches Some(g) ==> time::duration_nanos(g) < time::duration_nanos(policy@.max_backoff)
            ==> d == g,
        grown matches Some(g) ==> time::duration_nanos(g) >= time::duration_nanos(
            policy@.max_backoff,
        ) ==> d == policy@.max_backoff,
{
}

/// The backoff of a retried call grows the same way, and the attempt that it is
/// at is left alone.
pub proof fn a_retried_call_waits_for_the_capped_backoff(
    state: &mut RetryState,
    policy: RetryPolicy,
    grown: Option<Duration>,
    d: Duration,
)
    requires
        call_ensures(next_backoff, (&policy, grown), d),
        call_ensures(RetryState::grow_backoff, (state, &policy, grown), ()),
    ensures
        final(state)@.backoff == d,
        final(state)@.attempt == old(state)@.attempt,
{
}

/// The default policy makes one attempt. Its backoff starts at a tenth of a
/// second and doubles up to ten seconds, with jitter.
pub proof fn the_default_policy_makes_one_attempt(p: RetryPolicy)
    requires
        call_ensures(<RetryPolicy as Default>::default, (), p),
    ensures
        p@.max_attempts == 1,
        time::duration_nanos(p@.initial_backoff) == 100_000_000,
        time::duration_nanos(p@.max_backoff) == 10_000_000_000,
        p@.multiplier.bits == 0x4000_0000_0000_0000u64,
        p@.jitter,
{
}

/// Each setting of a policy is the one that was last given, where it is in
/// range, and leaves the others alone.
pub proof fn a_policy_is_what_was_asked_for(
    p: RetryPolicy,
    n: u32,
    d: Duration,
    m: Double,
    attempts: RetryPolicy,
    initial: RetryPolicy,
    longest: RetryPolicy,
    factor: RetryPolicy,
    steady: RetryPolicy,
)
    requires
        call_ensures(RetryPolicy::with_max_attempts, (p, n), attempts),
        call_ensures(RetryPolicy::with_initial_backoff, (p, d), initial),
        call_ensures(RetryPolicy::with_max_backoff, (p, d), longest),
        call_ensures(RetryPolicy::with_multiplier, (p, m), factor),
        call_ensures(RetryPolicy::without_jitter, (p,), steady),
    ensures
        n >= 1 ==> attempts@.max_attempts == n,
        n == 0 ==> attempts@.max_attempts == 1,
        attempts@.initial_backoff == p@.initial_backoff && attempts@.max_backoff == p@.max_backoff
            && attempts@.multiplier == p@.multiplier && attempts@.jitter == p@.jitter,
        initial@.initial_backoff == d,
        initial@.max_attempts == p@.max_attempts && initial@.max_backoff == p@.max_backoff
            && initial@.multiplier == p@.multiplier && initial@.jitter == p@.jitter,
        longest@.max_backoff == d,
        longest@.max_attempts == p@.max_attempts && longest@.initial_backoff == p@.initial_backoff
            && longest@.multiplier == p@.multiplier && longest@.jitter == p@.jitter,
        0x3ff0_0000_0000_0000 <= m.bits <= 0x7ff0_0000_0000_0000 ==> factor@.multiplier.bits
            == m.bits,
        m.bits < 0x3ff0_0000_0000_0000 || m.bits > 0x7ff0_0000_0000_0000
            ==> factor@.multiplier.bits == 0x3ff0_0000_0000_0000,
        factor@.max_attempts == p@.max_attempts && factor@.initial_backoff == p@.initial_backoff
            && factor@.max_backoff == p@.max_backoff && factor@.jitter == p@.jitter,
        !steady@.jitter,
        steady@.max_attempts == p@.max_attempts && steady@.initial_backoff == p@.initial_backoff
            && steady@.max_backoff == p@.max_backoff && steady@.multiplier == p@.multiplier,
{
}

/// What a policy was asked for can be read from it.
pub proof fn a_policy_tells_what_it_is(
    p: RetryPolicy,
    n: u32,
    i: Duration,
    l: Duration,
    m: Double,
    j: bool,
)
    requires
        call_ensures(RetryPolicy::max_attempts, (&p,), n),
        call_ensures(RetryPolicy::initial_backoff, (&p,), i),
        call_ensures(RetryPolicy::max_backoff, (&p,), l),
        call_ensures(RetryPolicy::multiplier, (&p,), m),
        call_ensures(RetryPolicy::jitter, (&p,), j),
    ensures
        n == p@.max_attempts && n >= 1,
        i == p@.initial_backoff,
        l == p@.max_backoff,
        m == p@.multiplier,
        j == p@.jitter,
{
}

/// No number equals itself, every other float does, and two floats with
/// different patterns are equal only where both are zero.
pub proof fn floats_are_equal_as_numbers_are(a: Double, b: Double, r: bool, same: bool)
    requires
        call_ensures(<Double as PartialEq>::eq, (&a, &b), r),
        call_ensures(<Double as PartialEq>::eq, (&b, &a), same),
    ensures
        r == same,
        a.bits == b.bits ==> (r <==> a.bits % 0x8000_0000_0000_0000 <= 0x7ff0_0000_0000_0000),
        a.bits != b.bits ==> (r <==> a.bits % 0x8000_0000_0000_0000 == 0 && b.bits
            % 0x8000_0000_0000_0000 == 0),
{
}

/// The cause of an error that has one is the cause of that one, and an error
/// without one is its own.
pub proof fn the_root_cause_is_the_innermost_error(
    err: ErrorChain,
    s: String,
    inner: ErrorChain,
    t: String,
)
    requires
        call_ensures(root_cause, (&err,), s),
        call_ensures(root_cause, (&inner,), t),
        err.source matches Some(source) ==> *source == inner,
    ensures
        err.source is None ==> s@ == err.message@,
        err.source is Some ==> s@ == t@,
{
}

/// A connection that failed is reported with the address that was asked for and
/// the innermost cause.
pub proof fn a_failed_connection_is_reported_with_its_cause(
    addr: &str,
    err: ErrorChain,
    cause: String,
    e: ClientError,
)
    requires
        call_ensures(root_cause, (&err,), cause),
        call_ensures(connect_error, (addr, &err), e),
    ensures
        e matches ClientError::Connect { addr: a, reason } && a@ == addr@ && reason@ == cause@,
{
}

} // verus!
