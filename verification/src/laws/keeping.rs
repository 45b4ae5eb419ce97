//! What is kept is found again.
use std::time::SystemTime;
use vstd::prelude::*;

use crate::client::calls::extended_until;
use crate::client::retry::{self, clock_jitter, jitter_bits};
use crate::client::{ClientError, LeaseError, RetryDirective, RetryPolicy, RetryState, SeppClient};
use crate::job::{Job, JobCtx, Lease, LeaseEnd};
use crate::primitive::{Payload, Primitive};
use crate::request::EnqueueRequest;
use crate::string_map::{self, StringMap};
use crate::time;
use crate::trace::TraceContext;
use crate::worker::run::RunState;

verus! {

/// What was put under a key is found there, in place of what was there before,
/// and nothing else moves.
pub proof fn a_map_finds_what_was_put_in<V>(
    m: &mut StringMap<V>,
    key: String,
    value: V,
    other: Seq<char>,
)
    requires
        call_ensures(StringMap::<V>::insert, (m, key, value), ()),
    ensures
        final(m)@.contains_key(key@) && final(m)@[key@] == value,
        other != key@ ==> (final(m)@.contains_key(other) <==> old(m)@.contains_key(other)),
        other != key@ && old(m)@.contains_key(other) ==> final(m)@[other] == old(m)@[other],
{
}

/// What was taken out from under a key is not found there any more, and nothing
/// else moves.
pub proof fn a_map_loses_what_was_taken_out<V>(m: &mut StringMap<V>, key: &str, other: Seq<char>)
    requires
        call_ensures(StringMap::<V>::remove, (m, key), ()),
    ensures
        !final(m)@.contains_key(key@),
        other != key@ ==> (final(m)@.contains_key(other) <==> old(m)@.contains_key(other)),
        other != key@ && old(m)@.contains_key(other) ==> final(m)@[other] == old(m)@[other],
{
}

/// A map is read as it is: its keys, their values and their number.
pub proof fn a_map_is_read_as_it_is<V>(
    m: StringMap<V>,
    key: &str,
    held: bool,
    found: Option<&V>,
    n: usize,
    none: bool,
)
    requires
        call_ensures(StringMap::<V>::contains_key, (&m, key), held),
        call_ensures(StringMap::<V>::get, (&m, key), found),
        call_ensures(StringMap::<V>::len, (&m,), n),
        call_ensures(StringMap::<V>::is_empty, (&m,), none),
    ensures
        held <==> m@.contains_key(key@),
        found is Some <==> held,
        found matches Some(v) ==> *v == m@[key@],
        n == m@.dom().len(),
        none ==> !held,
        none <==> n == 0,
{
    if n == 0 {
        assert(m@ =~= Map::<Seq<char>, V>::empty());
    }
    if none {
        assert(m@.dom() =~= Set::<Seq<char>>::empty());
    }
}

/// A new map is empty, one from entries holds for each key the last of them,
/// and its entries stand for it again.
pub proof fn a_map_is_made_of_its_entries<V>(
    fresh: StringMap<V>,
    entries: Vec<(String, V)>,
    m: StringMap<V>,
    handed_out: Vec<(String, V)>,
    again: StringMap<V>,
    key: Seq<char>,
)
    requires
        call_ensures(StringMap::<V>::new, (), fresh),
        call_ensures(StringMap::<V>::from_entries, (entries,), m),
        call_ensures(StringMap::<V>::into_entries, (m,), handed_out),
        call_ensures(StringMap::<V>::from_entries, (handed_out,), again),
    ensures
        !fresh@.contains_key(key),
        m@.contains_key(key) <==> exists|i: int|
            0 <= i < entries@.len() && (#[trigger] entries@[i]).0@ == key,
        entries@.len() > 0 ==> m@.contains_key(entries@.last().0@) && m@[entries@.last().0@]
            == entries@.last().1,
        again@ == m@,
{
    string_map::lemma_entries_keys(entries@, key);
}

/// A later entry wins over an earlier one with the same key.
pub proof fn a_later_entry_wins<V>(entries: Seq<(String, V)>, entry: (String, V), other: Seq<char>)
    ensures
        string_map::entries_map(entries.push(entry)).contains_key(entry.0@),
        string_map::entries_map(entries.push(entry))[entry.0@] == entry.1,
        other != entry.0@ ==> (string_map::entries_map(entries.push(entry)).contains_key(other)
            <==> string_map::entries_map(entries).contains_key(other)),
        other != entry.0@ && string_map::entries_map(entries).contains_key(other)
            ==> string_map::entries_map(entries.push(entry))[other] == string_map::entries_map(
            entries,
        )[other],
{
    assert(entries.push(entry).drop_last() =~= entries);
}

/// A lease names the delivery that it was made for, and so does each clone.
pub proof fn a_lease_names_its_delivery(
    job_id: String,
    attempt: u32,
    worker_id: Option<String>,
    l: Lease,
    c: Lease,
    id: &str,
    n: u32,
    w: &Option<String>,
)
    requires
        call_ensures(Lease::new, (job_id, attempt, worker_id), l),
        call_ensures(<Lease as Clone>::clone, (&l,), c),
        call_ensures(Lease::job_id, (&c,), id),
        call_ensures(Lease::attempt, (&c,), n),
        call_ensures(Lease::worker_id, (&c,), w),
    ensures
        id@ == job_id@,
        n == attempt,
        w is Some <==> worker_id is Some,
        w matches Some(x) ==> x@ == worker_id->0@,
{
}

/// A known end is that of the time that it was made for, to the millisecond, and
/// zero for one before the epoch.
pub proof fn a_known_end_is_that_of_its_time(t: SystemTime, e: LeaseEnd, ms: i64)
    requires
        call_ensures(LeaseEnd::new, (t,), e),
        call_ensures(LeaseEnd::known_expiry_ms, (&e,), ms),
    ensures
        time::system_time_nanos(t) < 0 ==> ms == 0,
        0 <= time::system_time_nanos(t) < 0x8000_0000_0000_0000 * 1_000_000 ==> ms * 1_000_000
            <= time::system_time_nanos(t) < (ms + 1) * 1_000_000,
{
}

/// The end of an extended lease is the one that was read.
pub proof fn an_extended_lease_ends_when_it_was_read_to(
    t: SystemTime,
    r: Result<SystemTime, LeaseError>,
    unread: Result<SystemTime, LeaseError>,
)
    requires
        call_ensures(extended_until, (Some(t),), r),
        call_ensures(extended_until, (None::<SystemTime>,), unread),
    ensures
        r matches Ok(u) && u == t,
        unread matches Err(LeaseError::Client(ClientError::MalformedResponse(m))) && m@
            == "extend returned an invalid lease_expires_at"@,
{
}

/// A cloned job is the same job: the same payload, the same fields, and a lease
/// on the same delivery.
pub proof fn a_cloned_job_is_the_same_job(j: Job, c: Job, x: JobCtx)
    requires
        call_ensures(<Job as Clone>::clone, (&j,), c),
        call_ensures(<JobCtx as Clone>::clone, (&j.ctx,), x),
    ensures
        c.payload is Some <==> j.payload is Some,
        j.payload matches Some(p) ==> c.payload->0.data@ == p.data@ && c.payload->0.encoding@
            == p.encoding@,
        c.ctx.id@ == j.ctx.id@ && x.id@ == j.ctx.id@,
        c.ctx.job_type@ == j.ctx.job_type@ && x.job_type@ == j.ctx.job_type@,
        c.ctx.priority == j.ctx.priority && x.priority == j.ctx.priority,
        c.ctx.attempt == j.ctx.attempt && x.attempt == j.ctx.attempt,
        c.ctx.max_attempts == j.ctx.max_attempts && x.max_attempts == j.ctx.max_attempts,
        c.ctx.enqueued_at == j.ctx.enqueued_at && x.enqueued_at == j.ctx.enqueued_at,
        c.ctx.custom@ == j.ctx.custom@ && x.custom@ == j.ctx.custom@,
        c.ctx.trace_context == j.ctx.trace_context && x.trace_context == j.ctx.trace_context,
        c.ctx.lease_expires_at == j.ctx.lease_expires_at && x.lease_expires_at
            == j.ctx.lease_expires_at,
        c.ctx.lease@ == j.ctx.lease@ && x.lease@ == j.ctx.lease@,
{
}

/// A clone holds what it was cloned from.
pub proof fn a_clone_holds_the_same(
    q: EnqueueRequest,
    cq: EnqueueRequest,
    p: RetryPolicy,
    cp: RetryPolicy,
    s: SeppClient,
    cs: SeppClient,
    d: RetryDirective,
    cd: RetryDirective,
    v: Primitive,
    cv: Primitive,
    b: Payload,
    cb: Payload,
    t: TraceContext,
    ct: TraceContext,
)
    requires
        call_ensures(<EnqueueRequest as Clone>::clone, (&q,), cq),
        call_ensures(<RetryPolicy as Clone>::clone, (&p,), cp),
        call_ensures(<SeppClient as Clone>::clone, (&s,), cs),
        call_ensures(<RetryDirective as Clone>::clone, (&d,), cd),
        call_ensures(<Primitive as Clone>::clone, (&v,), cv),
        call_ensures(<Payload as Clone>::clone, (&b,), cb),
        call_ensures(<TraceContext as Clone>::clone, (&t,), ct),
    ensures
        cq@.queue == q@.queue && cq@.job_type == q@.job_type,
        cq@.payload is Some <==> q@.payload is Some,
        q@.payload matches Some(x) ==> cq@.payload->0.data@ == x.data@ && cq@.payload->0.encoding@
            == x.encoding@,
        cq@.idempotency_key == q@.idempotency_key && cq@.priority == q@.priority
            && cq@.max_attempts == q@.max_attempts && cq@.custom == q@.custom && cq@.trace_context
            == q@.trace_context && cq@.scheduled_at == q@.scheduled_at,
        cp@ == p@,
        cs@ == s@,
        cd == d,
        cv == v,
        cb.data@ == b.data@ && cb.encoding@ == b.encoding@,
        ct == t,
{
}

/// What a retried call and a running loop know can be read from them.
pub proof fn a_state_is_read_as_it_is(
    s: RetryState,
    n: u32,
    d: std::time::Duration,
    r: RunState,
    busy: usize,
)
    requires
        call_ensures(RetryState::attempt, (&s,), n),
        call_ensures(RetryState::backoff, (&s,), d),
        call_ensures(RunState::in_flight, (&r,), busy),
    ensures
        n == s@.attempt,
        d == s@.backoff,
        busy == r@.in_flight,
{
}

/// What a delay is randomized by follows the clock's nanoseconds beyond its whole
/// seconds.
pub proof fn jitter_follows_the_clock(r: u32)
    requires
        call_ensures(clock_jitter, (), r),
    ensures
        r < 65536,
        exists|t: SystemTime, nanos: u32|
            #![trigger call_ensures(SystemTime::now, (), t), retry::jitter_mix(nanos)]
            call_ensures(SystemTime::now, (), t) && r == retry::jitter_mix(nanos) && nanos
                < 1_000_000_000 && (time::system_time_nanos(t) < 0 ==> nanos == 0) && (
            time::system_time_nanos(t) >= 0 ==> (time::system_time_nanos(t) - nanos) % 1_000_000_000
                == 0),
{
    let t = choose|t: SystemTime| #[trigger]
        call_ensures(SystemTime::now, (), t) && r == retry::jitter_mix(retry::subsec_nanos(t));
    assert(call_ensures(SystemTime::now, (), t) && r == retry::jitter_mix(retry::subsec_nanos(t)));
}

/// The number that a delay is randomized by lies below `2^16`, and is mixed from
/// the nanoseconds of the clock: the high bits are folded into the low ones,
/// spread out by a product that never overflows, and folded again.
pub proof fn jitter_is_mixed_from_the_clock(nanos: u32, r: u32, spread: u64)
    requires
        call_ensures(jitter_bits, (nanos,), r),
        spread == (nanos as u64 ^ (nanos as u64 >> 17)) * 0xed5a_d4bb,
    ensures
        r < 65536,
        r == (spread ^ (spread >> 11)) & 0xffff,
{
    assert(nanos as u64 ^ (nanos as u64 >> 17) <= 0xffff_ffff) by (bit_vector);
    assert((nanos as u64 ^ (nanos as u64 >> 17)) * 0xed5a_d4bb < 0x1_0000_0000_0000_0000)
        by (nonlinear_arith)
        requires
            nanos as u64 ^ (nanos as u64 >> 17) <= 0xffff_ffff,
    ;
}

} // verus!
