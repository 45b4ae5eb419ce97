//! Reserving: what is asked of the server, and how its jobs are read.
use std::time::{Duration, SystemTime};
use vstd::prelude::*;

use crate::client::calls::{
    self, drain_request, reserve_deadline, reserved_jobs, reserved_of, server_info_result,
    skip_malformed, Reserved,
};
use crate::client::ClientError;
use crate::job::{self, job_from_pb, Job, JobConversionError};
use crate::laws::enqueuing;
use crate::pb;
use crate::reserve::{ReserveOptions, ReserveOptionsError};
use crate::server_info::{self, ServerInfo, ServerInfoError};
use crate::time::{
    self, duration_to_millis, longer, millis_to_system_time, system_time_to_epoch_millis,
    system_time_to_millis, timestamp_to_system_time,
};
use crate::trace;

verus! {

/// Reserve options are refused for the first thing that is wrong with them, and
/// for nothing else: no queue, the first queue without a name, a lease of no
/// time. What is taken is taken as it is, with a wait of half a minute.
pub proof fn reserve_options_are_refused_for_the_first_fault(
    queues: Vec<String>,
    lease: Duration,
    r: Result<ReserveOptions, ReserveOptionsError>,
    i: int,
)
    requires
        call_ensures(ReserveOptions::new, (queues, lease), r),
    ensures
        r is Ok <==> queues@.len() > 0 && time::duration_nanos(lease) > 0 && (forall|k: int|
            0 <= k < queues@.len() ==> (#[trigger] queues@[k])@.len() > 0),
        r matches Err(e) ==> (e is EmptyQueues <==> queues@.len() == 0),
        r matches Err(e) ==> (e is EmptyQueueName <==> exists|k: int|
            0 <= k < queues@.len() && (#[trigger] queues@[k])@.len() == 0),
        r matches Err(ReserveOptionsError::EmptyQueueName(n)) ==> n < queues@.len()
            && queues@[n as int]@.len() == 0 && (0 <= i < n ==> queues@[i]@.len() > 0),
        r matches Err(e) ==> !(e is EmptyWorkerId),
        r matches Ok(o) ==> o@.queues.len() == queues@.len(),
        r matches Ok(o) ==> 0 <= i < queues@.len() ==> o@.queues[i] == queues@[i]@,
        r matches Ok(o) ==> o@.lease_duration == lease,
        r matches Ok(o) ==> time::duration_nanos(o@.wait_timeout) == 30_000_000_000,
        r matches Ok(o) ==> o@.worker_id is None && o@.max_jobs is None,
{
    let names = crate::text::texts(queues@);
    assert(forall|k: int| 0 <= k < queues@.len() ==> names[k] == (#[trigger] queues@[k])@);
    assert(forall|k: int| 0 <= k < names.len() ==> #[trigger] names[k] == queues@[k]@);
    if exists|k: int| 0 <= k < queues@.len() && (#[trigger] queues@[k])@.len() == 0 {
        let k = choose|k: int| 0 <= k < queues@.len() && (#[trigger] queues@[k])@.len() == 0;
        assert(names[k].len() == 0);
        let n = lemma_first_of(names, k);
        crate::reserve::lemma_first_empty(names, n);
        assert(queues.len() == queues@.len());
        if 0 <= i < n {
            assert(names[i].len() > 0);
        }
    }
    if exists|k: int| 0 <= k < names.len() && (#[trigger] names[k]).len() == 0 {
        let k = choose|k: int| 0 <= k < names.len() && (#[trigger] names[k]).len() == 0;
        assert(queues@[k]@.len() == 0);
    }
}

/// Where a text is empty there is a first empty one.
proof fn lemma_first_of(names: Seq<Seq<char>>, k: int) -> (n: int)
    requires
        0 <= k < names.len(),
        names[k].len() == 0,
    ensures
        0 <= n <= k,
        names[n].len() == 0,
        forall|j: int| 0 <= j < n ==> (#[trigger] names[j]).len() > 0,
    decreases k,
{
    if exists|j: int| 0 <= j < k && (#[trigger] names[j]).len() == 0 {
        let j = choose|j: int| 0 <= j < k && (#[trigger] names[j]).len() == 0;
        lemma_first_of(names, j)
    } else {
        k
    }
}

/// Each setting of reserve options is the one that was last given, and leaves
/// the others alone. A worker id must not be empty.
pub proof fn reserve_options_are_what_was_asked_for(
    o: ReserveOptions,
    wait: Duration,
    id: &str,
    max: u32,
    w: ReserveOptions,
    i: Result<ReserveOptions, ReserveOptionsError>,
    m: ReserveOptions,
    c: ReserveOptions,
)
    requires
        call_ensures(ReserveOptions::with_wait_timeout, (o, wait), w),
        call_ensures(ReserveOptions::with_worker_id, (o, id), i),
        call_ensures(ReserveOptions::with_max_jobs, (o, max), m),
        call_ensures(<ReserveOptions as Clone>::clone, (&o,), c),
    ensures
        w@.wait_timeout == wait,
        w@.queues == o@.queues && w@.lease_duration == o@.lease_duration && w@.worker_id
            == o@.worker_id && w@.max_jobs == o@.max_jobs,
        i is Ok <==> id@.len() > 0,
        i matches Err(e) ==> e is EmptyWorkerId,
        i matches Ok(x) ==> x@.worker_id == Some(id@),
        i matches Ok(x) ==> x@.queues == o@.queues && x@.lease_duration == o@.lease_duration
            && x@.wait_timeout == o@.wait_timeout && x@.max_jobs == o@.max_jobs,
        m@.max_jobs == Some(max),
        m@.queues == o@.queues && m@.lease_duration == o@.lease_duration && m@.wait_timeout
            == o@.wait_timeout && m@.worker_id == o@.worker_id,
        c@ == o@,
{
}

/// What reserve options hold can be read from them.
pub proof fn reserve_options_tell_what_they_are(
    o: ReserveOptions,
    w: Duration,
    l: Duration,
    m: Option<u32>,
    id: &Option<String>,
)
    requires
        call_ensures(ReserveOptions::wait_timeout, (&o,), w),
        call_ensures(ReserveOptions::lease_duration, (&o,), l),
        call_ensures(ReserveOptions::max_jobs, (&o,), m),
        call_ensures(ReserveOptions::worker_id, (&o,), id),
    ensures
        w == o@.wait_timeout,
        l == o@.lease_duration,
        m == o@.max_jobs,
        id is Some <==> o@.worker_id is Some,
        id matches Some(s) ==> o@.worker_id == Some(s@),
{
}

/// A reserve is asked for as its options say: the queues in order, the wait and
/// the lease in whole milliseconds, the worker and the number of jobs.
pub proof fn a_reserve_is_asked_for_as_its_options_say(
    o: ReserveOptions,
    r: pb::ReserveRequest,
    s: pb::ReserveRequest,
    i: int,
)
    requires
        call_ensures(<pb::ReserveRequest as From<&ReserveOptions>>::from, (&o,), r),
        call_ensures(<pb::ReserveRequest as From<ReserveOptions>>::from, (o,), s),
    ensures
        r.queues@.len() == o@.queues.len(),
        s.queues@.len() == o@.queues.len(),
        0 <= i < o@.queues.len() ==> r.queues@[i]@ == o@.queues[i] && s.queues@[i]@ == o@.queues[i],
        time::duration_nanos(o@.wait_timeout) < 0x1_0000_0000_0000_0000 * 1_000_000
            ==> r.wait_timeout_ms * 1_000_000 <= time::duration_nanos(o@.wait_timeout) < (
        r.wait_timeout_ms + 1) * 1_000_000,
        time::duration_nanos(o@.lease_duration) < 0x1_0000_0000_0000_0000 * 1_000_000
            ==> r.lease_duration_ms * 1_000_000 <= time::duration_nanos(o@.lease_duration) < (
        r.lease_duration_ms + 1) * 1_000_000,
        (time::duration_nanos(o@.wait_timeout) / 1_000_000 - r.wait_timeout_ms)
            % 0x1_0000_0000_0000_0000 == 0,
        (time::duration_nanos(o@.lease_duration) / 1_000_000 - r.lease_duration_ms)
            % 0x1_0000_0000_0000_0000 == 0,
        s.wait_timeout_ms == r.wait_timeout_ms,
        s.lease_duration_ms == r.lease_duration_ms,
        r.worker_id is Some <==> o@.worker_id is Some,
        s.worker_id is Some <==> o@.worker_id is Some,
        o@.worker_id matches Some(id) ==> r.worker_id->0@ == id && s.worker_id->0@ == id,
        r.max_jobs == o@.max_jobs,
        s.max_jobs == o@.max_jobs,
{
    if 0 <= i < o@.queues.len() {
        assert(crate::text::texts(r.queues@)[i] == r.queues@[i]@);
        assert(crate::text::texts(s.queues@)[i] == s.queues@[i]@);
    }
}

/// A reserve call may outlast its wait by ten seconds, whatever the wait.
pub proof fn a_reserve_may_outlast_its_wait(o: ReserveOptions, d: Duration)
    requires
        call_ensures(reserve_deadline, (&o,), d),
    ensures
        time::duration_nanos(d) == time::duration_nanos(o@.wait_timeout) + 10_000_000_000,
{
}

/// Parting what was read from what was malformed keeps the order of both: it can
/// be done piece by piece, and each item goes to its side.
pub proof fn parting_keeps_the_order<T, E>(
    a: Seq<Result<T, E>>,
    b: Seq<Result<T, E>>,
    item: Result<T, E>,
)
    ensures
        calls::oks(a + b) == calls::oks(a) + calls::oks(b),
        calls::errs(a + b) == calls::errs(a) + calls::errs(b),
        item matches Ok(v) ==> calls::oks(seq![item]) == seq![v],
        item is Ok ==> calls::errs(seq![item]) == Seq::<E>::empty(),
        item matches Err(e) ==> calls::errs(seq![item]) == seq![e],
        item is Err ==> calls::oks(seq![item]) == Seq::<T>::empty(),
    decreases b.len(),
{
    if b.len() == 0 {
        assert(a + b =~= a);
        assert(calls::oks(a) + calls::oks(b) =~= calls::oks(a));
        assert(calls::errs(a) + calls::errs(b) =~= calls::errs(a));
    } else {
        let before = b.drop_last();
        assert((a + b).drop_last() =~= a + before);
        assert((a + b).last() == b.last());
        parting_keeps_the_order(a, before, item);
        assert(calls::oks(a + b) =~= calls::oks(a) + calls::oks(b));
        assert(calls::errs(a + b) =~= calls::errs(a) + calls::errs(b));
    }
    let one = seq![item];
    assert(one.drop_last() =~= Seq::<Result<T, E>>::empty());
    assert(one.last() == item);
    assert(calls::oks(one.drop_last()) =~= Seq::<T>::empty());
    assert(calls::errs(one.drop_last()) =~= Seq::<E>::empty());
    if item is Ok {
        assert(calls::oks(one) =~= seq![item->Ok_0]);
    } else {
        assert(calls::errs(one) =~= seq![item->Err_0]);
    }
}

/// Items that can all be read are all kept, each in its place.
proof fn lemma_all_kept<T, E>(read: Seq<Result<T, E>>)
    requires
        forall|i: int| 0 <= i < read.len() ==> (#[trigger] read[i]) is Ok,
    ensures
        calls::oks(read).len() == read.len(),
        forall|i: int| 0 <= i < read.len() ==> #[trigger] calls::oks(read)[i] == read[i]->Ok_0,
    decreases read.len(),
{
    if read.len() > 0 {
        let before = read.drop_last();
        assert forall|i: int| 0 <= i < before.len() implies (#[trigger] before[i]) is Ok by {
            assert(read[i] is Ok);
        }
        lemma_all_kept(before);
        assert(read[read.len() - 1] is Ok);
    }
}

/// What was read and what was malformed are handed out apart, all of it, and
/// where nothing was malformed everything is handed out in its place.
pub proof fn what_can_be_read_is_handed_out<T, E>(
    read: Vec<Result<T, E>>,
    r: (Vec<T>, Vec<E>),
    i: int,
)
    requires
        call_ensures(skip_malformed::<T, E>, (read,), r),
    ensures
        r.0@ == calls::oks(read@),
        r.1@ == calls::errs(read@),
        r.0@.len() + r.1@.len() == read@.len(),
        0 <= i < read@.len() ==> (read@[i] matches Ok(v) ==> r.0@.contains(v)),
        0 <= i < read@.len() ==> (read@[i] matches Err(e) ==> r.1@.contains(e)),
        (forall|k: int| 0 <= k < read@.len() ==> (#[trigger] read@[k]) is Ok) ==> r.0@.len()
            == read@.len() && (0 <= i < read@.len() ==> r.0@[i] == read@[i]->Ok_0),
{
    calls::malformed_spoils_nothing(read@);
    if forall|k: int| 0 <= k < read@.len() ==> (#[trigger] read@[k]) is Ok {
        lemma_all_kept(read@);
    }
}

/// Of the jobs that were decoded as given, all that could be are handed out, in
/// order, and what was wrong with the others is told. Nothing is handed out
/// exactly where none could be.
pub proof fn one_malformed_job_spoils_no_other(
    decoded: Vec<Result<Job, JobConversionError>>,
    r: Reserved,
    i: int,
)
    requires
        call_ensures(reserved_of, (decoded,), r),
        0 <= i < decoded@.len(),
    ensures
        decoded@[i] matches Ok(j) ==> (r.jobs matches Some(jobs) && jobs@.contains(j)),
        decoded@[i] matches Err(e) ==> r.skipped@.contains(e),
        r.jobs matches Some(jobs) ==> jobs@ == calls::oks(decoded@),
        r.skipped@ == calls::errs(decoded@),
        r.jobs matches Some(jobs) ==> jobs@.len() > 0 && jobs@.len() + r.skipped@.len()
            == decoded@.len(),
        r.jobs is None ==> r.skipped@.len() == decoded@.len(),
        (forall|k: int| 0 <= k < decoded@.len() ==> (#[trigger] decoded@[k]) is Ok) ==> (
        r.jobs matches Some(jobs) && jobs@.len() == decoded@.len() && jobs@[i]
            == decoded@[i]->Ok_0),
{
    calls::malformed_spoils_nothing(decoded@);
    if forall|k: int| 0 <= k < decoded@.len() ==> (#[trigger] decoded@[k]) is Ok {
        lemma_all_kept(decoded@);
    }
}

/// Whether a job on the wire can be decoded: it has an id, a type, a priority in
/// range and times that can be represented, and all of its custom values are
/// set.
pub open spec fn is_whole(j: pb::Job) -> bool {
    &&& j.id@.len() > 0
    &&& j.job_type@.len() > 0
    &&& j.priority <= 9
    &&& j.enqueued_at >= 0
    &&& exists|u: SystemTime| #[trigger] time::system_time_nanos(u) == j.enqueued_at * 1_000_000
    &&& j.lease_expires_at >= 0
    &&& exists|u: SystemTime| #[trigger]
        time::system_time_nanos(u) == j.lease_expires_at * 1_000_000
    &&& forall|k: Seq<char>| #[trigger] j.custom@.contains_key(k) ==> j.custom@[k].value is Some
}

/// A response of jobs that can all be decoded is handed out whole, in order.
pub proof fn a_whole_response_is_handed_out_in_order(
    response: pb::ReserveResponse,
    worker_id: Option<&str>,
    r: Reserved,
    i: int,
)
    requires
        call_ensures(reserved_jobs, (response, worker_id), r),
        0 <= i < response.jobs@.len(),
        forall|k: int| 0 <= k < response.jobs@.len() ==> is_whole(#[trigger] response.jobs@[k]),
    ensures
        r.skipped@.len() == 0,
        r.jobs matches Some(jobs) && jobs@.len() == response.jobs@.len(),
        job::job_read(Ok(r.jobs->0@[i]), response.jobs@[i], crate::text::opt_str(worker_id)),
{
    let decoded = choose|decoded: Seq<Result<Job, JobConversionError>>| #[trigger]
        calls::all_read(decoded, response.jobs@, crate::text::opt_str(worker_id))
            && calls::is_reserved(r, decoded);
    assert forall|k: int| 0 <= k < decoded.len() implies (#[trigger] decoded[k]) is Ok by {
        assert(is_whole(response.jobs@[k]));
        job::job_read_succeeds(decoded[k], response.jobs@[k], crate::text::opt_str(worker_id));
    }
    calls::malformed_spoils_nothing(decoded);
    lemma_all_kept(decoded);
    assert(decoded[i] is Ok);
}

/// Whether each job of a response is read as given.
pub open spec fn reads_as(
    decoded: Seq<Result<Job, JobConversionError>>,
    jobs: Seq<pb::Job>,
    worker_id: Option<Seq<char>>,
) -> bool {
    decoded.len() == jobs.len() && forall|i: int|
        0 <= i < jobs.len() ==> job::job_read(#[trigger] decoded[i], jobs[i], worker_id)
}

/// The jobs of a response are handed out in the order in which the server sent
/// them, those that could not be decoded left out.
pub proof fn reserved_jobs_keep_their_order(
    response: pb::ReserveResponse,
    worker_id: Option<&str>,
    r: Reserved,
)
    requires
        call_ensures(reserved_jobs, (response, worker_id), r),
    ensures
        exists|decoded: Seq<Result<Job, JobConversionError>>| #[trigger]
            reads_as(decoded, response.jobs@, crate::text::opt_str(worker_id)) && calls::errs(
                decoded,
            ) == r.skipped@ && calls::oks(decoded) == match r.jobs {
                Some(jobs) => jobs@,
                None => Seq::<Job>::empty(),
            },
{
    let decoded = choose|decoded: Seq<Result<Job, JobConversionError>>| #[trigger]
        calls::all_read(decoded, response.jobs@, crate::text::opt_str(worker_id))
            && calls::is_reserved(r, decoded);
    assert(reads_as(decoded, response.jobs@, crate::text::opt_str(worker_id)));
    if r.jobs is None {
        assert(calls::oks(decoded) =~= Seq::<Job>::empty());
    }
}

/// A job that can be decoded is never skipped, whatever else is in the response,
/// and one that cannot be is told of. Nothing else comes out.
pub proof fn no_job_that_can_be_decoded_is_skipped(
    response: pb::ReserveResponse,
    worker_id: Option<&str>,
    r: Reserved,
    i: int,
)
    requires
        call_ensures(reserved_jobs, (response, worker_id), r),
        0 <= i < response.jobs@.len(),
    ensures
        r.jobs matches Some(jobs) ==> jobs@.len() > 0 && jobs@.len() + r.skipped@.len()
            == response.jobs@.len(),
        r.jobs is None ==> r.skipped@.len() == response.jobs@.len(),
        is_whole(response.jobs@[i]) ==> (r.jobs matches Some(jobs) && exists|job: Job| #[trigger]
            jobs@.contains(job) && job::job_read(
                Ok(job),
                response.jobs@[i],
                crate::text::opt_str(worker_id),
            )),
        !is_whole(response.jobs@[i]) ==> exists|e: JobConversionError| #[trigger]
            r.skipped@.contains(e) && job::job_read(
                Err(e),
                response.jobs@[i],
                crate::text::opt_str(worker_id),
            ),
{
    let id = crate::text::opt_str(worker_id);
    let decoded = choose|decoded: Seq<Result<Job, JobConversionError>>| #[trigger]
        calls::all_read(decoded, response.jobs@, id) && calls::is_reserved(r, decoded);
    calls::malformed_spoils_nothing(decoded);
    assert(job::job_read(decoded[i], response.jobs@[i], id));
    job::job_read_succeeds(decoded[i], response.jobs@[i], id);
    if decoded[i] is Ok {
        assert(r.jobs->0@.contains(decoded[i]->Ok_0));
    } else {
        assert(r.skipped@.contains(decoded[i]->Err_0));
    }
}

/// A job is read exactly where it is whole. What is read is what the server
/// sent: its name and its counts, its payload byte for byte, its custom values,
/// its times to the millisecond, and a lease on this delivery for this worker.
pub proof fn a_read_job_is_what_the_server_sent(
    j: pb::Job,
    worker_id: Option<Seq<char>>,
    r: Result<Job, JobConversionError>,
    key: Seq<char>,
)
    requires
        job::job_read(r, j, worker_id),
    ensures
        r is Ok <==> is_whole(j),
        r matches Ok(job) ==> job.ctx.id@ == j.id@ && job.ctx.job_type@ == j.job_type@,
        r matches Ok(job) ==> job.ctx.priority@ == j.priority,
        r matches Ok(job) ==> job.ctx.attempt == j.attempt && job.ctx.max_attempts
            == j.max_attempts,
        r matches Ok(job) ==> time::system_time_nanos(job.ctx.enqueued_at) == j.enqueued_at
            * 1_000_000,
        r matches Ok(job) ==> time::system_time_nanos(job.ctx.lease_expires_at)
            == j.lease_expires_at * 1_000_000,
        r matches Ok(job) ==> (job.payload is Some <==> j.payload is Some),
        r matches Ok(job) ==> (j.payload matches Some(p) ==> job.payload->0.data@ == p.data@
            && job.payload->0.encoding@ == p.encoding@),
        r matches Ok(job) ==> (job.ctx.custom@.contains_key(key) <==> j.custom@.contains_key(key)),
        r matches Ok(job) ==> j.custom@.contains_key(key) ==> enqueuing::carries(
            j.custom@[key],
            job.ctx.custom@[key],
        ),
        r matches Ok(job) ==> job.ctx.lease@.job_id == j.id@ && job.ctx.lease@.attempt == j.attempt,
        r matches Ok(job) ==> job.ctx.lease@.worker_id == worker_id,
{
    job::job_read_succeeds(r, j, worker_id);
}

/// A job is decoded exactly where it is whole. What is decoded is what the
/// server sent: its name and its counts, its payload byte for byte, its custom
/// values, its times to the millisecond, and a lease on this delivery for this
/// worker.
pub proof fn a_decoded_job_is_what_the_server_sent(
    j: pb::Job,
    worker_id: Option<&str>,
    r: Result<Job, JobConversionError>,
    key: Seq<char>,
)
    requires
        call_ensures(job_from_pb, (j, worker_id), r),
    ensures
        r is Ok <==> is_whole(j),
        r matches Ok(job) ==> job.ctx.id@ == j.id@ && job.ctx.job_type@ == j.job_type@,
        r matches Ok(job) ==> job.ctx.priority@ == j.priority,
        r matches Ok(job) ==> job.ctx.attempt == j.attempt && job.ctx.max_attempts
            == j.max_attempts,
        r matches Ok(job) ==> time::system_time_nanos(job.ctx.enqueued_at) == j.enqueued_at
            * 1_000_000,
        r matches Ok(job) ==> time::system_time_nanos(job.ctx.lease_expires_at)
            == j.lease_expires_at * 1_000_000,
        r matches Ok(job) ==> (job.payload is Some <==> j.payload is Some),
        r matches Ok(job) ==> (j.payload matches Some(p) ==> job.payload->0.data@ == p.data@
            && job.payload->0.encoding@ == p.encoding@),
        r matches Ok(job) ==> (job.ctx.custom@.contains_key(key) <==> j.custom@.contains_key(key)),
        r matches Ok(job) ==> j.custom@.contains_key(key) ==> enqueuing::carries(
            j.custom@[key],
            job.ctx.custom@[key],
        ),
        r matches Ok(job) ==> job.ctx.lease@.job_id == j.id@ && job.ctx.lease@.attempt == j.attempt,
        r matches Ok(job) ==> (job.ctx.lease@.worker_id is Some <==> worker_id is Some),
        r matches Ok(job) ==> (worker_id matches Some(id) ==> job.ctx.lease@.worker_id == Some(
            id@,
        )),
{
    a_read_job_is_what_the_server_sent(j, crate::text::opt_str(worker_id), r, key);
}

/// A job hands on its trace context where that is well-formed, and is decoded
/// without one where it is not.
pub proof fn a_decoded_job_carries_its_trace(
    j: pb::Job,
    worker_id: Option<&str>,
    job: Job,
)
    requires
        call_ensures(job_from_pb, (j, worker_id), Ok::<Job, JobConversionError>(job)),
    ensures
        job.ctx.trace_context is Some <==> (j.trace_context matches Some(tc)
            && trace::valid_traceparent(tc.traceparent@)),
        job.ctx.trace_context matches Some(t) ==> t@.traceparent
            == j.trace_context->0.traceparent@,
        job.ctx.trace_context matches Some(t) ==> (t@.tracestate is Some
            <==> j.trace_context->0.tracestate is Some),
        job.ctx.trace_context matches Some(t) ==> (t@.tracestate matches Some(s) ==> s
            == j.trace_context->0.tracestate->0@),
{
}

/// What is wrong with a job is told by the first fault: an empty id, an empty
/// type, a priority out of range, a time that cannot be represented, or a custom
/// value that is not set.
pub proof fn a_malformed_job_is_refused_for_its_first_fault(
    j: pb::Job,
    worker_id: Option<&str>,
    e: JobConversionError,
)
    requires
        call_ensures(job_from_pb, (j, worker_id), Err::<Job, JobConversionError>(e)),
    ensures
        e matches JobConversionError::MissingField(f) ==> (f@ == "id"@ && j.id@.len() == 0) || (f@
            == "job_type"@ && j.id@.len() > 0 && j.job_type@.len() == 0),
        j.id@.len() == 0 || j.job_type@.len() == 0 <==> e is MissingField,
        e is PriorityOutOfRange <==> j.id@.len() > 0 && j.job_type@.len() > 0 && j.priority > 9,
        e matches JobConversionError::PriorityOutOfRange(p) ==> p == j.priority,
        e matches JobConversionError::InvalidTimestamp { field, value } ==> (field@
            == "enqueued_at"@ && value == j.enqueued_at && (j.enqueued_at < 0 || !exists|
            u: SystemTime,
        | #[trigger] time::system_time_nanos(u) == j.enqueued_at * 1_000_000)) || (field@
            == "lease_expires_at"@ && value == j.lease_expires_at && (j.lease_expires_at < 0
            || !exists|u: SystemTime| #[trigger]
            time::system_time_nanos(u) == j.lease_expires_at * 1_000_000)),
        e matches JobConversionError::EmptyCustomValue(k) ==> j.custom@.contains_key(k@)
            && j.custom@[k@].value is None,
        ({
            let enqueued = j.enqueued_at >= 0 && exists|u: SystemTime| #[trigger]
                time::system_time_nanos(u) == j.enqueued_at * 1_000_000;
            let leased = j.lease_expires_at >= 0 && exists|u: SystemTime| #[trigger]
                time::system_time_nanos(u) == j.lease_expires_at * 1_000_000;
            &&& e is InvalidTimestamp <==> j.id@.len() > 0 && j.job_type@.len() > 0 && j.priority
                <= 9 && !(enqueued && leased)
            &&& e is EmptyCustomValue <==> j.id@.len() > 0 && j.job_type@.len() > 0 && j.priority
                <= 9 && enqueued && leased
            &&& e is InvalidTimestamp && !enqueued ==> e->field@ == "enqueued_at"@
            &&& e is InvalidTimestamp && enqueued ==> e->field@ == "lease_expires_at"@
        }),
        e is MissingField && j.id@.len() == 0 ==> e->MissingField_0@ == "id"@,
{
    assert(j.enqueued_at >= 0 && time::can_hold(j.enqueued_at * 1_000_000) <==> j.enqueued_at >= 0
        && exists|u: SystemTime| #[trigger]
        time::system_time_nanos(u) == j.enqueued_at * 1_000_000);
    assert(j.lease_expires_at >= 0 && time::can_hold(j.lease_expires_at * 1_000_000)
        <==> j.lease_expires_at >= 0 && exists|u: SystemTime| #[trigger]
        time::system_time_nanos(u) == j.lease_expires_at * 1_000_000);
}

/// A job whose times were read as given is decoded exactly where both were and
/// the rest of it is in order, and has those times.
pub proof fn a_job_has_the_times_that_were_read(
    j: pb::Job,
    enqueued_at: Option<SystemTime>,
    lease_expires_at: Option<SystemTime>,
    worker_id: Option<&str>,
    r: Result<Job, JobConversionError>,
)
    requires
        call_ensures(job::job_with_times, (j, enqueued_at, lease_expires_at, worker_id), r),
    ensures
        r is Ok <==> j.id@.len() > 0 && j.job_type@.len() > 0 && j.priority <= 9
            && enqueued_at is Some && lease_expires_at is Some && (forall|k: Seq<char>| #[trigger]
            j.custom@.contains_key(k) ==> j.custom@[k].value is Some),
        r matches Ok(job) ==> enqueued_at == Some(job.ctx.enqueued_at) && lease_expires_at == Some(
            job.ctx.lease_expires_at,
        ),
        r matches Ok(job) ==> job.ctx.id@ == j.id@ && job.ctx.job_type@ == j.job_type@
            && job.ctx.priority@ == j.priority && job.ctx.attempt == j.attempt
            && job.ctx.max_attempts == j.max_attempts,
        r matches Ok(job) ==> job.ctx.lease@.job_id == j.id@ && job.ctx.lease@.attempt == j.attempt,
{
}

/// A server whose time was read as given is taken exactly where that was and it
/// has a version, and has that time.
pub proof fn a_server_has_the_time_that_was_read(
    w: pb::GetServerInfoResponse,
    at: Option<SystemTime>,
    r: Result<ServerInfo, ServerInfoError>,
)
    requires
        call_ensures(server_info::server_info_with_time, (w, at), r),
    ensures
        r is Ok <==> w.server_version@.len() > 0 && at is Some,
        r matches Ok(i) ==> at == Some(i.server_time) && i.version@ == w.server_version@,
        r matches Err(e) ==> (e is MissingField <==> w.server_version@.len() == 0),
{
}

/// A server's answer about itself is read exactly where it has a version and a
/// time that can be represented, and says what the server said.
pub proof fn server_info_is_what_the_server_said(
    w: pb::GetServerInfoResponse,
    r: Result<ServerInfo, ClientError>,
)
    requires
        call_ensures(server_info_result, (w,), r),
    ensures
        r is Ok <==> w.server_version@.len() > 0 && w.server_time_ms >= 0 && (exists|u: SystemTime|
         #[trigger] time::system_time_nanos(u) == w.server_time_ms * 1_000_000),
        r matches Err(e) ==> (e matches ClientError::MalformedServerInfo(f) && match f {
            ServerInfoError::MissingField(name) => w.server_version@.len() == 0 && name@
                == "server_version"@,
            ServerInfoError::InvalidServerTime(ms) => w.server_version@.len() > 0 && ms
                == w.server_time_ms,
        }),
        r matches Ok(i) ==> i.version@ == w.server_version@,
        r matches Ok(i) ==> i.supported_protocol_versions@ == w.supported_protocol_versions@,
        r matches Ok(i) ==> time::system_time_nanos(i.server_time) == w.server_time_ms * 1_000_000,
        r matches Ok(i) ==> i.restricts_encodings == w.restricts_encodings,
        r matches Ok(i) ==> i.allowed_encodings@ == w.allowed_encodings@,
        r matches Ok(i) ==> i.max_payload_size == w.max_payload_bytes,
        r matches Ok(i) ==> i.max_custom_entries == w.max_custom_entries,
        r matches Ok(i) ==> i.max_custom_total_bytes == w.max_custom_total_bytes,
        r matches Ok(i) ==> i.max_custom_key_bytes == w.max_custom_key_bytes,
        r matches Ok(i) ==> i.max_queue_name_bytes == w.max_queue_name_bytes,
        r matches Ok(i) ==> i.max_job_type_bytes == w.max_job_type_bytes,
        r matches Ok(i) ==> i.max_idempotency_key_bytes == w.max_idempotency_key_bytes,
        r matches Ok(i) ==> i.max_schedule_horizon_ms == w.max_schedule_horizon_ms,
        r matches Ok(i) ==> i.max_enqueue_batch == w.max_enqueue_batch,
        r matches Ok(i) ==> i.max_reserve_batch == w.max_reserve_batch,
        r matches Ok(i) ==> i.max_reserve_queues == w.max_reserve_queues,
        r matches Ok(i) ==> i.max_wait_timeout_ms == w.max_wait_timeout_ms,
        r matches Ok(i) ==> i.max_lease_duration_ms == w.max_lease_duration_ms,
        r matches Ok(i) ==> i.strict_queues == w.strict_queues,
{
    match r {
        Ok(i) => {
            server_info::server_info_read_succeeds(Ok(i), w);
        },
        Err(ClientError::MalformedServerInfo(f)) => {
            server_info::server_info_read_succeeds(Err(f), w);
        },
        Err(_) => {},
    }
}

/// A drain asks for as many jobs as were asked for, of the queue that was named
/// or of all, and none is made for none.
pub proof fn a_drain_asks_for_what_was_asked_for(
    queue: Option<&str>,
    max: u32,
    r: Option<pb::DrainDeadLettersRequest>,
)
    requires
        call_ensures(drain_request, (queue, max), r),
    ensures
        r is Some <==> max > 0,
        r matches Some(q) ==> q.max == Some(max),
        r matches Some(q) ==> (q.queue is Some <==> queue is Some),
        r matches Some(q) ==> (queue matches Some(name) ==> q.queue->0@ == name@),
{
}

/// A time is written in the milliseconds that it lies in, and one before the
/// epoch as zero, or as none.
pub proof fn a_time_is_written_in_its_milliseconds(t: SystemTime, ms: i64, r: Option<i64>)
    requires
        call_ensures(system_time_to_millis, (t,), ms),
        call_ensures(system_time_to_epoch_millis, (t,), r),
    ensures
        time::system_time_nanos(t) < 0 ==> ms == 0 && r is None,
        time::system_time_nanos(t) >= 0 ==> r == Some(ms),
        time::system_time_nanos(t) >= 0 ==> (time::system_time_nanos(t) / 1_000_000 - ms)
            % 0x1_0000_0000_0000_0000 == 0,
        0 <= time::system_time_nanos(t) < 0x8000_0000_0000_0000 * 1_000_000 ==> ms * 1_000_000
            <= time::system_time_nanos(t) < (ms + 1) * 1_000_000,
{
}

/// Milliseconds are read as the time that they stand for, wherever it can be
/// represented, and negative ones are not read.
pub proof fn milliseconds_are_read_as_their_time(ms: i64, r: Option<SystemTime>)
    requires
        call_ensures(millis_to_system_time, (ms,), r),
    ensures
        r is Some <==> ms >= 0 && (exists|u: SystemTime| #[trigger]
            time::system_time_nanos(u) == ms * 1_000_000),
        r matches Some(t) ==> time::system_time_nanos(t) == ms * 1_000_000,
{
}

/// A timestamp is read to the millisecond, wherever it is normal, lies at or
/// after the epoch, and can be represented.
pub proof fn a_timestamp_is_read_to_the_millisecond(
    ts: Option<pb::Timestamp>,
    r: Option<SystemTime>,
)
    requires
        call_ensures(timestamp_to_system_time, (ts,), r),
    ensures
        ts is None ==> r is None,
        ts matches Some(s) ==> s.seconds < 0 || s.nanos < 0 || s.nanos >= 1_000_000_000
            ==> r is None,
        ts matches Some(s) ==> s.seconds >= 0 && 0 <= s.nanos < 1_000_000_000 && (exists|
            u: SystemTime,
        | #[trigger] time::system_time_nanos(u) == s.seconds * 1_000_000_000 + s.nanos)
            ==> r is Some,
        r matches Some(t) ==> ts is Some && time::system_time_nanos(t) / 1_000_000 == (
        ts->0.seconds * 1_000_000_000 + ts->0.nanos) / 1_000_000,
        r matches Some(t) ==> ts->0.nanos % 1_000_000 == 0 ==> time::system_time_nanos(t)
            == ts->0.seconds * 1_000_000_000 + ts->0.nanos,
{
}

/// The clock is read as any other time is: in its milliseconds, and in its
/// nanoseconds where it is at or after the epoch.
pub proof fn the_clock_is_read_as_a_time(ms: i64, r: Option<u128>)
    requires
        call_ensures(time::now_millis, (), ms),
        call_ensures(time::since_epoch_nanos, (), r),
    ensures
        exists|t: SystemTime| #[trigger]
            call_ensures(SystemTime::now, (), t) && (time::system_time_nanos(t) < 0 ==> ms == 0)
                && (0 <= time::system_time_nanos(t) < 0x8000_0000_0000_0000 * 1_000_000 ==> ms
                * 1_000_000 <= time::system_time_nanos(t) < (ms + 1) * 1_000_000),
        exists|t: SystemTime| #[trigger]
            call_ensures(SystemTime::now, (), t) && (r is Some <==> time::system_time_nanos(t) >= 0)
                && (r matches Some(n) ==> n == time::system_time_nanos(t)),
{
    let t = choose|t: SystemTime| #[trigger]
        call_ensures(SystemTime::now, (), t) && ms == time::epoch_millis(t);
    assert(call_ensures(SystemTime::now, (), t));
}

/// A duration is written in its whole milliseconds, and the longer of two is
/// the longer.
pub proof fn a_duration_is_written_in_its_milliseconds(
    d: Duration,
    ms: u64,
    other: Duration,
    l: Duration,
)
    requires
        call_ensures(duration_to_millis, (d,), ms),
        call_ensures(longer, (d, other), l),
    ensures
        time::duration_nanos(d) < 0x1_0000_0000_0000_0000 * 1_000_000 ==> ms * 1_000_000
            <= time::duration_nanos(d) < (ms + 1) * 1_000_000,
        (time::duration_nanos(d) / 1_000_000 - ms) % 0x1_0000_0000_0000_0000 == 0,
        time::duration_nanos(l) >= time::duration_nanos(d),
        time::duration_nanos(l) >= time::duration_nanos(other),
        l == d || l == other,
{
}

} // verus!
