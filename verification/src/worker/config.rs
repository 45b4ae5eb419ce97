//! Configuring a worker.
use std::time::Duration;
use vstd::prelude::*;

use crate::reserve::{self, ReserveOptions, ReserveOptionsError, ReserveOptionsView};
use crate::string_map::StringMap;
use crate::text::{self, debug_duration, debug_string};
use crate::time::{self, longer};
use crate::worker::identity::{self, default_worker_id};

verus! {

/// The error a job handler returns to nack its job, choosing how it should be
/// retried.
///
/// Use the [`retry`](Self::retry), [`retry_after`](Self::retry_after), and
/// [`permanent`](Self::permanent) constructors rather than the variants
/// directly.
#[derive(Debug)]
pub enum HandlerError {
    /// Retry using the queue's default retry policy.
    Retry(String),
    /// Retry, but not before the given delay.
    RetryAfter(String, Duration),
    /// Do not retry; dead-letter the job immediately.
    Permanent(String),
}

impl HandlerError {
    /// Nack the job for retry under the queue's default policy.
    pub fn retry(reason: &str) -> (e: Self)
        ensures
            e matches HandlerError::Retry(r) && r@ == reason@,
    {
        HandlerError::Retry(reason.to_owned())
    }

    /// Nack the job for retry after at least `delay`.
    pub fn retry_after(reason: &str, delay: Duration) -> (e: Self)
        ensures
            e matches HandlerError::RetryAfter(r, d) && r@ == reason@ && d == delay,
    {
        HandlerError::RetryAfter(reason.to_owned(), delay)
    }

    /// Nack the job as a permanent failure, sending it straight to the
    /// dead-letter queue.
    pub fn permanent(reason: &str) -> (e: Self)
        ensures
            e matches HandlerError::Permanent(r) && r@ == reason@,
    {
        HandlerError::Permanent(reason.to_owned())
    }

    /// The message of this error.
    pub open spec fn message(self) -> Seq<char> {
        match self {
            HandlerError::Retry(r) => "retry: "@ + r@,
            HandlerError::RetryAfter(r, d) => "retry after "@ + text::duration_debug(
                time::duration_nanos(d),
            ) + ": "@ + r@,
            HandlerError::Permanent(r) => "permanent: "@ + r@,
        }
    }

    /// Writes the message of this error.
    pub fn to_string(&self) -> (s: String)
        ensures
            s@ == self.message(),
    {
        match self {
            HandlerError::Retry(r) => "retry: ".to_owned().concat(r.as_str()),
            HandlerError::RetryAfter(r, d) => "retry after ".to_owned().concat(
                debug_duration(*d).as_str(),
            ).concat(": ").concat(r.as_str()),
            HandlerError::Permanent(r) => "permanent: ".to_owned().concat(r.as_str()),
        }
    }
}

/// Returned by the [`Worker`] builder methods on invalid configuration.
#[derive(Debug)]
pub enum WorkerBuilderError {
    /// [`handle`](Worker::handle) was called twice for the same job type. Use
    /// [`replace_handler`](Worker::replace_handler) to overwrite intentionally.
    DuplicateHandler(String),
    /// The underlying reserve options were invalid (e.g. an empty queue or
    /// worker id).
    ReserveOptions(ReserveOptionsError),
}

impl WorkerBuilderError {
    /// The message of this error.
    pub open spec fn message(self) -> Seq<char> {
        match self {
            WorkerBuilderError::DuplicateHandler(t) => "handler for job_type "@ + text::str_debug(
                t@,
            ) + " is already registered"@,
            WorkerBuilderError::ReserveOptions(e) => e.message(),
        }
    }

    /// Writes the message of this error.
    pub fn to_string(&self) -> (s: String)
        ensures
            s@ == self.message(),
    {
        match self {
            WorkerBuilderError::DuplicateHandler(t) => "handler for job_type ".to_owned().concat(
                debug_string(t.as_str()).as_str(),
            ).concat(" is already registered"),
            WorkerBuilderError::ReserveOptions(e) => e.to_string(),
        }
    }
}

impl From<ReserveOptionsError> for WorkerBuilderError {
    fn from(e: ReserveOptionsError) -> (r: Self) {
        WorkerBuilderError::ReserveOptions(e)
    }
}

impl vstd::std_specs::convert::FromSpecImpl<ReserveOptionsError> for WorkerBuilderError {
    open spec fn obeys_from_spec() -> bool {
        true
    }

    open spec fn from_spec(e: ReserveOptionsError) -> Self {
        WorkerBuilderError::ReserveOptions(e)
    }
}

/// How leases are kept alive while handlers run.
///
/// Without an explicit interval, each one follows from the lease that was
/// granted, not from the one that was requested: the server may grant less, and
/// an interval that follows the request could outlast the lease.
#[derive(Debug, Copy)]
pub struct AutoExtend {
    /// The time between two extensions, where it was given.
    pub explicit_interval: Option<Duration>,
    /// How far a lease is extended.
    pub extend_by: Duration,
}

impl Clone for AutoExtend {
    fn clone(&self) -> (r: Self)
        ensures
            r == *self,
    {
        *self
    }
}

/// What a worker under configuration holds.
pub struct WorkerView<H> {
    pub opts: ReserveOptionsView,
    pub handlers: Map<Seq<char>, H>,
    pub catch_all_handler: Option<H>,
    pub max_in_flight: usize,
    pub reserve_error_backoff: Duration,
    pub auto_extend: Option<AutoExtend>,
}

/// A job-processing loop under configuration, with handlers of type `H`.
///
/// Queues and lease duration are given to [`new`](Self::new); then come `with_*`
/// tuning and one [`handle`](Self::handle) call per job type.
///
/// A job whose `job_type` has no registered handler is nacked for retry with an
/// attempt-based backoff (`min(2^attempt, 60)` seconds), so a worker that does
/// have the handler can pick it up instead of this worker burning through the
/// job's attempts.
///
/// Every value waits for jobs for some time and asks for at least one: a server
/// would answer at once, or refuse, where a worker did not.
pub struct Worker<H> {
    opts: ReserveOptions,
    handlers: StringMap<H>,
    catch_all_handler: Option<H>,
    max_in_flight: usize,
    reserve_error_backoff: Duration,
    auto_extend: Option<AutoExtend>,
}

impl<H> View for Worker<H> {
    type V = WorkerView<H>;

    closed spec fn view(&self) -> WorkerView<H> {
        WorkerView {
            opts: self.opts@,
            handlers: self.handlers@,
            catch_all_handler: self.catch_all_handler,
            max_in_flight: self.max_in_flight,
            reserve_error_backoff: self.reserve_error_backoff,
            auto_extend: self.auto_extend,
        }
    }
}

/// Whether a worker is as [`Worker::new`] makes it.
pub open spec fn is_new_worker<H>(
    w: WorkerView<H>,
    queues: Seq<Seq<char>>,
    lease_duration: Duration,
    host: Seq<char>,
    pid: u32,
) -> bool {
    &&& w.opts.queues == queues
    &&& w.opts.lease_duration == lease_duration
    &&& time::duration_nanos(w.opts.wait_timeout) == 30_000_000_000
    &&& w.opts.max_jobs is None
    &&& w.opts.worker_id matches Some(id) && identity::is_worker_id(id, host, pid)
    &&& w.handlers == Map::<Seq<char>, H>::empty()
    &&& w.catch_all_handler is None
    &&& w.max_in_flight == 16
    &&& time::duration_nanos(w.reserve_error_backoff) == 1_000_000_000
    &&& w.auto_extend is None
}

/// The handler for a job type: the one registered for it, or else the catch-all
/// handler.
pub open spec fn route_of<H>(w: WorkerView<H>, job_type: Seq<char>) -> Option<H> {
    if w.handlers.contains_key(job_type) {
        Some(w.handlers[job_type])
    } else {
        w.catch_all_handler
    }
}

/// How many jobs to ask for where `free` more can be processed: no more than
/// that, nor than the user allows.
pub open spec fn jobs_to_request(user_max: Option<u32>, free: nat) -> u32 {
    let capacity: u32 = if free > u32::MAX {
        u32::MAX
    } else {
        free as u32
    };
    match user_max {
        Some(m) => if m < capacity {
            m
        } else {
            capacity
        },
        None => capacity,
    }
}

/// Whether reserve options wait for jobs for some time and ask for at least one.
pub open spec fn is_polite(o: ReserveOptionsView) -> bool {
    &&& time::duration_nanos(o.wait_timeout) > 0
    &&& o.max_jobs matches Some(n) ==> n >= 1
}

impl<H> Worker<H> {
    #[verifier::type_invariant]
    spec fn inv(self) -> bool {
        is_polite(self.opts@)
    }

    /// Creates a worker that reserves from `queues` with the given lease
    /// duration, on the given machine and process.
    ///
    /// Sensible defaults are applied: up to 16 jobs in flight, a 1s backoff
    /// after a failed reserve, no lease auto-extension, and a generated
    /// [`worker_id`](Self::with_worker_id) derived from the machine's name and
    /// the process id.
    pub fn new(queues: Vec<String>, lease_duration: Duration, host: &str, pid: u32) -> (r: Result<
        Self,
        WorkerBuilderError,
    >)
        ensures
            match r {
                Ok(w) => {
                    &&& reserve::reserve_fault(
                        text::texts(queues@),
                        time::duration_nanos(lease_duration),
                    ) is None
                    &&& is_new_worker(w@, text::texts(queues@), lease_duration, host@, pid)
                },
                Err(WorkerBuilderError::ReserveOptions(e)) => reserve::reserve_fault(
                    text::texts(queues@),
                    time::duration_nanos(lease_duration),
                ) == Some(e),
                Err(_) => false,
            },
    {
        let opts = match ReserveOptions::new(queues, lease_duration) {
            Ok(o) => o,
            Err(e) => {
                return Err(WorkerBuilderError::ReserveOptions(e));
            },
        };
        let id = default_worker_id(host, pid);
        let opts = match opts.with_worker_id(id.as_str()) {
            Ok(o) => o,
            Err(e) => {
                return Err(WorkerBuilderError::ReserveOptions(e));
            },
        };
        Ok(
            Worker {
                opts,
                handlers: StringMap::new(),
                catch_all_handler: None,
                max_in_flight: 16,
                reserve_error_backoff: Duration::from_secs(1),
                auto_extend: None,
            },
        )
    }

    /// Sets the long-poll wait timeout for each reserve, which must not be
    /// zero: the server would answer every reserve immediately, turning the
    /// poll loop into back-to-back calls.
    pub fn with_wait_timeout(self, wait: Duration) -> (r: Self)
        requires
            time::duration_nanos(wait) > 0,
        ensures
            r@ == (WorkerView {
                opts: ReserveOptionsView { wait_timeout: wait, ..self@.opts },
                ..self@
            }),
    {
        proof {
            use_type_invariant(&self);
        }
        Worker {
            opts: self.opts.with_wait_timeout(wait),
            handlers: self.handlers,
            catch_all_handler: self.catch_all_handler,
            max_in_flight: self.max_in_flight,
            reserve_error_backoff: self.reserve_error_backoff,
            auto_extend: self.auto_extend,
        }
    }

    /// Caps how many jobs a single reserve may return, which must be at least
    /// one: the server would reject every reserve. The worker already limits
    /// this to its free in-flight capacity, so set this only to request fewer.
    pub fn with_max_jobs(self, max: u32) -> (r: Self)
        requires
            max >= 1,
        ensures
            r@ == (WorkerView {
                opts: ReserveOptionsView { max_jobs: Some(max), ..self@.opts },
                ..self@
            }),
    {
        proof {
            use_type_invariant(&self);
        }
        Worker {
            opts: self.opts.with_max_jobs(max),
            handlers: self.handlers,
            catch_all_handler: self.catch_all_handler,
            max_in_flight: self.max_in_flight,
            reserve_error_backoff: self.reserve_error_backoff,
            auto_extend: self.auto_extend,
        }
    }

    /// Enables automatic lease extension while a handler runs, using a
    /// heartbeat interval of one third of the granted lease. Use with caution:
    /// if the handler hangs indefinitely, the lease will be extended forever.
    ///
    /// If the server reassigns the lease anyway, the handler is aborted to
    /// avoid double processing.
    pub fn with_auto_extend(self) -> (r: Self)
        ensures
            r@ == (WorkerView {
                auto_extend: Some(
                    AutoExtend {
                        explicit_interval: None,
                        extend_by: self@.opts.lease_duration,
                    },
                ),
                ..self@
            }),
    {
        proof {
            use_type_invariant(&self);
        }
        let extend_by = self.opts.lease_duration();
        Worker { auto_extend: Some(AutoExtend { explicit_interval: None, extend_by }), ..self }
    }

    /// Like [`with_auto_extend`](Self::with_auto_extend) but with an explicit
    /// heartbeat interval (floored at 1ms). The interval should be comfortably
    /// shorter than the lease duration.
    pub fn with_auto_extend_interval(self, interval: Duration) -> (r: Self)
        ensures
            r@ == (WorkerView { auto_extend: r@.auto_extend, ..self@ }),
            r@.auto_extend matches Some(cfg) && cfg.extend_by == self@.opts.lease_duration && (
            cfg.explicit_interval matches Some(i) && time::duration_nanos(i) == if
                time::duration_nanos(interval) > 1_000_000 {
                time::duration_nanos(interval)
            } else {
                1_000_000
            }),
    {
        proof {
            use_type_invariant(&self);
        }
        let extend_by = self.opts.lease_duration();
        let floored = longer(interval, Duration::from_millis(1));
        Worker {
            auto_extend: Some(AutoExtend { explicit_interval: Some(floored), extend_by }),
            ..self
        }
    }

    /// Sets the maximum number of jobs processed concurrently (default 16).
    /// Values below 1 are treated as 1.
    pub fn with_max_in_flight(self, max_in_flight: usize) -> (r: Self)
        ensures
            r@ == (WorkerView { max_in_flight, ..self@ }),
    {
        proof {
            use_type_invariant(&self);
        }
        Worker { max_in_flight, ..self }
    }

    /// Sets how long to wait after a failed reserve before retrying (default
    /// 1s), preventing a hot loop when the server is unreachable.
    pub fn with_reserve_error_backoff(self, backoff: Duration) -> (r: Self)
        ensures
            r@ == (WorkerView { reserve_error_backoff: backoff, ..self@ }),
    {
        proof {
            use_type_invariant(&self);
        }
        Worker { reserve_error_backoff: backoff, ..self }
    }

    /// Overrides the auto-generated worker id. Must be non-empty.
    pub fn with_worker_id(self, worker_id: &str) -> (r: Result<Self, WorkerBuilderError>)
        ensures
            match r {
                Ok(w) => worker_id@.len() > 0 && w@ == (WorkerView {
                    opts: ReserveOptionsView { worker_id: Some(worker_id@), ..self@.opts },
                    ..self@
                }),
                Err(e) => worker_id@.len() == 0 && e == WorkerBuilderError::ReserveOptions(
                    ReserveOptionsError::EmptyWorkerId,
                ),
            },
    {
        proof {
            use_type_invariant(&self);
        }
        match self.opts.with_worker_id(worker_id) {
            Ok(opts) => Ok(
                Worker {
                    opts,
                    handlers: self.handlers,
                    catch_all_handler: self.catch_all_handler,
                    max_in_flight: self.max_in_flight,
                    reserve_error_backoff: self.reserve_error_backoff,
                    auto_extend: self.auto_extend,
                },
            ),
            Err(e) => Err(WorkerBuilderError::ReserveOptions(e)),
        }
    }

    /// Registers the handler for a `job_type`. A second one for the same type
    /// is an error.
    pub fn handle(self, job_type: &str, h: H) -> (r: Result<Self, WorkerBuilderError>)
        ensures
            match r {
                Ok(w) => !self@.handlers.contains_key(job_type@) && w@ == (WorkerView {
                    handlers: self@.handlers.insert(job_type@, h),
                    ..self@
                }),
                Err(e) => self@.handlers.contains_key(job_type@) && (
                e matches WorkerBuilderError::DuplicateHandler(t) && t@ == job_type@),
            },
    {
        if self.handlers.contains_key(job_type) {
            return Err(WorkerBuilderError::DuplicateHandler(job_type.to_owned()));
        }
        Ok(self.replace_handler(job_type, h))
    }

    /// Registers a catch-all handler for job types without a specific handler.
    pub fn with_catch_all_handler(self, h: H) -> (r: Self)
        ensures
            r@ == (WorkerView { catch_all_handler: Some(h), ..self@ }),
    {
        proof {
            use_type_invariant(&self);
        }
        Worker { catch_all_handler: Some(h), ..self }
    }

    /// Registers a handler, overwriting any existing one for the same
    /// `job_type` instead of erroring.
    pub fn replace_handler(self, job_type: &str, h: H) -> (r: Self)
        ensures
            r@ == (WorkerView { handlers: self@.handlers.insert(job_type@, h), ..self@ }),
    {
        proof {
            use_type_invariant(&self);
        }
        let mut handlers = self.handlers;
        handlers.insert(job_type.to_owned(), h);
        Worker {
            opts: self.opts,
            handlers,
            catch_all_handler: self.catch_all_handler,
            max_in_flight: self.max_in_flight,
            reserve_error_backoff: self.reserve_error_backoff,
            auto_extend: self.auto_extend,
        }
    }

    /// Unregisters the handler for a `job_type`, if any. Jobs of an unhandled
    /// type are nacked for retry with an attempt-based backoff.
    pub fn remove_handler(self, job_type: &str) -> (r: Self)
        ensures
            r@ == (WorkerView { handlers: self@.handlers.remove(job_type@), ..self@ }),
    {
        proof {
            use_type_invariant(&self);
        }
        let mut handlers = self.handlers;
        handlers.remove(job_type);
        Worker {
            opts: self.opts,
            handlers,
            catch_all_handler: self.catch_all_handler,
            max_in_flight: self.max_in_flight,
            reserve_error_backoff: self.reserve_error_backoff,
            auto_extend: self.auto_extend,
        }
    }

    /// The handler for a job type: the one registered for it, or else the
    /// catch-all handler.
    pub fn route(&self, job_type: &str) -> (r: Option<&H>)
        ensures
            r is Some <==> route_of(self@, job_type@) is Some,
            r matches Some(h) ==> route_of(self@, job_type@) == Some(*h),
    {
        match self.handlers.get(job_type) {
            Some(h) => Some(h),
            None => match &self.catch_all_handler {
                Some(h) => Some(h),
                None => None,
            },
        }
    }

    /// The parameters of a reserve call where `free` more jobs can be
    /// processed.
    pub fn poll_options(&self, free: usize) -> (r: ReserveOptions)
        ensures
            r@ == (ReserveOptionsView {
                max_jobs: Some(jobs_to_request(self@.opts.max_jobs, free as nat)),
                ..self@.opts
            }),
            free >= 1 ==> is_polite(r@),
    {
        proof {
            use_type_invariant(self);
        }
        let capacity: u32 = if free > u32::MAX as usize {
            u32::MAX
        } else {
            free as u32
        };
        let wanted: u32 = match self.opts.max_jobs() {
            Some(m) => if m < capacity {
                m
            } else {
                capacity
            },
            None => capacity,
        };
        self.opts.clone().with_max_jobs(wanted)
    }

    /// The parameters of reserve calls.
    pub fn options(&self) -> (r: &ReserveOptions)
        ensures
            r@ == self@.opts,
    {
        &self.opts
    }

    /// The number of registered handlers, the catch-all handler aside.
    pub fn handler_count(&self) -> (n: usize)
        ensures
            n == self@.handlers.len(),
    {
        self.handlers.len()
    }

    /// The configured number of jobs processed concurrently.
    pub fn max_in_flight(&self) -> (n: usize)
        ensures
            n == self@.max_in_flight,
    {
        self.max_in_flight
    }

    /// How long to wait after a failed reserve.
    pub fn reserve_error_backoff(&self) -> (d: Duration)
        ensures
            d == self@.reserve_error_backoff,
    {
        self.reserve_error_backoff
    }

    /// How leases are kept alive, if they are.
    pub fn auto_extend(&self) -> (r: Option<AutoExtend>)
        ensures
            r == self@.auto_extend,
    {
        self.auto_extend
    }
}

/// Registering, replacing and removing a handler changes the route of its job
/// type and of no other. A job type without a handler of its own goes to the
/// catch-all handler.
pub proof fn routes_are_independent<H>(
    w: WorkerView<H>,
    registered: Seq<char>,
    h: H,
    job_type: Seq<char>,
)
    ensures
        ({
            let with = WorkerView { handlers: w.handlers.insert(registered, h), ..w };
            let without = WorkerView { handlers: w.handlers.remove(registered), ..w };
            &&& route_of(with, registered) == Some(h)
            &&& route_of(without, registered) == w.catch_all_handler
            &&& job_type != registered ==> route_of(with, job_type) == route_of(w, job_type)
            &&& job_type != registered ==> route_of(without, job_type) == route_of(w, job_type)
        }),
{
}

/// A handler that was removed can be registered again, and the result is the
/// same as replacing it.
pub proof fn removed_handler_can_return<H>(w: WorkerView<H>, job_type: Seq<char>, h: H)
    ensures
        !w.handlers.remove(job_type).contains_key(job_type),
        w.handlers.remove(job_type).insert(job_type, h) == w.handlers.insert(job_type, h),
{
    assert(w.handlers.remove(job_type).insert(job_type, h) =~= w.handlers.insert(job_type, h));
}

} // verus!
