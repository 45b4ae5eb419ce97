//! The parameters of a reserve call.
use std::time::Duration;
use vstd::prelude::*;

use crate::pb;
use crate::text::{self, clone_strings, clone_text, decimal_string};
use crate::time::{self, duration_to_millis};

verus! {

/// What reserve options hold.
pub struct ReserveOptionsView {
    pub queues: Seq<Seq<char>>,
    pub wait_timeout: Duration,
    pub lease_duration: Duration,
    pub worker_id: Option<Seq<char>>,
    pub max_jobs: Option<u32>,
}

/// Parameters for a reserve call.
///
/// Constructed with [`ReserveOptions::new`] (which needs the queues to pull
/// from and the lease duration) and refined with the `with_*` methods. Every
/// value names a queue, and nothing by an empty name.
#[derive(Debug, PartialEq)]
pub struct ReserveOptions {
    queues: Vec<String>,
    wait_timeout: Duration,
    lease_duration: Duration,
    worker_id: Option<String>,
    max_jobs: Option<u32>,
}

/// Returned by [`ReserveOptions`] constructors and setters on invalid input.
#[derive(Debug)]
pub enum ReserveOptionsError {
    /// No queues were given.
    EmptyQueues,
    /// The queue name at this index was empty.
    EmptyQueueName(usize),
    /// The lease duration was zero.
    LeaseDurationTooShort,
    /// A worker id was supplied but empty.
    EmptyWorkerId,
}

impl ReserveOptionsError {
    /// The message of this error.
    pub open spec fn message(self) -> Seq<char> {
        match self {
            ReserveOptionsError::EmptyQueues => "at least one queue must be specified"@,
            ReserveOptionsError::EmptyQueueName(i) => "queue name at index "@ + text::decimal(i as nat)
                + " must not be empty"@,
            ReserveOptionsError::LeaseDurationTooShort => "lease_duration must be at least 1ms"@,
            ReserveOptionsError::EmptyWorkerId => "worker_id must not be empty when set"@,
        }
    }

    /// Writes the message of this error.
    pub fn to_string(&self) -> (s: String)
        ensures
            s@ == self.message(),
    {
        match self {
            ReserveOptionsError::EmptyQueues => "at least one queue must be specified".to_owned(),
            ReserveOptionsError::EmptyQueueName(i) => "queue name at index ".to_owned().concat(
                decimal_string(*i as u64).as_str(),
            ).concat(" must not be empty"),
            ReserveOptionsError::LeaseDurationTooShort => {
                "lease_duration must be at least 1ms".to_owned()
            },
            ReserveOptionsError::EmptyWorkerId => "worker_id must not be empty when set".to_owned(),
        }
    }
}

impl View for ReserveOptions {
    type V = ReserveOptionsView;

    closed spec fn view(&self) -> ReserveOptionsView {
        ReserveOptionsView {
            queues: text::texts(self.queues@),
            wait_timeout: self.wait_timeout,
            lease_duration: self.lease_duration,
            worker_id: text::opt_text(self.worker_id),
            max_jobs: self.max_jobs,
        }
    }
}

/// Whether reserve options name at least one queue, have no empty name, and
/// lease jobs for some time.
pub open spec fn is_valid_options(o: ReserveOptionsView) -> bool {
    &&& reserve_fault(o.queues, time::duration_nanos(o.lease_duration)) is None
    &&& o.worker_id matches Some(id) ==> id.len() > 0
}

/// What is wrong with the queues and the lease of reserve options, if anything:
/// no queue, or else the first empty queue name, or else a lease of no time.
pub open spec fn reserve_fault(queues: Seq<Seq<char>>, lease_nanos: nat) -> Option<
    ReserveOptionsError,
> {
    if queues.len() == 0 {
        Some(ReserveOptionsError::EmptyQueues)
    } else if exists|i: int| 0 <= i < queues.len() && (#[trigger] queues[i]).len() == 0 {
        Some(ReserveOptionsError::EmptyQueueName(first_empty(queues) as usize))
    } else if lease_nanos == 0 {
        Some(ReserveOptionsError::LeaseDurationTooShort)
    } else {
        None
    }
}

/// The position of the first empty text, or the number of texts where none is.
pub open spec fn first_empty(items: Seq<Seq<char>>) -> nat
    decreases items.len(),
{
    if items.len() == 0 || items[0].len() == 0 {
        0
    } else {
        1 + first_empty(items.skip(1))
    }
}

/// The first empty text is empty, and none before it is.
pub proof fn lemma_first_empty(items: Seq<Seq<char>>, i: int)
    requires
        0 <= i < items.len(),
        items[i].len() == 0,
        forall|j: int| 0 <= j < i ==> (#[trigger] items[j]).len() > 0,
    ensures
        first_empty(items) == i,
    decreases items.len(),
{
    if i > 0 {
        assert(items[0].len() > 0);
        let rest = items.skip(1);
        assert(rest[i - 1] == items[i]);
        assert forall|j: int| 0 <= j < i - 1 implies (#[trigger] rest[j]).len() > 0 by {
            assert(rest[j] == items[j + 1]);
        }
        lemma_first_empty(rest, i - 1);
    }
}

impl ReserveOptions {
    #[verifier::type_invariant]
    spec fn inv(self) -> bool {
        is_valid_options(self@)
    }

    /// Begins reserve options for the given queues and lease duration.
    ///
    /// Queues are polled in order: index 0 first, then index 1, and so on. The
    /// lease duration is how long a returned job is held before it must be
    /// acked, nacked, or extended. The wait timeout defaults to 30s; override
    /// it with [`with_wait_timeout`](Self::with_wait_timeout).
    ///
    /// At least one non-empty queue and a non-zero lease are required.
    pub fn new(queues: Vec<String>, lease_duration: Duration) -> (r: Result<
        Self,
        ReserveOptionsError,
    >)
        ensures
            match r {
                Ok(o) => {
                    &&& reserve_fault(
                        text::texts(queues@),
                        time::duration_nanos(lease_duration),
                    ) is None
                    &&& o@.queues == text::texts(queues@)
                    &&& o@.lease_duration == lease_duration
                    &&& time::duration_nanos(o@.wait_timeout) == 30_000_000_000
                    &&& o@.worker_id is None
                    &&& o@.max_jobs is None
                },
                Err(e) => reserve_fault(
                    text::texts(queues@),
                    time::duration_nanos(lease_duration),
                ) == Some(e),
            },
    {
        let ghost names = text::texts(queues@);
        if queues.is_empty() {
            return Err(ReserveOptionsError::EmptyQueues);
        }
        let mut i: usize = 0;
        while i < queues.len()
            invariant
                i <= queues.len(),
                names == text::texts(queues@),
                forall|j: int| 0 <= j < i ==> (#[trigger] names[j]).len() > 0,
            decreases queues.len() - i,
        {
            if queues[i].as_str().is_empty() {
                proof {
                    assert(names[i as int].len() == 0);
                    lemma_first_empty(names, i as int);
                }
                return Err(ReserveOptionsError::EmptyQueueName(i));
            }
            assert(names[i as int] == queues@[i as int]@);
            i += 1;
        }
        if lease_duration.as_nanos() == 0 {
            return Err(ReserveOptionsError::LeaseDurationTooShort);
        }
        Ok(
            ReserveOptions {
                queues,
                wait_timeout: Duration::from_secs(30),
                lease_duration,
                worker_id: None,
                max_jobs: None,
            },
        )
    }

    /// Sets how long the server holds the connection open waiting for a job
    /// before returning empty.
    pub fn with_wait_timeout(self, wait: Duration) -> (r: Self)
        ensures
            r@ == (ReserveOptionsView { wait_timeout: wait, ..self@ }),
    {
        proof {
            use_type_invariant(&self);
        }
        ReserveOptions { wait_timeout: wait, ..self }
    }

    /// Returns the configured long-poll wait timeout.
    pub fn wait_timeout(&self) -> (d: Duration)
        ensures
            d == self@.wait_timeout,
    {
        self.wait_timeout
    }

    /// Returns the configured lease duration.
    pub fn lease_duration(&self) -> (d: Duration)
        ensures
            d == self@.lease_duration,
    {
        self.lease_duration
    }

    /// Returns the worker identifier, if one was set.
    pub fn worker_id(&self) -> (r: &Option<String>)
        ensures
            text::opt_text(*r) == self@.worker_id,
    {
        &self.worker_id
    }

    /// Returns the largest number of jobs asked for, if one was set.
    pub fn max_jobs(&self) -> (r: Option<u32>)
        ensures
            r == self@.max_jobs,
    {
        self.max_jobs
    }

    /// Sets a stable worker identifier, recorded server-side for observability.
    /// Must be non-empty.
    pub fn with_worker_id(self, id: &str) -> (r: Result<Self, ReserveOptionsError>)
        ensures
            match r {
                Ok(o) => id@.len() > 0 && o@ == (ReserveOptionsView {
                    worker_id: Some(id@),
                    ..self@
                }),
                Err(e) => id@.len() == 0 && e is EmptyWorkerId,
            },
    {
        if id.is_empty() {
            return Err(ReserveOptionsError::EmptyWorkerId);
        }
        proof {
            use_type_invariant(&self);
        }
        Ok(ReserveOptions { worker_id: Some(id.to_owned()), ..self })
    }

    /// Sets the maximum number of jobs to return in one response (default 1).
    pub fn with_max_jobs(self, max: u32) -> (r: Self)
        ensures
            r@ == (ReserveOptionsView { max_jobs: Some(max), ..self@ }),
    {
        proof {
            use_type_invariant(&self);
        }
        ReserveOptions { max_jobs: Some(max), ..self }
    }
}

impl Clone for ReserveOptions {
    fn clone(&self) -> (r: Self)
        ensures
            r@ == self@,
    {
        proof {
            use_type_invariant(self);
        }
        ReserveOptions {
            queues: clone_strings(&self.queues),
            wait_timeout: self.wait_timeout,
            lease_duration: self.lease_duration,
            worker_id: clone_text(&self.worker_id),
            max_jobs: self.max_jobs,
        }
    }
}

/// Whether a reserve request says what reserve options hold: the queues in
/// order, and durations in whole milliseconds, modulo `2^64`.
pub open spec fn is_reserve_request(r: pb::ReserveRequest, o: ReserveOptionsView) -> bool {
    &&& text::texts(r.queues@) == o.queues
    &&& r.wait_timeout_ms == time::duration_millis(o.wait_timeout) % 0x1_0000_0000_0000_0000
    &&& r.lease_duration_ms == time::duration_millis(o.lease_duration) % 0x1_0000_0000_0000_0000
    &&& text::opt_text(r.worker_id) == o.worker_id
    &&& r.max_jobs == o.max_jobs
}

impl From<ReserveOptions> for pb::ReserveRequest {
    fn from(o: ReserveOptions) -> (r: Self)
        ensures
            is_reserve_request(r, o@),
            is_valid_options(o@),
    {
        pb::ReserveRequest::from(&o)
    }
}

impl vstd::std_specs::convert::FromSpecImpl<ReserveOptions> for pb::ReserveRequest {
    open spec fn obeys_from_spec() -> bool {
        false
    }

    open spec fn from_spec(o: ReserveOptions) -> Self {
        arbitrary()
    }
}

impl From<&ReserveOptions> for pb::ReserveRequest {
    fn from(o: &ReserveOptions) -> (r: Self)
        ensures
            is_reserve_request(r, o@),
            is_valid_options(o@),
    {
        proof {
            use_type_invariant(o);
        }
        pb::ReserveRequest {
            queues: clone_strings(&o.queues),
            wait_timeout_ms: duration_to_millis(o.wait_timeout),
            lease_duration_ms: duration_to_millis(o.lease_duration),
            worker_id: clone_text(&o.worker_id),
            max_jobs: o.max_jobs,
        }
    }
}

impl vstd::std_specs::convert::FromSpecImpl<&ReserveOptions> for pb::ReserveRequest {
    open spec fn obeys_from_spec() -> bool {
        false
    }

    open spec fn from_spec(o: &ReserveOptions) -> Self {
        arbitrary()
    }
}

/// A reserve request names at least one queue, and nothing by an empty name.
pub proof fn reserve_request_is_valid(r: pb::ReserveRequest, o: ReserveOptionsView)
    requires
        is_valid_options(o),
        is_reserve_request(r, o),
    ensures
        r.queues@.len() > 0,
        forall|i: int| 0 <= i < r.queues@.len() ==> (#[trigger] r.queues@[i])@.len() > 0,
        r.worker_id matches Some(id) ==> id@.len() > 0,
{
    assert forall|i: int| 0 <= i < r.queues@.len() implies (#[trigger] r.queues@[i])@.len() > 0 by {
        assert(o.queues[i] == r.queues@[i]@);
    }
}

/// Reserve options determine the request that is made of them: those made by
/// reference and by value are alike.
pub proof fn reserve_request_is_determined(
    a: pb::ReserveRequest,
    b: pb::ReserveRequest,
    o: ReserveOptionsView,
)
    requires
        is_reserve_request(a, o),
        is_reserve_request(b, o),
    ensures
        text::texts(a.queues@) == text::texts(b.queues@),
        a.wait_timeout_ms == b.wait_timeout_ms,
        a.lease_duration_ms == b.lease_duration_ms,
        text::opt_text(a.worker_id) == text::opt_text(b.worker_id),
        a.max_jobs == b.max_jobs,
{
}

} // verus!
