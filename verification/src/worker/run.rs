//! The loop that reserves jobs and has them processed.
use std::time::Duration;
use vstd::prelude::*;

use crate::time;
use crate::worker::config;
use crate::worker::Worker;

verus! {

/// What the loop is about.
#[derive(Debug)]
pub enum Phase {
    /// Jobs may be reserved.
    Polling,
    /// No jobs are reserved until so much time has passed.
    Pausing(Duration),
}

/// What a running loop knows.
pub struct RunView {
    /// How many jobs may be processed at once.
    pub capacity: nat,
    /// How many jobs are being processed.
    pub in_flight: nat,
    /// How many reserved jobs have not been started.
    pub waiting: nat,
    /// What the loop is about.
    pub phase: Phase,
    /// Whether shutdown was signalled.
    pub shutdown: bool,
    /// How long a reserve waits for jobs.
    pub wait_timeout: Duration,
    /// How long to pause after a failed reserve.
    pub error_backoff: Duration,
    /// How long to pause after a reserve that came back empty too soon.
    pub early_pause: Duration,
}

/// What to do next.
#[derive(Debug)]
pub enum Action {
    /// Start processing the next of the reserved jobs.
    Start,
    /// Wait until a job was processed.
    AwaitFinish,
    /// Reserve jobs, while so many more can be processed, or until shutdown is
    /// signalled. Where both come at once, the jobs count: they are leased to
    /// this worker already.
    Reserve(usize),
    /// Wait until a job was processed or shutdown is signalled.
    AwaitSlot,
    /// Wait out the time or until shutdown is signalled.
    Pause(Duration),
    /// All is done.
    Stop,
}

/// What happened.
#[derive(Debug)]
pub enum Event {
    /// Shutdown was signalled.
    Shutdown,
    /// A reserve came back with so many jobs.
    Reserved(usize),
    /// A reserve came back empty after so much time.
    ReservedNothing(Duration),
    /// A reserve failed.
    ReserveFailed,
    /// A pause is over.
    PauseOver,
    /// A reserved job was started.
    Started,
    /// A job was processed.
    Finished,
}

/// Whether an empty reserve came back too soon to have waited for jobs, so that
/// polling again at once would hammer the server: after less than 100ms, and
/// after less than half of the wait.
pub open spec fn is_early(elapsed: Duration, wait_timeout: Duration) -> bool {
    let half = time::duration_nanos(wait_timeout) / 2;
    time::duration_nanos(elapsed) < if half < 100_000_000 {
        half
    } else {
        100_000_000
    }
}

/// What to do next, by what is known.
///
/// Reserved jobs come first, and are started as soon as there is room. After
/// shutdown was signalled nothing is reserved, and all is done once no job is
/// left.
pub open spec fn action_of(v: RunView) -> Action {
    if v.waiting > 0 {
        if v.in_flight < v.capacity {
            Action::Start
        } else {
            Action::AwaitFinish
        }
    } else if v.shutdown {
        if v.in_flight > 0 {
            Action::AwaitFinish
        } else {
            Action::Stop
        }
    } else {
        match v.phase {
            Phase::Polling => if v.in_flight < v.capacity {
                Action::Reserve((v.capacity - v.in_flight) as usize)
            } else {
                Action::AwaitSlot
            },
            Phase::Pausing(d) => Action::Pause(d),
        }
    }
}

/// Whether an event can happen: one that an action leads to, the end of a job,
/// or the signal to shut down.
pub open spec fn can_happen(v: RunView, e: Event) -> bool {
    match e {
        Event::Shutdown => true,
        Event::Reserved(_) => action_of(v) is Reserve,
        Event::ReservedNothing(_) => action_of(v) is Reserve,
        Event::ReserveFailed => action_of(v) is Reserve,
        Event::PauseOver => action_of(v) is Pause,
        Event::Started => action_of(v) is Start,
        Event::Finished => v.in_flight > 0,
    }
}

/// What is known after an event.
pub open spec fn after(v: RunView, e: Event) -> RunView {
    match e {
        Event::Shutdown => RunView { shutdown: true, ..v },
        Event::Reserved(n) => RunView { waiting: n as nat, ..v },
        Event::ReservedNothing(elapsed) => RunView {
            phase: if is_early(elapsed, v.wait_timeout) {
                Phase::Pausing(v.early_pause)
            } else {
                Phase::Polling
            },
            ..v
        },
        Event::ReserveFailed => RunView { phase: Phase::Pausing(v.error_backoff), ..v },
        Event::PauseOver => RunView { phase: Phase::Polling, ..v },
        Event::Started => RunView {
            waiting: (v.waiting - 1) as nat,
            in_flight: v.in_flight + 1,
            ..v
        },
        Event::Finished => RunView { in_flight: (v.in_flight - 1) as nat, ..v },
    }
}

/// Whether the state is sound: there is room for a job, and no more jobs are
/// processed than there is room for.
pub open spec fn is_sound(v: RunView) -> bool {
    v.capacity >= 1 && v.in_flight <= v.capacity
}

/// The state of a running loop.
#[derive(Debug)]
pub struct RunState {
    capacity: usize,
    in_flight: usize,
    waiting: usize,
    phase: Phase,
    shutdown: bool,
    wait_timeout: Duration,
    error_backoff: Duration,
    early_pause: Duration,
}

impl View for RunState {
    type V = RunView;

    closed spec fn view(&self) -> RunView {
        RunView {
            capacity: self.capacity as nat,
            in_flight: self.in_flight as nat,
            waiting: self.waiting as nat,
            phase: self.phase,
            shutdown: self.shutdown,
            wait_timeout: self.wait_timeout,
            error_backoff: self.error_backoff,
            early_pause: self.early_pause,
        }
    }
}

/// Whether a loop is at its start for the given worker.
pub open spec fn is_start<H>(v: RunView, w: config::WorkerView<H>) -> bool {
    &&& v.capacity == if w.max_in_flight < 1 {
        1
    } else {
        w.max_in_flight as nat
    }
    &&& v.in_flight == 0
    &&& v.waiting == 0
    &&& v.phase is Polling
    &&& !v.shutdown
    &&& v.wait_timeout == w.opts.wait_timeout
    &&& v.error_backoff == w.reserve_error_backoff
    &&& time::duration_nanos(v.early_pause) == 250_000_000
}

impl RunState {
    #[verifier::type_invariant]
    spec fn inv(self) -> bool {
        self.capacity >= 1 && self.in_flight <= self.capacity
    }

    /// The state at the start of a worker's loop.
    pub fn new<H>(worker: &Worker<H>) -> (r: Self)
        ensures
            is_start(r@, worker@),
            is_sound(r@),
    {
        let max_in_flight = worker.max_in_flight();
        RunState {
            capacity: if max_in_flight < 1 {
                1
            } else {
                max_in_flight
            },
            in_flight: 0,
            waiting: 0,
            phase: Phase::Polling,
            shutdown: false,
            wait_timeout: worker.options().wait_timeout(),
            error_backoff: worker.reserve_error_backoff(),
            early_pause: Duration::from_millis(250),
        }
    }

    /// What to do next.
    pub fn action(&self) -> (a: Action)
        ensures
            a == action_of(self@),
            is_sound(self@),
    {
        proof {
            use_type_invariant(self);
        }
        if self.waiting > 0 {
            if self.in_flight < self.capacity {
                Action::Start
            } else {
                Action::AwaitFinish
            }
        } else if self.shutdown {
            if self.in_flight > 0 {
                Action::AwaitFinish
            } else {
                Action::Stop
            }
        } else {
            match self.phase {
                Phase::Polling => if self.in_flight < self.capacity {
                    Action::Reserve(self.capacity - self.in_flight)
                } else {
                    Action::AwaitSlot
                },
                Phase::Pausing(d) => Action::Pause(d),
            }
        }
    }

    /// Whether an event can happen.
    pub fn expects(&self, e: &Event) -> (r: bool)
        ensures
            r == can_happen(self@, *e),
    {
        match e {
            Event::Shutdown => true,
            Event::Reserved(_) | Event::ReservedNothing(_) | Event::ReserveFailed => {
                matches!(self.action(), Action::Reserve(_))
            },
            Event::PauseOver => matches!(self.action(), Action::Pause(_)),
            Event::Started => matches!(self.action(), Action::Start),
            Event::Finished => self.in_flight > 0,
        }
    }

    /// Takes note of an event.
    pub fn record(&mut self, e: Event)
        requires
            can_happen(old(self)@, e),
        ensures
            final(self)@ == after(old(self)@, e),
            is_sound(final(self)@),
    {
        proof {
            use_type_invariant(&*self);
        }
        match e {
            Event::Shutdown => {
                self.shutdown = true;
            },
            Event::Reserved(n) => {
                self.waiting = n;
            },
            Event::ReservedNothing(elapsed) => {
                if came_early(elapsed, self.wait_timeout) {
                    self.phase = Phase::Pausing(self.early_pause);
                } else {
                    self.phase = Phase::Polling;
                }
            },
            Event::ReserveFailed => {
                self.phase = Phase::Pausing(self.error_backoff);
            },
            Event::PauseOver => {
                self.phase = Phase::Polling;
            },
            Event::Started => {
                self.waiting = self.waiting - 1;
                self.in_flight = self.in_flight + 1;
            },
            Event::Finished => {
                self.in_flight = self.in_flight - 1;
            },
        }
    }

    /// How many jobs are being processed.
    pub fn in_flight(&self) -> (n: usize)
        ensures
            n == self@.in_flight,
    {
        self.in_flight
    }
}

/// Whether an empty reserve came back too soon to have waited for jobs.
pub fn came_early(elapsed: Duration, wait_timeout: Duration) -> (r: bool)
    ensures
        r == is_early(elapsed, wait_timeout),
{
    let half: u128 = wait_timeout.as_nanos() / 2;
    let threshold: u128 = if half < 100_000_000 {
        half
    } else {
        100_000_000
    };
    elapsed.as_nanos() < threshold
}

/// A reserve that waited out its time is never taken for one that came back too
/// soon, however short the wait.
pub proof fn full_wait_is_never_early(elapsed: Duration, wait_timeout: Duration)
    requires
        time::duration_nanos(elapsed) >= time::duration_nanos(wait_timeout),
    ensures
        !is_early(elapsed, wait_timeout),
{
}

/// What is known after a sequence of events.
pub open spec fn after_all(v: RunView, events: Seq<Event>) -> RunView
    decreases events.len(),
{
    if events.len() == 0 {
        v
    } else {
        after(after_all(v, events.drop_last()), events.last())
    }
}

/// Whether a sequence of events can happen.
pub open spec fn can_all_happen(v: RunView, events: Seq<Event>) -> bool
    decreases events.len(),
{
    events.len() == 0 || (can_all_happen(v, events.drop_last()) && can_happen(
        after_all(v, events.drop_last()),
        events.last(),
    ))
}

/// How many jobs were reserved.
pub open spec fn reserved_in(events: Seq<Event>) -> nat
    decreases events.len(),
{
    if events.len() == 0 {
        0
    } else {
        reserved_in(events.drop_last()) + match events.last() {
            Event::Reserved(n) => n as nat,
            _ => 0,
        }
    }
}

/// How many jobs were started.
pub open spec fn started_in(events: Seq<Event>) -> nat
    decreases events.len(),
{
    if events.len() == 0 {
        0
    } else {
        started_in(events.drop_last()) + if events.last() is Started {
            1nat
        } else {
            0
        }
    }
}

/// How many jobs were processed.
pub open spec fn finished_in(events: Seq<Event>) -> nat
    decreases events.len(),
{
    if events.len() == 0 {
        0
    } else {
        finished_in(events.drop_last()) + if events.last() is Finished {
            1nat
        } else {
            0
        }
    }
}

/// Whatever happens, no more jobs are processed at once than there is room for,
/// and no job is lost: of the reserved jobs, those that were not started are
/// waiting, and those that were started and not processed are in flight.
pub proof fn no_job_is_lost(v: RunView, events: Seq<Event>)
    requires
        is_sound(v),
        v.in_flight == 0,
        v.waiting == 0,
        can_all_happen(v, events),
    ensures
        is_sound(after_all(v, events)),
        after_all(v, events).capacity == v.capacity,
        reserved_in(events) == started_in(events) + after_all(v, events).waiting,
        started_in(events) == finished_in(events) + after_all(v, events).in_flight,
    decreases events.len(),
{
    if events.len() > 0 {
        no_job_is_lost(v, events.drop_last());
    }
}

/// The loop is done only after shutdown was signalled, and then every job that
/// was ever reserved has been processed.
pub proof fn stops_drained(v: RunView, events: Seq<Event>)
    requires
        is_sound(v),
        v.in_flight == 0,
        v.waiting == 0,
        !v.shutdown,
        can_all_happen(v, events),
        action_of(after_all(v, events)) is Stop,
    ensures
        exists|i: int| 0 <= i < events.len() && (#[trigger] events[i]) is Shutdown,
        finished_in(events) == reserved_in(events),
{
    no_job_is_lost(v, events);
    lemma_shutdown_was_signalled(v, events);
}

/// Shutdown is known only where it was signalled.
proof fn lemma_shutdown_was_signalled(v: RunView, events: Seq<Event>)
    requires
        !v.shutdown,
        after_all(v, events).shutdown,
    ensures
        exists|i: int| 0 <= i < events.len() && (#[trigger] events[i]) is Shutdown,
    decreases events.len(),
{
    if events.len() > 0 {
        if events.last() is Shutdown {
            assert(events[events.len() - 1] is Shutdown);
        } else {
            lemma_shutdown_was_signalled(v, events.drop_last());
            let i = choose|i: int|
                0 <= i < events.drop_last().len() && (#[trigger] events.drop_last()[i]) is Shutdown;
            assert(events[i] is Shutdown);
        }
    }
}

/// After shutdown was signalled no reserve ends any more, and none is asked
/// for; but the jobs in hand at that moment are still in hand.
pub proof fn no_reserve_after_shutdown(v: RunView, e: Event)
    requires
        v.shutdown,
    ensures
        !(action_of(v) is Reserve),
        can_happen(v, e) ==> !(e is Reserved) && !(e is ReservedNothing) && !(e is ReserveFailed),
        after(v, e).shutdown,
        e is Shutdown ==> after(v, e).waiting == v.waiting && after(v, e).in_flight == v.in_flight,
{
}

/// Each event of a sequence that can happen can happen after those before it.
proof fn lemma_each_can_happen(v: RunView, events: Seq<Event>, j: int)
    requires
        can_all_happen(v, events),
        0 <= j < events.len(),
    ensures
        can_happen(after_all(v, events.take(j)), events[j]),
    decreases events.len(),
{
    let before = events.drop_last();
    if j < before.len() {
        lemma_each_can_happen(v, before, j);
        assert(before.take(j) =~= events.take(j));
    } else {
        assert(before =~= events.take(j));
    }
}

/// Once shutdown was signalled it stays known.
proof fn lemma_shutdown_stays(v: RunView, events: Seq<Event>, i: int)
    requires
        0 <= i < events.len(),
        events[i] is Shutdown,
    ensures
        after_all(v, events).shutdown,
    decreases events.len(),
{
    if i < events.len() - 1 {
        lemma_shutdown_stays(v, events.drop_last(), i);
    }
}

/// Whatever happens, no reserve ends after shutdown was signalled, with jobs,
/// empty or failed.
pub proof fn nothing_is_reserved_after_shutdown(v: RunView, events: Seq<Event>, i: int, j: int)
    requires
        can_all_happen(v, events),
        0 <= i < j < events.len(),
        events[i] is Shutdown,
    ensures
        !(events[j] is Reserved),
        !(events[j] is ReservedNothing),
        !(events[j] is ReserveFailed),
{
    lemma_each_can_happen(v, events, j);
    assert(events.take(j)[i] is Shutdown);
    lemma_shutdown_stays(v, events.take(j), i);
    no_reserve_after_shutdown(after_all(v, events.take(j)), events[j]);
}

/// What is left to be done when nothing is reserved any more.
pub open spec fn work_left(v: RunView) -> nat {
    2 * v.waiting + v.in_flight
}

/// After shutdown was signalled, each job that is started or processed brings
/// the end nearer, and the loop is done exactly when no work is left: until
/// then there is always a job to start or to wait for.
pub proof fn drain_makes_progress(v: RunView, e: Event)
    requires
        is_sound(v),
        v.shutdown,
        can_happen(v, e),
    ensures
        e is Started || e is Finished ==> work_left(after(v, e)) < work_left(v),
        e is Shutdown ==> after(v, e) == v,
        action_of(v) is Stop <==> work_left(v) == 0,
        action_of(v) is Start ==> can_happen(v, Event::Started),
        action_of(v) is AwaitFinish ==> can_happen(v, Event::Finished),
        action_of(v) is Stop || action_of(v) is Start || action_of(v) is AwaitFinish,
{
}

/// A reserve never asks for more jobs than can be started at once: where the
/// server leases no more than it was asked for, no reserved job has to wait for
/// another to be processed.
pub proof fn reserve_fits(v: RunView, user_max: Option<u32>, leased: usize)
    requires
        is_sound(v),
        v.capacity <= usize::MAX,
        action_of(v) is Reserve,
        leased <= config::jobs_to_request(user_max, action_of(v)->Reserve_0 as nat),
    ensures
        action_of(v)->Reserve_0 >= 1,
        after(v, Event::Reserved(leased)).waiting + v.in_flight <= v.capacity,
{
}

} // verus!
