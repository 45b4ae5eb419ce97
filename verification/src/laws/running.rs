//! The worker's loop: when it reserves, starts, pauses, waits and stops.
use std::time::Duration;
use vstd::prelude::*;

use crate::reserve::ReserveOptions;
use crate::time;
use crate::worker::config;
use crate::worker::run::{self, came_early, Action, Event, Phase, RunState, RunView};
use crate::worker::Worker;

verus! {

/// A loop that may poll reserves exactly where a slot is free, and asks for as
/// many jobs as there are free slots. It waits for a slot only where none is
/// free.
pub proof fn a_free_slot_is_offered(v: RunView)
    requires
        v.in_flight <= v.capacity,
        v.capacity <= usize::MAX,
        v.waiting == 0,
        !v.shutdown,
        v.phase is Polling,
    ensures
        v.in_flight < v.capacity ==> (run::action_of(v) matches Action::Reserve(n) && n
            == v.capacity - v.in_flight),
        v.in_flight == v.capacity ==> run::action_of(v) is AwaitSlot,
{
}

/// A reserved job is started as soon as a slot is free, whatever else is going
/// on, and no job is started where none is.
pub proof fn a_reserved_job_starts_at_once(v: RunView)
    requires
        v.in_flight <= v.capacity,
    ensures
        run::action_of(v) is Start <==> v.waiting > 0 && v.in_flight < v.capacity,
        v.waiting > 0 && v.in_flight == v.capacity ==> run::action_of(v) is AwaitFinish,
{
}

/// A loop that was told to shut down and has no reserved job left waits for the
/// jobs in flight, and stops as soon as there are none, even in a pause. No
/// other loop stops.
pub proof fn shutdown_waits_for_what_is_in_flight(v: RunView)
    ensures
        run::action_of(v) is Stop <==> v.shutdown && v.waiting == 0 && v.in_flight == 0,
        v.shutdown && v.waiting == 0 && v.in_flight > 0 ==> run::action_of(v) is AwaitFinish,
        run::action_of(v) is AwaitFinish ==> v.waiting > 0 || v.shutdown,
{
}

/// A loop pauses exactly while a pause is on and there is nothing to start, for
/// the whole of it, and shutdown cuts it short.
pub proof fn a_pause_is_kept(v: RunView)
    ensures
        run::action_of(v) is Pause <==> v.waiting == 0 && !v.shutdown && v.phase is Pausing,
        run::action_of(v) matches Action::Pause(d) ==> v.phase == Phase::Pausing(d),
{
}

/// What a loop is told to do follows from what it knows alone, and obeys the
/// laws above.
pub proof fn a_loop_does_what_its_state_calls_for(s: RunState, a: Action)
    requires
        call_ensures(RunState::action, (&s,), a),
    ensures
        s@.in_flight <= s@.capacity,
        s@.capacity >= 1,
        a is Start <==> s@.waiting > 0 && s@.in_flight < s@.capacity,
        a is Stop <==> s@.shutdown && s@.waiting == 0 && s@.in_flight == 0,
        a is Reserve <==> s@.waiting == 0 && !s@.shutdown && s@.phase is Polling && s@.in_flight
            < s@.capacity,
        s@.capacity <= usize::MAX ==> (a matches Action::Reserve(n) ==> n == s@.capacity
            - s@.in_flight),
        a is AwaitSlot <==> s@.waiting == 0 && !s@.shutdown && s@.phase is Polling && s@.in_flight
            == s@.capacity,
        a is Pause <==> s@.waiting == 0 && !s@.shutdown && s@.phase is Pausing,
        a matches Action::Pause(d) ==> s@.phase == Phase::Pausing(d),
        a is AwaitFinish <==> (s@.waiting > 0 && s@.in_flight == s@.capacity) || (s@.waiting == 0
            && s@.shutdown && s@.in_flight > 0),
{
}

/// The end of a reserve can be noted exactly while one is asked for, whatever
/// it brought; the end of a pause while one is on; the start of a job while
/// there is one to start and a slot for it; the end of a job while one is in
/// flight; and shutdown always.
pub proof fn what_is_asked_for_can_be_noted(s: RunState, e: Event, r: bool)
    requires
        call_ensures(RunState::expects, (&s, &e), r),
        s@.in_flight <= s@.capacity,
    ensures
        e is Shutdown ==> r,
        e is Finished ==> (r <==> s@.in_flight > 0),
        e is Started ==> (r <==> s@.waiting > 0 && s@.in_flight < s@.capacity),
        e is PauseOver ==> (r <==> s@.waiting == 0 && !s@.shutdown && s@.phase is Pausing),
        e is Reserved || e is ReservedNothing || e is ReserveFailed ==> (r <==> s@.waiting == 0
            && !s@.shutdown && s@.phase is Polling && s@.in_flight < s@.capacity),
{
}

/// The same of what is known alone.
pub proof fn what_can_happen_follows_from_what_is_known(v: RunView, e: Event)
    requires
        v.in_flight <= v.capacity,
    ensures
        e is Shutdown ==> run::can_happen(v, e),
        e is Finished ==> (run::can_happen(v, e) <==> v.in_flight > 0),
        e is Started ==> (run::can_happen(v, e) <==> v.waiting > 0 && v.in_flight < v.capacity),
        e is PauseOver ==> (run::can_happen(v, e) <==> v.waiting == 0 && !v.shutdown
            && v.phase is Pausing),
        e is Reserved || e is ReservedNothing || e is ReserveFailed ==> (run::can_happen(v, e)
            <==> v.waiting == 0 && !v.shutdown && v.phase is Polling && v.in_flight < v.capacity),
{
}

/// An event changes what it tells of and nothing else. How the worker was
/// configured never changes.
pub proof fn an_event_changes_what_it_tells_of(v: RunView, e: Event)
    requires
        e is Started ==> v.waiting > 0,
        e is Finished ==> v.in_flight > 0,
    ensures
        ({
            let w = run::after(v, e);
            &&& w.capacity == v.capacity
            &&& w.wait_timeout == v.wait_timeout
            &&& w.error_backoff == v.error_backoff
            &&& w.early_pause == v.early_pause
            &&& w.shutdown <==> v.shutdown || e is Shutdown
            &&& e matches Event::Reserved(n) ==> w.waiting == n
            &&& e is Started ==> w.waiting + 1 == v.waiting
            &&& !(e is Reserved) && !(e is Started) ==> w.waiting == v.waiting
            &&& e is Started ==> w.in_flight == v.in_flight + 1
            &&& e is Finished ==> w.in_flight + 1 == v.in_flight
            &&& !(e is Started) && !(e is Finished) ==> w.in_flight == v.in_flight
            &&& !(e is ReservedNothing) && !(e is ReserveFailed) && !(e is PauseOver) ==> w.phase
                == v.phase
        }),
{
}

/// Noting an event in a running loop does just that.
pub proof fn a_noted_event_changes_what_it_tells_of(s: &mut RunState, e: Event)
    requires
        call_ensures(RunState::record, (s, e), ()),
        e is Started ==> s@.waiting > 0,
        e is Finished ==> s@.in_flight > 0,
    ensures
        final(s)@.capacity == old(s)@.capacity,
        final(s)@.wait_timeout == old(s)@.wait_timeout,
        final(s)@.error_backoff == old(s)@.error_backoff,
        final(s)@.early_pause == old(s)@.early_pause,
        final(s)@.shutdown <==> old(s)@.shutdown || e is Shutdown,
        e matches Event::Reserved(n) ==> final(s)@.waiting == n,
        e is Started ==> final(s)@.waiting + 1 == old(s)@.waiting,
        !(e is Reserved) && !(e is Started) ==> final(s)@.waiting == old(s)@.waiting,
        e is Started ==> final(s)@.in_flight == old(s)@.in_flight + 1,
        e is Finished ==> final(s)@.in_flight + 1 == old(s)@.in_flight,
        !(e is Started) && !(e is Finished) ==> final(s)@.in_flight == old(s)@.in_flight,
        e is ReserveFailed ==> final(s)@.phase == Phase::Pausing(old(s)@.error_backoff),
        e is PauseOver ==> final(s)@.phase is Polling,
        e matches Event::ReservedNothing(elapsed) ==> final(s)@.phase == if time::duration_nanos(
            elapsed,
        ) < 100_000_000 && 2 * time::duration_nanos(elapsed) + 2 <= time::duration_nanos(
            old(s)@.wait_timeout,
        ) {
            Phase::Pausing(old(s)@.early_pause)
        } else {
            Phase::Polling
        },
        !(e is ReservedNothing) && !(e is ReserveFailed) && !(e is PauseOver) ==> final(s)@.phase
            == old(s)@.phase,
{
}

/// A failed reserve is followed by a pause of the configured length, and that
/// by another reserve for the same free slots: reserve errors do not stop the
/// loop.
pub proof fn a_failed_reserve_is_tried_again_after_a_pause(v: RunView)
    requires
        v.in_flight < v.capacity,
        v.capacity <= usize::MAX,
        v.waiting == 0,
        !v.shutdown,
        v.phase is Polling,
    ensures
        ({
            let failed = run::after(v, Event::ReserveFailed);
            &&& run::action_of(failed) == Action::Pause(v.error_backoff)
            &&& run::action_of(run::after(failed, Event::PauseOver)) == run::action_of(v)
            &&& run::action_of(v) is Reserve
        }),
{
}

/// An empty reserve is followed by another at once, unless it came back in less
/// than a tenth of a second and less than half of the wait: then by a pause
/// first.
pub proof fn an_empty_reserve_is_repeated(v: RunView, elapsed: Duration)
    requires
        v.in_flight < v.capacity,
        v.capacity <= usize::MAX,
        v.waiting == 0,
        !v.shutdown,
        v.phase is Polling,
    ensures
        ({
            let empty = run::after(v, Event::ReservedNothing(elapsed));
            let spent = time::duration_nanos(elapsed);
            let early = spent < 100_000_000 && 2 * spent + 2 <= time::duration_nanos(
                v.wait_timeout,
            );
            &&& early ==> run::action_of(empty) == Action::Pause(v.early_pause)
            &&& early ==> run::action_of(run::after(empty, Event::PauseOver)) == run::action_of(v)
            &&& !early ==> run::action_of(empty) == run::action_of(v)
            &&& run::action_of(v) is Reserve
        }),
{
}

/// An empty reserve came early exactly where it took less than a tenth of a
/// second and less than half of the wait, in whole nanoseconds.
pub proof fn early_is_under_both_bounds(elapsed: Duration, wait_timeout: Duration, r: bool)
    requires
        call_ensures(came_early, (elapsed, wait_timeout), r),
    ensures
        r <==> time::duration_nanos(elapsed) < 100_000_000 && 2 * time::duration_nanos(elapsed) + 2
            <= time::duration_nanos(wait_timeout),
{
}

/// A worker starts out with all of its slots free, at least one, and goes by its
/// configuration. Its pause after an early reserve is a quarter of a second.
pub proof fn a_worker_starts_with_all_slots_free<H>(w: Worker<H>, s: RunState, a: Action)
    requires
        call_ensures(RunState::new::<H>, (&w,), s),
        call_ensures(RunState::action, (&s,), a),
    ensures
        w@.max_in_flight == 0 ==> a == Action::Reserve(1),
        w@.max_in_flight >= 1 ==> a == Action::Reserve(w@.max_in_flight),
        s@.in_flight == 0,
        s@.waiting == 0,
        s@.wait_timeout == w@.opts.wait_timeout,
        s@.error_backoff == w@.reserve_error_backoff,
        time::duration_nanos(s@.early_pause) == 250_000_000,
{
}

/// A reserve asks for as many jobs as it may: no more than are free, nor than
/// the user allows, and for any number within both it asks for at least that
/// many. All else is asked for as configured.
pub proof fn a_reserve_asks_for_all_it_may<H>(
    w: Worker<H>,
    free: usize,
    o: ReserveOptions,
    wanted: u32,
)
    requires
        call_ensures(Worker::<H>::poll_options, (&w, free), o),
    ensures
        o@.max_jobs matches Some(n) && n <= free,
        w@.opts.max_jobs matches Some(m) ==> o@.max_jobs->0 <= m,
        wanted <= free && (w@.opts.max_jobs matches Some(m) ==> wanted <= m) ==> wanted
            <= o@.max_jobs->0,
        o@.queues == w@.opts.queues,
        o@.wait_timeout == w@.opts.wait_timeout,
        o@.lease_duration == w@.opts.lease_duration,
        o@.worker_id == w@.opts.worker_id,
{
}

/// The same of the number alone.
pub proof fn the_number_asked_for_is_the_largest(user_max: Option<u32>, free: nat, wanted: u32)
    ensures
        config::jobs_to_request(user_max, free) <= free,
        user_max matches Some(m) ==> config::jobs_to_request(user_max, free) <= m,
        wanted <= free && (user_max matches Some(m) ==> wanted <= m) ==> wanted
            <= config::jobs_to_request(user_max, free),
{
}

} // verus!
