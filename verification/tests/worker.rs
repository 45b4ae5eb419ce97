use sepp_rs::client::{ClientError, LeaseError, RetryDirective};
use sepp_rs::payload_converter::{ConverterError, JsonConverter};
use sepp_rs::worker::run::{came_early, Phase};
use sepp_rs::worker::{
    after_extend, choose_hostname, default_worker_id, heartbeat_interval, nack_backoff,
    nack_outcome, next_heartbeat, reserve_outcome, settle, unhandled, worker_id_of, Action,
    AutoExtend, Event, HandlerEnd, HandlerError, HeartbeatStep, RunState, Verdict, Worker,
    WorkerBuilderError,
};
use sepp_rs::ReserveOptionsError;
use std::time::{Duration, SystemTime};

fn queues() -> Vec<String> {
    vec!["q".to_string()]
}

fn worker() -> Worker<u32> {
    match Worker::new(queues(), Duration::from_secs(1), "host", 1) {
        Ok(w) => w,
        Err(_) => panic!("the arguments are fine"),
    }
}

fn ok<T>(r: Result<T, WorkerBuilderError>) -> T {
    match r {
        Ok(v) => v,
        Err(e) => panic!("{}", e.to_string()),
    }
}

#[test]
fn heartbeat_interval_third_of_lease() {
    assert_eq!(
        heartbeat_interval(Duration::from_secs(3)),
        Duration::from_secs(1)
    );
}

#[test]
fn heartbeat_interval_nine_seconds() {
    assert_eq!(
        heartbeat_interval(Duration::from_secs(9)),
        Duration::from_secs(3)
    );
}

#[test]
fn heartbeat_interval_floor_at_one_ms_for_tiny_lease() {
    assert_eq!(
        heartbeat_interval(Duration::from_millis(1)),
        Duration::from_millis(1)
    );
}

#[test]
fn heartbeat_interval_floor_at_one_ms_for_zero_lease() {
    assert_eq!(heartbeat_interval(Duration::ZERO), Duration::from_millis(1));
}

#[test]
fn heartbeat_follows_the_granted_lease() {
    let by = Duration::from_secs(60);
    let derived = AutoExtend {
        explicit_interval: None,
        extend_by: by,
    };
    assert_eq!(
        next_heartbeat(&derived, 10_000, 4_000),
        Duration::from_secs(2)
    );
    assert_eq!(
        next_heartbeat(&derived, 4_000, 10_000),
        Duration::from_millis(1)
    );
    assert_eq!(
        next_heartbeat(&derived, i64::MAX, i64::MIN),
        Duration::from_millis(i64::MAX as u64) / 3
    );
    let explicit = AutoExtend {
        explicit_interval: Some(Duration::from_millis(7)),
        extend_by: by,
    };
    assert_eq!(
        next_heartbeat(&explicit, 10_000, 4_000),
        Duration::from_millis(7)
    );
}

#[test]
fn heartbeat_aborts_when_the_lease_is_lost() {
    let failed = || Err(LeaseError::Client(ClientError::EmptyBatch));
    assert_eq!(
        after_extend(&Ok(SystemTime::UNIX_EPOCH), 10, 20),
        HeartbeatStep::Continue
    );
    assert_eq!(
        after_extend(&Err(LeaseError::AttemptMismatch), 20, 10),
        HeartbeatStep::Abort
    );
    assert_eq!(
        after_extend(&Err(LeaseError::JobNotFound), 20, 10),
        HeartbeatStep::Abort
    );
    assert_eq!(after_extend(&failed(), 20, 19), HeartbeatStep::Continue);
    assert_eq!(after_extend(&failed(), 20, 20), HeartbeatStep::Abort);
}

#[test]
fn worker_err_retry() {
    let e = HandlerError::retry("network");
    assert!(matches!(e, HandlerError::Retry(s) if s == "network"));
}

#[test]
fn worker_err_retry_after() {
    let e = HandlerError::retry_after("rate limited", Duration::from_secs(5));
    assert!(matches!(
        e,
        HandlerError::RetryAfter(s, d) if s == "rate limited" && d == Duration::from_secs(5)
    ));
}

#[test]
fn worker_err_permanent() {
    let e = HandlerError::permanent("bad input");
    assert!(matches!(e, HandlerError::Permanent(s) if s == "bad input"));
}

#[test]
fn default_worker_id_has_expected_format() {
    // host-pid-rand8, where the hostname itself may contain dashes:
    // parse from the right.
    let id = default_worker_id("my-host", 4242);
    let parts: Vec<&str> = id.rsplitn(3, '-').collect();
    assert_eq!(
        parts.len(),
        3,
        "expected host-pid-rand dash-separated parts, got: {id}"
    );
    assert_eq!(parts[0].len(), 8, "expected 8-char hex suffix, got: {id}");
    assert!(parts[0].chars().all(|c| c.is_ascii_hexdigit()));
    assert_eq!(
        parts[1].parse::<u32>().ok(),
        Some(4242),
        "expected the middle part to be the PID, got: {id}"
    );
    assert_eq!(parts[2], "my-host");
    assert_ne!(id, default_worker_id("my-host", 4242));
}

#[test]
fn worker_id_keeps_eight_digits() {
    assert_eq!(
        worker_id_of("h", 7, "0123456789abcdef0123456789abcdef"),
        "h-7-01234567"
    );
}

#[test]
fn hostname_resolves_outside_containers() {
    // Without the variables, the name is what the operating system says.
    let os = gethostname::gethostname().to_string_lossy().into_owned();
    assert!(!choose_hostname(None, None, os).is_empty());
}

#[test]
fn hostname_prefers_the_environment() {
    let some = |s: &str| Some(s.to_string());
    let os = || "os".to_string();
    assert_eq!(choose_hostname(some("h"), some("c"), os()), "h");
    assert_eq!(choose_hostname(None, some("c"), os()), "c");
    assert_eq!(choose_hostname(some(""), some("c"), os()), "os");
    assert_eq!(choose_hostname(None, some(""), os()), "os");
    assert_eq!(choose_hostname(None, None, os()), "os");
}

#[test]
fn nack_backoff_grows_exponentially_and_caps_at_sixty_seconds() {
    assert_eq!(nack_backoff(1), Duration::from_secs(2));
    assert_eq!(nack_backoff(2), Duration::from_secs(4));
    assert_eq!(nack_backoff(5), Duration::from_secs(32));
    assert_eq!(nack_backoff(6), Duration::from_secs(60));
    assert_eq!(nack_backoff(100), Duration::from_secs(60));
    assert_eq!(nack_backoff(u32::MAX), Duration::from_secs(60));
}

#[test]
fn nack_backoff_of_every_small_attempt() {
    let secs: Vec<u64> = (0..8).map(|a| nack_backoff(a).as_secs()).collect();
    assert_eq!(secs, [1, 2, 4, 8, 16, 32, 60, 60]);
}

#[test]
fn handler_error_display_retry() {
    let e = HandlerError::retry("network timeout");
    let s = e.to_string();
    assert!(s.contains("retry"));
    assert!(s.contains("network timeout"));
}

#[test]
fn handler_error_display_retry_after() {
    let e = HandlerError::retry_after("rate limit", Duration::from_secs(30));
    let s = e.to_string();
    assert!(s.contains("retry after"));
    assert!(s.contains("rate limit"));
    assert_eq!(s, "retry after 30s: rate limit");
}

#[test]
fn handler_error_display_permanent() {
    let e = HandlerError::permanent("bad input");
    let s = e.to_string();
    assert!(s.contains("permanent"));
    assert!(s.contains("bad input"));
}

#[test]
fn worker_builder_error_duplicate_handler_display() {
    let e = WorkerBuilderError::DuplicateHandler("send_email".into());
    let s = e.to_string();
    assert!(s.contains("send_email"));
    assert!(s.contains("already registered"));
    assert_eq!(
        s,
        "handler for job_type \"send_email\" is already registered"
    );
}

#[test]
fn worker_builder_error_from_reserve_options() {
    let e = WorkerBuilderError::from(ReserveOptionsError::EmptyWorkerId);
    let s = e.to_string();
    assert!(s.contains("worker_id"));
}

#[test]
fn worker_new_rejects_empty_queues() {
    let result = Worker::<u32>::new(Vec::new(), Duration::from_secs(1), "h", 1);
    assert!(matches!(
        result,
        Err(WorkerBuilderError::ReserveOptions(
            ReserveOptionsError::EmptyQueues
        ))
    ));
}

#[test]
fn worker_new_rejects_zero_lease() {
    let result = Worker::<u32>::new(queues(), Duration::ZERO, "h", 1);
    assert!(matches!(
        result,
        Err(WorkerBuilderError::ReserveOptions(
            ReserveOptionsError::LeaseDurationTooShort
        ))
    ));
}

#[test]
fn worker_new_succeeds_with_valid_args() {
    let w = worker();
    assert_eq!(w.max_in_flight(), 16);
    assert_eq!(w.reserve_error_backoff(), Duration::from_secs(1));
    assert!(w.auto_extend().is_none());
    assert_eq!(w.handler_count(), 0);
    let id = w.options().worker_id().as_ref().unwrap();
    assert!(id.starts_with("host-1-"));
}

#[test]
fn worker_handle_rejects_duplicate_job_type() {
    let w = ok(worker().handle("my_job", 1));
    let result = w.handle("my_job", 2);
    assert!(matches!(
        result,
        Err(WorkerBuilderError::DuplicateHandler(t)) if t == "my_job"
    ));
}

#[test]
fn worker_replace_handler_overwrites() {
    let w = ok(worker().handle("my_job", 1)).replace_handler("my_job", 2);
    assert_eq!(w.route("my_job"), Some(&2));
    assert_eq!(w.handler_count(), 1);
}

#[test]
fn worker_remove_handler_allows_re_registration() {
    let w = ok(worker().handle("my_job", 1)).remove_handler("my_job");
    assert_eq!(w.route("my_job"), None);
    let w = ok(w.handle("my_job", 3));
    assert_eq!(w.route("my_job"), Some(&3));
}

#[test]
fn worker_with_catch_all_handler_succeeds() {
    let w = ok(worker().handle("a", 1)).with_catch_all_handler(9);
    assert_eq!(w.route("a"), Some(&1));
    assert_eq!(w.route("b"), Some(&9));
}

#[test]
fn worker_with_worker_id_rejects_empty() {
    let result = worker().with_worker_id("");
    assert!(matches!(
        result,
        Err(WorkerBuilderError::ReserveOptions(
            ReserveOptionsError::EmptyWorkerId
        ))
    ));
    let named = ok(worker().with_worker_id("me"));
    assert_eq!(named.options().worker_id().as_deref(), Some("me"));
}

#[test]
fn worker_with_wait_timeout_accepts_non_zero() {
    let w = worker().with_wait_timeout(Duration::from_millis(1));
    assert_eq!(w.options().wait_timeout(), Duration::from_millis(1));
}

#[test]
fn worker_with_max_jobs_valid() {
    let w = ok(worker().with_max_jobs(5).handle("t", 1));
    assert_eq!(w.options().max_jobs(), Some(5));
}

#[test]
fn worker_with_max_in_flight_lower_bound() {
    let w = ok(worker().with_max_in_flight(1).handle("t", 1));
    assert_eq!(w.max_in_flight(), 1);
}

#[test]
fn worker_keeps_leases_alive() {
    let derived = worker().with_auto_extend().auto_extend().unwrap();
    assert_eq!(derived.explicit_interval, None);
    assert_eq!(derived.extend_by, Duration::from_secs(1));
    let explicit = worker()
        .with_auto_extend_interval(Duration::from_nanos(5))
        .auto_extend()
        .unwrap();
    assert_eq!(explicit.explicit_interval, Some(Duration::from_millis(1)));
    let longer = worker()
        .with_reserve_error_backoff(Duration::from_secs(2))
        .with_auto_extend_interval(Duration::from_secs(5));
    assert_eq!(
        longer.auto_extend().unwrap().explicit_interval,
        Some(Duration::from_secs(5))
    );
    assert_eq!(longer.reserve_error_backoff(), Duration::from_secs(2));
}

#[test]
fn worker_asks_for_what_it_can_process() {
    let w = worker();
    assert_eq!(w.poll_options(3).max_jobs(), Some(3));
    let w = w.with_max_jobs(2);
    assert_eq!(w.poll_options(3).max_jobs(), Some(2));
    assert_eq!(w.poll_options(1).max_jobs(), Some(1));
    assert_eq!(worker().poll_options(usize::MAX).max_jobs(), Some(u32::MAX));
}

#[test]
fn verdicts_follow_the_handler() {
    assert!(matches!(
        settle(HandlerEnd::Returned(Ok(())), 1),
        Some(Verdict::Ack)
    ));
    assert!(matches!(
        settle(HandlerEnd::Returned(Err(HandlerError::retry("r"))), 1),
        Some(Verdict::Nack { retry: RetryDirective::Default, reason }) if reason == "r"
    ));
    let delay = Duration::from_secs(9);
    assert!(matches!(
        settle(HandlerEnd::Returned(Err(HandlerError::retry_after("r", delay))), 1),
        Some(Verdict::Nack { retry: RetryDirective::After(d), reason }) if reason == "r" && d == delay
    ));
    assert!(matches!(
        settle(HandlerEnd::Returned(Err(HandlerError::permanent("p"))), 1),
        Some(Verdict::Nack { retry: RetryDirective::DeadLetter, reason }) if reason == "p"
    ));
    assert!(matches!(
        settle(HandlerEnd::Panicked, 3),
        Some(Verdict::Nack { retry: RetryDirective::After(d), reason })
            if reason == "handler panicked" && d == Duration::from_secs(8)
    ));
    assert!(settle(HandlerEnd::Aborted, 1).is_none());
    assert!(matches!(
        unhandled(1),
        Verdict::Nack { retry: RetryDirective::After(d), reason }
            if reason == "no handler registered for job_type" && d == Duration::from_secs(2)
    ));
}

#[test]
fn outcomes_have_labels() {
    assert_eq!(nack_outcome(true), "dead_letter");
    assert_eq!(nack_outcome(false), "retry");
    assert_eq!(reserve_outcome(true), "empty");
    assert_eq!(reserve_outcome(false), "some");
}

#[test]
fn early_empty_reserves_are_noticed() {
    let ms = Duration::from_millis;
    assert!(came_early(ms(99), ms(30_000)));
    assert!(!came_early(ms(100), ms(30_000)));
    assert!(came_early(ms(4), ms(10)));
    assert!(!came_early(ms(5), ms(10)));
    assert!(!came_early(ms(0), ms(0)));
    for wait in [0, 1, 2, 50, 199, 200, 30_000] {
        assert!(!came_early(ms(wait), ms(wait)));
    }
}

fn apply(run: &mut RunState, e: Event) {
    assert!(run.expects(&e), "{e:?}");
    run.record(e);
}

#[test]
fn run_processes_what_it_reserves() {
    let mut run = RunState::new(&worker().with_max_in_flight(2));
    assert!(matches!(run.action(), Action::Reserve(2)));
    apply(&mut run, Event::Reserved(3));
    assert!(matches!(run.action(), Action::Start));
    apply(&mut run, Event::Started);
    apply(&mut run, Event::Started);
    assert_eq!(run.in_flight(), 2);
    assert!(matches!(run.action(), Action::AwaitFinish));
    assert!(!run.expects(&Event::Started));
    apply(&mut run, Event::Finished);
    apply(&mut run, Event::Started);
    assert!(matches!(run.action(), Action::AwaitSlot));
    apply(&mut run, Event::Finished);
    assert!(matches!(run.action(), Action::Reserve(1)));
}

#[test]
fn run_drains_before_it_stops() {
    let mut run = RunState::new(&worker().with_max_in_flight(0));
    assert!(matches!(run.action(), Action::Reserve(1)));
    apply(&mut run, Event::Reserved(2));
    apply(&mut run, Event::Shutdown);
    assert!(matches!(run.action(), Action::Start));
    apply(&mut run, Event::Started);
    assert!(matches!(run.action(), Action::AwaitFinish));
    apply(&mut run, Event::Finished);
    apply(&mut run, Event::Started);
    apply(&mut run, Event::Finished);
    assert!(matches!(run.action(), Action::Stop));
    assert!(!run.expects(&Event::Reserved(1)));
    assert!(!run.expects(&Event::Finished));
}

#[test]
fn run_pauses_after_failures() {
    let mut run = RunState::new(&worker().with_reserve_error_backoff(Duration::from_secs(3)));
    apply(&mut run, Event::ReserveFailed);
    assert!(matches!(run.action(), Action::Pause(d) if d == Duration::from_secs(3)));
    assert!(!run.expects(&Event::ReserveFailed));
    apply(&mut run, Event::PauseOver);
    apply(&mut run, Event::ReservedNothing(Duration::from_millis(1)));
    assert!(matches!(run.action(), Action::Pause(d) if d == Duration::from_millis(250)));
    apply(&mut run, Event::PauseOver);
    apply(&mut run, Event::ReservedNothing(Duration::from_secs(30)));
    assert!(matches!(run.action(), Action::Reserve(16)));
    apply(&mut run, Event::Shutdown);
    assert!(matches!(run.action(), Action::Stop));
    assert!(format!("{:?}", Phase::Polling).contains("Polling"));
}

#[test]
fn converters_have_names_and_errors() {
    assert_eq!(JsonConverter.encoding(), "json");
    assert_eq!(
        ConverterError::Encode("e".into()).to_string(),
        "encode failed: e"
    );
    assert_eq!(
        ConverterError::Decode("d".into()).to_string(),
        "decode failed: d"
    );
}
