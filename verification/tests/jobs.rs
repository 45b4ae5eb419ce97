use sepp_rs::client::LeaseError;
use sepp_rs::job::{job_from_pb, job_with_times, Lease, LeaseEnd};
use sepp_rs::pb;
use sepp_rs::pb::primitive_value::Value;
use sepp_rs::time::{
    duration_to_millis, duration_to_proto, millis_to_system_time, now_millis,
    system_time_to_millis, timestamp_to_system_time,
};
use sepp_rs::{
    JobConversionError, Primitive, ReserveOptions, ReserveOptionsError, ServerInfo,
    ServerInfoError, StringMap,
};
use std::time::{Duration, SystemTime};

const VALID_TP: &str = "00-0123456789abcdef0123456789abcdef-0123456789abcdef-01";

fn valid_job_pb() -> pb::Job {
    pb::Job {
        id: "550e8400-e29b-41d4-a716-446655440000".into(),
        job_type: "send_email".into(),
        payload: None,
        priority: 3,
        trace_context: None,
        enqueued_at: 1_700_000_000_000,
        attempt: 1,
        max_attempts: 5,
        lease_expires_at: 1_700_000_060_000,
        custom: StringMap::new(),
        scheduled_at: None,
    }
}

#[test]
fn job_from_pb_happy_path() {
    let mut p = valid_job_pb();
    p.payload = Some(pb::Payload {
        data: vec![1, 2],
        encoding: "json".into(),
    });
    p.custom.insert(
        "k".into(),
        pb::PrimitiveValue {
            value: Some(Value::StringValue("v".into())),
        },
    );
    let job = job_from_pb(p, None).unwrap();
    assert_eq!(job.ctx.id, "550e8400-e29b-41d4-a716-446655440000");
    assert_eq!(job.ctx.job_type, "send_email");
    assert_eq!(job.ctx.priority.get(), 3);
    assert_eq!(job.ctx.attempt, 1);
    assert_eq!(job.ctx.max_attempts, 5);
    assert_eq!(job.payload.as_ref().unwrap().encoding, "json");
    assert_eq!(
        job.ctx.custom.get("k"),
        Some(&Primitive::String("v".into()))
    );
}

#[test]
fn job_from_pb_missing_id() {
    let mut p = valid_job_pb();
    p.id.clear();
    assert!(matches!(
        job_from_pb(p, None),
        Err(JobConversionError::MissingField("id"))
    ));
}

#[test]
fn job_from_pb_missing_job_type() {
    let mut p = valid_job_pb();
    p.job_type.clear();
    assert!(matches!(
        job_from_pb(p, None),
        Err(JobConversionError::MissingField("job_type"))
    ));
}

#[test]
fn job_from_pb_priority_out_of_range() {
    let mut p = valid_job_pb();
    p.priority = 10;
    assert!(matches!(
        job_from_pb(p, None),
        Err(JobConversionError::PriorityOutOfRange(10))
    ));
}

#[test]
fn job_from_pb_priority_above_u8() {
    let mut p = valid_job_pb();
    p.priority = 300;
    assert!(matches!(
        job_from_pb(p, None),
        Err(JobConversionError::PriorityOutOfRange(300))
    ));
}

#[test]
fn job_from_pb_invalid_enqueued_at() {
    let mut p = valid_job_pb();
    p.enqueued_at = -1;
    assert!(matches!(
        job_from_pb(p, None),
        Err(JobConversionError::InvalidTimestamp {
            field: "enqueued_at",
            value: -1
        })
    ));
}

#[test]
fn job_from_pb_invalid_lease_expires_at() {
    let mut p = valid_job_pb();
    p.lease_expires_at = -5;
    assert!(matches!(
        job_from_pb(p, None),
        Err(JobConversionError::InvalidTimestamp {
            field: "lease_expires_at",
            value: -5
        })
    ));
}

#[test]
fn job_from_pb_empty_custom_value() {
    let mut p = valid_job_pb();
    p.custom
        .insert("k".into(), pb::PrimitiveValue { value: None });
    match job_from_pb(p, None) {
        Err(JobConversionError::EmptyCustomValue(k)) => assert_eq!(k, "k"),
        _ => panic!("expected EmptyCustomValue"),
    }
}

#[test]
fn job_from_pb_drops_invalid_trace_context() {
    let mut p = valid_job_pb();
    p.trace_context = Some(pb::TraceContext {
        traceparent: "garbage".into(),
        tracestate: None,
    });
    let job = job_from_pb(p, None).unwrap();
    assert!(job.ctx.trace_context.is_none());
}

#[test]
fn job_from_pb_preserves_valid_trace_context() {
    let mut p = valid_job_pb();
    p.trace_context = Some(pb::TraceContext {
        traceparent: VALID_TP.into(),
        tracestate: Some("v=1".into()),
    });
    let job = job_from_pb(p, None).unwrap();
    let tc = job.ctx.trace_context.as_ref().unwrap();
    assert_eq!(tc.traceparent(), VALID_TP);
    assert_eq!(tc.tracestate(), Some("v=1"));
}

#[test]
fn job_lease_follows_the_job() {
    let job = job_from_pb(valid_job_pb(), Some("w-1")).unwrap();
    assert_eq!(job.ctx.lease_end().known_expiry_ms(), 1_700_000_060_000);
    assert_eq!(job.ctx.lease.job_id(), job.ctx.id);
    assert_eq!(job.ctx.lease.attempt(), 1);
    assert_eq!(job.ctx.lease.worker_id().as_deref(), Some("w-1"));
    assert_eq!(
        job.ctx.to_string(),
        "JobCtx { id: 550e8400-e29b-41d4-a716-446655440000, job_type: send_email, attempt: 1/5, priority: 3 }"
    );
    let copy = job.clone();
    assert_eq!(copy.ctx.id, job.ctx.id);
    assert_eq!(copy.ctx.priority, job.ctx.priority);
    assert_eq!(copy.ctx.lease_expires_at, job.ctx.lease_expires_at);
    assert_eq!(copy.ctx.lease.worker_id().as_deref(), Some("w-1"));
    assert_eq!(copy.payload.is_some(), job.payload.is_some());
    assert_eq!(copy.ctx.to_string(), job.ctx.to_string());
}

#[test]
fn job_with_times_reports_a_missing_time() {
    let now = SystemTime::UNIX_EPOCH + Duration::from_secs(1);
    assert!(matches!(
        job_with_times(valid_job_pb(), None, Some(now), None),
        Err(JobConversionError::InvalidTimestamp {
            field: "enqueued_at",
            value: 1_700_000_000_000
        })
    ));
    let job = job_with_times(valid_job_pb(), Some(now), Some(now), None).unwrap();
    assert_eq!(job.ctx.enqueued_at, now);
    assert_eq!(job.ctx.lease_end().known_expiry_ms(), 1000);
}

#[test]
fn job_conversion_errors_have_messages() {
    assert_eq!(
        JobConversionError::MissingField("id").to_string(),
        "job is missing required field `id`"
    );
    assert_eq!(
        JobConversionError::PriorityOutOfRange(300).to_string(),
        "job priority 300 is out of range (expected 0-9)"
    );
    assert_eq!(
        JobConversionError::InvalidTimestamp {
            field: "enqueued_at",
            value: -1
        }
        .to_string(),
        "job timestamp `enqueued_at` is not a representable time (-1ms)"
    );
    assert_eq!(
        JobConversionError::EmptyCustomValue("k".into()).to_string(),
        "custom value for key `k` has no value set"
    );
}

#[test]
fn lease_new_and_known_expiry() {
    let expiry = SystemTime::UNIX_EPOCH + Duration::from_secs(100);
    let lease = Lease::new("job-1".into(), 1, Some("worker-1".into()));
    assert_eq!(lease.job_id(), "job-1");
    assert_eq!(LeaseEnd::new(expiry).known_expiry_ms(), 100_000);
}

#[test]
fn lease_known_expiry_ms_without_worker_id() {
    let expiry = SystemTime::UNIX_EPOCH + Duration::from_millis(42);
    let lease = Lease::new("j".into(), 3, None);
    assert!(lease.worker_id().is_none());
    assert_eq!(LeaseEnd::new(expiry).known_expiry_ms(), 42);
}

#[test]
fn lease_debug_format() {
    let lease = Lease::new("job-1".into(), 1, None);
    let debug = format!("{:?}", lease);
    assert!(debug.contains("job-1"));
}

#[test]
fn lease_end_takes_note_of_a_new_expiry() {
    let mut end = LeaseEnd::new(SystemTime::UNIX_EPOCH);
    assert_eq!(end.known_expiry_ms(), 0);
    end.note_extend(&Ok(SystemTime::UNIX_EPOCH + Duration::from_millis(77)));
    assert_eq!(end.known_expiry_ms(), 77);
    end.note_extend(&Err(LeaseError::AttemptMismatch));
    assert_eq!(end.known_expiry_ms(), 77);
}

#[test]
fn lease_clones_name_the_same_delivery() {
    let lease = Lease::new("j".into(), 3, Some("w".into()));
    let copy = lease.clone();
    assert_eq!(copy.job_id(), "j");
    assert_eq!(copy.attempt(), 3);
    assert_eq!(copy.worker_id().as_deref(), Some("w"));
}

fn names(queues: &[&str]) -> Vec<String> {
    queues.iter().map(|q| q.to_string()).collect()
}

#[test]
fn reserve_opts_empty_queues() {
    let r = ReserveOptions::new(Vec::<String>::new(), Duration::from_secs(1));
    assert!(matches!(r, Err(ReserveOptionsError::EmptyQueues)));
}

#[test]
fn reserve_opts_empty_queue_name_at_index() {
    let r = ReserveOptions::new(names(&["ok", ""]), Duration::from_secs(1));
    assert!(matches!(r, Err(ReserveOptionsError::EmptyQueueName(1))));
}

#[test]
fn reserve_opts_zero_lease() {
    let r = ReserveOptions::new(names(&["q"]), Duration::ZERO);
    assert!(matches!(r, Err(ReserveOptionsError::LeaseDurationTooShort)));
}

#[test]
fn reserve_opts_with_worker_id_empty_rejected() {
    let opts = ReserveOptions::new(names(&["q"]), Duration::from_secs(1)).unwrap();
    assert!(matches!(
        opts.with_worker_id(""),
        Err(ReserveOptionsError::EmptyWorkerId)
    ));
}

#[test]
fn reserve_opts_default_wait_timeout_30s() {
    let opts = ReserveOptions::new(names(&["q"]), Duration::from_secs(1)).unwrap();
    assert_eq!(opts.wait_timeout(), Duration::from_secs(30));
}

#[test]
fn reserve_opts_with_wait_timeout_overrides() {
    let opts = ReserveOptions::new(names(&["q"]), Duration::from_secs(1))
        .unwrap()
        .with_wait_timeout(Duration::from_millis(500));
    assert_eq!(opts.wait_timeout(), Duration::from_millis(500));
}

#[test]
fn reserve_opts_to_pb_all_fields() {
    let opts = ReserveOptions::new(names(&["q1", "q2"]), Duration::from_millis(5_000))
        .unwrap()
        .with_wait_timeout(Duration::from_millis(2_000))
        .with_worker_id("w")
        .unwrap()
        .with_max_jobs(7);
    let pb: pb::ReserveRequest = opts.into();
    assert_eq!(pb.queues, vec!["q1".to_string(), "q2".to_string()]);
    assert_eq!(pb.wait_timeout_ms, 2_000);
    assert_eq!(pb.lease_duration_ms, 5_000);
    assert_eq!(pb.worker_id.as_deref(), Some("w"));
    assert_eq!(pb.max_jobs, Some(7));
}

#[test]
fn reserve_opts_to_pb_by_ref_matches_by_value() {
    let opts = ReserveOptions::new(names(&["q"]), Duration::from_millis(1_000)).unwrap();
    let by_ref: pb::ReserveRequest = (&opts).into();
    let by_val: pb::ReserveRequest = opts.into();
    assert_eq!(by_ref, by_val);
}

#[test]
fn reserve_opts_errors_have_messages() {
    assert_eq!(
        ReserveOptionsError::EmptyQueues.to_string(),
        "at least one queue must be specified"
    );
    assert_eq!(
        ReserveOptionsError::EmptyQueueName(12).to_string(),
        "queue name at index 12 must not be empty"
    );
    assert_eq!(
        ReserveOptionsError::LeaseDurationTooShort.to_string(),
        "lease_duration must be at least 1ms"
    );
    assert_eq!(
        ReserveOptionsError::EmptyWorkerId.to_string(),
        "worker_id must not be empty when set"
    );
}

#[test]
fn millis_to_system_time_zero() {
    assert_eq!(millis_to_system_time(0), Some(SystemTime::UNIX_EPOCH));
}

#[test]
fn millis_to_system_time_negative_is_none() {
    assert!(millis_to_system_time(-1).is_none());
}

#[test]
fn millis_to_system_time_positive() {
    let t = millis_to_system_time(1_700_000_000_000).unwrap();
    assert_eq!(
        t,
        SystemTime::UNIX_EPOCH + Duration::from_millis(1_700_000_000_000)
    );
}

#[test]
fn system_time_to_millis_at_epoch_is_zero() {
    assert_eq!(system_time_to_millis(SystemTime::UNIX_EPOCH), 0);
}

#[test]
fn system_time_to_millis_pre_epoch_returns_zero() {
    let t = SystemTime::UNIX_EPOCH - Duration::from_secs(1);
    assert_eq!(system_time_to_millis(t), 0);
}

#[test]
fn system_time_to_millis_round_trip() {
    let t = SystemTime::UNIX_EPOCH + Duration::from_millis(42);
    assert_eq!(system_time_to_millis(t), 42);
}

#[test]
fn clock_is_past_the_epoch() {
    assert!(now_millis() > 1_600_000_000_000);
}

#[test]
fn durations_are_written() {
    assert_eq!(duration_to_millis(Duration::from_micros(1999)), 1);
    assert_eq!(duration_to_millis(Duration::new(u64::MAX, 0)), u64::MAX - 999);
    assert_eq!(
        duration_to_proto(Duration::new(3, 500_000_001)),
        pb::ProtoDuration {
            seconds: 3,
            nanos: 500_000_001
        }
    );
    assert_eq!(
        duration_to_proto(Duration::new(u64::MAX, 7)),
        pb::ProtoDuration {
            seconds: i64::MAX,
            nanos: 7
        }
    );
}

#[test]
fn timestamps_are_read() {
    let ts = |seconds, nanos| Some(pb::Timestamp { seconds, nanos });
    assert_eq!(timestamp_to_system_time(None), None);
    assert_eq!(timestamp_to_system_time(ts(-1, 0)), None);
    assert_eq!(timestamp_to_system_time(ts(1, -1)), None);
    assert_eq!(timestamp_to_system_time(ts(1, 1_000_000_000)), None);
    assert_eq!(
        timestamp_to_system_time(ts(0, 0)),
        Some(SystemTime::UNIX_EPOCH)
    );
    assert_eq!(
        timestamp_to_system_time(ts(1_700_000_000, 5_000_000)),
        Some(SystemTime::UNIX_EPOCH + Duration::from_millis(1_700_000_000_005))
    );
}

fn valid_server_info_pb() -> pb::GetServerInfoResponse {
    pb::GetServerInfoResponse {
        server_version: "1.2.3".into(),
        supported_protocol_versions: vec!["v1".into()],
        server_time_ms: 1_700_000_000_000,
        restricts_encodings: false,
        allowed_encodings: vec!["json".into()],
        max_payload_bytes: 1024,
        max_custom_entries: 10,
        max_custom_total_bytes: 2048,
        max_custom_key_bytes: 64,
        max_queue_name_bytes: 512,
        max_job_type_bytes: 256,
        max_idempotency_key_bytes: 128,
        max_schedule_horizon_ms: 86_400_000,
        max_enqueue_batch: 100,
        max_reserve_batch: 50,
        max_reserve_queues: 8,
        max_wait_timeout_ms: 30_000,
        max_lease_duration_ms: 60_000,
        strict_queues: true,
    }
}

#[test]
fn server_info_missing_version() {
    let mut p = valid_server_info_pb();
    p.server_version.clear();
    assert!(matches!(
        ServerInfo::try_from(p),
        Err(ServerInfoError::MissingField("server_version"))
    ));
}

#[test]
fn server_info_invalid_server_time() {
    let mut p = valid_server_info_pb();
    p.server_time_ms = -1;
    assert!(matches!(
        ServerInfo::try_from(p),
        Err(ServerInfoError::InvalidServerTime(-1))
    ));
}

#[test]
fn server_info_happy_path() {
    let info = ServerInfo::try_from(valid_server_info_pb()).unwrap();
    assert_eq!(info.version, "1.2.3");
    assert_eq!(info.supported_protocol_versions, vec!["v1".to_string()]);
    assert_eq!(info.allowed_encodings, vec!["json".to_string()]);
    assert!(!info.restricts_encodings);
    assert_eq!(info.max_payload_size, 1024);
    assert_eq!(info.max_custom_entries, 10);
    assert_eq!(info.max_custom_total_bytes, 2048);
    assert_eq!(info.max_custom_key_bytes, 64);
    assert_eq!(info.max_queue_name_bytes, 512);
    assert_eq!(info.max_job_type_bytes, 256);
    assert_eq!(info.max_idempotency_key_bytes, 128);
    assert_eq!(info.max_schedule_horizon_ms, 86_400_000);
    assert_eq!(info.max_enqueue_batch, 100);
    assert_eq!(info.max_reserve_batch, 50);
    assert_eq!(info.max_reserve_queues, 8);
    assert_eq!(info.max_wait_timeout_ms, 30_000);
    assert_eq!(info.max_lease_duration_ms, 60_000);
    assert!(info.strict_queues);
    assert_eq!(
        info.server_time,
        SystemTime::UNIX_EPOCH + Duration::from_millis(1_700_000_000_000)
    );
}

#[test]
fn server_info_errors_have_messages() {
    assert_eq!(
        ServerInfoError::MissingField("server_version").to_string(),
        "server info is missing required field `server_version`"
    );
    assert_eq!(
        ServerInfoError::InvalidServerTime(-1).to_string(),
        "server_time_ms is not a representable time (-1ms)"
    );
}
