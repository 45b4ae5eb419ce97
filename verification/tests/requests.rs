use sepp_rs::client::{ClientError, EnqueueError};
use sepp_rs::pb;
use sepp_rs::pb::job_rejection::Reason;
use sepp_rs::{
    AtomicEnqueueError, EnqueueAck, EnqueueRequest, EnqueueRequestBuilderError, JobRejection,
    JobValidationError, Payload, Primitive, Priority, StringMap, TraceContext,
};
use std::time::{Duration, SystemTime};

const VALID_TP: &str = "00-0123456789abcdef0123456789abcdef-0123456789abcdef-01";

#[test]
fn enqueue_request_empty_queue_rejected() {
    assert!(matches!(
        EnqueueRequest::new("", "type"),
        Err(EnqueueRequestBuilderError::EmptyQueue)
    ));
}

#[test]
fn enqueue_request_empty_job_type_rejected() {
    assert!(matches!(
        EnqueueRequest::new("q", ""),
        Err(EnqueueRequestBuilderError::EmptyJobType)
    ));
}

#[test]
fn enqueue_request_errors_have_messages() {
    assert_eq!(
        EnqueueRequest::new("", "").unwrap_err().to_string(),
        "queue name must not be empty"
    );
    assert_eq!(
        EnqueueRequest::new("q", "").unwrap_err().to_string(),
        "job type must not be empty"
    );
}

#[test]
fn enqueue_request_to_pb_minimal() {
    let req = EnqueueRequest::new("q", "t").unwrap();
    let pb: pb::EnqueueRequest = req.into();
    assert_eq!(pb.queue, "q");
    assert_eq!(pb.job_type, "t");
    assert!(pb.payload.is_none());
    assert!(pb.idempotency_key.is_none());
    assert!(pb.priority.is_none());
    assert!(pb.max_attempts.is_none());
    assert!(pb.custom.is_empty());
    assert!(pb.trace_context.is_none());
    assert!(pb.scheduled_at.is_none());
}

#[test]
fn enqueue_request_to_pb_all_fields() {
    let mut custom = StringMap::new();
    custom.insert("k".into(), Primitive::Int(1));
    let req = EnqueueRequest::new("q", "t")
        .unwrap()
        .with_payload(Payload {
            data: vec![1],
            encoding: "raw".into(),
        })
        .with_idempotency_key("idem")
        .with_priority(Priority::new(7).unwrap())
        .with_max_attempts(5)
        .with_custom(custom)
        .with_trace_context(TraceContext::new(VALID_TP).unwrap())
        .with_scheduled_at(SystemTime::UNIX_EPOCH + Duration::from_millis(1234));
    let pb: pb::EnqueueRequest = req.into();
    assert_eq!(pb.queue, "q");
    assert_eq!(pb.job_type, "t");
    assert_eq!(pb.payload.as_ref().unwrap().encoding, "raw");
    assert_eq!(pb.payload.as_ref().unwrap().data, vec![1]);
    assert_eq!(pb.idempotency_key.as_deref(), Some("idem"));
    assert_eq!(pb.priority, Some(7));
    assert_eq!(pb.max_attempts, Some(5));
    assert_eq!(pb.custom.len(), 1);
    assert!(pb.trace_context.is_some());
    assert_eq!(pb.scheduled_at, Some(1234));
}

#[test]
fn enqueue_request_scheduled_at_pre_epoch_becomes_none() {
    let req = EnqueueRequest::new("q", "t")
        .unwrap()
        .with_scheduled_at(SystemTime::UNIX_EPOCH - Duration::from_secs(1));
    let pb: pb::EnqueueRequest = req.into();
    assert!(pb.scheduled_at.is_none());
}

#[test]
fn enqueue_request_clone_is_sent_alike() {
    let req = EnqueueRequest::new("q", "t")
        .unwrap()
        .with_payload(Payload::new(vec![4], "raw"))
        .with_custom_entry("a", Primitive::from("x"))
        .with_custom_entry("a", Primitive::from(true))
        .with_custom_entry("b", Primitive::from(2_i64));
    let copy = pb::EnqueueRequest::from(req.clone());
    let pb = pb::EnqueueRequest::from(req);
    assert_eq!(copy.payload, pb.payload);
    assert_eq!(copy.custom.len(), 2);
    assert_eq!(copy.custom.get("a"), pb.custom.get("a"));
    assert_eq!(
        copy.custom.get("a"),
        Some(&pb::PrimitiveValue::from(Primitive::Bool(true)))
    );
}

#[test]
fn enqueue_ack_from_pb() {
    let pb = pb::EnqueueResponse {
        job_id: "abc".into(),
        deduplicated: true,
    };
    let ack = EnqueueAck::from(pb);
    assert_eq!(ack.job_id, "abc");
    assert!(ack.deduplicated);
}

fn rej(reason: Reason) -> pb::JobRejection {
    pb::JobRejection {
        reason: Some(reason),
    }
}

#[test]
fn job_rejection_unknown_queue() {
    let pb = rej(Reason::UnknownQueue(pb::UnknownQueue { queue: "q".into() }));
    assert!(matches!(JobRejection::from(pb), JobRejection::UnknownQueue { queue } if queue == "q"));
}

#[test]
fn job_rejection_payload_too_large() {
    let pb = rej(Reason::PayloadTooLarge(pb::PayloadTooLarge {
        limit: 10,
        actual: 20,
    }));
    assert!(matches!(
        JobRejection::from(pb),
        JobRejection::PayloadTooLarge {
            limit: 10,
            actual: 20
        }
    ));
}

#[test]
fn job_rejection_encoding_not_allowed() {
    let pb = rej(Reason::EncodingNotAllowed(pb::EncodingNotAllowed {
        encoding: "gzip".into(),
        allowed: vec!["json".into()],
    }));
    match JobRejection::from(pb) {
        JobRejection::EncodingNotAllowed { encoding, allowed } => {
            assert_eq!(encoding, "gzip");
            assert_eq!(allowed, vec!["json".to_string()]);
        }
        _ => panic!("wrong variant"),
    }
}

#[test]
fn job_rejection_job_type_not_allowed() {
    let pb = rej(Reason::JobTypeNotAllowed(pb::JobTypeNotAllowed {
        job_type: "x".into(),
        allowed: vec!["y".into()],
    }));
    match JobRejection::from(pb) {
        JobRejection::JobTypeNotAllowed { job_type, allowed } => {
            assert_eq!(job_type, "x");
            assert_eq!(allowed, vec!["y".to_string()]);
        }
        _ => panic!("wrong variant"),
    }
}

#[test]
fn job_rejection_custom_entries_too_many() {
    let pb = rej(Reason::CustomEntriesTooMany(pb::CustomEntriesTooMany {
        limit: 5,
        actual: 6,
    }));
    assert!(matches!(
        JobRejection::from(pb),
        JobRejection::CustomEntriesTooMany {
            limit: 5,
            actual: 6
        }
    ));
}

#[test]
fn job_rejection_custom_map_too_large() {
    let pb = rej(Reason::CustomMapTooLarge(pb::CustomMapTooLarge {
        limit: 100,
        actual: 200,
    }));
    assert!(matches!(
        JobRejection::from(pb),
        JobRejection::CustomMapTooLarge {
            limit: 100,
            actual: 200
        }
    ));
}

#[test]
fn job_rejection_custom_key_too_long() {
    let pb = rej(Reason::CustomKeyTooLong(pb::CustomKeyTooLong {
        key: "k".into(),
        limit: 1,
        actual: 2,
    }));
    match JobRejection::from(pb) {
        JobRejection::CustomKeyTooLong { key, limit, actual } => {
            assert_eq!(key, "k");
            assert_eq!(limit, 1);
            assert_eq!(actual, 2);
        }
        _ => panic!("wrong variant"),
    }
}

#[test]
fn job_rejection_queue_name_too_long() {
    let pb = rej(Reason::QueueNameTooLong(pb::QueueNameTooLong {
        limit: 1,
        actual: 2,
    }));
    assert!(matches!(
        JobRejection::from(pb),
        JobRejection::QueueNameTooLong {
            limit: 1,
            actual: 2
        }
    ));
}

#[test]
fn job_rejection_job_type_name_too_long() {
    let pb = rej(Reason::JobTypeNameTooLong(pb::JobTypeNameTooLong {
        limit: 3,
        actual: 4,
    }));
    assert!(matches!(
        JobRejection::from(pb),
        JobRejection::JobTypeNameTooLong {
            limit: 3,
            actual: 4
        }
    ));
}

#[test]
fn job_rejection_idempotency_key_too_long() {
    let pb = rej(Reason::IdempotencyKeyTooLong(pb::IdempotencyKeyTooLong {
        limit: 8,
        actual: 9,
    }));
    assert!(matches!(
        JobRejection::from(pb),
        JobRejection::IdempotencyKeyTooLong {
            limit: 8,
            actual: 9
        }
    ));
}

#[test]
fn job_rejection_scheduled_too_far() {
    let pb = rej(Reason::ScheduledTooFar(pb::ScheduledTooFar {
        horizon_ms: 60_000,
        actual_ms: 120_000,
    }));
    assert!(matches!(
        JobRejection::from(pb),
        JobRejection::ScheduledTooFar {
            horizon_ms: 60_000,
            actual_ms: 120_000
        }
    ));
}

#[test]
fn job_rejection_invalid_request() {
    let pb = rej(Reason::InvalidRequest(pb::InvalidRequest {
        message: "oops".into(),
    }));
    match JobRejection::from(pb) {
        JobRejection::InvalidRequest { message } => assert_eq!(message, "oops"),
        _ => panic!("wrong variant"),
    }
}

#[test]
fn job_rejection_none_is_unknown() {
    let pb = pb::JobRejection { reason: None };
    assert!(matches!(JobRejection::from(pb), JobRejection::Unknown));
}

#[test]
fn job_rejections_have_messages() {
    let cases = [
        (
            JobRejection::UnknownQueue {
                queue: "a\"b".into(),
            },
            "queue \"a\\\"b\" is not declared on the server (strict mode)",
        ),
        (
            JobRejection::PayloadTooLarge {
                limit: 10,
                actual: 20,
            },
            "payload size 20 bytes exceeds the queue limit of 10",
        ),
        (
            JobRejection::EncodingNotAllowed {
                encoding: "gzip".into(),
                allowed: vec!["json".into(), "raw".into()],
            },
            "payload encoding \"gzip\" is not allowed; accepted: [\"json\", \"raw\"]",
        ),
        (
            JobRejection::JobTypeNotAllowed {
                job_type: "x".into(),
                allowed: vec![],
            },
            "job_type \"x\" is not accepted by this queue; accepted: []",
        ),
        (
            JobRejection::CustomEntriesTooMany {
                limit: 5,
                actual: 6,
            },
            "custom map has 6 entries, exceeding the queue limit of 5",
        ),
        (
            JobRejection::CustomMapTooLarge {
                limit: 100,
                actual: 200,
            },
            "custom map's total size 200 bytes exceeds the queue limit of 100",
        ),
        (
            JobRejection::CustomKeyTooLong {
                key: "k".into(),
                limit: 1,
                actual: 2,
            },
            "custom key \"k\" is 2 bytes, exceeding the limit of 1",
        ),
        (
            JobRejection::QueueNameTooLong {
                limit: 1,
                actual: 2,
            },
            "queue name is 2 bytes, exceeding the limit of 1",
        ),
        (
            JobRejection::JobTypeNameTooLong {
                limit: 3,
                actual: 4,
            },
            "job_type is 4 bytes, exceeding the limit of 3",
        ),
        (
            JobRejection::IdempotencyKeyTooLong {
                limit: 8,
                actual: 18446744073709551615,
            },
            "idempotency_key is 18446744073709551615 bytes, exceeding the limit of 8",
        ),
        (
            JobRejection::ScheduledTooFar {
                horizon_ms: 60_000,
                actual_ms: -9223372036854775808,
            },
            "scheduled_at -9223372036854775808ms is beyond max_schedule_horizon_ms (60000ms)",
        ),
        (
            JobRejection::InvalidRequest {
                message: "oops".into(),
            },
            "structural validation failed: oops",
        ),
        (
            JobRejection::Unknown,
            "server returned an unrecognized rejection variant",
        ),
    ];
    for (rejection, message) in cases {
        assert_eq!(rejection.to_string(), message);
    }
}

#[test]
fn job_validation_error_from_pb() {
    let pb = pb::JobValidationError {
        index: 3,
        rejection: Some(rej(Reason::UnknownQueue(pb::UnknownQueue {
            queue: "q".into(),
        }))),
    };
    let e = JobValidationError::from(pb);
    assert_eq!(e.index, 3);
    assert!(matches!(e.rejection, JobRejection::UnknownQueue { queue } if queue == "q"));
}

#[test]
fn job_validation_error_missing_rejection_is_unknown() {
    let pb = pb::JobValidationError {
        index: 1,
        rejection: None,
    };
    let e = JobValidationError::from(pb);
    assert!(matches!(e.rejection, JobRejection::Unknown));
}

#[test]
fn enqueue_error_rejected_displays_job_rejection() {
    let err = EnqueueError::Rejected(JobRejection::Unknown);
    let msg = err.to_string();
    assert!(msg.contains("unrecognized rejection variant"));
    assert_eq!(
        EnqueueError::from(ClientError::EmptyBatch).to_string(),
        "empty batch"
    );
}

#[test]
fn atomic_enqueue_errors_have_messages() {
    let failed = JobValidationError {
        index: 0,
        rejection: JobRejection::Unknown,
    };
    assert_eq!(
        AtomicEnqueueError::Validation(vec![failed.clone(), failed]).to_string(),
        "atomic batch rejected: 2 job(s) failed validation"
    );
    assert_eq!(
        AtomicEnqueueError::from(ClientError::EmptyBatch).to_string(),
        "empty batch"
    );
}
