use sepp_rs::client::builder::connect_error;
use sepp_rs::client::calls::{
    ack_request, atomic_results, batch_request, batch_results, drain_request, extend_job_request,
    extend_request, extend_result, inject_trace_context, nack_request, nack_result, reserve_deadline,
    reserved_jobs, server_info_result, single_result, skip_malformed,
};
use sepp_rs::client::retry::{clock_jitter, jitter_bits, next_backoff};
use sepp_rs::client::{
    endpoint, is_transient, root_cause, ApiKeyInterceptor, ClientError, EnqueueError, ErrorChain, LeaseError,
    ReserveError, RetryDirective, RetryPolicy, RetryState, RetryStep, SeppClient,
};
use sepp_rs::job::job_from_pb;
use sepp_rs::pb;
use sepp_rs::pb::enqueue_atomic_response;
use sepp_rs::pb::job_result::Outcome;
use sepp_rs::pb::nack_retry::Strategy;
use sepp_rs::status::{self, status_code};
use sepp_rs::{
    AtomicEnqueueError, Double, EnqueueAck, EnqueueRequest, JobConversionError, JobRejection,
    ReserveOptions, ServerInfoError, StringMap, TraceContext,
};
use std::time::{Duration, SystemTime};
use tonic::Code;

fn st(code: Code, msg: &str) -> tonic::Status {
    tonic::Status::new(code, msg)
}

#[test]
fn client_err_unavailable_is_transport() {
    assert!(matches!(
        ClientError::from(st(Code::Unavailable, "x")),
        ClientError::Transport(_)
    ));
}

#[test]
fn client_err_deadline_is_transport() {
    assert!(matches!(
        ClientError::from(st(Code::DeadlineExceeded, "x")),
        ClientError::Transport(_)
    ));
}

#[test]
fn client_err_aborted_is_transport() {
    assert!(matches!(
        ClientError::from(st(Code::Aborted, "x")),
        ClientError::Transport(_)
    ));
}

#[test]
fn client_err_cancelled_is_transport() {
    assert!(matches!(
        ClientError::from(st(Code::Cancelled, "x")),
        ClientError::Transport(_)
    ));
}

#[test]
fn client_err_unauthenticated() {
    assert!(matches!(
        ClientError::from(st(Code::Unauthenticated, "x")),
        ClientError::Unauthenticated(_)
    ));
}

#[test]
fn client_err_permission_denied_is_unauthenticated() {
    assert!(matches!(
        ClientError::from(st(Code::PermissionDenied, "x")),
        ClientError::Unauthenticated(_)
    ));
}

#[test]
fn client_err_resource_exhausted_is_overloaded() {
    assert!(matches!(
        ClientError::from(st(Code::ResourceExhausted, "x")),
        ClientError::Overloaded(_)
    ));
}

#[test]
fn client_err_invalid_argument_is_invalid_request() {
    assert!(matches!(
        ClientError::from(st(Code::InvalidArgument, "x")),
        ClientError::InvalidRequest(_)
    ));
}

#[test]
fn client_err_internal_is_server_internal() {
    assert!(matches!(
        ClientError::from(st(Code::Internal, "x")),
        ClientError::ServerInternal(_)
    ));
}

#[test]
fn client_err_data_loss_is_server_internal() {
    assert!(matches!(
        ClientError::from(st(Code::DataLoss, "x")),
        ClientError::ServerInternal(_)
    ));
}

#[test]
fn client_err_unknown_is_server_internal() {
    assert!(matches!(
        ClientError::from(st(Code::Unknown, "x")),
        ClientError::ServerInternal(_)
    ));
}

#[test]
fn client_err_other_is_unexpected_status() {
    match ClientError::from(st(Code::NotFound, "x")) {
        ClientError::UnexpectedStatus { code, .. } => assert_eq!(code, status::Code::NotFound),
        _ => panic!("wrong variant"),
    }
}

#[test]
fn client_err_preserves_message() {
    match ClientError::from(st(Code::Internal, "boom")) {
        ClientError::ServerInternal(m) => assert_eq!(m, "boom"),
        _ => panic!("wrong variant"),
    }
}

#[test]
fn enqueue_err_wraps_client() {
    assert!(matches!(
        EnqueueError::from(st(Code::Unavailable, "x")),
        EnqueueError::Client(ClientError::Transport(_))
    ));
}

#[test]
fn lease_err_not_found() {
    assert!(matches!(
        LeaseError::from(st(Code::NotFound, "x")),
        LeaseError::JobNotFound
    ));
}

#[test]
fn lease_err_failed_precondition_is_attempt_mismatch() {
    assert!(matches!(
        LeaseError::from(st(Code::FailedPrecondition, "x")),
        LeaseError::AttemptMismatch
    ));
}

#[test]
fn lease_err_other_wraps_client() {
    assert!(matches!(
        LeaseError::from(st(Code::Unavailable, "x")),
        LeaseError::Client(ClientError::Transport(_))
    ));
}

#[test]
fn reserve_err_failed_precondition_is_unknown_queues() {
    match ReserveError::from(st(Code::FailedPrecondition, "queues: a, b")) {
        ReserveError::UnknownQueues(m) => assert_eq!(m, "queues: a, b"),
        _ => panic!("wrong variant"),
    }
}

#[test]
fn reserve_err_other_wraps_client() {
    assert!(matches!(
        ReserveError::from(st(Code::Unavailable, "x")),
        ReserveError::Client(ClientError::Transport(_))
    ));
}

#[test]
fn atomic_enqueue_err_wraps_client() {
    assert!(matches!(
        AtomicEnqueueError::from(st(Code::Unavailable, "x")),
        AtomicEnqueueError::Client(ClientError::Transport(_))
    ));
}

#[test]
fn status_codes_keep_their_names() {
    for n in 0..=16 {
        let code = Code::from(n);
        let own = status_code(&st(code, ""));
        if n == 0 {
            assert_eq!(own, status::Code::Success);
            assert_eq!(own.name(), "Ok");
        } else {
            assert_eq!(own.name(), format!("{code:?}"));
        }
    }
    assert_eq!(status::Code::from_number(99), status::Code::Unknown);
}

#[test]
fn client_errors_have_messages() {
    let cases = [
        (
            ClientError::Connect {
                addr: "http://x".into(),
                reason: "refused".into(),
            },
            "could not connect to Sepp server at http://x: refused",
        ),
        (
            ClientError::InvalidApiKey,
            "the API key is not a valid HTTP header value",
        ),
        (
            ClientError::Transport("t".into()),
            "transport failure: t",
        ),
        (
            ClientError::Unauthenticated("u".into()),
            "authentication failed: u",
        ),
        (
            ClientError::Overloaded("o".into()),
            "server is overloaded: o",
        ),
        (
            ClientError::InvalidRequest("i".into()),
            "invalid request: i",
        ),
        (
            ClientError::ServerInternal("s".into()),
            "server internal error: s",
        ),
        (
            ClientError::from(st(Code::NotFound, "gone")),
            "server returned unexpected status NotFound: gone",
        ),
        (ClientError::EmptyBatch, "empty batch"),
        (
            ClientError::BatchResultCountMismatch {
                expected: 10,
                got: 7,
            },
            "server returned 7 results for a batch of 10 jobs",
        ),
        (
            ClientError::MalformedResponse("m"),
            "malformed response: m",
        ),
        (
            ClientError::from(JobConversionError::MissingField("id")),
            "server returned a malformed job: job is missing required field `id`",
        ),
        (
            ClientError::from(ServerInfoError::InvalidServerTime(-1)),
            "server returned malformed server info: server_time_ms is not a representable time (-1ms)",
        ),
    ];
    for (e, message) in cases {
        assert_eq!(e.to_string(), message);
    }
}

#[test]
fn lease_and_reserve_errors_have_messages() {
    assert_eq!(
        LeaseError::JobNotFound.to_string(),
        "no in-flight job with this id (already acked, expired, or never existed)"
    );
    assert_eq!(
        LeaseError::AttemptMismatch.to_string(),
        "attempt mismatch: the lease was reassigned"
    );
    assert_eq!(
        LeaseError::from(ClientError::EmptyBatch).to_string(),
        "empty batch"
    );
    assert_eq!(
        ReserveError::UnknownQueues("a".into()).to_string(),
        "requested queues are not declared on the server: a"
    );
    assert_eq!(
        ReserveError::from(ClientError::EmptyBatch).to_string(),
        "empty batch"
    );
}

#[test]
fn client_error_empty_batch_display() {
    assert!(ClientError::EmptyBatch.to_string().contains("empty batch"));
}

#[test]
fn client_error_batch_result_count_mismatch_display() {
    let err = ClientError::BatchResultCountMismatch {
        expected: 10,
        got: 7,
    };
    let msg = err.to_string();
    assert!(msg.contains("10"));
    assert!(msg.contains("7"));
}

#[test]
fn client_error_malformed_response_display() {
    let err = ClientError::MalformedResponse("missing field id");
    assert!(err.to_string().contains("missing field id"));
}

#[test]
fn api_key_interceptor_rejects_invalid_header_value() {
    // Newline in header value is not a valid HTTP header
    assert!(ApiKeyInterceptor::new(Some("bad\nkey")).is_none());
}

#[test]
fn api_key_interceptor_none_disables_auth() {
    let interceptor = ApiKeyInterceptor::new(None).unwrap();
    assert!(!interceptor.is_enabled());
}

#[test]
fn api_key_interceptor_some_enables_auth() {
    let interceptor = ApiKeyInterceptor::new(Some("token")).unwrap();
    assert!(interceptor.is_enabled());
}

#[test]
fn api_key_forms_a_bearer_value() {
    let interceptor = ApiKeyInterceptor::new(Some("token")).unwrap();
    assert_eq!(interceptor.authorization().as_deref(), Some("Bearer token"));
}

#[test]
fn disabled_interceptor_has_no_value() {
    assert!(ApiKeyInterceptor::disabled().authorization().is_none());
    assert!(!ApiKeyInterceptor::disabled().is_enabled());
}

#[test]
fn api_keys_hold_what_a_header_can() {
    for key in ["", "plain", "with space", "tab\there", "~!", "caf\u{e9}", "\u{80}"] {
        assert!(ApiKeyInterceptor::new(Some(key)).is_some(), "{key:?}");
    }
    for key in ["\u{7f}", "\u{0}", "\r", "\u{1f}"] {
        assert!(ApiKeyInterceptor::new(Some(key)).is_none(), "{key:?}");
    }
}

#[test]
fn is_transient_classifies_codes() {
    assert!(is_transient(&st(Code::Unavailable, "")));
    assert!(is_transient(&st(Code::DeadlineExceeded, "")));
    assert!(is_transient(&st(Code::Aborted, "")));
    assert!(is_transient(&st(Code::ResourceExhausted, "")));

    assert!(!is_transient(&st(Code::Cancelled, "")));
    assert!(!is_transient(&st(Code::InvalidArgument, "")));
    assert!(!is_transient(&st(Code::NotFound, "")));
    assert!(!is_transient(&st(Code::FailedPrecondition, "")));
    assert!(!is_transient(&st(Code::Unauthenticated, "")));
    assert!(!is_transient(&st(Code::PermissionDenied, "")));
    assert!(!is_transient(&st(Code::Internal, "")));
    assert!(!is_transient(&st(Code::DataLoss, "")));
    assert!(!is_transient(&st(Code::Unknown, "")));
}

#[test]
fn clock_jitter_in_range() {
    for _ in 0..256 {
        let bits = clock_jitter();
        assert!(bits < 65536, "jitter out of range: {bits}");
    }
}

#[test]
fn jitter_bits_mixes_the_clock() {
    for nanos in [0u32, 1, 131_072, 999_999_999] {
        let mut x = nanos as u64;
        x ^= x >> 17;
        x = x.wrapping_mul(0xed5ad4bb);
        x ^= x >> 11;
        assert_eq!(jitter_bits(nanos) as u64, x & 0xffff);
    }
    assert_eq!(jitter_bits(0), 0);
    assert_eq!(jitter_bits(1), 0x7fe1);
}

fn fast_policy(max_attempts: u32) -> RetryPolicy {
    RetryPolicy::default()
        .with_max_attempts(max_attempts)
        .with_initial_backoff(Duration::from_millis(1))
        .with_max_backoff(Duration::from_millis(1))
        .without_jitter()
}

// Calls `f` as the policy says, without pauses, and counts the calls.
fn drive<T>(
    policy: &RetryPolicy,
    mut f: impl FnMut(u32) -> Result<T, tonic::Status>,
) -> (Result<T, tonic::Status>, u32) {
    let mut state = RetryState::new(policy);
    loop {
        match f(state.attempt()) {
            Ok(v) => return (Ok(v), state.attempt()),
            Err(s) => match state.after_failure(policy, status_code(&s)) {
                RetryStep::GiveUp => return (Err(s), state.attempt()),
                RetryStep::Retry => {}
            },
        }
    }
}

#[test]
fn with_retry_returns_immediately_on_success() {
    let (result, calls) = drive(&fast_policy(5), |_| Ok(42));
    assert_eq!(result.unwrap(), 42);
    assert_eq!(calls, 1);
}

#[test]
fn with_retry_succeeds_after_transient_failures() {
    let (result, calls) = drive(&fast_policy(5), |n| {
        if n < 3 {
            Err(st(Code::Unavailable, "blip"))
        } else {
            Ok(7)
        }
    });
    assert_eq!(result.unwrap(), 7);
    assert_eq!(calls, 3);
}

#[test]
fn with_retry_gives_up_after_max_attempts() {
    let (result, calls) = drive(&fast_policy(3), |_| {
        Err::<(), _>(st(Code::Unavailable, "still down"))
    });
    assert_eq!(result.unwrap_err().code(), Code::Unavailable);
    assert_eq!(calls, 3);
}

#[test]
fn with_retry_does_not_retry_non_transient_errors() {
    let (result, calls) = drive(&fast_policy(5), |_| {
        Err::<(), _>(st(Code::InvalidArgument, "nope"))
    });
    assert_eq!(result.unwrap_err().code(), Code::InvalidArgument);
    assert_eq!(calls, 1);
}

#[test]
fn with_retry_default_policy_runs_once() {
    let (result, calls) = drive(&RetryPolicy::default(), |_| {
        Err::<(), _>(st(Code::Unavailable, "transient"))
    });
    assert!(result.is_err());
    assert_eq!(calls, 1);
}

#[test]
fn retry_state_keeps_its_backoff() {
    let mut state = RetryState::new(&fast_policy(2));
    assert_eq!(state.backoff(), Duration::from_millis(1));
    assert_eq!(
        state.after_failure(&fast_policy(2), status::Code::Unavailable),
        RetryStep::Retry
    );
    state.grow_backoff(&fast_policy(2), Some(Duration::from_micros(500)));
    assert_eq!(state.backoff(), Duration::from_micros(500));
    state.grow_backoff(&fast_policy(2), Some(Duration::from_millis(5)));
    assert_eq!(state.backoff(), Duration::from_millis(1));
    assert_eq!(state.attempt(), 2);
    assert_eq!(
        state.after_failure(&fast_policy(2), status::Code::Unavailable),
        RetryStep::GiveUp
    );
    assert_eq!(state.attempt(), 2);
}

#[test]
fn grown_backoffs_are_capped() {
    let policy = RetryPolicy::default().with_max_backoff(Duration::from_secs(2));
    let grown = |d| next_backoff(&policy, d);
    assert_eq!(
        grown(Some(Duration::from_secs(1))),
        Duration::from_secs(1)
    );
    assert_eq!(
        grown(Some(Duration::from_secs(3))),
        Duration::from_secs(2)
    );
    assert_eq!(grown(None), Duration::from_secs(2));
}

#[test]
fn retry_policy_max_attempts_clamps_to_one() {
    let p = RetryPolicy::default().with_max_attempts(0);
    assert_eq!(p.max_attempts(), 1);
}

#[test]
fn retry_policy_default_is_no_retry() {
    assert_eq!(RetryPolicy::default().max_attempts(), 1);
}

#[test]
fn retry_policy_with_max_attempts_clamps_to_one() {
    let p = RetryPolicy::default().with_max_attempts(0);
    assert_eq!(p.max_attempts(), 1);
    let p = RetryPolicy::default().with_max_attempts(1);
    assert_eq!(p.max_attempts(), 1);
    let p = RetryPolicy::default().with_max_attempts(5);
    assert_eq!(p.max_attempts(), 5);
}

#[test]
fn retry_policy_without_jitter_does_not_panic() {
    let p = RetryPolicy::default().without_jitter();
    assert!(!p.jitter());
}

#[test]
fn retry_policy_multiplier_methods_do_not_panic() {
    let of = |m: f64| {
        let p = RetryPolicy::default().with_multiplier(Double::from_bits(m.to_bits()));
        f64::from_bits(p.multiplier().to_bits())
    };
    assert_eq!(of(0.5), 1.0);
    assert_eq!(of(1.0), 1.0);
    assert_eq!(of(2.5), 2.5);
    assert_eq!(of(f64::NAN), 1.0);
}

#[test]
fn retry_policy_defaults() {
    let p = RetryPolicy::default();
    assert_eq!(p.initial_backoff(), Duration::from_millis(100));
    assert_eq!(p.max_backoff(), Duration::from_secs(10));
    assert_eq!(f64::from_bits(p.multiplier().to_bits()), 2.0);
    assert!(p.jitter());
    assert_eq!(p.clone().max_attempts(), 1);
}

#[test]
fn builder_defaults_rpc_timeout_and_message_size() {
    let b = SeppClient::builder("http://localhost:1");
    assert_eq!(b.configured_rpc_timeout(), Duration::from_secs(30));
    assert!(b.configured_max_receive_message_bytes().is_none());
}

#[test]
fn builder_rpc_timeout_overrides_default() {
    let b = SeppClient::builder("http://localhost:1").rpc_timeout(Duration::from_secs(5));
    assert_eq!(b.configured_rpc_timeout(), Duration::from_secs(5));
}

#[test]
fn builder_max_receive_message_bytes_set() {
    let b = SeppClient::builder("http://localhost:1").max_receive_message_bytes(16 * 1024 * 1024);
    assert_eq!(
        b.configured_max_receive_message_bytes(),
        Some(16 * 1024 * 1024)
    );
}

#[test]
fn unconfigured_client_has_the_default_deadline() {
    assert_eq!(
        SeppClient::unconfigured().rpc_timeout(),
        Duration::from_secs(30)
    );
}

#[test]
fn builder_prepares_a_connection() {
    let plan = SeppClient::builder("http://localhost:1")
        .api_key("secret")
        .retry_policy(RetryPolicy::default().with_max_attempts(3))
        .prepare();
    let plan = match plan {
        Ok(plan) => plan,
        Err(_) => panic!("the key is fine"),
    };
    assert_eq!(plan.addr, "http://localhost:1");
    assert_eq!(
        plan.interceptor.authorization().as_deref(),
        Some("Bearer secret")
    );
    assert!(plan.plaintext_key);
    assert!(plan.tls.is_none());
    assert_eq!(plan.client.retry_policy().max_attempts(), 3);
    assert_eq!(plan.client.clone().rpc_timeout(), Duration::from_secs(30));

    let encrypted = SeppClient::builder("http://localhost:1")
        .api_key("secret")
        .tls()
        .prepare();
    assert!(matches!(encrypted, Ok(plan) if !plan.plaintext_key && plan.tls.is_some()));

    let refused = SeppClient::builder("http://localhost:1")
        .api_key("bad\nkey")
        .prepare();
    assert!(matches!(refused, Err(ClientError::InvalidApiKey)));
}

#[test]
fn builder_tls_does_not_panic() {
    let b = SeppClient::builder("http://localhost:1").tls();
    assert!(b.tls_enabled());
}

#[test]
fn builder_tls_chain_with_api_key() {
    let b = SeppClient::builder("http://localhost:1")
        .api_key("secret")
        .tls();
    assert!(b.tls_enabled());
}

#[test]
fn builder_tls_domain_sets_domain() {
    let b = SeppClient::builder("http://localhost:1").tls_domain("example.com");
    let plan = match b.prepare() {
        Ok(plan) => plan,
        Err(_) => panic!("no key to refuse"),
    };
    assert!(format!("{:?}", plan.tls).contains("example.com"));
}

#[test]
fn builder_tls_ca_certificate_accepts_pem() {
    let pem = b"-----BEGIN CERTIFICATE-----\nMIIB...\n-----END CERTIFICATE-----";
    let b = SeppClient::builder("http://localhost:1").tls_ca_certificate(pem.as_ref());
    assert!(b.tls_enabled());
}

#[test]
fn builder_tls_config_accepts_default() {
    let config = tonic::transport::ClientTlsConfig::default();
    let b = SeppClient::builder("http://localhost:1").tls_config(config);
    assert!(b.tls_enabled());
}

#[test]
fn builder_tls_options_add_up() {
    let tls = |b: sepp_rs::client::SeppClientBuilder| match b.prepare() {
        Ok(plan) => format!("{:?}", plan.tls),
        Err(_) => panic!("no key to refuse"),
    };
    let roots = tls(SeppClient::builder("a").tls());
    let plain = tls(SeppClient::builder("a").tls_config(tonic::transport::ClientTlsConfig::new()));
    assert_ne!(roots, plain);
    let both = tls(SeppClient::builder("a").tls().tls_domain("d.example"));
    assert!(both.contains("d.example"));
    let with_ca = tls(SeppClient::builder("a").tls_ca_certificate(b"pem"));
    assert_ne!(with_ca, plain);
}

#[test]
fn root_cause_returns_error_message() {
    let err = ErrorChain {
        message: "bottom".into(),
        source: None,
    };
    assert_eq!(root_cause(&err), "bottom");
}

#[test]
fn root_cause_walks_error_chain() {
    let inner = ErrorChain {
        message: "deep cause".into(),
        source: None,
    };
    let outer = ErrorChain {
        message: "wrapper".into(),
        source: Some(Box::new(inner)),
    };
    assert_eq!(root_cause(&outer), "deep cause");
    assert_eq!(
        connect_error("http://x", &outer).to_string(),
        "could not connect to Sepp server at http://x: deep cause"
    );
}

fn request(job_type: &str) -> EnqueueRequest {
    EnqueueRequest::new("q", job_type).unwrap()
}

#[test]
fn batches_keep_their_order() {
    assert!(matches!(
        batch_request(vec![]),
        Err(ClientError::EmptyBatch)
    ));
    let batch = batch_request(vec![request("a"), request("b")]).unwrap();
    let types: Vec<&str> = batch.jobs.iter().map(|j| j.job_type.as_str()).collect();
    assert_eq!(types, ["a", "b"]);
}

#[test]
fn trace_context_is_attached_where_there_is_none() {
    let own = "00-11111111111111111111111111111111-2222222222222222-01";
    let span = "00-33333333333333333333333333333333-4444444444444444-01";
    let traced = request("a").with_trace_context(TraceContext::new(own).unwrap());
    let batch = batch_request(vec![traced, request("b")]).unwrap();
    let tc = pb::TraceContext {
        traceparent: span.into(),
        tracestate: Some("k=v".into()),
    };
    let stamped = inject_trace_context(batch.clone(), &Some(tc.clone()));
    assert_eq!(
        stamped.jobs[0].trace_context.as_ref().unwrap().traceparent,
        own
    );
    assert_eq!(stamped.jobs[1].trace_context.as_ref(), Some(&tc));
    let untouched = inject_trace_context(batch, &None);
    assert!(untouched.jobs[1].trace_context.is_none());
    assert_eq!(untouched.jobs[1].job_type, "b");
}

fn accepted(id: &str) -> pb::JobResult {
    pb::JobResult {
        outcome: Some(Outcome::Success(pb::EnqueueResponse {
            job_id: id.into(),
            deduplicated: false,
        })),
    }
}

fn refused() -> pb::JobResult {
    pb::JobResult {
        outcome: Some(Outcome::Rejection(pb::JobRejection { reason: None })),
    }
}

fn ack(id: &str) -> EnqueueAck {
    EnqueueAck {
        job_id: id.into(),
        deduplicated: false,
    }
}

#[test]
fn batch_results_follow_the_jobs() {
    let results = batch_results(
        2,
        pb::EnqueueBatchResponse {
            results: vec![accepted("1"), refused()],
        },
    )
    .unwrap();
    assert_eq!(results, vec![Ok(ack("1")), Err(JobRejection::Unknown)]);

    let short = batch_results(
        2,
        pb::EnqueueBatchResponse {
            results: vec![accepted("1")],
        },
    );
    assert!(matches!(
        short,
        Err(ClientError::BatchResultCountMismatch {
            expected: 2,
            got: 1
        })
    ));

    let unset = batch_results(
        2,
        pb::EnqueueBatchResponse {
            results: vec![accepted("1"), pb::JobResult { outcome: None }],
        },
    );
    assert!(matches!(
        unset,
        Err(ClientError::MalformedResponse(
            "missing outcome in job result"
        ))
    ));
}

#[test]
fn single_results_are_flattened() {
    assert_eq!(single_result(Ok(vec![Ok(ack("1"))])).unwrap(), ack("1"));
    assert!(matches!(
        single_result(Ok(vec![Err(JobRejection::Unknown)])),
        Err(EnqueueError::Rejected(JobRejection::Unknown))
    ));
    assert!(matches!(
        single_result(Ok(vec![])),
        Err(EnqueueError::Client(ClientError::MalformedResponse(
            "empty results for single-job batch"
        )))
    ));
    assert!(matches!(
        single_result(Err(ClientError::EmptyBatch)),
        Err(EnqueueError::Client(ClientError::EmptyBatch))
    ));
}

#[test]
fn atomic_results_are_all_or_nothing() {
    let success = |n: usize| pb::EnqueueAtomicResponse {
        outcome: Some(enqueue_atomic_response::Outcome::Success(
            pb::EnqueueAtomicSuccess {
                responses: (0..n)
                    .map(|i| pb::EnqueueResponse {
                        job_id: i.to_string(),
                        deduplicated: false,
                    })
                    .collect(),
            },
        )),
    };
    assert_eq!(
        atomic_results(2, success(2)).unwrap(),
        vec![ack("0"), ack("1")]
    );
    assert!(matches!(
        atomic_results(2, success(3)),
        Err(AtomicEnqueueError::Client(
            ClientError::BatchResultCountMismatch {
                expected: 2,
                got: 3
            }
        ))
    ));
    let rejection = pb::EnqueueAtomicResponse {
        outcome: Some(enqueue_atomic_response::Outcome::Rejection(
            pb::EnqueueAtomicRejection {
                errors: vec![pb::JobValidationError {
                    index: 1,
                    rejection: None,
                }],
            },
        )),
    };
    match atomic_results(2, rejection) {
        Err(AtomicEnqueueError::Validation(errors)) => {
            assert_eq!(errors.len(), 1);
            assert_eq!(errors[0].index, 1);
        }
        _ => panic!("wrong variant"),
    }
    assert!(matches!(
        atomic_results(1, pb::EnqueueAtomicResponse { outcome: None }),
        Err(AtomicEnqueueError::Client(ClientError::MalformedResponse(
            "missing outcome in EnqueueAtomicResponse"
        )))
    ));
}

fn wire_job(id: &str) -> pb::Job {
    pb::Job {
        id: id.into(),
        job_type: "t".into(),
        payload: None,
        priority: 0,
        trace_context: None,
        enqueued_at: 1,
        attempt: 4,
        max_attempts: 5,
        lease_expires_at: 2,
        custom: StringMap::new(),
        scheduled_at: None,
    }
}

#[test]
fn reserve_skips_malformed_jobs() {
    let reserved = reserved_jobs(
        pb::ReserveResponse {
            jobs: vec![wire_job("1"), wire_job(""), wire_job("3")],
        },
        Some("w"),
    );
    let jobs = reserved.jobs.unwrap();
    let ids: Vec<&str> = jobs.iter().map(|j| j.ctx.id.as_str()).collect();
    assert_eq!(ids, ["1", "3"]);
    assert!(matches!(
        reserved.skipped.as_slice(),
        [JobConversionError::MissingField("id")]
    ));

    let none = reserved_jobs(
        pb::ReserveResponse {
            jobs: vec![wire_job("")],
        },
        None,
    );
    assert!(none.jobs.is_none());
    assert_eq!(none.skipped.len(), 1);
}

#[test]
fn skipping_keeps_both_orders() {
    let (good, bad) = skip_malformed(vec![Ok(1), Err('a'), Ok(2), Err('b')]);
    assert_eq!(good, vec![1, 2]);
    assert_eq!(bad, vec!['a', 'b']);
}

#[test]
fn reserve_deadline_outlasts_the_wait() {
    let opts = ReserveOptions::new(vec!["q".into()], Duration::from_secs(1)).unwrap();
    assert_eq!(reserve_deadline(&opts), Duration::from_secs(40));
}

#[test]
fn lease_calls_name_the_delivery() {
    let ctx = job_from_pb(wire_job("j"), Some("w")).unwrap().ctx;
    let ack = ack_request(&ctx);
    assert_eq!(ack.job_id, "j");
    assert_eq!(ack.attempt, 4);
    assert_eq!(ack.worker_id.as_deref(), Some("w"));

    let nack = nack_request(&ctx, RetryDirective::After(Duration::from_millis(1500)), "why");
    assert_eq!(nack.job_id, "j");
    assert_eq!(nack.attempt, 4);
    assert_eq!(nack.reason.as_deref(), Some("why"));
    assert_eq!(
        nack.retry.unwrap().strategy,
        Some(Strategy::Delay(pb::ProtoDuration {
            seconds: 1,
            nanos: 500_000_000
        }))
    );
    let default = nack_request(&ctx, RetryDirective::Default, "");
    assert_eq!(default.retry.unwrap().strategy, Some(Strategy::Default));
    let dead = nack_request(&ctx, RetryDirective::DeadLetter.clone(), "");
    assert_eq!(dead.retry.unwrap().strategy, Some(Strategy::DeadLetter));
    assert!(nack_result(pb::NackResponse {
        dead_lettered: true
    }));

    let extend = extend_request(&ctx.id, ctx.attempt, Duration::from_secs(30), Some("w"));
    assert_eq!(extend.job_id, "j");
    assert_eq!(extend.attempt, 4);
    assert_eq!(
        extend.lease_duration,
        Some(pb::ProtoDuration {
            seconds: 30,
            nanos: 0
        })
    );
    assert_eq!(extend.worker_id.as_deref(), Some("w"));
}

#[test]
fn extend_reads_the_new_expiry() {
    let ok = extend_result(pb::ExtendResponse {
        lease_expires_at: Some(pb::Timestamp {
            seconds: 5,
            nanos: 0,
        }),
    });
    assert_eq!(ok.unwrap(), SystemTime::UNIX_EPOCH + Duration::from_secs(5));
    let missing = extend_result(pb::ExtendResponse {
        lease_expires_at: None,
    });
    assert!(matches!(
        missing,
        Err(LeaseError::Client(ClientError::MalformedResponse(
            "extend returned an invalid lease_expires_at"
        )))
    ));
}

#[test]
fn malformed_server_info_is_reported() {
    let response = pb::GetServerInfoResponse {
        server_version: "".into(),
        supported_protocol_versions: vec![],
        server_time_ms: 0,
        restricts_encodings: false,
        allowed_encodings: vec![],
        max_payload_bytes: 0,
        max_custom_entries: 0,
        max_custom_total_bytes: 0,
        max_custom_key_bytes: 0,
        max_queue_name_bytes: 0,
        max_job_type_bytes: 0,
        max_idempotency_key_bytes: 0,
        max_schedule_horizon_ms: 0,
        max_enqueue_batch: 0,
        max_reserve_batch: 0,
        max_reserve_queues: 0,
        max_wait_timeout_ms: 0,
        max_lease_duration_ms: 0,
        strict_queues: false,
    };
    let mut named = response.clone();
    named.server_version = "1".into();
    assert!(matches!(
        server_info_result(response),
        Err(ClientError::MalformedServerInfo(
            ServerInfoError::MissingField("server_version")
        ))
    ));
    assert_eq!(server_info_result(named).unwrap().version, "1");
}

#[test]
fn drain_asks_for_up_to_max() {
    assert!(drain_request(Some("q"), 0).is_none());
    assert!(drain_request(None, 0).is_none());
    let r = drain_request(Some("q"), 1).unwrap();
    assert_eq!(r.queue.as_deref(), Some("q"));
    assert_eq!(r.max, Some(1));
    let all = drain_request(None, 20).unwrap();
    assert!(all.queue.is_none());
    assert_eq!(all.max, Some(20));
}

#[test]
fn extending_through_client_and_lease_is_the_same() {
    let ctx = job_from_pb(wire_job("j"), Some("w")).unwrap().ctx;
    let by_client = extend_job_request(&ctx, Duration::from_secs(30));
    let by_lease = extend_request(
        ctx.lease.job_id(),
        ctx.lease.attempt(),
        Duration::from_secs(30),
        ctx.lease.worker_id().as_deref(),
    );
    assert_eq!(by_client, by_lease);

    let mut end = ctx.lease_end();
    end.note_extend(&Err(LeaseError::JobNotFound));
    assert_eq!(end.known_expiry_ms(), 2);
    end.note_extend(&Ok(SystemTime::UNIX_EPOCH + Duration::from_millis(9)));
    assert_eq!(end.known_expiry_ms(), 9);
    assert_eq!(ctx.id, "j");
}

#[test]
fn endpoints_are_configured() {
    let e = endpoint("http://127.0.0.1:50051", "sepp-rs/1").unwrap();
    assert_eq!(e.get_connect_timeout(), Some(Duration::from_secs(5)));
    assert_eq!(e.uri().to_string(), "http://127.0.0.1:50051/");
    assert!(endpoint("not a uri", "sepp-rs/1").is_err());
    assert!(endpoint("http://127.0.0.1:50051", "bad\nagent").is_err());
}
