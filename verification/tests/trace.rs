use opentelemetry::trace::{
    SpanContext, SpanId, TraceContextExt, TraceFlags, TraceId, TraceState,
};
use opentelemetry::Context;
use sepp_rs::client::trace_headers;
use sepp_rs::pb;
use sepp_rs::trace::inject_pb_trace_context;
use sepp_rs::{TraceContext, TraceContextError};

const VALID_TP: &str = "00-0123456789abcdef0123456789abcdef-0123456789abcdef-01";

fn span(trace_id: u128, span_id: u64, flags: TraceFlags, state: TraceState) -> Context {
    Context::new().with_remote_span_context(SpanContext::new(
        TraceId::from(trace_id),
        SpanId::from(span_id),
        flags,
        true,
        state,
    ))
}

#[test]
fn traceparent_valid() {
    assert!(TraceContext::new(VALID_TP).is_ok());
}

#[test]
fn traceparent_wrong_field_count() {
    assert!(matches!(
        TraceContext::new("00-deadbeef-0123"),
        Err(TraceContextError::InvalidTraceparent(_))
    ));
}

#[test]
fn traceparent_bad_version_length() {
    let tp = "0-0123456789abcdef0123456789abcdef-0123456789abcdef-01";
    assert!(TraceContext::new(tp).is_err());
}

#[test]
fn traceparent_non_hex_version() {
    let tp = "0g-0123456789abcdef0123456789abcdef-0123456789abcdef-01";
    assert!(TraceContext::new(tp).is_err());
}

#[test]
fn traceparent_bad_trace_id_length() {
    let tp = "00-deadbeef-0123456789abcdef-01";
    assert!(TraceContext::new(tp).is_err());
}

#[test]
fn traceparent_non_hex_trace_id() {
    let tp = "00-0123456789abcdeg0123456789abcdef-0123456789abcdef-01";
    assert!(TraceContext::new(tp).is_err());
}

#[test]
fn traceparent_all_zero_trace_id_rejected() {
    let tp = "00-00000000000000000000000000000000-0123456789abcdef-01";
    assert!(TraceContext::new(tp).is_err());
}

#[test]
fn traceparent_bad_span_id_length() {
    let tp = "00-0123456789abcdef0123456789abcdef-deadbeef-01";
    assert!(TraceContext::new(tp).is_err());
}

#[test]
fn traceparent_non_hex_span_id() {
    let tp = "00-0123456789abcdef0123456789abcdef-0123456789abcdeg-01";
    assert!(TraceContext::new(tp).is_err());
}

#[test]
fn traceparent_all_zero_span_id_rejected() {
    let tp = "00-0123456789abcdef0123456789abcdef-0000000000000000-01";
    assert!(TraceContext::new(tp).is_err());
}

#[test]
fn traceparent_bad_flags_length() {
    let tp = "00-0123456789abcdef0123456789abcdef-0123456789abcdef-0";
    assert!(TraceContext::new(tp).is_err());
}

#[test]
fn traceparent_non_hex_flags() {
    let tp = "00-0123456789abcdef0123456789abcdef-0123456789abcdef-0g";
    assert!(TraceContext::new(tp).is_err());
}

#[test]
fn traceparent_errors_name_the_first_fault() {
    let cases = [
        ("garbage", "expected 4 hyphen-separated fields"),
        ("a-b-c-d-e", "expected 4 hyphen-separated fields"),
        ("", "expected 4 hyphen-separated fields"),
        ("zz-b-c-d", "version must be 2 hex chars"),
        ("00-b-c-d", "trace_id must be 32 hex chars"),
        (
            "00-00000000000000000000000000000000-c-d",
            "trace_id must not be all zeros",
        ),
        (
            "00-0123456789abcdef0123456789abcdef-c-d",
            "span_id must be 16 hex chars",
        ),
        (
            "00-0123456789abcdef0123456789abcdef-0000000000000000-d",
            "span_id must not be all zeros",
        ),
        (
            "00-0123456789abcdef0123456789abcdef-0123456789abcdef-d",
            "flags must be 2 hex chars",
        ),
    ];
    for (tp, why) in cases {
        let e = TraceContext::new(tp).unwrap_err();
        assert_eq!(e.to_string(), format!("invalid traceparent: {why}"));
    }
}

#[test]
fn traceparent_takes_capitals() {
    let tp = "AB-0123456789ABCDEF0123456789abcdef-0123456789abcdef-FF";
    assert_eq!(TraceContext::new(tp).unwrap().traceparent(), tp);
}

#[test]
fn trace_context_with_tracestate() {
    let tc = TraceContext::new(VALID_TP)
        .unwrap()
        .with_tracestate("vendor=abc");
    assert_eq!(tc.traceparent(), VALID_TP);
    assert_eq!(tc.tracestate(), Some("vendor=abc"));
}

#[test]
fn trace_context_without_tracestate() {
    let tc = TraceContext::new(VALID_TP).unwrap();
    assert!(tc.tracestate().is_none());
}

#[test]
fn trace_context_to_pb() {
    let tc = TraceContext::new(VALID_TP).unwrap().with_tracestate("v=1");
    let pb: pb::TraceContext = tc.into();
    assert_eq!(pb.traceparent, VALID_TP);
    assert_eq!(pb.tracestate.as_deref(), Some("v=1"));
}

#[test]
fn trace_context_try_from_pb_ok() {
    let pb = pb::TraceContext {
        traceparent: VALID_TP.into(),
        tracestate: Some("v=1".into()),
    };
    let tc = TraceContext::try_from(pb).unwrap();
    assert_eq!(tc.traceparent(), VALID_TP);
    assert_eq!(tc.tracestate(), Some("v=1"));
}

#[test]
fn trace_context_try_from_pb_propagates_validation_error() {
    let pb = pb::TraceContext {
        traceparent: "garbage".into(),
        tracestate: None,
    };
    assert!(TraceContext::try_from(pb).is_err());
}

#[test]
fn trace_context_survives_the_wire() {
    let tc = TraceContext::new(VALID_TP).unwrap().with_tracestate("v=1");
    let wire = pb::TraceContext::from(tc.clone());
    assert_eq!(TraceContext::try_from(wire).unwrap(), tc);
}

#[test]
fn span_is_captured_and_leads_back() {
    let state = TraceState::from_key_value([("vendor", "abc")]).unwrap();
    let cx = span(0xabc, 0xdef, TraceFlags::SAMPLED, state);
    let tc = TraceContext::from_otel(&cx).unwrap();
    assert_eq!(
        tc.traceparent(),
        "00-00000000000000000000000000000abc-0000000000000def-01"
    );
    assert_eq!(tc.tracestate(), Some("vendor=abc"));

    let linked = tc.otel_span_context().unwrap();
    assert_eq!(linked.trace_id(), TraceId::from(0xabc_u128));
    assert_eq!(linked.span_id(), SpanId::from(0xdef_u64));
    assert!(linked.is_sampled());
    assert_eq!(linked.trace_state().header(), "vendor=abc");
}

#[test]
fn unsampled_span_is_captured() {
    let cx = span(1, 2, TraceFlags::default(), TraceState::NONE);
    let tc = inject_pb_trace_context(&cx).unwrap();
    assert_eq!(
        tc.traceparent,
        "00-00000000000000000000000000000001-0000000000000002-00"
    );
    assert_eq!(tc.tracestate.as_deref(), Some(""));
}

#[test]
fn invalid_span_is_not_captured() {
    let cx = span(0, 2, TraceFlags::default(), TraceState::NONE);
    assert!(TraceContext::from_otel(&cx).is_none());
    assert!(inject_pb_trace_context(&cx).is_none());
    assert!(TraceContext::from_otel(&Context::new()).is_none());
}

#[test]
fn current_span_is_captured() {
    assert!(TraceContext::from_current_otel().is_none());
    let cx = span(7, 9, TraceFlags::SAMPLED, TraceState::NONE);
    let guard = cx.attach();
    let tc = TraceContext::from_current_otel().unwrap();
    assert_eq!(
        tc.traceparent(),
        "00-00000000000000000000000000000007-0000000000000009-01"
    );
    drop(guard);
}

#[test]
fn trace_context_without_state_reads_an_empty_one() {
    let tc = TraceContext::new(VALID_TP).unwrap();
    let sc = tc.otel_span_context().unwrap();
    assert_eq!(sc.trace_state().header(), "");
    assert!(sc.is_sampled());
    assert_eq!(
        sc.trace_id().to_string(),
        "0123456789abcdef0123456789abcdef"
    );
    assert_eq!(sc.span_id().to_string(), "0123456789abcdef");
}

const UNREAD: [&str; 4] = [
    "ff-0123456789abcdef0123456789abcdef-0123456789abcdef-01",
    "00-0123456789ABCDEF0123456789abcdef-0123456789abcdef-01",
    "00-0123456789abcdef0123456789abcdef-0123456789ABCDEF-01",
    "00-0123456789abcdef0123456789abcdef-0123456789abcdef-03",
];

#[test]
fn unread_traceparent_leads_to_no_span() {
    for tp in UNREAD {
        assert!(TraceContext::new(tp).unwrap().otel_span_context().is_none());
    }
}

#[test]
fn unread_traceparent_does_not_lead_to_the_active_span() {
    let guard = span(7, 9, TraceFlags::SAMPLED, TraceState::NONE).attach();
    for tp in UNREAD {
        let tc = TraceContext::new(tp).unwrap();
        assert!(tc.otel_span_context().is_none());
        // A context that is made current goes on with the active span instead.
        assert_eq!(
            tc.to_otel().span().span_context().trace_id(),
            TraceId::from(7_u128)
        );
    }
    let read = TraceContext::new(VALID_TP).unwrap();
    assert_eq!(
        read.otel_span_context().unwrap().trace_id().to_string(),
        "0123456789abcdef0123456789abcdef"
    );
    assert_eq!(
        read.to_otel().span().span_context().span_id().to_string(),
        "0123456789abcdef"
    );
    drop(guard);
}

#[test]
fn trace_headers_follow_the_span() {
    let state = TraceState::from_key_value([("k", "v")]).unwrap();
    let h = trace_headers(&span(1, 2, TraceFlags::SAMPLED, state));
    assert_eq!(
        h.traceparent.as_deref(),
        Some("00-00000000000000000000000000000001-0000000000000002-01")
    );
    assert_eq!(h.tracestate.as_deref(), Some("k=v"));
    let none = trace_headers(&Context::new());
    assert!(none.traceparent.is_none());
    assert!(none.tracestate.is_none());
}
