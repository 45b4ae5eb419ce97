//! What is sent beside a message: credentials and the trace.
use opentelemetry::Context;
use tonic::metadata::{Ascii, MetadataValue};
use vstd::prelude::*;

use crate::otel;
use crate::text::{self, clone_text};
use crate::trace::{self, inject_pb_trace_context};

verus! {

/// Whether a text can stand in a header: no control characters but tabs.
pub open spec fn is_header_text(s: Seq<char>) -> bool {
    forall|i: int| 0 <= i < s.len() ==> is_header_char(#[trigger] s[i])
}

/// Whether a character can stand in a header. The bytes of a character outside
/// ASCII can.
pub open spec fn is_header_char(c: char) -> bool {
    (c >= ' ' && c != '\u{7f}') || c == '\t'
}

/// `MetadataValue::from_str` accepts exactly the texts whose bytes are tabs or
/// 32 and above, without 127.
#[verifier::external_body]
pub(crate) fn parses_as_header(s: &str) -> (r: bool)
    ensures
        r == is_header_text(s@),
{
    s.parse::<MetadataValue<Ascii>>().is_ok()
}

/// Attaches the configured API key as an `Authorization: Bearer <key>` header
/// to each request.
pub struct ApiKeyInterceptor {
    bearer: Option<String>,
}

impl View for ApiKeyInterceptor {
    type V = Option<Seq<char>>;

    /// The header's value, if there is one.
    closed spec fn view(&self) -> Option<Seq<char>> {
        text::opt_text(self.bearer)
    }
}

impl Clone for ApiKeyInterceptor {
    fn clone(&self) -> (r: Self)
        ensures
            r@ == self@,
    {
        ApiKeyInterceptor { bearer: clone_text(&self.bearer) }
    }
}

impl ApiKeyInterceptor {
    /// Returns `None` if the key cannot form a valid HTTP header value.
    pub fn new(api_key: Option<&str>) -> (r: Option<Self>)
        ensures
            match api_key {
                Some(key) => match r {
                    Some(a) => is_header_text(key@) && a@ == Some("Bearer "@ + key@),
                    None => !is_header_text(key@),
                },
                None => r matches Some(a) && a@ is None,
            },
    {
        match api_key {
            Some(key) => {
                let bearer = "Bearer ".to_owned().concat(key);
                proof {
                    reveal_strlit("Bearer ");
                    let whole = "Bearer "@ + key@;
                    if is_header_text(whole) {
                        assert forall|i: int| 0 <= i < key@.len() implies is_header_char(
                            #[trigger] key@[i],
                        ) by {
                            assert(whole[i + 7] == key@[i]);
                        }
                    }
                    if is_header_text(key@) {
                        assert forall|i: int| 0 <= i < whole.len() implies is_header_char(
                            #[trigger] whole[i],
                        ) by {
                            if i >= 7 {
                                assert(whole[i] == key@[i - 7]);
                            }
                        }
                    }
                }
                if parses_as_header(bearer.as_str()) {
                    Some(ApiKeyInterceptor { bearer: Some(bearer) })
                } else {
                    None
                }
            },
            None => Some(ApiKeyInterceptor { bearer: None }),
        }
    }

    /// An interceptor that attaches nothing.
    pub fn disabled() -> (r: Self)
        ensures
            r@ is None,
    {
        ApiKeyInterceptor { bearer: None }
    }

    /// Whether a key is attached.
    pub fn is_enabled(&self) -> (r: bool)
        ensures
            r == self@ is Some,
    {
        self.bearer.is_some()
    }

    /// The value of the `authorization` header, if one is attached.
    pub fn authorization(&self) -> (r: &Option<String>)
        ensures
            text::opt_text(*r) == self@,
    {
        &self.bearer
    }
}

/// The trace headers of a request.
#[derive(Debug)]
pub struct TraceHeaders {
    /// The `traceparent` header, if there is one.
    pub traceparent: Option<String>,
    /// The `tracestate` header, if there is one.
    pub tracestate: Option<String>,
}

/// The trace headers for a span. A state that cannot stand in a header is left
/// out.
pub open spec fn is_trace_headers(h: TraceHeaders, sc: opentelemetry::trace::SpanContext) -> bool {
    let v = trace::span_view(sc);
    if otel::span_is_valid(sc) {
        &&& text::opt_text(h.traceparent) == Some(v.traceparent)
        &&& text::opt_text(h.tracestate) == if is_header_text(v.tracestate->0) {
            v.tracestate
        } else {
            None
        }
    } else {
        h.traceparent is None && h.tracestate is None
    }
}

/// A `traceparent` written for ids in hex can stand in a header.
proof fn lemma_traceparent_is_header(trace_id: Seq<char>, span_id: Seq<char>, sampled: bool)
    requires
        text::is_lower_hex_field(trace_id, 32),
        text::is_lower_hex_field(span_id, 16),
    ensures
        is_header_text(otel::written_traceparent(trace_id, span_id, sampled)),
{
    reveal_strlit("00");
    reveal_strlit("01");
    let tp = otel::written_traceparent(trace_id, span_id, sampled);
    assert forall|i: int| 0 <= i < tp.len() implies is_header_char(#[trigger] tp[i]) by {
        if 3 <= i < 35 {
            assert(tp[i] == trace_id[i - 3]);
        } else if 36 <= i < 52 {
            assert(tp[i] == span_id[i - 36]);
        }
    }
}

/// The headers that propagate the span of an OpenTelemetry context with a
/// request.
pub fn trace_headers(cx: &Context) -> (h: TraceHeaders)
    ensures
        is_trace_headers(h, otel::context_span(*cx)),
{
    match inject_pb_trace_context(cx) {
        Some(tc) => {
            proof {
                let sc = otel::context_span(*cx);
                lemma_traceparent_is_header(
                    otel::span_trace_id(sc),
                    otel::span_span_id(sc),
                    otel::span_is_sampled(sc),
                );
            }
            let traceparent = if parses_as_header(tc.traceparent.as_str()) {
                Some(tc.traceparent)
            } else {
                None
            };
            let tracestate = match tc.tracestate {
                Some(ts) => if parses_as_header(ts.as_str()) {
                    Some(ts)
                } else {
                    None
                },
                None => None,
            };
            TraceHeaders { traceparent, tracestate }
        },
        None => TraceHeaders { traceparent: None, tracestate: None },
    }
}

} // verus!
