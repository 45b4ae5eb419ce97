//! The OpenTelemetry calls that trace propagation rests on.
use opentelemetry::propagation::TextMapPropagator;
use opentelemetry::trace::{SpanContext, TraceContextExt};
use opentelemetry::Context;
use opentelemetry_sdk::propagation::TraceContextPropagator;
use std::collections::HashMap;
use vstd::prelude::*;

use crate::text;
use crate::trace;

verus! {

/// An OpenTelemetry context.
#[verifier::external_type_specification]
#[verifier::external_body]
pub struct ExContext(Context);

/// The part of a span that can be propagated.
#[verifier::external_type_specification]
#[verifier::external_body]
pub struct ExSpanContext(SpanContext);

/// The span context of the span in a context: what
/// `TraceContextExt::span().span_context()` returns.
pub uninterp spec fn context_span(cx: Context) -> SpanContext;

/// What `SpanContext::is_valid` returns.
pub uninterp spec fn span_is_valid(sc: SpanContext) -> bool;

/// The text form of what `SpanContext::trace_id` returns.
pub uninterp spec fn span_trace_id(sc: SpanContext) -> Seq<char>;

/// The text form of what `SpanContext::span_id` returns.
pub uninterp spec fn span_span_id(sc: SpanContext) -> Seq<char>;

/// What `SpanContext::is_sampled` returns.
pub uninterp spec fn span_is_sampled(sc: SpanContext) -> bool;

/// The header form of what `SpanContext::trace_state` returns.
pub uninterp spec fn span_trace_state(sc: SpanContext) -> Seq<char>;

/// The header form of what `TraceState::from_str` makes of a text, empty where
/// it makes nothing of it.
pub uninterp spec fn trace_state_read(s: Seq<char>) -> Seq<char>;

/// Whether `s` holds a capital letter.
pub open spec fn has_capital(s: Seq<char>) -> bool {
    exists|i: int| 0 <= i < s.len() && 'A' <= #[trigger] s[i] <= 'Z'
}

/// Whether a hex digit stands for an odd number.
pub open spec fn odd_digit(c: char) -> bool {
    ||| c == '1'
    ||| c == '3'
    ||| c == '5'
    ||| c == '7'
    ||| c == '9'
    ||| c == 'b'
    ||| c == 'd'
    ||| c == 'f'
    ||| c == 'B'
    ||| c == 'D'
    ||| c == 'F'
}

/// Whether the propagator reads a well-formed `traceparent`: its ids are in
/// lower case, its version is not the reserved one, and with the version that
/// is current its flags are known.
pub open spec fn propagator_reads(traceparent: Seq<char>) -> bool {
    let f = text::split_fields(traceparent, '-');
    &&& trace::valid_traceparent(traceparent)
    &&& !((f[0][0] == 'f' || f[0][0] == 'F') && (f[0][1] == 'f' || f[0][1] == 'F'))
    &&& !has_capital(f[1])
    &&& !has_capital(f[2])
    &&& text::all_zeros(f[0]) ==> f[3][0] == '0' && '0' <= f[3][1] <= '2'
}

/// The `traceparent` that the propagator writes for a span with these ids.
pub open spec fn written_traceparent(
    trace_id: Seq<char>,
    span_id: Seq<char>,
    sampled: bool,
) -> Seq<char> {
    "00"@ + seq!['-'] + trace_id + seq!['-'] + span_id + seq!['-'] + (if sampled {
        "01"@
    } else {
        "00"@
    })
}

/// The header with the given name, among the two that the propagator writes.
pub open spec fn written_header(
    name: Seq<char>,
    traceparent: Seq<char>,
    tracestate: Seq<char>,
) -> Option<Seq<char>> {
    if name == "traceparent"@ {
        Some(traceparent)
    } else if name == "tracestate"@ {
        Some(tracestate)
    } else {
        None
    }
}

/// `Context::current` returns the context of the running thread: nothing is
/// promised of it.
#[verifier::external_body]
fn current_context() -> Context {
    Context::current()
}

/// Whether a context can be that of the running thread.
pub closed spec fn is_current(cx: Context) -> bool {
    call_ensures(current_context, (), cx)
}

/// The context of the running thread.
pub(crate) fn running_context() -> (cx: Context)
    ensures
        is_current(cx),
{
    current_context()
}

/// `TraceContextExt::span().span_context()` of a context.
#[verifier::external_body]
pub(crate) fn span_of(cx: &Context) -> (sc: SpanContext)
    ensures
        sc == context_span(*cx),
{
    cx.span().span_context().clone()
}

/// `SpanContext::is_valid` tells whether neither id is zero. A trace id is
/// written as 32 and a span id as 16 hex digits in lower case.
#[verifier::external_body]
pub(crate) fn is_valid_span(sc: &SpanContext) -> (r: bool)
    ensures
        r == span_is_valid(*sc),
        r ==> text::is_lower_hex_field(span_trace_id(*sc), 32),
        r ==> !text::all_zeros(span_trace_id(*sc)),
        r ==> text::is_lower_hex_field(span_span_id(*sc), 16),
        r ==> !text::all_zeros(span_span_id(*sc)),
{
    sc.is_valid()
}

/// `TraceContextPropagator::inject_context` writes the headers `traceparent` and
/// `tracestate` for a valid span, and nothing for another; this hands out the
/// header with the given name. A written `tracestate` is read back as it is: its
/// keys and values hold no separators.
#[verifier::external_body]
pub(crate) fn injected_header(cx: &Context, name: &str) -> (r: Option<String>)
    ensures
        !span_is_valid(context_span(*cx)) ==> r is None,
        span_is_valid(context_span(*cx)) ==> text::opt_text(r) == written_header(
            name@,
            written_traceparent(
                span_trace_id(context_span(*cx)),
                span_span_id(context_span(*cx)),
                span_is_sampled(context_span(*cx)),
            ),
            span_trace_state(context_span(*cx)),
        ),
        name@ == "tracestate"@ && r is Some ==> trace_state_read(r->0@) == r->0@,
{
    let mut carrier: HashMap<String, String> = HashMap::new();
    TraceContextPropagator::new().inject_context(cx, &mut carrier);
    carrier.remove(name)
}

/// `Context::new` makes an empty context, which holds no valid span.
#[verifier::external_body]
pub(crate) fn empty_context() -> (cx: Context)
    ensures
        !span_is_valid(context_span(cx)),
{
    Context::new()
}

/// `TraceContextPropagator::extract_with_context` reads the headers
/// `traceparent` and `tracestate` into a context on top of a given one. Where it
/// does not read a well-formed `traceparent`, it returns the given context.
#[verifier::external_body]
pub(crate) fn extracted_context(
    base: &Context,
    traceparent: &str,
    tracestate: &Option<String>,
) -> (cx: Context)
    ensures
        trace::valid_traceparent(traceparent@) && !propagator_reads(traceparent@) ==> context_span(
            cx,
        ) == context_span(*base),
        propagator_reads(traceparent@) ==> span_is_valid(context_span(cx)),
        propagator_reads(traceparent@) ==> span_trace_id(context_span(cx)) == text::split_fields(
            traceparent@,
            '-',
        )[1],
        propagator_reads(traceparent@) ==> span_span_id(context_span(cx)) == text::split_fields(
            traceparent@,
            '-',
        )[2],
        propagator_reads(traceparent@) ==> span_is_sampled(context_span(cx)) == odd_digit(
            text::split_fields(traceparent@, '-')[3][1],
        ),
        propagator_reads(traceparent@) && tracestate is Some ==> span_trace_state(context_span(cx))
            == trace_state_read(tracestate->0@),
        propagator_reads(traceparent@) && tracestate is None ==> span_trace_state(context_span(cx))
            == Seq::<char>::empty(),
{
    let mut carrier: HashMap<String, String> = HashMap::new();
    carrier.insert("traceparent".to_string(), traceparent.to_string());
    if let Some(ts) = tracestate {
        carrier.insert("tracestate".to_string(), ts.clone());
    }
    TraceContextPropagator::new().extract_with_context(base, &carrier)
}

} // verus!
