//! W3C trace contexts: validation, wire form, and the link to OpenTelemetry.
use opentelemetry::trace::SpanContext;
use opentelemetry::Context;
use vstd::prelude::*;

use crate::otel::{
    self, empty_context, extracted_context, injected_header, is_valid_span, running_context,
    span_of,
};
use crate::pb;
use crate::text::{self, check_all_zeros, check_hex_field, clone_text, split_at_char};

verus! {

/// What is wrong with a `traceparent`, if anything: the first of the checks
/// that it fails.
pub open spec fn traceparent_fault(s: Seq<char>) -> Option<Seq<char>> {
    let f = text::split_fields(s, '-');
    if f.len() != 4 {
        Some("expected 4 hyphen-separated fields"@)
    } else if !text::is_hex_field(f[0], 2) {
        Some("version must be 2 hex chars"@)
    } else if !text::is_hex_field(f[1], 32) {
        Some("trace_id must be 32 hex chars"@)
    } else if text::all_zeros(f[1]) {
        Some("trace_id must not be all zeros"@)
    } else if !text::is_hex_field(f[2], 16) {
        Some("span_id must be 16 hex chars"@)
    } else if text::all_zeros(f[2]) {
        Some("span_id must not be all zeros"@)
    } else if !text::is_hex_field(f[3], 2) {
        Some("flags must be 2 hex chars"@)
    } else {
        None
    }
}

/// Whether `s` is a well-formed W3C `traceparent`: four hex fields of 2, 32, 16
/// and 2 digits with hyphens between them, the second and third not all zeros.
pub open spec fn valid_traceparent(s: Seq<char>) -> bool {
    traceparent_fault(s) is None
}

/// Returned by [`TraceContext::new`] when the `traceparent` is not a
/// well-formed W3C value.
#[derive(Debug)]
pub enum TraceContextError {
    /// The `traceparent` string did not match the `version-trace_id-span_id-flags`
    /// shape; the payload explains which field was wrong.
    InvalidTraceparent(&'static str),
}

impl TraceContextError {
    /// What was wrong.
    pub open spec fn fault(self) -> Seq<char> {
        match self {
            TraceContextError::InvalidTraceparent(why) => why@,
        }
    }

    /// The message of this error.
    pub open spec fn message(self) -> Seq<char> {
        "invalid traceparent: "@ + self.fault()
    }

    /// Writes the message of this error.
    pub fn to_string(&self) -> (s: String)
        ensures
            s@ == self.message(),
    {
        match self {
            TraceContextError::InvalidTraceparent(why) => "invalid traceparent: ".to_owned().concat(
                why,
            ),
        }
    }
}

/// Checks a `traceparent`.
pub fn validate_traceparent(s: &str) -> (r: Result<(), TraceContextError>)
    ensures
        r is Ok <==> valid_traceparent(s@),
        r matches Err(e) ==> traceparent_fault(s@) == Some(e.fault()),
{
    let parts = split_at_char(s, '-');
    let ghost f = text::split_fields(s@, '-');
    assert(f.len() == parts@.len());
    if parts.len() != 4 {
        return Err(TraceContextError::InvalidTraceparent("expected 4 hyphen-separated fields"));
    }
    assert(f[0] == parts@[0]@ && f[1] == parts@[1]@ && f[2] == parts@[2]@ && f[3] == parts@[3]@);
    if !check_hex_field(&parts[0], 2) {
        return Err(TraceContextError::InvalidTraceparent("version must be 2 hex chars"));
    }
    if !check_hex_field(&parts[1], 32) {
        return Err(TraceContextError::InvalidTraceparent("trace_id must be 32 hex chars"));
    }
    if check_all_zeros(&parts[1]) {
        return Err(TraceContextError::InvalidTraceparent("trace_id must not be all zeros"));
    }
    if !check_hex_field(&parts[2], 16) {
        return Err(TraceContextError::InvalidTraceparent("span_id must be 16 hex chars"));
    }
    if check_all_zeros(&parts[2]) {
        return Err(TraceContextError::InvalidTraceparent("span_id must not be all zeros"));
    }
    if !check_hex_field(&parts[3], 2) {
        return Err(TraceContextError::InvalidTraceparent("flags must be 2 hex chars"));
    }
    Ok(())
}

/// What a trace context holds.
pub struct TraceContextView {
    pub traceparent: Seq<char>,
    pub tracestate: Option<Seq<char>>,
}

/// A W3C Trace Context attached to a job, used to link a producer's trace to
/// the worker that processes the job.
///
/// Every value holds a well-formed `traceparent`.
#[derive(Debug, PartialEq)]
pub struct TraceContext {
    traceparent: String,
    tracestate: Option<String>,
}

impl View for TraceContext {
    type V = TraceContextView;

    closed spec fn view(&self) -> TraceContextView {
        TraceContextView {
            traceparent: self.traceparent@,
            tracestate: text::opt_text(self.tracestate),
        }
    }
}

impl Clone for TraceContext {
    fn clone(&self) -> (r: Self)
        ensures
            r == *self,
    {
        proof {
            use_type_invariant(self);
        }
        TraceContext {
            traceparent: self.traceparent.clone(),
            tracestate: clone_text(&self.tracestate),
        }
    }
}

impl TraceContext {
    #[verifier::type_invariant]
    spec fn inv(self) -> bool {
        valid_traceparent(self.traceparent@)
    }

    /// Creates a trace context from a W3C `traceparent`, validating its format.
    ///
    /// The expected shape is `version-trace_id-span_id-flags`, e.g.
    /// `00-<32 hex>-<16 hex>-<2 hex>`.
    pub fn new(traceparent: &str) -> (r: Result<Self, TraceContextError>)
        ensures
            r is Ok <==> valid_traceparent(traceparent@),
            r matches Ok(tc) ==> tc@ == (TraceContextView {
                traceparent: traceparent@,
                tracestate: None,
            }),
            r matches Err(e) ==> traceparent_fault(traceparent@) == Some(e.fault()),
    {
        match validate_traceparent(traceparent) {
            Ok(()) => Ok(TraceContext { traceparent: traceparent.to_owned(), tracestate: None }),
            Err(e) => Err(e),
        }
    }

    /// Attaches a W3C `tracestate` (vendor-specific trace data).
    pub fn with_tracestate(self, ts: &str) -> (r: Self)
        ensures
            r@ == (TraceContextView { tracestate: Some(ts@), ..self@ }),
    {
        proof {
            use_type_invariant(&self);
        }
        TraceContext { traceparent: self.traceparent, tracestate: Some(ts.to_owned()) }
    }

    /// Returns the W3C `traceparent`, which is well-formed.
    pub fn traceparent(&self) -> (s: &str)
        ensures
            s@ == self@.traceparent,
            valid_traceparent(s@),
    {
        proof {
            use_type_invariant(self);
        }
        self.traceparent.as_str()
    }

    /// Returns the W3C `tracestate`, if one was set.
    pub fn tracestate(&self) -> (r: Option<&str>)
        ensures
            r is Some <==> self@.tracestate is Some,
            r matches Some(s) ==> self@.tracestate == Some(s@),
    {
        match &self.tracestate {
            Some(s) => Some(s.as_str()),
            None => None,
        }
    }

    /// The trace context of the span in an OpenTelemetry context, or `None` if
    /// that span is not valid.
    pub fn from_otel(cx: &Context) -> (r: Option<Self>)
        ensures
            is_capture(r, otel::context_span(*cx)),
    {
        match inject_pb_trace_context(cx) {
            Some(tc) => {
                proof {
                    let sc = otel::context_span(*cx);
                    lemma_written_traceparent(
                        otel::span_trace_id(sc),
                        otel::span_span_id(sc),
                        otel::span_is_sampled(sc),
                    );
                }
                Some(TraceContext { traceparent: tc.traceparent, tracestate: tc.tracestate })
            },
            None => None,
        }
    }

    /// Captures the current OpenTelemetry context as a `TraceContext`, or
    /// `None` if there is no valid active span.
    pub fn from_current_otel() -> (r: Option<Self>)
        ensures
            exists|cx: Context| #[trigger]
                otel::is_current(cx) && is_capture(r, otel::context_span(cx)),
    {
        let cx = running_context();
        let r = TraceContext::from_otel(&cx);
        assert(is_capture(r, otel::context_span(cx)));
        r
    }

    /// The OpenTelemetry context that carries on this trace, on top of a given
    /// one. A `traceparent` that the propagator does not read leaves the span of
    /// the given context.
    pub fn to_otel_in(&self, base: &Context) -> (cx: Context)
        ensures
            if otel::propagator_reads(self@.traceparent) {
                otel::span_is_valid(otel::context_span(cx)) && span_reads(
                    otel::context_span(cx),
                    self@,
                )
            } else {
                otel::context_span(cx) == otel::context_span(*base)
            },
    {
        proof {
            use_type_invariant(self);
        }
        extracted_context(base, self.traceparent.as_str(), &self.tracestate)
    }

    /// The OpenTelemetry context that carries on this trace, on top of that of
    /// the running thread. What the latter is, is not known here;
    /// [`to_otel_in`](Self::to_otel_in) states what is made of it.
    pub fn to_otel(&self) -> (cx: Context)
        ensures
            otel::propagator_reads(self@.traceparent) ==> otel::span_is_valid(
                otel::context_span(cx),
            ) && span_reads(otel::context_span(cx), self@),
            !otel::propagator_reads(self@.traceparent) ==> exists|base: Context| #[trigger]
                otel::is_current(base) && otel::context_span(cx) == otel::context_span(base),
    {
        let base = running_context();
        self.to_otel_in(&base)
    }

    /// Decodes this trace context into an OpenTelemetry span context, or `None`
    /// if it does not represent a span that the propagator reads. Used to add a
    /// span link from the worker's process span back to the producer.
    ///
    /// The span of the running thread plays no part in it.
    pub fn otel_span_context(&self) -> (r: Option<SpanContext>)
        ensures
            r is Some <==> otel::propagator_reads(self@.traceparent),
            r matches Some(sc) ==> otel::span_is_valid(sc) && span_reads(sc, self@),
    {
        let cx = self.to_otel_in(&empty_context());
        let sc = span_of(&cx);
        if is_valid_span(&sc) {
            Some(sc)
        } else {
            None
        }
    }
}

/// Whether `r` is the trace context captured from a span: one that stands for
/// it, where it is valid.
pub open spec fn is_capture(r: Option<TraceContext>, sc: SpanContext) -> bool {
    match r {
        Some(tc) => otel::span_is_valid(sc) && span_well_formed(sc) && tc@ == span_view(sc),
        None => !otel::span_is_valid(sc),
    }
}

/// The trace context that stands for a span.
pub open spec fn span_view(sc: SpanContext) -> TraceContextView {
    TraceContextView {
        traceparent: otel::written_traceparent(
            otel::span_trace_id(sc),
            otel::span_span_id(sc),
            otel::span_is_sampled(sc),
        ),
        tracestate: Some(otel::span_trace_state(sc)),
    }
}

/// Whether a span has the ids, the sampling decision and the state that a trace
/// context holds.
pub open spec fn span_reads(sc: SpanContext, tc: TraceContextView) -> bool {
    let f = text::split_fields(tc.traceparent, '-');
    &&& otel::span_trace_id(sc) == f[1]
    &&& otel::span_span_id(sc) == f[2]
    &&& otel::span_is_sampled(sc) == otel::odd_digit(f[3][1])
    &&& otel::span_trace_state(sc) == match tc.tracestate {
        Some(ts) => otel::trace_state_read(ts),
        None => Seq::empty(),
    }
}

/// The wire form of the trace context of the span in an OpenTelemetry context,
/// or `None` if that span is not valid.
pub fn inject_pb_trace_context(cx: &Context) -> (r: Option<pb::TraceContext>)
    ensures
        r is Some <==> otel::span_is_valid(otel::context_span(*cx)),
        r matches Some(tc) ==> tc.traceparent@ == span_view(otel::context_span(*cx)).traceparent
            && text::opt_text(tc.tracestate) == span_view(otel::context_span(*cx)).tracestate,
        r is Some ==> span_well_formed(otel::context_span(*cx)),
{
    let sc = span_of(cx);
    if !is_valid_span(&sc) {
        return None;
    }
    proof {
        reveal_strlit("traceparent");
        reveal_strlit("tracestate");
        assert("traceparent"@.len() != "tracestate"@.len());
    }
    match injected_header(cx, "traceparent") {
        Some(traceparent) => Some(
            pb::TraceContext { traceparent, tracestate: injected_header(cx, "tracestate") },
        ),
        None => None,
    }
}

/// Whether the ids of a span are hex numbers in lower case, of the lengths that
/// the W3C gives them, and not zero, and its state is read back as it is
/// written.
pub open spec fn span_well_formed(sc: SpanContext) -> bool {
    &&& text::is_lower_hex_field(otel::span_trace_id(sc), 32)
    &&& !text::all_zeros(otel::span_trace_id(sc))
    &&& text::is_lower_hex_field(otel::span_span_id(sc), 16)
    &&& !text::all_zeros(otel::span_span_id(sc))
    &&& otel::trace_state_read(otel::span_trace_state(sc)) == otel::span_trace_state(sc)
}

/// A `traceparent` written for well-formed ids is well-formed, the propagator
/// reads it, and its fields are those ids and the sampling decision.
pub proof fn lemma_written_traceparent(trace_id: Seq<char>, span_id: Seq<char>, sampled: bool)
    requires
        text::is_lower_hex_field(trace_id, 32),
        !text::all_zeros(trace_id),
        text::is_lower_hex_field(span_id, 16),
        !text::all_zeros(span_id),
    ensures
        ({
            let tp = otel::written_traceparent(trace_id, span_id, sampled);
            let f = text::split_fields(tp, '-');
            &&& valid_traceparent(tp)
            &&& otel::propagator_reads(tp)
            &&& f.len() == 4
            &&& f[1] == trace_id
            &&& f[2] == span_id
            &&& otel::odd_digit(f[3][1]) == sampled
        }),
{
    reveal_strlit("00");
    reveal_strlit("01");
    let version = "00"@;
    let flags = if sampled {
        "01"@
    } else {
        "00"@
    };
    assert(!version.contains('-'));
    assert(!trace_id.contains('-'));
    assert(!span_id.contains('-'));
    assert(!flags.contains('-'));
    text::lemma_split_plain(version, '-');
    text::lemma_split_append(version, trace_id, '-');
    text::lemma_split_append(version + seq!['-'] + trace_id, span_id, '-');
    text::lemma_split_append(version + seq!['-'] + trace_id + seq!['-'] + span_id, flags, '-');
    let f = text::split_fields(otel::written_traceparent(trace_id, span_id, sampled), '-');
    assert(f =~= seq![version, trace_id, span_id, flags]);
    assert(text::is_hex_field(f[0], 2));
    assert(text::is_hex_field(f[1], 32));
    assert(text::is_hex_field(f[2], 16));
    assert(text::is_hex_field(f[3], 2));
    assert(f[0][0] == '0');
}

/// The trace context captured from a span is well-formed, and the propagator
/// reads it.
pub proof fn captured_trace_is_read(producer: SpanContext)
    requires
        span_well_formed(producer),
    ensures
        valid_traceparent(span_view(producer).traceparent),
        otel::propagator_reads(span_view(producer).traceparent),
{
    lemma_written_traceparent(
        otel::span_trace_id(producer),
        otel::span_span_id(producer),
        otel::span_is_sampled(producer),
    );
}

/// The trace context captured from a span leads back to that span: what is read
/// from it has the same trace id, span id, sampling decision and state. This is
/// the link from a producer's span to the worker's.
pub proof fn trace_link(producer: SpanContext, worker: SpanContext)
    requires
        span_well_formed(producer),
        span_reads(worker, span_view(producer)),
    ensures
        otel::span_trace_id(worker) == otel::span_trace_id(producer),
        otel::span_span_id(worker) == otel::span_span_id(producer),
        otel::span_is_sampled(worker) == otel::span_is_sampled(producer),
        otel::span_trace_state(worker) == otel::span_trace_state(producer),
{
    lemma_written_traceparent(
        otel::span_trace_id(producer),
        otel::span_span_id(producer),
        otel::span_is_sampled(producer),
    );
}

impl From<TraceContext> for pb::TraceContext {
    fn from(tc: TraceContext) -> (r: Self)
        ensures
            wire_view(r) == tc@,
            valid_traceparent(r.traceparent@),
    {
        proof {
            use_type_invariant(&tc);
        }
        pb::TraceContext { traceparent: tc.traceparent, tracestate: tc.tracestate }
    }
}

impl vstd::std_specs::convert::FromSpecImpl<TraceContext> for pb::TraceContext {
    open spec fn obeys_from_spec() -> bool {
        false
    }

    open spec fn from_spec(tc: TraceContext) -> Self {
        arbitrary()
    }
}

/// What a trace context on the wire holds.
pub open spec fn wire_view(tc: pb::TraceContext) -> TraceContextView {
    TraceContextView { traceparent: tc.traceparent@, tracestate: text::opt_text(tc.tracestate) }
}

/// What reading a trace context from the wire gives: the same contents, where
/// the `traceparent` is well-formed.
pub open spec fn trace_from_wire(tc: pb::TraceContext) -> Option<TraceContextView> {
    if valid_traceparent(tc.traceparent@) {
        Some(wire_view(tc))
    } else {
        None
    }
}

impl TryFrom<pb::TraceContext> for TraceContext {
    type Error = TraceContextError;

    fn try_from(tc: pb::TraceContext) -> (r: Result<Self, TraceContextError>)
        ensures
            r is Ok <==> valid_traceparent(tc.traceparent@),
            r matches Ok(t) ==> trace_from_wire(tc) == Some(t@),
            r matches Err(e) ==> traceparent_fault(tc.traceparent@) == Some(e.fault()),
    {
        match TraceContext::new(tc.traceparent.as_str()) {
            Ok(ctx) => match tc.tracestate {
                Some(ts) => Ok(ctx.with_tracestate(ts.as_str())),
                None => Ok(ctx),
            },
            Err(e) => Err(e),
        }
    }
}

impl vstd::std_specs::convert::TryFromSpecImpl<pb::TraceContext> for TraceContext {
    open spec fn obeys_try_from_spec() -> bool {
        false
    }

    open spec fn try_from_spec(tc: pb::TraceContext) -> Result<Self, TraceContextError> {
        arbitrary()
    }
}

/// A trace context survives the wire: what is written of one is read back with
/// the same contents.
pub proof fn trace_context_round_trip(written: pb::TraceContext, tc: TraceContextView)
    requires
        valid_traceparent(tc.traceparent),
        wire_view(written) == tc,
    ensures
        trace_from_wire(written) == Some(tc),
{
}

} // verus!
