//! Traces: what is well-formed, and how a span is followed.
use opentelemetry::trace::SpanContext;
use opentelemetry::Context;
use vstd::prelude::*;

use crate::client::calls;
use crate::client::{trace_headers, TraceHeaders};
use crate::job::{self, Job, JobConversionError};
use crate::otel;
use crate::pb;
use crate::text;
use crate::trace::{
    self, inject_pb_trace_context, validate_traceparent, TraceContext, TraceContextError,
};

verus! {

/// Whether a character is a hex digit.
pub open spec fn hex(c: char) -> bool {
    ('0' <= c <= '9') || ('a' <= c <= 'f') || ('A' <= c <= 'F')
}

/// Whether a text has the shape of a `traceparent`: 55 characters, hyphens after
/// the second, the thirty-fifth and the fifty-second, hex digits elsewhere, and
/// two ids that are not zero.
pub open spec fn has_shape(s: Seq<char>) -> bool {
    &&& s.len() == 55
    &&& s[2] == '-' && s[35] == '-' && s[52] == '-'
    &&& forall|i: int| 0 <= i < 55 && i != 2 && i != 35 && i != 52 ==> hex(#[trigger] s[i])
    &&& exists|i: int| 3 <= i < 35 && #[trigger] s[i] != '0'
    &&& exists|i: int| 36 <= i < 52 && #[trigger] s[i] != '0'
}

/// The text that fields with a separator between each two make up.
pub open spec fn joined(fields: Seq<Seq<char>>, sep: char) -> Seq<char>
    decreases fields.len(),
{
    if fields.len() == 0 {
        Seq::empty()
    } else if fields.len() == 1 {
        fields[0]
    } else {
        joined(fields.drop_last(), sep) + seq![sep] + fields.last()
    }
}

/// How often a character occurs in a text.
pub open spec fn occurrences(s: Seq<char>, c: char) -> nat
    decreases s.len(),
{
    if s.len() == 0 {
        0
    } else {
        occurrences(s.drop_last(), c) + if s.last() == c {
            1nat
        } else {
            0
        }
    }
}

/// The fields of a text make it up again, and there is one more of them than
/// there are separators.
pub proof fn fields_make_up_the_text(s: Seq<char>, sep: char)
    ensures
        joined(text::split_fields(s, sep), sep) == s,
        text::split_fields(s, sep).len() == occurrences(s, sep) + 1,
    decreases s.len(),
{
    let f = text::split_fields(s, sep);
    if s.len() == 0 {
        assert(f =~= seq![Seq::<char>::empty()]);
        assert(joined(f, sep) =~= s);
    } else {
        let before = text::split_fields(s.drop_last(), sep);
        fields_make_up_the_text(s.drop_last(), sep);
        if s.last() == sep {
            assert(f.drop_last() =~= before);
            assert(joined(f, sep) =~= s.drop_last().push(sep));
            assert(s =~= s.drop_last().push(sep));
        } else {
            assert(f.drop_last() =~= before.drop_last());
            assert(f.last() == before.last().push(s.last()));
            if before.len() == 1 {
                assert(f.len() == 1);
                assert(joined(before, sep) == before[0]);
                assert(joined(f, sep) =~= before[0].push(s.last()));
            } else {
                assert(joined(f, sep) =~= joined(before, sep).push(s.last()));
            }
            assert(s =~= s.drop_last().push(s.last()));
        }
    }
}

/// Four fields without hyphens are the fields of the text that they make up.
proof fn lemma_four_fields(a: Seq<char>, b: Seq<char>, c: Seq<char>, d: Seq<char>)
    requires
        !a.contains('-'),
        !b.contains('-'),
        !c.contains('-'),
        !d.contains('-'),
    ensures
        text::split_fields(a + seq!['-'] + b + seq!['-'] + c + seq!['-'] + d, '-') == seq![
            a,
            b,
            c,
            d,
        ],
{
    text::lemma_split_plain(a, '-');
    text::lemma_split_append(a, b, '-');
    text::lemma_split_append(a + seq!['-'] + b, c, '-');
    text::lemma_split_append(a + seq!['-'] + b + seq!['-'] + c, d, '-');
    assert(text::split_fields(a + seq!['-'] + b + seq!['-'] + c + seq!['-'] + d, '-') =~= seq![
        a,
        b,
        c,
        d,
    ]);
}

/// The fields of a text with the shape of a `traceparent` lie between its
/// hyphens.
proof fn lemma_fields_of_shape(s: Seq<char>)
    requires
        has_shape(s),
    ensures
        text::split_fields(s, '-') == seq![
            s.subrange(0, 2),
            s.subrange(3, 35),
            s.subrange(36, 52),
            s.subrange(53, 55),
        ],
{
    let a = s.subrange(0, 2);
    let b = s.subrange(3, 35);
    let c = s.subrange(36, 52);
    let d = s.subrange(53, 55);
    assert(forall|i: int| 0 <= i < a.len() ==> #[trigger] a[i] == s[i]);
    assert(forall|i: int| 0 <= i < b.len() ==> #[trigger] b[i] == s[i + 3]);
    assert(forall|i: int| 0 <= i < c.len() ==> #[trigger] c[i] == s[i + 36]);
    assert(forall|i: int| 0 <= i < d.len() ==> #[trigger] d[i] == s[i + 53]);
    lemma_four_fields(a, b, c, d);
    assert(s =~= a + seq!['-'] + b + seq!['-'] + c + seq!['-'] + d);
}

/// A `traceparent` is well-formed exactly where it has the shape of one.
pub proof fn a_traceparent_is_known_by_its_shape(s: Seq<char>)
    ensures
        trace::valid_traceparent(s) <==> has_shape(s),
{
    if has_shape(s) {
        lemma_fields_of_shape(s);
        let f = text::split_fields(s, '-');
        assert(forall|i: int| 0 <= i < 2 ==> #[trigger] f[0][i] == s[i]);
        assert(forall|i: int| 0 <= i < 32 ==> #[trigger] f[1][i] == s[i + 3]);
        assert(forall|i: int| 0 <= i < 16 ==> #[trigger] f[2][i] == s[i + 36]);
        assert(forall|i: int| 0 <= i < 2 ==> #[trigger] f[3][i] == s[i + 53]);
        let i = choose|i: int| 3 <= i < 35 && #[trigger] s[i] != '0';
        assert(f[1][i - 3] != '0');
        let j = choose|j: int| 36 <= j < 52 && #[trigger] s[j] != '0';
        assert(f[2][j - 36] != '0');
    }
    if trace::valid_traceparent(s) {
        let f = text::split_fields(s, '-');
        fields_make_up_the_text(s, '-');
        let f3 = f.drop_last();
        let f2 = f3.drop_last();
        let f1 = f2.drop_last();
        assert(joined(f1, '-') == f[0]);
        assert(joined(f2, '-') == f[0] + seq!['-'] + f[1]);
        assert(joined(f3, '-') == f[0] + seq!['-'] + f[1] + seq!['-'] + f[2]);
        assert(s == f[0] + seq!['-'] + f[1] + seq!['-'] + f[2] + seq!['-'] + f[3]);
        assert(forall|i: int| 0 <= i < 2 ==> #[trigger] s[i] == f[0][i]);
        assert(forall|i: int| 3 <= i < 35 ==> #[trigger] s[i] == f[1][i - 3]);
        assert(forall|i: int| 36 <= i < 52 ==> #[trigger] s[i] == f[2][i - 36]);
        assert(forall|i: int| 53 <= i < 55 ==> #[trigger] s[i] == f[3][i - 53]);
        let i = choose|i: int| 0 <= i < f[1].len() && #[trigger] f[1][i] != '0';
        assert(s[i + 3] != '0');
        let j = choose|j: int| 0 <= j < f[2].len() && #[trigger] f[2][j] != '0';
        assert(s[j + 36] != '0');
    }
}

/// A trace context is made of a `traceparent` exactly where that is well-formed,
/// and holds it and the state that it is given, which can be read from it.
pub proof fn a_trace_context_holds_what_it_was_made_of(
    s: &str,
    checked: Result<(), TraceContextError>,
    r: Result<TraceContext, TraceContextError>,
    tc: TraceContext,
    ts: &str,
    t: TraceContext,
    parent: &str,
    state: Option<&str>,
)
    requires
        call_ensures(validate_traceparent, (s,), checked),
        call_ensures(TraceContext::new, (s,), r),
        call_ensures(TraceContext::with_tracestate, (tc, ts), t),
        call_ensures(TraceContext::traceparent, (&tc,), parent),
        call_ensures(TraceContext::tracestate, (&tc,), state),
    ensures
        checked is Ok <==> has_shape(s@),
        r is Ok <==> has_shape(s@),
        r matches Ok(x) ==> x@.traceparent == s@ && x@.tracestate is None,
        t@.traceparent == tc@.traceparent,
        t@.tracestate == Some(ts@),
        parent@ == tc@.traceparent,
        has_shape(parent@),
        state is Some <==> tc@.tracestate is Some,
        state matches Some(x) ==> tc@.tracestate == Some(x@),
{
    a_traceparent_is_known_by_its_shape(s@);
    a_traceparent_is_known_by_its_shape(parent@);
}

/// Whether a field has so many characters, all of them hex digits.
pub open spec fn hex_digits(s: Seq<char>, n: int) -> bool {
    s.len() == n && forall|i: int| 0 <= i < n ==> hex(#[trigger] s[i])
}

/// What is wrong with a `traceparent` of four fields is told by the first field
/// that is wrong, and one of more or fewer fields is refused for that.
pub proof fn a_traceparent_is_refused_for_its_first_fault(
    s: &str,
    why: &'static str,
    a: Seq<char>,
    b: Seq<char>,
    c: Seq<char>,
    d: Seq<char>,
)
    requires
        call_ensures(
            validate_traceparent,
            (s,),
            Err::<(), TraceContextError>(TraceContextError::InvalidTraceparent(why)),
        ),
        occurrences(s@, '-') == 3 ==> s@ == a + seq!['-'] + b + seq!['-'] + c + seq!['-'] + d
            && !a.contains('-') && !b.contains('-') && !c.contains('-') && !d.contains('-'),
    ensures
        why@ == if occurrences(s@, '-') != 3 {
            "expected 4 hyphen-separated fields"@
        } else if !hex_digits(a, 2) {
            "version must be 2 hex chars"@
        } else if !hex_digits(b, 32) {
            "trace_id must be 32 hex chars"@
        } else if forall|i: int| 0 <= i < 32 ==> #[trigger] b[i] == '0' {
            "trace_id must not be all zeros"@
        } else if !hex_digits(c, 16) {
            "span_id must be 16 hex chars"@
        } else if forall|i: int| 0 <= i < 16 ==> #[trigger] c[i] == '0' {
            "span_id must not be all zeros"@
        } else {
            "flags must be 2 hex chars"@
        },
{
    fields_make_up_the_text(s@, '-');
    if occurrences(s@, '-') == 3 {
        lemma_four_fields(a, b, c, d);
    }
}

/// A trace context is written and read with the same contents, and one from the
/// wire is read exactly where it is well-formed.
pub proof fn a_trace_context_is_sent_as_it_is(
    tc: TraceContext,
    w: pb::TraceContext,
    x: pb::TraceContext,
    r: Result<TraceContext, TraceContextError>,
)
    requires
        call_ensures(<pb::TraceContext as From<TraceContext>>::from, (tc,), w),
        call_ensures(<TraceContext as TryFrom<pb::TraceContext>>::try_from, (x,), r),
    ensures
        w.traceparent@ == tc@.traceparent,
        w.tracestate is Some <==> tc@.tracestate is Some,
        w.tracestate matches Some(s) ==> tc@.tracestate == Some(s@),
        r is Ok <==> has_shape(x.traceparent@),
        r matches Ok(t) ==> t@.traceparent == x.traceparent@,
        r matches Ok(t) ==> (t@.tracestate is Some <==> x.tracestate is Some),
        r matches Ok(t) ==> (x.tracestate matches Some(s) ==> t@.tracestate == Some(s@)),
{
    a_traceparent_is_known_by_its_shape(x.traceparent@);
}

/// A span is captured exactly where it is valid, and the same way for a job and
/// for the wire: its ids stand between the hyphens, its sampling decision at the
/// end, and its state beside them.
pub proof fn a_span_is_captured_with_its_ids(
    cx: Context,
    w: Option<pb::TraceContext>,
    t: Option<TraceContext>,
)
    requires
        call_ensures(inject_pb_trace_context, (&cx,), w),
        call_ensures(TraceContext::from_otel, (&cx,), t),
    ensures
        w is Some <==> otel::span_is_valid(otel::context_span(cx)),
        t is Some <==> w is Some,
        w matches Some(x) ==> has_shape(x.traceparent@),
        w matches Some(x) ==> x.traceparent@.subrange(3, 35) == otel::span_trace_id(
            otel::context_span(cx),
        ),
        w matches Some(x) ==> x.traceparent@.subrange(36, 52) == otel::span_span_id(
            otel::context_span(cx),
        ),
        w matches Some(x) ==> x.traceparent@[0] == '0' && x.traceparent@[1] == '0'
            && x.traceparent@[53] == '0',
        w matches Some(x) ==> x.traceparent@[54] == if otel::span_is_sampled(
            otel::context_span(cx),
        ) {
            '1'
        } else {
            '0'
        },
        w matches Some(x) ==> (x.tracestate matches Some(s) && s@ == otel::span_trace_state(
            otel::context_span(cx),
        )),
        w matches Some(x) ==> t->0@.traceparent == x.traceparent@,
        w matches Some(x) ==> t->0@.tracestate == Some(x.tracestate->0@),
{
    if w is Some {
        let sc = otel::context_span(cx);
        trace::captured_trace_is_read(sc);
        let tp = w->0.traceparent@;
        a_traceparent_is_known_by_its_shape(tp);
        reveal_strlit("00");
        reveal_strlit("01");
        assert(tp.subrange(3, 35) =~= otel::span_trace_id(sc));
        assert(tp.subrange(36, 52) =~= otel::span_span_id(sc));
    }
}

/// The span that is captured without being named is that of the running thread.
pub proof fn the_running_span_is_captured(r: Option<TraceContext>)
    requires
        call_ensures(TraceContext::from_current_otel, (), r),
    ensures
        exists|cx: Context| #[trigger]
            otel::is_current(cx) && (r is Some <==> otel::span_is_valid(otel::context_span(cx)))
                && (r matches Some(t) ==> t@.traceparent.subrange(3, 35) == otel::span_trace_id(
                otel::context_span(cx),
            ) && t@.traceparent.subrange(36, 52) == otel::span_span_id(otel::context_span(cx))),
{
    let cx = choose|cx: Context| #[trigger]
        otel::is_current(cx) && trace::is_capture(r, otel::context_span(cx));
    assert(otel::is_current(cx));
    if r is Some {
        let sc = otel::context_span(cx);
        reveal_strlit("00");
        reveal_strlit("01");
        let tp = r->0@.traceparent;
        assert(tp.subrange(3, 35) =~= otel::span_trace_id(sc));
        assert(tp.subrange(36, 52) =~= otel::span_span_id(sc));
    }
}

/// A trace context of the current version, with ids in lower case and no flag
/// but the one for sampling, leads to a span with those ids and that decision,
/// whatever the running thread is about.
pub proof fn a_trace_context_leads_to_its_span(
    tc: TraceContext,
    base: Context,
    r: Option<SpanContext>,
    cx: Context,
    current: Context,
)
    requires
        call_ensures(TraceContext::otel_span_context, (&tc,), r),
        call_ensures(TraceContext::to_otel_in, (&tc, &base), cx),
        call_ensures(TraceContext::to_otel, (&tc,), current),
        has_shape(tc@.traceparent),
        tc@.traceparent[0] == '0' && tc@.traceparent[1] == '0',
        tc@.traceparent[53] == '0',
        tc@.traceparent[54] == '0' || tc@.traceparent[54] == '1',
        forall|i: int| 3 <= i < 52 ==> !('A' <= #[trigger] tc@.traceparent[i] <= 'Z'),
    ensures
        r matches Some(sc) && otel::span_is_valid(sc) && otel::span_trace_id(sc)
            == tc@.traceparent.subrange(3, 35) && otel::span_span_id(sc)
            == tc@.traceparent.subrange(36, 52) && (otel::span_is_sampled(sc)
            <==> tc@.traceparent[54] == '1'),
        otel::span_is_valid(otel::context_span(cx)),
        otel::span_trace_id(otel::context_span(cx)) == tc@.traceparent.subrange(3, 35),
        otel::span_span_id(otel::context_span(cx)) == tc@.traceparent.subrange(36, 52),
        otel::span_is_sampled(otel::context_span(cx)) <==> tc@.traceparent[54] == '1',
        otel::span_is_valid(otel::context_span(current)),
        otel::span_trace_id(otel::context_span(current)) == tc@.traceparent.subrange(3, 35),
        otel::span_span_id(otel::context_span(current)) == tc@.traceparent.subrange(36, 52),
        otel::span_is_sampled(otel::context_span(current)) <==> tc@.traceparent[54] == '1',
        otel::span_trace_state(otel::context_span(cx)) == otel::span_trace_state(r->0),
        otel::span_trace_state(otel::context_span(current)) == otel::span_trace_state(r->0),
        tc@.tracestate is None ==> otel::span_trace_state(r->0) == Seq::<char>::empty(),
        tc@.tracestate matches Some(s) ==> otel::span_trace_state(r->0) == otel::trace_state_read(
            s,
        ),
{
    let tp = tc@.traceparent;
    a_traceparent_is_known_by_its_shape(tp);
    lemma_fields_of_shape(tp);
    let f = text::split_fields(tp, '-');
    assert(f[0][0] == tp[0] && f[0][1] == tp[1]);
    assert(f[3][0] == tp[53] && f[3][1] == tp[54]);
    assert(forall|i: int| 0 <= i < 32 ==> #[trigger] f[1][i] == tp[i + 3]);
    assert(forall|i: int| 0 <= i < 16 ==> #[trigger] f[2][i] == tp[i + 36]);
    assert(!otel::has_capital(f[1]));
    assert(!otel::has_capital(f[2]));
    assert(otel::propagator_reads(tp));
}

/// A trace context that the propagator does not read leads to no span, and
/// leaves the span of a given context alone.
pub proof fn an_unread_trace_context_leads_nowhere(
    tc: TraceContext,
    base: Context,
    r: Option<SpanContext>,
    cx: Context,
    current: Context,
)
    requires
        call_ensures(TraceContext::otel_span_context, (&tc,), r),
        call_ensures(TraceContext::to_otel_in, (&tc, &base), cx),
        call_ensures(TraceContext::to_otel, (&tc,), current),
    ensures
        !otel::propagator_reads(tc@.traceparent) ==> r is None && otel::context_span(cx)
            == otel::context_span(base),
        otel::propagator_reads(tc@.traceparent) ==> r is Some,
        !otel::propagator_reads(tc@.traceparent) ==> exists|running: Context| #[trigger]
            otel::is_current(running) && otel::context_span(current) == otel::context_span(running),
{
}

/// The span that enqueued a job is the one that its worker is led to: where a
/// job has no trace context of its own, that of the enqueuing span is sent with
/// it, and where the server hands it on, it leads to a span with the same ids,
/// the same sampling decision and the same state.
pub proof fn a_worker_is_led_to_the_enqueuing_span(
    cx: Context,
    tc: Option<pb::TraceContext>,
    batch: pb::EnqueueBatchRequest,
    sent: pb::EnqueueBatchRequest,
    i: int,
    j: pb::Job,
    worker_id: Option<&str>,
    job: Job,
    link: Option<SpanContext>,
)
    requires
        call_ensures(inject_pb_trace_context, (&cx,), tc),
        call_ensures(calls::inject_trace_context, (batch, &tc), sent),
        0 <= i < batch.jobs@.len(),
        batch.jobs@[i].trace_context is None,
        otel::span_is_valid(otel::context_span(cx)),
        j.trace_context == sent.jobs@[i].trace_context,
        call_ensures(job::job_from_pb, (j, worker_id), Ok::<Job, JobConversionError>(job)),
        job.ctx.trace_context matches Some(t) ==> call_ensures(
            TraceContext::otel_span_context,
            (&t,),
            link,
        ),
    ensures
        job.ctx.trace_context is Some,
        link matches Some(sc) && otel::span_trace_id(sc) == otel::span_trace_id(
            otel::context_span(cx),
        ) && otel::span_span_id(sc) == otel::span_span_id(otel::context_span(cx))
            && otel::span_is_sampled(sc) == otel::span_is_sampled(otel::context_span(cx))
            && otel::span_trace_state(sc) == otel::span_trace_state(otel::context_span(cx)),
{
    let producer = otel::context_span(cx);
    trace::captured_trace_is_read(producer);
    assert(j.trace_context == tc);
    assert(job.ctx.trace_context->0@ == trace::span_view(producer));
    trace::trace_link(producer, link->0);
}

/// A request carries the headers of the same trace context, each exactly where
/// it can stand in a header, and none where there is no valid span.
pub proof fn a_request_carries_its_trace(
    cx: Context,
    w: Option<pb::TraceContext>,
    h: TraceHeaders,
)
    requires
        call_ensures(inject_pb_trace_context, (&cx,), w),
        call_ensures(trace_headers, (&cx,), h),
    ensures
        w is None ==> h.traceparent is None && h.tracestate is None,
        w matches Some(x) ==> (h.traceparent matches Some(s) && s@ == x.traceparent@),
        w matches Some(x) ==> (h.tracestate is Some <==> forall|i: int|
            0 <= i < x.tracestate->0@.len() ==> ((#[trigger] x.tracestate->0@[i]) as int >= 32
                && x.tracestate->0@[i] as int != 127) || x.tracestate->0@[i] as int == 9),
        w matches Some(x) ==> (h.tracestate matches Some(s) ==> s@ == x.tracestate->0@),
{
    if w is Some {
        let k = w->0.tracestate->0@;
        assert(forall|i: int|
            0 <= i < k.len() ==> (crate::client::auth::is_header_char(#[trigger] k[i]) <==> ((k[i]
                as int >= 32 && k[i] as int != 127) || k[i] as int == 9)));
    }
}

} // verus!
