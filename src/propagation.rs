use vstd::prelude::*;

use fastrace::collector::SpanContext;
use fastrace::collector::SpanId;
use fastrace::collector::TraceId;
use fastrace::Span;
use http::HeaderMap;

use crate::codec::decode_traceparent;
use crate::codec::encode_traceparent;
use crate::codec::lemma_round_trip;
use crate::codec::lemma_traceparent_shape;
use crate::codec::is_hex_char;
use crate::codec::traceparent_decoded;
use crate::codec::traceparent_text;
use crate::codec::TraceContext;
use crate::headers::all_visible_ascii;
use crate::headers::bytes_as_chars;
use crate::headers::first_header_value;
use crate::headers::header_entries;
use crate::headers::header_get;
use crate::headers::header_try_insert;
use crate::headers::header_value_char;
use crate::headers::header_value_from_str;
use crate::headers::header_value_to_str;
use crate::headers::HEADER_KEYS_LIMIT;

verus! {

#[verifier::external_type_specification]
#[verifier::external_body]
pub struct ExSpan(fastrace::Span);

/// The name of the header that carries the trace context.
pub const TRACEPARENT_HEADER: &'static str = "traceparent";

pub open spec fn traceparent_name() -> Seq<char> {
    seq!['t', 'r', 'a', 'c', 'e', 'p', 'a', 'r', 'e', 'n', 't']
}

/// The bytes of the `traceparent` value of `c`, one per character.
pub open spec fn traceparent_bytes(c: TraceContext) -> Seq<u8> {
    traceparent_text(c).map_values(|ch: char| ch as u8)
}

/// The headers once the `traceparent` header holds the encoding of `c`
/// alone: any earlier values under that name are gone.
pub open spec fn with_traceparent(entries: Map<Seq<char>, Seq<Seq<u8>>>, c: TraceContext) -> Map<
    Seq<char>,
    Seq<Seq<u8>>,
> {
    entries.insert(traceparent_name(), seq![traceparent_bytes(c)])
}

/// How injecting `current` may take headers from `before` to `after`: without
/// a context nothing changes; with one the header is set, unless the map is
/// too full to take another key and is left as it was.
pub open spec fn injection_outcome(
    before: Map<Seq<char>, Seq<Seq<u8>>>,
    after: Map<Seq<char>, Seq<Seq<u8>>>,
    current: Option<TraceContext>,
) -> bool {
    match current {
        Some(c) => after == with_traceparent(before, c) || (before.dom().len() >= HEADER_KEYS_LIMIT
            && after == before),
        None => after == before,
    }
}

/// The context that incoming headers carry: the first `traceparent` value,
/// read as text and decoded.
pub open spec fn extracted(entries: Map<Seq<char>, Seq<Seq<u8>>>) -> Option<TraceContext> {
    match first_header_value(entries, traceparent_name()) {
        Some(b) => if all_visible_ascii(b) {
            traceparent_decoded(bytes_as_chars(b))
        } else {
            None
        },
        None => None,
    }
}

/// Relies on fastrace's `SpanContext::current_local_parent`: the context of
/// the span that is active in this thread, if any.
#[verifier::external_body]
fn current_context() -> (r: Option<TraceContext>) {
    match SpanContext::current_local_parent() {
        Some(c) => Some(TraceContext { trace_id: c.trace_id.0, span_id: c.span_id.0, sampled: c.sampled }),
        None => None,
    }
}

/// Relies on fastrace's `SpanContext::random`: a random trace id, span id 0,
/// sampled.
#[verifier::external_body]
fn random_context() -> (r: TraceContext)
    ensures
        r.span_id == 0,
        r.sampled,
{
    let c = SpanContext::random();
    TraceContext { trace_id: c.trace_id.0, span_id: c.span_id.0, sampled: c.sampled }
}

proof fn lemma_traceparent_bytes(c: TraceContext)
    ensures
        vstd::utf8::encode_utf8(traceparent_text(c)) == traceparent_bytes(c),
        forall|i: int| 0 <= i < traceparent_text(c).len() ==> #[trigger] header_value_char(traceparent_text(c)[i]),
        all_visible_ascii(traceparent_bytes(c)),
        bytes_as_chars(traceparent_bytes(c)) == traceparent_text(c),
{
    lemma_traceparent_shape(c);
    let t = traceparent_text(c);
    assert forall|i: int| 0 <= i < t.len() implies '-' <= #[trigger] t[i] <= 'f' && (is_hex_char(t[i]) || t[i] == '-') by {
        if !(3 <= i < 35 || 36 <= i < 52 || 53 <= i < 55) {
            assert(i == 0 || i == 1 || i == 2 || i == 35 || i == 52);
        } else {
            assert(is_hex_char(t[i]));
        }
    }
    assert(vstd::utf8::is_ascii_chars(t));
    vstd::utf8::is_ascii_chars_encode_utf8(t);
    assert(vstd::utf8::encode_utf8(t) =~= traceparent_bytes(c));
    assert(bytes_as_chars(traceparent_bytes(c)) =~= t);
}

/// Sets the `traceparent` header of an outgoing request to the encoding of
/// `current`, replacing any earlier value; leaves the headers as they are
/// without a context. The header is always set while the map holds fewer than
/// `HEADER_KEYS_LIMIT` names; beyond that the map may refuse it, and nothing
/// changes.
pub fn inject_traceparent(headers: &mut HeaderMap, current: Option<TraceContext>)
    ensures
        injection_outcome(header_entries(*old(headers)), header_entries(*final(headers)), current),
{
    if let Some(c) = current {
        let text = encode_traceparent(&c);
        proof {
            lemma_traceparent_bytes(c);
        }
        let value = header_value_from_str(text.as_str());
        match value {
            Some(v) => {
                proof {
                    reveal_strlit("traceparent");
                    assert("traceparent"@ =~= traceparent_name());
                }
                header_try_insert(headers, "traceparent", v);
            },
            None => {
                assert(false);
            },
        }
    }
}

/// Gives an outgoing request the context of the span active in this thread,
/// as `inject_traceparent` does, and returns that context.
pub fn inject_current_traceparent(headers: &mut HeaderMap) -> (r: Option<TraceContext>)
    ensures
        injection_outcome(header_entries(*old(headers)), header_entries(*final(headers)), r),
{
    let current = current_context();
    inject_traceparent(headers, current);
    current
}

/// The context that the `traceparent` header of an incoming request carries.
pub fn traceparent_of(headers: &HeaderMap) -> (r: Option<TraceContext>)
    ensures
        r == extracted(header_entries(*headers)),
{
    proof {
        reveal_strlit("traceparent");
        assert("traceparent"@ =~= traceparent_name());
    }
    match header_get(headers, "traceparent") {
        Some(v) => match header_value_to_str(&v) {
            Some(s) => decode_traceparent(s),
            None => None,
        },
        None => None,
    }
}

/// The parent for the span of an incoming request: the context that its
/// `traceparent` header carries, or else `fallback`.
pub fn span_context_or(headers: &HeaderMap, fallback: TraceContext) -> (r: TraceContext)
    ensures
        r == (match extracted(header_entries(*headers)) {
            Some(c) => c,
            None => fallback,
        }),
{
    match traceparent_of(headers) {
        Some(c) => c,
        None => fallback,
    }
}

/// The default extraction of a parent: the context that the `traceparent`
/// header carries, or else a fresh random one. It always yields a context.
pub fn default_span_context(headers: &HeaderMap) -> (r: Option<TraceContext>)
    ensures
        r is Some,
        extracted(header_entries(*headers)) is Some ==> r == extracted(header_entries(*headers)),
        extracted(header_entries(*headers)) is None ==> r->0.span_id == 0 && r->0.sampled,
{
    match traceparent_of(headers) {
        Some(c) => Some(c),
        None => Some(random_context()),
    }
}

/// The span to run a request's handler in.
pub enum SpanPlan {
    /// A root span named after the request's target, under the given parent.
    Root { name: String, parent: TraceContext },
    /// A span that records nothing.
    Noop,
}

/// A root span named `target` under `parent` where there is one, else a no-op span.
pub fn plan_request_span(target: String, parent: Option<TraceContext>) -> (r: SpanPlan)
    ensures
        parent is None ==> r is Noop,
        parent is Some ==> (r matches SpanPlan::Root { name, parent: p } && name@ == target@ && p == parent->0),
{
    match parent {
        Some(p) => SpanPlan::Root { name: target, parent: p },
        None => SpanPlan::Noop,
    }
}

/// A span opened for a request, with a record of how it was opened: the name
/// and parent of a root span, or nothing for a no-op span.
pub struct RequestSpan {
    pub span: Span,
    pub opened: Ghost<Option<(Seq<char>, TraceContext)>>,
}

/// Relies on fastrace's `Span::root`: a new root span with that name under
/// that parent context.
#[verifier::external_body]
fn root_span(name: String, parent: &TraceContext) -> (r: RequestSpan)
    ensures
        r.opened@ == Some((name@, *parent)),
{
    let opened = Ghost(Some((name@, *parent)));
    let parent = SpanContext::new(TraceId(parent.trace_id), SpanId(parent.span_id)).sampled(parent.sampled);
    RequestSpan { span: Span::root(name, parent), opened }
}

/// Relies on fastrace's `Span::noop`: a span that records nothing.
#[verifier::external_body]
fn noop_span() -> (r: RequestSpan)
    ensures
        r.opened@ is None,
{
    RequestSpan { span: Span::noop(), opened: Ghost(None) }
}

/// Opens the span that `plan` describes: a root span with the plan's name and
/// parent, or a no-op span.
pub fn open_span(plan: SpanPlan) -> (r: RequestSpan)
    ensures
        r.opened@ == (match plan {
            SpanPlan::Root { name, parent } => Some((name@, parent)),
            SpanPlan::Noop => None,
        }),
{
    match plan {
        SpanPlan::Root { name, parent } => root_span(name, &parent),
        SpanPlan::Noop => noop_span(),
    }
}

/// Whatever headers an outgoing request had, once given a context its
/// `traceparent` header holds the encoding of that context as its only value;
/// stale values are replaced. Below `HEADER_KEYS_LIMIT` names this is what
/// injection does; without a context the headers stay as they were.
pub proof fn lemma_injection_sets_header(
    before: Map<Seq<char>, Seq<Seq<u8>>>,
    after: Map<Seq<char>, Seq<Seq<u8>>>,
    c: TraceContext,
)
    ensures
        with_traceparent(before, c)[traceparent_name()] == seq![traceparent_bytes(c)],
        first_header_value(with_traceparent(before, c), traceparent_name()) == Some(traceparent_bytes(c)),
        before.dom().len() < HEADER_KEYS_LIMIT && injection_outcome(before, after, Some(c)) ==> after
            == with_traceparent(before, c),
        injection_outcome(before, after, None) ==> after == before,
{
}

/// A valid context injected into outgoing headers is the context that the
/// receiving side extracts from them.
pub proof fn lemma_propagation(entries: Map<Seq<char>, Seq<Seq<u8>>>, c: TraceContext)
    requires
        c.is_valid(),
    ensures
        extracted(with_traceparent(entries, c)) == Some(c),
{
    lemma_traceparent_bytes(c);
    lemma_round_trip(c);
    lemma_injection_sets_header(entries, entries, c);
}

} // verus!
