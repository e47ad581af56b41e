use vstd::prelude::*;

use fastrace::collector::SpanContext;
use fastrace::collector::SpanId;
use fastrace::collector::TraceId;

verus! {

/// A trace context: the trace it belongs to, the span that is its parent,
/// and whether the trace is sampled.
#[derive(Clone, Copy, Debug, PartialEq, Eq, Structural)]
pub struct TraceContext {
    pub trace_id: u128,
    pub span_id: u64,
    pub sampled: bool,
}

impl TraceContext {
    /// A context that a `traceparent` header can carry: the W3C format keeps
    /// the all-zero trace id and parent id for "invalid".
    pub open spec fn is_valid(self) -> bool {
        self.trace_id != 0 && self.span_id != 0
    }
}

/// The lowercase hexadecimal digit for `d`, which is below 16.
pub open spec fn hex_char(d: nat) -> char {
    seq!['0', '1', '2', '3', '4', '5', '6', '7', '8', '9', 'a', 'b', 'c', 'd', 'e', 'f'][d as int]
}

pub open spec fn is_hex_char(c: char) -> bool {
    ('0' <= c && c <= '9') || ('a' <= c && c <= 'f')
}

pub open spec fn hex_value(c: char) -> nat {
    if '0' <= c && c <= '9' {
        (c as u32 - '0' as u32) as nat
    } else {
        (c as u32 - 'a' as u32 + 10) as nat
    }
}

/// The number that a string of hexadecimal digits denotes, most significant first.
pub open spec fn hex_number(s: Seq<char>) -> nat
    decreases s.len(),
{
    if s.len() == 0 {
        0
    } else {
        hex_number(s.drop_last()) * 16 + hex_value(s.last())
    }
}

/// `n` written with exactly `width` lowercase hexadecimal digits, zero padded
/// (only the low `width` digits are kept).
pub open spec fn hex_text(n: nat, width: nat) -> Seq<char>
    decreases width,
{
    if width == 0 {
        seq![]
    } else {
        hex_text(n / 16, (width - 1) as nat).push(hex_char(n % 16))
    }
}

pub open spec fn pow16(w: nat) -> nat
    decreases w,
{
    if w == 0 {
        1
    } else {
        16 * pow16((w - 1) as nat)
    }
}

/// The `traceparent` value of a context:
/// `00-{32 hex trace id}-{16 hex parent id}-{2 hex flags}`, where the flags
/// carry the sampled bit.
pub open spec fn traceparent_text(c: TraceContext) -> Seq<char> {
    seq!['0', '0', '-'] + hex_text(c.trace_id as nat, 32) + seq!['-'] + hex_text(
        c.span_id as nat,
        16,
    ) + seq!['-'] + hex_text(if c.sampled { 1 } else { 0 }, 2)
}

/// The strict shape of a `traceparent` value: version `00`, then three
/// hyphen-separated fields of 32, 16 and 2 lowercase hexadecimal digits.
pub open spec fn traceparent_format(s: Seq<char>) -> bool {
    &&& s.len() == 55
    &&& s[0] == '0'
    &&& s[1] == '0'
    &&& s[2] == '-'
    &&& s[35] == '-'
    &&& s[52] == '-'
    &&& forall|i: int|
        (3 <= i < 35 || 36 <= i < 52 || 53 <= i < 55) ==> #[trigger] is_hex_char(s[i])
}

/// The context that a `traceparent` value denotes: none where the value is
/// not in the strict shape or carries an all-zero trace id or parent id.
pub open spec fn traceparent_decoded(s: Seq<char>) -> Option<TraceContext> {
    if traceparent_format(s) {
        let t = hex_number(s.subrange(3, 35));
        let p = hex_number(s.subrange(36, 52));
        let f = hex_number(s.subrange(53, 55));
        if t == 0 || p == 0 {
            None
        } else {
            Some(TraceContext { trace_id: t as u128, span_id: p as u64, sampled: f % 2 == 1 })
        }
    } else {
        None
    }
}

/// Relies on fastrace's `SpanContext::encode_w3c_traceparent`, which formats
/// `00-{:032x}-{:016x}-{:02x}` over the trace id, the span id and the sampled flag.
#[verifier::external_body]
fn w3c_encode(c: &TraceContext) -> (r: String)
    ensures
        r@ == traceparent_text(*c),
{
    SpanContext::new(TraceId(c.trace_id), SpanId(c.span_id)).sampled(c.sampled).encode_w3c_traceparent()
}

/// Relies on fastrace's `SpanContext::decode_w3c_traceparent`: on a value in the
/// strict shape it parses the three hexadecimal fields, rejects a zero trace id
/// or span id, and takes the sampled flag from the low bit of the flags.
#[verifier::external_body]
fn w3c_decode(s: &str) -> (r: Option<TraceContext>)
    ensures
        traceparent_format(s@) ==> r == traceparent_decoded(s@),
{
    match SpanContext::decode_w3c_traceparent(s) {
        Some(c) => Some(TraceContext { trace_id: c.trace_id.0, span_id: c.span_id.0, sampled: c.sampled }),
        None => None,
    }
}

/// The `traceparent` header value of `c`.
pub fn encode_traceparent(c: &TraceContext) -> (r: String)
    ensures
        r@ == traceparent_text(*c),
{
    w3c_encode(c)
}


fn is_hex_byte(b: u8) -> (r: bool)
    ensures
        r == ((48 <= b && b <= 57) || (97 <= b && b <= 102)),
{
    (48 <= b && b <= 57) || (97 <= b && b <= 102)
}

/// Whether `s` has the strict shape of a `traceparent` value.
pub fn is_traceparent_format(s: &str) -> (r: bool)
    ensures
        r == traceparent_format(s@),
{
    if !s.is_ascii() {
        proof {
            if traceparent_format(s@) {
                assert forall|i| 0 <= i < s@.len() implies '\0' <= #[trigger] s@[i] <= '\u{7f}' by {
                    if (3 <= i < 35 || 36 <= i < 52 || 53 <= i < 55) {
                        assert(is_hex_char(s@[i]));
                    }
                }
            }
        }
        return false;
    }
    let b = s.as_bytes();
    proof {
        vstd::string::is_ascii_spec_bytes(s);
        assert(b@ =~= Seq::new(s@.len(), |i| s@[i] as u8));
    }
    if b.len() != 55 {
        return false;
    }
    if !(b[0] == 48 && b[1] == 48 && b[2] == 45 && b[35] == 45 && b[52] == 45) {
        return false;
    }
    let mut i: usize = 3;
    while i < 55
        invariant
            3 <= i <= 55,
            b@.len() == 55,
            s@.len() == 55,
            forall|j: int| 0 <= j < 55 ==> #[trigger] b@[j] == s@[j] as u8,
            forall|j: int| 0 <= j < 55 ==> '\0' <= #[trigger] s@[j] <= '\u{7f}',
            forall|j: int|
                (3 <= j < i && j != 35 && j != 52) ==> #[trigger] is_hex_char(s@[j]),
        decreases 55 - i,
    {
        if i != 35 && i != 52 && !is_hex_byte(b[i]) {
            assert(!is_hex_char(s@[i as int]));
            return false;
        }
        i = i + 1;
    }
    true
}

/// The context that a `traceparent` header value carries, if it has the strict
/// shape and names a non-zero trace id and parent id.
pub fn decode_traceparent(s: &str) -> (r: Option<TraceContext>)
    ensures
        r == traceparent_decoded(s@),
{
    if is_traceparent_format(s) {
        w3c_decode(s)
    } else {
        None
    }
}


proof fn lemma_hex_char(d: nat)
    requires
        d < 16,
    ensures
        is_hex_char(hex_char(d)),
        hex_value(hex_char(d)) == d,
{
}

proof fn lemma_hex_text(n: nat, w: nat)
    ensures
        hex_text(n, w).len() == w,
        forall|i: int| 0 <= i < w ==> #[trigger] is_hex_char(hex_text(n, w)[i]),
        n < pow16(w) ==> hex_number(hex_text(n, w)) == n,
    decreases w,
{
    if w > 0 {
        let w1 = (w - 1) as nat;
        lemma_hex_text(n / 16, w1);
        lemma_hex_char(n % 16);
        let t = hex_text(n, w);
        assert(t.drop_last() =~= hex_text(n / 16, w1));
        if n < pow16(w) {
            assert(n / 16 < pow16(w1)) by (nonlinear_arith)
                requires
                    n < 16 * pow16(w1),
            ;
            assert(n == (n / 16) * 16 + n % 16) by (nonlinear_arith);
        }
    }
}

proof fn lemma_pow16_widths()
    ensures
        pow16(2) == 0x100,
        pow16(16) == 0x1_0000_0000_0000_0000,
        pow16(32) == 0x1_0000_0000_0000_0000_0000_0000_0000_0000,
{
    reveal_with_fuel(pow16, 33);
}

/// Every encoded value has the strict `traceparent` shape, whatever the
/// context holds.
pub proof fn lemma_traceparent_shape(c: TraceContext)
    ensures
        traceparent_format(traceparent_text(c)),
{
    let f: nat = if c.sampled { 1 } else { 0 };
    lemma_hex_text(c.trace_id as nat, 32);
    lemma_hex_text(c.span_id as nat, 16);
    lemma_hex_text(f, 2);
    let s = traceparent_text(c);
    assert forall|i: int| (3 <= i < 35 || 36 <= i < 52 || 53 <= i < 55) implies #[trigger] is_hex_char(s[i]) by {
        if 3 <= i < 35 {
            assert(s[i] == hex_text(c.trace_id as nat, 32)[i - 3]);
        } else if 36 <= i < 52 {
            assert(s[i] == hex_text(c.span_id as nat, 16)[i - 36]);
        } else {
            assert(s[i] == hex_text(f, 2)[i - 53]);
        }
    }
}

/// Encoding a valid context and decoding the result gives the context back.
pub proof fn lemma_round_trip(c: TraceContext)
    requires
        c.is_valid(),
    ensures
        traceparent_decoded(traceparent_text(c)) == Some(c),
{
    let f: nat = if c.sampled { 1 } else { 0 };
    lemma_pow16_widths();
    lemma_hex_text(c.trace_id as nat, 32);
    lemma_hex_text(c.span_id as nat, 16);
    lemma_hex_text(f, 2);
    lemma_traceparent_shape(c);
    let s = traceparent_text(c);
    assert(s.subrange(3, 35) =~= hex_text(c.trace_id as nat, 32));
    assert(s.subrange(36, 52) =~= hex_text(c.span_id as nat, 16));
    assert(s.subrange(53, 55) =~= hex_text(f, 2));
}

/// A value that is not in the strict `traceparent` shape decodes to nothing.
pub proof fn lemma_malformed_rejected(s: Seq<char>)
    requires
        !traceparent_format(s),
    ensures
        traceparent_decoded(s).is_none(),
{
}

} // verus!
