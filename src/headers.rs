use vstd::prelude::*;
use vstd::string::StringSliceAdditionalSpecFns;

use http::HeaderMap;
use http::HeaderValue;

verus! {

#[verifier::external_type_specification]
#[verifier::external_body]
#[verifier::reject_recursive_types(T)]
pub struct ExHeaderMap<T>(http::HeaderMap<T>);

#[verifier::external_type_specification]
#[verifier::external_body]
pub struct ExHeaderValue(http::HeaderValue);

/// The headers of a map: each lowercase header name present, with its values
/// in order (the first one is what a lookup returns).
pub uninterp spec fn header_entries(h: http::HeaderMap) -> Map<Seq<char>, Seq<Seq<u8>>>;

/// The bytes of a header value.
pub uninterp spec fn header_value_bytes(v: http::HeaderValue) -> Seq<u8>;

/// A map with fewer keys than this can always take one more insert without
/// reaching its size limit.
pub const HEADER_KEYS_LIMIT: usize = 6553;

/// A character that a header value may hold: any but the control characters,
/// tab excepted.
pub open spec fn header_value_char(c: char) -> bool {
    c == '\t' || (c as u32 >= 32 && c as u32 != 127)
}

/// A byte that `HeaderValue::to_str` accepts: visible ASCII or tab.
pub open spec fn visible_ascii_byte(b: u8) -> bool {
    (32 <= b && b < 127) || b == 9
}

/// A name that `HeaderMap` keys under itself: non-empty, lowercase letters and
/// hyphens.
pub open spec fn lowercase_header_name(s: Seq<char>) -> bool {
    &&& 0 < s.len() <= 64
    &&& forall|i: int| 0 <= i < s.len() ==> ('a' <= #[trigger] s[i] && s[i] <= 'z') || s[i] == '-'
}

pub open spec fn all_visible_ascii(b: Seq<u8>) -> bool {
    forall|i: int| 0 <= i < b.len() ==> #[trigger] visible_ascii_byte(b[i])
}

/// The first value stored under `name`, if any.
pub open spec fn first_header_value(entries: Map<Seq<char>, Seq<Seq<u8>>>, name: Seq<char>) -> Option<Seq<u8>> {
    if entries.contains_key(name) && entries[name].len() > 0 {
        Some(entries[name][0])
    } else {
        None
    }
}

pub open spec fn bytes_as_chars(b: Seq<u8>) -> Seq<char> {
    b.map_values(|x: u8| x as char)
}

/// Relies on http's `HeaderValue::from_str`: it fails exactly when a byte of
/// `s` is a control byte other than tab, and otherwise keeps the bytes of `s`.
#[verifier::external_body]
pub(crate) fn header_value_from_str(s: &str) -> (r: Option<HeaderValue>)
    ensures
        r is Some <==> forall|i: int| 0 <= i < s@.len() ==> #[trigger] header_value_char(s@[i]),
        r is Some ==> header_value_bytes(r->0) == s.spec_bytes(),
{
    HeaderValue::from_str(s).ok()
}

/// Relies on http's `HeaderValue::to_str`: it succeeds exactly when every byte
/// is visible ASCII or tab, and then reads each byte as one character.
#[verifier::external_body]
pub(crate) fn header_value_to_str(v: &HeaderValue) -> (r: Option<&str>)
    ensures
        r is Some <==> all_visible_ascii(header_value_bytes(*v)),
        r is Some ==> r->0@ == bytes_as_chars(header_value_bytes(*v)),
{
    v.to_str().ok()
}

/// Relies on http's `HeaderMap::get`: a lowercase name finds the first value
/// stored under it, which is handed back as a copy.
#[verifier::external_body]
pub(crate) fn header_get(h: &HeaderMap, name: &str) -> (r: Option<HeaderValue>)
    requires
        lowercase_header_name(name@),
    ensures
        r is Some <==> first_header_value(header_entries(*h), name@) is Some,
        r is Some ==> first_header_value(header_entries(*h), name@) == Some(header_value_bytes(r->0)),
{
    h.get(name).cloned()
}

/// Relies on http's `HeaderMap::try_insert`: on success every value under
/// `name` is replaced by `v`; on failure (the map would outgrow its size limit)
/// the contents are left as they were, which a map with fewer keys than
/// `HEADER_KEYS_LIMIT` cannot reach. A lowercase name parses without panic.
#[verifier::external_body]
pub(crate) fn header_try_insert(h: &mut HeaderMap, name: &'static str, v: HeaderValue) -> (r: bool)
    requires
        lowercase_header_name(name@),
    ensures
        r ==> header_entries(*final(h)) == header_entries(*old(h)).insert(name@, seq![header_value_bytes(v)]),
        !r ==> header_entries(*final(h)) == header_entries(*old(h)),
        header_entries(*old(h)).dom().len() < HEADER_KEYS_LIMIT ==> r,
{
    h.try_insert(name, v).is_ok()
}

} // verus!
