//! HTTP header sets, modelled as a map from lowercase header name to the
//! bytes of its value.

use reqwest::header::{HeaderMap, HeaderValue, InvalidHeaderValue};
use vstd::prelude::*;
use vstd::utf8::encode_utf8;

verus! {

#[verifier::external_type_specification]
#[verifier::external_body]
#[verifier::reject_recursive_types(T)]
pub struct ExHeaderMap<T>(HeaderMap<T>);

#[verifier::external_type_specification]
#[verifier::external_body]
pub struct ExHeaderValue(HeaderValue);

#[verifier::external_type_specification]
#[verifier::external_body]
pub struct ExInvalidHeaderValue(InvalidHeaderValue);

/// The entries of a header map: lowercase name to value bytes.
pub uninterp spec fn header_entries(h: HeaderMap) -> Map<Seq<char>, Seq<u8>>;

/// The bytes that a header value holds.
pub uninterp spec fn header_value_bytes(v: HeaderValue) -> Seq<u8>;

/// The entries of a map that holds no header.
pub open spec fn no_headers() -> Map<Seq<char>, Seq<u8>> {
    Map::empty()
}

/// A character whose UTF-8 bytes may all stand in a header value: a tab,
/// or anything at or above a space but DEL.
pub open spec fn is_value_char(c: char) -> bool {
    c == '\t' || (c as u32 >= 32 && c as u32 != 127)
}

/// Text that a header value can be made from.
pub open spec fn is_value_text(s: Seq<char>) -> bool {
    forall|i: int| 0 <= i < s.len() ==> is_value_char(#[trigger] s[i])
}

/// Whether `s` can be sent as a header value.
pub fn is_valid_header_value(s: &str) -> (r: bool)
    ensures
        r == is_value_text(s@),
{
    let n = s.unicode_len();
    let mut i: usize = 0;
    while i < n
        invariant
            n == s@.len(),
            i <= n,
            forall|j: int| 0 <= j < i ==> is_value_char(#[trigger] s@[j]),
        decreases n - i,
    {
        let c = s.get_char(i);
        if !(c == '\t' || (c as u32 >= 32 && c as u32 != 127)) {
            assert(!is_value_char(s@[i as int]));
            return false;
        }
        i = i + 1;
    }
    true
}

/// A character that may stand in the header names this library uses.
pub open spec fn is_name_char(c: char) -> bool {
    ('a' <= c && c <= 'z') || ('A' <= c && c <= 'Z') || ('0' <= c && c <= '9') || c == '-'
}

/// A header name of 1 to 64 letters, digits and dashes.
pub open spec fn is_header_name(s: Seq<char>) -> bool {
    &&& 0 < s.len() <= 64
    &&& forall|i: int| 0 <= i < s.len() ==> is_name_char(#[trigger] s[i])
}

pub open spec fn lower_char(c: char) -> char {
    if 'A' <= c && c <= 'Z' {
        ((c as u32) + 32) as char
    } else {
        c
    }
}

/// The form under which a header map keeps a name: ASCII letters lowercased.
pub open spec fn lower_name(s: Seq<char>) -> Seq<char> {
    s.map_values(|c: char| lower_char(c))
}

/// Relies on HeaderMap::with_capacity: an empty map; it panics only above
/// the map's maximum size, far beyond the bound required here.
#[verifier::external_body]
pub(crate) fn headers_with_capacity(capacity: usize) -> (r: HeaderMap)
    requires
        capacity <= 1024,
    ensures
        header_entries(r) == no_headers(),
{
    HeaderMap::with_capacity(capacity)
}

/// Relies on HeaderValue::from_str: it accepts exactly the text whose bytes
/// are all tabs or at least 32 and not 127, and keeps those bytes.
#[verifier::external_body]
pub(crate) fn header_value(s: &str) -> (r: Result<HeaderValue, InvalidHeaderValue>)
    ensures
        r is Ok <==> is_value_text(s@),
        r matches Ok(v) ==> header_value_bytes(v) == encode_utf8(s@),
{
    HeaderValue::from_str(s)
}

/// Relies on HeaderMap::insert with a static name: the name is lowercased
/// and the value replaces whatever the name held; it panics only on an
/// invalid or overlong name (more than 65535 bytes) or above the map's
/// maximum size.
#[verifier::external_body]
pub(crate) fn insert_header(h: &mut HeaderMap, name: &'static str, value: HeaderValue)
    requires
        is_header_name(name@),
        header_entries(*old(h)).dom().finite(),
        header_entries(*old(h)).dom().len() < 1024,
    ensures
        header_entries(*final(h)) == header_entries(*old(h)).insert(
            lower_name(name@),
            header_value_bytes(value),
        ),
{
    h.insert(name, value);
}

/// Relies on HeaderMap's Clone: the copy holds the same entries.
#[verifier::external_body]
pub(crate) fn clone_headers(h: &HeaderMap) -> (r: HeaderMap)
    ensures
        header_entries(r) == header_entries(*h),
{
    h.clone()
}

} // verus!
