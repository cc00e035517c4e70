//! The boundary to the HTTP header types of the `reqwest` crate.
//!
//! A header map, a header name and a header value are opaque to the verifier.
//! This module declares them, names what each one holds, and wraps the few
//! operations the client needs. Nothing here is proved: every contract in this
//! file is a statement about code of the `http` crate, which `reqwest`
//! re-exports, and the proofs of the other modules rest on them.

use reqwest::header::{HeaderMap, HeaderName, HeaderValue};
use vstd::prelude::*;
use vstd::utf8::*;

verus! {

/// The header multimap of the `http` crate, `reqwest::header::HeaderMap`.
#[verifier::external_type_specification]
#[verifier::external_body]
#[verifier::reject_recursive_types(T)]
pub struct ExHeaderMap<T>(HeaderMap<T>);

/// A header name of the `http` crate, `reqwest::header::HeaderName`.
#[verifier::external_type_specification]
#[verifier::external_body]
pub struct ExHeaderName(HeaderName);

/// A header value of the `http` crate, `reqwest::header::HeaderValue`.
#[verifier::external_type_specification]
#[verifier::external_body]
pub struct ExHeaderValue(HeaderValue);

/// What a header map holds: each name that is present, in lower case, with
/// the values stored under it, in the order in which they were added.
pub uninterp spec fn header_entries(map: HeaderMap) -> Map<Seq<char>, Seq<Seq<u8>>>;

/// The text of a header name, as `HeaderName::as_str` gives it.
pub uninterp spec fn header_name_text(name: HeaderName) -> Seq<char>;

/// The bytes of a header value, as `HeaderValue::as_bytes` gives them.
pub uninterp spec fn header_value_bytes(value: HeaderValue) -> Seq<u8>;

/// The entries of a header map that holds nothing.
pub open spec fn no_entries() -> Map<Seq<char>, Seq<Seq<u8>>> {
    Map::empty()
}

/// The values stored under a name, none if the name is absent.
pub open spec fn values_under(entries: Map<Seq<char>, Seq<Seq<u8>>>, name: Seq<char>) -> Seq<
    Seq<u8>,
> {
    if entries.contains_key(name) {
        entries[name]
    } else {
        Seq::empty()
    }
}

/// The number of distinct names below which adding to a header map is
/// known not to fail.
///
/// The map refuses to grow its table past 32768 slots. The table doubles
/// when the names fill three quarters of it or, after many hash collisions,
/// a fifth of it, so below 1024 names it never grows past 8192 slots.
pub const HEADER_NAME_LIMIT: usize = 1024;

/// Whether a header map holds few enough names for another one to be added.
pub open spec fn has_room(map: HeaderMap) -> bool {
    &&& header_entries(map).dom().finite()
    &&& header_entries(map).dom().len() < HEADER_NAME_LIMIT
}

/// Characters out of which a name for `static_header_name` may be made:
/// lower-case letters, digits, `-` and `_`.
pub open spec fn is_name_char(c: char) -> bool {
    ('a' <= c && c <= 'z') || ('0' <= c && c <= '9') || c == '-' || c == '_'
}

/// A non-empty text of name characters, at most 65535 of them.
pub open spec fn is_static_header_name(text: Seq<char>) -> bool {
    &&& 0 < text.len() <= 65535
    &&& forall|i: int| 0 <= i < text.len() ==> is_name_char(#[trigger] text[i])
}

/// The bytes a header value may hold: everything from the space upwards but
/// DEL, and the horizontal tab.
pub open spec fn is_value_byte(b: u8) -> bool {
    (b >= 32 && b != 127) || b == 9
}

/// Whether a text can be made into a header value: every byte of its UTF-8
/// encoding is a value byte.
pub open spec fn is_header_value(text: Seq<char>) -> bool {
    forall|i: int|
        0 <= i < encode_utf8(text).len() ==> is_value_byte(#[trigger] encode_utf8(text)[i])
}

/// Calls `HeaderMap::new`, which makes a map that holds nothing.
#[verifier::external_body]
pub(crate) fn new_header_map() -> (headers: HeaderMap)
    ensures
        header_entries(headers) == no_entries(),
{
    HeaderMap::new()
}

/// Calls `HeaderName::from_static`.
///
/// That function panics on an empty text, on one longer than 65535 bytes and
/// on any byte outside its table of name characters. The table holds the
/// lower-case letters, the digits, `-` and `_` among others, so every text
/// admitted here is accepted. The name that comes back reads as the text it
/// was made from.
#[verifier::external_body]
pub(crate) fn static_header_name(text: &'static str) -> (name: HeaderName)
    requires
        is_static_header_name(text@),
    ensures
        header_name_text(name) == text@,
{
    HeaderName::from_static(text)
}

/// Calls `HeaderValue::from_str`.
///
/// That function scans the bytes of the text and fails if and only if one of
/// them is below 32 and not the tab, or is 127. On success the value holds
/// a copy of exactly these bytes.
#[verifier::external_body]
pub(crate) fn header_value(text: &str) -> (value: Option<HeaderValue>)
    ensures
        value is Some <==> is_header_value(text@),
        value matches Some(v) ==> header_value_bytes(v) == encode_utf8(text@),
{
    HeaderValue::from_str(text).ok()
}

/// Calls `HeaderMap::insert`.
///
/// The value becomes the only one stored under the name: values that were
/// there before are removed, and other names are untouched. The call panics
/// only when the map cannot grow, which `has_room` rules out.
#[verifier::external_body]
pub(crate) fn insert_header(map: &mut HeaderMap, name: HeaderName, value: HeaderValue)
    requires
        has_room(*old(map)),
    ensures
        header_entries(*final(map)) == header_entries(*old(map)).insert(
            header_name_text(name),
            seq![header_value_bytes(value)],
        ),
{
    map.insert(name, value);
}

/// Calls `HeaderMap::append`.
///
/// The value is added behind the values already stored under the name, or
/// becomes the first one if the name was absent; other names are untouched.
/// The call panics only when the map cannot grow, which `has_room` rules out.
#[verifier::external_body]
pub(crate) fn append_header(map: &mut HeaderMap, name: HeaderName, value: HeaderValue)
    requires
        has_room(*old(map)),
    ensures
        header_entries(*final(map)) == header_entries(*old(map)).insert(
            header_name_text(name),
            values_under(header_entries(*old(map)), header_name_text(name)).push(
                header_value_bytes(value),
            ),
        ),
{
    map.append(name, value);
}

} // verus!
