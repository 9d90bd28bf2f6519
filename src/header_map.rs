//! The header collection of the `http` crate, as seen by the verified code.
//!
//! A `HeaderMap` is a multimap: each header name holds one or more values in
//! the order they were added. Its contents are modelled as a map from the
//! (lower-case) name to the sequence of value bytes held under it.
use vstd::prelude::*;

verus! {

#[verifier::external_type_specification]
#[verifier::external_body]
#[verifier::reject_recursive_types(T)]
pub struct ExHeaderMap<T>(http::HeaderMap<T>);

#[verifier::external_type_specification]
#[verifier::external_body]
pub struct ExHeaderValue(http::header::HeaderValue);

/// What a header map holds: each name, as its lower-case text, mapped to the
/// values stored under it, in order, as bytes.
pub uninterp spec fn header_entries(m: http::HeaderMap) -> Map<Seq<char>, Seq<Seq<u8>>>;

/// A character that may stand in a header name given as static text: the
/// lower-case token characters accepted by `HeaderName::from_static`.
pub open spec fn is_header_name_char(c: char) -> bool {
    ('a' <= c && c <= 'z') || ('0' <= c && c <= '9') || c == '!' || c == '"' || c == '#'
        || c == '$' || c == '%' || c == '&' || c == '\'' || c == '*' || c == '+' || c == '-'
        || c == '.' || c == '^' || c == '_' || c == '`' || c == '|' || c == '~'
}

/// Text that `HeaderName::from_static` accepts without panicking.
pub open spec fn is_header_name(s: Seq<char>) -> bool {
    &&& 0 < s.len() <= 65535
    &&& forall|i: int| 0 <= i < s.len() ==> is_header_name_char(#[trigger] s[i])
}

/// A visible ASCII character or a horizontal tab.
pub open spec fn is_visible_ascii(c: char) -> bool {
    (' ' <= c && c <= '~') || c == '\t'
}

/// Text that `HeaderValue::from_static` accepts without panicking.
pub open spec fn is_header_value(s: Seq<char>) -> bool {
    forall|i: int| 0 <= i < s.len() ==> is_visible_ascii(#[trigger] s[i])
}

/// The bytes of an ASCII text.
pub open spec fn ascii_bytes(s: Seq<char>) -> Seq<u8> {
    s.map_values(|c: char| c as u8)
}

/// How many names a map may hold before an insertion: well below the point
/// where `HeaderMap` would have to grow its index table past its maximum size
/// (a rebuild may double that table once the names fill a fifth of it).
pub const MAX_NAMES: usize = 3000;

/// Relies on `HeaderMap::new`: a new map holds no header.
#[verifier::external_body]
pub(crate) fn new_header_map() -> (r: http::HeaderMap)
    ensures
        header_entries(r) =~= Map::empty(),
{
    http::HeaderMap::new()
}

/// Relies on `HeaderMap::insert`, with `HeaderName::from_static` and
/// `HeaderValue::from_static` to build its arguments: the name then holds the
/// one given value, every earlier value under it is removed, and other names
/// are untouched.
#[verifier::external_body]
pub(crate) fn insert_static(h: &mut http::HeaderMap, name: &'static str, value: &'static str)
    requires
        is_header_name(name@),
        is_header_value(value@),
        header_entries(*old(h)).dom().finite(),
        header_entries(*old(h)).dom().len() < MAX_NAMES,
    ensures
        header_entries(*final(h)) == header_entries(*old(h)).insert(
            name@,
            seq![ascii_bytes(value@)],
        ),
{
    h.insert(http::header::HeaderName::from_static(name), http::header::HeaderValue::from_static(value));
}

} // verus!
