//! Request headers, as the language banner reads them.
//!
//! The header map and its values are `rama`'s (the `http` crate's) types.
//! The library sees a map through what it holds: for every header name, in
//! the lower case the map stores names in, the values added under it, in
//! order; and a value through its bytes.

use rama::http::{HeaderMap, HeaderValue};
use vstd::prelude::*;

verus! {

#[verifier::external_type_specification]
#[verifier::external_body]
#[verifier::reject_recursive_types(T)]
pub struct ExHeaderMap<T>(HeaderMap<T>);

#[verifier::external_type_specification]
#[verifier::external_body]
pub struct ExHeaderValue(HeaderValue);

/// What a header map holds: for each header name (lower case) the values
/// stored under it, in the order they were added.
pub uninterp spec fn header_entries(headers: HeaderMap) -> Map<Seq<char>, Seq<Seq<u8>>>;

/// The bytes of a header value.
pub uninterp spec fn header_value_bytes(value: HeaderValue) -> Seq<u8>;

/// A header name as the map stores it: lower-case letters and dashes.
pub open spec fn is_lower_header_name(name: Seq<char>) -> bool {
    &&& name.len() > 0
    &&& forall|i: int| 0 <= i < name.len() ==> (('a' <= #[trigger] name[i] && name[i] <= 'z') || name[i] == '-')
}

/// Bytes that `HeaderValue::to_str` accepts: visible ASCII and tab.
pub open spec fn is_visible_ascii(b: u8) -> bool {
    (32 <= b && b < 127) || b == 9
}

/// ASCII bytes read as chars.
pub open spec fn ascii_text(bytes: Seq<u8>) -> Seq<char> {
    bytes.map_values(|b: u8| b as char)
}

/// The text of the first value stored under `name`, when there is one and
/// it is visible ASCII.
pub open spec fn header_text(headers: HeaderMap, name: Seq<char>) -> Option<Seq<char>> {
    if header_entries(headers).contains_key(name) {
        let bytes = header_entries(headers)[name][0];
        if forall|i: int| 0 <= i < bytes.len() ==> is_visible_ascii(#[trigger] bytes[i]) {
            Some(ascii_text(bytes))
        } else {
            None
        }
    } else {
        None
    }
}

/// `HeaderMap::get` with a lower-case name. The contract claims what the
/// `http` crate's source and documentation show: the map finds a header
/// by its name, and `get` returns the first value stored under it, or
/// nothing when the name is absent.
#[verifier::external_body]
fn header_get<'a>(headers: &'a HeaderMap, name: &str) -> (r: Option<&'a HeaderValue>)
    requires
        is_lower_header_name(name@),
    ensures
        r is Some <==> header_entries(*headers).contains_key(name@),
        r matches Some(v) ==> header_value_bytes(*v) == header_entries(*headers)[name@][0],
{
    headers.get(name)
}

/// `HeaderValue::to_str`. The contract claims what its source shows: it
/// succeeds exactly when every byte is visible ASCII or a tab, and then
/// yields those bytes as text.
#[verifier::external_body]
fn header_value_str(value: &HeaderValue) -> (r: Option<&str>)
    ensures
        r is Some <==> (forall|i: int|
            0 <= i < header_value_bytes(*value).len() ==> is_visible_ascii(
                #[trigger] header_value_bytes(*value)[i],
            )),
        r matches Some(s) ==> s@ == ascii_text(header_value_bytes(*value)),
{
    value.to_str().ok()
}

/// The text of the first value of header `name`, as `headers.get(name)`
/// followed by `to_str().ok()` gives it.
pub fn header_str<'a>(headers: &'a HeaderMap, name: &str) -> (r: Option<&'a str>)
    requires
        is_lower_header_name(name@),
    ensures
        match r {
            Some(s) => header_text(*headers, name@) == Some(s@),
            None => header_text(*headers, name@) is None,
        },
{
    match header_get(headers, name) {
        Some(v) => header_value_str(v),
        None => None,
    }
}

} // verus!
