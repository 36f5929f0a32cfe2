//! The header types of `reqwest::header` and what is assumed of them.
//!
//! A header map is modelled by the values stored under each name, in the
//! order in which they were appended. Names are modelled by their text and
//! values by their bytes. Nothing in this file is proved: each contract
//! restates what the function it names does.

use reqwest::header::{HeaderMap, HeaderName, HeaderValue};
use vstd::prelude::*;
use vstd::utf8::encode_utf8;

verus! {

/// What a header map holds: under each name, its values in append order.
pub type HeaderContents = Map<Seq<char>, Seq<Seq<u8>>>;

/// `reqwest::header::HeaderMap`, known by what it holds.
#[verifier::external_type_specification]
#[verifier::external_body]
#[verifier::reject_recursive_types(T)]
pub struct ExHeaderMap<T>(reqwest::header::HeaderMap<T>);

/// `reqwest::header::HeaderName`, known by its text.
#[verifier::external_type_specification]
#[verifier::external_body]
pub struct ExHeaderName(reqwest::header::HeaderName);

/// `reqwest::header::HeaderValue`, known by its bytes.
#[verifier::external_type_specification]
#[verifier::external_body]
pub struct ExHeaderValue(reqwest::header::HeaderValue);

/// `reqwest::header::InvalidHeaderName`, carried as it is.
#[verifier::external_type_specification]
#[verifier::external_body]
pub struct ExInvalidHeaderName(reqwest::header::InvalidHeaderName);

/// `reqwest::header::InvalidHeaderValue`, carried as it is.
#[verifier::external_type_specification]
#[verifier::external_body]
pub struct ExInvalidHeaderValue(reqwest::header::InvalidHeaderValue);

/// The values a header map holds under each name.
pub uninterp spec fn header_map_contents(map: HeaderMap) -> HeaderContents;

/// The text of a header name.
pub uninterp spec fn header_name_text(name: HeaderName) -> Seq<char>;

/// The bytes of a header value.
pub uninterp spec fn header_value_bytes(value: HeaderValue) -> Seq<u8>;

/// A byte that a header value made from a string may hold: anything from
/// the space upward except DEL, or a tab.
pub open spec fn value_byte_allowed(b: u8) -> bool {
    (b >= 32 && b != 127) || b == 9
}

/// Every byte may stand in a header value.
pub open spec fn value_bytes_allowed(bytes: Seq<u8>) -> bool {
    forall|i: int| 0 <= i < bytes.len() ==> value_byte_allowed(#[trigger] bytes[i])
}

/// A byte of visible ASCII, or a tab.
pub open spec fn visible_byte(b: u8) -> bool {
    (b >= 32 && b < 127) || b == 9
}

/// Every byte is visible ASCII or a tab.
pub open spec fn visible_bytes(bytes: Seq<u8>) -> bool {
    forall|i: int| 0 <= i < bytes.len() ==> visible_byte(#[trigger] bytes[i])
}

/// A lower-case letter, a digit or a hyphen.
pub open spec fn plain_name_byte(b: u8) -> bool {
    (97 <= b && b <= 122) || (48 <= b && b <= 57) || b == 45
}

/// A non-empty name of lower-case letters, digits and hyphens that fits
/// the length limit of a header name.
pub open spec fn plain_name(bytes: Seq<u8>) -> bool {
    &&& 0 < bytes.len() <= 65535
    &&& forall|i: int| 0 <= i < bytes.len() ==> plain_name_byte(#[trigger] bytes[i])
}

/// The contents after one more value has been appended under a name.
pub open spec fn appended(
    contents: HeaderContents,
    name: Seq<char>,
    value: Seq<u8>,
) -> HeaderContents {
    if contents.contains_key(name) {
        contents.insert(name, contents[name].push(value))
    } else {
        contents.insert(name, seq![value])
    }
}

/// `HeaderMap::new` returns a map without entries.
pub assume_specification[ HeaderMap::new ]() -> (headers: HeaderMap)
    ensures
        header_map_contents(headers) == HeaderContents::empty(),
;

/// `HeaderName::from_static` keeps the text it is given. It panics on an
/// empty or overlong name and on a byte outside its table of name
/// characters; lower-case letters, digits and hyphens are all in that
/// table.
pub assume_specification[ reqwest::header::HeaderName::from_static ](
    src: &'static str,
) -> (name: reqwest::header::HeaderName)
    requires
        plain_name(encode_utf8(src@)),
    ensures
        header_name_text(name) == src@,
;

/// `HeaderValue::from_static` keeps the bytes of the text it is given. It
/// panics on a byte that is neither visible ASCII nor a tab.
pub assume_specification[ reqwest::header::HeaderValue::from_static ](
    src: &'static str,
) -> (value: reqwest::header::HeaderValue)
    requires
        visible_bytes(encode_utf8(src@)),
    ensures
        header_value_bytes(value) == encode_utf8(src@),
;

/// `HeaderValue::from_str` fails exactly when the text holds a byte below
/// the space other than a tab, or DEL; otherwise the value keeps the bytes
/// of the text.
pub assume_specification[ reqwest::header::HeaderValue::from_str ](src: &str) -> (r: Result<
    reqwest::header::HeaderValue,
    reqwest::header::InvalidHeaderValue,
>)
    ensures
        r is Ok <==> value_bytes_allowed(encode_utf8(src@)),
        r matches Ok(value) ==> header_value_bytes(value) == encode_utf8(src@),
;

/// The constant `reqwest::header::USER_AGENT`, whose text is `user-agent`.
#[verifier::external_body]
pub(crate) fn user_agent_name() -> (name: HeaderName)
    ensures
        header_name_text(name) == "user-agent"@,
{
    reqwest::header::USER_AGENT
}

/// The constant `reqwest::header::COOKIE`, whose text is `cookie`.
#[verifier::external_body]
pub(crate) fn cookie_name() -> (name: HeaderName)
    ensures
        header_name_text(name) == "cookie"@,
{
    reqwest::header::COOKIE
}

/// `HeaderMap::append` adds the value behind the values already stored
/// under the name and reports whether the name was present. It panics
/// when the map would have to grow past 32768 slots; the map grows only
/// when at least a fifth of its slots are taken, so below 4096 names it
/// never gets there.
#[verifier::external_body]
pub(crate) fn append_header(
    map: &mut HeaderMap,
    name: HeaderName,
    value: HeaderValue,
) -> (present: bool)
    requires
        header_map_contents(*old(map)).dom().finite(),
        header_map_contents(*old(map)).dom().len() < 4096,
    ensures
        present == header_map_contents(*old(map)).contains_key(header_name_text(name)),
        header_map_contents(*final(map)) == appended(
            header_map_contents(*old(map)),
            header_name_text(name),
            header_value_bytes(value),
        ),
{
    map.append(name, value)
}

/// `HeaderMap::clone` copies every name with its values.
#[verifier::external_body]
pub(crate) fn clone_headers(map: &HeaderMap) -> (copy: HeaderMap)
    ensures
        header_map_contents(copy) == header_map_contents(*map),
{
    map.clone()
}

} // verus!
