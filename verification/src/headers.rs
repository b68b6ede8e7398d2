//! Request headers, read through the `http` crate's header map.
//!
//! The map and its values are opaque here. What this module knows of them is
//! stated by `header_entries` and `header_value_bytes`, and by the contracts
//! of the two private functions that call into `http`; `header_text` is
//! proved from those.

use crate::text::ascii_lower;
use http::header::HeaderMap;
use http::header::HeaderValue;
use vstd::prelude::*;

verus! {

/// `http::header::HeaderMap`, of which nothing is seen here but what
/// `header_entries` says.
#[verifier::external_type_specification]
#[verifier::external_body]
#[verifier::reject_recursive_types(T)]
pub struct ExHeaderMap<T>(http::header::HeaderMap<T>);

/// `http::header::HeaderValue`, of which nothing is seen here but what
/// `header_value_bytes` says.
#[verifier::external_type_specification]
#[verifier::external_body]
pub struct ExHeaderValue(http::header::HeaderValue);

/// The values that a header map holds under each header name, as bytes, in
/// the order in which they were added. The names are in lower case, and a
/// name without values is no key.
pub uninterp spec fn header_entries(headers: HeaderMap<HeaderValue>) -> Map<
    Seq<char>,
    Seq<Seq<u8>>,
>;

/// The bytes of a header value.
pub uninterp spec fn header_value_bytes(value: HeaderValue) -> Seq<u8>;

/// Whether `b` is a printable ASCII character, a space or a tab.
pub open spec fn is_visible_ascii(b: u8) -> bool {
    32 <= b < 127 || b == 9
}

/// Whether every byte of `bytes` is visible ASCII.
pub open spec fn all_visible_ascii(bytes: Seq<u8>) -> bool {
    forall|i: int| 0 <= i < bytes.len() ==> is_visible_ascii(#[trigger] bytes[i])
}

/// Each byte as the character with that code.
pub open spec fn ascii_chars(bytes: Seq<u8>) -> Seq<char> {
    Seq::new(bytes.len(), |i: int| bytes[i] as char)
}

/// The first value under `name`, whatever the case of `name`'s letters.
pub open spec fn first_value(entries: Map<Seq<char>, Seq<Seq<u8>>>, name: Seq<char>) -> Option<
    Seq<u8>,
> {
    let key = ascii_lower(name);
    if entries.contains_key(key) && entries[key].len() > 0 {
        Some(entries[key][0])
    } else {
        None
    }
}

/// The first value under `name` as text, where there is one and all of it is
/// visible ASCII.
pub open spec fn first_text(entries: Map<Seq<char>, Seq<Seq<u8>>>, name: Seq<char>) -> Option<
    Seq<char>,
> {
    match first_value(entries, name) {
        Some(bytes) => if all_visible_ascii(bytes) {
            Some(ascii_chars(bytes))
        } else {
            None
        },
        None => None,
    }
}

/// Calls `http::header::HeaderMap::get` with a name given as text.
///
/// Trusted: `get` compares header names without regard to ASCII case and
/// returns the first of the values under the name, or nothing where the map
/// has no value under it (also where `name` is no valid header name).
#[verifier::external_body]
fn header_get<'a>(headers: &'a HeaderMap<HeaderValue>, name: &str) -> (found: Option<
    &'a HeaderValue,
>)
    ensures
        found matches Some(value) ==> first_value(header_entries(*headers), name@) == Some(
            header_value_bytes(*value),
        ),
        found is None ==> first_value(header_entries(*headers), name@) is None,
{
    headers.get(name)
}

/// Calls `http::header::HeaderValue::to_str`.
///
/// Trusted: `to_str` succeeds exactly when every byte of the value is visible
/// ASCII, and then gives those bytes as text.
#[verifier::external_body]
fn header_value_text<'a>(value: &'a HeaderValue) -> (text: Option<&'a str>)
    ensures
        text matches Some(t) ==> all_visible_ascii(header_value_bytes(*value)) && t@
            == ascii_chars(header_value_bytes(*value)),
        text is None ==> !all_visible_ascii(header_value_bytes(*value)),
{
    match value.to_str() {
        Ok(text) => Some(text),
        Err(_) => None,
    }
}

/// The first value under `name` as text. There is none where the request has
/// no such header, or where that value holds a byte that is not visible
/// ASCII. The text that comes back is ASCII.
pub fn header_text<'a>(headers: &'a HeaderMap<HeaderValue>, name: &str) -> (text: Option<&'a str>)
    ensures
        text.deep_view() == first_text(header_entries(*headers), name@),
        text matches Some(t) ==> t.is_ascii(),
{
    match header_get(headers, name) {
        Some(value) => {
            let text = header_value_text(value);
            proof {
                if text is Some {
                    lemma_ascii_chars_is_ascii(header_value_bytes(*value));
                }
            }
            text
        },
        None => None,
    }
}

/// Text made of visible ASCII bytes is ASCII.
pub proof fn lemma_ascii_chars_is_ascii(bytes: Seq<u8>)
    requires
        all_visible_ascii(bytes),
    ensures
        vstd::utf8::is_ascii_chars(ascii_chars(bytes)),
{
    assert forall|i: int| 0 <= i < ascii_chars(bytes).len() implies '\0' <= #[trigger] ascii_chars(
        bytes,
    )[i] <= '\u{7f}' by {
        assert(is_visible_ascii(bytes[i]));
    }
}

} // verus!
