//! The parts of the `http` crate that header decoration relies on, and a
//! model of a header map as plain values.
use http::header::{HeaderMap, HeaderName, HeaderValue, InvalidHeaderName, InvalidHeaderValue};
use std::str::FromStr;
use vstd::prelude::*;
use vstd::string::StringSliceAdditionalSpecFns;

verus! {

/// `http`'s header name, carried through opaque.
#[verifier::external_type_specification]
#[verifier::external_body]
pub struct ExHeaderName(HeaderName);

/// `http`'s header value, carried through opaque.
#[verifier::external_type_specification]
#[verifier::external_body]
pub struct ExHeaderValue(HeaderValue);

/// The error of `HeaderName::from_str`.
#[verifier::external_type_specification]
#[verifier::external_body]
pub struct ExInvalidHeaderName(InvalidHeaderName);

/// The error of `HeaderValue::from_str`.
#[verifier::external_type_specification]
#[verifier::external_body]
pub struct ExInvalidHeaderValue(InvalidHeaderValue);

/// `http`'s header map; what it holds is given by `header_entries`.
#[verifier::external_type_specification]
#[verifier::external_body]
#[verifier::reject_recursive_types(T)]
pub struct ExHeaderMap<T>(HeaderMap<T>);

/// A `tchar` of RFC 9110: the characters that a header name may hold.
pub open spec fn is_token_char(c: char) -> bool {
    ||| 'a' <= c <= 'z'
    ||| 'A' <= c <= 'Z'
    ||| '0' <= c <= '9'
    ||| c == '!' || c == '#' || c == '$' || c == '%' || c == '&' || c == '\''
    ||| c == '*' || c == '+' || c == '-' || c == '.' || c == '^' || c == '_'
    ||| c == '`' || c == '|' || c == '~'
}

/// Text that parses as a header name: one to 65535 token characters (all of
/// them ASCII, so as many bytes as characters).
pub open spec fn is_header_name(s: Seq<char>) -> bool {
    &&& 1 <= s.len() <= 65535
    &&& forall|i: int| 0 <= i < s.len() ==> is_token_char(#[trigger] s[i])
}

/// ASCII lower case of one character.
pub open spec fn ascii_lower(c: char) -> char {
    if 'A' <= c <= 'Z' {
        ((c as u32) + 32) as char
    } else {
        c
    }
}

/// The canonical, lower-case text of a header name.
pub open spec fn lower_text(s: Seq<char>) -> Seq<char> {
    s.map_values(|c: char| ascii_lower(c))
}

/// A byte that a header value may hold: a tab, or anything from a space up
/// but DEL.
pub open spec fn is_value_byte(b: u8) -> bool {
    (b >= 32 && b != 127) || b == 9
}

/// Bytes that make a valid header value.
pub open spec fn is_header_value(b: Seq<u8>) -> bool {
    forall|i: int| 0 <= i < b.len() ==> is_value_byte(#[trigger] b[i])
}

/// The lower-case text that `HeaderName::as_str` returns for a name.
pub uninterp spec fn name_text(n: HeaderName) -> Seq<char>;

/// The bytes that `HeaderValue::as_bytes` returns for a value.
pub uninterp spec fn value_bytes(v: HeaderValue) -> Seq<u8>;

/// Relies on `<HeaderName as FromStr>::from_str`: it accepts exactly the
/// non-empty token strings of at most 65535 bytes and lower-cases them.
#[verifier::external_body]
pub(crate) fn parse_header_name(s: &str) -> (r: Result<HeaderName, InvalidHeaderName>)
    ensures
        r is Ok <==> is_header_name(s@),
        r matches Ok(n) ==> name_text(n) == lower_text(s@),
{
    HeaderName::from_str(s)
}

/// Relies on `HeaderValue::from_str`: it accepts exactly the strings whose
/// bytes are all valid header value bytes, and keeps those bytes.
#[verifier::external_body]
pub(crate) fn parse_header_value(s: &str) -> (r: Result<HeaderValue, InvalidHeaderValue>)
    ensures
        r is Ok <==> is_header_value(s.spec_bytes()),
        r matches Ok(v) ==> value_bytes(v) == s.spec_bytes(),
{
    HeaderValue::from_str(s)
}

/// What a header map holds: each name, by its lower-case text, with the
/// bytes of each of its values in order.
pub uninterp spec fn header_entries(m: HeaderMap) -> Map<Seq<char>, Seq<Seq<u8>>>;

/// A map into which `n` more names can go without `HeaderMap::insert`
/// panicking. The map panics when its table would have to grow past 32768
/// slots; it grows when three quarters of the slots hold names, or, after
/// long collision chains, when a fifth of them do. So it has room while a
/// fifth of 32768 slots is more than the names it holds.
pub open spec fn has_room_for(m: HeaderMap, n: nat) -> bool {
    &&& header_entries(m).dom().finite()
    &&& (header_entries(m).len() + n) * 5 <= 32768
}

/// Relies on `HeaderMap::insert`: afterwards the name holds the new value
/// alone, and every other name keeps its values. It does not panic while the
/// map has room for one more name.
#[verifier::external_body]
pub(crate) fn insert_header(headers: &mut HeaderMap, name: HeaderName, value: HeaderValue)
    requires
        has_room_for(*old(headers), 1),
    ensures
        header_entries(*final(headers)) == header_entries(*old(headers)).insert(
            name_text(name),
            seq![value_bytes(value)],
        ),
{
    headers.insert(name, value);
}

} // verus!
