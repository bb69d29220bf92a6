//! What the `http` crate accepts as a status code, a method, a header name
//! and a header value, stated over bytes, and the calls that check it.
use vstd::prelude::*;

verus! {

/// A `tchar` of RFC 9110: the bytes a method or a header name is made of.
pub open spec fn is_token_byte(b: u8) -> bool {
    ||| 48 <= b <= 57
    ||| 65 <= b <= 90
    ||| 97 <= b <= 122
    ||| b == 33 || (35 <= b <= 39) || b == 42 || b == 43 || b == 45 || b == 46
    ||| b == 94 || b == 95 || b == 96 || b == 124 || b == 126
}

/// ASCII lower case of one byte.
pub open spec fn lower_byte(b: u8) -> u8 {
    if 65 <= b <= 90 {
        (b + 32) as u8
    } else {
        b
    }
}

/// ASCII lower case of a byte string.
pub open spec fn lower_bytes(s: Seq<u8>) -> Seq<u8> {
    s.map_values(|b: u8| lower_byte(b))
}

/// Longest header name that `http` accepts.
pub const MAX_HEADER_NAME_LEN: usize = 65535;

/// A status code that `http::StatusCode` accepts: three decimal digits.
pub open spec fn valid_status(code: int) -> bool {
    100 <= code <= 999
}

/// A method that `http::Method` accepts: a non-empty token. A character
/// outside ASCII is never part of a token.
pub open spec fn valid_method(s: Seq<char>) -> bool {
    &&& s.len() > 0
    &&& forall|i: int| 0 <= i < s.len() ==> (#[trigger] s[i] as u32) < 128 && is_token_byte(s[i] as u8)
}

/// The path and the query that `http::Uri` reads from a request-URI, or
/// `None` where it does not parse.
pub uninterp spec fn uri_parts(s: Seq<char>) -> Option<(Seq<char>, Option<Seq<char>>)>;

/// A header name that `http::HeaderName` accepts: a token of at most
/// `MAX_HEADER_NAME_LEN` bytes.
pub open spec fn valid_header_name(s: Seq<u8>) -> bool {
    &&& 0 < s.len() <= MAX_HEADER_NAME_LEN
    &&& forall|i: int| 0 <= i < s.len() ==> is_token_byte(#[trigger] s[i])
}

/// A byte that may stand in a header value: visible, a space, a tab, or
/// above the ASCII range.
pub open spec fn is_value_byte(b: u8) -> bool {
    (b >= 32 && b != 127) || b == 9
}

/// A header value that `http::HeaderValue` accepts.
pub open spec fn valid_header_value(s: Seq<u8>) -> bool {
    forall|i: int| 0 <= i < s.len() ==> is_value_byte(#[trigger] s[i])
}

/// Relies on `http::StatusCode::from_u16`: it accepts exactly 100 to 999.
#[verifier::external_body]
pub(crate) fn status_is_valid(code: u16) -> (r: bool)
    ensures
        r == valid_status(code as int),
{
    http::StatusCode::from_u16(code).is_ok()
}

/// Relies on `http::Method::from_bytes`: it accepts exactly the non-empty
/// tokens.
#[verifier::external_body]
pub(crate) fn method_is_valid(s: &str) -> (r: bool)
    ensures
        r == valid_method(s@),
{
    http::Method::from_bytes(s.as_bytes()).is_ok()
}

/// Relies on `http::Uri::from_str`, read through `Uri::path` and
/// `Uri::query`: whether the text parses, and what path and query it holds.
#[verifier::external_body]
pub(crate) fn parse_uri(s: &str) -> (r: Option<(String, Option<String>)>)
    ensures
        match r {
            None => uri_parts(s@).is_none(),
            Some((p, q)) => uri_parts(s@) == Some(
                (
                    p@,
                    match q {
                        Some(q) => Some(q@),
                        None => None,
                    },
                ),
            ),
        },
{
    <http::Uri as std::str::FromStr>::from_str(s).ok().map(
        |u| (u.path().to_string(), u.query().map(|q| q.to_string())),
    )
}

/// Relies on `http::HeaderName::from_bytes`: it accepts exactly the tokens
/// of at most `MAX_HEADER_NAME_LEN` bytes, and the name it makes is their
/// ASCII lower case (`as_str`).
#[verifier::external_body]
pub(crate) fn header_name_normalized(s: &[u8]) -> (r: Option<Vec<u8>>)
    ensures
        r.is_some() == valid_header_name(s@),
        r matches Some(n) ==> n@ == lower_bytes(s@),
{
    http::HeaderName::from_bytes(s).ok().map(|n| n.as_str().as_bytes().to_vec())
}

/// Relies on `http::HeaderValue::from_bytes`: it accepts exactly the byte
/// strings of value bytes, and keeps them as they are.
#[verifier::external_body]
pub(crate) fn header_value_is_valid(s: &[u8]) -> (r: bool)
    ensures
        r == valid_header_value(s@),
{
    http::HeaderValue::from_bytes(s).is_ok()
}

} // verus!
