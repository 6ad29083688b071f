//! HTTP syntax rules and the calls into the `http`, `headers` and
//! `xxhash-rust` crates that the adapter relies on.

use vstd::prelude::*;

use crate::text::chars_of;

verus! {

/// A `tchar` of RFC 9110: the characters allowed in a method or a header name.
pub open spec fn is_tchar(c: char) -> bool {
    let u = c as u32;
    ||| 48 <= u <= 57
    ||| 65 <= u <= 90
    ||| 97 <= u <= 122
    ||| u == 33 || u == 35 || u == 36 || u == 37 || u == 38 || u == 39
    ||| u == 42 || u == 43 || u == 45 || u == 46
    ||| u == 94 || u == 95 || u == 96 || u == 124 || u == 126
}

/// ASCII upper-case letters mapped to lower case; every other character kept.
pub open spec fn ascii_lower(c: char) -> char {
    let u = c as u32;
    if 65 <= u <= 90 {
        ((u + 32) as u8) as char
    } else {
        c
    }
}

/// Every character ASCII-lower-cased.
pub open spec fn lower_ascii(s: Seq<char>) -> Seq<char> {
    s.map_values(|c: char| ascii_lower(c))
}

/// A header name as the `http` crate stores it: one to 65535 token
/// characters, lower-cased; `None` for anything else.
pub open spec fn header_name_of(s: Seq<char>) -> Option<Seq<char>> {
    if 1 <= s.len() <= 65535 && forall|i: int| 0 <= i < s.len() ==> is_tchar(#[trigger] s[i]) {
        Some(lower_ascii(s))
    } else {
        None
    }
}

/// A method token: one or more token characters.
pub open spec fn valid_method(s: Seq<char>) -> bool {
    s.len() > 0 && forall|i: int| 0 <= i < s.len() ==> is_tchar(#[trigger] s[i])
}

/// A character that may stand in a header value: a tab, or anything but an
/// ASCII control character or DEL.
pub open spec fn is_value_char(c: char) -> bool {
    let u = c as u32;
    u == 9 || (u >= 32 && u != 127)
}

/// A header value the `http` crate accepts.
pub open spec fn valid_header_value(s: Seq<char>) -> bool {
    forall|i: int| 0 <= i < s.len() ==> is_value_char(#[trigger] s[i])
}

/// Relies on `http::HeaderName::from_bytes`: a name of 1 to 65535 bytes, each
/// a token character, is accepted and lower-cased; all others are refused.
#[verifier::external_body]
pub(crate) fn parse_header_name(s: &str) -> (r: Option<String>)
    ensures
        match r {
            Some(t) => header_name_of(s@) == Some(t@),
            None => header_name_of(s@) is None,
        },
{
    http::HeaderName::from_bytes(s.as_bytes()).ok().map(|n| n.as_str().to_string())
}

/// Relies on `http::HeaderValue::try_from(String)`: every byte must be a tab,
/// or at least 32 and not 127 (so a non-ASCII character always passes).
#[verifier::external_body]
pub(crate) fn header_value_accepts(s: &str) -> (r: bool)
    ensures
        r == valid_header_value(s@),
{
    http::HeaderValue::try_from(s.to_string()).is_ok()
}

/// Relies on `http::Method::from_bytes`: a non-empty string of token
/// characters is a method; anything else is refused.
#[verifier::external_body]
pub(crate) fn method_accepts(s: &str) -> (r: bool)
    ensures
        r == valid_method(s@),
{
    http::Method::from_bytes(s.as_bytes()).is_ok()
}

/// The text of `s` parsed as an `http::Uri` and written back out, or `None`
/// where the parser refuses it.
pub uninterp spec fn uri_text_of(s: Seq<char>) -> Option<Seq<char>>;

/// Relies on `http::Uri::try_from` and the `Display` of `http::Uri`.
#[verifier::external_body]
pub(crate) fn parse_uri(s: &str) -> (r: Option<String>)
    ensures
        match r {
            Some(t) => uri_text_of(s@) == Some(t@),
            None => uri_text_of(s@) is None,
        },
{
    http::Uri::try_from(s).ok().map(|u| u.to_string())
}

/// The canonical reason phrase of a status code, where `http` knows one.
pub uninterp spec fn reason_of(code: u16) -> Option<Seq<char>>;

/// Relies on `http::StatusCode::canonical_reason`.
#[verifier::external_body]
pub(crate) fn canonical_reason(code: u16) -> (r: Option<&'static str>)
    ensures
        match r {
            Some(t) => reason_of(code) == Some(t@),
            None => reason_of(code) is None,
        },
{
    http::StatusCode::from_u16(code).ok().and_then(|c| c.canonical_reason())
}

/// The 64-bit XXH3 hash of a byte string.
pub uninterp spec fn xxh3_of(b: Seq<u8>) -> u64;

/// Relies on `xxhash_rust::xxh3::xxh3_64`.
#[verifier::external_body]
pub(crate) fn xxh3_64(b: &[u8]) -> (r: u64)
    ensures
        r == xxh3_of(b@),
{
    xxhash_rust::xxh3::xxh3_64(b)
}

/// The first second that an HTTP-date cannot express (year 10000).
pub const HTTP_DATE_END: u64 = 253402300800;

/// The IMF-fixdate (`Sun, 06 Nov 1994 08:49:37 GMT`) of a count of seconds
/// since the Unix epoch.
pub uninterp spec fn http_date_of(secs: u64) -> Seq<char>;

/// Relies on the encoding of `headers::Date`, which panics from the year
/// 10000 on.
#[verifier::external_body]
pub(crate) fn http_date(secs: u64) -> (r: String)
    requires
        secs < HTTP_DATE_END,
    ensures
        r@ == http_date_of(secs),
{
    let time = std::time::UNIX_EPOCH + std::time::Duration::from_secs(secs);
    let mut values: Vec<http::HeaderValue> = Vec::new();
    headers::Header::encode(&headers::Date::from(time), &mut values);
    values[0].to_str().unwrap_or_default().to_string()
}

/// The value of an ASCII digit.
pub open spec fn digit_value(c: char) -> int {
    (c as u32) - 48
}

/// Whether `c` is an ASCII digit.
pub open spec fn is_digit(c: char) -> bool {
    48 <= c as u32 <= 57
}

/// A status code written as three digits, the first not zero.
pub open spec fn status_code_of(s: Seq<char>) -> Option<u16> {
    if s.len() == 3 && is_digit(s[0]) && digit_value(s[0]) != 0 && is_digit(s[1]) && is_digit(s[2]) {
        Some((100 * digit_value(s[0]) + 10 * digit_value(s[1]) + digit_value(s[2])) as u16)
    } else {
        None
    }
}

/// Relies on `http::StatusCode::from_str`: exactly three bytes, each an ASCII
/// digit, the first not `0`.
#[verifier::external_body]
pub(crate) fn parse_status_code(s: &str) -> (r: Option<u16>)
    ensures
        r == status_code_of(s@),
{
    s.parse::<http::StatusCode>().ok().map(|c| c.as_u16())
}

/// Whether two strings are equal without regard to ASCII case, as
/// `str::eq_ignore_ascii_case` compares them.
pub fn eq_ignore_ascii_case(a: &str, b: &str) -> (r: bool)
    ensures
        r == (lower_ascii(a@) == lower_ascii(b@)),
{
    let x = chars_of(a);
    let y = chars_of(b);
    if x.len() != y.len() {
        assert(lower_ascii(a@).len() != lower_ascii(b@).len());
        return false;
    }
    let mut i: usize = 0;
    while i < x.len()
        invariant
            i <= x.len(),
            x.len() == y.len(),
            x@ == a@,
            y@ == b@,
            forall|j: int| 0 <= j < i ==> ascii_lower(#[trigger] x@[j]) == ascii_lower(y@[j]),
        decreases x.len() - i,
    {
        if lower(x[i]) != lower(y[i]) {
            assert(lower_ascii(a@)[i as int] != lower_ascii(b@)[i as int]);
            return false;
        }
        i = i + 1;
    }
    assert(lower_ascii(a@) =~= lower_ascii(b@));
    true
}

fn lower(c: char) -> (r: char)
    ensures
        r == ascii_lower(c),
{
    let u = c as u32;
    if 65 <= u && u <= 90 {
        ((u + 32) as u8) as char
    } else {
        c
    }
}

} // verus!
