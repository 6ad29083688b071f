//! HTTP responses and their CGI serialization: a `Status:` line, the header
//! block with the caching headers filled in, a blank line, then the body.

use vstd::prelude::*;
use vstd::string::{StrSliceExecFns, StringExecFns};
use vstd::utf8::encode_utf8;

use crate::cgi_env::pairs_view;
use crate::text::{decimal, hex_lower, push_char, render_decimal, render_hex, str_eq};
use crate::wire::{eq_ignore_ascii_case, lower_ascii, header_name_of, header_value_accepts, parse_header_name, valid_header_value, canonical_reason, http_date, http_date_of, reason_of, xxh3_64, xxh3_of, HTTP_DATE_END};

verus! {

/// An HTTP status code, from 100 to 999.
#[derive(Debug, Clone, Copy, PartialEq, Eq)]
pub struct StatusCode {
    code: u16,
}

impl View for StatusCode {
    type V = u16;

    closed spec fn view(&self) -> u16 {
        self.code
    }
}

impl StatusCode {
    #[verifier::type_invariant]
    spec fn wf(self) -> bool {
        100 <= self.code <= 999
    }

    /// The status with this code; codes outside 100 to 999 are refused.
    pub fn from_u16(code: u16) -> (r: Option<StatusCode>)
        ensures
            match r {
                Some(s) => 100 <= code <= 999 && s@ == code,
                None => !(100 <= code <= 999),
            },
    {
        if 100 <= code && code <= 999 {
            Some(StatusCode { code })
        } else {
            None
        }
    }

    /// The status with a code known to be in range.
    pub closed spec fn spec_known(code: u16) -> StatusCode {
        StatusCode { code }
    }

    pub(crate) fn known(code: u16) -> (r: StatusCode)
        requires
            100 <= code <= 999,
        ensures
            r@ == code,
            r == StatusCode::spec_known(code),
    {
        StatusCode { code }
    }

    /// The numeric code.
    pub fn code(&self) -> (r: u16)
        ensures
            r == self@,
            100 <= r <= 999,
    {
        proof {
            use_type_invariant(self);
        }
        self.code
    }
}

/// What a response holds.
pub struct ResponseView {
    pub status: u16,
    pub headers: Seq<(Seq<char>, Seq<char>)>,
    pub body: Seq<u8>,
}

/// An HTTP response: a status, headers in the order they are written, and a
/// body.
#[derive(Debug, Clone)]
pub struct Response {
    pub status: StatusCode,
    pub headers: Vec<(String, String)>,
    pub body: Vec<u8>,
}

impl View for Response {
    type V = ResponseView;

    open spec fn view(&self) -> ResponseView {
        ResponseView { status: self.status@, headers: pairs_view(self.headers@), body: self.body@ }
    }
}

/// Why a response could not be written out.
#[derive(Debug)]
pub enum SerializeError {
    /// The output sink refused the bytes.
    Io(std::io::Error),
    /// The body is longer than a `Content-Length` can state.
    ContentTooLarge,
}

/// Declares `std::io::Error`, which a failed write hands back.
#[verifier::external_type_specification]
#[verifier::external_body]
pub struct ExIoError(std::io::Error);

/// A header name or value that HTTP syntax refuses.
#[derive(Debug, Clone, Copy, PartialEq, Eq, Structural)]
pub struct HeaderError;

impl Response {
    /// A response with no headers.
    pub fn new(status: StatusCode, body: Vec<u8>) -> (r: Response)
        ensures
            r@ == (ResponseView { status: status@, headers: Seq::empty(), body: body@ }),
    {
        let r = Response { status, headers: Vec::new(), body };
        assert(r@.headers =~= Seq::empty());
        r
    }

    /// Adds a header after the others, its name lower-cased as the `http`
    /// crate stores names; a name or value that is not valid syntax is
    /// refused and the response left as it was.
    pub fn append_header(&mut self, name: &str, value: &str) -> (r: Result<(), HeaderError>)
        ensures
            r is Ok <==> header_name_of(name@) is Some && valid_header_value(value@),
            r is Ok ==> final(self)@ == (ResponseView {
                status: old(self)@.status,
                headers: old(self)@.headers.push((header_name_of(name@)->0, value@)),
                body: old(self)@.body,
            }),
            r is Err ==> final(self)@ == old(self)@,
    {
        let n = match parse_header_name(name) {
            Some(n) => n,
            None => {
                return Err(HeaderError);
            },
        };
        if !header_value_accepts(value) {
            return Err(HeaderError);
        }
        let ghost before = self.headers@;
        self.headers.push((n, value.to_owned()));
        assert(pairs_view(self.headers@) =~= pairs_view(before).push((header_name_of(name@)->0, value@)));
        Ok(())
    }
}

// ----- headers -----

/// Whether two header names are the same name: names do not depend on
/// ASCII case.
pub open spec fn same_name(a: Seq<char>, b: Seq<char>) -> bool {
    lower_ascii(a) == lower_ascii(b)
}

/// The headers called `n`, whatever the case of their names, in order.
pub open spec fn named(hs: Seq<(Seq<char>, Seq<char>)>, n: Seq<char>) -> Seq<(Seq<char>, Seq<char>)>
    decreases hs.len(),
{
    if hs.len() == 0 {
        seq![]
    } else {
        let prev = named(hs.drop_last(), n);
        if same_name(hs.last().0, n) {
            prev.push(hs.last())
        } else {
            prev
        }
    }
}

/// Whether a header called `n` is present.
pub open spec fn has_name(hs: Seq<(Seq<char>, Seq<char>)>, n: Seq<char>) -> bool {
    named(hs, n).len() > 0
}

/// The headers with the first one called `n` replaced by `n: v` and the
/// later ones called `n` taken out.
pub open spec fn replace_named(hs: Seq<(Seq<char>, Seq<char>)>, n: Seq<char>, v: Seq<char>) -> Seq<(Seq<char>, Seq<char>)>
    decreases hs.len(),
{
    if hs.len() == 0 {
        seq![]
    } else {
        let prev = replace_named(hs.drop_last(), n, v);
        if same_name(hs.last().0, n) {
            if has_name(hs.drop_last(), n) {
                prev
            } else {
                prev.push((n, v))
            }
        } else {
            prev.push(hs.last())
        }
    }
}

/// Setting a header: the one header called `n` becomes `n: v`, kept in the
/// place of the first old one, or added at the end.
pub open spec fn header_insert(hs: Seq<(Seq<char>, Seq<char>)>, n: Seq<char>, v: Seq<char>) -> Seq<(Seq<char>, Seq<char>)> {
    if has_name(hs, n) {
        replace_named(hs, n, v)
    } else {
        hs.push((n, v))
    }
}

/// The headers without any called `n`.
pub open spec fn remove_named(hs: Seq<(Seq<char>, Seq<char>)>, n: Seq<char>) -> Seq<(Seq<char>, Seq<char>)>
    decreases hs.len(),
{
    if hs.len() == 0 {
        seq![]
    } else {
        let prev = remove_named(hs.drop_last(), n);
        if same_name(hs.last().0, n) {
            prev
        } else {
            prev.push(hs.last())
        }
    }
}

/// Whether a header called `name`, in any case, is present.
pub fn contains_name(headers: &Vec<(String, String)>, name: &str) -> (r: bool)
    ensures
        r == has_name(pairs_view(headers@), name@),
{
    let ghost hs = pairs_view(headers@);
    let mut i: usize = 0;
    while i < headers.len()
        invariant
            i <= headers.len(),
            hs == pairs_view(headers@),
            !has_name(hs.subrange(0, i as int), name@),
        decreases headers.len() - i,
    {
        assert(hs.subrange(0, i + 1).drop_last() =~= hs.subrange(0, i as int));
        if eq_ignore_ascii_case(headers[i].0.as_str(), name) {
            proof {
                lemma_has_name_prefix(hs, name@, i + 1);
            }
            return true;
        }
        i = i + 1;
    }
    assert(hs.subrange(0, hs.len() as int) =~= hs);
    false
}

/// A header present in a prefix is present in the whole.
proof fn lemma_has_name_prefix(hs: Seq<(Seq<char>, Seq<char>)>, n: Seq<char>, k: int)
    requires
        0 <= k <= hs.len(),
        has_name(hs.subrange(0, k), n),
    ensures
        has_name(hs, n),
    decreases hs.len() - k,
{
    if k < hs.len() {
        assert(hs.subrange(0, k + 1).drop_last() =~= hs.subrange(0, k));
        lemma_has_name_prefix(hs, n, k + 1);
    } else {
        assert(hs.subrange(0, k) =~= hs);
    }
}

/// Sets the header `name` to `value`, as `HeaderMap::insert` does.
pub fn insert_header(headers: &mut Vec<(String, String)>, name: &str, value: &str)
    ensures
        pairs_view(final(headers)@) == header_insert(pairs_view(old(headers)@), name@, value@),
{
    let ghost hs = pairs_view(headers@);
    let mut out: Vec<(String, String)> = Vec::new();
    let mut found = false;
    let mut i: usize = 0;
    while i < headers.len()
        invariant
            i <= headers.len(),
            hs == pairs_view(headers@),
            pairs_view(out@) == replace_named(hs.subrange(0, i as int), name@, value@),
            found == has_name(hs.subrange(0, i as int), name@),
        decreases headers.len() - i,
    {
        let ghost before = out@;
        assert(hs.subrange(0, i + 1).drop_last() =~= hs.subrange(0, i as int));
        if eq_ignore_ascii_case(headers[i].0.as_str(), name) {
            if !found {
                out.push((name.to_owned(), value.to_owned()));
                assert(pairs_view(out@) =~= pairs_view(before).push((name@, value@)));
                found = true;
            }
        } else {
            out.push((headers[i].0.clone(), headers[i].1.clone()));
            assert(pairs_view(out@) =~= pairs_view(before).push(hs[i as int]));
        }
        i = i + 1;
    }
    assert(hs.subrange(0, hs.len() as int) =~= hs);
    if !found {
        let ghost before = out@;
        out.push((name.to_owned(), value.to_owned()));
        assert(pairs_view(out@) =~= pairs_view(before).push((name@, value@)));
        proof {
            lemma_replace_without_name(hs, name@, value@);
        }
    }
    *headers = out;
}

/// Takes out every header called `name`, in any case.
pub fn remove_header(headers: &mut Vec<(String, String)>, name: &str)
    ensures
        pairs_view(final(headers)@) == remove_named(pairs_view(old(headers)@), name@),
{
    let ghost hs = pairs_view(headers@);
    let mut out: Vec<(String, String)> = Vec::new();
    let mut i: usize = 0;
    while i < headers.len()
        invariant
            i <= headers.len(),
            hs == pairs_view(headers@),
            pairs_view(out@) == remove_named(hs.subrange(0, i as int), name@),
        decreases headers.len() - i,
    {
        let ghost before = out@;
        assert(hs.subrange(0, i + 1).drop_last() =~= hs.subrange(0, i as int));
        if !eq_ignore_ascii_case(headers[i].0.as_str(), name) {
            out.push((headers[i].0.clone(), headers[i].1.clone()));
            assert(pairs_view(out@) =~= pairs_view(before).push(hs[i as int]));
        }
        i = i + 1;
    }
    assert(hs.subrange(0, hs.len() as int) =~= hs);
    *headers = out;
}

/// Replacing a name that is absent changes nothing.
proof fn lemma_replace_without_name(hs: Seq<(Seq<char>, Seq<char>)>, n: Seq<char>, v: Seq<char>)
    requires
        !has_name(hs, n),
    ensures
        replace_named(hs, n, v) == hs,
    decreases hs.len(),
{
    if hs.len() > 0 {
        lemma_replace_without_name(hs.drop_last(), n, v);
        assert(hs.drop_last().push(hs.last()) =~= hs);
    }
}

/// After setting `n` to `v` there is exactly one header called `n`: `n: v`.
pub proof fn lemma_insert_sets(hs: Seq<(Seq<char>, Seq<char>)>, n: Seq<char>, v: Seq<char>)
    ensures
        named(header_insert(hs, n, v), n) == seq![(n, v)],
{
    if has_name(hs, n) {
        lemma_replace_values(hs, n, v);
    } else {
        assert(hs.push((n, v)).drop_last() =~= hs);
    }
}

proof fn lemma_replace_values(hs: Seq<(Seq<char>, Seq<char>)>, n: Seq<char>, v: Seq<char>)
    ensures
        named(replace_named(hs, n, v), n) == if has_name(hs, n) {
            seq![(n, v)]
        } else {
            Seq::<(Seq<char>, Seq<char>)>::empty()
        },
    decreases hs.len(),
{
    if hs.len() > 0 {
        let p = hs.drop_last();
        lemma_replace_values(p, n, v);
        let prev = replace_named(p, n, v);
        if same_name(hs.last().0, n) {
            if !has_name(p, n) {
                assert(prev.push((n, v)).drop_last() =~= prev);
            }
        } else {
            assert(prev.push(hs.last()).drop_last() =~= prev);
        }
    }
}

/// Setting `n` leaves the headers of every other name as they were.
pub proof fn lemma_insert_keeps_others(hs: Seq<(Seq<char>, Seq<char>)>, n: Seq<char>, v: Seq<char>, m: Seq<char>)
    requires
        !same_name(m, n),
    ensures
        named(header_insert(hs, n, v), m) == named(hs, m),
{
    if has_name(hs, n) {
        lemma_replace_keeps_others(hs, n, v, m);
    } else {
        assert(hs.push((n, v)).drop_last() =~= hs);
    }
}

proof fn lemma_replace_keeps_others(hs: Seq<(Seq<char>, Seq<char>)>, n: Seq<char>, v: Seq<char>, m: Seq<char>)
    requires
        !same_name(m, n),
    ensures
        named(replace_named(hs, n, v), m) == named(hs, m),
    decreases hs.len(),
{
    if hs.len() > 0 {
        let p = hs.drop_last();
        lemma_replace_keeps_others(p, n, v, m);
        let prev = replace_named(p, n, v);
        if same_name(hs.last().0, n) {
            if !has_name(p, n) {
                assert(prev.push((n, v)).drop_last() =~= prev);
            }
        } else {
            assert(prev.push(hs.last()).drop_last() =~= prev);
        }
    }
}

/// Setting a header that already stands alone as `n: v` changes nothing.
pub proof fn lemma_insert_same(hs: Seq<(Seq<char>, Seq<char>)>, n: Seq<char>, v: Seq<char>)
    requires
        named(hs, n) == seq![(n, v)],
    ensures
        header_insert(hs, n, v) == hs,
{
    lemma_replace_single(hs, n, v);
}

proof fn lemma_replace_single(hs: Seq<(Seq<char>, Seq<char>)>, n: Seq<char>, v: Seq<char>)
    requires
        named(hs, n).len() <= 1,
        forall|i: int| 0 <= i < named(hs, n).len() ==> named(hs, n)[i] == (n, v),
    ensures
        replace_named(hs, n, v) == hs,
    decreases hs.len(),
{
    if hs.len() > 0 {
        let p = hs.drop_last();
        if same_name(hs.last().0, n) {
            assert(named(hs, n) == named(p, n).push(hs.last()));
            assert(named(hs, n)[named(p, n).len() as int] == hs.last());
            lemma_replace_without_name(p, n, v);
        } else {
            lemma_replace_single(p, n, v);
        }
        assert(p.push(hs.last()) =~= hs);
    }
}

/// After removing `n` no header is called `n`, and the others are as they
/// were.
pub proof fn lemma_remove(hs: Seq<(Seq<char>, Seq<char>)>, n: Seq<char>, m: Seq<char>)
    ensures
        named(remove_named(hs, n), n) == Seq::<(Seq<char>, Seq<char>)>::empty(),
        !same_name(m, n) ==> named(remove_named(hs, n), m) == named(hs, m),
        !has_name(hs, n) ==> remove_named(hs, n) == hs,
    decreases hs.len(),
{
    if hs.len() > 0 {
        let p = hs.drop_last();
        lemma_remove(p, n, m);
        let prev = remove_named(p, n);
        assert(prev.push(hs.last()).drop_last() =~= prev);
        assert(p.push(hs.last()) =~= hs);
    }
}

// ----- serialization -----

/// A status that carries no body: 204 No Content and 304 Not Modified.
pub open spec fn is_bodiless(status: u16) -> bool {
    status == 204 || status == 304
}

/// A status whose response gets an `ETag` computed from its body when it has
/// none: 200 OK and 404 Not Found.
pub open spec fn gets_body_etag(status: u16) -> bool {
    status == 200 || status == 404
}

/// The `ETag` of a body: the XXH3 hash of its bytes in lower-case
/// hexadecimal, between double quotes.
pub open spec fn etag_of_body(body: Seq<u8>) -> Seq<char> {
    seq!['"'] + hex_lower(xxh3_of(body) as nat) + seq!['"']
}

/// The headers a response is written with at `now`: the `ETag` added where
/// it is due, `Date` set, and `Content-Length` set to the body's length, or
/// taken out when the status carries no body.
pub open spec fn prepared_headers(r: ResponseView, now: u64) -> Seq<(Seq<char>, Seq<char>)> {
    let tagged = if gets_body_etag(r.status) && !has_name(r.headers, "etag"@) {
        header_insert(r.headers, "etag"@, etag_of_body(r.body))
    } else {
        r.headers
    };
    let dated = header_insert(tagged, "date"@, http_date_of(now));
    if is_bodiless(r.status) {
        remove_named(dated, "content-length"@)
    } else {
        header_insert(dated, "content-length"@, decimal(r.body.len()))
    }
}

/// The reason phrase written after a status code.
pub open spec fn reason_text(code: u16) -> Seq<char> {
    match reason_of(code) {
        Some(t) => t,
        None => "<unknown status code>"@,
    }
}

/// `Status: <code> <reason>` and a line break.
pub open spec fn status_line(code: u16) -> Seq<char> {
    "Status: "@ + decimal(code as nat) + seq![' '] + reason_text(code) + "\r\n"@
}

/// Each header as `<name>: <value>` and a line break.
pub open spec fn header_block(hs: Seq<(Seq<char>, Seq<char>)>) -> Seq<char>
    decreases hs.len(),
{
    if hs.len() == 0 {
        seq![]
    } else {
        header_block(hs.drop_last()) + hs.last().0 + ": "@ + hs.last().1 + "\r\n"@
    }
}

/// The text before the body: status line, headers, blank line.
pub open spec fn head_of(r: ResponseView, now: u64) -> Seq<char> {
    status_line(r.status) + header_block(prepared_headers(r, now)) + "\r\n"@
}

/// The bytes a response is written as at `now`.
pub open spec fn serialized(r: ResponseView, now: u64) -> Seq<u8> {
    encode_utf8(head_of(r, now)) + if is_bodiless(r.status) {
        Seq::<u8>::empty()
    } else {
        r.body
    }
}

/// The `ETag` of a body.
pub fn create_etag(body: &[u8]) -> (r: String)
    ensures
        r@ == etag_of_body(body@),
{
    let hash = xxh3_64(body);
    let mut tag = String::new();
    push_char(&mut tag, '"');
    let hex = render_hex(hash);
    tag.append(hex.as_str());
    push_char(&mut tag, '"');
    assert(tag@ =~= etag_of_body(body@));
    tag
}

/// The status line of a code.
pub fn render_status_line(code: u16) -> (r: String)
    ensures
        r@ == status_line(code),
{
    let mut line = String::from_str("Status: ");
    let digits = render_decimal(code as u64);
    line.append(digits.as_str());
    push_char(&mut line, ' ');
    match canonical_reason(code) {
        Some(reason) => line.append(reason),
        None => line.append("<unknown status code>"),
    }
    line.append("\r\n");
    assert(line@ =~= status_line(code));
    line
}

/// The header block of a list of headers.
pub fn serialize_headers(headers: &Vec<(String, String)>) -> (r: String)
    ensures
        r@ == header_block(pairs_view(headers@)),
{
    let ghost hs = pairs_view(headers@);
    let mut out = String::new();
    let mut i: usize = 0;
    while i < headers.len()
        invariant
            i <= headers.len(),
            hs == pairs_view(headers@),
            out@ == header_block(hs.subrange(0, i as int)),
        decreases headers.len() - i,
    {
        assert(hs.subrange(0, i + 1).drop_last() =~= hs.subrange(0, i as int));
        out.append(headers[i].0.as_str());
        out.append(": ");
        out.append(headers[i].1.as_str());
        out.append("\r\n");
        i = i + 1;
    }
    assert(hs.subrange(0, hs.len() as int) =~= hs);
    out
}

impl Response {
    /// Fills in the headers the response is written with at `now`.
    pub fn prepare_headers(&mut self, now: u64)
        requires
            now < HTTP_DATE_END,
        ensures
            final(self)@ == (ResponseView {
                status: old(self)@.status,
                headers: prepared_headers(old(self)@, now),
                body: old(self)@.body,
            }),
    {
        let status = self.status.code();
        if (status == 200 || status == 404) && !contains_name(&self.headers, "etag") {
            let etag = create_etag(self.body.as_slice());
            insert_header(&mut self.headers, "etag", etag.as_str());
        }
        let date = http_date(now);
        insert_header(&mut self.headers, "date", date.as_str());
        if status == 204 || status == 304 {
            remove_header(&mut self.headers, "content-length");
        } else {
            let length = render_decimal(self.body.len() as u64);
            insert_header(&mut self.headers, "content-length", length.as_str());
        }
    }
}

/// Writes a response out at `now` (seconds since the Unix epoch) as a CGI
/// program prints it.
pub fn serialize_response(response: Response, now: u64) -> (r: Result<Vec<u8>, SerializeError>)
    requires
        now < HTTP_DATE_END,
    ensures
        r is Ok,
        r matches Ok(out) ==> out@ == serialized(response@, now),
{
    let mut response = response;
    let ghost given = response@;
    if response.body.len() as u128 > u64::MAX as u128 {
        return Err(SerializeError::ContentTooLarge);
    }
    let status = response.status.code();
    response.prepare_headers(now);
    let mut head = render_status_line(status);
    let block = serialize_headers(&response.headers);
    head.append(block.as_str());
    head.append("\r\n");
    assert(head@ =~= head_of(given, now));
    let mut out = head.as_str().as_bytes_vec();
    if !(status == 204 || status == 304) {
        out.extend_from_slice(response.body.as_slice());
    }
    assert(out@ =~= serialized(given, now));
    Ok(out)
}

// ----- laws of serialization -----

proof fn lemma_names_distinct()
    ensures
        !same_name("etag"@, "date"@),
        !same_name("etag"@, "content-length"@),
        !same_name("date"@, "content-length"@),
        !same_name("date"@, "etag"@),
        !same_name("content-length"@, "etag"@),
        !same_name("content-length"@, "date"@),
{
    reveal_strlit("etag");
    reveal_strlit("date");
    reveal_strlit("content-length");
    assert(lower_ascii("etag"@)[0] != lower_ascii("date"@)[0]);
    assert(lower_ascii("etag"@)[0] != lower_ascii("content-length"@)[0]);
    assert(lower_ascii("date"@)[0] != lower_ascii("content-length"@)[0]);
}

/// A 200 or 404 response without an `ETag` is written with its status
/// line first, one `Content-Length` giving the body's length, one `Date`
/// for the time of writing and one `ETag` computed from the body, followed
/// by the body's bytes.
pub proof fn lemma_ok_response_written(r: ResponseView, now: u64)
    requires
        gets_body_etag(r.status),
        !has_name(r.headers, "etag"@),
    ensures
        ("Status: "@ + decimal(r.status as nat)).is_prefix_of(head_of(r, now)),
        named(prepared_headers(r, now), "content-length"@) == seq![("content-length"@, decimal(r.body.len()))],
        named(prepared_headers(r, now), "date"@) == seq![("date"@, http_date_of(now))],
        named(prepared_headers(r, now), "etag"@) == seq![("etag"@, etag_of_body(r.body))],
        serialized(r, now) == encode_utf8(head_of(r, now)) + r.body,
{
    lemma_names_distinct();
    let tagged = header_insert(r.headers, "etag"@, etag_of_body(r.body));
    let dated = header_insert(tagged, "date"@, http_date_of(now));
    lemma_insert_sets(r.headers, "etag"@, etag_of_body(r.body));
    lemma_insert_keeps_others(tagged, "date"@, http_date_of(now), "etag"@);
    lemma_insert_sets(tagged, "date"@, http_date_of(now));
    lemma_insert_keeps_others(dated, "content-length"@, decimal(r.body.len()), "etag"@);
    lemma_insert_keeps_others(dated, "content-length"@, decimal(r.body.len()), "date"@);
    lemma_insert_sets(dated, "content-length"@, decimal(r.body.len()));
    let prefix = "Status: "@ + decimal(r.status as nat);
    assert(head_of(r, now).subrange(0, prefix.len() as int) =~= prefix);
}

/// A 204 or 304 response is written without any `Content-Length`, even one
/// it carried, and without its body, the output ending with the blank line
/// that closes the headers; it gets no computed `ETag` either.
pub proof fn lemma_bodiless_response_written(r: ResponseView, now: u64)
    requires
        is_bodiless(r.status),
    ensures
        !has_name(prepared_headers(r, now), "content-length"@),
        named(prepared_headers(r, now), "etag"@) == named(r.headers, "etag"@),
        serialized(r, now) == encode_utf8(head_of(r, now)),
        ("\r\n"@ + "\r\n"@).is_suffix_of(head_of(r, now)),
{
    lemma_names_distinct();
    let hs = prepared_headers(r, now);
    let dated = header_insert(r.headers, "date"@, http_date_of(now));
    lemma_insert_keeps_others(r.headers, "date"@, http_date_of(now), "etag"@);
    lemma_insert_sets(r.headers, "date"@, http_date_of(now));
    lemma_remove(dated, "content-length"@, "etag"@);
    lemma_remove(dated, "content-length"@, "date"@);
    assert(serialized(r, now) =~= encode_utf8(head_of(r, now)));
    assert(named(hs, "date"@).len() == 1);
    assert(hs.len() > 0);
    let before = status_line(r.status) + header_block(hs.drop_last()) + hs.last().0 + ": "@ + hs.last().1;
    assert(head_of(r, now) =~= before + ("\r\n"@ + "\r\n"@));
    let tail = "\r\n"@ + "\r\n"@;
    assert(head_of(r, now).subrange(before.len() as int, head_of(r, now).len() as int) =~= tail);
}

/// An `ETag` already on the response, under any case of its name, is
/// written as it was, and no other is added.
pub proof fn lemma_etag_kept(r: ResponseView, now: u64)
    requires
        has_name(r.headers, "etag"@),
    ensures
        named(prepared_headers(r, now), "etag"@) == named(r.headers, "etag"@),
{
    lemma_names_distinct();
    let dated = header_insert(r.headers, "date"@, http_date_of(now));
    lemma_insert_keeps_others(r.headers, "date"@, http_date_of(now), "etag"@);
    lemma_insert_keeps_others(dated, "content-length"@, decimal(r.body.len()), "etag"@);
    lemma_remove(dated, "content-length"@, "etag"@);
}

/// Two responses that hold the same status, headers and body are written
/// as the same bytes at the same time.
pub proof fn lemma_serialize_deterministic(r1: ResponseView, r2: ResponseView, now: u64)
    requires
        r1.status == r2.status,
        r1.headers == r2.headers,
        r1.body == r2.body,
    ensures
        serialized(r1, now) == serialized(r2, now),
{
    assert(r1 == r2);
}

/// Writing a response whose headers were already filled in for `now` gives
/// the same headers and the same bytes as writing it as it was: at a fixed
/// time, serialization is idempotent.
pub proof fn lemma_serialize_idempotent(r: ResponseView, now: u64)
    ensures
        prepared_headers(ResponseView { status: r.status, headers: prepared_headers(r, now), body: r.body }, now)
            == prepared_headers(r, now),
        serialized(ResponseView { status: r.status, headers: prepared_headers(r, now), body: r.body }, now)
            == serialized(r, now),
{
    lemma_names_distinct();
    let p = prepared_headers(r, now);
    let tagged = if gets_body_etag(r.status) && !has_name(r.headers, "etag"@) {
        header_insert(r.headers, "etag"@, etag_of_body(r.body))
    } else {
        r.headers
    };
    let dated = header_insert(tagged, "date"@, http_date_of(now));
    if gets_body_etag(r.status) && !has_name(r.headers, "etag"@) {
        lemma_insert_sets(r.headers, "etag"@, etag_of_body(r.body));
    }
    lemma_insert_keeps_others(tagged, "date"@, http_date_of(now), "etag"@);
    lemma_insert_sets(tagged, "date"@, http_date_of(now));
    if is_bodiless(r.status) {
        lemma_remove(dated, "content-length"@, "date"@);
        lemma_remove(p, "content-length"@, "date"@);
    } else {
        lemma_insert_keeps_others(dated, "content-length"@, decimal(r.body.len()), "etag"@);
        lemma_insert_keeps_others(dated, "content-length"@, decimal(r.body.len()), "date"@);
        lemma_insert_sets(dated, "content-length"@, decimal(r.body.len()));
    }
    // The second pass finds the ETag in place where one is due, sets Date
    // and Content-Length to the single headers they already are, and finds
    // no Content-Length to take out.
    assert(gets_body_etag(r.status) ==> has_name(p, "etag"@));
    assert(named(p, "date"@) == seq![("date"@, http_date_of(now))]);
    lemma_insert_same(p, "date"@, http_date_of(now));
    if !is_bodiless(r.status) {
        assert(named(p, "content-length"@) == seq![("content-length"@, decimal(r.body.len()))]);
        lemma_insert_same(p, "content-length"@, decimal(r.body.len()));
    }
}

} // verus!
