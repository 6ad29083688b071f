//! The pages of the site: which page answers a request, and the response
//! each rendered page is sent with, caching headers included.

use vstd::prelude::*;
use vstd::string::{StrSliceExecFns, StringExecFns};
use vstd::utf8::encode_utf8;

use crate::cgi_env::pairs_view;
use crate::response::{Response, ResponseView, StatusCode};
use crate::text::{decimal, push_char, render_decimal};
use crate::types::{ShortUrl, ShortUrlName, UnixTimestamp};
use crate::wire::{http_date, http_date_of, is_value_char, HTTP_DATE_END};

verus! {

/// The `Content-Type` of HTML pages.
pub const HTML: &'static str = "text/html";

/// The `Content-Type` of plain text.
pub const TEXT_UTF8: &'static str = "text/plain; charset=utf-8";

/// The `Cache-Control` of a short URL page: shared caches may keep it for
/// five minutes and must revalidate it after that.
pub const SHORT_URL_CACHE_CONTROL: &'static str = "public, s-maxage=300, proxy-revalidate";

/// How long a quotation page may be kept, in seconds: one day.
pub const QUOTATION_LIFETIME: u64 = 86400;

/// Adds a header at the end.
fn push_header(headers: &mut Vec<(String, String)>, name: &str, value: &str)
    ensures
        pairs_view(final(headers)@) == pairs_view(old(headers)@).push((name@, value@)),
{
    let ghost before = headers@;
    headers.push((name.to_owned(), value.to_owned()));
    assert(pairs_view(headers@) =~= pairs_view(before).push((name@, value@)));
}

/// A response with the given status, body and `Content-Type`.
pub fn response(status: StatusCode, body: &str, content_type: &str) -> (r: Response)
    ensures
        r@ == (ResponseView {
            status: status@,
            headers: seq![("content-type"@, content_type@)],
            body: encode_utf8(body@),
        }),
{
    let mut headers: Vec<(String, String)> = Vec::new();
    push_header(&mut headers, "content-type", content_type);
    let r = Response { status, headers, body: body.as_bytes_vec() };
    assert(r@.headers =~= seq![("content-type"@, content_type@)]);
    r
}

/// An HTML page.
pub fn html_response(status: StatusCode, body: String) -> (r: Response)
    ensures
        r@ == (ResponseView {
            status: status@,
            headers: seq![("content-type"@, HTML@)],
            body: encode_utf8(body@),
        }),
{
    response(status, body.as_str(), HTML)
}

/// A UTF-8 plain text page.
pub fn text_response(status: StatusCode, body: &str) -> (r: Response)
    ensures
        r@ == (ResponseView {
            status: status@,
            headers: seq![("content-type"@, TEXT_UTF8@)],
            body: encode_utf8(body@),
        }),
{
    response(status, body, TEXT_UTF8)
}

/// A character an entity tag may hold between its quotes.
pub open spec fn is_tag_char(c: char) -> bool {
    is_value_char(c) && c as u32 != 34
}

/// A build identifier that can stand inside an entity tag.
pub open spec fn tag_safe(s: Seq<char>) -> bool {
    forall|i: int| 0 <= i < s.len() ==> is_tag_char(#[trigger] s[i])
}

/// Whether a build identifier can stand inside an entity tag.
pub fn is_tag_safe(s: &str) -> (r: bool)
    ensures
        r == tag_safe(s@),
{
    let cs = crate::text::chars_of(s);
    let mut i: usize = 0;
    while i < cs.len()
        invariant
            i <= cs.len(),
            cs@ == s@,
            forall|j: int| 0 <= j < i ==> is_tag_char(#[trigger] cs@[j]),
        decreases cs.len() - i,
    {
        let u = cs[i] as u32;
        if !((u == 9 || (u >= 32 && u != 127)) && u != 34) {
            assert(!is_tag_char(s@[i as int]));
            return false;
        }
        i = i + 1;
    }
    true
}

/// The entity tag of a short URL page: the build identifier and the time the
/// short URL last changed, so that a page rendered again by a later process
/// keeps its tag.
pub open spec fn version_etag(version: Seq<char>, last_modified: u64) -> Seq<char> {
    seq!['"'] + version + seq!['-'] + decimal(last_modified as nat) + seq!['"']
}

/// The page of a short URL, with headers that let shared caches keep it and
/// revalidate it.
pub fn short_url_response(body: String, last_modified: UnixTimestamp, version: &str) -> (r: Response)
    requires
        last_modified.0 < HTTP_DATE_END,
        tag_safe(version@),
    ensures
        r@ == (ResponseView {
            status: 200,
            headers: seq![
                ("content-type"@, HTML@),
                ("etag"@, version_etag(version@, last_modified.0)),
                ("last-modified"@, http_date_of(last_modified.0)),
                ("cache-control"@, SHORT_URL_CACHE_CONTROL@),
            ],
            body: encode_utf8(body@),
        }),
{
    let mut tag = String::new();
    push_char(&mut tag, '"');
    tag.append(version);
    push_char(&mut tag, '-');
    let secs = render_decimal(last_modified.0);
    tag.append(secs.as_str());
    push_char(&mut tag, '"');
    assert(tag@ =~= version_etag(version@, last_modified.0));
    let mut r = html_response(StatusCode::known(200), body);
    let date = http_date(last_modified.0);
    push_header(&mut r.headers, "etag", tag.as_str());
    push_header(&mut r.headers, "last-modified", date.as_str());
    push_header(&mut r.headers, "cache-control", SHORT_URL_CACHE_CONTROL);
    assert(r@.headers =~= seq![
        ("content-type"@, HTML@),
        ("etag"@, version_etag(version@, last_modified.0)),
        ("last-modified"@, http_date_of(last_modified.0)),
        ("cache-control"@, SHORT_URL_CACHE_CONTROL@),
    ]);
    r
}

/// The page of a quotation, which may be kept for a day after `now`.
pub fn quotation_response(body: String, now: UnixTimestamp) -> (r: Response)
    requires
        now.0 + QUOTATION_LIFETIME < HTTP_DATE_END,
    ensures
        r@ == (ResponseView {
            status: 200,
            headers: seq![
                ("content-type"@, HTML@),
                ("expires"@, http_date_of((now.0 + QUOTATION_LIFETIME) as u64)),
            ],
            body: encode_utf8(body@),
        }),
{
    let mut r = html_response(StatusCode::known(200), body);
    let expires = http_date(now.0 + QUOTATION_LIFETIME);
    push_header(&mut r.headers, "expires", expires.as_str());
    assert(r@.headers =~= seq![
        ("content-type"@, HTML@),
        ("expires"@, http_date_of((now.0 + QUOTATION_LIFETIME) as u64)),
    ]);
    r
}

// ----- pages and controllers -----

/// Why the store of short URLs and quotations could not answer.
#[derive(Debug, Clone, PartialEq, Eq)]
pub struct RepositoryError {
    pub message: String,
}

/// Where short URLs and quotations are kept.
pub trait Repository {
    /// The short URL with this name, if there is one.
    fn get_url(&self, name: &ShortUrlName) -> Result<Option<ShortUrl>, RepositoryError>;

    /// A quotation picked at random.
    fn get_random_quote(&self) -> Result<String, RepositoryError>;
}

/// The quotation shown when the store holds none.
pub const DEFAULT_QUOTE: &'static str = "Don't panic\n    -- Douglas Adams";

/// The quotation the store found, or the default one.
pub fn quote_or_default(found: Option<String>) -> (r: String)
    ensures
        r@ == match found {
            Some(q) => q@,
            None => DEFAULT_QUOTE@,
        },
{
    match found {
        Some(q) => q,
        None => DEFAULT_QUOTE.to_owned(),
    }
}

/// What the error page shows.
#[derive(Debug, Clone)]
pub struct HttpErrorTemplate {
    pub status_code: StatusCode,
    pub details: String,
}

/// What the page of a short URL shows.
#[derive(Debug, Clone)]
pub struct ShortUrlTemplate {
    pub page_url: String,
    pub short_url: ShortUrl,
}

/// What the quotation page shows.
#[derive(Debug, Clone)]
pub struct QuotationTemplate {
    pub quote: String,
}

/// A page to render, and how to send it once rendered.
#[derive(Debug, Clone)]
pub enum Page {
    Error(HttpErrorTemplate),
    ShortUrl(ShortUrlTemplate),
    Quotation(QuotationTemplate),
}

impl Page {
    /// Whether the response of this page can be built from its rendering
    /// with the build identifier `version` at `now`.
    pub open spec fn can_send(&self, version: Seq<char>, now: UnixTimestamp) -> bool {
        match self {
            Page::Error(_) => true,
            Page::ShortUrl(t) => match t.short_url.last_modified {
                Some(lm) => lm.0 < HTTP_DATE_END && tag_safe(version),
                None => true,
            },
            Page::Quotation(_) => now.0 + QUOTATION_LIFETIME < HTTP_DATE_END,
        }
    }

    /// The response that sends `body`, the rendering of this page: the error
    /// page with its status; the short URL page with its caching headers
    /// where the short URL records when it last changed, as a plain page
    /// otherwise; the quotation page with a day's lifetime.
    pub fn into_response(self, body: String, version: &str, now: UnixTimestamp) -> (r: Response)
        requires
            self.can_send(version@, now),
        ensures
            r@ == match self {
                Page::Error(t) => ResponseView {
                    status: t.status_code@,
                    headers: seq![("content-type"@, HTML@)],
                    body: encode_utf8(body@),
                },
                Page::ShortUrl(t) => match t.short_url.last_modified {
                    Some(lm) => ResponseView {
                        status: 200,
                        headers: seq![
                            ("content-type"@, HTML@),
                            ("etag"@, version_etag(version@, lm.0)),
                            ("last-modified"@, http_date_of(lm.0)),
                            ("cache-control"@, SHORT_URL_CACHE_CONTROL@),
                        ],
                        body: encode_utf8(body@),
                    },
                    None => ResponseView {
                        status: 200,
                        headers: seq![("content-type"@, HTML@)],
                        body: encode_utf8(body@),
                    },
                },
                Page::Quotation(_) => ResponseView {
                    status: 200,
                    headers: seq![
                        ("content-type"@, HTML@),
                        ("expires"@, http_date_of((now.0 + QUOTATION_LIFETIME) as u64)),
                    ],
                    body: encode_utf8(body@),
                },
            },
    {
        match self {
            Page::Error(t) => html_response(t.status_code, body),
            Page::ShortUrl(t) => match t.short_url.last_modified {
                Some(lm) => short_url_response(body, lm, version),
                None => html_response(StatusCode::known(200), body),
            },
            Page::Quotation(_) => quotation_response(body, now),
        }
    }
}

/// Answers a request with a page.
pub trait Controller {
    type Params;

    type Result;

    fn respond(&self, params: Self::Params) -> Self::Result;
}

/// What a short URL page is asked for with.
#[derive(Debug, Clone)]
pub struct ShortUrlControllerParams {
    pub name: ShortUrlName,
    /// The URL of the page itself.
    pub page_url: String,
}

/// Shows where a short URL leads.
pub struct ShortUrlController<T> {
    repo: T,
}

impl<T> ShortUrlController<T> {
    pub fn new(repo: T) -> (r: Self)
        ensures
            r.repo() == repo,
    {
        ShortUrlController { repo }
    }

    pub closed spec fn repo(&self) -> T {
        self.repo
    }
}

impl<T: Repository> Controller for ShortUrlController<T> {
    type Params = ShortUrlControllerParams;

    type Result = Result<Page, RepositoryError>;

    /// The page [`short_url_page`] gives for what the store answers when
    /// asked for the name.
    fn respond(&self, params: ShortUrlControllerParams) -> (r: Result<Page, RepositoryError>)
        ensures
            exists|found: Result<Option<ShortUrl>, RepositoryError>| short_url_page_is(r, found, params.page_url@),
    {
        let found = self.repo.get_url(&params.name);
        short_url_page(found, params.page_url)
    }
}

/// The page for a short URL lookup: the page of the short URL found, the
/// "not found" error page with no details when there is none, and a failure
/// of the store passed on.
pub open spec fn short_url_page_is(
    r: Result<Page, RepositoryError>,
    found: Result<Option<ShortUrl>, RepositoryError>,
    page_url: Seq<char>,
) -> bool {
    match found {
        Ok(Some(s)) => r matches Ok(Page::ShortUrl(t)) && t.short_url == s && t.page_url@ == page_url,
        Ok(None) => r matches Ok(Page::Error(t)) && t.status_code@ == 404 && t.details@.len() == 0,
        Err(e) => r == Err::<Page, RepositoryError>(e),
    }
}

/// The page for what the store answered when asked for a short URL.
pub fn short_url_page(found: Result<Option<ShortUrl>, RepositoryError>, page_url: String) -> (r: Result<
    Page,
    RepositoryError,
>)
    ensures
        short_url_page_is(r, found, page_url@),
{
    match found {
        Ok(Some(short_url)) => Ok(Page::ShortUrl(ShortUrlTemplate { page_url, short_url })),
        Ok(None) => ErrorController {}.respond((StatusCode::known(404), String::new())),
        Err(e) => Err(e),
    }
}

/// Shows a quotation picked at random.
pub struct QuotationController<T> {
    repo: T,
}

impl<T: Repository> QuotationController<T> {
    pub fn new(repo: T) -> (r: Self)
        ensures
            r.repo() == repo,
    {
        QuotationController { repo }
    }

    pub closed spec fn repo(&self) -> T {
        self.repo
    }
}

impl<T: Repository> Controller for QuotationController<T> {
    type Params = ();

    type Result = Result<Page, RepositoryError>;

    /// The page [`quotation_page`] gives for the quotation the store picks.
    fn respond(&self, params: ()) -> (r: Result<Page, RepositoryError>)
        ensures
            exists|found: Result<String, RepositoryError>| quotation_page_is(r, found),
    {
        let found = self.repo.get_random_quote();
        quotation_page(found)
    }
}

/// The page for a quotation lookup: the quotation page holding the quotation
/// found, or a failure of the store passed on.
pub open spec fn quotation_page_is(r: Result<Page, RepositoryError>, found: Result<String, RepositoryError>) -> bool {
    match found {
        Ok(q) => r matches Ok(Page::Quotation(t)) && t.quote@ == q@,
        Err(e) => r == Err::<Page, RepositoryError>(e),
    }
}

/// The page for what the store answered when asked for a quotation.
pub fn quotation_page(found: Result<String, RepositoryError>) -> (r: Result<Page, RepositoryError>)
    ensures
        quotation_page_is(r, found),
{
    match found {
        Ok(quote) => Ok(Page::Quotation(QuotationTemplate { quote })),
        Err(e) => Err(e),
    }
}

/// Shows an error page.
pub struct ErrorController {}

impl Controller for ErrorController {
    type Params = (StatusCode, String);

    type Result = Result<Page, RepositoryError>;

    /// The error page for the status, with the details given.
    fn respond(&self, params: (StatusCode, String)) -> (r: Result<Page, RepositoryError>)
        ensures
            r matches Ok(Page::Error(t)) && t.status_code == params.0 && t.details@ == params.1@,
    {
        Ok(Page::Error(HttpErrorTemplate { status_code: params.0, details: params.1 }))
    }
}

/// The text with each `--`, read from the left, replaced by `__`, so that it
/// cannot end or break an HTML or XML comment.
pub open spec fn undashed(s: Seq<char>) -> Seq<char>
    decreases s.len(),
{
    if s.len() < 2 {
        s
    } else if s[0] == '-' && s[1] == '-' {
        seq!['_', '_'] + undashed(s.subrange(2, s.len() as int))
    } else {
        seq![s[0]] + undashed(s.subrange(1, s.len() as int))
    }
}

/// An HTML comment holding the text.
pub fn comment(text: &str) -> (r: String)
    ensures
        r@ == "<!-- "@ + undashed(text@) + " -->"@,
{
    let cs = crate::text::chars_of(text);
    let ghost all = cs@;
    let mut out: Vec<char> = Vec::new();
    let mut i: usize = 0;
    assert(all.subrange(0, all.len() as int) =~= all);
    assert(out@ + undashed(all) =~= undashed(all));
    while i < cs.len()
        invariant
            i <= cs.len(),
            cs@ == all,
            out@ + undashed(all.subrange(i as int, all.len() as int)) == undashed(all),
        decreases cs.len() - i,
    {
        let ghost rest = all.subrange(i as int, all.len() as int);
        if i + 1 < cs.len() && cs[i] == '-' && cs[i + 1] == '-' {
            out.push('_');
            out.push('_');
            assert(rest.subrange(2, rest.len() as int) =~= all.subrange(i + 2, all.len() as int));
            assert(out@ + undashed(all.subrange(i + 2, all.len() as int)) =~= undashed(all));
            i = i + 2;
        } else {
            out.push(cs[i]);
            proof {
                if rest.len() >= 2 {
                    assert(rest.subrange(1, rest.len() as int) =~= all.subrange(i + 1, all.len() as int));
                } else {
                    assert(all.subrange(i + 1, all.len() as int) =~= Seq::<char>::empty());
                    assert(undashed(rest) == rest);
                    assert(rest =~= seq![cs[i as int]]);
                }
            }
            assert(out@ + undashed(all.subrange(i + 1, all.len() as int)) =~= undashed(all));
            i = i + 1;
        }
    }
    assert(all.subrange(i as int, all.len() as int) =~= Seq::<char>::empty());
    assert(out@ =~= undashed(all));
    let mut r = String::from_str("<!-- ");
    let body = crate::text::string_of(&out);
    r.append(body.as_str());
    r.append(" -->");
    r
}

} // verus!
