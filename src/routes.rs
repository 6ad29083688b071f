//! What a request asks for, once the router has matched its path.

use vstd::prelude::*;

use crate::cgi_env::{Request, RequestView};
use crate::response::StatusCode;
use crate::text::{chars_of, str_eq};
use crate::types::{valid_short_url_name, ShortUrlName};
use crate::wire::{parse_status_code, status_code_of};

verus! {

/// The routes of the site, as the router matched the path of a request.
#[derive(Debug, Clone, PartialEq, Eq)]
pub enum RouteMatch {
    /// `/` or the empty path.
    Home,
    /// `/{short_url}`, with the segment it matched.
    ShortUrl(String),
    /// `/debug/env`.
    Debug,
    /// `/error/doc`, where the web server sends its error documents.
    ErrorDocument,
    /// Any other path.
    NotFound,
}

/// What the handler does for a request.
#[derive(Debug, Clone, PartialEq, Eq)]
pub enum Action {
    /// The error page with this status.
    Error(StatusCode),
    /// A random quotation.
    Quotation,
    /// The page of this short URL.
    ShortUrl(ShortUrlName),
    /// The environment and the request, as plain text.
    Debug,
}

/// Whether the URL has a non-empty query: a `?` that is not its last
/// character.
pub open spec fn has_query(uri: Seq<char>) -> bool {
    exists|i: int| 0 <= i < uri.len() - 1 && uri[i] == '?'
}

/// Whether the URL has a non-empty query.
pub fn query_present(uri: &str) -> (r: bool)
    ensures
        r == has_query(uri@),
{
    let cs = chars_of(uri);
    let mut i: usize = 0;
    while i < cs.len() && i + 1 < cs.len()
        invariant
            i <= cs.len(),
            cs@ == uri@,
            forall|j: int| 0 <= j < i && j < cs.len() - 1 ==> cs@[j] != '?',
        decreases cs.len() - i,
    {
        if cs[i] == '?' {
            return true;
        }
        i = i + 1;
    }
    false
}

/// The status an error document is served with: the one `REDIRECT_STATUS`
/// gives, 500 where it gives none.
pub open spec fn error_document_status(redirect_status: Option<Seq<char>>) -> u16 {
    match redirect_status {
        Some(s) => match status_code_of(s) {
            Some(c) => c,
            None => 500,
        },
        None => 500,
    }
}

/// The status an error document is served with.
pub fn error_document_code(redirect_status: Option<String>) -> (r: StatusCode)
    ensures
        r@ == error_document_status(
            match redirect_status {
                Some(s) => Some(s@),
                None => None,
            },
        ),
{
    match redirect_status {
        Some(s) => match parse_status_code(s.as_str()) {
            Some(c) => StatusCode::known(c),
            None => StatusCode::known(500),
        },
        None => StatusCode::known(500),
    }
}

/// What the handler does: only `GET` is served; the home page and short URL
/// pages take no query; a segment that is no valid name is not found.
pub open spec fn action_is(
    a: Action,
    request: RequestView,
    route: RouteMatch,
    redirect_status: Option<Seq<char>>,
) -> bool {
    if request.method != "GET"@ {
        a == Action::Error(StatusCode::spec_known(405))
    } else {
        match route {
            RouteMatch::Home => if has_query(request.uri) {
                a == Action::Error(StatusCode::spec_known(400))
            } else {
                a == Action::Quotation
            },
            RouteMatch::ShortUrl(segment) => if has_query(request.uri) {
                a == Action::Error(StatusCode::spec_known(400))
            } else if valid_short_url_name(segment@) {
                a matches Action::ShortUrl(n) && n@ == segment@
            } else {
                a == Action::Error(StatusCode::spec_known(404))
            },
            RouteMatch::NotFound => a == Action::Error(StatusCode::spec_known(404)),
            RouteMatch::Debug => a == Action::Debug,
            RouteMatch::ErrorDocument => a matches Action::Error(s) && s@ == error_document_status(
                redirect_status,
            ),
        }
    }
}

/// Decides what to do with a request whose path the router matched as
/// `route`; `redirect_status` is the value of `REDIRECT_STATUS`.
pub fn dispatch(request: &Request, route: RouteMatch, redirect_status: Option<String>) -> (r: Action)
    ensures
        action_is(
            r,
            request@,
            route,
            match redirect_status {
                Some(s) => Some(s@),
                None => None,
            },
        ),
{
    if !str_eq(request.method(), "GET") {
        return Action::Error(StatusCode::known(405));
    }
    match route {
        RouteMatch::Home => if query_present(request.uri()) {
            Action::Error(StatusCode::known(400))
        } else {
            Action::Quotation
        },
        RouteMatch::ShortUrl(segment) => if query_present(request.uri()) {
            Action::Error(StatusCode::known(400))
        } else {
            match ShortUrlName::parse(segment.as_str()) {
                Ok(n) => Action::ShortUrl(n),
                Err(_) => Action::Error(StatusCode::known(404)),
            }
        },
        RouteMatch::NotFound => Action::Error(StatusCode::known(404)),
        RouteMatch::Debug => Action::Debug,
        RouteMatch::ErrorDocument => Action::Error(error_document_code(redirect_status)),
    }
}

} // verus!
