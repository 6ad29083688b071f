use shorty_cgi::cgi_env::CgiEnv;
use shorty_cgi::controller::{
    comment, html_response, is_tag_safe, quotation_response, short_url_response, text_response,
};
use shorty_cgi::response::StatusCode;
use shorty_cgi::routes::{dispatch, error_document_code, query_present, Action, RouteMatch};
use shorty_cgi::types::{ShortUrlName, UnixTimestamp};

fn header<'a>(headers: &'a [(String, String)], name: &str) -> Option<&'a str> {
    headers.iter().find(|(k, _)| k == name).map(|(_, v)| v.as_str())
}

#[test]
fn html_and_text_content_types() {
    let r = html_response(StatusCode::from_u16(418).unwrap(), "<p>x</p>".to_string());
    assert_eq!(r.status.code(), 418);
    assert_eq!(header(&r.headers, "content-type"), Some("text/html"));
    assert_eq!(r.body, b"<p>x</p>".to_vec());
    let r = text_response(StatusCode::from_u16(500).unwrap(), "oops");
    assert_eq!(header(&r.headers, "content-type"), Some("text/plain; charset=utf-8"));
}

#[test]
fn short_url_page_carries_caching_headers() {
    let r = short_url_response("page".to_string(), UnixTimestamp(784111777), "v1.2-3-gabc");
    assert_eq!(r.status.code(), 200);
    assert_eq!(header(&r.headers, "etag"), Some("\"v1.2-3-gabc-784111777\""));
    assert_eq!(header(&r.headers, "last-modified"), Some("Sun, 06 Nov 1994 08:49:37 GMT"));
    assert_eq!(header(&r.headers, "cache-control"), Some("public, s-maxage=300, proxy-revalidate"));
    assert_eq!(r.headers.len(), 4);
}

#[test]
fn tag_safety_of_build_identifiers() {
    assert!(is_tag_safe("v1.2-3-gabc"));
    assert!(!is_tag_safe("a\"b"));
    assert!(!is_tag_safe("a\u{7f}"));
}

#[test]
fn quotation_page_expires_after_a_day() {
    let r = quotation_response("q".to_string(), UnixTimestamp(0));
    assert_eq!(header(&r.headers, "expires"), Some("Fri, 02 Jan 1970 00:00:00 GMT"));
}

fn request(method: &str, uri: &str) -> shorty_cgi::cgi_env::Request {
    let vars = [
        ("REQUEST_METHOD", method),
        ("REQUEST_SCHEME", "http"),
        ("REQUEST_URI", uri),
        ("SERVER_NAME", "localhost"),
        ("SERVER_PROTOCOL", "HTTP/1.0"),
    ];
    CgiEnv::new(vars.iter().map(|(k, v)| (k.to_string(), v.to_string())).collect())
        .new_request()
        .unwrap()
}

fn error_code(a: Action) -> u16 {
    match a {
        Action::Error(s) => s.code(),
        other => panic!("not an error: {other:?}"),
    }
}

#[test]
fn dispatch_decisions() {
    let get = request("GET", "/");
    assert_eq!(dispatch(&get, RouteMatch::Home, None), Action::Quotation);
    assert_eq!(error_code(dispatch(&request("POST", "/"), RouteMatch::Home, None)), 405);
    assert_eq!(error_code(dispatch(&request("GET", "/?a"), RouteMatch::Home, None)), 400);
    assert_eq!(dispatch(&request("GET", "/?"), RouteMatch::Home, None), Action::Quotation);
    assert_eq!(
        dispatch(&get, RouteMatch::ShortUrl("surl".to_string()), None),
        Action::ShortUrl(ShortUrlName::try_from("surl").unwrap())
    );
    assert_eq!(error_code(dispatch(&get, RouteMatch::ShortUrl("s".to_string()), None)), 404);
    assert_eq!(error_code(dispatch(&get, RouteMatch::NotFound, None)), 404);
    assert_eq!(dispatch(&get, RouteMatch::Debug, None), Action::Debug);
    assert_eq!(error_code(dispatch(&get, RouteMatch::ErrorDocument, Some("403".to_string()))), 403);
    assert_eq!(error_code(dispatch(&get, RouteMatch::ErrorDocument, None)), 500);
}

#[test]
fn error_document_status_parsing() {
    assert_eq!(error_document_code(Some("404".to_string())).code(), 404);
    assert_eq!(error_document_code(Some("099".to_string())).code(), 500);
    assert_eq!(error_document_code(Some("4040".to_string())).code(), 500);
    assert_eq!(error_document_code(Some("abc".to_string())).code(), 500);
}

#[test]
fn query_detection() {
    assert!(!query_present("http://h/a"));
    assert!(!query_present("http://h/a?"));
    assert!(query_present("http://h/a?b"));
}

#[test]
fn comments_cannot_be_closed_early() {
    assert_eq!(comment("a--b---c"), "<!-- a__b__-c -->");
    assert_eq!(comment("-->"), "<!-- __> -->");
    assert_eq!(comment(""), "<!--  -->");
    assert_eq!(comment("-"), "<!-- - -->");
}
