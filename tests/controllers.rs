use shorty_cgi::controller::{
    quotation_page, quote_or_default, short_url_page, Controller, ErrorController, Page, QuotationController, Repository,
    RepositoryError, ShortUrlController, ShortUrlControllerParams,
};
use shorty_cgi::response::StatusCode;
use shorty_cgi::types::{ShortUrl, ShortUrlName, UnixTimestamp};

struct Store {
    urls: Vec<ShortUrl>,
    quotes: Vec<String>,
    broken: bool,
}

impl Repository for Store {
    fn get_url(&self, name: &ShortUrlName) -> Result<Option<ShortUrl>, RepositoryError> {
        if self.broken {
            return Err(RepositoryError { message: "no such table: urls".to_string() });
        }
        Ok(self.urls.iter().find(|u| &u.name == name).cloned())
    }

    fn get_random_quote(&self) -> Result<String, RepositoryError> {
        if self.broken {
            return Err(RepositoryError { message: "no such table: quotations".to_string() });
        }
        Ok(quote_or_default(self.quotes.first().cloned()))
    }
}

fn store(broken: bool) -> Store {
    Store {
        urls: vec![ShortUrl::new("surl", "https://example.com", Some(UnixTimestamp(1_700_000_000))).unwrap()],
        quotes: Vec::new(),
        broken,
    }
}

fn params(name: &str) -> ShortUrlControllerParams {
    ShortUrlControllerParams {
        name: ShortUrlName::try_from(name).unwrap(),
        page_url: "https://example.org/surl".to_string(),
    }
}

#[test]
fn short_url_found() {
    let controller = ShortUrlController::new(store(false));
    match controller.respond(params("SURL")).unwrap() {
        Page::ShortUrl(t) => {
            assert_eq!(t.page_url, "https://example.org/surl");
            assert_eq!(t.short_url.url.as_str(), "https://example.com/");
            let r = Page::ShortUrl(t).into_response("page".to_string(), "v1", UnixTimestamp(0));
            assert_eq!(r.status.code(), 200);
            assert!(r.headers.iter().any(|(k, v)| k == "etag" && v == "\"v1-1700000000\""));
        }
        other => panic!("unexpected page {other:?}"),
    }
}

#[test]
fn short_url_missing_is_not_found() {
    let controller = ShortUrlController::new(store(false));
    match controller.respond(params("abc")).unwrap() {
        Page::Error(t) => {
            assert_eq!(t.status_code.code(), 404);
            assert_eq!(t.details, "");
        }
        other => panic!("unexpected page {other:?}"),
    }
}

#[test]
fn short_url_store_failure_is_passed_on() {
    let controller = ShortUrlController::new(store(true));
    assert!(controller.respond(params("abc")).is_err());
}

#[test]
fn quotation_without_quotes_uses_the_default() {
    let controller = QuotationController::new(store(false));
    match controller.respond(()).unwrap() {
        Page::Quotation(t) => assert_eq!(t.quote, "Don't panic\n    -- Douglas Adams"),
        other => panic!("unexpected page {other:?}"),
    }
}

#[test]
fn quotation_store_failure_is_passed_on() {
    let controller = QuotationController::new(store(true));
    assert!(controller.respond(()).is_err());
}

#[test]
fn error_controller_keeps_status_and_details() {
    let teapot = StatusCode::from_u16(418).unwrap();
    match (ErrorController {}).respond((teapot, "short and stout".to_string())).unwrap() {
        Page::Error(t) => {
            assert_eq!(t.status_code, teapot);
            assert_eq!(t.details, "short and stout");
            let r = Page::Error(t).into_response("<h2>418</h2>".to_string(), "v1", UnixTimestamp(0));
            assert_eq!(r.status.code(), 418);
            assert_eq!(r.body, b"<h2>418</h2>".to_vec());
        }
        other => panic!("unexpected page {other:?}"),
    }
}

#[test]
fn short_url_page_for_each_store_answer() {
    let found = ShortUrl::new("surl", "https://example.com", None).unwrap();
    match short_url_page(Ok(Some(found.clone())), "https://example.org/surl".to_string()).unwrap() {
        Page::ShortUrl(t) => {
            assert_eq!(t.short_url, found);
            assert_eq!(t.page_url, "https://example.org/surl");
            let r = Page::ShortUrl(t).into_response("page".to_string(), "v1", UnixTimestamp(0));
            assert_eq!(r.headers, vec![("content-type".to_string(), "text/html".to_string())]);
        }
        other => panic!("unexpected page {other:?}"),
    }
    match short_url_page(Ok(None), String::new()).unwrap() {
        Page::Error(t) => assert_eq!(t.status_code.code(), 404),
        other => panic!("unexpected page {other:?}"),
    }
    let failure = RepositoryError { message: "disk".to_string() };
    assert_eq!(short_url_page(Err(failure.clone()), String::new()).unwrap_err(), failure);
}

#[test]
fn quotation_page_for_each_store_answer() {
    match quotation_page(Ok("A<>'\"".to_string())).unwrap() {
        Page::Quotation(t) => assert_eq!(t.quote, "A<>'\""),
        other => panic!("unexpected page {other:?}"),
    }
    let failure = RepositoryError { message: "disk".to_string() };
    assert_eq!(quotation_page(Err(failure.clone())).unwrap_err(), failure);
}
