use shorty_cgi::response::{create_etag, serialize_response, Response, StatusCode};
use std::time::{SystemTime, UNIX_EPOCH};

fn now() -> u64 {
    SystemTime::now().duration_since(UNIX_EPOCH).unwrap().as_secs()
}

fn status(code: u16) -> StatusCode {
    StatusCode::from_u16(code).unwrap()
}

fn hello(code: u16) -> Response {
    let mut response = Response::new(status(code), b"Hello, world!".to_vec());
    response.append_header("Content-Type", "text/plain").unwrap();
    response
}

fn text(out: Vec<u8>) -> String {
    String::from_utf8(out).unwrap()
}

#[test]
fn test_serialize_response() {
    let response = hello(200);
    let out = text(serialize_response(response, now()).unwrap());
    assert!(out.contains("Status: 200 OK\r\n"));
    assert!(out.contains("\r\ncontent-length: 13\r\n"));
    assert!(out.contains("\r\ncontent-type: text/plain\r\n"));
    assert!(out.contains("\r\ndate: "));
    assert!(out.contains("\r\netag: "));
    assert!(out.contains("\r\n\r\nHello, world!"));
}

#[test]
fn test_serialize_response_etag_already_present() {
    let mut response = hello(200);
    response.append_header("ETag", "\"d'oh\"").unwrap();
    let out = text(serialize_response(response, now()).unwrap());
    assert!(out.contains("Status: 200 OK\r\n"));
    assert!(out.contains("\r\ncontent-length: 13\r\n"));
    assert!(out.contains("\r\ncontent-type: text/plain\r\n"));
    assert!(out.contains("\r\ndate: "));
    assert!(out.contains("\r\netag: \"d'oh\"\r\n"));
    assert!(out.contains("\r\n\r\nHello, world!"));
}

fn serialize_response_no_content(code: u16) {
    let body = "Hello, world!";
    let response = Response::new(status(code), body.as_bytes().to_vec());
    let out = text(serialize_response(response, now()).unwrap());
    assert!(!out.contains("content-length"));
    assert!(!out.contains(body));
    assert!(out.ends_with("GMT\r\n\r\n"));
}

#[test]
fn test_serialize_response_no_content_204() {
    serialize_response_no_content(204);
}

#[test]
fn test_serialize_response_no_content_304() {
    serialize_response_no_content(304);
}

#[test]
fn test_create_etag() {
    create_etag(b"abc");
}

#[test]
fn etag_is_quoted_xxh3_hex() {
    let expected = format!("\"{:x}\"", xxhash_rust::xxh3::xxh3_64(b"abc"));
    assert_eq!(create_etag(b"abc"), expected);
    assert_ne!(create_etag(b"abc"), "abc");
    assert_ne!(create_etag(b"abc"), create_etag(b"abd"));
}

#[test]
fn exact_output_at_the_epoch() {
    let response = hello(200);
    let out = text(serialize_response(response, 0).unwrap());
    let etag = format!("\"{:x}\"", xxhash_rust::xxh3::xxh3_64(b"Hello, world!"));
    let expected = format!(
        "Status: 200 OK\r\ncontent-type: text/plain\r\netag: {etag}\r\ndate: Thu, 01 Jan 1970 00:00:00 GMT\r\ncontent-length: 13\r\n\r\nHello, world!"
    );
    assert_eq!(out, expected);
}

#[test]
fn not_found_gets_an_etag_but_other_statuses_do_not() {
    let out = text(serialize_response(hello(404), 0).unwrap());
    assert!(out.starts_with("Status: 404 Not Found\r\n"));
    assert!(out.contains("\r\netag: \""));
    let out = text(serialize_response(hello(500), 0).unwrap());
    assert!(out.starts_with("Status: 500 Internal Server Error\r\n"));
    assert!(!out.contains("etag"));
    assert!(out.contains("\r\ncontent-length: 13\r\n"));
}

#[test]
fn bodiless_output_is_exactly_the_head() {
    let out = text(serialize_response(Response::new(status(304), b"ignored".to_vec()), 784111777).unwrap());
    assert_eq!(out, "Status: 304 Not Modified\r\ndate: Sun, 06 Nov 1994 08:49:37 GMT\r\n\r\n");
}

#[test]
fn unknown_status_gets_a_placeholder_reason() {
    let out = text(serialize_response(Response::new(status(599), Vec::new()), 0).unwrap());
    assert!(out.starts_with("Status: 599 <unknown status code>\r\n"));
    assert!(out.contains("\r\ncontent-length: 0\r\n"));
}

#[test]
fn existing_date_and_length_are_replaced_in_place() {
    let mut response = hello(500);
    response.append_header("Date", "yesterday").unwrap();
    response.append_header("Content-Length", "99").unwrap();
    response.append_header("X-Extra", "1").unwrap();
    response.append_header("date", "again").unwrap();
    let out = text(serialize_response(response, 0).unwrap());
    assert_eq!(
        out,
        "Status: 500 Internal Server Error\r\ncontent-type: text/plain\r\ndate: Thu, 01 Jan 1970 00:00:00 GMT\r\ncontent-length: 13\r\nx-extra: 1\r\n\r\nHello, world!"
    );
}

#[test]
fn serializing_twice_with_a_fixed_clock_is_identical() {
    let response = hello(200);
    let first = serialize_response(response.clone(), 1_700_000_000).unwrap();
    let second = serialize_response(response, 1_700_000_000).unwrap();
    assert_eq!(first, second);
}

#[test]
fn serializing_prepared_headers_again_changes_nothing() {
    for code in [200, 204, 304, 404, 500] {
        let response = hello(code);
        let mut prepared = response.clone();
        prepared.prepare_headers(1_700_000_000);
        let first = serialize_response(response, 1_700_000_000).unwrap();
        let second = serialize_response(prepared, 1_700_000_000).unwrap();
        assert_eq!(first, second);
    }
}

#[test]
fn invalid_headers_are_refused() {
    let mut response = hello(200);
    assert!(response.append_header("Bad Name", "x").is_err());
    assert!(response.append_header("X-Ok", "a\nb").is_err());
    assert_eq!(response.headers.len(), 1);
}

#[test]
fn status_codes_out_of_range_are_refused() {
    assert!(StatusCode::from_u16(99).is_none());
    assert!(StatusCode::from_u16(1000).is_none());
    assert_eq!(StatusCode::from_u16(100).unwrap().code(), 100);
    assert_eq!(StatusCode::from_u16(999).unwrap().code(), 999);
}

#[test]
fn bodiless_responses_drop_a_preset_content_length() {
    for code in [204, 304] {
        let mut response = Response::new(status(code), b"body".to_vec());
        response.append_header("Content-Length", "4").unwrap();
        response.append_header("X-Kept", "yes").unwrap();
        let out = text(serialize_response(response, 0).unwrap());
        assert!(!out.to_ascii_lowercase().contains("content-length"));
        assert!(out.contains("\r\nx-kept: yes\r\n"));
        assert!(out.ends_with("GMT\r\n\r\n"));
    }
}

#[test]
fn a_preset_etag_is_found_whatever_the_case_of_its_name() {
    let mut response = hello(200);
    response.headers.push(("ETag".to_string(), "\"mine\"".to_string()));
    let out = text(serialize_response(response, 0).unwrap());
    assert!(out.contains("\r\nETag: \"mine\"\r\n"));
    assert_eq!(out.to_ascii_lowercase().matches("etag:").count(), 1);
}

#[test]
fn a_preset_date_in_another_case_is_replaced() {
    let mut response = hello(500);
    response.headers.push(("DATE".to_string(), "someday".to_string()));
    let out = text(serialize_response(response, 0).unwrap());
    assert!(out.contains("\r\ndate: Thu, 01 Jan 1970 00:00:00 GMT\r\n"));
    assert!(!out.contains("someday"));
}
