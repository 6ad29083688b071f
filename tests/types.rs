use shorty_cgi::types::{InvalidShortUrl, ShortUrl, ShortUrlName, UnixTimestamp, Url};

#[test]
fn test_short_url_name_try_from_too_short() {
    let result = ShortUrlName::try_from("a");
    assert!(result.is_err());
}

#[test]
fn test_short_url_name_try_from_too_long() {
    let result = ShortUrlName::try_from("a".repeat(17).as_str());
    assert!(result.is_err());
}

#[test]
fn test_short_url_name_try_from_invalid_chars() {
    let result = ShortUrlName::try_from("abc$");
    assert!(result.is_err());
}

#[test]
fn test_short_url_name_try_from_valid() {
    let result = ShortUrlName::try_from("-abc_");
    assert!(result.is_ok());
}

#[test]
fn test_url_try_from_valid() {
    let result = Url::try_from("http://localhost/");
    assert!(result.is_ok());
}

#[test]
fn test_url_try_from_invalid_scheme() {
    let result = Url::try_from("ftp://localhost/");
    assert!(result.is_err());
}

#[test]
fn test_url_with_username() {
    let result = Url::try_from("http://user@localhost/");
    assert!(result.is_err());
}

#[test]
fn test_url_with_password() {
    let result = Url::try_from("http://:pass@localhost/");
    assert!(result.is_err());
}

#[test]
fn name_length_bounds() {
    assert!(ShortUrlName::try_from("ab").is_ok());
    assert!(ShortUrlName::try_from("a".repeat(16).as_str()).is_ok());
    assert_eq!(ShortUrlName::MIN_LENGTH, 2);
    assert_eq!(ShortUrlName::MAX_LENGTH, 16);
    assert!(ShortUrlName::try_from("ab\u{e9}").is_err());
    assert!(ShortUrlName::try_from("").is_err());
}

#[test]
fn names_compare_without_ascii_case() {
    let a = ShortUrlName::try_from("Surl").unwrap();
    let b = ShortUrlName::try_from("sURL").unwrap();
    let c = ShortUrlName::try_from("surl2").unwrap();
    assert!(a == b);
    assert!(a != c);
    assert_eq!(a.as_str(), "Surl");
}

#[test]
fn url_is_kept_in_normal_form() {
    let url = Url::try_from("https://example.com").unwrap();
    assert_eq!(url.as_str(), "https://example.com/");
    assert!(Url::try_from("not a url").is_err());
}

#[test]
fn short_url_reports_the_first_invalid_part() {
    let ok = ShortUrl::new("surl", "https://example.com", Some(UnixTimestamp::default())).unwrap();
    assert_eq!(ok.url.as_str(), "https://example.com/");
    assert_eq!(ok.name.as_str(), "surl");
    assert_eq!(ShortUrl::new("s", "ftp://x/", None).unwrap_err(), InvalidShortUrl::InvalidName);
    assert_eq!(ShortUrl::new("surl", "ftp://x/", Some(UnixTimestamp(0))).unwrap_err(), InvalidShortUrl::InvalidUrl);
    assert_eq!(InvalidShortUrl::InvalidUrl.message(), "Invalid short URL url");
}

#[test]
fn timestamps_render() {
    assert_eq!(UnixTimestamp(0).iso8601().unwrap(), "1970-01-01T00:00:00Z");
    assert_eq!(UnixTimestamp(1_000_000_000).iso8601().unwrap(), "2001-09-09T01:46:40Z");
    assert!(UnixTimestamp(u64::MAX).iso8601().is_none());
    assert_eq!(UnixTimestamp(1234).to_string(), "1234");
    assert_eq!(UnixTimestamp(0).to_string(), "0");
}
