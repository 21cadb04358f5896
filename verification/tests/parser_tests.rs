use scratch::common::{Parse, Url, Version};
use scratch::headers::Headers;
use scratch::request::{Method, Request};
use scratch::text::{parse_u16, parse_u8};

const SAMPLE_REQUEST: &str = "GET /hello.htm HTTP/1.1\r\nUser-Agent: Mozilla/4.0 (compatible; MSIE5.01; Windows NT)\r\nHost: www.tutorialspoint.com\r\nAccept-Language: en-us\r\nAccept-Encoding: gzip, deflate\r\nConnection: Keep-Alive\r\n\r\n";

const BAD_REQUEST: &str = "GET /hello.htm HTTP/1.1\r\nUser-Agent: Mozilla/4.0 (compatible; MSIE5.01; Windows NT)\r\nHost: www.tutorialspoint.com\r\nAccept-Language en-us\r\nAccept-Encoding: gzip, deflate\r\nConnection: Keep-Alive\r\n\r\n";

const SAMPLE_REQUEST_URL: &str = "/hello.htm HTTP/1.1\r\nUser-Agent: Mozilla/4.0 (compatible; MSIE5.01; Windows NT)\r\nHost: www.tutorialspoint.com\r\nAccept-Language: en-us\r\nAccept-Encoding: gzip, deflate\r\nConnection: Keep-Alive\r\n\r\n";

const SAMPLE_REQUEST_VERSION: &str = "HTTP/1.1\r\nUser-Agent: Mozilla/4.0 (compatible; MSIE5.01; Windows NT)\r\nHost: www.tutorialspoint.com\r\nAccept-Language: en-us\r\nAccept-Encoding: gzip, deflate\r\nConnection: Keep-Alive\r\n\r\n";

const SAMPLE_REQUEST_HEADERS: &str = "User-Agent: Mozilla/4.0 (compatible; MSIE5.01; Windows NT)\r\nHost: www.tutorialspoint.com\r\nAccept-Language: en-us\r\nAccept-Encoding: gzip, deflate\r\nConnection: Keep-Alive\r\n\r\n";

#[test]
fn parser_good_parse() {
    assert!(Request::parse(SAMPLE_REQUEST).is_ok());
}

#[test]
fn parser_bad_parse() {
    assert!(Request::parse(BAD_REQUEST).is_err());
}

#[test]
fn parser_parse_method() {
    let parsed = Method::parse(SAMPLE_REQUEST);
    assert!(parsed.is_ok() && parsed.unwrap().0 == SAMPLE_REQUEST_URL);
}

#[test]
fn parser_parse_url() {
    let parsed = Url::parse(SAMPLE_REQUEST_URL);
    assert!(parsed.is_ok() && parsed.unwrap().0 == SAMPLE_REQUEST_VERSION);
}

#[test]
fn parser_parse_version() {
    let parsed = Version::parse(SAMPLE_REQUEST_VERSION);
    assert!(parsed.is_ok());
}

#[test]
fn parser_parse_headers() {
    let parsed = Headers::parse(SAMPLE_REQUEST_HEADERS);
    assert!(parsed.is_ok() && parsed.unwrap().0 == "");
}

#[test]
fn parser_version_values() {
    let (rest, v) = Version::parse("HTTP/2.0\r\ntail").unwrap();
    assert_eq!(rest, "tail");
    assert_eq!((v.major, v.minor), (2, 0));
}

#[test]
fn parser_version_skips_prefix() {
    let (_, v) = Version::parse("xHTTP/1.1\r\n").unwrap();
    assert_eq!((v.major, v.minor), (1, 1));
}

#[test]
fn parser_version_extra_component_ignored() {
    let (_, v) = Version::parse("HTTP/1.1.9\r\n").unwrap();
    assert_eq!((v.major, v.minor), (1, 1));
}

#[test]
fn parser_version_rejects_bad_numbers() {
    assert!(Version::parse("HTTP/1\r\n").is_err());
    assert!(Version::parse("HTTP/a.1\r\n").is_err());
    assert!(Version::parse("HTTP/1.\r\n").is_err());
    assert!(Version::parse("HTTP/999.1\r\n").is_err());
    assert!(Version::parse("HTP/1.1\r\n").is_err());
    assert!(Version::parse("HTTP/1.1").is_err());
}

#[test]
fn parser_decimal_numbers() {
    assert_eq!(parse_u8("0"), Some(0));
    assert_eq!(parse_u8("007"), Some(7));
    assert_eq!(parse_u8("255"), Some(255));
    assert_eq!(parse_u8("256"), None);
    assert_eq!(parse_u8(""), None);
    assert_eq!(parse_u8("+1"), None);
    assert_eq!(parse_u8("1a"), None);
    assert_eq!(parse_u16("65535"), Some(65535));
    assert_eq!(parse_u16("65536"), None);
    assert_eq!(parse_u16("99999999999999999999"), None);
}

#[test]
fn parser_headers_empty_line_only() {
    let (rest, headers) = Headers::parse("\r\nbody text").unwrap();
    assert_eq!(rest, "body text");
    assert_eq!(headers.pairs.len(), 0);
}

#[test]
fn parser_header_value_with_separator() {
    let (_, headers) = Headers::parse("Link: a: b\r\n\r\n").unwrap();
    assert_eq!(headers.get("Link").map(|v| v.as_str()), Some("a: b"));
}

#[test]
fn parser_url_token() {
    let (rest, url) = Url::parse("/path?q=1 tail").unwrap();
    assert_eq!(rest, "tail");
    assert_eq!(url.path(), "/path?q=1");
}

#[test]
fn parser_url_needs_space() {
    assert!(Url::parse("/nospace").is_err());
}
