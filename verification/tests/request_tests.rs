use scratch::common::{Parse, Url, Version};
use scratch::headers::Headers;
use scratch::request::{Method, Request};

const SAMPLE_REQUEST: &str = "GET /hello.htm HTTP/1.1\r\nUser-Agent: Mozilla/4.0 (compatible; MSIE5.01; Windows NT)\r\nHost: www.tutorialspoint.com\r\nAccept-Language: en-us\r\nAccept-Encoding: gzip, deflate\r\nConnection: Keep-Alive\r\n\r\n";

const BAD_REQUEST: &str = "GET /hello.htm HTTP/1.1\r\nUser-Agent: Mozilla/4.0 (compatible; MSIE5.01; Windows NT)\r\nHost: www.tutorialspoint.com\r\nAccept-Language en-us\r\nAccept-Encoding: gzip, deflate\r\nConnection: Keep-Alive\r\n\r\n";

const SAMPLE_REQUEST_URL: &str = "/hello.htm HTTP/1.1\r\nUser-Agent: Mozilla/4.0 (compatible; MSIE5.01; Windows NT)\r\nHost: www.tutorialspoint.com\r\nAccept-Language: en-us\r\nAccept-Encoding: gzip, deflate\r\nConnection: Keep-Alive\r\n\r\n";

const SAMPLE_REQUEST_VERSION: &str = "HTTP/1.1\r\nUser-Agent: Mozilla/4.0 (compatible; MSIE5.01; Windows NT)\r\nHost: www.tutorialspoint.com\r\nAccept-Language: en-us\r\nAccept-Encoding: gzip, deflate\r\nConnection: Keep-Alive\r\n\r\n";

const SAMPLE_REQUEST_HEADERS: &str = "User-Agent: Mozilla/4.0 (compatible; MSIE5.01; Windows NT)\r\nHost: www.tutorialspoint.com\r\nAccept-Language: en-us\r\nAccept-Encoding: gzip, deflate\r\nConnection: Keep-Alive\r\n\r\n";

#[test]
fn request_good_parse() {
    assert!(Request::parse(SAMPLE_REQUEST).is_ok());
}

#[test]
fn request_bad_parse() {
    assert!(Request::parse(BAD_REQUEST).is_err());
}

#[test]
fn request_parse_method() {
    let parsed = Method::parse(SAMPLE_REQUEST);
    assert!(parsed.is_ok() && parsed.unwrap().0 == SAMPLE_REQUEST_URL);
}

#[test]
fn request_parse_url() {
    let parsed = Url::parse(SAMPLE_REQUEST_URL);
    assert!(parsed.is_ok() && parsed.unwrap().0 == SAMPLE_REQUEST_VERSION);
}

#[test]
fn request_parse_version() {
    let parsed = Version::parse(SAMPLE_REQUEST_VERSION);
    assert!(parsed.is_ok());
}

#[test]
fn request_parse_headers() {
    let parsed = Headers::parse(SAMPLE_REQUEST_HEADERS);
    assert!(parsed.is_ok() && parsed.unwrap().0 == "");
}

#[test]
fn request_parse_fields() {
    let req = Request::parse(SAMPLE_REQUEST).unwrap();
    assert_eq!(*req.method(), Method::GET);
    assert_eq!(req.url().path(), "/hello.htm");
    assert_eq!(req.version().major, 1);
    assert_eq!(req.version().minor, 1);
    assert_eq!(req.body(), "");
    let headers = req.headers();
    assert_eq!(headers.pairs.len(), 5);
    assert_eq!(
        headers.get("Host").map(|v| v.as_str()),
        Some("www.tutorialspoint.com")
    );
    assert_eq!(headers.get("Accept-Language").map(|v| v.as_str()), Some("en-us"));
    assert!(headers.get("Cookie").is_none());
}

#[test]
fn request_parse_body() {
    let req = Request::parse("POST /submit HTTP/1.0\r\nHost: a\r\n\r\nkey=value").unwrap();
    assert_eq!(*req.method(), Method::POST);
    assert_eq!(req.version().major, 1);
    assert_eq!(req.version().minor, 0);
    assert_eq!(req.body(), "key=value");
}

#[test]
fn request_missing_terminator() {
    assert!(Request::parse("GET / HTTP/1.1\r\nHost: a\r\n").is_err());
}

#[test]
fn request_duplicate_header_last_wins() {
    let req = Request::parse("GET / HTTP/1.1\r\nX: one\r\nX: two\r\n\r\n").unwrap();
    assert_eq!(req.headers().pairs.len(), 1);
    assert_eq!(req.headers().get("X").map(|v| v.as_str()), Some("two"));
}

#[test]
fn request_connect_token_rejected() {
    assert!(Method::from_token("CONNECT").is_err());
    assert!(Request::parse("CONNECT / HTTP/1.1\r\n\r\n").is_err());
}

#[test]
fn request_method_tokens() {
    assert_eq!(Method::from_token("OPTIONS").unwrap(), Method::OPTIONS);
    assert_eq!(Method::from_token("GET").unwrap(), Method::GET);
    assert_eq!(Method::from_token("HEAD").unwrap(), Method::HEAD);
    assert_eq!(Method::from_token("POST").unwrap(), Method::POST);
    assert_eq!(Method::from_token("PUT").unwrap(), Method::PUT);
    assert_eq!(Method::from_token("DELETE").unwrap(), Method::DELETE);
    assert_eq!(Method::from_token("TRACE").unwrap(), Method::TRACE);
    assert!(Method::from_token("FROB").is_err());
}

#[test]
fn request_builder_defaults() {
    let req: Request = Request::builder().into();
    assert_eq!(*req.method(), Method::GET);
    assert_eq!(req.url().path(), "");
    assert_eq!(req.version().major, 1);
    assert_eq!(req.version().minor, 1);
    assert_eq!(req.body(), "");
    assert_eq!(req.headers().pairs.len(), 0);
}

#[test]
fn request_builder_parts() {
    let req: Request = Request::builder()
        .method(Method::PUT)
        .url(Url::with_path("/res"))
        .version(Version { major: 1, minor: 0 })
        .body(String::from("data"))
        .into();
    assert_eq!(*req.method(), Method::PUT);
    assert_eq!(req.url().path(), "/res");
    assert_eq!(req.version().major, 1);
    assert_eq!(req.version().minor, 0);
    assert_eq!(req.body(), "data");
}
