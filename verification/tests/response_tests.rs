use scratch::common::Version;
use scratch::headers::Headers;
use scratch::response::{Response, Status};

#[test]
fn serialize_status_line_headers_blank_line_body() {
    let resp: Response = Response::builder()
        .status(Status::OK)
        .header((String::from("Content-Type"), String::from("text/plain")))
        .body(b"pong".to_vec())
        .into();
    let bytes = resp.as_bytes();
    assert_eq!(
        bytes,
        b"HTTP/1.1 200 OK\nContent-Type: text/plain\n\npong".to_vec()
    );
}

#[test]
fn serialize_not_found_empty() {
    let resp: Response = Response::builder().status(Status::NotFound).into();
    assert_eq!(resp.as_bytes(), b"HTTP/1.1 404 Not Found\n\n".to_vec());
}

#[test]
fn serialize_keeps_binary_body() {
    let body = vec![0u8, 159, 146, 150, 255];
    let resp: Response = Response::builder().body(body.clone()).into();
    let bytes = resp.as_bytes();
    assert_eq!(&bytes[bytes.len() - body.len()..], body.as_slice());
    assert!(bytes.starts_with(b"HTTP/1.1 200 OK\n\n"));
}

#[test]
fn serialize_version() {
    let resp: Response = Response::builder()
        .version(Version { major: 1, minor: 0 })
        .status(Status::Teapot)
        .into();
    assert_eq!(resp.as_bytes(), b"HTTP/1.0 418 I'm a teapot\n\n".to_vec());
}

#[test]
fn builder_header_replaces() {
    let resp: Response = Response::builder()
        .header((String::from("X"), String::from("one")))
        .header((String::from("X"), String::from("two")))
        .into();
    assert_eq!(resp.headers().pairs.len(), 1);
    assert_eq!(resp.headers().get("X").map(|v| v.as_str()), Some("two"));
}

#[test]
fn builder_headers_wholesale() {
    let mut h = Headers::new();
    h.insert(String::from("A"), String::from("1"));
    h.insert(String::from("B"), String::from("2"));
    let resp: Response = Response::builder().headers(h).into();
    assert_eq!(resp.headers().pairs.len(), 2);
    assert_eq!(resp.headers().get("A").map(|v| v.as_str()), Some("1"));
    assert_eq!(resp.headers().get("B").map(|v| v.as_str()), Some("2"));
}

#[test]
fn status_codes() {
    assert_eq!(Status::Continue.code(), 100);
    assert_eq!(Status::OK.code(), 200);
    assert_eq!(Status::MovedPermanently.code(), 301);
    assert_eq!(Status::NotFound.code(), 404);
    assert_eq!(Status::Teapot.code(), 418);
    assert_eq!(Status::InternalServerError.code(), 500);
    assert_eq!(Status::NetworkAuthenticationRequired.code(), 511);
}

#[test]
fn status_texts() {
    assert_eq!(Status::Continue.text(), "Continue");
    assert_eq!(Status::OK.text(), "OK");
    assert_eq!(Status::NotFound.text(), "Not Found");
    assert_eq!(Status::RequestEntityTooLarge.text(), "Payload Too Large");
    assert_eq!(Status::InternalServerError.text(), "Internal Server Error");
}

#[test]
fn version_to_string() {
    assert_eq!(Version { major: 1, minor: 1 }.to_string(), "HTTP/1.1");
    assert_eq!(Version { major: 10, minor: 255 }.to_string(), "HTTP/10.255");
    assert_eq!(Version::default().to_string(), "HTTP/1.1");
}

#[test]
fn headers_insert_and_get() {
    let mut h = Headers::new();
    assert!(h.get("Host").is_none());
    h.insert(String::from("Host"), String::from("a"));
    h.insert(String::from("Host"), String::from("b"));
    assert_eq!(h.pairs.len(), 1);
    assert_eq!(h.get("Host").map(|v| v.as_str()), Some("b"));
    h.insert(String::from("Other"), String::from("c"));
    assert_eq!(h.pairs.len(), 2);
    assert_eq!(h.get("Other").map(|v| v.as_str()), Some("c"));
}
