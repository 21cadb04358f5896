use scratch::common::NetError;
use scratch::mem::MemSocket;
use scratch::request::Request;
use scratch::response::{Response, Status};
use scratch::router::{HandlerFunc, Router};
use scratch::server::{serve_connection, serve_request};
use scratch::tcp::TcpStream;

fn ping_router() -> Router<HandlerFunc<fn(Request) -> Result<Response, NetError>>> {
    let mut router = Router::new();
    let pong: fn(Request) -> Result<Response, NetError> = |_req| {
        Ok(Response::builder()
            .status(Status::OK)
            .header((String::from("Content-Type"), String::from("text/plain")))
            .body(b"pong".to_vec())
            .into())
    };
    router.get("/ping", HandlerFunc::new(pong));
    router
}

#[test]
fn end_to_end_ping() {
    let router = ping_router();
    let sock = MemSocket::with_input(b"GET /ping HTTP/1.1\r\nHost: test\r\n\r\n".to_vec());
    let mut stream = TcpStream { inner: sock };
    let result = serve_connection(&mut stream, &router);
    assert!(result.is_ok());
    assert_eq!(
        stream.inner.written(),
        &b"HTTP/1.1 200 OK\nContent-Type: text/plain\n\npong".to_vec()
    );
}

#[test]
fn unknown_method_closes_without_response() {
    let router = ping_router();
    let sock = MemSocket::with_input(b"FROB /ping HTTP/1.1\r\nHost: test\r\n\r\n".to_vec());
    let mut stream = TcpStream { inner: sock };
    let result = serve_connection(&mut stream, &router);
    assert_eq!(result.unwrap_err(), NetError::Parse);
    assert!(stream.inner.written().is_empty());
}

#[test]
fn missing_terminator_closes_without_response() {
    let router = ping_router();
    let sock = MemSocket::with_input(b"GET /ping HTTP/1.1\r\nHost: test\r\n".to_vec());
    let mut stream = TcpStream { inner: sock };
    let result = serve_connection(&mut stream, &router);
    assert_eq!(result.unwrap_err(), NetError::Parse);
    assert!(stream.inner.written().is_empty());
}

#[test]
fn serve_request_parse_failure() {
    let router = ping_router();
    let got = serve_request("not a request", &router);
    assert_eq!(got.unwrap_err(), NetError::Parse);
}

#[test]
fn serve_request_handler_failure() {
    let mut router = Router::new();
    let failing: fn(Request) -> Result<Response, NetError> = |_req| Err(NetError::Transport);
    router.get("/ping", HandlerFunc::new(failing));
    let got = serve_request("GET /ping HTTP/1.1\r\nHost: test\r\n\r\n", &router);
    assert_eq!(got.unwrap_err(), NetError::Handler);
}

#[test]
fn serve_request_miss_serializes_not_found() {
    let router = ping_router();
    let bytes = serve_request("GET /other HTTP/1.1\r\nHost: test\r\n\r\n", &router).unwrap();
    assert_eq!(bytes, b"HTTP/1.1 404 Not Found\n\n".to_vec());
}
