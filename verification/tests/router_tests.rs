use std::cell::Cell;
use std::rc::Rc;

use scratch::common::{NetError, Url};
use scratch::request::{Method, Request};
use scratch::response::{Response, Status};
use scratch::router::{Handler, HandlerFunc, Router};

fn request_for(method: Method, path: &str) -> Request {
    Request::builder().method(method).url(Url::with_path(path)).into()
}

#[test]
fn dispatch_invokes_registered_handler_once() {
    let count = Rc::new(Cell::new(0u32));
    let seen = count.clone();
    let mut router = Router::new();
    router.get(
        "/x",
        HandlerFunc::new(move |_req: Request| {
            seen.set(seen.get() + 1);
            Ok(Response::builder().status(Status::OK).body(b"hit".to_vec()).into())
        }),
    );
    let resp = router.handle(request_for(Method::GET, "/x")).unwrap();
    assert_eq!(count.get(), 1);
    assert_eq!(resp.status().code(), 200);
    assert_eq!(resp.body(), &b"hit".to_vec());
}

#[test]
fn dispatch_method_miss_is_not_found() {
    let count = Rc::new(Cell::new(0u32));
    let seen = count.clone();
    let mut router = Router::new();
    router.get(
        "/x",
        HandlerFunc::new(move |_req: Request| {
            seen.set(seen.get() + 1);
            Ok(Response::builder().into())
        }),
    );
    let resp = router.handle(request_for(Method::POST, "/x")).unwrap();
    assert_eq!(count.get(), 0);
    assert_eq!(resp.status().code(), 404);
    assert!(resp.body().is_empty());
}

#[test]
fn dispatch_url_miss_is_not_found() {
    let mut router = Router::new();
    router.get(
        "/x",
        HandlerFunc::new(|_req: Request| Ok(Response::builder().into())),
    );
    let resp = router.handle(request_for(Method::GET, "/y")).unwrap();
    assert_eq!(resp.status().code(), 404);
    assert!(resp.body().is_empty());
}

#[test]
fn dispatch_empty_router_is_not_found() {
    let router: Router<HandlerFunc<fn(Request) -> Result<Response, NetError>>> = Router::new();
    let resp = router.handle(request_for(Method::DELETE, "/")).unwrap();
    assert_eq!(resp.status().code(), 404);
}

#[test]
fn route_replaces_same_pair() {
    let mut router = Router::new();
    let first: fn(Request) -> Result<Response, NetError> =
        |_req| Ok(Response::builder().status(Status::OK).into());
    let second: fn(Request) -> Result<Response, NetError> =
        |_req| Ok(Response::builder().status(Status::Accepted).into());
    router.route(Method::GET, "/x", HandlerFunc::new(first));
    router.route(Method::GET, "/x", HandlerFunc::new(second));
    let resp = router.handle(request_for(Method::GET, "/x")).unwrap();
    assert_eq!(resp.status().code(), 202);
}

#[test]
fn route_verbs_share_url() {
    let mut router = Router::new();
    let ok: fn(Request) -> Result<Response, NetError> =
        |_req| Ok(Response::builder().status(Status::OK).into());
    let made: fn(Request) -> Result<Response, NetError> =
        |_req| Ok(Response::builder().status(Status::Created).into());
    router.get("/r", HandlerFunc::new(ok));
    router.post("/r", HandlerFunc::new(made));
    assert_eq!(
        router.handle(request_for(Method::GET, "/r")).unwrap().status().code(),
        200
    );
    assert_eq!(
        router.handle(request_for(Method::POST, "/r")).unwrap().status().code(),
        201
    );
    assert_eq!(
        router.handle(request_for(Method::PUT, "/r")).unwrap().status().code(),
        404
    );
}

#[test]
fn handler_error_propagates() {
    let mut router = Router::new();
    let failing: fn(Request) -> Result<Response, NetError> = |_req| Err(NetError::Handler);
    router.put("/fail", HandlerFunc::new(failing));
    let got = router.handle(request_for(Method::PUT, "/fail"));
    assert_eq!(got.unwrap_err(), NetError::Handler);
}

#[test]
fn boxed_handler_passes_through() {
    let mut router = Router::new();
    let ok: fn(Request) -> Result<Response, NetError> =
        |_req| Ok(Response::builder().status(Status::OK).body(b"boxed".to_vec()).into());
    router.get("/b", Box::new(HandlerFunc::new(ok)));
    let resp = router.handle(request_for(Method::GET, "/b")).unwrap();
    assert_eq!(resp.body(), &b"boxed".to_vec());
}

#[test]
fn handler_func_is_a_handler() {
    let h = HandlerFunc::new(|_req: Request| {
        Ok(Response::builder().status(Status::OK).body(b"direct".to_vec()).into())
    });
    let resp = h.handle(request_for(Method::GET, "/")).unwrap();
    assert_eq!(resp.body(), &b"direct".to_vec());
}
