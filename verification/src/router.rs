//! The handler capability and the table-based router. Dispatch is an exact
//! match on the URL, then an exact match on the method; a miss synthesizes
//! a `404 Not Found` response with an empty body instead of erroring.

use vstd::prelude::*;

use crate::assoc::{
    assoc_find, lemma_assoc_find_at, lemma_assoc_find_none, lemma_assoc_push, lemma_assoc_replace,
};
use crate::common::{NetError, Url};
use crate::request::{Method, Request};
use crate::response::{Response, Status};
use crate::text::str_eq;

verus! {

/// The capability of turning a request into a response; implementations may
/// perform blocking work, and any error propagates as a connection-level
/// failure.
pub trait Handler {
    fn handle(&self, req: Request) -> Result<Response, NetError>;
}

/// A handler stored as a plain function value.
pub struct HandlerFunc<F: Fn(Request) -> Result<Response, NetError>> {
    func: F,
}

impl<F: Fn(Request) -> Result<Response, NetError>> HandlerFunc<F> {
    /// The stored function must accept every request.
    #[verifier::type_invariant]
    spec fn wf(self) -> bool {
        forall|req: Request| self.func.requires((req,))
    }

    pub fn new(func: F) -> (r: Self)
        requires
            forall|req: Request| func.requires((req,)),
    {
        HandlerFunc { func }
    }
}

impl<F: Fn(Request) -> Result<Response, NetError>> Handler for HandlerFunc<F> {
    fn handle(&self, req: Request) -> Result<Response, NetError> {
        proof {
            use_type_invariant(self);
        }
        (self.func)(req)
    }
}

/// A handler stored behind an indirection passes dispatch through.
impl<H: Handler> Handler for Box<H> {
    fn handle(&self, req: Request) -> Result<Response, NetError> {
        (**self).handle(req)
    }
}

/// The routers, specialized by URL and then by method.
pub struct Router<H> {
    pub routes: Vec<(Url, Vec<(Method, H)>)>,
}

impl<H> Router<H> {
    /// The table as key sequences: each URL with its method table.
    pub open spec fn url_entries(&self) -> Seq<(Seq<char>, Seq<(Method, H)>)> {
        self.routes@.map_values(|e: (Url, Vec<(Method, H)>)| (e.0@, e.1@))
    }

    /// The handler registered for a URL and method, if any.
    pub open spec fn lookup(&self, url: Seq<char>, m: Method) -> Option<H> {
        match assoc_find(self.url_entries(), url) {
            None => None,
            Some(ms) => assoc_find(ms, m),
        }
    }

    pub fn new() -> (r: Self)
        ensures
            r.routes@.len() == 0,
            forall|u: Seq<char>, m: Method| r.lookup(u, m) is None,
    {
        let r = Router { routes: Vec::new() };
        proof {
            assert(r.url_entries() =~= Seq::<(Seq<char>, Seq<(Method, H)>)>::empty());
            assert forall|u: Seq<char>, m: Method| r.lookup(u, m) is None by {
                lemma_assoc_find_none(r.url_entries(), u);
            }
        }
        r
    }

    /// The first route entry whose URL is `path`, if any.
    fn find_url(routes: &Vec<(Url, Vec<(Method, H)>)>, path: &str) -> (r: Option<usize>)
        ensures
            match r {
                Some(i) => i < routes@.len() && routes@[i as int].0@ == path@ && (forall|j: int|
                    0 <= j < i ==> routes@[j].0@ != path@),
                None => forall|j: int| 0 <= j < routes@.len() ==> routes@[j].0@ != path@,
            },
    {
        let n: usize = routes.len();
        let mut i: usize = 0;
        while i < n
            invariant
                n == routes@.len(),
                i <= n,
                forall|j: int| 0 <= j < i ==> routes@[j].0@ != path@,
            decreases n - i,
        {
            if str_eq(routes[i].0.path.as_str(), path) {
                return Some(i);
            }
            i += 1;
        }
        None
    }

    /// The first method entry equal to `m`, if any.
    fn find_method(ms: &Vec<(Method, H)>, m: Method) -> (r: Option<usize>)
        ensures
            match r {
                Some(j) => j < ms@.len() && ms@[j as int].0 == m && (forall|k: int|
                    0 <= k < j ==> ms@[k].0 != m),
                None => forall|k: int| 0 <= k < ms@.len() ==> ms@[k].0 != m,
            },
    {
        let n: usize = ms.len();
        let mut j: usize = 0;
        while j < n
            invariant
                n == ms@.len(),
                j <= n,
                forall|k: int| 0 <= k < j ==> ms@[k].0 != m,
            decreases n - j,
        {
            if ms[j].0 == m {
                return Some(j);
            }
            j += 1;
        }
        None
    }

    /// Registers `handler` for the method and path, replacing any handler
    /// already registered for that exact pair and touching no other route.
    pub fn route(&mut self, method: Method, path: &str, handler: H)
        ensures
            forall|u: Seq<char>, m: Method|
                #[trigger] final(self).lookup(u, m) == if u == path@ && m == method {
                    Some(handler)
                } else {
                    old(self).lookup(u, m)
                },
    {
        let ghost es0 = self.url_entries();
        match Self::find_url(&self.routes, path) {
            Some(i) => {
                let mut entry = self.routes.remove(i);
                let ghost ms0 = entry.1@;
                let ghost url_key = entry.0@;
                match Self::find_method(&entry.1, method) {
                    Some(j) => {
                        entry.1.set(j, (method, handler));
                        proof {
                            assert forall|m: Method| true implies assoc_find(entry.1@, m) == (
                            if m == method {
                                Some(handler)
                            } else {
                                assoc_find(ms0, m)
                            }) by {
                                lemma_assoc_replace(ms0, j as int, method, handler, m);
                            }
                        }
                    },
                    None => {
                        entry.1.push((method, handler));
                        proof {
                            assert forall|m: Method| true implies assoc_find(entry.1@, m) == (
                            if m == method {
                                Some(handler)
                            } else {
                                assoc_find(ms0, m)
                            }) by {
                                lemma_assoc_push(ms0, method, handler, m);
                            }
                        }
                    },
                }
                let ghost ms1 = entry.1@;
                self.routes.insert(i, entry);
                proof {
                    assert(self.url_entries() =~= es0.update(i as int, (path@, ms1)));
                    assert(es0[i as int].0 == path@);
                    assert forall|u: Seq<char>| true implies assoc_find(
                        self.url_entries(),
                        u,
                    ) == (if u == path@ {
                        Some(ms1)
                    } else {
                        assoc_find(es0, u)
                    }) by {
                        lemma_assoc_replace(es0, i as int, path@, ms1, u);
                    }
                    assert(assoc_find(es0, path@) == Some(ms0)) by {
                        lemma_assoc_find_at(es0, path@, i as int);
                    }
                }
            },
            None => {
                let mut inner: Vec<(Method, H)> = Vec::new();
                inner.push((method, handler));
                let ghost ms1 = inner@;
                self.routes.push((Url::with_path(path), inner));
                proof {
                    assert(self.url_entries() =~= es0.push((path@, ms1)));
                    assert forall|u: Seq<char>| true implies assoc_find(
                        self.url_entries(),
                        u,
                    ) == (if u == path@ {
                        Some(ms1)
                    } else {
                        assoc_find(es0, u)
                    }) by {
                        lemma_assoc_push(es0, path@, ms1, u);
                    }
                    assert(assoc_find(es0, path@) is None) by {
                        lemma_assoc_find_none(es0, path@);
                    }
                    assert forall|m: Method| true implies assoc_find(ms1, m) == (if m == method {
                        Some(handler)
                    } else {
                        None
                    }) by {
                        assert(ms1.drop_first() =~= Seq::<(Method, H)>::empty());
                        if m != method {
                            lemma_assoc_find_none(ms1, m);
                        }
                    }
                }
            },
        }
    }

    pub fn get(&mut self, path: &str, handler: H)
        ensures
            forall|u: Seq<char>, m: Method|
                #[trigger] final(self).lookup(u, m) == if u == path@ && m == Method::GET {
                    Some(handler)
                } else {
                    old(self).lookup(u, m)
                },
    {
        self.route(Method::GET, path, handler)
    }

    pub fn post(&mut self, path: &str, handler: H)
        ensures
            forall|u: Seq<char>, m: Method|
                #[trigger] final(self).lookup(u, m) == if u == path@ && m == Method::POST {
                    Some(handler)
                } else {
                    old(self).lookup(u, m)
                },
    {
        self.route(Method::POST, path, handler)
    }

    pub fn put(&mut self, path: &str, handler: H)
        ensures
            forall|u: Seq<char>, m: Method|
                #[trigger] final(self).lookup(u, m) == if u == path@ && m == Method::PUT {
                    Some(handler)
                } else {
                    old(self).lookup(u, m)
                },
    {
        self.route(Method::PUT, path, handler)
    }

    pub fn delete(&mut self, path: &str, handler: H)
        ensures
            forall|u: Seq<char>, m: Method|
                #[trigger] final(self).lookup(u, m) == if u == path@ && m == Method::DELETE {
                    Some(handler)
                } else {
                    old(self).lookup(u, m)
                },
    {
        self.route(Method::DELETE, path, handler)
    }

    /// The registered handler for a URL and method, exactly as `lookup`
    /// says.
    pub fn route_of(&self, url: &str, method: Method) -> (r: Option<&H>)
        ensures
            match r {
                Some(h) => self.lookup(url@, method) == Some(*h),
                None => self.lookup(url@, method) is None,
            },
    {
        match Self::find_url(&self.routes, url) {
            Some(i) => {
                proof {
                    lemma_assoc_find_at(self.url_entries(), url@, i as int);
                }
                match Self::find_method(&self.routes[i].1, method) {
                    Some(j) => {
                        proof {
                            lemma_assoc_find_at(self.routes@[i as int].1@, method, j as int);
                        }
                        Some(&self.routes[i].1[j].1)
                    },
                    None => {
                        proof {
                            lemma_assoc_find_none(self.routes@[i as int].1@, method);
                        }
                        None
                    },
                }
            },
            None => {
                proof {
                    lemma_assoc_find_none(self.url_entries(), url@);
                }
                None
            },
        }
    }
}

/// The response synthesized on a dispatch miss.
pub open spec fn not_found_spec(r: Response) -> bool {
    r.status == Status::NotFound && r.body@ == Seq::<u8>::empty() && r.headers.entries()
        == Seq::<(Seq<char>, Seq<char>)>::empty() && r.version == (
    crate::common::Version {
        major: 1,
        minor: 1,
    }) && r.url@ == Seq::<char>::empty()
}

impl<H: Handler> Router<H> {
    /// Dispatches a request: the registered handler answers it, or a miss
    /// yields `404 Not Found` with an empty body. What a found handler
    /// returns is its own business.
    pub fn handle(&self, req: Request) -> (r: Result<Response, NetError>)
        ensures
            self.lookup(req.url@, req.method) is None ==> (r matches Ok(resp)
                && not_found_spec(resp)),
    {
        let found = self.route_of(self.url_of(&req), req.method);
        match found {
            Some(handler) => handler.handle(req),
            None => Ok(Response::builder().status(Status::NotFound).into()),
        }
    }

    /// A borrow of the request's path with its view exposed.
    fn url_of<'a>(&self, req: &'a Request) -> (r: &'a str)
        ensures
            r@ == req.url@,
    {
        req.url.path.as_str()
    }
}

impl<H: Handler> Handler for Router<H> {
    fn handle(&self, req: Request) -> Result<Response, NetError> {
        Router::handle(self, req)
    }
}

} // verus!
