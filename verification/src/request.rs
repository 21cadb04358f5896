//! The request model: the method enumeration, the parsed request, and its
//! builder. A request text is consumed in four stages with no backtracking:
//! method, URL, version, then headers; whatever follows the empty line is
//! the body verbatim.

use vstd::prelude::*;

use crate::common::{Parse, ParseError, Url, Version};
use crate::headers::Headers;
use crate::text::{split_once_at, split_sub, str_eq};

verus! {

/// The request methods. `CONNECT` is a routable value, but its token is not
/// recognized by the parser, so it can only be built, never parsed.
#[derive(Debug, Clone, Copy, PartialEq, Eq, Structural)]
#[allow(clippy::upper_case_acronyms)]
pub enum Method {
    OPTIONS,
    GET,
    HEAD,
    POST,
    PUT,
    DELETE,
    TRACE,
    CONNECT,
}

impl View for Method {
    type V = Method;

    open spec fn view(&self) -> Method {
        *self
    }
}

impl Default for Method {
    fn default() -> (r: Self)
        ensures
            r == Method::GET,
    {
        Method::GET
    }
}

/// The method named by a token, if the token is one the parser accepts.
pub open spec fn method_of_token(t: Seq<char>) -> Option<Method> {
    if t == "OPTIONS"@ {
        Some(Method::OPTIONS)
    } else if t == "GET"@ {
        Some(Method::GET)
    } else if t == "HEAD"@ {
        Some(Method::HEAD)
    } else if t == "POST"@ {
        Some(Method::POST)
    } else if t == "PUT"@ {
        Some(Method::PUT)
    } else if t == "DELETE"@ {
        Some(Method::DELETE)
    } else if t == "TRACE"@ {
        Some(Method::TRACE)
    } else {
        None
    }
}

/// The method stage: the token up to the next space, which must name a
/// method.
pub open spec fn method_parse_spec(txt: Seq<char>) -> Option<(Seq<char>, Method)> {
    match split_sub(txt, " "@) {
        None => None,
        Some((tok, rest)) => match method_of_token(tok) {
            None => None,
            Some(m) => Some((rest, m)),
        },
    }
}

impl Method {
    /// Maps a bare token to its method.
    pub fn from_token(token: &str) -> (r: Result<Method, ParseError>)
        ensures
            match r {
                Ok(m) => method_of_token(token@) == Some(m),
                Err(_) => method_of_token(token@) is None,
            },
    {
        if str_eq(token, "OPTIONS") {
            Ok(Method::OPTIONS)
        } else if str_eq(token, "GET") {
            Ok(Method::GET)
        } else if str_eq(token, "HEAD") {
            Ok(Method::HEAD)
        } else if str_eq(token, "POST") {
            Ok(Method::POST)
        } else if str_eq(token, "PUT") {
            Ok(Method::PUT)
        } else if str_eq(token, "DELETE") {
            Ok(Method::DELETE)
        } else if str_eq(token, "TRACE") {
            Ok(Method::TRACE)
        } else {
            Err(ParseError())
        }
    }
}

impl Parse for Method {
    open spec fn parse_spec(txt: Seq<char>) -> Option<(Seq<char>, Method)> {
        method_parse_spec(txt)
    }

    fn parse(txt: &str) -> (res: Result<(&str, Self), ParseError>) {
        let (tok, rest) = match split_once_at(txt, " ") {
            Some(p) => p,
            None => {
                return Err(ParseError());
            },
        };
        match Method::from_token(tok) {
            Ok(m) => Ok((rest, m)),
            Err(e) => Err(e),
        }
    }
}

/// A parsed request: its parts are always present, defaulted by the builder
/// and filled in by the parse pipeline.
#[derive(Debug)]
pub struct Request {
    pub method: Method,
    pub url: Url,
    pub version: Version,
    pub headers: Headers,
    pub body: String,
}

/// The whole grammar: the four stages in order; the text after the empty
/// line is the body.
pub open spec fn request_parse_spec(txt: Seq<char>) -> Option<
    (Method, Seq<char>, Version, Map<Seq<char>, Seq<char>>, Seq<char>),
> {
    match Method::parse_spec(txt) {
        None => None,
        Some((r1, m)) => match Url::parse_spec(r1) {
            None => None,
            Some((r2, u)) => match Version::parse_spec(r2) {
                None => None,
                Some((r3, v)) => match Headers::parse_spec(r3) {
                    None => None,
                    Some((body, h)) => Some((m, u, v, h, body)),
                },
            },
        },
    }
}

impl Request {
    /// Parses a whole request text; any grammar violation aborts the parse.
    pub fn parse(raw: &str) -> (res: Result<Self, ParseError>)
        ensures
            match res {
                Ok(req) => request_parse_spec(raw@) == Some(
                    (req.method, req.url@, req.version, req.headers@, req.body@),
                ),
                Err(_) => request_parse_spec(raw@) is None,
            },
    {
        let (rest, method) = match Method::parse(raw) {
            Ok(p) => p,
            Err(e) => {
                return Err(e);
            },
        };
        let (rest, url) = match Url::parse(rest) {
            Ok(p) => p,
            Err(e) => {
                return Err(e);
            },
        };
        let (rest, version) = match Version::parse(rest) {
            Ok(p) => p,
            Err(e) => {
                return Err(e);
            },
        };
        let (body, headers) = match Headers::parse(rest) {
            Ok(p) => p,
            Err(e) => {
                return Err(e);
            },
        };
        let req: Request = Request::builder()
            .method(method)
            .url(url)
            .version(version)
            .headers(headers)
            .body(body.to_owned())
            .into();
        Ok(req)
    }

    /// A builder whose parts start at their defaults.
    pub fn builder() -> (r: RequestBuilder)
        ensures
            r.0.method == Method::GET,
            r.0.url@ == Seq::<char>::empty(),
            r.0.version == (Version { major: 1, minor: 1 }),
            r.0.headers@ == Map::<Seq<char>, Seq<char>>::empty(),
            r.0.headers.entries() == Seq::<(Seq<char>, Seq<char>)>::empty(),
            r.0.body@ == Seq::<char>::empty(),
    {
        RequestBuilder(
            Request {
                method: Method::default(),
                url: Url::default(),
                version: Version::default(),
                headers: Headers::default(),
                body: String::new(),
            },
        )
    }

    pub fn method(&self) -> (r: &Method)
        ensures
            r == self.method,
    {
        &self.method
    }

    pub fn headers(&self) -> (r: &Headers)
        ensures
            r == self.headers,
    {
        &self.headers
    }

    pub fn url(&self) -> (r: &Url)
        ensures
            r == self.url,
    {
        &self.url
    }

    pub fn version(&self) -> (r: &Version)
        ensures
            r == self.version,
    {
        &self.version
    }

    pub fn body(&self) -> (r: &str)
        ensures
            r@ == self.body@,
    {
        self.body.as_str()
    }
}

/// Assembles a request part by part; finished by `into`.
pub struct RequestBuilder(pub Request);

impl RequestBuilder {
    pub fn method(self, meth: Method) -> (r: Self)
        ensures
            r.0 == (Request { method: meth, ..self.0 }),
    {
        let mut b = self;
        b.0.method = meth;
        b
    }

    pub fn headers(self, headers: Headers) -> (r: Self)
        ensures
            r.0 == (Request { headers, ..self.0 }),
    {
        let mut b = self;
        b.0.headers = headers;
        b
    }

    pub fn url(self, url: Url) -> (r: Self)
        ensures
            r.0 == (Request { url, ..self.0 }),
    {
        let mut b = self;
        b.0.url = url;
        b
    }

    pub fn version(self, version: Version) -> (r: Self)
        ensures
            r.0 == (Request { version, ..self.0 }),
    {
        let mut b = self;
        b.0.version = version;
        b
    }

    pub fn body(self, body: String) -> (r: Self)
        ensures
            r.0 == (Request { body, ..self.0 }),
    {
        let mut b = self;
        b.0.body = body;
        b
    }
}

impl From<RequestBuilder> for Request {
    fn from(builder: RequestBuilder) -> (r: Self) {
        builder.0
    }
}

impl vstd::std_specs::convert::FromSpecImpl<RequestBuilder> for Request {
    open spec fn obeys_from_spec() -> bool {
        true
    }

    open spec fn from_spec(builder: RequestBuilder) -> Self {
        builder.0
    }
}

} // verus!
