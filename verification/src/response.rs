//! The response model: the status-code table, the response value, its
//! builder, and the wire serialization. The wire form is the status line,
//! one line per stored header pair, one blank line, then the body bytes
//! appended without re-encoding.

use vstd::prelude::*;
use vstd::string::StringSliceAdditionalSpecFns;
use vstd::utf8::encode_utf8;

use crate::common::{version_chars, Url, Version};
use crate::headers::Headers;
use crate::text::{dec_digits, dec_string};

verus! {

/// The standard status codes, paired with their reason phrases by `code`
/// and `text`.
#[derive(Debug, Clone, Copy, PartialEq, Eq, Structural)]
pub enum Status {
    Continue,
    SwitchingProtocols,
    Processing,
    EarlyHints,
    OK,
    Created,
    Accepted,
    NonAuthoritativeInfo,
    NoContent,
    ResetContent,
    PartialContent,
    MultiStatus,
    AlreadyReported,
    IMUsed,
    MultipleChoices,
    MovedPermanently,
    Found,
    SeeOther,
    NotModified,
    UseProxy,
    TemporaryRedirect,
    PermanentRedirect,
    BadRequest,
    Unauthorized,
    PaymentRequired,
    Forbidden,
    NotFound,
    MethodNotAllowed,
    NotAcceptable,
    ProxyAuthRequired,
    RequestTimeout,
    Conflict,
    Gone,
    LengthRequired,
    PreconditionFailed,
    RequestEntityTooLarge,
    RequestURITooLong,
    UnsupportedMediaType,
    RequestedRangeNotSatisfiable,
    ExpectationFailed,
    Teapot,
    MisdirectedRequest,
    UnprocessableEntity,
    Locked,
    FailedDependency,
    TooEarly,
    UpgradeRequired,
    PreconditionRequired,
    TooManyRequests,
    RequestHeaderFieldsTooLarge,
    UnavailableForLegalReasons,
    InternalServerError,
    NotImplemented,
    BadGateway,
    ServiceUnavailable,
    GatewayTimeout,
    HTTPVersionNotSupported,
    VariantAlsoNegotiates,
    InsufficientStorage,
    LoopDetected,
    NotExtended,
    NetworkAuthenticationRequired,
}

impl Default for Status {
    fn default() -> (r: Self)
        ensures
            r == Status::OK,
    {
        Status::OK
    }
}

/// The numeric code of a status.
pub open spec fn status_code_spec(s: Status) -> u16 {
    match s {
        Status::Continue => 100,
        Status::SwitchingProtocols => 101,
        Status::Processing => 102,
        Status::EarlyHints => 103,
        Status::OK => 200,
        Status::Created => 201,
        Status::Accepted => 202,
        Status::NonAuthoritativeInfo => 203,
        Status::NoContent => 204,
        Status::ResetContent => 205,
        Status::PartialContent => 206,
        Status::MultiStatus => 207,
        Status::AlreadyReported => 208,
        Status::IMUsed => 226,
        Status::MultipleChoices => 300,
        Status::MovedPermanently => 301,
        Status::Found => 302,
        Status::SeeOther => 303,
        Status::NotModified => 304,
        Status::UseProxy => 305,
        Status::TemporaryRedirect => 307,
        Status::PermanentRedirect => 308,
        Status::BadRequest => 400,
        Status::Unauthorized => 401,
        Status::PaymentRequired => 402,
        Status::Forbidden => 403,
        Status::NotFound => 404,
        Status::MethodNotAllowed => 405,
        Status::NotAcceptable => 406,
        Status::ProxyAuthRequired => 407,
        Status::RequestTimeout => 408,
        Status::Conflict => 409,
        Status::Gone => 410,
        Status::LengthRequired => 411,
        Status::PreconditionFailed => 412,
        Status::RequestEntityTooLarge => 413,
        Status::RequestURITooLong => 414,
        Status::UnsupportedMediaType => 415,
        Status::RequestedRangeNotSatisfiable => 416,
        Status::ExpectationFailed => 417,
        Status::Teapot => 418,
        Status::MisdirectedRequest => 421,
        Status::UnprocessableEntity => 422,
        Status::Locked => 423,
        Status::FailedDependency => 424,
        Status::TooEarly => 425,
        Status::UpgradeRequired => 426,
        Status::PreconditionRequired => 428,
        Status::TooManyRequests => 429,
        Status::RequestHeaderFieldsTooLarge => 431,
        Status::UnavailableForLegalReasons => 451,
        Status::InternalServerError => 500,
        Status::NotImplemented => 501,
        Status::BadGateway => 502,
        Status::ServiceUnavailable => 503,
        Status::GatewayTimeout => 504,
        Status::HTTPVersionNotSupported => 505,
        Status::VariantAlsoNegotiates => 506,
        Status::InsufficientStorage => 507,
        Status::LoopDetected => 508,
        Status::NotExtended => 510,
        Status::NetworkAuthenticationRequired => 511,
    }
}

/// The reason phrase of a status.
pub open spec fn status_text_chars(s: Status) -> Seq<char> {
    match s {
        Status::Continue => "Continue"@,
        Status::SwitchingProtocols => "Switching Protocols"@,
        Status::Processing => "Processing"@,
        Status::EarlyHints => "Early Hints"@,
        Status::OK => "OK"@,
        Status::Created => "Created"@,
        Status::Accepted => "Accepted"@,
        Status::NonAuthoritativeInfo => "Non-Authoritative Information"@,
        Status::NoContent => "No Content"@,
        Status::ResetContent => "Reset Content"@,
        Status::PartialContent => "Partial Content"@,
        Status::MultiStatus => "Multi-Status"@,
        Status::AlreadyReported => "Already Reported"@,
        Status::IMUsed => "IM Used"@,
        Status::MultipleChoices => "Multiple Choices"@,
        Status::MovedPermanently => "Moved Permanently"@,
        Status::Found => "Found"@,
        Status::SeeOther => "See Other"@,
        Status::NotModified => "Not Modified"@,
        Status::UseProxy => "Use Proxy"@,
        Status::TemporaryRedirect => "Temporary Redirect"@,
        Status::PermanentRedirect => "Permanent Redirect"@,
        Status::BadRequest => "Bad Request"@,
        Status::Unauthorized => "Unauthorized"@,
        Status::PaymentRequired => "Payment Required"@,
        Status::Forbidden => "Forbidden"@,
        Status::NotFound => "Not Found"@,
        Status::MethodNotAllowed => "Method Not Allowed"@,
        Status::NotAcceptable => "Not Acceptable"@,
        Status::ProxyAuthRequired => "Proxy Authentication Required"@,
        Status::RequestTimeout => "Request Timeout"@,
        Status::Conflict => "Conflict"@,
        Status::Gone => "Gone"@,
        Status::LengthRequired => "Length Required"@,
        Status::PreconditionFailed => "Precondition Failed"@,
        Status::RequestEntityTooLarge => "Payload Too Large"@,
        Status::RequestURITooLong => "URI Too Long"@,
        Status::UnsupportedMediaType => "Unsupported Media Type"@,
        Status::RequestedRangeNotSatisfiable => "Range Not Satisfiable"@,
        Status::ExpectationFailed => "Expectation Failed"@,
        Status::Teapot => "I'm a teapot"@,
        Status::MisdirectedRequest => "Misdirected Request"@,
        Status::UnprocessableEntity => "Unprocessable Entity"@,
        Status::Locked => "Locked"@,
        Status::FailedDependency => "Failed Dependency"@,
        Status::TooEarly => "Too Early"@,
        Status::UpgradeRequired => "Upgrade Required"@,
        Status::PreconditionRequired => "Precondition Required"@,
        Status::TooManyRequests => "Too Many Requests"@,
        Status::RequestHeaderFieldsTooLarge => "Request Header Fields Too Large"@,
        Status::UnavailableForLegalReasons => "Unavailable For Legal Reasons"@,
        Status::InternalServerError => "Internal Server Error"@,
        Status::NotImplemented => "Not Implemented"@,
        Status::BadGateway => "Bad Gateway"@,
        Status::ServiceUnavailable => "Service Unavailable"@,
        Status::GatewayTimeout => "Gateway Timeout"@,
        Status::HTTPVersionNotSupported => "HTTP Version Not Supported"@,
        Status::VariantAlsoNegotiates => "Variant Also Negotiates"@,
        Status::InsufficientStorage => "Insufficient Storage"@,
        Status::LoopDetected => "Loop Detected"@,
        Status::NotExtended => "Not Extended"@,
        Status::NetworkAuthenticationRequired => "Network Authentication Required"@,
    }
}

impl Status {
    pub fn code(&self) -> (r: u16)
        ensures
            r == status_code_spec(*self),
    {
        match self {
            Status::Continue => 100,
            Status::SwitchingProtocols => 101,
            Status::Processing => 102,
            Status::EarlyHints => 103,
            Status::OK => 200,
            Status::Created => 201,
            Status::Accepted => 202,
            Status::NonAuthoritativeInfo => 203,
            Status::NoContent => 204,
            Status::ResetContent => 205,
            Status::PartialContent => 206,
            Status::MultiStatus => 207,
            Status::AlreadyReported => 208,
            Status::IMUsed => 226,
            Status::MultipleChoices => 300,
            Status::MovedPermanently => 301,
            Status::Found => 302,
            Status::SeeOther => 303,
            Status::NotModified => 304,
            Status::UseProxy => 305,
            Status::TemporaryRedirect => 307,
            Status::PermanentRedirect => 308,
            Status::BadRequest => 400,
            Status::Unauthorized => 401,
            Status::PaymentRequired => 402,
            Status::Forbidden => 403,
            Status::NotFound => 404,
            Status::MethodNotAllowed => 405,
            Status::NotAcceptable => 406,
            Status::ProxyAuthRequired => 407,
            Status::RequestTimeout => 408,
            Status::Conflict => 409,
            Status::Gone => 410,
            Status::LengthRequired => 411,
            Status::PreconditionFailed => 412,
            Status::RequestEntityTooLarge => 413,
            Status::RequestURITooLong => 414,
            Status::UnsupportedMediaType => 415,
            Status::RequestedRangeNotSatisfiable => 416,
            Status::ExpectationFailed => 417,
            Status::Teapot => 418,
            Status::MisdirectedRequest => 421,
            Status::UnprocessableEntity => 422,
            Status::Locked => 423,
            Status::FailedDependency => 424,
            Status::TooEarly => 425,
            Status::UpgradeRequired => 426,
            Status::PreconditionRequired => 428,
            Status::TooManyRequests => 429,
            Status::RequestHeaderFieldsTooLarge => 431,
            Status::UnavailableForLegalReasons => 451,
            Status::InternalServerError => 500,
            Status::NotImplemented => 501,
            Status::BadGateway => 502,
            Status::ServiceUnavailable => 503,
            Status::GatewayTimeout => 504,
            Status::HTTPVersionNotSupported => 505,
            Status::VariantAlsoNegotiates => 506,
            Status::InsufficientStorage => 507,
            Status::LoopDetected => 508,
            Status::NotExtended => 510,
            Status::NetworkAuthenticationRequired => 511,
        }
    }

    pub fn text(&self) -> (r: &'static str)
        ensures
            r@ == status_text_chars(*self),
    {
        match self {
            Status::Continue => "Continue",
            Status::SwitchingProtocols => "Switching Protocols",
            Status::Processing => "Processing",
            Status::EarlyHints => "Early Hints",
            Status::OK => "OK",
            Status::Created => "Created",
            Status::Accepted => "Accepted",
            Status::NonAuthoritativeInfo => "Non-Authoritative Information",
            Status::NoContent => "No Content",
            Status::ResetContent => "Reset Content",
            Status::PartialContent => "Partial Content",
            Status::MultiStatus => "Multi-Status",
            Status::AlreadyReported => "Already Reported",
            Status::IMUsed => "IM Used",
            Status::MultipleChoices => "Multiple Choices",
            Status::MovedPermanently => "Moved Permanently",
            Status::Found => "Found",
            Status::SeeOther => "See Other",
            Status::NotModified => "Not Modified",
            Status::UseProxy => "Use Proxy",
            Status::TemporaryRedirect => "Temporary Redirect",
            Status::PermanentRedirect => "Permanent Redirect",
            Status::BadRequest => "Bad Request",
            Status::Unauthorized => "Unauthorized",
            Status::PaymentRequired => "Payment Required",
            Status::Forbidden => "Forbidden",
            Status::NotFound => "Not Found",
            Status::MethodNotAllowed => "Method Not Allowed",
            Status::NotAcceptable => "Not Acceptable",
            Status::ProxyAuthRequired => "Proxy Authentication Required",
            Status::RequestTimeout => "Request Timeout",
            Status::Conflict => "Conflict",
            Status::Gone => "Gone",
            Status::LengthRequired => "Length Required",
            Status::PreconditionFailed => "Precondition Failed",
            Status::RequestEntityTooLarge => "Payload Too Large",
            Status::RequestURITooLong => "URI Too Long",
            Status::UnsupportedMediaType => "Unsupported Media Type",
            Status::RequestedRangeNotSatisfiable => "Range Not Satisfiable",
            Status::ExpectationFailed => "Expectation Failed",
            Status::Teapot => "I'm a teapot",
            Status::MisdirectedRequest => "Misdirected Request",
            Status::UnprocessableEntity => "Unprocessable Entity",
            Status::Locked => "Locked",
            Status::FailedDependency => "Failed Dependency",
            Status::TooEarly => "Too Early",
            Status::UpgradeRequired => "Upgrade Required",
            Status::PreconditionRequired => "Precondition Required",
            Status::TooManyRequests => "Too Many Requests",
            Status::RequestHeaderFieldsTooLarge => "Request Header Fields Too Large",
            Status::UnavailableForLegalReasons => "Unavailable For Legal Reasons",
            Status::InternalServerError => "Internal Server Error",
            Status::NotImplemented => "Not Implemented",
            Status::BadGateway => "Bad Gateway",
            Status::ServiceUnavailable => "Service Unavailable",
            Status::GatewayTimeout => "Gateway Timeout",
            Status::HTTPVersionNotSupported => "HTTP Version Not Supported",
            Status::VariantAlsoNegotiates => "Variant Also Negotiates",
            Status::InsufficientStorage => "Insufficient Storage",
            Status::LoopDetected => "Loop Detected",
            Status::NotExtended => "Not Extended",
            Status::NetworkAuthenticationRequired => "Network Authentication Required",
        }
    }
}

/// A response; the body is raw bytes and may be non-text.
#[derive(Debug)]
pub struct Response {
    pub status: Status,
    pub version: Version,
    pub url: Url,
    pub headers: Headers,
    pub body: Vec<u8>,
}

/// One serialized header line per stored pair, in storage order.
pub open spec fn header_lines_chars(es: Seq<(Seq<char>, Seq<char>)>) -> Seq<char>
    decreases es.len(),
{
    if es.len() == 0 {
        Seq::empty()
    } else {
        es[0].0 + ": "@ + es[0].1 + "\n"@ + header_lines_chars(es.drop_first())
    }
}

pub proof fn lemma_header_lines_push(es: Seq<(Seq<char>, Seq<char>)>, x: (Seq<char>, Seq<char>))
    ensures
        header_lines_chars(es.push(x)) == header_lines_chars(es) + x.0 + ": "@ + x.1 + "\n"@,
    decreases es.len(),
{
    if es.len() == 0 {
        let e = Seq::<(Seq<char>, Seq<char>)>::empty();
        assert(es.push(x)[0] == x);
        assert(es.push(x).drop_first() =~= e);
        assert(header_lines_chars(e) == Seq::<char>::empty());
        assert(es =~= e);
        assert(header_lines_chars(es.push(x)) == x.0 + ": "@ + x.1 + "\n"@
            + header_lines_chars(e));
        assert(header_lines_chars(es.push(x)) =~= header_lines_chars(es) + x.0 + ": "@ + x.1
            + "\n"@);
    } else {
        let es1 = es.drop_first();
        assert(es.push(x).drop_first() =~= es1.push(x));
        lemma_header_lines_push(es1, x);
        assert(es.push(x)[0] == es[0]);
        assert(header_lines_chars(es.push(x)) == es[0].0 + ": "@ + es[0].1 + "\n"@
            + header_lines_chars(es1.push(x)));
        assert(header_lines_chars(es1.push(x)) == header_lines_chars(es1) + x.0 + ": "@ + x.1
            + "\n"@);
        assert(header_lines_chars(es) == es[0].0 + ": "@ + es[0].1 + "\n"@
            + header_lines_chars(es1));
        assert(header_lines_chars(es.push(x)) =~= header_lines_chars(es) + x.0 + ": "@ + x.1
            + "\n"@);
    }
}

/// The textual head of the wire form: status line, header lines, and the
/// blank line that ends them.
pub open spec fn response_head_chars(r: Response) -> Seq<char> {
    version_chars(r.version) + " "@ + dec_digits(status_code_spec(r.status) as nat) + " "@
        + status_text_chars(r.status) + "\n"@ + header_lines_chars(r.headers.entries()) + "\n"@
}

/// The full wire form: the head encoded as UTF-8, then the body bytes
/// exactly as stored.
pub open spec fn serialize_spec(r: Response) -> Seq<u8> {
    encode_utf8(response_head_chars(r)) + r.body@
}

impl Response {
    /// A builder whose parts start at their defaults.
    pub fn builder() -> (r: ResponseBuilder)
        ensures
            r.0.status == Status::OK,
            r.0.version == (Version { major: 1, minor: 1 }),
            r.0.url@ == Seq::<char>::empty(),
            r.0.headers@ == Map::<Seq<char>, Seq<char>>::empty(),
            r.0.headers.entries() == Seq::<(Seq<char>, Seq<char>)>::empty(),
            r.0.body@ == Seq::<u8>::empty(),
    {
        ResponseBuilder(
            Response {
                status: Status::default(),
                version: Version::default(),
                url: Url::default(),
                headers: Headers::default(),
                body: Vec::new(),
            },
        )
    }

    pub fn status(&self) -> (r: &Status)
        ensures
            r == self.status,
    {
        &self.status
    }

    pub fn version(&self) -> (r: &Version)
        ensures
            r == self.version,
    {
        &self.version
    }

    pub fn url(&self) -> (r: &Url)
        ensures
            r == self.url,
    {
        &self.url
    }

    pub fn headers(&self) -> (r: &Headers)
        ensures
            r == self.headers,
    {
        &self.headers
    }

    pub fn body(&self) -> (r: &Vec<u8>)
        ensures
            r == self.body,
    {
        &self.body
    }

    /// The textual head of the serialization.
    fn head_string(&self) -> (r: String)
        ensures
            r@ == response_head_chars(*self),
    {
        let mut head = self.version.to_string();
        head.append(" ");
        head.append(dec_string(self.status.code()).as_str());
        head.append(" ");
        head.append(self.status.text());
        head.append("\n");
        let ghost status_line = version_chars(self.version) + " "@ + dec_digits(
            status_code_spec(self.status) as nat,
        ) + " "@ + status_text_chars(self.status) + "\n"@;
        assert(head@ =~= status_line);
        let n: usize = self.headers.pairs.len();
        let mut i: usize = 0;
        while i < n
            invariant
                n == self.headers.pairs@.len(),
                i <= n,
                head@ == status_line + header_lines_chars(self.headers.entries().take(i as int)),
            decreases n - i,
        {
            let ghost before = head@;
            head.append(self.headers.pairs[i].0.as_str());
            head.append(": ");
            head.append(self.headers.pairs[i].1.as_str());
            head.append("\n");
            proof {
                let es = self.headers.entries();
                assert(es[i as int] == (
                    self.headers.pairs@[i as int].0@,
                    self.headers.pairs@[i as int].1@,
                ));
                assert(es.take(i + 1) =~= es.take(i as int).push(es[i as int]));
                lemma_header_lines_push(es.take(i as int), es[i as int]);
                assert(head@ =~= status_line + header_lines_chars(es.take(i + 1)));
            }
            i += 1;
        }
        head.append("\n");
        proof {
            assert(self.headers.entries().take(n as int) =~= self.headers.entries());
            assert(head@ =~= response_head_chars(*self));
        }
        head
    }

    /// The wire form of the response, ready to be written to a peer.
    pub fn as_bytes(&self) -> (r: Vec<u8>)
        ensures
            r@ == serialize_spec(*self),
    {
        let head = self.head_string();
        let mut bytes = head.as_str().as_bytes_vec();
        let m: usize = self.body.len();
        let mut i: usize = 0;
        while i < m
            invariant
                m == self.body@.len(),
                i <= m,
                bytes@ == encode_utf8(response_head_chars(*self)) + self.body@.take(i as int),
            decreases m - i,
        {
            bytes.push(self.body[i]);
            proof {
                assert(self.body@.take(i + 1) =~= self.body@.take(i as int).push(
                    self.body@[i as int],
                ));
                assert(bytes@ =~= encode_utf8(response_head_chars(*self)) + self.body@.take(
                    i + 1,
                ));
            }
            i += 1;
        }
        proof {
            assert(self.body@.take(m as int) =~= self.body@);
        }
        bytes
    }
}

/// Assembles a response part by part; finished by `into`.
pub struct ResponseBuilder(pub Response);

impl ResponseBuilder {
    pub fn status(self, status: Status) -> (r: Self)
        ensures
            r.0 == (Response { status, ..self.0 }),
    {
        let mut b = self;
        b.0.status = status;
        b
    }

    pub fn version(self, version: Version) -> (r: Self)
        ensures
            r.0 == (Response { version, ..self.0 }),
    {
        let mut b = self;
        b.0.version = version;
        b
    }

    pub fn url(self, url: Url) -> (r: Self)
        ensures
            r.0 == (Response { url, ..self.0 }),
    {
        let mut b = self;
        b.0.url = url;
        b
    }

    /// Sets one header pair; an existing name has its value replaced.
    pub fn header(self, pair: (String, String)) -> (r: Self)
        ensures
            r.0.headers@ == self.0.headers@.insert(pair.0@, pair.1@),
            r.0.status == self.0.status,
            r.0.version == self.0.version,
            r.0.url == self.0.url,
            r.0.body == self.0.body,
    {
        let (key, value) = pair;
        let mut b = self;
        b.0.headers.insert(key, value);
        b
    }

    pub fn headers(self, headers: Headers) -> (r: Self)
        ensures
            r.0 == (Response { headers, ..self.0 }),
    {
        let mut b = self;
        b.0.headers = headers;
        b
    }

    pub fn body(self, body: Vec<u8>) -> (r: Self)
        ensures
            r.0 == (Response { body, ..self.0 }),
    {
        let mut b = self;
        b.0.body = body;
        b
    }
}

impl From<ResponseBuilder> for Response {
    fn from(builder: ResponseBuilder) -> (r: Self) {
        builder.0
    }
}

impl vstd::std_specs::convert::FromSpecImpl<ResponseBuilder> for Response {
    open spec fn obeys_from_spec() -> bool {
        true
    }

    open spec fn from_spec(builder: ResponseBuilder) -> Self {
        builder.0
    }
}

} // verus!
