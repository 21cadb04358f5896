//! Shared pieces of the message grammar: the error kinds, the `Parse`
//! capability, the URL and the protocol version.
//!
//! Every parser consumes text strictly left to right: it either splits the
//! input at the first occurrence of a delimiter and returns the remainder, or
//! fails with a single generic parse error.

use vstd::prelude::*;

use crate::text::{dec_ok, digits_val, split_once_at, split_sub};

verus! {

/// A grammar violation; all parse failures collapse to this one kind.
#[derive(Debug, Clone, Copy, PartialEq, Eq, Structural)]
pub struct ParseError();

/// The failure kinds a connection can see: a socket-level failure, a request
/// that does not parse, and a failure inside a handler.
#[derive(Debug, Clone, Copy, PartialEq, Eq, Structural)]
pub enum NetError {
    Transport,
    Parse,
    Handler,
}

/// The capability of reading one value off the front of a request text.
///
/// `parse_spec` is the mathematical description of the grammar stage;
/// `parse` must return exactly what it says: the unconsumed remainder and
/// the parsed value on success, an error exactly when the stage has none.
pub trait Parse: View + Sized {
    spec fn parse_spec(txt: Seq<char>) -> Option<(Seq<char>, Self::V)>;

    fn parse(txt: &str) -> (res: Result<(&str, Self), ParseError>)
        ensures
            match res {
                Ok((rest, v)) => Self::parse_spec(txt@) == Some((rest@, v@)),
                Err(_) => Self::parse_spec(txt@) is None,
            },
    ;
}

/// An opaque path, compared by exact equality; no normalization.
#[derive(Debug)]
pub struct Url {
    pub path: String,
}

impl View for Url {
    type V = Seq<char>;

    open spec fn view(&self) -> Seq<char> {
        self.path@
    }
}

impl Url {
    pub fn with_path(path: &str) -> (r: Url)
        ensures
            r@ == path@,
    {
        Url { path: path.to_owned() }
    }

    pub fn path(&self) -> (r: &str)
        ensures
            r@ == self@,
    {
        self.path.as_str()
    }
}

impl Default for Url {
    fn default() -> (r: Self)
        ensures
            r@ == Seq::<char>::empty(),
    {
        Url { path: String::new() }
    }
}

/// The URL stage: the token up to the next space.
pub open spec fn url_parse_spec(txt: Seq<char>) -> Option<(Seq<char>, Seq<char>)> {
    match split_sub(txt, " "@) {
        Some((tok, rest)) => Some((rest, tok)),
        None => None,
    }
}

impl Parse for Url {
    open spec fn parse_spec(txt: Seq<char>) -> Option<(Seq<char>, Seq<char>)> {
        url_parse_spec(txt)
    }

    fn parse(txt: &str) -> (res: Result<(&str, Self), ParseError>) {
        match split_once_at(txt, " ") {
            Some((tok, rest)) => Ok((rest, Url { path: tok.to_owned() })),
            None => Err(ParseError()),
        }
    }
}

/// A protocol version: a major.minor pair, 1.1 by default.
#[derive(Debug, Clone, Copy, PartialEq, Eq, Structural)]
pub struct Version {
    pub major: u8,
    pub minor: u8,
}

impl View for Version {
    type V = Version;

    open spec fn view(&self) -> Version {
        *self
    }
}

impl Default for Version {
    fn default() -> (r: Self)
        ensures
            r == (Version { major: 1, minor: 1 }),
    {
        Version { major: 1, minor: 1 }
    }
}

/// The version stage: the line up to CRLF must hold `HTTP/` followed by two
/// decimal components joined by a dot. Text before `HTTP/` is skipped, and a
/// third dot-separated component is ignored, exactly as the splitting
/// performs it.
pub open spec fn version_parse_spec(txt: Seq<char>) -> Option<(Seq<char>, Version)> {
    match split_sub(txt, "\r\n"@) {
        None => None,
        Some((line, rest)) => match split_sub(line, "HTTP/"@) {
            None => None,
            Some((_skipped, after)) => match split_sub(after, "."@) {
                None => None,
                Some((majs, tail)) => {
                    let mins = match split_sub(tail, "."@) {
                        None => tail,
                        Some((m, _)) => m,
                    };
                    if dec_ok(majs, 255) && dec_ok(mins, 255) {
                        Some(
                            (
                                rest,
                                Version {
                                    major: digits_val(majs) as u8,
                                    minor: digits_val(mins) as u8,
                                },
                            ),
                        )
                    } else {
                        None
                    }
                },
            },
        },
    }
}

impl Parse for Version {
    open spec fn parse_spec(txt: Seq<char>) -> Option<(Seq<char>, Version)> {
        version_parse_spec(txt)
    }

    fn parse(txt: &str) -> (res: Result<(&str, Self), ParseError>) {
        let (line, rest) = match split_once_at(txt, "\r\n") {
            Some(p) => p,
            None => {
                return Err(ParseError());
            },
        };
        let (_skipped, after) = match split_once_at(line, "HTTP/") {
            Some(p) => p,
            None => {
                return Err(ParseError());
            },
        };
        let (majs, tail) = match split_once_at(after, ".") {
            Some(p) => p,
            None => {
                return Err(ParseError());
            },
        };
        let mins = match split_once_at(tail, ".") {
            Some((m, _)) => m,
            None => tail,
        };
        let major = match crate::text::parse_u8(majs) {
            Some(v) => v,
            None => {
                return Err(ParseError());
            },
        };
        let minor = match crate::text::parse_u8(mins) {
            Some(v) => v,
            None => {
                return Err(ParseError());
            },
        };
        Ok((rest, Version { major, minor }))
    }
}

impl Version {
    /// The wire form of the version, `HTTP/<major>.<minor>`.
    pub fn to_string(&self) -> (r: String)
        ensures
            r@ == version_chars(*self),
    {
        let mut s = String::from_str("HTTP/");
        s.append(crate::text::dec_string(self.major as u16).as_str());
        s.append(".");
        s.append(crate::text::dec_string(self.minor as u16).as_str());
        assert(s@ =~= version_chars(*self));
        s
    }
}

/// The text of a version as it is serialized.
pub open spec fn version_chars(v: Version) -> Seq<char> {
    "HTTP/"@ + crate::text::dec_digits(v.major as nat) + "."@ + crate::text::dec_digits(
        v.minor as nat,
    )
}

} // verus!
