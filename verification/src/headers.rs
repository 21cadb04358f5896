//! The header mapping: names to values, where inserting an existing name
//! replaces its value, so the last occurrence wins. The mapping is held as a
//! list of pairs with the first occurrence of a name authoritative, which
//! the insert operation keeps equivalent to a map.

use vstd::prelude::*;

use crate::assoc::{assoc_find, assoc_index, lemma_assoc_index, lemma_assoc_push, lemma_assoc_replace};
use crate::common::{Parse, ParseError};
use crate::text::{split_once_at, split_sub, starts_with_str};

verus! {

/// The header mapping of a message.
#[derive(Debug)]
pub struct Headers {
    pub pairs: Vec<(String, String)>,
}

impl Headers {
    /// The name/value pairs as sequences of characters, in storage order.
    pub open spec fn entries(&self) -> Seq<(Seq<char>, Seq<char>)> {
        self.pairs@.map_values(|p: (String, String)| (p.0@, p.1@))
    }
}

impl View for Headers {
    type V = Map<Seq<char>, Seq<char>>;

    open spec fn view(&self) -> Map<Seq<char>, Seq<char>> {
        Map::new(
            |k: Seq<char>| assoc_find(self.entries(), k) is Some,
            |k: Seq<char>| assoc_find(self.entries(), k).unwrap(),
        )
    }
}

impl Default for Headers {
    fn default() -> (r: Self)
        ensures
            r.entries() == Seq::<(Seq<char>, Seq<char>)>::empty(),
            r@ == Map::<Seq<char>, Seq<char>>::empty(),
    {
        let r = Headers { pairs: Vec::new() };
        proof {
            assert(r.entries() =~= Seq::<(Seq<char>, Seq<char>)>::empty());
            assert(r@ =~= Map::<Seq<char>, Seq<char>>::empty());
        }
        r
    }
}

impl Headers {
    pub fn new() -> (r: Self)
        ensures
            r.entries() == Seq::<(Seq<char>, Seq<char>)>::empty(),
            r@ == Map::<Seq<char>, Seq<char>>::empty(),
    {
        Headers::default()
    }

    /// Sets `name` to `value`: replaces the value in place when the name is
    /// present, appends the pair when it is not.
    pub fn insert(&mut self, name: String, value: String)
        ensures
            final(self)@ == old(self)@.insert(name@, value@),
            old(self)@.contains_key(name@) ==> final(self).entries() == old(self).entries().update(
                assoc_index(old(self).entries(), name@),
                (name@, value@),
            ),
            !old(self)@.contains_key(name@) ==> final(self).entries() == old(
                self,
            ).entries().push((name@, value@)),
    {
        let ghost es0 = self.entries();
        let n: usize = self.pairs.len();
        let mut i: usize = 0;
        while i < n
            invariant
                n == self.pairs@.len(),
                i <= n,
                self.pairs == old(self).pairs,
                es0 == self.entries(),
                forall|j: int| 0 <= j < i ==> es0[j].0 != name@,
            decreases n - i,
        {
            if crate::text::str_eq(self.pairs[i].0.as_str(), name.as_str()) {
                let ghost nv = (name@, value@);
                proof {
                    assert(es0[i as int] == (self.pairs@[i as int].0@, self.pairs@[i as int].1@));
                    assert(es0[i as int].0 == name@);
                    lemma_assoc_index(es0, name@);
                    assert(assoc_find(es0, name@) is Some);
                    assert(assoc_index(es0, name@) == i as int);
                }
                self.pairs.set(i, (name, value));
                proof {
                    assert(self.entries() =~= es0.update(i as int, nv));
                    assert forall|k2: Seq<char>| true implies assoc_find(self.entries(), k2) == (
                    if k2 == nv.0 {
                        Some(nv.1)
                    } else {
                        assoc_find(es0, k2)
                    }) by {
                        lemma_assoc_replace(es0, i as int, nv.0, nv.1, k2);
                    }
                    assert(self@ =~= old(self)@.insert(nv.0, nv.1));
                }
                return ;
            }
            proof {
                assert(es0[i as int] == (self.pairs@[i as int].0@, self.pairs@[i as int].1@));
            }
            i += 1;
        }
        proof {
            assert(forall|j: int|
                0 <= j < es0.len() ==> es0[j] == (
                self.pairs@[j].0@,
                self.pairs@[j].1@,
                ));
            lemma_assoc_index(es0, name@);
            assert(assoc_find(es0, name@) is None);
        }
        let ghost nv = (name@, value@);
        self.pairs.push((name, value));
        proof {
            assert(self.entries() =~= es0.push(nv));
            assert forall|k2: Seq<char>| true implies assoc_find(self.entries(), k2) == (if k2
                == nv.0 {
                Some(nv.1)
            } else {
                assoc_find(es0, k2)
            }) by {
                lemma_assoc_push(es0, nv.0, nv.1, k2);
            }
            assert(self@ =~= old(self)@.insert(nv.0, nv.1));
        }
    }

    /// The value stored under `name`, if any.
    pub fn get<'a>(&'a self, name: &str) -> (r: Option<&'a String>)
        ensures
            match r {
                Some(v) => self@.contains_key(name@) && self@[name@] == v@,
                None => !self@.contains_key(name@),
            },
    {
        let n: usize = self.pairs.len();
        let mut i: usize = 0;
        while i < n
            invariant
                n == self.pairs@.len(),
                i <= n,
                forall|j: int| 0 <= j < i ==> self.entries()[j].0 != name@,
            decreases n - i,
        {
            if crate::text::str_eq(self.pairs[i].0.as_str(), name) {
                proof {
                    let es = self.entries();
                    assert(es[i as int] == (self.pairs@[i as int].0@, self.pairs@[i as int].1@));
                    assert(es[i as int].0 == name@);
                    lemma_assoc_index(es, name@);
                    assert(assoc_index(es, name@) == i as int);
                    assert(self@[name@] == es[i as int].1);
                }
                return Some(&self.pairs[i].1);
            }
            proof {
                assert(self.entries()[i as int] == (
                    self.pairs@[i as int].0@,
                    self.pairs@[i as int].1@,
                ));
            }
            i += 1;
        }
        proof {
            let es = self.entries();
            assert(forall|j: int| 0 <= j < es.len() ==> es[j] == (self.pairs@[j].0@, self.pairs@[j].1@));
            lemma_assoc_index(es, name@);
        }
        None
    }
}

/// One header line: the text up to CRLF, split at the first `": "`.
pub open spec fn header_parse_one_spec(txt: Seq<char>) -> Option<
    (Seq<char>, (Seq<char>, Seq<char>)),
> {
    match split_sub(txt, "\r\n"@) {
        None => None,
        Some((line, rest)) => match split_sub(line, ": "@) {
            None => None,
            Some((name, value)) => Some((rest, (name, value))),
        },
    }
}

impl Headers {
    /// Reads one `Name: Value` line off the front of the text.
    pub fn parse_one(txt: &str) -> (res: Result<(&str, (String, String)), ParseError>)
        ensures
            match res {
                Ok((rest, p)) => header_parse_one_spec(txt@) == Some((rest@, (p.0@, p.1@))),
                Err(_) => header_parse_one_spec(txt@) is None,
            },
    {
        let (line, rest) = match split_once_at(txt, "\r\n") {
            Some(p) => p,
            None => {
                return Err(ParseError());
            },
        };
        let (name, value) = match split_once_at(line, ": ") {
            Some(p) => p,
            None => {
                return Err(ParseError());
            },
        };
        Ok((rest, (name.to_owned(), value.to_owned())))
    }
}

/// The headers stage: header lines are read one at a time and inserted into
/// the mapping until the first empty line; what follows that line is handed
/// back, to be taken verbatim as the body.
pub open spec fn headers_parse_spec(txt: Seq<char>) -> Option<
    (Seq<char>, Map<Seq<char>, Seq<char>>),
>
    decreases txt.len(),
{
    if txt.len() >= 2 && txt.subrange(0, 2) == "\r\n"@ {
        Some((txt.subrange(2, txt.len() as int), Map::empty()))
    } else {
        match header_parse_one_spec(txt) {
            None => None,
            Some((rest, (name, value))) => if rest.len() < txt.len() {
                match headers_parse_spec(rest) {
                    None => None,
                    Some((body, m)) => Some(
                        (
                            body,
                            if m.contains_key(name) {
                                m
                            } else {
                                m.insert(name, value)
                            },
                        ),
                    ),
                }
            } else {
                None
            },
        }
    }
}

/// What a successful line split guarantees about the pieces.
pub proof fn lemma_split_sub_some(s: Seq<char>, pat: Seq<char>)
    requires
        split_sub(s, pat) is Some,
    ensures
        ({
            let (a, b) = split_sub(s, pat).unwrap();
            &&& first_at_len(s, pat, a, b)
        }),
{
    let i = choose|i: int| crate::text::first_at(s, pat, i);
    let (a, b) = split_sub(s, pat).unwrap();
    assert(a =~= s.subrange(0, i));
    assert(b =~= s.subrange(i + pat.len() as int, s.len() as int));
    assert(s =~= a + pat + b);
}

/// The pieces of a split cover the whole text.
pub open spec fn first_at_len(s: Seq<char>, pat: Seq<char>, a: Seq<char>, b: Seq<char>) -> bool {
    s == a + pat + b && a.len() + pat.len() + b.len() == s.len() && crate::text::first_at(
        s,
        pat,
        a.len() as int,
    )
}

impl Parse for Headers {
    open spec fn parse_spec(txt: Seq<char>) -> Option<(Seq<char>, Map<Seq<char>, Seq<char>>)> {
        headers_parse_spec(txt)
    }

    fn parse(txt: &str) -> (res: Result<(&str, Self), ParseError>) {
        let mut headers = Headers::new();
        let mut rest: &str = txt;
        proof {
            match headers_parse_spec(txt@) {
                Some((body, m)) => {
                    assert(headers@.union_prefer_right(m) =~= m);
                },
                None => {},
            }
        }
        loop
            invariant
                match headers_parse_spec(rest@) {
                    Some((body, m)) => headers_parse_spec(txt@) == Some(
                        (body, headers@.union_prefer_right(m)),
                    ),
                    None => headers_parse_spec(txt@) is None,
                },
            decreases rest@.len(),
        {
            if starts_with_str(rest, "\r\n") {
                proof {
                    reveal_strlit("\r\n");
                }
                let n: usize = rest.unicode_len();
                let body = rest.substring_char(2, n);
                proof {
                    assert(headers_parse_spec(rest@) == Some(
                        (rest@.subrange(2, rest@.len() as int), Map::<Seq<char>, Seq<char>>::empty()),
                    ));
                    assert(headers@.union_prefer_right(Map::<Seq<char>, Seq<char>>::empty())
                        =~= headers@);
                }
                return Ok((body, headers));
            }
            proof {
                reveal_strlit("\r\n");
                assert(!(rest@.len() >= 2 && rest@.subrange(0, 2) == "\r\n"@));
            }
            let (txt_rest, (name, value)) = match Headers::parse_one(rest) {
                Ok(p) => p,
                Err(e) => {
                    return Err(e);
                },
            };
            proof {
                lemma_split_sub_some(rest@, "\r\n"@);
                let (line, r2) = split_sub(rest@, "\r\n"@).unwrap();
                assert(r2.len() < rest@.len());
                assert(txt_rest@.len() < rest@.len());
                let body_m = headers_parse_spec(txt_rest@);
                if body_m is Some {
                    let (body, m) = body_m.unwrap();
                    let m2 = if m.contains_key(name@) {
                        m
                    } else {
                        m.insert(name@, value@)
                    };
                    assert(headers_parse_spec(rest@) == Some((body, m2)));
                    assert(headers@.insert(name@, value@).union_prefer_right(m)
                        =~= headers@.union_prefer_right(m2));
                }
            }
            headers.insert(name, value);
            rest = txt_rest;
        }
    }
}

} // verus!
