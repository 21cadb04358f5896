//! The laws of the grammar: a well-formed request text parses back to
//! exactly the parts it was assembled from, a text without the blank-line
//! terminator never parses, and a header line without its separator fails
//! the headers stage.

use vstd::prelude::*;

use crate::common::{version_chars, version_parse_spec, Version};
use crate::headers::{header_parse_one_spec, headers_parse_spec, lemma_split_sub_some};
use crate::request::{method_of_token, request_parse_spec, Method};
use crate::text::{
    dec_digits, dec_ok, digits_val, first_at, has_sub, lemma_dec_digits,
    lemma_split_at, split_sub, sub_at,
};

verus! {

// --- well-formedness of the parts a request text is assembled from ---

/// No character of `s` is a space.
pub open spec fn no_space(s: Seq<char>) -> bool {
    forall|i: int| 0 <= i < s.len() ==> s[i] != ' '
}

/// No CRLF pair occurs inside `s`.
pub open spec fn no_crlf(s: Seq<char>) -> bool {
    forall|i: int| 0 <= i < s.len() - 1 ==> !(#[trigger] s[i] == '\r' && s[i + 1] == '\n')
}

/// No `": "` pair occurs inside `s`.
pub open spec fn no_colon_space(s: Seq<char>) -> bool {
    forall|i: int| 0 <= i < s.len() - 1 ==> !(#[trigger] s[i] == ':' && s[i + 1] == ' ')
}

/// A header pair that survives the wire: the name holds neither CRLF nor
/// the separator, the value holds no CRLF.
pub open spec fn header_wf(name: Seq<char>, value: Seq<char>) -> bool {
    no_crlf(name) && no_colon_space(name) && no_crlf(value)
}

/// The token of each method.
pub open spec fn method_token(m: Method) -> Seq<char> {
    match m {
        Method::OPTIONS => "OPTIONS"@,
        Method::GET => "GET"@,
        Method::HEAD => "HEAD"@,
        Method::POST => "POST"@,
        Method::PUT => "PUT"@,
        Method::DELETE => "DELETE"@,
        Method::TRACE => "TRACE"@,
        Method::CONNECT => "CONNECT"@,
    }
}

/// The header block as it stands on the wire, one CRLF-terminated line per
/// pair.
pub open spec fn header_lines_crlf(hs: Seq<(Seq<char>, Seq<char>)>) -> Seq<char>
    decreases hs.len(),
{
    if hs.len() == 0 {
        Seq::empty()
    } else {
        hs[0].0 + ": "@ + hs[0].1 + "\r\n"@ + header_lines_crlf(hs.drop_first())
    }
}

/// A whole request text assembled from its parts.
pub open spec fn request_text(
    m: Method,
    url: Seq<char>,
    v: Version,
    hs: Seq<(Seq<char>, Seq<char>)>,
    body: Seq<char>,
) -> Seq<char> {
    method_token(m) + " "@ + url + " "@ + version_line(v) + "\r\n"@ + header_lines_crlf(hs)
        + "\r\n"@ + body
}

/// The version as it stands on the request line.
pub open spec fn version_line(v: Version) -> Seq<char> {
    "HTTP/"@ + dec_digits(v.major as nat) + "."@ + dec_digits(v.minor as nat)
}

/// The header mapping a block of lines parses to: the later occurrence of
/// a name wins over an earlier one.
pub open spec fn header_map(hs: Seq<(Seq<char>, Seq<char>)>) -> Map<Seq<char>, Seq<char>>
    decreases hs.len(),
{
    if hs.len() == 0 {
        Map::empty()
    } else {
        let m = header_map(hs.drop_first());
        if m.contains_key(hs[0].0) {
            m
        } else {
            m.insert(hs[0].0, hs[0].1)
        }
    }
}

// --- splitting an assembled text lands exactly at the seams ---

/// When no occurrence of `pat` starts inside `a`, splitting `a + pat + b`
/// finds exactly the seam.
pub proof fn lemma_split_concat(a: Seq<char>, pat: Seq<char>, b: Seq<char>)
    requires
        forall|j: int| 0 <= j < a.len() ==> !sub_at(a + pat + b, pat, j),
    ensures
        split_sub(a + pat + b, pat) == Some((a, b)),
{
    let s = a + pat + b;
    assert(s.subrange(a.len() as int, a.len() + pat.len() as int) =~= pat);
    assert(sub_at(s, pat, a.len() as int));
    assert(first_at(s, pat, a.len() as int));
    lemma_split_at(s, pat, a.len() as int);
    assert(s.subrange(0, a.len() as int) =~= a);
    assert(s.subrange(a.len() + pat.len() as int, s.len() as int) =~= b);
}

/// Splitting at a one-character delimiter that `a` does not contain.
pub proof fn lemma_split_single(a: Seq<char>, pat: Seq<char>, b: Seq<char>)
    requires
        pat.len() == 1,
        forall|i: int| 0 <= i < a.len() ==> a[i] != pat[0],
    ensures
        split_sub(a + pat + b, pat) == Some((a, b)),
{
    let s = a + pat + b;
    assert forall|j: int| 0 <= j < a.len() implies !sub_at(s, pat, j) by {
        if sub_at(s, pat, j) {
            assert(s.subrange(j, j + 1)[0] == pat[0]);
            assert(s[j] == a[j]);
        }
    }
    lemma_split_concat(a, pat, b);
}

/// A text without the delimiter character does not split.
pub proof fn lemma_split_single_none(s: Seq<char>, pat: Seq<char>)
    requires
        pat.len() == 1,
        forall|i: int| 0 <= i < s.len() ==> s[i] != pat[0],
    ensures
        split_sub(s, pat) is None,
{
    if split_sub(s, pat) is Some {
        let i = choose|i: int| first_at(s, pat, i);
        assert(s.subrange(i, i + 1)[0] == pat[0]);
    }
}

/// Splitting at CRLF when no CRLF pair starts inside `a`.
pub proof fn lemma_split_crlf(a: Seq<char>, b: Seq<char>)
    requires
        no_crlf(a),
    ensures
        split_sub(a + "\r\n"@ + b, "\r\n"@) == Some((a, b)),
{
    reveal_strlit("\r\n");
    let pat = "\r\n"@;
    let s = a + pat + b;
    assert forall|j: int| 0 <= j < a.len() implies !sub_at(s, pat, j) by {
        if sub_at(s, pat, j) {
            assert(s.subrange(j, j + 2)[0] == '\r');
            assert(s.subrange(j, j + 2)[1] == '\n');
            assert(s[j] == '\r' && s[j + 1] == '\n');
            assert(s[j] == a[j]);
            if j < a.len() - 1 {
                assert(s[j + 1] == a[j + 1]);
            } else {
                assert(s[j + 1] == pat[0]);
            }
        }
    }
    lemma_split_concat(a, pat, b);
}

/// Splitting a header line at its `": "` seam.
pub proof fn lemma_split_colon_space(name: Seq<char>, value: Seq<char>)
    requires
        no_colon_space(name),
    ensures
        split_sub(name + ": "@ + value, ": "@) == Some((name, value)),
{
    reveal_strlit(": ");
    let pat = ": "@;
    let s = name + pat + value;
    assert forall|j: int| 0 <= j < name.len() implies !sub_at(s, pat, j) by {
        if sub_at(s, pat, j) {
            assert(s.subrange(j, j + 2)[0] == ':');
            assert(s.subrange(j, j + 2)[1] == ' ');
            assert(s[j] == ':' && s[j + 1] == ' ');
            assert(s[j] == name[j]);
            if j < name.len() - 1 {
                assert(s[j + 1] == name[j + 1]);
            } else {
                assert(s[j + 1] == pat[0]);
            }
        }
    }
    lemma_split_concat(name, pat, value);
}

// --- the tokens and digit strings are free of delimiters ---

/// Every method token parses back to its method, and none holds a space.
/// `CONNECT` is the one method without this property: the parser does not
/// recognize its token.
pub proof fn lemma_method_token(m: Method)
    requires
        m != Method::CONNECT,
    ensures
        method_of_token(method_token(m)) == Some(m),
        no_space(method_token(m)),
{
    broadcast use vstd::string::group_string_axioms;

    reveal_strlit("OPTIONS");
    reveal_strlit("GET");
    reveal_strlit("HEAD");
    reveal_strlit("POST");
    reveal_strlit("PUT");
    reveal_strlit("DELETE");
    reveal_strlit("TRACE");
    reveal_strlit("CONNECT");
    assert("OPTIONS"@.len() == 7);
    assert("GET"@.len() == 3);
    assert("HEAD"@.len() == 4);
    assert("POST"@.len() == 4);
    assert("PUT"@.len() == 3);
    assert("DELETE"@.len() == 6);
    assert("TRACE"@.len() == 5);
    assert("POST"@[0] == 'P' && "HEAD"@[0] == 'H');
    assert("POST"@ != "HEAD"@);
    assert("GET"@[0] == 'G' && "PUT"@[0] == 'P');
    assert("PUT"@ != "GET"@);
    match m {
        Method::OPTIONS => {
            assert(method_of_token("OPTIONS"@) == Some(Method::OPTIONS));
        },
        Method::GET => {
            assert(method_of_token("GET"@) == Some(Method::GET));
        },
        Method::HEAD => {
            assert(method_of_token("HEAD"@) == Some(Method::HEAD));
        },
        Method::POST => {
            assert(method_of_token("POST"@) == Some(Method::POST));
        },
        Method::PUT => {
            assert("PUT"@ != "GET"@);
            assert(method_of_token("PUT"@) == Some(Method::PUT));
        },
        Method::DELETE => {
            assert(method_of_token("DELETE"@) == Some(Method::DELETE));
        },
        Method::TRACE => {
            assert(method_of_token("TRACE"@) == Some(Method::TRACE));
        },
        Method::CONNECT => {},
    }
}

/// No character of the version line is a carriage return.
pub proof fn lemma_version_line_chars(v: Version)
    ensures
        forall|i: int| 0 <= i < version_line(v).len() ==> #[trigger] version_line(v)[i] != '\r',
{
    reveal_strlit("HTTP/");
    reveal_strlit(".");
    lemma_dec_digits(v.major as nat);
    lemma_dec_digits(v.minor as nat);
    let d1 = dec_digits(v.major as nat);
    let d2 = dec_digits(v.minor as nat);
    let s = version_line(v);
    assert forall|i: int| 0 <= i < s.len() implies #[trigger] s[i] != '\r' by {
        if i < 5 {
            assert(s[i] == "HTTP/"@[i]);
        } else if i < 5 + d1.len() {
            assert(s[i] == d1[i - 5]);
            assert(crate::text::is_digit(d1[i - 5]));
        } else if i == 5 + d1.len() {
            assert(s[i] == "."@[0]);
        } else {
            assert(s[i] == d2[i - 6 - d1.len()]);
            assert(crate::text::is_digit(d2[i - 6 - d1.len()]));
        }
    }
}

// --- the headers stage reproduces the header block ---

/// A block of well-formed header lines followed by the empty line parses
/// to exactly its pairs, with the text after the empty line as the body.
pub proof fn lemma_headers_roundtrip(hs: Seq<(Seq<char>, Seq<char>)>, body: Seq<char>)
    requires
        forall|i: int| 0 <= i < hs.len() ==> #[trigger] header_wf(hs[i].0, hs[i].1),
    ensures
        headers_parse_spec(header_lines_crlf(hs) + "\r\n"@ + body) == Some(
            (body, header_map(hs)),
        ),
    decreases hs.len(),
{
    reveal_strlit("\r\n");
    reveal_strlit(": ");
    let txt = header_lines_crlf(hs) + "\r\n"@ + body;
    if hs.len() == 0 {
        assert(header_lines_crlf(hs) =~= Seq::<char>::empty());
        assert(txt =~= "\r\n"@ + body);
        assert(txt.subrange(0, 2) =~= "\r\n"@);
        assert(txt.subrange(2, txt.len() as int) =~= body);
        assert(header_map(hs) =~= Map::<Seq<char>, Seq<char>>::empty());
    } else {
        let name = hs[0].0;
        let value = hs[0].1;
        assert(header_wf(name, value));
        let line = name + ": "@ + value;
        let rest = header_lines_crlf(hs.drop_first()) + "\r\n"@ + body;
        assert(txt =~= line + "\r\n"@ + rest);
        assert(!(txt.len() >= 2 && txt.subrange(0, 2) == "\r\n"@)) by {
            if txt.len() >= 2 && txt.subrange(0, 2) == "\r\n"@ {
                assert(txt[0] == txt.subrange(0, 2)[0]);
                assert(txt[1] == txt.subrange(0, 2)[1]);
                assert(txt[0] == '\r' && txt[1] == '\n');
                if name.len() == 0 {
                    assert(txt[0] == ": "@[0]);
                } else if name.len() == 1 {
                    assert(txt[0] == name[0]);
                    assert(txt[1] == ": "@[0]);
                } else {
                    assert(txt[0] == name[0]);
                    assert(txt[1] == name[1]);
                }
            }
        };
        assert(no_crlf(line)) by {
            assert forall|j: int|
                0 <= j < line.len() - 1 implies !(#[trigger] line[j] == '\r' && line[j + 1]
                == '\n') by {
                if j < name.len() - 1 {
                    assert(line[j] == name[j] && line[j + 1] == name[j + 1]);
                } else if j == name.len() - 1 {
                    assert(line[j + 1] == ": "@[0]);
                } else if j == name.len() {
                    assert(line[j] == ": "@[0]);
                } else if j == name.len() + 1 {
                    assert(line[j] == ": "@[1]);
                } else {
                    assert(line[j] == value[j - name.len() - 2] && line[j + 1] == value[j
                        - name.len() - 1]);
                }
            }
        };
        lemma_split_crlf(line, rest);
        assert(split_sub(txt, "\r\n"@) == Some((line, rest)));
        lemma_split_colon_space(name, value);
        assert(header_parse_one_spec(txt) == Some((rest, (name, value))));
        assert forall|i: int|
            0 <= i < hs.drop_first().len() implies #[trigger] header_wf(
            hs.drop_first()[i].0,
            hs.drop_first()[i].1,
        ) by {
            assert(hs.drop_first()[i] == hs[i + 1]);
            assert(header_wf(hs[i + 1].0, hs[i + 1].1));
        }
        lemma_headers_roundtrip(hs.drop_first(), body);
        assert(rest.len() < txt.len());
        assert(headers_parse_spec(txt) == Some((body, header_map(hs))));
    }
}

// --- the whole grammar reproduces a well-formed request ---

/// Parsing a request text assembled from a parseable method, a space-free
/// URL, any version, well-formed header pairs and any body yields back
/// exactly those parts. The header mapping keeps the later of two pairs
/// with the same name, and with distinct names it is exactly the pairs.
#[verifier::rlimit(100)]
pub proof fn lemma_request_roundtrip(
    m: Method,
    url: Seq<char>,
    v: Version,
    hs: Seq<(Seq<char>, Seq<char>)>,
    body: Seq<char>,
)
    requires
        m != Method::CONNECT,
        no_space(url),
        forall|i: int| 0 <= i < hs.len() ==> #[trigger] header_wf(hs[i].0, hs[i].1),
    ensures
        request_parse_spec(request_text(m, url, v, hs, body)) == Some(
            (m, url, v, header_map(hs), body),
        ),
{
    reveal_strlit(" ");
    reveal_strlit("HTTP/");
    reveal_strlit(".");
    reveal_strlit("\r\n");
    let tok = method_token(m);
    let d1 = dec_digits(v.major as nat);
    let d2 = dec_digits(v.minor as nat);
    let vline = version_line(v);
    let rest3 = header_lines_crlf(hs) + "\r\n"@ + body;
    let rest2 = vline + "\r\n"@ + rest3;
    let rest1 = url + " "@ + rest2;
    let txt = request_text(m, url, v, hs, body);
    lemma_method_token(m);
    lemma_dec_digits(v.major as nat);
    lemma_dec_digits(v.minor as nat);
    // the method stage
    assert(txt =~= tok + " "@ + rest1);
    lemma_split_single(tok, " "@, rest1);
    assert(crate::request::method_parse_spec(txt) == Some((rest1, m)));
    // the URL stage
    lemma_split_single(url, " "@, rest2);
    assert(crate::common::url_parse_spec(rest1) == Some((rest2, url)));
    // the version stage
    lemma_version_line_chars(v);
    lemma_split_crlf(vline, rest3);
    assert(split_sub(rest2, "\r\n"@) == Some((vline, rest3)));
    assert(vline.subrange(0, 5) =~= "HTTP/"@);
    assert(sub_at(vline, "HTTP/"@, 0));
    assert(first_at(vline, "HTTP/"@, 0));
    lemma_split_at(vline, "HTTP/"@, 0);
    let after = d1 + "."@ + d2;
    assert(vline.subrange(0, 0) =~= Seq::<char>::empty());
    assert(vline.subrange(5, vline.len() as int) =~= after);
    assert(split_sub(vline, "HTTP/"@) == Some((Seq::<char>::empty(), after)));
    lemma_split_single(d1, "."@, d2);
    assert(split_sub(after, "."@) == Some((d1, d2)));
    lemma_split_single_none(d2, "."@);
    assert(dec_ok(d1, 255) && dec_ok(d2, 255));
    assert(digits_val(d1) == v.major as nat && digits_val(d2) == v.minor as nat);
    assert(version_parse_spec(rest2) == Some((rest3, v)));
    // the headers stage and the body
    lemma_headers_roundtrip(hs, body);
    assert(headers_parse_spec(rest3) == Some((body, header_map(hs))));
    assert(request_parse_spec(txt) == Some((m, url, v, header_map(hs), body)));
}

// --- the wire form of a response has the shape it promises ---

/// The serialization of any response is the status line, one line per
/// stored header pair, and one blank line — all UTF-8 encoded — and then
/// exactly the body bytes, unmodified, as the tail.
pub proof fn lemma_serialize_layout(r: crate::response::Response)
    ensures
        crate::response::serialize_spec(r) == vstd::utf8::encode_utf8(
            crate::response::response_head_chars(r),
        ) + r.body@,
        crate::response::serialize_spec(r).skip(
            vstd::utf8::encode_utf8(crate::response::response_head_chars(r)).len() as int,
        ) == r.body@,
        crate::response::response_head_chars(r) == version_chars(r.version) + " "@
            + dec_digits(crate::response::status_code_spec(r.status) as nat) + " "@
            + crate::response::status_text_chars(r.status) + "\n"@
            + crate::response::header_lines_chars(r.headers.entries()) + "\n"@,
{
    let head = vstd::utf8::encode_utf8(crate::response::response_head_chars(r));
    assert((head + r.body@).skip(head.len() as int) =~= r.body@);
}

// --- texts that violate the grammar never parse ---

/// An occurrence inside the right part of a concatenation is an occurrence
/// in the whole, shifted by the front parts.
pub proof fn lemma_sub_at_suffix(
    a: Seq<char>,
    mid: Seq<char>,
    b: Seq<char>,
    pat: Seq<char>,
    k: int,
)
    requires
        sub_at(b, pat, k),
    ensures
        sub_at(a + mid + b, pat, a.len() + mid.len() + k),
{
    let s = a + mid + b;
    let off = a.len() + mid.len() as int;
    assert(s.subrange(off + k, off + k + pat.len() as int) =~= b.subrange(
        k,
        k + pat.len() as int,
    ));
}

/// A header section that parses either begins with the empty line or holds
/// the double CRLF somewhere.
pub proof fn lemma_headers_have_terminator(s: Seq<char>)
    requires
        headers_parse_spec(s) is Some,
    ensures
        (s.len() >= 2 && s.subrange(0, 2) == "\r\n"@) || has_sub(s, "\r\n\r\n"@),
    decreases s.len(),
{
    reveal_strlit("\r\n");
    reveal_strlit("\r\n\r\n");
    if !(s.len() >= 2 && s.subrange(0, 2) == "\r\n"@) {
        let (line, rest) = split_sub(s, "\r\n"@).unwrap();
        lemma_split_sub_some(s, "\r\n"@);
        lemma_headers_have_terminator(rest);
        if rest.len() >= 2 && rest.subrange(0, 2) == "\r\n"@ {
            assert(rest[0] == '\r' && rest[1] == '\n') by {
                assert(rest.subrange(0, 2)[0] == '\r');
                assert(rest.subrange(0, 2)[1] == '\n');
            }
            assert(s.subrange(line.len() as int, line.len() + 4 as int) =~= "\r\n\r\n"@);
            assert(sub_at(s, "\r\n\r\n"@, line.len() as int));
        } else {
            let k = choose|k: int| sub_at(rest, "\r\n\r\n"@, k);
            lemma_sub_at_suffix(line, "\r\n"@, rest, "\r\n\r\n"@, k);
            assert(sub_at(s, "\r\n\r\n"@, line.len() + 2 + k));
        }
    }
}

/// A request text without the double CRLF that ends the header block never
/// parses: the missing blank-line terminator is a parse error.
#[verifier::rlimit(60)]
pub proof fn lemma_missing_terminator(txt: Seq<char>)
    requires
        !has_sub(txt, "\r\n\r\n"@),
    ensures
        request_parse_spec(txt) is None,
{
    reveal_strlit(" ");
    reveal_strlit("\r\n");
    reveal_strlit("\r\n\r\n");
    if request_parse_spec(txt) is Some {
        let (tok, rest1) = split_sub(txt, " "@).unwrap();
        lemma_split_sub_some(txt, " "@);
        let (u, rest2) = split_sub(rest1, " "@).unwrap();
        lemma_split_sub_some(rest1, " "@);
        let (line, rest3) = split_sub(rest2, "\r\n"@).unwrap();
        lemma_split_sub_some(rest2, "\r\n"@);
        lemma_headers_have_terminator(rest3);
        let k2: int = if rest3.len() >= 2 && rest3.subrange(0, 2) == "\r\n"@ {
            assert(rest3[0] == '\r' && rest3[1] == '\n') by {
                assert(rest3.subrange(0, 2)[0] == '\r');
                assert(rest3.subrange(0, 2)[1] == '\n');
            }
            assert(rest2.subrange(line.len() as int, line.len() + 4 as int) =~= "\r\n\r\n"@);
            assert(sub_at(rest2, "\r\n\r\n"@, line.len() as int));
            line.len() as int
        } else {
            let k = choose|k: int| sub_at(rest3, "\r\n\r\n"@, k);
            lemma_sub_at_suffix(line, "\r\n"@, rest3, "\r\n\r\n"@, k);
            line.len() + 2 + k
        };
        assert(sub_at(rest2, "\r\n\r\n"@, k2));
        lemma_sub_at_suffix(u, " "@, rest2, "\r\n\r\n"@, k2);
        assert(sub_at(rest1, "\r\n\r\n"@, u.len() + 1 + k2));
        lemma_sub_at_suffix(tok, " "@, rest1, "\r\n\r\n"@, u.len() + 1 + k2);
        assert(sub_at(txt, "\r\n\r\n"@, tok.len() + 1 + (u.len() + 1 + k2)));
    }
}

/// A header line with no `": "` separator fails the headers stage, and
/// with it the whole parse.
pub proof fn lemma_malformed_header(txt: Seq<char>)
    requires
        !(txt.len() >= 2 && txt.subrange(0, 2) == "\r\n"@),
        split_sub(txt, "\r\n"@) is Some,
        split_sub(split_sub(txt, "\r\n"@).unwrap().0, ": "@) is None,
    ensures
        headers_parse_spec(txt) is None,
{
}

/// With distinct names, the parsed header mapping holds exactly the pairs
/// of the block.
pub proof fn lemma_header_map_distinct(hs: Seq<(Seq<char>, Seq<char>)>)
    requires
        forall|i: int, j: int| 0 <= i < j < hs.len() ==> hs[i].0 != hs[j].0,
    ensures
        forall|i: int|
            0 <= i < hs.len() ==> #[trigger] header_map(hs).contains_pair(hs[i].0, hs[i].1),
        forall|k: Seq<char>|
            #[trigger] header_map(hs).contains_key(k) ==> exists|i: int|
                0 <= i < hs.len() && hs[i].0 == k,
    decreases hs.len(),
{
    if hs.len() > 0 {
        let hs1 = hs.drop_first();
        assert(forall|i: int| 0 <= i < hs1.len() ==> hs1[i] == hs[i + 1]);
        assert forall|i: int, j: int| 0 <= i < j < hs1.len() implies hs1[i].0 != hs1[j].0 by {
            assert(hs1[i] == hs[i + 1] && hs1[j] == hs[j + 1]);
        }
        lemma_header_map_distinct(hs1);
        let m1 = header_map(hs1);
        assert(!m1.contains_key(hs[0].0)) by {
            if m1.contains_key(hs[0].0) {
                let i = choose|i: int| 0 <= i < hs1.len() && hs1[i].0 == hs[0].0;
                assert(hs[i + 1].0 == hs[0].0);
            }
        };
        assert(header_map(hs) == m1.insert(hs[0].0, hs[0].1));
        assert forall|i: int|
            0 <= i < hs.len() implies #[trigger] header_map(hs).contains_pair(
            hs[i].0,
            hs[i].1,
        ) by {
            if i == 0 {
            } else {
                assert(hs1[i - 1] == hs[i]);
                assert(m1.contains_pair(hs[i].0, hs[i].1));
                assert(hs[i].0 != hs[0].0);
            }
        }
    }
}

} // verus!
