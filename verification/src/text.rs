//! Character-level text matching: substring search, splitting at the first
//! occurrence of a delimiter, and decimal number parsing and printing.
//! These are the primitives the request grammar and the response
//! serialization are specified with.

use vstd::prelude::*;

verus! {

/// `pat` occurs in `s` starting at index `i`.
pub open spec fn sub_at(s: Seq<char>, pat: Seq<char>, i: int) -> bool {
    0 <= i && i + pat.len() <= s.len() && s.subrange(i, i + pat.len() as int) == pat
}

/// `i` is the first index at which `pat` occurs in `s`.
pub open spec fn first_at(s: Seq<char>, pat: Seq<char>, i: int) -> bool {
    sub_at(s, pat, i) && (forall|j: int| 0 <= j < i ==> !sub_at(s, pat, j))
}

/// `pat` occurs somewhere in `s`.
pub open spec fn has_sub(s: Seq<char>, pat: Seq<char>) -> bool {
    exists|i: int| sub_at(s, pat, i)
}

/// The text before and the text after the first occurrence of `pat` in `s`,
/// or `None` when `pat` does not occur.
pub open spec fn split_sub(s: Seq<char>, pat: Seq<char>) -> Option<(Seq<char>, Seq<char>)> {
    if exists|i: int| first_at(s, pat, i) {
        let i = choose|i: int| first_at(s, pat, i);
        Some((s.subrange(0, i), s.subrange(i + pat.len() as int, s.len() as int)))
    } else {
        None
    }
}

/// At most one index is the first occurrence.
pub proof fn lemma_first_at_unique(s: Seq<char>, pat: Seq<char>, i: int, j: int)
    requires
        first_at(s, pat, i),
        first_at(s, pat, j),
    ensures
        i == j,
{
}

/// `split_sub` splits exactly at a known first occurrence.
pub proof fn lemma_split_at(s: Seq<char>, pat: Seq<char>, i: int)
    requires
        first_at(s, pat, i),
    ensures
        split_sub(s, pat) == Some(
            (s.subrange(0, i), s.subrange(i + pat.len() as int, s.len() as int)),
        ),
{
    let i0 = choose|i0: int| first_at(s, pat, i0);
    lemma_first_at_unique(s, pat, i, i0);
}

/// Whether `pat` occurs in `s` at index `i`, checked character by character.
pub fn match_at(s: &str, pat: &str, i: usize, n: usize, p: usize) -> (r: bool)
    requires
        n == s@.len(),
        p == pat@.len(),
        i + p <= n,
    ensures
        r == sub_at(s@, pat@, i as int),
{
    let mut j: usize = 0;
    while j < p
        invariant
            n == s@.len(),
            p == pat@.len(),
            i + p <= n,
            j <= p,
            forall|k: int| 0 <= k < j ==> s@[i + k] == pat@[k],
        decreases p - j,
    {
        if s.get_char(i + j) != pat.get_char(j) {
            assert(s@.subrange(i as int, i + p) != pat@) by {
                assert(s@.subrange(i as int, i + p)[j as int] != pat@[j as int]);
            }
            return false;
        }
        j += 1;
    }
    assert(s@.subrange(i as int, i + p) =~= pat@);
    true
}

/// The index of the first occurrence of `pat` in `s`, if any.
pub fn find_first(s: &str, pat: &str) -> (r: Option<usize>)
    ensures
        match r {
            Some(i) => first_at(s@, pat@, i as int),
            None => !has_sub(s@, pat@),
        },
{
    let n: usize = s.unicode_len();
    let p: usize = pat.unicode_len();
    if p > n {
        return None;
    }
    if p == 0 {
        assert(s@.subrange(0, 0) =~= pat@);
        assert(first_at(s@, pat@, 0));
        return Some(0);
    }
    let mut i: usize = 0;
    while i <= n - p
        invariant
            n == s@.len(),
            p == pat@.len(),
            0 < p <= n,
            i <= n - p + 1,
            forall|j: int| 0 <= j < i ==> !sub_at(s@, pat@, j),
        decreases n - p + 1 - i,
    {
        if match_at(s, pat, i, n, p) {
            return Some(i);
        }
        i += 1;
    }
    assert(forall|j: int| !sub_at(s@, pat@, j));
    None
}

/// Splits `s` at the first occurrence of `pat`, returning the text before
/// and the text after it.
pub fn split_once_at<'a>(s: &'a str, pat: &str) -> (r: Option<(&'a str, &'a str)>)
    ensures
        match r {
            Some((a, b)) => split_sub(s@, pat@) == Some((a@, b@)),
            None => split_sub(s@, pat@) is None,
        },
{
    let n: usize = s.unicode_len();
    let p: usize = pat.unicode_len();
    match find_first(s, pat) {
        Some(i) => {
            proof {
                lemma_split_at(s@, pat@, i as int);
            }
            let before = s.substring_char(0, i);
            let after = s.substring_char(i + p, n);
            Some((before, after))
        },
        None => {
            proof {
                if exists|i: int| first_at(s@, pat@, i) {
                    let i = choose|i: int| first_at(s@, pat@, i);
                    assert(sub_at(s@, pat@, i));
                }
            }
            None
        },
    }
}

/// Character-for-character string equality.
pub fn str_eq(a: &str, b: &str) -> (r: bool)
    ensures
        r == (a@ == b@),
{
    let n: usize = a.unicode_len();
    if n != b.unicode_len() {
        return false;
    }
    let mut i: usize = 0;
    while i < n
        invariant
            n == a@.len(),
            n == b@.len(),
            i <= n,
            forall|k: int| 0 <= k < i ==> a@[k] == b@[k],
        decreases n - i,
    {
        if a.get_char(i) != b.get_char(i) {
            return false;
        }
        i += 1;
    }
    assert(a@ =~= b@);
    true
}

/// Whether `s` begins with `pat`.
pub fn starts_with_str(s: &str, pat: &str) -> (r: bool)
    ensures
        r == (pat@.len() <= s@.len() && s@.subrange(0, pat@.len() as int) == pat@),
{
    let n: usize = s.unicode_len();
    let p: usize = pat.unicode_len();
    if p > n {
        return false;
    }
    match_at(s, pat, 0, n, p)
}

// --- decimal numbers ---

/// `c` is an ASCII decimal digit.
pub open spec fn is_digit(c: char) -> bool {
    48 <= c as u32 <= 57
}

/// The numeric value of a digit character.
pub open spec fn digit_val(c: char) -> int {
    c as u32 - 48
}

/// Every character of `s` is a decimal digit.
pub open spec fn all_digits(s: Seq<char>) -> bool {
    forall|i: int| 0 <= i < s.len() ==> is_digit(s[i])
}

/// The value of a digit string read in base ten.
pub open spec fn digits_val(s: Seq<char>) -> int
    decreases s.len(),
{
    if s.len() == 0 {
        0
    } else {
        digits_val(s.drop_last()) * 10 + digit_val(s.last())
    }
}

/// `s` is a digit string whose value fits below `max`.
pub open spec fn dec_ok(s: Seq<char>, max: int) -> bool {
    s.len() > 0 && all_digits(s) && digits_val(s) <= max
}

pub proof fn lemma_digits_val_nonneg(s: Seq<char>)
    requires
        all_digits(s),
    ensures
        digits_val(s) >= 0,
    decreases s.len(),
{
    if s.len() > 0 {
        assert(all_digits(s.drop_last()));
        lemma_digits_val_nonneg(s.drop_last());
    }
}

pub proof fn lemma_digits_val_take(s: Seq<char>, k: int)
    requires
        0 <= k < s.len(),
    ensures
        digits_val(s.take(k + 1)) == digits_val(s.take(k)) * 10 + digit_val(s[k]),
{
    assert(s.take(k + 1).drop_last() =~= s.take(k));
    assert(s.take(k + 1).last() == s[k]);
}

/// Once a digit prefix exceeds a bound, the whole digit string does too.
pub proof fn lemma_digits_val_grows(s: Seq<char>, k: int, max: int)
    requires
        all_digits(s),
        0 <= k <= s.len(),
        max >= 0,
        digits_val(s.take(k)) > max,
    ensures
        digits_val(s) > max,
    decreases s.len() - k,
{
    if k == s.len() {
        assert(s.take(k) =~= s);
    } else {
        lemma_digits_val_take(s, k);
        assert(digits_val(s.take(k)) >= 0) by {
            assert(all_digits(s.take(k)));
            lemma_digits_val_nonneg(s.take(k));
        }
        assert(digits_val(s.take(k + 1)) > max);
        lemma_digits_val_grows(s, k + 1, max);
    }
}

/// Parses an unsigned decimal number of at most five digits' worth,
/// rejecting empty input, non-digits, and values above `u16::MAX`.
pub fn parse_u16(s: &str) -> (r: Option<u16>)
    ensures
        match r {
            Some(v) => dec_ok(s@, 65535) && v as int == digits_val(s@),
            None => !dec_ok(s@, 65535),
        },
{
    let n: usize = s.unicode_len();
    if n == 0 {
        return None;
    }
    let mut val: u32 = 0;
    let mut i: usize = 0;
    while i < n
        invariant
            n == s@.len(),
            i <= n,
            all_digits(s@.take(i as int)),
            val == digits_val(s@.take(i as int)),
            val <= 65535,
        decreases n - i,
    {
        let c: char = s.get_char(i);
        let d: u32 = c as u32;
        if d < 48 || d > 57 {
            assert(!is_digit(s@[i as int]));
            return None;
        }
        proof {
            lemma_digits_val_take(s@, i as int);
        }
        val = val * 10 + (d - 48);
        i += 1;
        if val > 65535 {
            proof {
                if all_digits(s@) {
                    lemma_digits_val_grows(s@, i as int, 65535);
                }
            }
            return None;
        }
    }
    assert(s@.take(n as int) =~= s@);
    Some(val as u16)
}

/// Parses an unsigned decimal number that must fit in a byte.
pub fn parse_u8(s: &str) -> (r: Option<u8>)
    ensures
        match r {
            Some(v) => dec_ok(s@, 255) && v as int == digits_val(s@),
            None => !dec_ok(s@, 255),
        },
{
    match parse_u16(s) {
        Some(v) => {
            if v <= 255 {
                Some(v as u8)
            } else {
                None
            }
        },
        None => None,
    }
}

/// The character for a digit value.
pub open spec fn digit_char(d: int) -> char {
    if d == 0 {
        '0'
    } else if d == 1 {
        '1'
    } else if d == 2 {
        '2'
    } else if d == 3 {
        '3'
    } else if d == 4 {
        '4'
    } else if d == 5 {
        '5'
    } else if d == 6 {
        '6'
    } else if d == 7 {
        '7'
    } else if d == 8 {
        '8'
    } else {
        '9'
    }
}

/// The canonical decimal digit string of `n`.
pub open spec fn dec_digits(n: nat) -> Seq<char>
    decreases n,
{
    if n < 10 {
        seq![digit_char(n as int)]
    } else {
        dec_digits(n / 10).push(digit_char((n % 10) as int))
    }
}

pub proof fn lemma_dec_digits(n: nat)
    ensures
        dec_digits(n).len() >= 1,
        all_digits(dec_digits(n)),
        digits_val(dec_digits(n)) == n,
    decreases n,
{
    if n < 10 {
        assert(digits_val(dec_digits(n)) == digits_val(seq![digit_char(n as int)].drop_last())
            * 10 + digit_val(digit_char(n as int)));
        assert(seq![digit_char(n as int)].drop_last() =~= Seq::<char>::empty());
    } else {
        lemma_dec_digits(n / 10);
        let s = dec_digits(n / 10).push(digit_char((n % 10) as int));
        assert(s.drop_last() =~= dec_digits(n / 10));
        assert(digits_val(s) == digits_val(dec_digits(n / 10)) * 10 + digit_val(
            digit_char((n % 10) as int),
        ));
    }
}

/// A one-character string for a digit value.
fn digit_str(d: u16) -> (r: &'static str)
    requires
        d < 10,
    ensures
        r@ =~= seq![digit_char(d as int)],
{
    proof {
        reveal_strlit("0");
        reveal_strlit("1");
        reveal_strlit("2");
        reveal_strlit("3");
        reveal_strlit("4");
        reveal_strlit("5");
        reveal_strlit("6");
        reveal_strlit("7");
        reveal_strlit("8");
        reveal_strlit("9");
    }
    match d {
        0 => "0",
        1 => "1",
        2 => "2",
        3 => "3",
        4 => "4",
        5 => "5",
        6 => "6",
        7 => "7",
        8 => "8",
        _ => "9",
    }
}

/// Renders `n` in decimal.
pub fn dec_string(n: u16) -> (s: String)
    ensures
        s@ == dec_digits(n as nat),
    decreases n,
{
    if n < 10 {
        String::from_str(digit_str(n))
    } else {
        let mut s = dec_string(n / 10);
        s.append(digit_str(n % 10));
        assert(s@ =~= dec_digits(n as nat));
        s
    }
}

} // verus!
