//! Character-level helpers on strings: conversion to and from character
//! vectors, equality, decimal rendering of integers and whitespace trimming.

use vstd::prelude::*;

verus! {

broadcast use vstd::string::group_string_axioms;

/// `String::push` from std: appends one character.
#[verifier::external_body]
pub(crate) fn push_char(s: &mut String, c: char)
    ensures
        final(s)@ == old(s)@.push(c),
{
    s.push(c);
}

/// The characters of `s`, in order.
pub fn chars_of(s: &str) -> (v: Vec<char>)
    ensures
        v@ == s@,
{
    let mut v: Vec<char> = Vec::new();
    for c in it: s.chars()
        invariant
            v@ == it.seq().take(it.index() as int),
            it.seq() == s@,
    {
        v.push(c);
    }
    v
}

/// Builds a string from a character vector.
pub fn string_of(v: &Vec<char>) -> (s: String)
    ensures
        s@ == v@,
{
    let mut s = String::new();
    let mut i: usize = 0;
    while i < v.len()
        invariant
            i <= v.len(),
            s@ == v@.take(i as int),
        decreases v.len() - i,
    {
        push_char(&mut s, v[i]);
        i += 1;
        assert(s@ == v@.take(i as int));
    }
    assert(v@.take(v.len() as int) == v@);
    s
}

/// String equality, by characters.
pub fn str_eq(a: &str, b: &str) -> (r: bool)
    ensures
        r == (a@ == b@),
{
    a.to_owned() == b.to_owned()
}

/// The decimal digit character for `d` (which is below ten).
pub open spec fn digit_char(d: nat) -> char {
    ((48 + d) as u32) as char
}

/// Decimal rendering of a natural number, most significant digit first,
/// without leading zeros (zero is "0").
pub open spec fn decimal(n: nat) -> Seq<char>
    decreases n,
{
    if n < 10 {
        seq![digit_char(n)]
    } else {
        decimal(n / 10).push(digit_char(n % 10))
    }
}

/// Decimal rendering of a signed integer: a minus sign before the digits
/// of the magnitude for negative numbers.
pub open spec fn signed_decimal(n: int) -> Seq<char> {
    if n < 0 {
        seq!['-'] + decimal((-n) as nat)
    } else {
        decimal(n as nat)
    }
}

/// Appends the decimal rendering of `n` to `s`.
pub fn push_decimal(s: &mut String, n: u64)
    ensures
        final(s)@ == old(s)@ + decimal(n as nat),
    decreases n,
{
    if n >= 10 {
        push_decimal(s, n / 10);
    }
    let d: u8 = (n % 10) as u8;
    let c: char = (48u8 + d) as char;
    push_char(s, c);
}

/// Appends the decimal rendering of `n` to `s`, with a leading minus sign
/// when `n` is negative.
pub fn push_signed_decimal(s: &mut String, n: i32)
    ensures
        final(s)@ == old(s)@ + signed_decimal(n as int),
{
    if n < 0 {
        push_char(s, '-');
        let magnitude: i64 = -(n as i64);
        push_decimal(s, magnitude as u64);
    } else {
        push_decimal(s, n as u64);
    }
}

/// The Unicode `White_Space` property.
pub open spec fn is_white_space(c: char) -> bool {
    let u = c as u32;
    ||| 0x9 <= u <= 0xD
    ||| u == 0x20
    ||| u == 0x85
    ||| u == 0xA0
    ||| u == 0x1680
    ||| 0x2000 <= u <= 0x200A
    ||| u == 0x2028
    ||| u == 0x2029
    ||| u == 0x202F
    ||| u == 0x205F
    ||| u == 0x3000
}

/// Whether `c` has the Unicode `White_Space` property.
pub fn is_whitespace_char(c: char) -> (r: bool)
    ensures
        r == is_white_space(c),
{
    let u = c as u32;
    (0x9 <= u && u <= 0xD) || u == 0x20 || u == 0x85 || u == 0xA0 || u == 0x1680 || (0x2000
        <= u && u <= 0x200A) || u == 0x2028 || u == 0x2029 || u == 0x202F || u == 0x205F || u
        == 0x3000
}

/// `s` without its leading white space.
pub open spec fn trim_start(s: Seq<char>) -> Seq<char>
    decreases s.len(),
{
    if s.len() > 0 && is_white_space(s[0]) {
        trim_start(s.drop_first())
    } else {
        s
    }
}

/// `s` without its trailing white space.
pub open spec fn trim_end(s: Seq<char>) -> Seq<char>
    decreases s.len(),
{
    if s.len() > 0 && is_white_space(s.last()) {
        trim_end(s.drop_last())
    } else {
        s
    }
}

/// `s` without leading and trailing white space.
pub open spec fn trim(s: Seq<char>) -> Seq<char> {
    trim_end(trim_start(s))
}

/// Removes leading and trailing white space.
pub fn trim_string(s: &str) -> (r: String)
    ensures
        r@ == trim(s@),
{
    let v = chars_of(s);
    let n = v.len();
    let mut i: usize = 0;
    assert(v@.subrange(0, n as int) == v@);
    while i < n && is_whitespace_char(v[i])
        invariant
            n == v@.len(),
            i <= n,
            trim_start(v@) == trim_start(v@.subrange(i as int, n as int)),
        decreases n - i,
    {
        assert(v@.subrange(i as int, n as int).drop_first() == v@.subrange(i + 1, n as int));
        i += 1;
    }
    assert(trim_start(v@) == v@.subrange(i as int, n as int));
    let mut j: usize = n;
    while j > i && is_whitespace_char(v[j - 1])
        invariant
            n == v@.len(),
            i <= j <= n,
            trim(v@) == trim_end(v@.subrange(i as int, j as int)),
        decreases j,
    {
        assert(v@.subrange(i as int, j as int).drop_last() == v@.subrange(i as int, j - 1));
        j -= 1;
    }
    let mut out: Vec<char> = Vec::new();
    let mut k: usize = i;
    while k < j
        invariant
            i <= k <= j <= n,
            n == v@.len(),
            out@ == v@.subrange(i as int, k as int),
        decreases j - k,
    {
        out.push(v[k]);
        k += 1;
    }
    string_of(&out)
}

/// Start of the last `/`-separated segment of `p`: the index just after
/// its last `/`, or 0 when it has none.
pub open spec fn last_segment_start(p: Seq<char>) -> int
    decreases p.len(),
{
    if p.len() == 0 {
        0
    } else if p.last() == '/' {
        p.len() as int
    } else {
        last_segment_start(p.drop_last())
    }
}

/// Bounds of `last_segment_start`.
pub proof fn lemma_last_segment_start(p: Seq<char>)
    ensures
        0 <= last_segment_start(p) <= p.len(),
        p.len() > 0 && p.last() != '/' ==> last_segment_start(p) < p.len(),
    decreases p.len(),
{
    if p.len() > 0 && p.last() != '/' {
        lemma_last_segment_start(p.drop_last());
    }
}

/// The final component of a `/`-separated path, as `std::path::Path::file_name`
/// gives it on Unix: separators repeated or at the end are ignored, `.`
/// components are skipped, and there is none when the path is empty, is the
/// root, or ends in `..`.
pub open spec fn path_file_name(p: Seq<char>) -> Option<Seq<char>>
    decreases p.len(),
{
    if p.len() == 0 {
        None
    } else if p.last() == '/' {
        path_file_name(p.drop_last())
    } else {
        let start = last_segment_start(p);
        proof {
            lemma_last_segment_start(p);
        }
        let seg = p.subrange(start, p.len() as int);
        if seg == seq!['.'] {
            path_file_name(p.subrange(0, start))
        } else if seg == seq!['.', '.'] {
            None
        } else {
            Some(seg)
        }
    }
}

/// The final component of `path` (see `path_file_name`).
pub fn file_name(path: &str) -> (r: Option<String>)
    ensures
        r is None <==> path_file_name(path@) is None,
        r matches Some(n) ==> path_file_name(path@) == Some(n@),
{
    let v = chars_of(path);
    let mut end: usize = v.len();
    assert(v@.subrange(0, end as int) == v@);
    loop
        invariant
            v@ == path@,
            end <= v@.len(),
            path_file_name(v@) == path_file_name(v@.subrange(0, end as int)),
        decreases end,
    {
        let ghost end0 = end;
        while end > 0 && v[end - 1] == '/'
            invariant
                end <= end0,
                end <= v@.len(),
                path_file_name(v@) == path_file_name(v@.subrange(0, end as int)),
            decreases end,
        {
            assert(v@.subrange(0, end as int).drop_last() == v@.subrange(0, end - 1));
            end -= 1;
        }
        if end == 0 {
            assert(v@.subrange(0, 0).len() == 0);
            return None;
        }
        let ghost p = v@.subrange(0, end as int);
        assert(p.drop_last() == v@.subrange(0, end - 1));
        let mut start: usize = end;
        while start > 0 && v[start - 1] != '/'
            invariant
                start <= end <= v@.len(),
                p == v@.subrange(0, end as int),
                end > 0,
                v@[end - 1] != '/',
                start < end ==> last_segment_start(p) == last_segment_start(
                    v@.subrange(0, start as int),
                ),
                start == end ==> last_segment_start(p) == last_segment_start(
                    v@.subrange(0, end - 1),
                ),
            decreases start,
        {
            assert(v@.subrange(0, start as int).drop_last() == v@.subrange(0, start - 1));
            start -= 1;
        }
        assert(last_segment_start(p) == start) by {
            if start > 0 {
                assert(v@.subrange(0, start as int).last() == '/');
            }
            if start == end {
                assert(p.drop_last() == v@.subrange(0, end - 1));
            }
        }
        let mut seg: Vec<char> = Vec::new();
        let mut k: usize = start;
        while k < end
            invariant
                start <= k <= end <= v@.len(),
                seg@ == v@.subrange(start as int, k as int),
            decreases end - k,
        {
            seg.push(v[k]);
            k += 1;
        }
        assert(seg@ == p.subrange(start as int, p.len() as int));
        if seg.len() == 1 && seg[0] == '.' {
            assert(seg@ == seq!['.']);
            assert(p.subrange(0, start as int) == v@.subrange(0, start as int));
            assert(start < end0);
            end = start;
        } else if seg.len() == 2 && seg[0] == '.' && seg[1] == '.' {
            assert(seg@ == seq!['.', '.']);
            return None;
        } else {
            assert(seg@ != seq!['.']);
            assert(seg@ != seq!['.', '.']);
            return Some(string_of(&seg));
        }
    }
}

} // verus!
