//! Character-level text utilities: conversion between strings and character
//! vectors, substring search, trimming, and decimal digit rendering.

use vstd::prelude::*;

verus! {

/// The blank characters stripped from the edges of a text.
pub open spec fn is_space(c: char) -> bool {
    c == ' ' || c == '\t' || c == '\n' || c == '\r'
}

/// `needle` occurs in `hay` starting at index `i`.
pub open spec fn contains_at(hay: Seq<char>, needle: Seq<char>, i: int) -> bool {
    0 <= i && i + needle.len() <= hay.len() && hay.subrange(i, i + needle.len() as int)
        == needle
}

/// `needle` occurs somewhere in `hay`.
pub open spec fn contains_seq(hay: Seq<char>, needle: Seq<char>) -> bool {
    exists|i: int| contains_at(hay, needle, i)
}

/// Collects the characters of a string slice into a vector.
pub fn str_to_chars(s: &str) -> (v: Vec<char>)
    ensures
        v@ == s@,
{
    let n: usize = s.unicode_len();
    let mut v: Vec<char> = Vec::new();
    let mut i: usize = 0;
    while i < n
        invariant
            i <= n,
            n == s@.len(),
            v@ == s@.subrange(0, i as int),
        decreases n - i,
    {
        v.push(s.get_char(i));
        i = i + 1;
        proof {
            assert(v@ =~= s@.subrange(0, i as int));
        }
    }
    proof {
        assert(v@ =~= s@);
    }
    v
}

/// Relies on String's FromIterator impl over char: collecting an iterator of
/// characters yields the string of exactly those characters, in order.
#[verifier::external_body]
pub fn chars_to_string(v: &Vec<char>) -> (r: String)
    ensures
        r@ == v@,
{
    v.iter().collect()
}

pub uninterp spec fn lower_of(s: Seq<char>) -> Seq<char>;

/// Relies on str::to_lowercase: the result depends on the input characters
/// alone, and an empty input gives an empty result.
#[verifier::external_body]
pub fn to_lowercase_str(s: &str) -> (r: String)
    ensures
        r@ == lower_of(s@),
        s@.len() == 0 ==> r@.len() == 0,
{
    s.to_lowercase()
}

/// Character-for-character equality of two string slices.
pub fn str_eq(a: &str, b: &str) -> (r: bool)
    ensures
        r == (a@ == b@),
{
    let na: usize = a.unicode_len();
    let nb: usize = b.unicode_len();
    if na != nb {
        return false;
    }
    let mut i: usize = 0;
    while i < na
        invariant
            i <= na,
            na == a@.len(),
            na == b@.len(),
            forall|k: int| 0 <= k < i ==> a@[k] == b@[k],
        decreases na - i,
    {
        if a.get_char(i) != b.get_char(i) {
            return false;
        }
        i = i + 1;
    }
    proof {
        assert(a@ =~= b@);
    }
    true
}

/// Whether `needle` occurs in `hay` starting exactly at `i`.
pub fn matches_at(hay: &Vec<char>, needle: &Vec<char>, i: usize) -> (r: bool)
    requires
        i + needle@.len() <= hay@.len(),
    ensures
        r == contains_at(hay@, needle@, i as int),
{
    let n: usize = hay.len();
    let m: usize = needle.len();
    let mut j: usize = 0;
    while j < m
        invariant
            j <= m,
            n == hay@.len(),
            m == needle@.len(),
            i + m <= n,
            forall|k: int| 0 <= k < j ==> hay@[i + k] == needle@[k],
        decreases m - j,
    {
        if hay[i + j] != needle[j] {
            proof {
                assert(hay@.subrange(i as int, i + m) != needle@) by {
                    assert(hay@.subrange(i as int, i + m)[j as int] != needle@[j as int]);
                }
            }
            return false;
        }
        j = j + 1;
    }
    proof {
        assert(hay@.subrange(i as int, i + m) =~= needle@);
    }
    true
}

/// Substring search: does `needle` occur anywhere in `hay`?
pub fn contains_chars(hay: &Vec<char>, needle: &Vec<char>) -> (r: bool)
    ensures
        r == contains_seq(hay@, needle@),
{
    let n: usize = hay.len();
    let m: usize = needle.len();
    if m > n {
        proof {
            assert(forall|i: int| !contains_at(hay@, needle@, i));
        }
        return false;
    }
    if m == 0 {
        proof {
            assert(hay@.subrange(0, 0) =~= needle@);
            assert(contains_at(hay@, needle@, 0));
        }
        return true;
    }
    let mut i: usize = 0;
    while i <= n - m
        invariant
            1 <= m <= n,
            n == hay@.len(),
            m == needle@.len(),
            i <= n - m + 1,
            forall|k: int| 0 <= k < i ==> !contains_at(hay@, needle@, k),
        decreases n - m + 1 - i,
    {
        if matches_at(hay, needle, i) {
            return true;
        }
        i = i + 1;
    }
    proof {
        assert(forall|k: int| contains_at(hay@, needle@, k) ==> 0 <= k <= n - m);
    }
    false
}

/// Index of the first character that is not a blank, scanning from `i`;
/// the length of `s` if all of them are.
pub open spec fn scan_start(s: Seq<char>, i: int) -> int
    recommends
        0 <= i <= s.len(),
    decreases s.len() - i when 0 <= i <= s.len()
{
    if i >= s.len() {
        s.len() as int
    } else if is_space(s[i]) {
        scan_start(s, i + 1)
    } else {
        i
    }
}

/// One past the last character that is not a blank, scanning down from `j`;
/// zero if all of them are.
pub open spec fn scan_end(s: Seq<char>, j: int) -> int
    recommends
        0 <= j <= s.len(),
    decreases j when 0 <= j <= s.len()
{
    if j <= 0 {
        0
    } else if is_space(s[j - 1]) {
        scan_end(s, j - 1)
    } else {
        j
    }
}

/// `s` with leading and trailing blanks removed.
pub open spec fn trim_seq(s: Seq<char>) -> Seq<char> {
    let a = scan_start(s, 0);
    let b = scan_end(s, s.len() as int);
    if a <= b {
        s.subrange(a, b)
    } else {
        Seq::empty()
    }
}

/// If every character below `j` is a blank, the downward scan from `j`
/// reaches zero.
proof fn lemma_scan_end_all_blank(s: Seq<char>, j: int)
    requires
        0 <= j <= s.len(),
        forall|k: int| 0 <= k < j ==> is_space(s[k]),
    ensures
        scan_end(s, j) == 0,
    decreases j,
{
    if j > 0 {
        lemma_scan_end_all_blank(s, j - 1);
    }
}

/// Removes leading and trailing blanks.
pub fn trim_chars(v: &Vec<char>) -> (r: Vec<char>)
    ensures
        r@ == trim_seq(v@),
{
    let n: usize = v.len();
    let mut a: usize = 0;
    while a < n && is_space_char(v[a])
        invariant
            a <= n,
            n == v@.len(),
            scan_start(v@, 0) == scan_start(v@, a as int),
            forall|k: int| 0 <= k < a ==> is_space(v@[k]),
        decreases n - a,
    {
        a = a + 1;
    }
    proof {
        assert(scan_start(v@, 0) == a);
    }
    let mut b: usize = n;
    while b > a && is_space_char(v[b - 1])
        invariant
            a <= b <= n,
            n == v@.len(),
            scan_end(v@, n as int) == scan_end(v@, b as int),
        decreases b,
    {
        b = b - 1;
    }
    proof {
        if b == a {
            lemma_scan_end_all_blank(v@, a as int);
            assert(scan_end(v@, n as int) == 0);
        } else {
            assert(scan_end(v@, b as int) == b);
        }
    }
    let mut r: Vec<char> = Vec::new();
    let mut i: usize = a;
    while i < b
        invariant
            a <= i <= b <= n,
            n == v@.len(),
            r@ == v@.subrange(a as int, i as int),
        decreases b - i,
    {
        r.push(v[i]);
        i = i + 1;
        proof {
            assert(r@ =~= v@.subrange(a as int, i as int));
        }
    }
    proof {
        assert(r@ =~= trim_seq(v@));
    }
    r
}

/// Appends every character of `src` to `out`.
pub fn push_all(out: &mut Vec<char>, src: &Vec<char>)
    ensures
        final(out)@ == old(out)@ + src@,
{
    let m: usize = src.len();
    let mut j: usize = 0;
    while j < m
        invariant
            j <= m,
            m == src@.len(),
            out@ == old(out)@ + src@.subrange(0, j as int),
        decreases m - j,
    {
        out.push(src[j]);
        j = j + 1;
        proof {
            assert(out@ =~= old(out)@ + src@.subrange(0, j as int));
        }
    }
    proof {
        assert(final(out)@ =~= old(out)@ + src@);
    }
}

/// `s` with every non-overlapping occurrence of `from`, scanned left to
/// right, replaced by `to`.
pub open spec fn replace_seq(s: Seq<char>, from: Seq<char>, to: Seq<char>) -> Seq<char>
    recommends
        from.len() > 0,
    decreases s.len(),
{
    if from.len() == 0 || s.len() < from.len() {
        s
    } else if s.subrange(0, from.len() as int) == from {
        to + replace_seq(s.skip(from.len() as int), from, to)
    } else {
        seq![s[0]] + replace_seq(s.skip(1), from, to)
    }
}

/// Replaces every non-overlapping occurrence of `from` in `s` by `to`,
/// scanning left to right.
pub fn replace_chars(s: &Vec<char>, from: &Vec<char>, to: &Vec<char>) -> (r: Vec<char>)
    requires
        from@.len() > 0,
    ensures
        r@ == replace_seq(s@, from@, to@),
{
    let n: usize = s.len();
    let m: usize = from.len();
    let mut out: Vec<char> = Vec::new();
    let mut i: usize = 0;
    proof {
        assert(s@.skip(0) =~= s@);
    }
    while i < n
        invariant
            i <= n,
            n == s@.len(),
            m == from@.len(),
            m > 0,
            replace_seq(s@, from@, to@) == out@ + replace_seq(s@.skip(i as int), from@, to@),
        decreases n - i,
    {
        let ghost rest = s@.skip(i as int);
        if n - i >= m && matches_at(s, from, i) {
            proof {
                assert(rest.subrange(0, m as int) =~= s@.subrange(i as int, i + m));
                assert(rest.skip(m as int) =~= s@.skip(i + m));
            }
            push_all(&mut out, to);
            i = i + m;
        } else {
            proof {
                if rest.len() >= m {
                    assert(rest.subrange(0, m as int) =~= s@.subrange(i as int, i + m));
                }
                assert(rest.skip(1) =~= s@.skip(i + 1));
                assert(seq![rest[0]] =~= seq![s@[i as int]]);
            }
            out.push(s[i]);
            i = i + 1;
        }
    }
    proof {
        assert(s@.skip(n as int) =~= Seq::<char>::empty());
        assert(replace_seq(s@, from@, to@) =~= out@);
    }
    out
}

/// Executable twin of `is_space`.
pub fn is_space_char(c: char) -> (r: bool)
    ensures
        r == is_space(c),
{
    c == ' ' || c == '\t' || c == '\n' || c == '\r'
}

/// The decimal digit character for a value below ten.
pub open spec fn dec_digit(n: int) -> char {
    if n == 0 {
        '0'
    } else if n == 1 {
        '1'
    } else if n == 2 {
        '2'
    } else if n == 3 {
        '3'
    } else if n == 4 {
        '4'
    } else if n == 5 {
        '5'
    } else if n == 6 {
        '6'
    } else if n == 7 {
        '7'
    } else if n == 8 {
        '8'
    } else {
        '9'
    }
}

/// Decimal rendering of a nonnegative number, without leading zeros.
pub open spec fn dec_str(n: nat) -> Seq<char>
    decreases n,
{
    if n < 10 {
        seq![dec_digit(n as int)]
    } else {
        dec_str(n / 10).push(dec_digit((n % 10) as int))
    }
}

/// Executable twin of `dec_digit`.
fn dec_digit_char(n: u64) -> (c: char)
    requires
        n < 10,
    ensures
        c == dec_digit(n as int),
{
    if n == 0 {
        '0'
    } else if n == 1 {
        '1'
    } else if n == 2 {
        '2'
    } else if n == 3 {
        '3'
    } else if n == 4 {
        '4'
    } else if n == 5 {
        '5'
    } else if n == 6 {
        '6'
    } else if n == 7 {
        '7'
    } else if n == 8 {
        '8'
    } else {
        '9'
    }
}

/// Appends the decimal rendering of `n` to `out`.
pub fn push_dec(out: &mut Vec<char>, n: u64)
    ensures
        final(out)@ == old(out)@ + dec_str(n as nat),
    decreases n,
{
    if n < 10 {
        out.push(dec_digit_char(n));
        proof {
            assert(final(out)@ =~= old(out)@ + dec_str(n as nat));
        }
    } else {
        push_dec(out, n / 10);
        out.push(dec_digit_char(n % 10));
        proof {
            assert(final(out)@ =~= old(out)@ + dec_str(n as nat));
        }
    }
}

/// Decimal rendering padded on the left with a zero to at least two digits.
pub open spec fn pad2(n: nat) -> Seq<char> {
    if n < 10 {
        seq!['0', dec_digit(n as int)]
    } else {
        dec_str(n)
    }
}

/// Appends `pad2(n)` to `out`.
pub fn push_pad2(out: &mut Vec<char>, n: u64)
    ensures
        final(out)@ == old(out)@ + pad2(n as nat),
{
    if n < 10 {
        out.push('0');
        out.push(dec_digit_char(n));
        proof {
            assert(final(out)@ =~= old(out)@ + pad2(n as nat));
        }
    } else {
        push_dec(out, n);
    }
}

} // verus!
