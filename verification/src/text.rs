//! Executable text handling: conversion between `String` and character
//! vectors, scanning, trimming and decimal conversion, proved against the
//! spec functions of `chars`.

use vstd::prelude::*;
use vstd::string::StrSliceExecFns;
use vstd::string::StringExecFns;

use crate::chars::{
    contains_sub, dec_chars, dec_digit_char, digit_run_end, digits_val, find_char, find_sub_from,
    has_sub_at, is_digit, is_digit_char, is_space, is_space_char, is_word, is_word_char,
    lemma_digit_run_end_is, lemma_digits_val_bounds, lemma_find_char, lemma_find_sub_from_is,
    lemma_find_sub_from_none, lemma_line_end_is, lemma_space_run_end, lemma_space_run_end_is,
    lemma_trim_end_is, lemma_trim_start_is, lemma_word_run_end_is, line_end, space_run_end,
    trim_of, word_run_end,
};

verus! {

/// Relies on std's `String::push`: appends the character to the end of the
/// string.
pub assume_specification[ String::push ](s: &mut String, ch: char)
    ensures
        final (s)@ == old(s)@.push(ch),
;

/// The characters of `s`, in order.
pub fn str_chars(s: &str) -> (r: Vec<char>)
    ensures
        r@ == s@,
{
    let n = s.unicode_len();
    let mut r: Vec<char> = Vec::new();
    let mut i: usize = 0;
    while i < n
        invariant
            i <= n,
            n == s@.len(),
            r@ == s@.subrange(0, i as int),
        decreases n - i,
    {
        let c = s.get_char(i);
        r.push(c);
        assert(r@ =~= s@.subrange(0, i + 1 as int));
        i = i + 1;
    }
    assert(r@ =~= s@);
    r
}

/// The string holding exactly the characters of `v`.
pub fn chars_to_string(v: &Vec<char>) -> (r: String)
    ensures
        r@ == v@,
{
    let mut r = String::new();
    let mut i: usize = 0;
    while i < v.len()
        invariant
            i <= v.len(),
            r@ == v@.subrange(0, i as int),
        decreases v.len() - i,
    {
        r.push(v[i]);
        assert(r@ =~= v@.subrange(0, i + 1 as int));
        i = i + 1;
    }
    assert(r@ =~= v@);
    r
}

/// The characters of `v` from `a` (inclusive) to `b` (exclusive).
pub fn subvec(v: &Vec<char>, a: usize, b: usize) -> (r: Vec<char>)
    requires
        a <= b <= v.len(),
    ensures
        r@ == v@.subrange(a as int, b as int),
{
    let mut r: Vec<char> = Vec::new();
    let mut i: usize = a;
    while i < b
        invariant
            a <= i <= b <= v.len(),
            r@ == v@.subrange(a as int, i as int),
        decreases b - i,
    {
        r.push(v[i]);
        assert(r@ =~= v@.subrange(a as int, i + 1 as int));
        i = i + 1;
    }
    r
}

/// Whether the characters of `v` are exactly those of `s`.
pub fn chars_eq_str(v: &Vec<char>, s: &str) -> (r: bool)
    ensures
        r == (v@ == s@),
{
    let n = s.unicode_len();
    if v.len() != n {
        return false;
    }
    let mut i: usize = 0;
    while i < n
        invariant
            i <= n,
            n == s@.len(),
            n == v@.len(),
            forall|j: int| 0 <= j < i ==> v@[j] == s@[j],
        decreases n - i,
    {
        if v[i] != s.get_char(i) {
            return false;
        }
        i = i + 1;
    }
    assert(v@ =~= s@);
    true
}

/// First index at or after `from` holding `c`.
pub fn index_of_char(v: &Vec<char>, from: usize, c: char) -> (r: Option<usize>)
    requires
        from <= v.len(),
    ensures
        match r {
            Some(i) => Some(i as int) == find_char(v@, from as int, c),
            None => find_char(v@, from as int, c) is None,
        },
{
    proof {
        lemma_find_char(v@, from as int, c);
    }
    let mut i: usize = from;
    while i < v.len()
        invariant
            from <= i <= v.len(),
            forall|j: int| from <= j < i ==> v@[j] != c,
        decreases v.len() - i,
    {
        if v[i] == c {
            proof {
                lemma_find_char(v@, from as int, c);
            }
            return Some(i);
        }
        i = i + 1;
    }
    proof {
        lemma_find_char(v@, from as int, c);
    }
    None
}

/// End of the white-space run starting at `from`.
pub fn skip_spaces(v: &Vec<char>, from: usize) -> (r: usize)
    requires
        from <= v.len(),
    ensures
        r as int == space_run_end(v@, from as int),
        from <= r <= v.len(),
{
    let mut i: usize = from;
    while i < v.len() && is_space(v[i])
        invariant
            from <= i <= v.len(),
            forall|j: int| from <= j < i ==> is_space_char(v@[j]),
        decreases v.len() - i,
    {
        i = i + 1;
    }
    proof {
        lemma_space_run_end_is(v@, from as int, i as int);
    }
    i
}

/// End of the decimal-digit run starting at `from`.
pub fn skip_digits(v: &Vec<char>, from: usize) -> (r: usize)
    requires
        from <= v.len(),
    ensures
        r as int == digit_run_end(v@, from as int),
        from <= r <= v.len(),
{
    let mut i: usize = from;
    while i < v.len() && is_digit(v[i])
        invariant
            from <= i <= v.len(),
            forall|j: int| from <= j < i ==> is_digit_char(v@[j]),
        decreases v.len() - i,
    {
        i = i + 1;
    }
    proof {
        lemma_digit_run_end_is(v@, from as int, i as int);
    }
    i
}

/// End of the word-character run starting at `from`.
pub fn skip_words(v: &Vec<char>, from: usize) -> (r: usize)
    requires
        from <= v.len(),
    ensures
        r as int == word_run_end(v@, from as int),
        from <= r <= v.len(),
{
    let mut i: usize = from;
    while i < v.len() && is_word(v[i])
        invariant
            from <= i <= v.len(),
            forall|j: int| from <= j < i ==> is_word_char(v@[j]),
        decreases v.len() - i,
    {
        i = i + 1;
    }
    proof {
        lemma_word_run_end_is(v@, from as int, i as int);
    }
    i
}

/// End (exclusive) of the line starting at `from`: the index of the first
/// newline at or after `from`, or the length.
pub fn end_of_line(v: &Vec<char>, from: usize) -> (r: usize)
    requires
        from <= v.len(),
    ensures
        r as int == line_end(v@, from as int),
        from <= r <= v.len(),
{
    let mut i: usize = from;
    while i < v.len() && v[i] != '\n'
        invariant
            from <= i <= v.len(),
            forall|j: int| from <= j < i ==> v@[j] != '\n',
        decreases v.len() - i,
    {
        i = i + 1;
    }
    proof {
        lemma_line_end_is(v@, from as int, i as int);
    }
    i
}

/// Whether `pat` occurs in `v` starting exactly at `i`.
pub fn matches_at(v: &Vec<char>, pat: &Vec<char>, i: usize) -> (r: bool)
    ensures
        r == has_sub_at(v@, pat@, i as int),
{
    if i > v.len() || pat.len() > v.len() - i {
        return false;
    }
    let mut k: usize = 0;
    while k < pat.len()
        invariant
            k <= pat.len(),
            i + pat.len() <= v.len(),
            forall|j: int| 0 <= j < k ==> v@[i + j] == pat@[j],
        decreases pat.len() - k,
    {
        if v[i + k] != pat[k] {
            assert(v@.subrange(i as int, i + pat@.len()) != pat@) by {
                assert(v@.subrange(i as int, i + pat@.len())[k as int] != pat@[k as int]);
            }
            return false;
        }
        k = k + 1;
    }
    assert(v@.subrange(i as int, i + pat@.len()) =~= pat@);
    true
}

/// Leftmost occurrence of `pat` in `v` at or after `from`.
pub fn index_of_sub(v: &Vec<char>, pat: &Vec<char>, from: usize) -> (r: Option<usize>)
    requires
        from <= v.len(),
    ensures
        match r {
            Some(i) => Some(i as int) == find_sub_from(v@, pat@, from as int),
            None => find_sub_from(v@, pat@, from as int) is None,
        },
{
    if pat.len() == 0 {
        proof {
            assert(v@.subrange(from as int, from as int) =~= pat@);
            lemma_find_sub_from_is(v@, pat@, from as int, from as int);
        }
        return Some(from);
    }
    if pat.len() > v.len() {
        proof {
            lemma_find_sub_from_none(v@, pat@, from as int);
        }
        return None;
    }
    let mut i: usize = from;
    while i <= v.len() - pat.len()
        invariant
            from <= i,
            pat.len() > 0,
            pat.len() <= v.len(),
            i <= v.len(),
            forall|j: int| from <= j < i ==> !has_sub_at(v@, pat@, j),
        decreases v.len() - i,
    {
        if matches_at(v, pat, i) {
            proof {
                lemma_find_sub_from_is(v@, pat@, from as int, i as int);
            }
            return Some(i);
        }
        i = i + 1;
    }
    proof {
        lemma_find_sub_from_none(v@, pat@, from as int);
    }
    None
}

/// Whether `pat` occurs anywhere in `v`.
pub fn contains_pat(v: &Vec<char>, pat: &Vec<char>) -> (r: bool)
    ensures
        r == contains_sub(v@, pat@),
{
    index_of_sub(v, pat, 0).is_some()
}

/// The characters of `v`, with white space removed from both ends.
pub fn trim_chars(v: &Vec<char>) -> (r: Vec<char>)
    ensures
        r@ == trim_of(v@),
{
    let a = skip_spaces(v, 0);
    proof {
        lemma_space_run_end(v@, 0);
        lemma_trim_start_is(v@, a as int);
    }
    let mut b: usize = v.len();
    while b > a && is_space(v[b - 1])
        invariant
            a <= b <= v.len(),
            forall|j: int| b <= j < v.len() ==> is_space_char(v@[j]),
        decreases b,
    {
        b = b - 1;
    }
    let r = subvec(v, a, b);
    proof {
        let t = v@.subrange(a as int, v@.len() as int);
        assert(forall|j: int| b - a <= j < t.len() ==> is_space_char(#[trigger] t[j]));
        if b > a {
            assert(!is_space_char(t[b - a - 1]));
        }
        lemma_trim_end_is(t, b - a);
        assert(t.subrange(0, b - a) =~= v@.subrange(a as int, b as int));
    }
    r
}

/// Value of the decimal digit run `v[a..b]`, when it fits in `u32`.
pub fn digits_to_u32(v: &Vec<char>, a: usize, b: usize) -> (r: Option<u32>)
    requires
        a <= b <= v.len(),
        forall|j: int| a <= j < b ==> is_digit_char(v@[j]),
    ensures
        match r {
            Some(n) => n as int == digits_val(v@.subrange(a as int, b as int)),
            None => digits_val(v@.subrange(a as int, b as int)) > u32::MAX,
        },
{
    let mut acc: u32 = 0;
    let mut i: usize = a;
    while i < b
        invariant
            a <= i <= b <= v.len(),
            forall|j: int| a <= j < b ==> is_digit_char(v@[j]),
            acc as int == digits_val(v@.subrange(a as int, i as int)),
        decreases b - i,
    {
        let d: u32 = (v[i] as u32) - 0x30;
        assert(d <= 9);
        if acc > (u32::MAX - d) / 10 {
            proof {
                let pre = v@.subrange(a as int, i + 1 as int);
                assert(pre.drop_last() =~= v@.subrange(a as int, i as int));
                assert(digits_val(pre) == acc * 10 + d);
                assert(digits_val(pre) > u32::MAX);
                lemma_digits_prefix_le(v@.subrange(a as int, b as int), i + 1 - a);
                assert(v@.subrange(a as int, b as int).subrange(0, i + 1 - a) =~= pre);
            }
            return None;
        }
        acc = acc * 10 + d;
        proof {
            let pre = v@.subrange(a as int, i + 1 as int);
            assert(pre.drop_last() =~= v@.subrange(a as int, i as int));
        }
        i = i + 1;
    }
    assert(v@.subrange(a as int, b as int) =~= v@.subrange(a as int, i as int));
    Some(acc)
}

/// The value of a digit sequence is at least the value of any of its
/// prefixes, when every character is a digit.
pub proof fn lemma_digits_prefix_le(s: Seq<char>, i: int)
    requires
        0 <= i <= s.len(),
        forall|j: int| 0 <= j < s.len() ==> is_digit_char(s[j]),
    ensures
        digits_val(s) >= digits_val(s.subrange(0, i)),
    decreases s.len(),
{
    if i < s.len() {
        let t = s.drop_last();
        assert(forall|j: int| 0 <= j < t.len() ==> is_digit_char(#[trigger] t[j]));
        lemma_digits_prefix_le(t, i);
        assert(t.subrange(0, i) =~= s.subrange(0, i));
        lemma_digits_val_bounds(s);
    } else {
        assert(s.subrange(0, i) =~= s);
    }
}

/// The digit character for `d` in 0..=9.
pub fn dec_digit(d: u32) -> (r: char)
    requires
        d <= 9,
    ensures
        r == dec_digit_char(d as int),
{
    if d == 0 {
        '0'
    } else if d == 1 {
        '1'
    } else if d == 2 {
        '2'
    } else if d == 3 {
        '3'
    } else if d == 4 {
        '4'
    } else if d == 5 {
        '5'
    } else if d == 6 {
        '6'
    } else if d == 7 {
        '7'
    } else if d == 8 {
        '8'
    } else {
        '9'
    }
}

/// Appends the decimal digits of `n` to `out`.
pub fn push_dec_chars(n: u32, out: &mut Vec<char>)
    ensures
        final (out)@ == old(out)@ + dec_chars(n as int),
    decreases n,
{
    if n >= 10 {
        push_dec_chars(n / 10, out);
        let c = dec_digit(n % 10);
        out.push(c);
        assert(out@ =~= old(out)@ + dec_chars(n as int));
    } else {
        let c = dec_digit(n);
        out.push(c);
        assert(out@ =~= old(out)@ + dec_chars(n as int));
    }
}

} // verus!
// Reverse search and lead-in stripping, proved against `chars`.

verus! {

/// Last index holding `c` in `v[lo..hi]`, if any.
pub fn rindex_of_char(v: &Vec<char>, lo: usize, hi: usize, c: char) -> (r: Option<usize>)
    requires
        lo <= hi,
        hi <= v.len(),
    ensures
        match r {
            Some(i) => Some(i as int) == crate::chars::rfind_char_before(
                v@,
                lo as int,
                hi as int,
                c,
            ),
            None => crate::chars::rfind_char_before(v@, lo as int, hi as int, c) is None,
        },
{
    proof {
        crate::chars::lemma_rfind_char_before(v@, lo as int, hi as int, c);
    }
    let mut i: usize = hi;
    while i > lo
        invariant
            lo <= i <= hi <= v.len(),
            forall|j: int| i <= j < hi ==> v@[j] != c,
        decreases i,
    {
        if v[i - 1] == c {
            proof {
                crate::chars::lemma_rfind_char_before(v@, lo as int, hi as int, c);
            }
            return Some(i - 1);
        }
        i = i - 1;
    }
    proof {
        crate::chars::lemma_rfind_char_before(v@, lo as int, hi as int, c);
    }
    None
}

/// End of the colon-and-blank lead-in run at the start of `v`.
pub fn skip_lead(v: &Vec<char>) -> (r: usize)
    ensures
        r as int == crate::chars::lead_run_end(v@),
        r <= v.len(),
{
    let mut i: usize = 0;
    while i < v.len() && (v[i] == ':' || v[i] == ' ')
        invariant
            i <= v.len(),
            forall|j: int| 0 <= j < i ==> crate::chars::is_lead_char(v@[j]),
        decreases v.len() - i,
    {
        i = i + 1;
    }
    proof {
        crate::chars::lemma_lead_run_end_is(v@, i as int);
    }
    i
}

} // verus!
