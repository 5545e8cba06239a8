//! Character classes and scanning primitives for the extraction grammars.
//!
//! All text is handled as sequences of characters. The spec functions here
//! define, once, what "whitespace", "digit" and "word character" mean for the
//! field grammars, together with leftmost-search and trimming on sequences;
//! the executable functions are proved against them.

use vstd::prelude::*;

verus! {

/// Unicode white-space characters (the `White_Space` property), the class the
/// source strings are trimmed by.
pub open spec fn is_space_char(c: char) -> bool {
    ||| (0x09 <= c as u32 && c as u32 <= 0x0d)
    ||| c as u32 == 0x20
    ||| c as u32 == 0x85
    ||| c as u32 == 0xa0
    ||| c as u32 == 0x1680
    ||| (0x2000 <= c as u32 && c as u32 <= 0x200a)
    ||| c as u32 == 0x2028
    ||| c as u32 == 0x2029
    ||| c as u32 == 0x202f
    ||| c as u32 == 0x205f
    ||| c as u32 == 0x3000
}

pub fn is_space(c: char) -> (r: bool)
    ensures
        r == is_space_char(c),
{
    let u = c as u32;
    (0x09 <= u && u <= 0x0d) || u == 0x20 || u == 0x85 || u == 0xa0 || u == 0x1680 || (0x2000 <= u
        && u <= 0x200a) || u == 0x2028 || u == 0x2029 || u == 0x202f || u == 0x205f || u == 0x3000
}

pub open spec fn is_digit_char(c: char) -> bool {
    0x30 <= c as u32 && c as u32 <= 0x39
}

pub fn is_digit(c: char) -> (r: bool)
    ensures
        r == is_digit_char(c),
{
    let u = c as u32;
    0x30 <= u && u <= 0x39
}

/// Numeric value of a decimal digit character.
pub open spec fn digit_val(c: char) -> int {
    c as u32 - 0x30
}

/// The word characters the field grammars accept: ASCII letters, digits and
/// underscore, together with the scripts seen in board headers (CJK
/// ideographs, bopomofo, kana, Hangul and full-width letters and digits).
pub open spec fn is_word_char(c: char) -> bool {
    ||| (0x30 <= c as u32 && c as u32 <= 0x39)
    ||| (0x41 <= c as u32 && c as u32 <= 0x5a)
    ||| c as u32 == 0x5f
    ||| (0x61 <= c as u32 && c as u32 <= 0x7a)
    ||| (0x3040 <= c as u32 && c as u32 <= 0x30ff)
    ||| (0x3105 <= c as u32 && c as u32 <= 0x312f)
    ||| (0x31f0 <= c as u32 && c as u32 <= 0x31ff)
    ||| (0x3400 <= c as u32 && c as u32 <= 0x4dbf)
    ||| (0x4e00 <= c as u32 && c as u32 <= 0x9fff)
    ||| (0xac00 <= c as u32 && c as u32 <= 0xd7a3)
    ||| (0xf900 <= c as u32 && c as u32 <= 0xfaff)
    ||| (0xff10 <= c as u32 && c as u32 <= 0xff19)
    ||| (0xff21 <= c as u32 && c as u32 <= 0xff3a)
    ||| (0xff41 <= c as u32 && c as u32 <= 0xff5a)
}

pub fn is_word(c: char) -> (r: bool)
    ensures
        r == is_word_char(c),
{
    let u = c as u32;
    (0x30 <= u && u <= 0x39) || (0x41 <= u && u <= 0x5a) || u == 0x5f || (0x61 <= u && u <= 0x7a)
        || (0x3040 <= u && u <= 0x30ff) || (0x3105 <= u && u <= 0x312f) || (0x31f0 <= u && u
        <= 0x31ff) || (0x3400 <= u && u <= 0x4dbf) || (0x4e00 <= u && u <= 0x9fff) || (0xac00 <= u
        && u <= 0xd7a3) || (0xf900 <= u && u <= 0xfaff) || (0xff10 <= u && u <= 0xff19) || (0xff21
        <= u && u <= 0xff3a) || (0xff41 <= u && u <= 0xff5a)
}

/// Index of the first character at or after `from` satisfying `p`.
pub open spec fn find_from(s: Seq<char>, from: int, p: spec_fn(char) -> bool) -> Option<int>
    decreases s.len() - from,
{
    if from < 0 || from >= s.len() {
        None
    } else if p(s[from]) {
        Some(from)
    } else {
        find_from(s, from + 1, p)
    }
}

pub proof fn lemma_find_from(s: Seq<char>, from: int, p: spec_fn(char) -> bool)
    requires
        0 <= from <= s.len(),
    ensures
        match find_from(s, from, p) {
            Some(i) => from <= i < s.len() && p(s[i]) && (forall|j: int|
                from <= j < i ==> !p(s[j])),
            None => forall|j: int| from <= j < s.len() ==> !p(s[j]),
        },
    decreases s.len() - from,
{
    if from < s.len() && !p(s[from]) {
        lemma_find_from(s, from + 1, p);
    }
}

pub proof fn lemma_find_from_is(s: Seq<char>, from: int, i: int, p: spec_fn(char) -> bool)
    requires
        0 <= from <= i < s.len(),
        p(s[i]),
        forall|j: int| from <= j < i ==> !p(s[j]),
    ensures
        find_from(s, from, p) == Some(i),
    decreases i - from,
{
    if from < i {
        lemma_find_from_is(s, from + 1, i, p);
    }
}

pub proof fn lemma_find_from_none(s: Seq<char>, from: int, p: spec_fn(char) -> bool)
    requires
        0 <= from <= s.len(),
        forall|j: int| from <= j < s.len() ==> !p(s[j]),
    ensures
        find_from(s, from, p) is None,
    decreases s.len() - from,
{
    if from < s.len() {
        lemma_find_from_none(s, from + 1, p);
    }
}

/// End of the run of characters satisfying `p` that starts at `from`:
/// the first index at or after `from` that fails `p`, or the length.
pub open spec fn run_end(s: Seq<char>, from: int, p: spec_fn(char) -> bool) -> int {
    match find_from(s, from, |c: char| !p(c)) {
        Some(i) => i,
        None => s.len() as int,
    }
}

pub proof fn lemma_run_end(s: Seq<char>, from: int, p: spec_fn(char) -> bool)
    requires
        0 <= from <= s.len(),
    ensures
        from <= run_end(s, from, p) <= s.len(),
        forall|j: int| from <= j < run_end(s, from, p) ==> p(s[j]),
        run_end(s, from, p) < s.len() ==> !p(s[run_end(s, from, p)]),
{
    lemma_find_from(s, from, |c: char| !p(c));
}

pub proof fn lemma_run_end_is(s: Seq<char>, from: int, i: int, p: spec_fn(char) -> bool)
    requires
        0 <= from <= i <= s.len(),
        forall|j: int| from <= j < i ==> p(s[j]),
        i < s.len() ==> !p(s[i]),
    ensures
        run_end(s, from, p) == i,
{
    if i < s.len() {
        lemma_find_from_is(s, from, i, |c: char| !p(c));
    } else {
        lemma_find_from_none(s, from, |c: char| !p(c));
    }
}

/// The pattern `pat` occurs in `s` starting at index `i`.
pub open spec fn has_sub_at(s: Seq<char>, pat: Seq<char>, i: int) -> bool {
    0 <= i && i + pat.len() <= s.len() && s.subrange(i, i + pat.len()) == pat
}

/// Index of the leftmost occurrence of `pat` in `s` at or after `from`.
pub open spec fn find_sub_from(s: Seq<char>, pat: Seq<char>, from: int) -> Option<int>
    decreases s.len() - from + 1,
{
    if from < 0 || from + pat.len() > s.len() {
        None
    } else if has_sub_at(s, pat, from) {
        Some(from)
    } else {
        find_sub_from(s, pat, from + 1)
    }
}

pub open spec fn contains_sub(s: Seq<char>, pat: Seq<char>) -> bool {
    find_sub_from(s, pat, 0) is Some
}

pub proof fn lemma_find_sub_from(s: Seq<char>, pat: Seq<char>, from: int)
    requires
        0 <= from,
    ensures
        match find_sub_from(s, pat, from) {
            Some(i) => from <= i && has_sub_at(s, pat, i) && (forall|j: int|
                from <= j < i ==> !has_sub_at(s, pat, j)),
            None => forall|j: int| from <= j ==> !has_sub_at(s, pat, j),
        },
    decreases s.len() - from + 1,
{
    if from + pat.len() > s.len() {
        assert(forall|j: int| from <= j ==> !has_sub_at(s, pat, j));
    } else if !has_sub_at(s, pat, from) {
        lemma_find_sub_from(s, pat, from + 1);
    }
}

pub proof fn lemma_find_sub_from_is(s: Seq<char>, pat: Seq<char>, from: int, i: int)
    requires
        0 <= from <= i,
        has_sub_at(s, pat, i),
        forall|j: int| from <= j < i ==> !has_sub_at(s, pat, j),
    ensures
        find_sub_from(s, pat, from) == Some(i),
    decreases i - from,
{
    if from < i {
        lemma_find_sub_from_is(s, pat, from + 1, i);
    }
}

pub proof fn lemma_find_sub_from_none(s: Seq<char>, pat: Seq<char>, from: int)
    requires
        0 <= from,
        forall|j: int| from <= j ==> !has_sub_at(s, pat, j),
    ensures
        find_sub_from(s, pat, from) is None,
    decreases s.len() - from + 1,
{
    if from + pat.len() <= s.len() {
        lemma_find_sub_from_none(s, pat, from + 1);
    }
}

/// `s` with its leading white space removed.
pub open spec fn trim_start_of(s: Seq<char>) -> Seq<char>
    decreases s.len(),
{
    if s.len() == 0 {
        s
    } else if is_space_char(s[0]) {
        trim_start_of(s.drop_first())
    } else {
        s
    }
}

/// `s` with its trailing white space removed.
pub open spec fn trim_end_of(s: Seq<char>) -> Seq<char>
    decreases s.len(),
{
    if s.len() == 0 {
        s
    } else if is_space_char(s.last()) {
        trim_end_of(s.drop_last())
    } else {
        s
    }
}

/// `s` with white space removed from both ends.
pub open spec fn trim_of(s: Seq<char>) -> Seq<char> {
    trim_end_of(trim_start_of(s))
}

pub proof fn lemma_trim_start_is(s: Seq<char>, a: int)
    requires
        0 <= a <= s.len(),
        forall|j: int| 0 <= j < a ==> is_space_char(s[j]),
        a < s.len() ==> !is_space_char(s[a]),
    ensures
        trim_start_of(s) == s.subrange(a, s.len() as int),
    decreases a,
{
    if a == 0 {
        assert(trim_start_of(s) =~= s.subrange(0, s.len() as int));
    } else {
        let t = s.drop_first();
        assert(forall|j: int| 0 <= j < a - 1 ==> is_space_char(#[trigger] t[j]));
        lemma_trim_start_is(t, a - 1);
        assert(t.subrange(a - 1, t.len() as int) =~= s.subrange(a, s.len() as int));
    }
}

pub proof fn lemma_trim_end_is(s: Seq<char>, b: int)
    requires
        0 <= b <= s.len(),
        forall|j: int| b <= j < s.len() ==> is_space_char(s[j]),
        b > 0 ==> !is_space_char(s[b - 1]),
    ensures
        trim_end_of(s) == s.subrange(0, b),
    decreases s.len(),
{
    if b == s.len() {
        assert(trim_end_of(s) =~= s.subrange(0, b));
    } else {
        let t = s.drop_last();
        assert(forall|j: int| b <= j < t.len() ==> is_space_char(#[trigger] t[j]));
        lemma_trim_end_is(t, b);
        assert(t.subrange(0, b) =~= s.subrange(0, b));
    }
}

/// Value of a sequence of decimal digit characters, most significant first.
pub open spec fn digits_val(s: Seq<char>) -> int
    decreases s.len(),
{
    if s.len() == 0 {
        0
    } else {
        digits_val(s.drop_last()) * 10 + digit_val(s.last())
    }
}

pub proof fn lemma_digits_val_bounds(s: Seq<char>)
    requires
        forall|j: int| 0 <= j < s.len() ==> is_digit_char(s[j]),
    ensures
        digits_val(s) >= 0,
        s.len() > 0 ==> digits_val(s) >= digits_val(s.drop_last()),
    decreases s.len(),
{
    if s.len() > 0 {
        let t = s.drop_last();
        assert(forall|j: int| 0 <= j < t.len() ==> is_digit_char(#[trigger] t[j]));
        lemma_digits_val_bounds(t);
        assert(is_digit_char(s.last()));
        assert(digit_val(s.last()) >= 0);
    }
}

/// Decimal digit characters of a non-negative number, most significant first.
pub open spec fn dec_chars(n: int) -> Seq<char>
    decreases n,
{
    if n < 10 {
        seq![dec_digit_char(n)]
    } else {
        dec_chars(n / 10).push(dec_digit_char(n % 10))
    }
}

/// The digit character for a value in 0..=9 (the replacement character
/// outside that range, which no caller reaches).
pub open spec fn dec_digit_char(d: int) -> char {
    if d == 0 {
        '0'
    } else if d == 1 {
        '1'
    } else if d == 2 {
        '2'
    } else if d == 3 {
        '3'
    } else if d == 4 {
        '4'
    } else if d == 5 {
        '5'
    } else if d == 6 {
        '6'
    } else if d == 7 {
        '7'
    } else if d == 8 {
        '8'
    } else if d == 9 {
        '9'
    } else {
        '\u{fffd}'
    }
}

} // verus!
// The named searches below instantiate the generic ones; each carries one
// characterization lemma, which the scanning loops and the grammar proofs use.

verus! {

/// First index at or after `from` holding exactly `c`, if any.
pub open spec fn find_char(s: Seq<char>, from: int, c: char) -> Option<int> {
    find_from(s, from, |x: char| x == c)
}

pub proof fn lemma_find_char(s: Seq<char>, from: int, c: char)
    requires
        0 <= from <= s.len(),
    ensures
        match find_char(s, from, c) {
            Some(i) => from <= i < s.len() && s[i] == c && (forall|j: int|
                from <= j < i ==> s[j] != c),
            None => forall|j: int| from <= j < s.len() ==> s[j] != c,
        },
    decreases s.len() - from,
{
    if from < s.len() && s[from] != c {
        lemma_find_char(s, from + 1, c);
    }
}

/// End of the white-space run starting at `from` (the first non-space index,
/// or the length when everything after `from` is white space).
pub open spec fn space_run_end(s: Seq<char>, from: int) -> int {
    run_end(s, from, |c: char| is_space_char(c))
}

pub proof fn lemma_space_run_end(s: Seq<char>, from: int)
    requires
        0 <= from <= s.len(),
    ensures
        from <= space_run_end(s, from) <= s.len(),
        forall|j: int| from <= j < space_run_end(s, from) ==> is_space_char(s[j]),
        space_run_end(s, from) < s.len() ==> !is_space_char(s[space_run_end(s, from)]),
{
    lemma_run_end(s, from, |c: char| is_space_char(c));
}

pub proof fn lemma_space_run_end_is(s: Seq<char>, from: int, i: int)
    requires
        0 <= from <= i <= s.len(),
        forall|j: int| from <= j < i ==> is_space_char(s[j]),
        i < s.len() ==> !is_space_char(s[i]),
    ensures
        space_run_end(s, from) == i,
{
    lemma_run_end_is(s, from, i, |c: char| is_space_char(c));
}

/// End of the decimal-digit run starting at `from`.
pub open spec fn digit_run_end(s: Seq<char>, from: int) -> int {
    run_end(s, from, |c: char| is_digit_char(c))
}

pub proof fn lemma_digit_run_end(s: Seq<char>, from: int)
    requires
        0 <= from <= s.len(),
    ensures
        from <= digit_run_end(s, from) <= s.len(),
        forall|j: int| from <= j < digit_run_end(s, from) ==> is_digit_char(s[j]),
        digit_run_end(s, from) < s.len() ==> !is_digit_char(s[digit_run_end(s, from)]),
{
    lemma_run_end(s, from, |c: char| is_digit_char(c));
}

pub proof fn lemma_digit_run_end_is(s: Seq<char>, from: int, i: int)
    requires
        0 <= from <= i <= s.len(),
        forall|j: int| from <= j < i ==> is_digit_char(s[j]),
        i < s.len() ==> !is_digit_char(s[i]),
    ensures
        digit_run_end(s, from) == i,
{
    lemma_run_end_is(s, from, i, |c: char| is_digit_char(c));
}

/// End of the word-character run starting at `from`.
pub open spec fn word_run_end(s: Seq<char>, from: int) -> int {
    run_end(s, from, |c: char| is_word_char(c))
}

pub proof fn lemma_word_run_end_is(s: Seq<char>, from: int, i: int)
    requires
        0 <= from <= i <= s.len(),
        forall|j: int| from <= j < i ==> is_word_char(s[j]),
        i < s.len() ==> !is_word_char(s[i]),
    ensures
        word_run_end(s, from) == i,
{
    lemma_run_end_is(s, from, i, |c: char| is_word_char(c));
}

/// Index right after the first newline at or after `from`, or the length
/// when there is none: the end (exclusive) of the current line.
pub open spec fn line_end(s: Seq<char>, from: int) -> int {
    match find_char(s, from, '\n') {
        Some(i) => i,
        None => s.len() as int,
    }
}

pub proof fn lemma_line_end(s: Seq<char>, from: int)
    requires
        0 <= from <= s.len(),
    ensures
        from <= line_end(s, from) <= s.len(),
        forall|j: int| from <= j < line_end(s, from) ==> s[j] != '\n',
        line_end(s, from) < s.len() ==> s[line_end(s, from)] == '\n',
{
    lemma_find_char(s, from, '\n');
}

pub proof fn lemma_line_end_is(s: Seq<char>, from: int, i: int)
    requires
        0 <= from <= i <= s.len(),
        forall|j: int| from <= j < i ==> s[j] != '\n',
        i < s.len() ==> s[i] == '\n',
    ensures
        line_end(s, from) == i,
{
    lemma_line_end(s, from);
}

} // verus!
// Reverse searches and the reply-content lead-in run.

verus! {

/// Index of the last occurrence of `c` strictly before `hi`, at or after
/// `lo`.
pub open spec fn rfind_char_before(s: Seq<char>, lo: int, hi: int, c: char) -> Option<int>
    decreases hi - lo,
{
    if hi <= lo || hi < 1 {
        None
    } else if hi - 1 < s.len() && s[hi - 1] == c {
        Some(hi - 1)
    } else {
        rfind_char_before(s, lo, hi - 1, c)
    }
}

pub proof fn lemma_rfind_char_before(s: Seq<char>, lo: int, hi: int, c: char)
    requires
        0 <= lo,
        hi <= s.len(),
    ensures
        match rfind_char_before(s, lo, hi, c) {
            Some(i) => lo <= i < hi && s[i] == c && (forall|j: int| i < j < hi ==> s[j] != c),
            None => forall|j: int| lo <= j < hi ==> s[j] != c,
        },
    decreases hi - lo,
{
    if hi > lo && hi >= 1 && !(hi - 1 < s.len() && s[hi - 1] == c) {
        lemma_rfind_char_before(s, lo, hi - 1, c);
    }
}

/// The characters a reply's visible content is stripped of at its start:
/// the colon-and-blank lead-in the page puts before the message.
pub open spec fn is_lead_char(c: char) -> bool {
    c == ':' || c == ' '
}

/// End of the lead-in run at the start of `s`.
pub open spec fn lead_run_end(s: Seq<char>) -> int {
    run_end(s, 0, |c: char| is_lead_char(c))
}

pub proof fn lemma_lead_run_end_is(s: Seq<char>, i: int)
    requires
        0 <= i <= s.len(),
        forall|j: int| 0 <= j < i ==> is_lead_char(s[j]),
        i < s.len() ==> !is_lead_char(s[i]),
    ensures
        lead_run_end(s) == i,
{
    lemma_run_end_is(s, 0, i, |c: char| is_lead_char(c));
}

} // verus!
