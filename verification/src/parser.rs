//! The extraction engine: each field of an article is recovered by an
//! ordered chain of strategies (structured markup first, labeled-field scan
//! next, raw-text marker scan last), and the assembler composes the fields,
//! the body and the replies into one record. Every extractor's result is a
//! function of the document snapshot alone.

use vstd::prelude::*;
use vstd::string::StringExecFns;

use crate::article::{
    count_type, lemma_count_type_bounds, reply_type_of, spec_reply_type_of, tally, tally_ok, Article, ArticleV, Ipv4, Meta,
    MetaV, Reply, ReplyCount, ReplyType, ReplyV,
};
use crate::board::{board_of_chars, spec_board_of, BoardName};
use crate::chars::{
    contains_sub, find_char, find_sub_from, is_space_char, is_word_char, lead_run_end,
    lemma_find_char, lemma_find_sub_from, line_end, rfind_char_before, trim_of, word_run_end,
};
use crate::dates::{
    dt_valid, parse_header_date, resolve_reply_date, spec_parse_header_date, spec_reply_date,
    DateTime,
};
use crate::document::{Document, DocumentV, PushNode, PushNodeV, Span, SpanV};
use crate::stamp::{find_ipv4_from, find_stamp, ipv4_value, ip_value, scan_ipv4, scan_stamp, StampV};
use crate::text::{
    chars_eq_str, chars_to_string, contains_pat, end_of_line, index_of_char, index_of_sub,
    rindex_of_char, skip_lead, skip_spaces, skip_words, str_chars, subvec, trim_chars,
};

verus! {

/// The parse errors: a recognized deleted article, a malformed required
/// structure, or a missing required field (named).
#[derive(Debug, Clone, PartialEq)]
pub enum Error {
    DeletedArticle,
    InvalidFormat,
    FieldNotFound(String),
}

pub ghost enum ErrorV {
    DeletedArticle,
    InvalidFormat,
    FieldNotFound(Seq<char>),
}

impl View for Error {
    type V = ErrorV;

    open spec fn view(&self) -> ErrorV {
        match self {
            Error::DeletedArticle => ErrorV::DeletedArticle,
            Error::InvalidFormat => ErrorV::InvalidFormat,
            Error::FieldNotFound(f) => ErrorV::FieldNotFound(f@),
        }
    }
}

/// A document is a deleted article when any of its content blocks carries
/// the not-found marker.
pub open spec fn spec_is_deleted(d: DocumentV) -> bool {
    exists|i: int|
        0 <= i < d.bbs_contents.len() && contains_sub(
            #[trigger] d.bbs_contents[i],
            "404 - Not Found."@,
        )
}

/// Whether the article exists (the existence check that runs before any
/// other extraction).
pub fn is_article_exist(doc: &Document) -> (r: bool)
    ensures
        r == !spec_is_deleted(doc@),
{
    let pat = str_chars("404 - Not Found.");
    let ghost bv = doc@.bbs_contents;
    let mut i: usize = 0;
    while i < doc.bbs_contents.len()
        invariant
            i <= doc.bbs_contents@.len(),
            bv == doc@.bbs_contents,
            bv.len() == doc.bbs_contents@.len(),
            pat@ == "404 - Not Found."@,
            forall|j: int| 0 <= j < i ==> !contains_sub(#[trigger] bv[j], "404 - Not Found."@),
        decreases doc.bbs_contents@.len() - i,
    {
        let t = str_chars(doc.bbs_contents[i].as_str());
        if contains_pat(&t, &pat) {
            assert(contains_sub(doc@.bbs_contents[i as int], "404 - Not Found."@));
            return false;
        }
        i = i + 1;
    }
    true
}

/// The article id named by a canonical URL: the last path segment with
/// everything from the first `.html` onward stripped.
pub open spec fn spec_id_of_href(h: Seq<char>) -> Option<Seq<char>> {
    let seg_start = match rfind_char_before(h, 0, h.len() as int, '/') {
        Some(i) => i + 1,
        None => 0,
    };
    let seg = h.subrange(seg_start, h.len() as int);
    match find_sub_from(seg, ".html"@, 0) {
        Some(k) => Some(seg.subrange(0, k)),
        None => None,
    }
}

/// The id extraction has no fallback: no canonical link, or a segment
/// without the extension, fails the whole parse.
pub open spec fn spec_parse_id(d: DocumentV) -> Option<Seq<char>> {
    match d.canonical_href {
        Some(h) => spec_id_of_href(h),
        None => None,
    }
}

pub fn parse_id(doc: &Document) -> (r: Result<String, Error>)
    ensures
        match r {
            Ok(id) => spec_parse_id(doc@) == Some(id@),
            Err(e) => spec_parse_id(doc@) is None && e@ == ErrorV::FieldNotFound("id"@),
        },
{
    let href = match &doc.canonical_href {
        Some(h) => h,
        None => {
            return Err(Error::FieldNotFound(String::from_str("id")));
        },
    };
    let h = str_chars(href.as_str());
    let n = h.len();
    let found = rindex_of_char(&h, 0, n, '/');
    proof {
        crate::chars::lemma_rfind_char_before(h@, 0, h@.len() as int, '/');
    }
    let seg_start: usize = match found {
        Some(i) => i + 1,
        None => 0,
    };
    let seg = subvec(&h, seg_start, h.len());
    let pat = str_chars(".html");
    match index_of_sub(&seg, &pat, 0) {
        Some(k) => {
            proof {
                lemma_find_sub_from(seg@, pat@, 0);
            }
            let id = subvec(&seg, 0, k);
            Ok(chars_to_string(&id))
        },
        None => Err(Error::FieldNotFound(String::from_str("id"))),
    }
}

/// First span whose trimmed text is exactly `label`.
pub open spec fn find_labeled_from(spans: Seq<SpanV>, label: Seq<char>, from: int) -> Option<int>
    decreases spans.len() - from,
{
    if from < 0 || from >= spans.len() {
        None
    } else if trim_of(spans[from].text) == label {
        Some(from)
    } else {
        find_labeled_from(spans, label, from + 1)
    }
}

fn find_labeled(spans: &Vec<Span>, label: &str) -> (r: Option<usize>)
    ensures
        match r {
            Some(i) => Some(i as int) == find_labeled_from(
                spans@.map_values(|s: Span| s@),
                label@,
                0,
            ) && i < spans@.len(),
            None => find_labeled_from(spans@.map_values(|s: Span| s@), label@, 0) is None,
        },
{
    let ghost sv = spans@.map_values(|s: Span| s@);
    let mut i: usize = 0;
    while i < spans.len()
        invariant
            i <= spans@.len(),
            sv == spans@.map_values(|s: Span| s@),
            find_labeled_from(sv, label@, 0) == find_labeled_from(sv, label@, i as int),
        decreases spans@.len() - i,
    {
        let t = str_chars(spans[i].text.as_str());
        let tt = trim_chars(&t);
        if chars_eq_str(&tt, label) {
            assert(trim_of(sv[i as int].text) == label@);
            return Some(i);
        }
        i = i + 1;
    }
    None
}

/// The raw text a marker-scan strategy yields: everything between the
/// marker's colon and the end of that line. A missing newline after the
/// marker is a missing field.
pub open spec fn spec_marker_value(mc: Seq<char>, marker: Seq<char>) -> Option<Seq<char>> {
    match find_sub_from(mc, marker, 0) {
        Some(p) => match find_char(mc, p + marker.len(), '\n') {
            Some(n) => Some(mc.subrange(p + marker.len(), n)),
            None => None,
        },
        None => None,
    }
}

fn marker_value(mc: &Vec<char>, marker: &str) -> (r: Option<Vec<char>>)
    ensures
        match r {
            Some(v) => spec_marker_value(mc@, marker@) == Some(v@),
            None => spec_marker_value(mc@, marker@) is None,
        },
{
    let pat = str_chars(marker);
    let n = mc.len();
    match index_of_sub(mc, &pat, 0) {
        Some(p) => {
            proof {
                lemma_find_sub_from(mc@, pat@, 0);
                assert(p + pat@.len() <= n);
            }
            match index_of_char(mc, p + pat.len(), '\n') {
                Some(n) => {
                    proof {
                        lemma_find_char(mc@, p + pat@.len() as int, '\n');
                    }
                    Some(subvec(mc, p + pat.len(), n))
                },
                None => None,
            }
        },
        None => None,
    }
}

/// The raw title text: the `og:title` meta value when present, else the
/// text after a span labeled 標題, else the rest of the line after a raw
/// 標題: marker in the main content.
pub open spec fn spec_title_source(d: DocumentV) -> Result<Seq<char>, ErrorV> {
    if d.og_title is Some {
        Ok(d.og_title->0)
    } else {
        match find_labeled_from(d.spans, "標題"@, 0) {
            Some(i) => Ok(d.spans[i].next_text),
            None => match spec_marker_value(d.main_content, "標題:"@) {
                Some(v) => Ok(v),
                None => Err(ErrorV::FieldNotFound("title"@)),
            },
        }
    }
}

/// The category/title split of a trimmed raw title: a bracketed word run at
/// the very start becomes the category, and the title is what follows it on
/// the same line (after any white space); with no such prefix the whole
/// first line is the title.
pub open spec fn title_split(s: Seq<char>) -> (Option<Seq<char>>, Seq<char>) {
    if s.len() == 0 {
        (None, s)
    } else if s[0] == '[' || s[0] == '［' {
        let j = word_run_end(s, 1);
        if j > 1 && j < s.len() && (s[j] == ']' || s[j] == '］') && j + 1 < s.len() {
            let m = crate::chars::space_run_end(s, j + 1);
            if m < s.len() {
                (Some(s.subrange(1, j)), s.subrange(m, line_end(s, m)))
            } else {
                (None, s.subrange(0, line_end(s, 0)))
            }
        } else {
            (None, s.subrange(0, line_end(s, 0)))
        }
    } else {
        (None, s.subrange(0, line_end(s, 0)))
    }
}

pub open spec fn spec_parse_title(d: DocumentV) -> Result<(Option<Seq<char>>, Seq<char>), ErrorV> {
    match spec_title_source(d) {
        Ok(raw) => Ok(title_split(trim_of(raw))),
        Err(e) => Err(e),
    }
}

fn title_split_chars(s: &Vec<char>) -> (r: (Option<Vec<char>>, Vec<char>))
    ensures
        ({
            let sp = title_split(s@);
            &&& (r.0 is Some <==> sp.0 is Some)
            &&& (r.0 is Some ==> r.0->0@ == sp.0->0)
            &&& r.1@ == sp.1
        }),
{
    if s.len() == 0 {
        return (None, Vec::new());
    }
    if s[0] == '[' || s[0] == '［' {
        let j = skip_words(s, 1);
        if j > 1 && j < s.len() && (s[j] == ']' || s[j] == '］') && j + 1 < s.len() {
            let m = skip_spaces(s, j + 1);
            if m < s.len() {
                let cat = subvec(s, 1, j);
                let e = end_of_line(s, m);
                return (Some(cat), subvec(s, m, e));
            }
        }
    }
    let e = end_of_line(s, 0);
    (None, subvec(s, 0, e))
}

pub fn parse_title(doc: &Document) -> (r: Result<(Option<String>, String), Error>)
    ensures
        match r {
            Ok((c, t)) => spec_parse_title(doc@) == Ok::<_, ErrorV>(
                (
                    match c {
                        Some(cs) => Some(cs@),
                        None => None,
                    },
                    t@,
                ),
            ),
            Err(e) => spec_parse_title(doc@) == Err::<(Option<Seq<char>>, Seq<char>), _>(e@),
        },
{
    let raw: Vec<char> = match &doc.og_title {
        Some(t) => str_chars(t.as_str()),
        None => {
            match find_labeled(&doc.spans, "標題") {
                Some(i) => str_chars(doc.spans[i].next_text.as_str()),
                None => {
                    let mc = str_chars(doc.main_content.as_str());
                    match marker_value(&mc, "標題:") {
                        Some(v) => v,
                        None => {
                            return Err(Error::FieldNotFound(String::from_str("title")));
                        },
                    }
                },
            }
        },
    };
    let t = trim_chars(&raw);
    let (cat, title) = title_split_chars(&t);
    let cat_s = match cat {
        Some(c) => Some(chars_to_string(&c)),
        None => None,
    };
    Ok((cat_s, chars_to_string(&title)))
}

/// The raw author text: the first structured header value when present,
/// else the text after a span labeled 作者, else the rest of the line after
/// a raw 作者: marker in the main content.
pub open spec fn spec_author_source(d: DocumentV) -> Result<Seq<char>, ErrorV> {
    if d.meta_values.len() >= 1 {
        Ok(d.meta_values[0])
    } else {
        match find_labeled_from(d.spans, "作者"@, 0) {
            Some(i) => Ok(d.spans[i].next_text),
            None => match spec_marker_value(d.main_content, "作者:"@) {
                Some(v) => Ok(v),
                None => Err(ErrorV::FieldNotFound("author"@)),
            },
        }
    }
}

/// A handle-and-name shape begins at `i`: a word run, one white-space
/// character, an opening parenthesis, and a closing parenthesis later on
/// the same line with at least one character between.
pub open spec fn author_match_at(s: Seq<char>, i: int) -> bool {
    &&& 0 <= i < s.len()
    &&& is_word_char(s[i])
    &&& ({
        let j = word_run_end(s, i);
        &&& j + 1 < s.len()
        &&& is_space_char(s[j])
        &&& s[j + 1] == '('
        &&& rfind_char_before(s, j + 3, line_end(s, j + 2), ')') is Some
    })
}

/// The id and display name captured at a matching position.
pub open spec fn author_capture_at(s: Seq<char>, i: int) -> (Seq<char>, Seq<char>) {
    let j = word_run_end(s, i);
    let p = rfind_char_before(s, j + 3, line_end(s, j + 2), ')')->0;
    (s.subrange(i, j), s.subrange(j + 2, p))
}

/// Leftmost handle-and-name match in a trimmed author text.
pub open spec fn author_split_from(s: Seq<char>, i: int) -> Option<(Seq<char>, Seq<char>)>
    decreases s.len() - i,
{
    if i < 0 || i >= s.len() {
        None
    } else if author_match_at(s, i) {
        Some(author_capture_at(s, i))
    } else {
        author_split_from(s, i + 1)
    }
}

/// The parsed author: on a handle-and-name match, the id and the name;
/// otherwise the whole trimmed text as the id, with no name.
pub open spec fn spec_parse_author(d: DocumentV) -> Result<(Seq<char>, Option<Seq<char>>), ErrorV> {
    match spec_author_source(d) {
        Ok(raw) => {
            let t = trim_of(raw);
            match author_split_from(t, 0) {
                Some((id, name)) => Ok((id, Some(name))),
                None => Ok((t, None)),
            }
        },
        Err(e) => Err(e),
    }
}

fn author_check_at(s: &Vec<char>, i: usize) -> (r: Option<(Vec<char>, Vec<char>)>)
    requires
        i < s.len(),
    ensures
        match r {
            Some((id, name)) => author_match_at(s@, i as int) && author_capture_at(s@, i as int)
                == (id@, name@),
            None => !author_match_at(s@, i as int),
        },
{
    if !crate::chars::is_word(s[i]) {
        return None;
    }
    let n = s.len();
    let j = skip_words(s, i);
    if j < n && n - j > 1 && crate::chars::is_space(s[j]) && s[j + 1] == '(' {
        let nl = end_of_line(s, j + 2);
        if nl - (j + 2) >= 1 {
            match rindex_of_char(s, j + 3, nl, ')') {
                Some(p) => {
                    proof {
                        crate::chars::lemma_rfind_char_before(
                            s@,
                            j + 3 as int,
                            line_end(s@, j + 2 as int),
                            ')',
                        );
                    }
                    Some((subvec(s, i, j), subvec(s, j + 2, p)))
                },
                None => None,
            }
        } else {
            proof {
                crate::chars::lemma_rfind_char_before(
                    s@,
                    j + 3 as int,
                    line_end(s@, j + 2 as int),
                    ')',
                );
            }
            None
        }
    } else {
        None
    }
}

fn author_split_chars(s: &Vec<char>) -> (r: Option<(Vec<char>, Vec<char>)>)
    ensures
        match r {
            Some((id, name)) => author_split_from(s@, 0) == Some((id@, name@)),
            None => author_split_from(s@, 0) is None,
        },
{
    let mut i: usize = 0;
    while i < s.len()
        invariant
            i <= s.len(),
            author_split_from(s@, 0) == author_split_from(s@, i as int),
        decreases s.len() - i,
    {
        match author_check_at(s, i) {
            Some(pair) => {
                return Some(pair);
            },
            None => {
                i = i + 1;
            },
        }
    }
    None
}

pub fn parse_author(doc: &Document) -> (r: Result<(String, Option<String>), Error>)
    ensures
        match r {
            Ok((id, name)) => spec_parse_author(doc@) == Ok::<_, ErrorV>(
                (
                    id@,
                    match name {
                        Some(n) => Some(n@),
                        None => None,
                    },
                ),
            ),
            Err(e) => spec_parse_author(doc@) == Err::<(Seq<char>, Option<Seq<char>>), _>(e@),
        },
{
    let raw: Vec<char> = if doc.meta_values.len() >= 1 {
        str_chars(doc.meta_values[0].as_str())
    } else {
        match find_labeled(&doc.spans, "作者") {
            Some(i) => str_chars(doc.spans[i].next_text.as_str()),
            None => {
                let mc = str_chars(doc.main_content.as_str());
                match marker_value(&mc, "作者:") {
                    Some(v) => v,
                    None => {
                        return Err(Error::FieldNotFound(String::from_str("author")));
                    },
                }
            },
        }
    };
    let t = trim_chars(&raw);
    match author_split_chars(&t) {
        Some((id, name)) => Ok((chars_to_string(&id), Some(chars_to_string(&name)))),
        None => Ok((chars_to_string(&t), None)),
    }
}

/// The raw board text: the second structured header value when present,
/// else the text after a span labeled 看板; with neither, the field is
/// missing.
pub open spec fn spec_board_source(d: DocumentV) -> Result<Seq<char>, ErrorV> {
    if d.meta_values.len() >= 2 {
        Ok(d.meta_values[1])
    } else {
        match find_labeled_from(d.spans, "看板"@, 0) {
            Some(i) => Ok(d.spans[i].next_text),
            None => Err(ErrorV::FieldNotFound("board"@)),
        }
    }
}

/// The parsed board: unrecognized text maps to `Unknown`, never to an
/// error, because board-name drift must not abort the parse.
pub open spec fn spec_parse_board(d: DocumentV) -> Result<BoardName, ErrorV> {
    match spec_board_source(d) {
        Ok(t) => Ok(spec_board_of(t)),
        Err(e) => Err(e),
    }
}

pub fn parse_board(doc: &Document) -> (r: Result<BoardName, Error>)
    ensures
        match r {
            Ok(b) => spec_parse_board(doc@) == Ok::<_, ErrorV>(b),
            Err(e) => spec_parse_board(doc@) == Err::<BoardName, _>(e@),
        },
{
    let raw: Vec<char> = if doc.meta_values.len() >= 2 {
        str_chars(doc.meta_values[1].as_str())
    } else {
        match find_labeled(&doc.spans, "看板") {
            Some(i) => str_chars(doc.spans[i].next_text.as_str()),
            None => {
                return Err(Error::FieldNotFound(String::from_str("board")));
            },
        }
    };
    Ok(board_of_chars(&raw))
}

/// A text of the fixed header-date shape begins at `i`: three word
/// characters, a blank, three word characters, a blank, a two-digit day, a
/// blank, an `hh:mm:ss` time and a four-digit year.
pub open spec fn date_shape_at(s: Seq<char>, i: int) -> bool {
    &&& 0 <= i
    &&& i + 24 <= s.len()
    &&& is_word_char(s[i]) && is_word_char(s[i + 1]) && is_word_char(s[i + 2])
    &&& s[i + 3] == ' '
    &&& is_word_char(s[i + 4]) && is_word_char(s[i + 5]) && is_word_char(s[i + 6])
    &&& s[i + 7] == ' '
    &&& crate::chars::is_digit_char(s[i + 8]) && crate::chars::is_digit_char(s[i + 9])
    &&& s[i + 10] == ' '
    &&& crate::chars::is_digit_char(s[i + 11]) && crate::chars::is_digit_char(s[i + 12])
    &&& s[i + 13] == ':'
    &&& crate::chars::is_digit_char(s[i + 14]) && crate::chars::is_digit_char(s[i + 15])
    &&& s[i + 16] == ':'
    &&& crate::chars::is_digit_char(s[i + 17]) && crate::chars::is_digit_char(s[i + 18])
    &&& s[i + 19] == ' '
    &&& crate::chars::is_digit_char(s[i + 20]) && crate::chars::is_digit_char(s[i + 21])
    &&& crate::chars::is_digit_char(s[i + 22]) && crate::chars::is_digit_char(s[i + 23])
}

pub open spec fn find_date_shape(s: Seq<char>, from: int) -> Option<int>
    decreases s.len() - from,
{
    if from < 0 || from >= s.len() {
        None
    } else if date_shape_at(s, from) {
        Some(from)
    } else {
        find_date_shape(s, from + 1)
    }
}

/// The raw timestamp text: the fourth structured header value when present,
/// else the first date-shaped run of the main content.
pub open spec fn spec_date_source(d: DocumentV) -> Option<Seq<char>> {
    if d.meta_values.len() >= 4 {
        Some(d.meta_values[3])
    } else {
        match find_date_shape(d.main_content, 0) {
            Some(i) => Some(d.main_content.subrange(i, i + 24)),
            None => None,
        }
    }
}

/// The parsed timestamp: a soft field, absent on any failure.
pub open spec fn spec_parse_date(d: DocumentV) -> Option<DateTime> {
    match spec_date_source(d) {
        Some(t) => spec_parse_header_date(t),
        None => None,
    }
}

fn date_shape_check(v: &Vec<char>, i: usize) -> (r: bool)
    ensures
        r == date_shape_at(v@, i as int),
{
    if i > v.len() || v.len() - i < 24 {
        return false;
    }
    crate::chars::is_word(v[i]) && crate::chars::is_word(v[i + 1]) && crate::chars::is_word(
        v[i + 2],
    ) && v[i + 3] == ' ' && crate::chars::is_word(v[i + 4]) && crate::chars::is_word(v[i + 5])
        && crate::chars::is_word(v[i + 6]) && v[i + 7] == ' ' && crate::chars::is_digit(v[i + 8])
        && crate::chars::is_digit(v[i + 9]) && v[i + 10] == ' ' && crate::chars::is_digit(
        v[i + 11],
    ) && crate::chars::is_digit(v[i + 12]) && v[i + 13] == ':' && crate::chars::is_digit(v[i + 14])
        && crate::chars::is_digit(v[i + 15]) && v[i + 16] == ':' && crate::chars::is_digit(
        v[i + 17],
    ) && crate::chars::is_digit(v[i + 18]) && v[i + 19] == ' ' && crate::chars::is_digit(v[i + 20])
        && crate::chars::is_digit(v[i + 21]) && crate::chars::is_digit(v[i + 22])
        && crate::chars::is_digit(v[i + 23])
}

fn scan_date_shape(v: &Vec<char>) -> (r: Option<usize>)
    ensures
        match r {
            Some(k) => find_date_shape(v@, 0) == Some(k as int) && k + 24 <= v@.len(),
            None => find_date_shape(v@, 0) is None,
        },
{
    let mut i: usize = 0;
    while i < v.len()
        invariant
            i <= v@.len(),
            find_date_shape(v@, 0) == find_date_shape(v@, i as int),
        decreases v@.len() - i,
    {
        if date_shape_check(v, i) {
            return Some(i);
        }
        i = i + 1;
    }
    None
}

pub fn parse_date(doc: &Document) -> (r: Result<DateTime, Error>)
    ensures
        match r {
            Ok(dt) => spec_parse_date(doc@) == Some(dt) && dt_valid(dt),
            Err(e) => spec_parse_date(doc@) is None && (e@ == if spec_date_source(doc@) is None {
                ErrorV::FieldNotFound("date"@)
            } else {
                ErrorV::InvalidFormat
            }),
        },
{
    let raw: Vec<char> = if doc.meta_values.len() >= 4 {
        str_chars(doc.meta_values[3].as_str())
    } else {
        let mc = str_chars(doc.main_content.as_str());
        match scan_date_shape(&mc) {
            Some(k) => subvec(&mc, k, k + 24),
            None => {
                return Err(Error::FieldNotFound(String::from_str("date")));
            },
        }
    };
    match parse_header_date(&raw) {
        Some(dt) => Ok(dt),
        None => Err(Error::InvalidFormat),
    }
}

/// First small metadata line that names an origin (來自: or From:) and is
/// not an edit annotation.
pub open spec fn spec_f2_pick(ts: Seq<Seq<char>>, from: int) -> Option<int>
    decreases ts.len() - from,
{
    if from < 0 || from >= ts.len() {
        None
    } else if !contains_sub(ts[from], "編輯"@) && (contains_sub(ts[from], "來自:"@) || contains_sub(
        ts[from],
        "From:"@,
    )) {
        Some(from)
    } else {
        spec_f2_pick(ts, from + 1)
    }
}

/// The text scanned for the origin address: the picked metadata line, or
/// the main content from the first origin marker (from its start when no
/// marker occurs).
pub open spec fn spec_ip_text(d: DocumentV) -> Seq<char> {
    match spec_f2_pick(d.f2_texts, 0) {
        Some(i) => d.f2_texts[i],
        None => {
            let p = match find_sub_from(d.main_content, "來自:"@, 0) {
                Some(p) => p,
                None => match find_sub_from(d.main_content, "From:"@, 0) {
                    Some(p) => p,
                    None => 0,
                },
            };
            d.main_content.subrange(p, d.main_content.len() as int)
        },
    }
}

/// The parsed origin address: the first dotted-quad token of the origin
/// text, absent when there is none or an octet is malformed.
pub open spec fn spec_parse_ip(d: DocumentV) -> Option<Ipv4> {
    let t = spec_ip_text(d);
    match find_ipv4_from(t, 0) {
        Some((a, b)) => ipv4_value(t, a, b),
        None => None,
    }
}

fn pick_f2(texts: &Vec<String>) -> (r: Option<usize>)
    ensures
        ({
            let tv = texts@.map_values(|s: String| s@);
            match r {
                Some(k) => spec_f2_pick(tv, 0) == Some(k as int) && k < texts@.len(),
                None => spec_f2_pick(tv, 0) is None,
            }
        }),
{
    let ghost tv = texts@.map_values(|s: String| s@);
    let mut i: usize = 0;
    while i < texts.len()
        invariant
            i <= texts@.len(),
            tv == texts@.map_values(|s: String| s@),
            tv.len() == texts@.len(),
            spec_f2_pick(tv, 0) == spec_f2_pick(tv, i as int),
        decreases texts@.len() - i,
    {
        let t = str_chars(texts[i].as_str());
        let edit = str_chars("編輯");
        let from1 = str_chars("來自:");
        let from2 = str_chars("From:");
        if !contains_pat(&t, &edit) && (contains_pat(&t, &from1) || contains_pat(&t, &from2)) {
            assert(tv[i as int] == texts@[i as int]@);
            return Some(i);
        }
        i = i + 1;
    }
    None
}

pub fn parse_ip(doc: &Document) -> (r: Result<Ipv4, Error>)
    ensures
        match r {
            Ok(ip) => spec_parse_ip(doc@) == Some(ip),
            Err(e) => spec_parse_ip(doc@) is None && e@ == ErrorV::FieldNotFound("ip"@),
        },
{
    let pick = pick_f2(&doc.f2_texts);
    let text: Vec<char> = match pick {
        Some(k) => str_chars(doc.f2_texts[k].as_str()),
        None => {
            let mc = str_chars(doc.main_content.as_str());
            let from1 = str_chars("來自:");
            let from2 = str_chars("From:");
            let p: usize = match index_of_sub(&mc, &from1, 0) {
                Some(p) => p,
                None => match index_of_sub(&mc, &from2, 0) {
                    Some(p) => p,
                    None => 0,
                },
            };
            proof {
                lemma_find_sub_from(mc@, from1@, 0);
                lemma_find_sub_from(mc@, from2@, 0);
            }
            subvec(&mc, p, mc.len())
        },
    };
    match scan_ipv4(&text) {
        Some((a, b)) => match ip_value(&text, a, b) {
            Some(ip) => Ok(ip),
            None => Err(Error::FieldNotFound(String::from_str("ip"))),
        },
        None => Err(Error::FieldNotFound(String::from_str("ip"))),
    }
}

/// The body text: everything between the end of the header line (the first
/// newline) and the first trailing quote marker, trimmed. A main content
/// without both boundaries is malformed.
pub open spec fn spec_parse_content(d: DocumentV) -> Result<Seq<char>, ErrorV> {
    match find_char(d.main_content, 0, '\n') {
        None => Err(ErrorV::InvalidFormat),
        Some(st) => match find_sub_from(d.main_content, "\n※"@, st + 1) {
            None => Err(ErrorV::InvalidFormat),
            Some(en) => Ok(trim_of(d.main_content.subrange(st, en))),
        },
    }
}

pub fn parse_content(doc: &Document) -> (r: Result<String, Error>)
    ensures
        match r {
            Ok(c) => spec_parse_content(doc@) == Ok::<_, ErrorV>(c@),
            Err(e) => spec_parse_content(doc@) == Err::<Seq<char>, _>(e@),
        },
{
    let mc = str_chars(doc.main_content.as_str());
    let st = match index_of_char(&mc, 0, '\n') {
        Some(st) => st,
        None => {
            return Err(Error::InvalidFormat);
        },
    };
    proof {
        lemma_find_char(mc@, 0, '\n');
    }
    let pat = str_chars("\n※");
    match index_of_sub(&mc, &pat, st + 1) {
        Some(en) => {
            proof {
                lemma_find_sub_from(mc@, pat@, st + 1 as int);
            }
            let body = subvec(&mc, st, en);
            Ok(chars_to_string(&trim_chars(&body)))
        },
        None => Err(Error::InvalidFormat),
    }
}

} // verus!
// Reply extraction and the assembler.

verus! {

/// A reply's visible content with its leading colon-and-blank run removed.
pub open spec fn drop_lead_of(s: Seq<char>) -> Seq<char> {
    s.subrange(lead_run_end(s), s.len() as int)
}

/// The origin address a matched stamp yields, absent when the token is
/// malformed.
pub open spec fn spec_reply_ip(src: Seq<char>, st: StampV) -> Option<Ipv4> {
    match st.ip {
        Some((a, b)) => ipv4_value(src, a, b),
        None => None,
    }
}

/// The reconstructed timestamp of a reply, absent when the article has no
/// timestamp of its own or the stamped fields make no valid date.
pub open spec fn spec_reply_time(at: Option<DateTime>, st: StampV) -> Option<DateTime> {
    match at {
        Some(a) => spec_reply_date(a, st.month as u32, st.day as u32, st.hour as u32, st.min as u32),
        None => None,
    }
}

/// One reply node's parse: the oversized-thread warning row and an
/// unparseable tag or stamp drop the reply; the stamp is read from the
/// origin/time span first and retried against the visible content, where a
/// matched origin is stripped back out of the content.
pub open spec fn spec_parse_reply(p: PushNodeV, at: Option<DateTime>) -> Option<ReplyV> {
    if p.text == "檔案過大！部分文章無法顯示"@ {
        None
    } else {
        match spec_reply_type_of(trim_of(p.tag)) {
            None => None,
            Some(rt) => {
                let content0 = trim_of(drop_lead_of(p.content));
                let token = trim_of(p.ip_datetime);
                match find_stamp(token, 0) {
                    Some(st) => Some(
                        ReplyV {
                            reply_type: rt,
                            author_id: p.author_id,
                            ip: spec_reply_ip(token, st),
                            date: spec_reply_time(at, st),
                            content: content0,
                        },
                    ),
                    None => match find_stamp(content0, 0) {
                        Some(st) => Some(
                            ReplyV {
                                reply_type: rt,
                                author_id: p.author_id,
                                ip: spec_reply_ip(content0, st),
                                date: spec_reply_time(at, st),
                                content: if st.ip is Some {
                                    trim_of(content0.subrange(0, (st.ip->0).0))
                                } else {
                                    content0
                                },
                            },
                        ),
                        None => None,
                    },
                }
            },
        }
    }
}

pub fn parse_reply(p: &PushNode, article_time: &Option<DateTime>) -> (r: Result<Reply, Error>)
    requires
        article_time is Some ==> dt_valid(article_time->0),
    ensures
        match r {
            Ok(rep) => spec_parse_reply(p@, *article_time) == Some(rep@),
            Err(e) => spec_parse_reply(p@, *article_time) is None && e@ == ErrorV::InvalidFormat,
        },
{
    let text = str_chars(p.text.as_str());
    if chars_eq_str(&text, "檔案過大！部分文章無法顯示") {
        return Err(Error::InvalidFormat);
    }
    let tag_raw = str_chars(p.tag.as_str());
    let tag = trim_chars(&tag_raw);
    let rt = match reply_type_of(&tag) {
        Some(rt) => rt,
        None => {
            return Err(Error::InvalidFormat);
        },
    };
    let praw = str_chars(p.content.as_str());
    let lead = skip_lead(&praw);
    let stripped = subvec(&praw, lead, praw.len());
    let content0 = trim_chars(&stripped);
    let token_raw = str_chars(p.ip_datetime.as_str());
    let token = trim_chars(&token_raw);
    match scan_stamp(&token) {
        Some(st) => {
            let ip = match st.ip {
                Some((a, b)) => ip_value(&token, a, b),
                None => None,
            };
            let date = match article_time {
                Some(at) => resolve_reply_date(at, st.month, st.day, st.hour, st.min),
                None => None,
            };
            Ok(
                Reply {
                    reply_type: rt,
                    author_id: p.author_id.clone(),
                    ip,
                    date,
                    content: chars_to_string(&content0),
                },
            )
        },
        None => match scan_stamp(&content0) {
            Some(st) => {
                let ip = match st.ip {
                    Some((a, b)) => ip_value(&content0, a, b),
                    None => None,
                };
                let date = match article_time {
                    Some(at) => resolve_reply_date(at, st.month, st.day, st.hour, st.min),
                    None => None,
                };
                let content1 = match st.ip {
                    Some((a, _b)) => {
                        let cut = subvec(&content0, 0, a);
                        trim_chars(&cut)
                    },
                    None => content0,
                };
                Ok(
                    Reply {
                        reply_type: rt,
                        author_id: p.author_id.clone(),
                        ip,
                        date,
                        content: chars_to_string(&content1),
                    },
                )
            },
            None => Err(Error::InvalidFormat),
        },
    }
}

/// The reply list of a document: each reply row parsed in page order, the
/// unparseable ones dropped, the rest kept in appearance order.
pub open spec fn spec_parse_replies(ps: Seq<PushNodeV>, at: Option<DateTime>) -> Seq<ReplyV>
    decreases ps.len(),
{
    if ps.len() == 0 {
        Seq::empty()
    } else {
        spec_parse_replies(ps.drop_last(), at) + match spec_parse_reply(ps.last(), at) {
            Some(r) => seq![r],
            None => Seq::empty(),
        }
    }
}

pub proof fn lemma_parse_replies_len(ps: Seq<PushNodeV>, at: Option<DateTime>)
    ensures
        spec_parse_replies(ps, at).len() <= ps.len(),
    decreases ps.len(),
{
    if ps.len() > 0 {
        lemma_parse_replies_len(ps.drop_last(), at);
    }
}

pub fn parse_replies(doc: &Document, article_time: &Option<DateTime>) -> (r: Vec<Reply>)
    requires
        article_time is Some ==> dt_valid(article_time->0),
    ensures
        r@.map_values(|x: Reply| x@) == spec_parse_replies(doc@.pushes, *article_time),
        r@.len() <= doc@.pushes.len(),
{
    let ghost pv = doc@.pushes;
    let mut r: Vec<Reply> = Vec::new();
    let mut i: usize = 0;
    while i < doc.pushes.len()
        invariant
            i <= doc.pushes@.len(),
            pv == doc@.pushes,
            pv.len() == doc.pushes@.len(),
            article_time is Some ==> dt_valid(article_time->0),
            r@.map_values(|x: Reply| x@) == spec_parse_replies(
                pv.subrange(0, i as int),
                *article_time,
            ),
            r@.len() <= i,
        decreases doc.pushes@.len() - i,
    {
        let ghost pre = pv.subrange(0, i as int);
        let ghost post = pv.subrange(0, i + 1);
        proof {
            assert(post.drop_last() =~= pre);
            assert(post.last() == doc.pushes@[i as int]@);
        }
        match parse_reply(&doc.pushes[i], article_time) {
            Ok(rep) => {
                let ghost old_map = r@.map_values(|x: Reply| x@);
                r.push(rep);
                proof {
                    assert(r@.map_values(|x: Reply| x@) =~= old_map.push(rep@));
                    assert(old_map.push(rep@) =~= spec_parse_replies(post, *article_time));
                }
            },
            Err(_) => {
                proof {
                    assert(spec_parse_replies(post, *article_time) =~= spec_parse_replies(
                        pre,
                        *article_time,
                    ));
                }
            },
        }
        i = i + 1;
    }
    proof {
        assert(pv.subrange(0, i as int) =~= pv);
    }
    r
}

} // verus!
// The assembler: existence check, metadata, body, replies, tally.

verus! {

/// Metadata composed of the field extractions. The required fields fail in
/// a fixed order (id, title, author, board); the timestamp and the origin
/// address are soft and resolve to absent on any failure.
pub open spec fn spec_parse_meta(d: DocumentV) -> Result<MetaV, ErrorV> {
    match spec_parse_id(d) {
        None => Err(ErrorV::FieldNotFound("id"@)),
        Some(id) => match spec_parse_title(d) {
            Err(e) => Err(e),
            Ok((cat, title)) => match spec_parse_author(d) {
                Err(e) => Err(e),
                Ok((aid, aname)) => match spec_parse_board(d) {
                    Err(e) => Err(e),
                    Ok(b) => Ok(
                        MetaV {
                            board: b,
                            id,
                            category: match cat {
                                Some(c) => c,
                                None => Seq::empty(),
                            },
                            title,
                            author_id: aid,
                            author_name: aname,
                            date: spec_parse_date(d),
                            ip: spec_parse_ip(d),
                        },
                    ),
                },
            },
        },
    }
}

pub fn parse_meta(doc: &Document) -> (r: Result<Meta, Error>)
    ensures
        match r {
            Ok(m) => spec_parse_meta(doc@) == Ok::<_, ErrorV>(m@) && (m.date is Some ==> dt_valid(
                m.date->0,
            )),
            Err(e) => spec_parse_meta(doc@) == Err::<MetaV, _>(e@),
        },
{
    let id = match parse_id(doc) {
        Ok(id) => id,
        Err(e) => {
            return Err(e);
        },
    };
    let (category, title) = match parse_title(doc) {
        Ok((Some(c), t)) => (c, t),
        Ok((None, t)) => (String::new(), t),
        Err(e) => {
            return Err(e);
        },
    };
    let (author_id, author_name) = match parse_author(doc) {
        Ok(p) => p,
        Err(e) => {
            return Err(e);
        },
    };
    let board = match parse_board(doc) {
        Ok(b) => b,
        Err(e) => {
            return Err(e);
        },
    };
    let date = match parse_date(doc) {
        Ok(d) => Some(d),
        Err(_) => None,
    };
    let ip = match parse_ip(doc) {
        Ok(ip) => Some(ip),
        Err(_) => None,
    };
    Ok(Meta { board, id, category, title, author_id, author_name, date, ip })
}

/// The derived tally of a reply list.
pub open spec fn spec_tally(rs: Seq<ReplyV>) -> ReplyCount {
    ReplyCount {
        push: count_type(rs, ReplyType::Push) as u16,
        neutral: count_type(rs, ReplyType::Neutral) as u16,
        boo: count_type(rs, ReplyType::Boo) as u16,
    }
}

/// The whole parse, as a function of the document snapshot alone: a
/// deleted-article check first, then metadata, body and replies, with the
/// tally recomputed from the final reply list.
pub open spec fn spec_parse(d: DocumentV) -> Result<ArticleV, ErrorV> {
    if spec_is_deleted(d) {
        Err(ErrorV::DeletedArticle)
    } else {
        match spec_parse_meta(d) {
            Err(e) => Err(e),
            Ok(m) => match spec_parse_content(d) {
                Err(e) => Err(e),
                Ok(c) => {
                    let rs = spec_parse_replies(d.pushes, m.date);
                    Ok(ArticleV { meta: m, content: c, reply_count: spec_tally(rs), replies: rs })
                },
            },
        }
    }
}

/// Parses one document snapshot into an article record.
pub fn parse(doc: &Document) -> (r: Result<Article, Error>)
    requires
        doc@.pushes.len() <= u16::MAX,
    ensures
        match r {
            Ok(a) => spec_parse(doc@) == Ok::<_, ErrorV>(a@) && tally_ok(a.reply_count, a@.replies),
            Err(e) => spec_parse(doc@) == Err::<ArticleV, _>(e@),
        },
{
    if !is_article_exist(doc) {
        return Err(Error::DeletedArticle);
    }
    let meta = match parse_meta(doc) {
        Ok(m) => m,
        Err(e) => {
            return Err(e);
        },
    };
    let content = match parse_content(doc) {
        Ok(c) => c,
        Err(e) => {
            return Err(e);
        },
    };
    let replies = parse_replies(doc, &meta.date);
    let reply_count = tally(&replies);
    let ghost rs = spec_parse_replies(doc@.pushes, meta@.date);
    proof {
        lemma_count_type_bounds(rs, ReplyType::Push);
        lemma_count_type_bounds(rs, ReplyType::Neutral);
        lemma_count_type_bounds(rs, ReplyType::Boo);
        assert(reply_count == spec_tally(rs));
    }
    let art = Article { meta, content, reply_count, replies };
    proof {
        assert(spec_parse(doc@) == Ok::<ArticleV, ErrorV>(art@));
    }
    Ok(art)
}

/// Deleted detection: a document whose content block carries the not-found
/// marker is classified as a deleted article, and no field of it is
/// extracted.
pub proof fn lemma_deleted_detection(d: DocumentV)
    requires
        spec_is_deleted(d),
    ensures
        spec_parse(d) == Err::<ArticleV, ErrorV>(ErrorV::DeletedArticle),
{
}

/// Idempotence: the parse is a function of the immutable document snapshot
/// alone, so two parses of the same snapshot yield identical records.
pub proof fn lemma_parse_deterministic(
    d: DocumentV,
    r1: Result<ArticleV, ErrorV>,
    r2: Result<ArticleV, ErrorV>,
)
    requires
        r1 == spec_parse(d),
        r2 == spec_parse(d),
    ensures
        r1 == r2,
{
}

/// Tally invariant: in every parsed article, each counter of `reply_count`
/// equals the number of replies of exactly that type in `replies`.
pub proof fn lemma_tally_invariant(d: DocumentV, a: ArticleV)
    requires
        d.pushes.len() <= u16::MAX,
        spec_parse(d) == Ok::<ArticleV, ErrorV>(a),
    ensures
        a.reply_count.push == count_type(a.replies, ReplyType::Push),
        a.reply_count.neutral == count_type(a.replies, ReplyType::Neutral),
        a.reply_count.boo == count_type(a.replies, ReplyType::Boo),
{
    lemma_parse_replies_len(d.pushes, (spec_parse_meta(d)->Ok_0).date);
    lemma_count_type_bounds(a.replies, ReplyType::Push);
    lemma_count_type_bounds(a.replies, ReplyType::Neutral);
    lemma_count_type_bounds(a.replies, ReplyType::Boo);
}

} // verus!
// Fallback ordering, stated once over every document.

verus! {

/// Fallback ordering for the title: structured markup always wins; the
/// labeled-field scan runs only without markup; the raw marker scan of the
/// body text recovers the title only when both earlier strategies found
/// nothing.
pub proof fn lemma_title_fallback_ordering(d: DocumentV)
    ensures
        d.og_title is Some ==> spec_title_source(d) == Ok::<Seq<char>, ErrorV>(d.og_title->0),
        (d.og_title is None && find_labeled_from(d.spans, "標題"@, 0) is Some) ==> spec_title_source(
            d,
        ) == Ok::<Seq<char>, ErrorV>(
            d.spans[find_labeled_from(d.spans, "標題"@, 0)->0].next_text,
        ),
        (d.og_title is None && find_labeled_from(d.spans, "標題"@, 0) is None && spec_marker_value(
            d.main_content,
            "標題:"@,
        ) is Some) ==> spec_title_source(d) == Ok::<Seq<char>, ErrorV>(
            spec_marker_value(d.main_content, "標題:"@)->0,
        ),
{
}

} // verus!
