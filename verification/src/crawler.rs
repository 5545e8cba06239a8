//! The crawl logic around the parser: listing-URL composition, the
//! supported-URL check, article-URL extraction from a listing snapshot,
//! page-count discovery from the pagination control, the inclusive page
//! range, and the accumulator that isolates per-item failures. The network
//! itself is the caller's concern; everything here is a function of plain
//! values.

use vstd::prelude::*;
use vstd::string::StrSliceExecFns;
use vstd::string::StringExecFns;

use crate::board::{board_str, is_board_name, spec_board_str, spec_is_board_name, BoardName};
use crate::chars::{
    contains_sub, dec_chars, digit_run_end, digits_val, has_sub_at, is_digit_char,
    lemma_digit_run_end, trim_of,
};
use crate::text::{
    chars_eq_str, chars_to_string, contains_pat, digits_to_u32, push_dec_chars, skip_digits,
    str_chars, trim_chars,
};

verus! {

/// The crawl errors: a failed transport exchange (carrying the transport
/// error rendered as text), a URL outside the supported space, and a
/// response that is not a success or yields nothing.
#[derive(Debug, Clone)]
pub enum Error {
    ConnectionError(String),
    InvalidUrl,
    InvalidResponse,
}

pub ghost enum CrawlErrorV {
    ConnectionError(Seq<char>),
    InvalidUrl,
    InvalidResponse,
}

impl View for Error {
    type V = CrawlErrorV;

    open spec fn view(&self) -> CrawlErrorV {
        match self {
            Error::ConnectionError(t) => CrawlErrorV::ConnectionError(t@),
            Error::InvalidUrl => CrawlErrorV::InvalidUrl,
            Error::InvalidResponse => CrawlErrorV::InvalidResponse,
        }
    }
}

/// The listing URL of a board page.
pub open spec fn spec_page_url(b: BoardName, page: u32) -> Seq<char> {
    "https://www.ptt.cc/bbs/"@ + spec_board_str(b) + "/index"@ + dec_chars(page as int) + ".html"@
}

pub fn compose_page_url(board: &BoardName, page: u32) -> (r: String)
    ensures
        r@ == spec_page_url(*board, page),
{
    let mut digits: Vec<char> = Vec::new();
    push_dec_chars(page, &mut digits);
    let mut s = String::from_str("https://www.ptt.cc/bbs/");
    s.append(board_str(board));
    s.append("/index");
    s.append(chars_to_string(&digits).as_str());
    s.append(".html");
    s
}

/// The path segments of a parsed URL, as the transport's URL library
/// reports them: present exactly when the text parses as an absolute URL
/// whose path begins with `/`, and then the `/`-separated path parts.
pub uninterp spec fn url_segments_of(s: Seq<char>) -> Option<Seq<Seq<char>>>;

/// Relies on `url::Url::parse` and `url::Url::path_segments`: the segments
/// of the URL's path, `None` when the text does not parse or the URL cannot
/// be a base.
#[verifier::external_body]
fn url_path_segments(u: &str) -> (r: Option<Vec<String>>)
    ensures
        match r {
            Some(v) => url_segments_of(u@) == Some(v@.map_values(|x: String| x@)),
            None => url_segments_of(u@) is None,
        },
{
    match url::Url::parse(u) {
        Ok(parsed) => parsed.path_segments().map(
            |segs| segs.map(|s: &str| s.to_owned()).collect(),
        ),
        Err(_) => None,
    }
}

/// A URL the crawler accepts: it names the site, parses, and its first two
/// path segments (as far as they exist) are the article space and a known
/// board name.
pub open spec fn spec_is_supported_url(u: Seq<char>) -> bool {
    &&& contains_sub(u, "https://www.ptt.cc"@)
    &&& match url_segments_of(u) {
        Some(segs) => {
            &&& (segs.len() >= 1 ==> segs[0] == "bbs"@)
            &&& (segs.len() >= 2 ==> spec_is_board_name(segs[1]))
        },
        None => false,
    }
}

pub fn is_supported_url(u: &str) -> (r: bool)
    ensures
        r == spec_is_supported_url(u@),
{
    let uc = str_chars(u);
    let site = str_chars("https://www.ptt.cc");
    if !contains_pat(&uc, &site) {
        return false;
    }
    let segs = match url_path_segments(u) {
        Some(s) => s,
        None => {
            return false;
        },
    };
    let ghost sv = segs@.map_values(|x: String| x@);
    if segs.len() >= 1 {
        let s0 = str_chars(segs[0].as_str());
        if !chars_eq_str(&s0, "bbs") {
            assert(sv[0] == segs@[0]@);
            return false;
        }
        assert(sv[0] == segs@[0]@);
    }
    if segs.len() >= 2 {
        let s1 = str_chars(segs[1].as_str());
        if !is_board_name(&s1) {
            assert(sv[1] == segs@[1]@);
            return false;
        }
        assert(sv[1] == segs@[1]@);
    }
    true
}

} // verus!
// The listing-page snapshot and what the crawl reads from it.

verus! {

/// One anchor of the pagination control: its text and link target.
#[derive(Clone, Debug)]
pub struct Anchor {
    pub text: String,
    pub href: String,
}

pub ghost struct AnchorV {
    pub text: Seq<char>,
    pub href: Seq<char>,
}

impl View for Anchor {
    type V = AnchorV;

    open spec fn view(&self) -> AnchorV {
        AnchorV { text: self.text@, href: self.href@ }
    }
}

/// One child node of a listing row: whether it is an anchor, its text, and
/// its link target (empty on non-anchors).
#[derive(Clone, Debug)]
pub struct RowNode {
    pub is_anchor: bool,
    pub text: String,
    pub href: String,
}

pub ghost struct RowNodeV {
    pub is_anchor: bool,
    pub text: Seq<char>,
    pub href: Seq<char>,
}

impl View for RowNode {
    type V = RowNodeV;

    open spec fn view(&self) -> RowNodeV {
        RowNodeV { is_anchor: self.is_anchor, text: self.text@, href: self.href@ }
    }
}

/// One listing row (a title cell): its child nodes in document order.
#[derive(Clone, Debug)]
pub struct Row {
    pub children: Vec<RowNode>,
}

pub ghost struct RowV {
    pub children: Seq<RowNodeV>,
}

impl View for Row {
    type V = RowV;

    open spec fn view(&self) -> RowV {
        RowV { children: self.children@.map_values(|n: RowNode| n@) }
    }
}

/// The decoded snapshot of one listing page: the wide pagination anchors
/// and the title rows, in document order.
#[derive(Clone, Debug)]
pub struct Listing {
    pub wide_links: Vec<Anchor>,
    pub title_rows: Vec<Row>,
}

pub ghost struct ListingV {
    pub wide_links: Seq<AnchorV>,
    pub title_rows: Seq<RowV>,
}

impl View for Listing {
    type V = ListingV;

    open spec fn view(&self) -> ListingV {
        ListingV {
            wide_links: self.wide_links@.map_values(|a: Anchor| a@),
            title_rows: self.title_rows@.map_values(|r: Row| r@),
        }
    }
}

/// First child of a row that is an anchor with non-empty trimmed text (rows
/// without one are announcement or removed entries and yield no URL).
pub open spec fn spec_row_pick(cs: Seq<RowNodeV>, from: int) -> Option<int>
    decreases cs.len() - from,
{
    if from < 0 || from >= cs.len() {
        None
    } else if cs[from].is_anchor && trim_of(cs[from].text).len() != 0 {
        Some(from)
    } else {
        spec_row_pick(cs, from + 1)
    }
}

/// The article URL a row yields: the site prefix glued to the picked
/// anchor's relative link.
pub open spec fn spec_row_url(row: RowV) -> Option<Seq<char>> {
    match spec_row_pick(row.children, 0) {
        Some(i) => Some("https://www.ptt.cc"@ + row.children[i].href),
        None => None,
    }
}

/// The article URLs of a listing: one per row with a picked anchor, in row
/// order.
pub open spec fn spec_listing_urls(rows: Seq<RowV>) -> Seq<Seq<char>>
    decreases rows.len(),
{
    if rows.len() == 0 {
        Seq::empty()
    } else {
        spec_listing_urls(rows.drop_last()) + match spec_row_url(rows.last()) {
            Some(u) => seq![u],
            None => Seq::empty(),
        }
    }
}

fn row_pick(cs: &Vec<RowNode>) -> (r: Option<usize>)
    ensures
        ({
            let cv = cs@.map_values(|n: RowNode| n@);
            match r {
                Some(i) => spec_row_pick(cv, 0) == Some(i as int) && i < cs@.len(),
                None => spec_row_pick(cv, 0) is None,
            }
        }),
{
    let ghost cv = cs@.map_values(|n: RowNode| n@);
    let mut i: usize = 0;
    while i < cs.len()
        invariant
            i <= cs@.len(),
            cv == cs@.map_values(|n: RowNode| n@),
            cv.len() == cs@.len(),
            spec_row_pick(cv, 0) == spec_row_pick(cv, i as int),
        decreases cs@.len() - i,
    {
        if cs[i].is_anchor {
            let t = str_chars(cs[i].text.as_str());
            let tt = trim_chars(&t);
            if tt.len() != 0 {
                assert(cv[i as int] == cs@[i as int]@);
                return Some(i);
            }
        }
        i = i + 1;
    }
    None
}

/// Extracts the article URLs of a listing page, in listing order.
pub fn extract_article_urls(listing: &Listing) -> (r: Vec<String>)
    ensures
        r@.map_values(|s: String| s@) == spec_listing_urls(listing@.title_rows),
{
    let ghost rows = listing@.title_rows;
    let mut r: Vec<String> = Vec::new();
    let mut i: usize = 0;
    while i < listing.title_rows.len()
        invariant
            i <= listing.title_rows@.len(),
            rows == listing@.title_rows,
            rows.len() == listing.title_rows@.len(),
            r@.map_values(|s: String| s@) == spec_listing_urls(rows.subrange(0, i as int)),
        decreases listing.title_rows@.len() - i,
    {
        let ghost pre = rows.subrange(0, i as int);
        let ghost post = rows.subrange(0, i + 1);
        proof {
            assert(post.drop_last() =~= pre);
            assert(post.last() == listing.title_rows@[i as int]@);
        }
        match row_pick(&listing.title_rows[i].children) {
            Some(k) => {
                let mut u = String::from_str("https://www.ptt.cc");
                u.append(listing.title_rows[i].children[k].href.as_str());
                let ghost old_map = r@.map_values(|s: String| s@);
                r.push(u);
                proof {
                    assert(r@.map_values(|s: String| s@) =~= old_map.push(u@));
                    assert(old_map.push(u@) =~= spec_listing_urls(post));
                }
            },
            None => {
                proof {
                    assert(spec_listing_urls(post) =~= spec_listing_urls(pre));
                }
            },
        }
        i = i + 1;
    }
    proof {
        assert(rows.subrange(0, i as int) =~= rows);
    }
    r
}

/// First wide pagination anchor whose text is the previous-page label.
pub open spec fn spec_prev_link(ws: Seq<AnchorV>, from: int) -> Option<int>
    decreases ws.len() - from,
{
    if from < 0 || from >= ws.len() {
        None
    } else if ws[from].text == "‹ 上頁"@ {
        Some(from)
    } else {
        spec_prev_link(ws, from + 1)
    }
}

/// Leftmost position where the link target names a page index: the text
/// `index` immediately followed by at least one digit.
pub open spec fn find_index_num(s: Seq<char>, from: int) -> Option<int>
    decreases s.len() - from,
{
    if from < 0 || from >= s.len() {
        None
    } else if has_sub_at(s, "index"@, from) && from + "index"@.len() < s.len() && is_digit_char(
        s[from + "index"@.len()],
    ) {
        Some(from)
    } else {
        find_index_num(s, from + 1)
    }
}

/// The page count a listing page shows: one more than the index named by
/// the previous-page link, and exactly one when there is no such link. A
/// previous-page link without a readable index, or an index at the numeric
/// limit, is an invalid response.
pub open spec fn spec_page_count(l: ListingV) -> Result<u32, CrawlErrorV> {
    match spec_prev_link(l.wide_links, 0) {
        None => Ok(1u32),
        Some(i) => {
            let h = l.wide_links[i].href;
            match find_index_num(h, 0) {
                None => Err(CrawlErrorV::InvalidResponse),
                Some(p) => {
                    let st = p + "index"@.len();
                    let n = digits_val(h.subrange(st, digit_run_end(h, st)));
                    if n + 1 <= u32::MAX {
                        Ok((n + 1) as u32)
                    } else {
                        Err(CrawlErrorV::InvalidResponse)
                    }
                },
            }
        },
    }
}

fn prev_link(ws: &Vec<Anchor>) -> (r: Option<usize>)
    ensures
        ({
            let wv = ws@.map_values(|a: Anchor| a@);
            match r {
                Some(i) => spec_prev_link(wv, 0) == Some(i as int) && i < ws@.len(),
                None => spec_prev_link(wv, 0) is None,
            }
        }),
{
    let ghost wv = ws@.map_values(|a: Anchor| a@);
    let mut i: usize = 0;
    while i < ws.len()
        invariant
            i <= ws@.len(),
            wv == ws@.map_values(|a: Anchor| a@),
            wv.len() == ws@.len(),
            spec_prev_link(wv, 0) == spec_prev_link(wv, i as int),
        decreases ws@.len() - i,
    {
        let t = str_chars(ws[i].text.as_str());
        if chars_eq_str(&t, "‹ 上頁") {
            assert(wv[i as int] == ws@[i as int]@);
            return Some(i);
        }
        i = i + 1;
    }
    None
}

fn scan_index_num(v: &Vec<char>) -> (r: Option<usize>)
    ensures
        match r {
            Some(p) => find_index_num(v@, 0) == Some(p as int) && p + "index"@.len() < v@.len(),
            None => find_index_num(v@, 0) is None,
        },
{
    let pat = str_chars("index");
    let mut i: usize = 0;
    while i < v.len()
        invariant
            i <= v@.len(),
            pat@ == "index"@,
            find_index_num(v@, 0) == find_index_num(v@, i as int),
        decreases v@.len() - i,
    {
        if crate::text::matches_at(v, &pat, i) && i + pat.len() < v.len() && crate::chars::is_digit(
            v[i + pat.len()],
        ) {
            return Some(i);
        }
        i = i + 1;
    }
    None
}

/// Reads the page count off a listing-page snapshot.
pub fn page_count_of_listing(listing: &Listing) -> (r: Result<u32, Error>)
    ensures
        match r {
            Ok(n) => spec_page_count(listing@) == Ok::<_, CrawlErrorV>(n),
            Err(e) => spec_page_count(listing@) == Err::<u32, _>(e@),
        },
{
    let i = match prev_link(&listing.wide_links) {
        None => {
            return Ok(1);
        },
        Some(i) => i,
    };
    let h = str_chars(listing.wide_links[i].href.as_str());
    proof {
        assert(listing@.wide_links[i as int] == listing.wide_links@[i as int]@);
    }
    let p = match scan_index_num(&h) {
        None => {
            return Err(Error::InvalidResponse);
        },
        Some(p) => p,
    };
    let pat = str_chars("index");
    let st = p + pat.len();
    let e = skip_digits(&h, st);
    proof {
        lemma_digit_run_end(h@, st as int);
    }
    match digits_to_u32(&h, st, e) {
        Some(n) => {
            if n <= u32::MAX - 1 {
                Ok(n + 1)
            } else {
                Err(Error::InvalidResponse)
            }
        },
        None => Err(Error::InvalidResponse),
    }
}

} // verus!
// Range handling and the partial-failure accumulator.

verus! {

/// An inclusive page-index range.
#[derive(Clone, Copy, Debug, PartialEq, Eq, Structural)]
pub struct PageRange {
    pub start: u32,
    pub end: u32,
}

/// Normalizes a caller-given range against the board's page count: one
/// index extends to the last page, a decreasing pair is put in order, and a
/// bound past the last page is rejected; no range means every page.
pub fn adjust_board_range(page_count: u32, range: Option<Vec<u32>>) -> (r: Result<PageRange, ()>)
    requires
        range is Some ==> 1 <= range->0@.len() <= 2,
    ensures
        match range {
            None => r == Ok::<PageRange, ()>(PageRange { start: 1, end: page_count }),
            Some(v) => {
                let a = v@[0];
                let b = if v@.len() == 1 {
                    page_count
                } else {
                    v@[1]
                };
                let lo = if a > b {
                    b
                } else {
                    a
                };
                let hi = if a > b {
                    a
                } else {
                    b
                };
                if hi > page_count {
                    r == Err::<PageRange, ()>(())
                } else {
                    r == Ok::<PageRange, ()>(PageRange { start: lo, end: hi })
                }
            },
        },
{
    match range {
        None => Ok(PageRange { start: 1, end: page_count }),
        Some(v) => {
            let a = v[0];
            let b = if v.len() == 1 {
                page_count
            } else {
                v[1]
            };
            let (lo, hi) = if a > b {
                (b, a)
            } else {
                (a, b)
            };
            if hi > page_count {
                Err(())
            } else {
                Ok(PageRange { start: lo, end: hi })
            }
        },
    }
}

/// What a run of per-page results accumulates: every successful page's
/// items, in page order; a failed page contributes nothing.
pub open spec fn spec_accumulate<T, E>(rs: Seq<Result<Seq<T>, E>>) -> Seq<T>
    decreases rs.len(),
{
    if rs.len() == 0 {
        Seq::empty()
    } else {
        spec_accumulate(rs.drop_last()) + match rs.last() {
            Ok(v) => v,
            Err(_) => Seq::empty(),
        }
    }
}

/// Partial-failure aggregation: over three pages whose middle fetch fails,
/// the accumulated items are exactly the first page's followed by the
/// third's, in that order.
pub proof fn lemma_partial_failure_aggregation<T, E>(xs: Seq<T>, e: E, ys: Seq<T>)
    ensures
        spec_accumulate(seq![Ok::<Seq<T>, E>(xs), Err::<Seq<T>, E>(e), Ok::<Seq<T>, E>(ys)])
            == xs + ys,
{
    let rs = seq![Ok::<Seq<T>, E>(xs), Err::<Seq<T>, E>(e), Ok::<Seq<T>, E>(ys)];
    let s2 = rs.drop_last();
    let s1 = s2.drop_last();
    let s0 = s1.drop_last();
    assert(s0 =~= Seq::<Result<Seq<T>, E>>::empty());
    assert(s1.len() == 1 && s1.last() == Ok::<Seq<T>, E>(xs));
    assert(s2.len() == 2 && s2.last() == Err::<Seq<T>, E>(e));
    assert(rs.len() == 3 && rs.last() == Ok::<Seq<T>, E>(ys));
    assert(spec_accumulate(s0) == Seq::<T>::empty());
    assert(spec_accumulate(s1) == spec_accumulate(s0) + xs);
    assert(spec_accumulate(s2) == spec_accumulate(s1) + Seq::<T>::empty());
    assert(spec_accumulate(rs) == spec_accumulate(s2) + ys);
    assert(spec_accumulate(rs) =~= xs + ys);
}

/// The accumulator a crawl drives: collected items and the last error seen.
/// A failed page or article records its error and drops nothing else; the
/// whole run fails only when it recovered nothing at all.
pub struct Accumulator<T> {
    pub items: Vec<T>,
    pub last_error: Error,
}

impl<T> Accumulator<T> {
    /// An empty accumulator; with no recoveries and no failures the run
    /// reports an invalid response.
    pub fn new() -> (r: Self)
        ensures
            r.items@ == Seq::<T>::empty(),
            r.last_error@ == CrawlErrorV::InvalidResponse,
    {
        Accumulator { items: Vec::new(), last_error: Error::InvalidResponse }
    }

    /// Absorbs one page's outcome: successful items are appended in order,
    /// a failure only replaces the last error.
    pub fn absorb_page(&mut self, result: Result<Vec<T>, Error>)
        ensures
            match result {
                Ok(v) => final (self).items@ == old(self).items@ + v@ && final (self).last_error
                    == old(self).last_error,
                Err(e) => final (self).items@ == old(self).items@ && final (self).last_error == e,
            },
    {
        match result {
            Ok(mut v) => {
                self.items.append(&mut v);
            },
            Err(e) => {
                self.last_error = e;
            },
        }
    }

    /// Absorbs one item's outcome.
    pub fn absorb_item(&mut self, result: Result<T, Error>)
        ensures
            match result {
                Ok(x) => final (self).items@ == old(self).items@.push(x) && final (self).last_error
                    == old(self).last_error,
                Err(e) => final (self).items@ == old(self).items@ && final (self).last_error == e,
            },
    {
        match result {
            Ok(x) => {
                self.items.push(x);
            },
            Err(e) => {
                self.last_error = e;
            },
        }
    }

    /// Ends the run: the items when anything was recovered, else the last
    /// error — never a silent empty success.
    pub fn finish(self) -> (r: Result<Vec<T>, Error>)
        ensures
            match r {
                Ok(v) => v@ == self.items@ && self.items@.len() > 0,
                Err(e) => e == self.last_error && self.items@.len() == 0,
            },
    {
        if self.items.len() == 0 {
            Err(self.last_error)
        } else {
            Ok(self.items)
        }
    }
}

} // verus!
