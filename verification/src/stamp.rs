//! The reply stamp grammar: one combined token holding an optional IPv4
//! origin, a mandatory `MM/DD` pair and an optional `HH:MM` suffix (a
//! missing time reads as 00:00). The leftmost match wins; a candidate with
//! an origin address is preferred at the same position, and the last octet
//! greedily takes up to three digits, giving back what the date needs.

use vstd::prelude::*;

use crate::article::Ipv4;
use crate::chars::{
    digit_run_end, digits_val, is_digit, is_digit_char, is_space, is_space_char, space_run_end,
};
use crate::dates::lemma_digits_val_small;
use crate::text::{digits_to_u32, skip_digits, skip_spaces};

verus! {

/// One matched stamp: where the origin token sits (when present) and the
/// stamped month, day, hour and minute.
pub struct Stamp {
    pub ip: Option<(usize, usize)>,
    pub month: u32,
    pub day: u32,
    pub hour: u32,
    pub min: u32,
}

pub ghost struct StampV {
    pub ip: Option<(int, int)>,
    pub month: int,
    pub day: int,
    pub hour: int,
    pub min: int,
}

impl View for Stamp {
    type V = StampV;

    open spec fn view(&self) -> StampV {
        StampV {
            ip: if self.ip is Some {
                Some(((self.ip->0).0 as int, (self.ip->0).1 as int))
            } else {
                None
            },
            month: self.month as int,
            day: self.day as int,
            hour: self.hour as int,
            min: self.min as int,
        }
    }
}

/// Value of one octet text: one to three digits, no leading zero unless the
/// octet is exactly `0`, at most 255 (the standard dotted-decimal grammar).
pub open spec fn spec_octet(s: Seq<char>) -> Option<u8> {
    if 1 <= s.len() <= 3 && (forall|j: int| 0 <= j < s.len() ==> is_digit_char(s[j])) && (s.len()
        == 1 || s[0] != '0') && digits_val(s) <= 255 {
        Some(digits_val(s) as u8)
    } else {
        None
    }
}

/// Start of the fourth octet, when three dot-terminated octet shapes (one
/// to three digits each) begin at `i`.
pub open spec fn ipv4_head_end(s: Seq<char>, i: int) -> Option<int> {
    if i < 0 {
        None
    } else {
        let r1 = digit_run_end(s, i);
        if r1 - i < 1 || r1 - i > 3 || r1 >= s.len() || s[r1] != '.' {
            None
        } else {
            let r2 = digit_run_end(s, r1 + 1);
            if r2 - (r1 + 1) < 1 || r2 - (r1 + 1) > 3 || r2 >= s.len() || s[r2] != '.' {
                None
            } else {
                let r3 = digit_run_end(s, r2 + 1);
                if r3 - (r2 + 1) < 1 || r3 - (r2 + 1) > 3 || r3 >= s.len() || s[r3] != '.' {
                    None
                } else {
                    Some(r3 + 1)
                }
            }
        }
    }
}

/// End of the dotted-quad token at `i`: the fourth octet greedily takes up
/// to three digits.
pub open spec fn ipv4_end_at(s: Seq<char>, i: int) -> Option<int> {
    match ipv4_head_end(s, i) {
        None => None,
        Some(o4) => {
            let r4 = digit_run_end(s, o4);
            if r4 - o4 < 1 {
                None
            } else if r4 - o4 > 3 {
                Some(o4 + 3)
            } else {
                Some(r4)
            }
        },
    }
}

/// Numeric value of the dotted-quad token `s[i..e]`; `None` when an octet
/// is out of range or carries a leading zero (the address is then absent,
/// never zero-filled).
pub open spec fn ipv4_value(s: Seq<char>, i: int, e: int) -> Option<Ipv4> {
    let r1 = digit_run_end(s, i);
    let r2 = digit_run_end(s, r1 + 1);
    let r3 = digit_run_end(s, r2 + 1);
    if r3 + 1 <= e <= s.len() {
        match (spec_octet(s.subrange(i, r1)), spec_octet(s.subrange(r1 + 1, r2)), spec_octet(
            s.subrange(r2 + 1, r3),
        ), spec_octet(s.subrange(r3 + 1, e))) {
            (Some(a), Some(b), Some(c), Some(d)) => Some(Ipv4 { a, b, c, d }),
            _ => None,
        }
    } else {
        None
    }
}

/// A month/day pair `DD/DD` begins at `p`.
pub open spec fn md_at(s: Seq<char>, p: int) -> bool {
    &&& 0 <= p
    &&& p + 5 <= s.len()
    &&& is_digit_char(s[p])
    &&& is_digit_char(s[p + 1])
    &&& s[p + 2] == '/'
    &&& is_digit_char(s[p + 3])
    &&& is_digit_char(s[p + 4])
}

/// Hour and minute of the optional `HH:MM` suffix after the day (white
/// space may separate them; a missing suffix reads as 00:00).
pub open spec fn stamp_time(s: Seq<char>, mdend: int) -> (int, int) {
    let w = space_run_end(s, mdend);
    if w + 5 <= s.len() && is_digit_char(s[w]) && is_digit_char(s[w + 1]) && s[w + 2] == ':'
        && is_digit_char(s[w + 3]) && is_digit_char(s[w + 4]) {
        (digits_val(s.subrange(w, w + 2)), digits_val(s.subrange(w + 3, w + 5)))
    } else {
        (0, 0)
    }
}

/// The stamp whose month/day pair begins at `mdpos`.
pub open spec fn stamp_from(s: Seq<char>, mdpos: int, ip: Option<(int, int)>) -> StampV {
    StampV {
        ip,
        month: digits_val(s.subrange(mdpos, mdpos + 2)),
        day: digits_val(s.subrange(mdpos + 3, mdpos + 5)),
        hour: stamp_time(s, mdpos + 5).0,
        min: stamp_time(s, mdpos + 5).1,
    }
}

/// The with-origin reading at `i`: the fourth octet tries `t4` digits down
/// to one, each time with then without a single blank before the month.
pub open spec fn stamp_ip_branch(s: Seq<char>, i: int, o4: int, t4: int) -> Option<StampV>
    decreases t4,
{
    if t4 < 1 {
        None
    } else {
        let e = o4 + t4;
        if e < s.len() && is_space_char(s[e]) && md_at(s, e + 1) {
            Some(stamp_from(s, e + 1, Some((i, e))))
        } else if md_at(s, e) {
            Some(stamp_from(s, e, Some((i, e))))
        } else {
            stamp_ip_branch(s, i, o4, t4 - 1)
        }
    }
}

/// The no-origin reading at `i`: an optional single blank, then the
/// month/day pair.
pub open spec fn stamp_noip(s: Seq<char>, i: int) -> Option<StampV> {
    if 0 <= i < s.len() && is_space_char(s[i]) && md_at(s, i + 1) {
        Some(stamp_from(s, i + 1, None))
    } else if md_at(s, i) {
        Some(stamp_from(s, i, None))
    } else {
        None
    }
}

/// The preferred reading at `i`: with the origin token when one fits,
/// otherwise without.
pub open spec fn stamp_at(s: Seq<char>, i: int) -> Option<StampV> {
    match ipv4_end_at(s, i) {
        Some(e0) => match ipv4_head_end(s, i) {
            Some(o4) => match stamp_ip_branch(s, i, o4, e0 - o4) {
                Some(st) => Some(st),
                None => stamp_noip(s, i),
            },
            None => stamp_noip(s, i),
        },
        None => stamp_noip(s, i),
    }
}

/// The leftmost stamp in `s` at or after `from`.
pub open spec fn find_stamp(s: Seq<char>, from: int) -> Option<StampV>
    decreases s.len() - from,
{
    if from < 0 || from >= s.len() {
        None
    } else {
        match stamp_at(s, from) {
            Some(st) => Some(st),
            None => find_stamp(s, from + 1),
        }
    }
}

fn octet_value(v: &Vec<char>, a: usize, b: usize) -> (r: Option<u8>)
    requires
        a <= b <= v.len(),
    ensures
        r == spec_octet(v@.subrange(a as int, b as int)),
{
    let ghost o = v@.subrange(a as int, b as int);
    if b - a < 1 || b - a > 3 {
        return None;
    }
    let mut k: usize = a;
    while k < b
        invariant
            a <= k <= b <= v.len(),
            o == v@.subrange(a as int, b as int),
            forall|j: int| a <= j < k ==> is_digit_char(v@[j]),
        decreases b - k,
    {
        if !is_digit(v[k]) {
            assert(!is_digit_char(o[k - a]));
            return None;
        }
        k = k + 1;
    }
    assert(forall|j: int| 0 <= j < o.len() ==> is_digit_char(#[trigger] o[j]));
    if b - a > 1 && v[a] == '0' {
        assert(o[0] == '0');
        return None;
    }
    proof {
        lemma_digits_val_small(o);
    }
    let val: u32 = match digits_to_u32(v, a, b) {
        Some(d) => d,
        None => {
            proof {
                assert(false);
            }
            0
        },
    };
    if val <= 255 {
        Some(val as u8)
    } else {
        None
    }
}

fn head_end(v: &Vec<char>, i: usize) -> (r: Option<usize>)
    requires
        i <= v.len(),
    ensures
        match r {
            Some(o4) => Some(o4 as int) == ipv4_head_end(v@, i as int) && i < o4 <= v.len(),
            None => ipv4_head_end(v@, i as int) is None,
        },
{
    let r1 = skip_digits(v, i);
    if r1 - i < 1 || r1 - i > 3 || r1 >= v.len() || v[r1] != '.' {
        return None;
    }
    let r2 = skip_digits(v, r1 + 1);
    if r2 - (r1 + 1) < 1 || r2 - (r1 + 1) > 3 || r2 >= v.len() || v[r2] != '.' {
        return None;
    }
    let r3 = skip_digits(v, r2 + 1);
    if r3 - (r2 + 1) < 1 || r3 - (r2 + 1) > 3 || r3 >= v.len() || v[r3] != '.' {
        return None;
    }
    Some(r3 + 1)
}

fn ip_end(v: &Vec<char>, i: usize) -> (r: Option<usize>)
    requires
        i <= v.len(),
    ensures
        match r {
            Some(e) => Some(e as int) == ipv4_end_at(v@, i as int) && i < e <= v.len(),
            None => ipv4_end_at(v@, i as int) is None,
        },
{
    let o4 = match head_end(v, i) {
        Some(o) => o,
        None => {
            return None;
        },
    };
    let r4 = skip_digits(v, o4);
    if r4 - o4 < 1 {
        None
    } else if r4 - o4 > 3 {
        Some(o4 + 3)
    } else {
        Some(r4)
    }
}

/// Numeric value of the dotted-quad token `v[i..e]`.
pub fn ip_value(v: &Vec<char>, i: usize, e: usize) -> (r: Option<Ipv4>)
    requires
        i <= e <= v.len(),
    ensures
        r == ipv4_value(v@, i as int, e as int),
{
    let r1 = skip_digits(v, i);
    let r2: usize = if r1 < v.len() {
        skip_digits(v, r1 + 1)
    } else {
        proof {
            assert(digit_run_end(v@, r1 + 1 as int) == v@.len());
        }
        v.len()
    };
    let r3: usize = if r2 < v.len() {
        skip_digits(v, r2 + 1)
    } else {
        proof {
            assert(digit_run_end(v@, r2 + 1 as int) == v@.len());
        }
        v.len()
    };
    if r3 >= e {
        return None;
    }
    let o1 = octet_value(v, i, r1);
    let o2 = octet_value(v, r1 + 1, r2);
    let o3 = octet_value(v, r2 + 1, r3);
    let o4 = octet_value(v, r3 + 1, e);
    match (o1, o2, o3, o4) {
        (Some(a), Some(b), Some(c), Some(d)) => Some(Ipv4 { a, b, c, d }),
        _ => None,
    }
}

fn md_check(v: &Vec<char>, p: usize) -> (r: bool)
    ensures
        r == md_at(v@, p as int),
{
    if p > v.len() || v.len() - p < 5 {
        return false;
    }
    is_digit(v[p]) && is_digit(v[p + 1]) && v[p + 2] == '/' && is_digit(v[p + 3]) && is_digit(
        v[p + 4],
    )
}

fn read_two(v: &Vec<char>, p: usize) -> (r: u32)
    requires
        p + 2 <= v.len(),
        is_digit_char(v@[p as int]),
        is_digit_char(v@[p as int + 1]),
    ensures
        r as int == digits_val(v@.subrange(p as int, p as int + 2)),
        r <= 99,
{
    proof {
        lemma_digits_val_small(v@.subrange(p as int, p as int + 2));
    }
    match digits_to_u32(v, p, p + 2) {
        Some(d) => d,
        None => {
            proof {
                assert(false);
            }
            0
        },
    }
}

fn build_stamp(v: &Vec<char>, mdpos: usize, ip: Option<(usize, usize)>) -> (r: Stamp)
    requires
        md_at(v@, mdpos as int),
    ensures
        r@ == stamp_from(
            v@,
            mdpos as int,
            match ip {
                Some((a, b)) => Some((a as int, b as int)),
                None => None,
            },
        ),
        r.ip == ip,
        r.month <= 99 && r.day <= 99 && r.hour <= 99 && r.min <= 99,
{
    let n = v.len();
    proof {
        assert(mdpos + 5 <= n);
    }
    let month = read_two(v, mdpos);
    let day = read_two(v, mdpos + 3);
    let w = skip_spaces(v, mdpos + 5);
    let mut hour: u32 = 0;
    let mut min: u32 = 0;
    if v.len() - w >= 5 && is_digit(v[w]) && is_digit(v[w + 1]) && v[w + 2] == ':' && is_digit(
        v[w + 3],
    ) && is_digit(v[w + 4]) {
        hour = read_two(v, w);
        min = read_two(v, w + 3);
    }
    Stamp { ip, month, day, hour, min }
}

fn stamp_check_ip(v: &Vec<char>, i: usize, o4: usize, t4: usize) -> (r: Option<Stamp>)
    requires
        i < o4 <= v.len(),
        o4 + t4 <= v.len(),
    ensures
        match r {
            Some(st) => Some(st@) == stamp_ip_branch(v@, i as int, o4 as int, t4 as int) && (
            st.ip is Some && (st.ip->0).0 == i && i < (st.ip->0).1 <= v.len()) && st.month <= 99
                && st.day <= 99 && st.hour <= 99 && st.min <= 99,
            None => stamp_ip_branch(v@, i as int, o4 as int, t4 as int) is None,
        },
    decreases t4,
{
    if t4 < 1 {
        return None;
    }
    let e = o4 + t4;
    if e < v.len() && is_space(v[e]) && md_check(v, e + 1) {
        Some(build_stamp(v, e + 1, Some((i, e))))
    } else if md_check(v, e) {
        Some(build_stamp(v, e, Some((i, e))))
    } else {
        stamp_check_ip(v, i, o4, t4 - 1)
    }
}

fn stamp_check_noip(v: &Vec<char>, i: usize) -> (r: Option<Stamp>)
    ensures
        match r {
            Some(st) => Some(st@) == stamp_noip(v@, i as int) && st.ip is None && st.month <= 99
                && st.day <= 99 && st.hour <= 99 && st.min <= 99,
            None => stamp_noip(v@, i as int) is None,
        },
{
    if i < v.len() && is_space(v[i]) && md_check(v, i + 1) {
        Some(build_stamp(v, i + 1, None))
    } else if md_check(v, i) {
        Some(build_stamp(v, i, None))
    } else {
        None
    }
}

fn stamp_check_at(v: &Vec<char>, i: usize) -> (r: Option<Stamp>)
    requires
        i <= v.len(),
    ensures
        match r {
            Some(st) => Some(st@) == stamp_at(v@, i as int) && (st.ip is Some ==> (st.ip->0).0 == i
                && i < (st.ip->0).1 <= v.len()) && st.month <= 99 && st.day <= 99 && st.hour <= 99
                && st.min <= 99,
            None => stamp_at(v@, i as int) is None,
        },
{
    match ip_end(v, i) {
        Some(e0) => {
            let o4 = match head_end(v, i) {
                Some(o) => o,
                None => {
                    proof {
                        assert(false);
                    }
                    return None;
                },
            };
            match stamp_check_ip(v, i, o4, e0 - o4) {
                Some(st) => Some(st),
                None => stamp_check_noip(v, i),
            }
        },
        None => stamp_check_noip(v, i),
    }
}

/// The leftmost stamp in `v`, if any.
pub fn scan_stamp(v: &Vec<char>) -> (r: Option<Stamp>)
    ensures
        match r {
            Some(st) => Some(st@) == find_stamp(v@, 0) && (st.ip is Some ==> (st.ip->0).0
                < (st.ip->0).1 <= v.len()) && st.month <= 99 && st.day <= 99 && st.hour <= 99
                && st.min <= 99,
            None => find_stamp(v@, 0) is None,
        },
{
    let mut i: usize = 0;
    while i < v.len()
        invariant
            i <= v.len(),
            find_stamp(v@, 0) == find_stamp(v@, i as int),
        decreases v.len() - i,
    {
        match stamp_check_at(v, i) {
            Some(st) => {
                return Some(st);
            },
            None => {
                i = i + 1;
            },
        }
    }
    None
}

} // verus!
// The standalone origin-address scan used by the article-level origin
// extractor: the leftmost dotted-quad token.

verus! {

/// Leftmost dotted-quad token in `s` at or after `from` (start and end).
pub open spec fn find_ipv4_from(s: Seq<char>, from: int) -> Option<(int, int)>
    decreases s.len() - from,
{
    if from < 0 || from >= s.len() {
        None
    } else {
        match ipv4_end_at(s, from) {
            Some(e) => Some((from, e)),
            None => find_ipv4_from(s, from + 1),
        }
    }
}

/// Finds the leftmost dotted-quad token in `v`.
pub fn scan_ipv4(v: &Vec<char>) -> (r: Option<(usize, usize)>)
    ensures
        match r {
            Some((a, b)) => Some((a as int, b as int)) == find_ipv4_from(v@, 0) && a < b <= v.len(),
            None => find_ipv4_from(v@, 0) is None,
        },
{
    let mut i: usize = 0;
    while i < v.len()
        invariant
            i <= v.len(),
            find_ipv4_from(v@, 0) == find_ipv4_from(v@, i as int),
        decreases v.len() - i,
    {
        match ip_end(v, i) {
            Some(e) => {
                return Some((i, e));
            },
            None => {
                i = i + 1;
            },
        }
    }
    None
}

} // verus!
// What a malformed origin token resolves to.

verus! {

/// An origin token whose first octet is out of range yields an absent
/// address, never a zero-filled one.
pub proof fn lemma_invalid_octet_absent(s: Seq<char>, i: int, e: int)
    requires
        digits_val(s.subrange(i, digit_run_end(s, i))) > 255,
    ensures
        ipv4_value(s, i, e) is None,
{
}

} // verus!
