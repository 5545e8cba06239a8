//! The record types an article parse produces: metadata, body text, replies
//! and the derived reply tally, with their mathematical views.

use vstd::prelude::*;

pub use crate::board::BoardName;
use crate::dates::DateTime;

verus! {

/// An IPv4 origin address, as four plain octets.
#[derive(Clone, Copy, Debug, PartialEq, Eq, Structural)]
pub struct Ipv4 {
    pub a: u8,
    pub b: u8,
    pub c: u8,
    pub d: u8,
}

/// The sentiment tag of a reply; the vocabulary is closed, an unparseable
/// tag drops that reply from the result set.
#[derive(Clone, Copy, Debug, PartialEq, Eq, Structural)]
pub enum ReplyType {
    Push,
    Neutral,
    Boo,
}

/// Metadata of one article.
#[derive(Clone, Debug, PartialEq)]
pub struct Meta {
    pub board: BoardName,
    pub id: String,
    pub category: String,
    pub title: String,
    pub author_id: String,
    pub author_name: Option<String>,
    pub date: Option<DateTime>,
    pub ip: Option<Ipv4>,
}

pub ghost struct MetaV {
    pub board: BoardName,
    pub id: Seq<char>,
    pub category: Seq<char>,
    pub title: Seq<char>,
    pub author_id: Seq<char>,
    pub author_name: Option<Seq<char>>,
    pub date: Option<DateTime>,
    pub ip: Option<Ipv4>,
}

impl View for Meta {
    type V = MetaV;

    open spec fn view(&self) -> MetaV {
        MetaV {
            board: self.board,
            id: self.id@,
            category: self.category@,
            title: self.title@,
            author_id: self.author_id@,
            author_name: if self.author_name is Some {
                Some(self.author_name->0@)
            } else {
                None
            },
            date: self.date,
            ip: self.ip,
        }
    }
}

/// One reply, in the order it appears on the page.
#[derive(Clone, Debug, PartialEq)]
pub struct Reply {
    pub reply_type: ReplyType,
    pub author_id: String,
    pub ip: Option<Ipv4>,
    pub date: Option<DateTime>,
    pub content: String,
}

pub ghost struct ReplyV {
    pub reply_type: ReplyType,
    pub author_id: Seq<char>,
    pub ip: Option<Ipv4>,
    pub date: Option<DateTime>,
    pub content: Seq<char>,
}

impl View for Reply {
    type V = ReplyV;

    open spec fn view(&self) -> ReplyV {
        ReplyV {
            reply_type: self.reply_type,
            author_id: self.author_id@,
            ip: self.ip,
            date: self.date,
            content: self.content@,
        }
    }
}

/// The reply tally of an article: derived from the reply list, never set
/// independently.
#[derive(Clone, Copy, Debug, PartialEq, Eq, Structural)]
pub struct ReplyCount {
    pub push: u16,
    pub neutral: u16,
    pub boo: u16,
}

/// One parsed article.
#[derive(Clone, Debug, PartialEq)]
pub struct Article {
    pub meta: Meta,
    pub content: String,
    pub reply_count: ReplyCount,
    pub replies: Vec<Reply>,
}

pub ghost struct ArticleV {
    pub meta: MetaV,
    pub content: Seq<char>,
    pub reply_count: ReplyCount,
    pub replies: Seq<ReplyV>,
}

impl View for Article {
    type V = ArticleV;

    open spec fn view(&self) -> ArticleV {
        ArticleV {
            meta: self.meta@,
            content: self.content@,
            reply_count: self.reply_count,
            replies: self.replies@.map_values(|r: Reply| r@),
        }
    }
}

/// How many replies in `rs` carry exactly the tag `t`.
pub open spec fn count_type(rs: Seq<ReplyV>, t: ReplyType) -> int
    decreases rs.len(),
{
    if rs.len() == 0 {
        0
    } else {
        count_type(rs.drop_last(), t) + if rs.last().reply_type == t {
            1int
        } else {
            0int
        }
    }
}

pub proof fn lemma_count_type_bounds(rs: Seq<ReplyV>, t: ReplyType)
    ensures
        0 <= count_type(rs, t) <= rs.len(),
    decreases rs.len(),
{
    if rs.len() > 0 {
        lemma_count_type_bounds(rs.drop_last(), t);
    }
}

/// The tally invariant: each counter equals the number of replies of that
/// exact type.
pub open spec fn tally_ok(rc: ReplyCount, rs: Seq<ReplyV>) -> bool {
    &&& rc.push == count_type(rs, ReplyType::Push)
    &&& rc.neutral == count_type(rs, ReplyType::Neutral)
    &&& rc.boo == count_type(rs, ReplyType::Boo)
}

/// Recomputes the tally from a final reply list.
pub fn tally(replies: &Vec<Reply>) -> (rc: ReplyCount)
    requires
        replies@.len() <= u16::MAX,
    ensures
        tally_ok(rc, replies@.map_values(|r: Reply| r@)),
{
    let ghost all = replies@.map_values(|r: Reply| r@);
    let mut push: u16 = 0;
    let mut neutral: u16 = 0;
    let mut boo: u16 = 0;
    let mut i: usize = 0;
    while i < replies.len()
        invariant
            i <= replies@.len() <= u16::MAX,
            all == replies@.map_values(|r: Reply| r@),
            push == count_type(all.subrange(0, i as int), ReplyType::Push),
            neutral == count_type(all.subrange(0, i as int), ReplyType::Neutral),
            boo == count_type(all.subrange(0, i as int), ReplyType::Boo),
        decreases replies@.len() - i,
    {
        proof {
            let pre = all.subrange(0, i as int);
            let post = all.subrange(0, i + 1);
            assert(post.drop_last() =~= pre);
            assert(post.last() == replies@[i as int]@);
            lemma_count_type_bounds(pre, ReplyType::Push);
            lemma_count_type_bounds(pre, ReplyType::Neutral);
            lemma_count_type_bounds(pre, ReplyType::Boo);
            lemma_count_type_bounds(post, ReplyType::Push);
            lemma_count_type_bounds(post, ReplyType::Neutral);
            lemma_count_type_bounds(post, ReplyType::Boo);
        }
        match replies[i].reply_type {
            ReplyType::Push => {
                push = push + 1;
            },
            ReplyType::Neutral => {
                neutral = neutral + 1;
            },
            ReplyType::Boo => {
                boo = boo + 1;
            },
        }
        i = i + 1;
    }
    proof {
        assert(all.subrange(0, i as int) =~= all);
    }
    ReplyCount { push, neutral, boo }
}

/// The tag a reply node's glyph names, if it is in the closed vocabulary.
pub open spec fn spec_reply_type_of(s: Seq<char>) -> Option<ReplyType> {
    if s == "推"@ {
        Some(ReplyType::Push)
    } else if s == "→"@ {
        Some(ReplyType::Neutral)
    } else if s == "噓"@ {
        Some(ReplyType::Boo)
    } else {
        None
    }
}

pub fn reply_type_of(v: &Vec<char>) -> (r: Option<ReplyType>)
    ensures
        r == spec_reply_type_of(v@),
{
    if crate::text::chars_eq_str(v, "推") {
        Some(ReplyType::Push)
    } else if crate::text::chars_eq_str(v, "→") {
        Some(ReplyType::Neutral)
    } else if crate::text::chars_eq_str(v, "噓") {
        Some(ReplyType::Boo)
    } else {
        None
    }
}

} // verus!
