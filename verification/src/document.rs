//! The snapshot of an article page that the extractors read: plain values
//! for each piece of markup the extraction chains look at, in document
//! order. The HTML tree itself is an external collaborator's concern; the
//! caller fills this snapshot from it once and the extractors never see the
//! tree.

use vstd::prelude::*;

verus! {

/// One `span` element: its text and the text of the node that follows it in
/// document order (empty when it is the last node).
#[derive(Clone, Debug)]
pub struct Span {
    pub text: String,
    pub next_text: String,
}

pub ghost struct SpanV {
    pub text: Seq<char>,
    pub next_text: Seq<char>,
}

impl View for Span {
    type V = SpanV;

    open spec fn view(&self) -> SpanV {
        SpanV { text: self.text@, next_text: self.next_text@ }
    }
}

/// One reply row (`div.push`): the row's whole text and the texts of its
/// tag, user id, content and origin/time spans.
#[derive(Clone, Debug)]
pub struct PushNode {
    pub text: String,
    pub tag: String,
    pub author_id: String,
    pub content: String,
    pub ip_datetime: String,
}

pub ghost struct PushNodeV {
    pub text: Seq<char>,
    pub tag: Seq<char>,
    pub author_id: Seq<char>,
    pub content: Seq<char>,
    pub ip_datetime: Seq<char>,
}

impl View for PushNode {
    type V = PushNodeV;

    open spec fn view(&self) -> PushNodeV {
        PushNodeV {
            text: self.text@,
            tag: self.tag@,
            author_id: self.author_id@,
            content: self.content@,
            ip_datetime: self.ip_datetime@,
        }
    }
}

/// The decoded snapshot of one article page.
#[derive(Clone, Debug)]
pub struct Document {
    /// `href` of the canonical-link element, when present.
    pub canonical_href: Option<String>,
    /// `content` of the `og:title` meta element, when present.
    pub og_title: Option<String>,
    /// Texts of the structured header-value spans, in document order.
    pub meta_values: Vec<String>,
    /// All spans with the text that follows each, for labeled-field scans.
    pub spans: Vec<Span>,
    /// Texts of the small metadata-class spans (origin lines live here).
    pub f2_texts: Vec<String>,
    /// Texts of the content blocks checked for the deleted-article marker.
    pub bbs_contents: Vec<String>,
    /// Text of the main content block (empty when the block is absent).
    pub main_content: String,
    /// The reply rows, in page order.
    pub pushes: Vec<PushNode>,
}

pub ghost struct DocumentV {
    pub canonical_href: Option<Seq<char>>,
    pub og_title: Option<Seq<char>>,
    pub meta_values: Seq<Seq<char>>,
    pub spans: Seq<SpanV>,
    pub f2_texts: Seq<Seq<char>>,
    pub bbs_contents: Seq<Seq<char>>,
    pub main_content: Seq<char>,
    pub pushes: Seq<PushNodeV>,
}

impl View for Document {
    type V = DocumentV;

    open spec fn view(&self) -> DocumentV {
        DocumentV {
            canonical_href: if self.canonical_href is Some {
                Some(self.canonical_href->0@)
            } else {
                None
            },
            og_title: if self.og_title is Some {
                Some(self.og_title->0@)
            } else {
                None
            },
            meta_values: self.meta_values@.map_values(|s: String| s@),
            spans: self.spans@.map_values(|s: Span| s@),
            f2_texts: self.f2_texts@.map_values(|s: String| s@),
            bbs_contents: self.bbs_contents@.map_values(|s: String| s@),
            main_content: self.main_content@,
            pushes: self.pushes@.map_values(|p: PushNode| p@),
        }
    }
}

} // verus!
