//! The intermediate reading representation: chapters, blocks and styled text runs.

use vstd::prelude::*;
use std::collections::HashMap;
use crate::text::push_str;

verus! {

/// Kind of a style mark on a text run.
#[derive(Debug, Clone, Copy, PartialEq, Eq, Structural)]
pub enum MarkType {
    Bold,
    Italic,
    Link,
    Code,
    Underline,
    Strikethrough,
}

/// A style mark over the character range `start..end` of a run.
#[derive(Debug, Clone)]
pub struct TextMark {
    pub mark_type: MarkType,
    pub start: usize,
    pub end: usize,
    /// Extra attributes, such as a link's `href`.
    pub attributes: Option<HashMap<String, String>>,
}

/// A stretch of text with its style marks.
#[derive(Debug, Clone)]
pub struct TextRun {
    pub text: String,
    pub marks: Vec<TextMark>,
}

/// A stored chapter.
#[derive(Debug, Clone)]
pub struct Chapter {
    pub id: i32,
    pub book_id: i32,
    pub title: String,
    pub chapter_index: i32,
    /// `"explicit"`, `"inferred"` or `"linear"`.
    pub confidence_level: String,
    pub raw_html: Option<String>,
    /// `"html"` or `"irp"`.
    pub render_mode: String,
    /// Heading level (1 to 6), for formats such as Markdown.
    pub heading_level: Option<i32>,
}

/// A stored content block.
#[derive(Debug, Clone)]
pub struct Block {
    pub id: i32,
    pub chapter_id: i32,
    pub block_index: i32,
    /// `"paragraph"`, `"heading"`, `"image"` or `"code"`.
    pub block_type: String,
    pub runs: Vec<TextRun>,
}

/// The texts of `runs`, one after the other.
pub open spec fn runs_text(runs: Seq<TextRun>) -> Seq<char>
    decreases runs.len(),
{
    if runs.len() == 0 {
        Seq::empty()
    } else {
        runs_text(runs.drop_last()) + runs.last().text@
    }
}

/// The plain text of `runs`: their texts joined without separator.
pub fn extract_plain_text_from_runs(runs: &[TextRun]) -> (r: String)
    ensures
        r@ == runs_text(runs@),
{
    let mut out = String::new();
    let mut i: usize = 0;
    while i < runs.len()
        invariant
            i <= runs@.len(),
            out@ == runs_text(runs@.take(i as int)),
        decreases runs@.len() - i,
    {
        push_str(&mut out, runs[i].text.as_str());
        i = i + 1;
        assert(runs@.take(i as int).drop_last() == runs@.take(i - 1));
    }
    assert(runs@.take(runs@.len() as int) == runs@);
    out
}

} // verus!
