//! What the format parsers hand over: chapters of blocks of text runs, and
//! the parsers' own descriptions of themselves.

use vstd::prelude::*;
use crate::irp::TextRun;
use crate::text::{chars_of, string_of, trim_chars, trimmed};

verus! {

/// How reliable a format's structure is.
#[derive(Debug, Clone, Copy, PartialEq, Eq, Structural)]
pub enum ParseQuality {
    /// Native structure, as in HTML or EPUB.
    Native,
    /// Extractable text with unstable structure, as in PDF.
    Light,
    /// Best effort, such as recognised scans.
    Experimental,
}

/// One parsed chapter.
#[derive(Debug, Clone)]
pub struct ChapterData {
    pub title: String,
    pub blocks: Vec<BlockData>,
    /// `"explicit"`, `"inferred"` or `"linear"`.
    pub confidence: String,
    /// Source HTML, for formats such as EPUB.
    pub raw_html: Option<String>,
    /// `"html"` or `"irp"`.
    pub render_mode: String,
}

/// One parsed content block.
#[derive(Debug, Clone)]
pub struct BlockData {
    /// `"paragraph"`, `"heading"`, `"image"` or `"code"`.
    pub block_type: String,
    pub runs: Vec<TextRun>,
}

/// The chapters of a parsed file, its block count and its quality.
#[derive(Debug, Clone)]
pub struct ParseResult {
    pub chapters: Vec<ChapterData>,
    pub total_blocks: usize,
    pub quality: ParseQuality,
}

/// A detected chapter start.
#[derive(Debug, Clone)]
pub struct ChapterInfo {
    pub title: String,
    /// `"explicit"`, `"inferred"` or `"linear"`.
    pub confidence: String,
    /// Index of the chapter's first block.
    pub start_index: usize,
}

/// `s` cut at each blank line (`"\n\n"`), scanning from index `i` with the
/// parts `done` closed and `cur` open; matches do not overlap.
pub open spec fn split_blank_from(
    s: Seq<char>,
    i: int,
    done: Seq<Seq<char>>,
    cur: Seq<char>,
) -> Seq<Seq<char>>
    decreases s.len() - i,
{
    if i >= s.len() {
        done.push(cur)
    } else if i + 1 < s.len() && s[i] == '\n' && s[i + 1] == '\n' {
        split_blank_from(s, i + 2, done.push(cur), Seq::empty())
    } else {
        split_blank_from(s, i + 1, done, cur.push(s[i]))
    }
}

/// `s` cut at each `"\n\n"`, as `str::split("\n\n")` gives it.
pub open spec fn split_blank(s: Seq<char>) -> Seq<Seq<char>> {
    split_blank_from(s, 0, Seq::empty(), Seq::empty())
}

/// `s` with every line break turned into a space.
pub open spec fn join_lines(s: Seq<char>) -> Seq<char> {
    s.map_values(|c: char| if c == '\n' { ' ' } else { c })
}

/// The paragraph text a part gives, if any: trimmed, lines joined.
pub open spec fn paragraph_of(part: Seq<char>) -> Option<Seq<char>> {
    let t = trimmed(part);
    if t.len() > 0 && trimmed(join_lines(t)).len() > 0 {
        Some(join_lines(t))
    } else {
        None
    }
}

/// The paragraph texts of `parts`, in order.
pub open spec fn paragraphs_of(parts: Seq<Seq<char>>) -> Seq<Seq<char>>
    decreases parts.len(),
{
    if parts.len() == 0 {
        Seq::empty()
    } else {
        match paragraph_of(parts.last()) {
            Some(p) => paragraphs_of(parts.drop_last()).push(p),
            None => paragraphs_of(parts.drop_last()),
        }
    }
}

/// The paragraphs of a plain text: blank lines separate them.
pub open spec fn text_paragraphs(s: Seq<char>) -> Seq<Seq<char>> {
    paragraphs_of(split_blank(s))
}

/// A paragraph block holding the single unstyled run `text`.
pub open spec fn is_paragraph_block(b: BlockData, text: Seq<char>) -> bool {
    &&& b.block_type@ == "paragraph"@
    &&& b.runs@.len() == 1
    &&& b.runs@[0].text@ == text
    &&& b.runs@[0].marks@.len() == 0
}

fn join_lines_exec(cs: &[char]) -> (r: Vec<char>)
    ensures
        r@ == join_lines(cs@),
{
    let mut out: Vec<char> = Vec::new();
    let mut i: usize = 0;
    while i < cs.len()
        invariant
            i <= cs@.len(),
            out@ == join_lines(cs@.take(i as int)),
        decreases cs@.len() - i,
    {
        let c = cs[i];
        out.push(if c == '\n' { ' ' } else { c });
        i = i + 1;
        assert(join_lines(cs@.take(i as int)) == join_lines(cs@.take(i - 1)).push(
            if c == '\n' { ' ' } else { c },
        ));
    }
    assert(cs@.take(cs@.len() as int) == cs@);
    out
}

fn is_blank(cs: &[char]) -> (r: bool)
    ensures
        r == (trimmed(cs@).len() == 0),
{
    let t = trim_chars(cs);
    t.len() == 0
}

/// Parser for text PDFs; scanned PDFs are not supported.
#[derive(Debug, Clone, Copy)]
pub struct PdfParser;

impl PdfParser {
    pub fn new() -> (r: Self) {
        PdfParser
    }

    /// PDF structure is extractable but unstable.
    pub fn get_quality(&self) -> (r: ParseQuality)
        ensures
            r == ParseQuality::Light,
    {
        ParseQuality::Light
    }

    pub fn supported_extensions(&self) -> (r: Vec<&'static str>)
        ensures
            r@.map_values(|e: &str| e@) == seq!["pdf"@],
    {
        let r = vec!["pdf"];
        assert(r@.map_values(|e: &str| e@) == seq!["pdf"@]);
        r
    }

    /// One paragraph block per blank-line-separated paragraph of `text`,
    /// trimmed, with its line breaks turned into spaces.
    pub fn split_into_blocks(&self, text: &str) -> (r: Vec<BlockData>)
        ensures
            r@.len() == text_paragraphs(text@).len(),
            forall|i: int| 0 <= i < r@.len() ==> is_paragraph_block(#[trigger] r@[i], text_paragraphs(text@)[i]),
    {
        let cs = chars_of(text);
        let n = cs.len();
        let ghost s = cs@;
        let ghost parts: Seq<Seq<char>> = Seq::empty();
        let mut blocks: Vec<BlockData> = Vec::new();
        let mut cur: Vec<char> = Vec::new();
        let mut i: usize = 0;
        while i < n
            invariant
                s == cs@,
                s == text@,
                n == s.len(),
                i <= n + 1,
                split_blank(s) == split_blank_from(s, i as int, parts, cur@),
                blocks@.len() == paragraphs_of(parts).len(),
                forall|k: int| 0 <= k < blocks@.len() ==> is_paragraph_block(#[trigger] blocks@[k], paragraphs_of(parts)[k]),
            decreases n + 1 - i,
        {
            if i + 1 < n && cs[i] == '\n' && cs[i + 1] == '\n' {
                self.push_paragraph(&mut blocks, cur.as_slice());
                proof {
                    assert(parts.push(cur@).drop_last() == parts);
                    parts = parts.push(cur@);
                }
                cur = Vec::new();
                i = i + 2;
            } else {
                cur.push(cs[i]);
                i = i + 1;
            }
        }
        self.push_paragraph(&mut blocks, cur.as_slice());
        proof {
            assert(parts.push(cur@).drop_last() == parts);
        }
        blocks
    }

    /// Appends the paragraph block that `part` gives, if any.
    fn push_paragraph(&self, blocks: &mut Vec<BlockData>, part: &[char])
        ensures
            ({
                let ps = paragraphs_of(seq![part@]);
                &&& final(blocks)@.len() == old(blocks)@.len() + ps.len()
                &&& forall|k: int| 0 <= k < old(blocks)@.len() ==> final(blocks)@[k] == old(blocks)@[k]
                &&& ps.len() == 1 ==> is_paragraph_block(final(blocks)@[old(blocks)@.len() as int], ps[0])
            }),
            paragraphs_of(seq![part@]) == (match paragraph_of(part@) {
                Some(p) => seq![p],
                None => Seq::<Seq<char>>::empty(),
            }),
    {
        assert(seq![part@].drop_last() == Seq::<Seq<char>>::empty());
        assert(seq![part@].last() == part@);
        assert(paragraphs_of(Seq::<Seq<char>>::empty()) == Seq::<Seq<char>>::empty());
        let t = trim_chars(part);
        if t.len() == 0 {
            return;
        }
        let joined = join_lines_exec(t.as_slice());
        if is_blank(joined.as_slice()) {
            return;
        }
        let run = TextRun { text: string_of(joined.as_slice()), marks: Vec::new() };
        let runs = vec![run];
        blocks.push(BlockData { block_type: String::from_str("paragraph"), runs });
    }
}

impl Default for PdfParser {
    fn default() -> (r: Self) {
        PdfParser::new()
    }
}

/// Parser for Markdown files.
#[derive(Debug, Clone, Copy)]
pub struct MarkdownParser;

impl MarkdownParser {
    pub fn new() -> (r: Self) {
        MarkdownParser
    }

    /// Markdown has native structure.
    pub fn get_quality(&self) -> (r: ParseQuality)
        ensures
            r == ParseQuality::Native,
    {
        ParseQuality::Native
    }

    pub fn supported_extensions(&self) -> (r: Vec<&'static str>)
        ensures
            r@.map_values(|e: &str| e@) == seq!["md"@, "markdown"@],
    {
        let r = vec!["md", "markdown"];
        assert(r@.map_values(|e: &str| e@) == seq!["md"@, "markdown"@]);
        r
    }
}

impl Default for MarkdownParser {
    fn default() -> (r: Self) {
        MarkdownParser::new()
    }
}

} // verus!
