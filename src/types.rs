//! Data model of the reading-unit pipeline.

use vstd::prelude::*;

verus! {

/// The format a book was imported from.
#[derive(Debug, Clone, Copy, PartialEq, Eq, Structural)]
pub enum SourceFormat {
    Epub,
    Pdf,
    Txt,
    Md,
    Html,
}

/// Where a reading unit sits in the book.
#[derive(Debug, Clone, Copy, PartialEq, Eq, Structural)]
pub enum ContentType {
    /// Copyright page, table of contents, preface and the like.
    Frontmatter,
    Body,
    /// Appendices, colophon and the like.
    Backmatter,
}

/// Whether a segment joins the open unit or starts a new one.
#[derive(Debug, Clone, Copy, PartialEq, Eq, Structural)]
pub enum MergeDecision {
    Merge,
    CreateNew,
}

/// A segment's heading.
#[derive(Debug, Clone)]
pub struct Heading {
    pub text: String,
    /// HTML heading level (1 to 6), where the source gives one.
    pub level: Option<u32>,
}

/// A candidate unit: one source chapter before merging.
#[derive(Debug, Clone)]
pub struct Segment {
    pub id: String,
    /// The source chapter this segment stands for.
    pub chapter_id: i32,
    pub heading: Option<Heading>,
    /// Characters of content, headings excluded.
    pub length: usize,
    /// Position in the book in basis points: 0 is the first chapter, 10000 the last.
    pub position_ratio: u32,
    /// Table-of-contents level, for formats that declare one.
    pub toc_level: Option<u32>,
    pub source_format: SourceFormat,
    pub start_block_id: i32,
    pub end_block_id: i32,
}

/// AI summary attached to a unit by a later step.
#[derive(Debug, Clone)]
pub struct Summary {
    pub text: String,
    pub generated_at: i64,
    pub model: String,
}

/// A chapter (level 1) or section (level 2) of the final structure.
#[derive(Debug, Clone)]
pub struct ReadingUnit {
    pub id: String,
    pub book_id: i32,
    pub title: String,
    pub level: u32,
    /// The enclosing chapter's id; set only on sections.
    pub parent_id: Option<String>,
    /// Ids of the contributing segments, in source order.
    pub segment_ids: Vec<String>,
    pub start_block_id: i32,
    pub end_block_id: i32,
    /// `"toc"` or `"heuristic"`.
    pub source: String,
    pub content_type: Option<ContentType>,
    pub summary: Option<Summary>,
}

/// How strongly a heading announces a new chapter.
#[derive(Debug, Clone, Copy, PartialEq, Eq, Structural)]
pub enum HeadingStrength {
    /// A chapter heading ("Chapter 3", "第三章", "Part II").
    Strong,
    /// A numbered section heading ("1.2", "§3").
    Weak,
    /// No heading, or one that matches neither pattern.
    Absent,
}

/// Content length bucket.
#[derive(Debug, Clone, Copy, PartialEq, Eq, Structural)]
pub enum LengthFeature {
    /// Under 300 characters.
    VeryShort,
    /// 300 to 799.
    Short,
    /// 800 to 1999.
    Medium,
    /// 2000 to 5999.
    Long,
    /// 6000 and more.
    VeryLong,
}

/// What a heading says the content is.
#[derive(Debug, Clone, Copy, PartialEq, Eq, Structural)]
pub enum ContentFeature {
    Copyright,
    Toc,
    Preface,
    Body,
}

/// Features of one segment, read from it and from the segment before it.
#[derive(Debug, Clone, Copy, PartialEq, Eq, Structural)]
pub struct SegmentFeatures {
    pub toc_feature: Option<u32>,
    pub heading_feature: HeadingStrength,
    pub length_feature: LengthFeature,
    pub content_feature: ContentFeature,
    /// Position in the book in basis points (0 to 10000).
    pub position_in_book: u32,
    pub is_after_strong_heading: bool,
    pub is_consecutive_strong_heading: bool,
    /// `Some(true)` continuous numbering, `Some(false)` a jump, `None` unnumbered.
    pub numbering_continuity: Option<bool>,
}

/// Weight of each score dimension, in tenths.
#[derive(Debug, Clone, Copy, PartialEq, Eq, Structural)]
pub struct ScoreWeights {
    pub toc: i16,
    pub heading: i16,
    pub length: i16,
    pub content: i16,
    pub position: i16,
    pub continuity: i16,
}

/// Per-dimension scores in tenths of a point, and their weighted total in
/// hundredths of a point. Positive totals lean towards merging.
#[derive(Debug, Clone, Copy, PartialEq, Eq, Structural)]
pub struct SegmentScore {
    pub toc_score: Option<i16>,
    pub heading_score: Option<i16>,
    pub length_score: Option<i16>,
    pub content_score: Option<i16>,
    pub position_score: Option<i16>,
    pub continuity_score: Option<i16>,
    pub total_score: i64,
}

/// Score record kept for debugging a book's structure.
#[derive(Debug, Clone)]
pub struct DebugSegmentScore {
    pub segment_id: String,
    pub scores: SegmentScore,
    pub weights: ScoreWeights,
    pub total_score: i64,
    pub decision: MergeDecision,
    pub decision_reason: String,
    pub fallback: bool,
    pub fallback_reason: Option<String>,
    pub content_type: Option<ContentType>,
    pub level: Option<u32>,
}

/// A dimension's contribution to the total: score times weight, nothing when absent.
pub open spec fn weighted(score: Option<i16>, weight: i16) -> int {
    match score {
        Some(s) => s * weight,
        None => 0,
    }
}

/// Sum over the present dimensions of score times weight.
pub open spec fn weighted_total(s: SegmentScore, w: ScoreWeights) -> int {
    weighted(s.toc_score, w.toc) + weighted(s.heading_score, w.heading) + weighted(
        s.length_score,
        w.length,
    ) + weighted(s.content_score, w.content) + weighted(s.position_score, w.position)
        + weighted(s.continuity_score, w.continuity)
}

fn weighted_exec(score: Option<i16>, weight: i16) -> (r: i64)
    ensures
        r == weighted(score, weight),
        -32768 * 32768 <= r <= 32768 * 32768,
{
    match score {
        Some(s) => {
            proof {
                assert(-32768 * 32768 <= s * weight <= 32768 * 32768) by (nonlinear_arith)
                    requires
                        -32768 <= s <= 32767,
                        -32768 <= weight <= 32767,
                ;
            }
            (s as i64) * (weight as i64)
        },
        None => 0,
    }
}

/// A score with no dimension set and a zero total.
pub open spec fn empty_score() -> SegmentScore {
    SegmentScore {
        toc_score: None,
        heading_score: None,
        length_score: None,
        content_score: None,
        position_score: None,
        continuity_score: None,
        total_score: 0,
    }
}

impl SegmentScore {
    /// A score with no dimension set and a zero total.
    pub fn new() -> (r: Self)
        ensures
            r == empty_score(),
    {
        SegmentScore {
            toc_score: None,
            heading_score: None,
            length_score: None,
            content_score: None,
            position_score: None,
            continuity_score: None,
            total_score: 0,
        }
    }

    /// Sets the total to the weighted sum of the present dimensions.
    pub fn calculate_total(&mut self, weights: &ScoreWeights)
        ensures
            final(self).total_score == weighted_total(*old(self), *weights),
            *final(self) == (SegmentScore { total_score: final(self).total_score, ..*old(self) }),
    {
        let total = weighted_exec(self.toc_score, weights.toc) + weighted_exec(
            self.heading_score,
            weights.heading,
        ) + weighted_exec(self.length_score, weights.length) + weighted_exec(
            self.content_score,
            weights.content,
        ) + weighted_exec(self.position_score, weights.position) + weighted_exec(
            self.continuity_score,
            weights.continuity,
        );
        self.total_score = total;
    }
}

impl Default for SegmentScore {
    fn default() -> (r: Self)
        ensures
            r == empty_score(),
    {
        SegmentScore::new()
    }
}

} // verus!
