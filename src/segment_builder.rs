//! Builds the segments of a book from the parsers' chapters and the stored
//! block ranges.

use vstd::prelude::*;
use std::collections::HashMap;
use crate::irp::{extract_plain_text_from_runs, runs_text, TextRun};
use crate::parser::{BlockData, ChapterData};
use crate::text::{int_text, push_int, text_equals, trim_text, trimmed};
use crate::types::{Heading, Segment, SourceFormat};
use vstd::arithmetic::div_mod::{lemma_fundamental_div_mod, lemma_mod_pos_bound};

verus! {

/// Title the parsers give a chapter they could not name.
pub const UNNAMED_CHAPTER_TITLE: &'static str = "未命名章节";

/// What storage answered for one chapter: its id, and the least and greatest
/// id of its content blocks (both absent when it has none).
#[derive(Debug, Clone, Copy, PartialEq, Eq, Structural)]
pub struct ChapterLocation {
    pub chapter_id: i32,
    pub min_block_id: Option<i32>,
    pub max_block_id: Option<i32>,
}

pub open spec fn is_heading_block(b: BlockData) -> bool {
    b.block_type@ == "heading"@
}

/// Characters in the runs of `runs`.
pub open spec fn runs_len(runs: Seq<TextRun>) -> nat
    decreases runs.len(),
{
    if runs.len() == 0 {
        0
    } else {
        runs_len(runs.drop_last()) + runs.last().text@.len()
    }
}

/// Characters of content in `blocks`, heading blocks excluded.
pub open spec fn blocks_len(blocks: Seq<BlockData>) -> nat
    decreases blocks.len(),
{
    if blocks.len() == 0 {
        0
    } else {
        blocks_len(blocks.drop_last()) + if is_heading_block(blocks.last()) {
            0
        } else {
            runs_len(blocks.last().runs@)
        }
    }
}

pub open spec fn content_length(c: ChapterData) -> nat {
    blocks_len(c.blocks@)
}

/// The trimmed text of the first heading block whose text is not blank.
pub open spec fn first_block_heading(blocks: Seq<BlockData>) -> Option<Seq<char>>
    decreases blocks.len(),
{
    if blocks.len() == 0 {
        None
    } else if is_heading_block(blocks[0]) && trimmed(runs_text(blocks[0].runs@)).len() > 0 {
        Some(trimmed(runs_text(blocks[0].runs@)))
    } else {
        first_block_heading(blocks.drop_first())
    }
}

/// A chapter's heading: its own title unless empty or the placeholder, else
/// the first non-blank heading block.
pub open spec fn chapter_heading(c: ChapterData) -> Option<Seq<char>> {
    if c.title@.len() > 0 && c.title@ != UNNAMED_CHAPTER_TITLE@ {
        Some(c.title@)
    } else {
        first_block_heading(c.blocks@)
    }
}

pub open spec fn opt_heading_view(h: Option<Heading>) -> Option<(Seq<char>, Option<u32>)> {
    match h {
        Some(x) => Some((x.text@, x.level)),
        None => None,
    }
}

/// The block range of a chapter: both bounds, or the chapter id itself for
/// a chapter without blocks; `None` when only one bound is present.
pub open spec fn block_range(loc: ChapterLocation) -> Option<(i32, i32)> {
    match (loc.min_block_id, loc.max_block_id) {
        (Some(a), Some(b)) => Some((a, b)),
        (None, None) => Some((loc.chapter_id, loc.chapter_id)),
        _ => None,
    }
}

/// Position of chapter `index` of `total` in basis points, `index / (total - 1)`
/// rounded towards the middle of the book (down in the first half, up in the
/// second) so that the 5% tests at either end stay exact; 5000 for a lone
/// chapter.
pub open spec fn position_bp(index: int, total: int) -> u32 {
    if total > 1 {
        let last = total - 1;
        if 2 * index <= last {
            ((index * 10000) / last) as u32
        } else {
            ((index * 10000 + last - 1) / last) as u32
        }
    } else {
        5000
    }
}

/// The stored position keeps the two 5% tests exact: it is under 500 exactly
/// when `index / (total - 1) < 0.05`, and over 9500 exactly when
/// `index / (total - 1) > 0.95`.
pub proof fn position_thresholds_are_exact(index: int, total: int)
    requires
        0 <= index < total,
        total > 1,
    ensures
        position_bp(index, total) < 500 <==> 20 * index < total - 1,
        position_bp(index, total) > 9500 <==> 20 * index > 19 * (total - 1),
        position_bp(index, total) <= 10000,
{
    let last = total - 1;
    let x = index * 10000;
    if 2 * index <= last {
        let q = x / last;
        lemma_fundamental_div_mod(x, last);
        assert(q * last <= x < q * last + last) by {
            lemma_mod_bound(x, last);
        }
        assert(q < 500 <==> 20 * index < last) by (nonlinear_arith)
            requires
                q * last <= x,
                x < q * last + last,
                x == index * 10000,
                last > 0,
        ;
        assert(q <= 5000) by (nonlinear_arith)
            requires
                q * last <= x,
                x == index * 10000,
                2 * index <= last,
                last > 0,
        ;
    } else {
        let y = x + last - 1;
        let q = y / last;
        lemma_fundamental_div_mod(y, last);
        assert(q * last <= y < q * last + last) by {
            lemma_mod_bound(y, last);
        }
        assert(q > 9500 <==> 20 * index > 19 * last) by (nonlinear_arith)
            requires
                q * last <= y,
                y < q * last + last,
                y == index * 10000 + last - 1,
                last > 0,
        ;
        assert(q >= 5000 && q <= 10000) by (nonlinear_arith)
            requires
                q * last <= y,
                y < q * last + last,
                y == index * 10000 + last - 1,
                2 * index > last,
                index <= last,
                last > 0,
        ;
    }
}

proof fn lemma_mod_bound(x: int, d: int)
    requires
        x >= 0,
        d > 0,
    ensures
        0 <= x % d < d,
{
    lemma_mod_pos_bound(x, d);
}

/// Position of chapter `index` of `total` in basis points.
pub fn position_in_basis_points(index: usize, total: usize) -> (r: u32)
    requires
        index < total,
    ensures
        r == position_bp(index as int, total as int),
        total > 1 ==> (r < 500 <==> 20 * index < total - 1),
        total > 1 ==> (r > 9500 <==> 20 * index > 19 * (total - 1)),
{
    if total > 1 {
        proof {
            position_thresholds_are_exact(index as int, total as int);
        }
        let last = total as u128 - 1;
        let x = index as u128 * 10000;
        if 2 * (index as u128) <= last {
            (x / last) as u32
        } else {
            ((x + last - 1) / last) as u32
        }
    } else {
        5000
    }
}

pub open spec fn segment_id(book_id: i32, chapter_id: i32) -> Seq<char> {
    "seg-"@ + int_text(book_id as int) + "-"@ + int_text(chapter_id as int)
}

/// The segment built from chapter `index` of `total`.
pub open spec fn segment_matches(
    s: Segment,
    book_id: i32,
    format: SourceFormat,
    c: ChapterData,
    loc: ChapterLocation,
    index: int,
    total: int,
) -> bool {
    &&& s.id@ == segment_id(book_id, loc.chapter_id)
    &&& s.chapter_id == loc.chapter_id
    &&& opt_heading_view(s.heading) == (match chapter_heading(c) {
        Some(t) => Some((t, None::<u32>)),
        None => None,
    })
    &&& s.length == content_length(c)
    &&& s.position_ratio == position_bp(index, total)
    &&& (total > 1 ==> (s.position_ratio < 500 <==> 20 * index < total - 1))
    &&& (total > 1 ==> (s.position_ratio > 9500 <==> 20 * index > 19 * (total - 1)))
    &&& s.toc_level is None
    &&& s.source_format == format
    &&& block_range(loc) == Some((s.start_block_id, s.end_block_id))
}

/// Every location resolves to a block range.
pub open spec fn locations_consistent(locs: Seq<ChapterLocation>) -> bool {
    forall|i: int| 0 <= i < locs.len() ==> (#[trigger] block_range(locs[i])) is Some
}

/// Resolves a chapter's block range; fails on a chapter with only one bound.
pub fn resolve_block_range(loc: &ChapterLocation) -> (r: Result<(i32, i32), String>)
    ensures
        r matches Ok(p) ==> block_range(*loc) == Some(p),
        r is Err <==> block_range(*loc) is None,
{
    match (loc.min_block_id, loc.max_block_id) {
        (Some(start), Some(end)) => Ok((start, end)),
        (None, None) => Ok((loc.chapter_id, loc.chapter_id)),
        _ => {
            let mut msg = String::from_str("章节 ");
            push_int(&mut msg, loc.chapter_id as i64);
            msg.append(" 的 block 数据不一致");
            Err(msg)
        },
    }
}

/// Builds segments for one book and source format.
pub struct SegmentBuilder {
    book_id: i32,
    source_format: SourceFormat,
}

impl SegmentBuilder {
    pub closed spec fn book_id_spec(&self) -> i32 {
        self.book_id
    }

    pub closed spec fn source_format_spec(&self) -> SourceFormat {
        self.source_format
    }

    pub fn new(book_id: i32, source_format: SourceFormat) -> (r: Self)
        ensures
            r.book_id_spec() == book_id,
            r.source_format_spec() == source_format,
    {
        SegmentBuilder { book_id, source_format }
    }

    /// One segment per chapter, in order. `locations[i]` is what storage
    /// answered for chapter `i`. Fails when the two lists differ in length or
    /// a chapter has only one block bound.
    pub fn build_segments(&self, chapters: &[ChapterData], locations: &[ChapterLocation]) -> (r:
        Result<Vec<Segment>, String>)
        requires
            forall|i: int| 0 <= i < chapters@.len() ==> content_length(#[trigger] chapters@[i]) <= usize::MAX,
        ensures
            r is Ok <==> chapters@.len() == locations@.len() && locations_consistent(locations@),
            r matches Ok(segs) ==> segs@.len() == chapters@.len() && forall|i: int|
                0 <= i < segs@.len() ==> segment_matches(
                    #[trigger] segs@[i],
                    self.book_id_spec(),
                    self.source_format_spec(),
                    chapters@[i],
                    locations@[i],
                    i,
                    chapters@.len() as int,
                ),
    {
        if chapters.len() != locations.len() {
            return Err(String::from_str("章节数量与定位数量不一致"));
        }
        let total = chapters.len();
        let mut segments: Vec<Segment> = Vec::new();
        let mut index: usize = 0;
        while index < total
            invariant
                total == chapters@.len() == locations@.len(),
                index <= total,
                forall|i: int| 0 <= i < total ==> content_length(#[trigger] chapters@[i]) <= usize::MAX,
                forall|i: int| 0 <= i < index ==> (#[trigger] block_range(locations@[i])) is Some,
                segments@.len() == index,
                forall|i: int|
                    0 <= i < index ==> segment_matches(
                        #[trigger] segments@[i],
                        self.book_id_spec(),
                        self.source_format_spec(),
                        chapters@[i],
                        locations@[i],
                        i,
                        total as int,
                    ),
            decreases total - index,
        {
            let chapter = &chapters[index];
            let loc = &locations[index];
            let range = resolve_block_range(loc);
            let (start_block_id, end_block_id) = match range {
                Ok(p) => p,
                Err(e) => {
                    assert(!locations_consistent(locations@));
                    return Err(e);
                },
            };
            let length = self.calculate_content_length(chapter);
            let position_ratio = position_in_basis_points(index, total);
            let heading = self.extract_heading(chapter);
            let mut id = String::from_str("seg-");
            push_int(&mut id, self.book_id as i64);
            id.append("-");
            push_int(&mut id, loc.chapter_id as i64);
            let segment = Segment {
                id,
                chapter_id: loc.chapter_id,
                heading,
                length,
                position_ratio,
                toc_level: None,
                source_format: self.source_format,
                start_block_id,
                end_block_id,
            };
            segments.push(segment);
            index = index + 1;
        }
        Ok(segments)
    }

    /// Characters of content in `chapter`, heading blocks excluded.
    pub fn calculate_content_length(&self, chapter: &ChapterData) -> (r: usize)
        requires
            content_length(*chapter) <= usize::MAX,
        ensures
            r == content_length(*chapter),
    {
        let blocks = &chapter.blocks;
        let mut total: usize = 0;
        let mut i: usize = 0;
        while i < blocks.len()
            invariant
                i <= blocks@.len(),
                blocks@ == chapter.blocks@,
                blocks_len(blocks@) <= usize::MAX,
                total == blocks_len(blocks@.take(i as int)),
            decreases blocks@.len() - i,
        {
            let block = &blocks[i];
            proof {
                assert(blocks@.take(i + 1).drop_last() == blocks@.take(i as int));
                lemma_blocks_len_prefix(blocks@, i + 1);
            }
            if !text_equals(block.block_type.as_str(), "heading") {
                let n = runs_char_count(block.runs.as_slice());
                total = total + n;
            }
            i = i + 1;
        }
        assert(blocks@.take(blocks@.len() as int) == blocks@);
        total
    }

    /// The chapter's heading, with no level.
    pub fn extract_heading(&self, chapter: &ChapterData) -> (r: Option<Heading>)
        ensures
            opt_heading_view(r) == (match chapter_heading(*chapter) {
                Some(t) => Some((t, None::<u32>)),
                None => None,
            }),
    {
        if chapter.title.as_str().unicode_len() > 0 && !text_equals(
            chapter.title.as_str(),
            UNNAMED_CHAPTER_TITLE,
        ) {
            return Some(Heading { text: chapter.title.clone(), level: None });
        }
        let blocks = &chapter.blocks;
        assert(blocks@.subrange(0, blocks@.len() as int) == blocks@);
        let mut i: usize = 0;
        while i < blocks.len()
            invariant
                i <= blocks@.len(),
                blocks@ == chapter.blocks@,
                chapter_heading(*chapter) == first_block_heading(blocks@),
                first_block_heading(blocks@) == first_block_heading(
                    blocks@.subrange(i as int, blocks@.len() as int),
                ),
            decreases blocks@.len() - i,
        {
            let block = &blocks[i];
            let ghost rest = blocks@.subrange(i as int, blocks@.len() as int);
            assert(rest[0] == blocks@[i as int]);
            assert(rest.drop_first() == blocks@.subrange(i + 1, blocks@.len() as int));
            if text_equals(block.block_type.as_str(), "heading") {
                let joined = extract_plain_text_from_runs(block.runs.as_slice());
                let text = trim_text(joined.as_str());
                if text.as_str().unicode_len() > 0 {
                    return Some(Heading { text, level: None });
                }
            }
            i = i + 1;
        }
        None
    }

    /// Sets each segment's TOC level from `toc_mapping`, keyed by chapter id;
    /// segments whose chapter is not in the mapping keep theirs.
    pub fn set_toc_levels(segments: &mut Vec<Segment>, toc_mapping: &HashMap<i32, u32>)
        ensures
            final(segments)@.len() == old(segments)@.len(),
            forall|i: int|
                0 <= i < old(segments)@.len() ==> {
                    let s0 = old(segments)@[i];
                    &&& (#[trigger] final(segments)@[i]) == (Segment {
                        toc_level: if toc_mapping@.contains_key(s0.chapter_id) {
                            Some(toc_mapping@[s0.chapter_id])
                        } else {
                            s0.toc_level
                        },
                        ..s0
                    })
                },
    {
        let n = segments.len();
        let mut i: usize = 0;
        while i < n
            invariant
                n == segments@.len() == old(segments)@.len(),
                i <= n,
                forall|k: int|
                    i <= k < n ==> #[trigger] segments@[k] == old(segments)@[k],
                forall|k: int|
                    0 <= k < i ==> {
                        let s0 = old(segments)@[k];
                        &&& (#[trigger] segments@[k]) == (Segment {
                            toc_level: if toc_mapping@.contains_key(s0.chapter_id) {
                                Some(toc_mapping@[s0.chapter_id])
                            } else {
                                s0.toc_level
                            },
                            ..s0
                        })
                    },
            decreases n - i,
        {
            let chapter_id = segments[i].chapter_id;
            match toc_mapping.get(&chapter_id) {
                Some(level) => {
                    segments[i].toc_level = Some(*level);
                },
                None => {},
            }
            i = i + 1;
        }
    }
}

proof fn lemma_blocks_len_prefix(blocks: Seq<BlockData>, k: int)
    requires
        0 <= k <= blocks.len(),
    ensures
        blocks_len(blocks.take(k)) <= blocks_len(blocks),
    decreases blocks.len() - k,
{
    if k < blocks.len() {
        lemma_blocks_len_prefix(blocks.drop_last(), k);
        assert(blocks.drop_last().take(k) == blocks.take(k));
    } else {
        assert(blocks.take(k) == blocks);
    }
}

/// Characters in `runs`.
fn runs_char_count(runs: &[TextRun]) -> (r: usize)
    requires
        runs_len(runs@) <= usize::MAX,
    ensures
        r == runs_len(runs@),
{
    let mut total: usize = 0;
    let mut i: usize = 0;
    while i < runs.len()
        invariant
            i <= runs@.len(),
            runs_len(runs@) <= usize::MAX,
            total == runs_len(runs@.take(i as int)),
        decreases runs@.len() - i,
    {
        proof {
            assert(runs@.take(i + 1).drop_last() == runs@.take(i as int));
            lemma_runs_len_prefix(runs@, i + 1);
        }
        let n = runs[i].text.as_str().unicode_len();
        total = total + n;
        i = i + 1;
    }
    assert(runs@.take(runs@.len() as int) == runs@);
    total
}

proof fn lemma_runs_len_prefix(runs: Seq<TextRun>, k: int)
    requires
        0 <= k <= runs.len(),
    ensures
        runs_len(runs.take(k)) <= runs_len(runs),
    decreases runs.len() - k,
{
    if k < runs.len() {
        lemma_runs_len_prefix(runs.drop_last(), k);
        assert(runs.drop_last().take(k) == runs.take(k));
    } else {
        assert(runs.take(k) == runs);
    }
}

} // verus!
