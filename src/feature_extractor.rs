//! Derives the scoring features of a segment from its heading, its length,
//! its position and the segment before it.

use vstd::prelude::*;
use crate::numbering::{continues, dotted_numbers, parse_dotted};
use crate::text::{
    chars_mention_any, chars_of, lower_of, lowercase, mentions_any, regex_finds, regex_first_group,
    regex_group, regex_is_match,
};
use crate::types::{ContentFeature, HeadingStrength, LengthFeature, Segment, SegmentFeatures};

verus! {

/// Chapter headings: "第N章", "Chapter N", "Part N".
pub const STRONG_HEADING_PATTERN: &'static str = r"^(第\s*[一二三四五六七八九十0-9]+\s*章|Chapter\s+\d+|Part\s+[IVX0-9]+)";

/// Section headings: "1.2", "1.2.3", "§3".
pub const WEAK_HEADING_PATTERN: &'static str = r"^(\d+\.\d+|\d+\.\d+\.\d+|§\s*\d+)";

/// A leading dotted number such as "1.2.3".
pub const SECTION_NUMBER_PATTERN: &'static str = r"^(\d+(?:\.\d+)*)";

/// Copyright and legal keywords, lower case.
pub fn copyright_keywords() -> (r: Vec<&'static str>)
    ensures
        r@.map_values(|k: &str| k@) == copyright_keywords_spec(),
{
    let r = vec!["isbn", "all rights reserved", "copyright", "版权", "出版社", "印刷", "发行", "cip", "©", "版权所有"];
    assert(r@.map_values(|k: &str| k@) == copyright_keywords_spec());
    r
}

pub open spec fn copyright_keywords_spec() -> Seq<Seq<char>> {
    seq![
        "isbn"@,
        "all rights reserved"@,
        "copyright"@,
        "版权"@,
        "出版社"@,
        "印刷"@,
        "发行"@,
        "cip"@,
        "©"@,
        "版权所有"@,
    ]
}

/// Table-of-contents keywords, lower case.
pub fn toc_keywords() -> (r: Vec<&'static str>)
    ensures
        r@.map_values(|k: &str| k@) == toc_keywords_spec(),
{
    let r = vec!["目录", "导航", "contents", "toc", "table of contents"];
    assert(r@.map_values(|k: &str| k@) == toc_keywords_spec());
    r
}

pub open spec fn toc_keywords_spec() -> Seq<Seq<char>> {
    seq!["目录"@, "导航"@, "contents"@, "toc"@, "table of contents"@]
}

/// Preface, foreword and acknowledgment keywords, lower case.
pub fn preface_keywords() -> (r: Vec<&'static str>)
    ensures
        r@.map_values(|k: &str| k@) == preface_keywords_spec(),
{
    let r = vec![
        "序",
        "序言",
        "前言",
        "致谢",
        "鸣谢",
        "导读",
        "引言",
        "preface",
        "foreword",
        "introduction",
        "acknowledgments",
        "summary",
    ];
    assert(r@.map_values(|k: &str| k@) == preface_keywords_spec());
    r
}

pub open spec fn preface_keywords_spec() -> Seq<Seq<char>> {
    seq![
        "序"@,
        "序言"@,
        "前言"@,
        "致谢"@,
        "鸣谢"@,
        "导读"@,
        "引言"@,
        "preface"@,
        "foreword"@,
        "introduction"@,
        "acknowledgments"@,
        "summary"@,
    ]
}

/// The heading text of a segment, if it has a heading.
pub open spec fn heading_text(s: Segment) -> Option<Seq<char>> {
    match s.heading {
        Some(h) => Some(h.text@),
        None => None,
    }
}

/// The heading matches the chapter-heading pattern.
pub open spec fn is_strong_text(t: Seq<char>) -> bool {
    regex_finds(STRONG_HEADING_PATTERN@, t)
}

/// The segment has a heading that matches the chapter-heading pattern.
pub open spec fn has_strong_heading(s: Segment) -> bool {
    heading_text(s) matches Some(t) && is_strong_text(t)
}

pub open spec fn strength_of(s: Segment) -> HeadingStrength {
    match heading_text(s) {
        Some(t) => if is_strong_text(t) {
            HeadingStrength::Strong
        } else if regex_finds(WEAK_HEADING_PATTERN@, t) {
            HeadingStrength::Weak
        } else {
            HeadingStrength::Absent
        },
        None => HeadingStrength::Absent,
    }
}

pub open spec fn length_bucket(length: usize) -> LengthFeature {
    if length < 300 {
        LengthFeature::VeryShort
    } else if length < 800 {
        LengthFeature::Short
    } else if length < 2000 {
        LengthFeature::Medium
    } else if length < 6000 {
        LengthFeature::Long
    } else {
        LengthFeature::VeryLong
    }
}

/// Keyword class of a heading text, compared in lower case; copyright first,
/// then contents, then preface.
pub open spec fn content_class(t: Seq<char>) -> ContentFeature {
    let l = lower_of(t);
    if mentions_any(l, copyright_keywords_spec()) {
        ContentFeature::Copyright
    } else if mentions_any(l, toc_keywords_spec()) {
        ContentFeature::Toc
    } else if mentions_any(l, preface_keywords_spec()) {
        ContentFeature::Preface
    } else {
        ContentFeature::Body
    }
}

pub open spec fn content_of(s: Segment) -> ContentFeature {
    match heading_text(s) {
        Some(t) => content_class(t),
        None => ContentFeature::Body,
    }
}

/// The leading dotted number of a heading text, if one parses.
pub open spec fn number_of_text(t: Seq<char>) -> Option<Seq<u32>> {
    match regex_group(SECTION_NUMBER_PATTERN@, t) {
        Some(g) => if dotted_numbers(g).len() > 0 {
            Some(dotted_numbers(g))
        } else {
            None
        },
        None => None,
    }
}

pub open spec fn section_number_of(s: Segment) -> Option<Seq<u32>> {
    match heading_text(s) {
        Some(t) => number_of_text(t),
        None => None,
    }
}

pub open spec fn continuity_of(s: Segment, prev: Option<Segment>) -> Option<bool> {
    match (section_number_of(s), prev) {
        (Some(c), Some(p)) => match section_number_of(p) {
            Some(pn) => Some(continues(pn, c)),
            None => None,
        },
        _ => None,
    }
}

pub open spec fn after_strong(prev: Option<Segment>) -> bool {
    prev matches Some(p) && has_strong_heading(p)
}

/// All features of `s`, read with `prev` as the segment before it.
pub open spec fn features_of(s: Segment, prev: Option<Segment>) -> SegmentFeatures {
    SegmentFeatures {
        toc_feature: s.toc_level,
        heading_feature: strength_of(s),
        length_feature: length_bucket(s.length),
        content_feature: content_of(s),
        position_in_book: s.position_ratio,
        is_after_strong_heading: after_strong(prev),
        is_consecutive_strong_heading: has_strong_heading(s) && after_strong(prev),
        numbering_continuity: continuity_of(s, prev),
    }
}

pub open spec fn opt_ref_view(prev: Option<&Segment>) -> Option<Segment> {
    match prev {
        Some(p) => Some(*p),
        None => None,
    }
}

/// Whether a heading text matches the chapter-heading pattern.
pub fn is_strong_heading_text(text: &str) -> (r: bool)
    ensures
        r == is_strong_text(text@),
{
    regex_is_match(STRONG_HEADING_PATTERN, text)
}

/// Keyword class of a heading text, compared in lower case.
pub fn classify_heading_text(text: &str) -> (r: ContentFeature)
    ensures
        r == content_class(text@),
{
    let lower = lowercase(text);
    let l = chars_of(lower.as_str());
    if chars_mention_any(l.as_slice(), &copyright_keywords()) {
        return ContentFeature::Copyright;
    }
    if chars_mention_any(l.as_slice(), &toc_keywords()) {
        return ContentFeature::Toc;
    }
    if chars_mention_any(l.as_slice(), &preface_keywords()) {
        return ContentFeature::Preface;
    }
    ContentFeature::Body
}

/// Reads the scoring features of segments.
pub struct FeatureExtractor {}

impl FeatureExtractor {
    pub fn new() -> (r: Self) {
        FeatureExtractor {  }
    }

    /// All features of `segment`, with `prev_segment` as the one before it.
    pub fn extract_features(&self, segment: &Segment, prev_segment: Option<&Segment>) -> (r:
        SegmentFeatures)
        ensures
            r == features_of(*segment, opt_ref_view(prev_segment)),
    {
        let toc_feature = segment.toc_level;
        let heading_feature = self.extract_heading_strength(segment);
        let length_feature = self.extract_length_feature(segment);
        let content_feature = self.extract_content_feature(segment);
        let position_in_book = segment.position_ratio;
        let is_after_strong_heading = self.is_after_strong_heading(prev_segment);
        let is_consecutive_strong_heading = self.is_consecutive_strong_heading(
            segment,
            prev_segment,
        );
        let numbering_continuity = self.extract_numbering_continuity(segment, prev_segment);
        SegmentFeatures {
            toc_feature,
            heading_feature,
            length_feature,
            content_feature,
            position_in_book,
            is_after_strong_heading,
            is_consecutive_strong_heading,
            numbering_continuity,
        }
    }

    pub fn extract_heading_strength(&self, segment: &Segment) -> (r: HeadingStrength)
        ensures
            r == strength_of(*segment),
    {
        if let Some(heading) = &segment.heading {
            if is_strong_heading_text(heading.text.as_str()) {
                return HeadingStrength::Strong;
            }
            if regex_is_match(WEAK_HEADING_PATTERN, heading.text.as_str()) {
                return HeadingStrength::Weak;
            }
        }
        HeadingStrength::Absent
    }

    pub fn extract_length_feature(&self, segment: &Segment) -> (r: LengthFeature)
        ensures
            r == length_bucket(segment.length),
    {
        if segment.length < 300 {
            LengthFeature::VeryShort
        } else if segment.length < 800 {
            LengthFeature::Short
        } else if segment.length < 2000 {
            LengthFeature::Medium
        } else if segment.length < 6000 {
            LengthFeature::Long
        } else {
            LengthFeature::VeryLong
        }
    }

    pub fn extract_content_feature(&self, segment: &Segment) -> (r: ContentFeature)
        ensures
            r == content_of(*segment),
    {
        match &segment.heading {
            Some(heading) => classify_heading_text(heading.text.as_str()),
            None => ContentFeature::Body,
        }
    }

    fn has_strong_heading_exec(&self, segment: &Segment) -> (r: bool)
        ensures
            r == has_strong_heading(*segment),
    {
        match &segment.heading {
            Some(heading) => is_strong_heading_text(heading.text.as_str()),
            None => false,
        }
    }

    pub fn is_after_strong_heading(&self, prev_segment: Option<&Segment>) -> (r: bool)
        ensures
            r == after_strong(opt_ref_view(prev_segment)),
    {
        match prev_segment {
            Some(prev) => self.has_strong_heading_exec(prev),
            None => false,
        }
    }

    pub fn is_consecutive_strong_heading(&self, segment: &Segment, prev_segment: Option<&Segment>) -> (r: bool)
        ensures
            r == (has_strong_heading(*segment) && after_strong(opt_ref_view(prev_segment))),
    {
        let current_is_strong = self.has_strong_heading_exec(segment);
        let prev_is_strong = self.is_after_strong_heading(prev_segment);
        current_is_strong && prev_is_strong
    }

    pub fn extract_numbering_continuity(&self, segment: &Segment, prev_segment: Option<&Segment>) -> (r: Option<bool>)
        ensures
            r == continuity_of(*segment, opt_ref_view(prev_segment)),
    {
        let current = self.extract_section_number(segment);
        match current {
            Some(curr) => match prev_segment {
                Some(prev) => match self.extract_section_number(prev) {
                    Some(p) => Some(self.is_continuous_numbering(p.as_slice(), curr.as_slice())),
                    None => None,
                },
                None => None,
            },
            None => None,
        }
    }

    /// The leading dotted number of the segment's heading ("1.2.3" gives [1, 2, 3]).
    pub fn extract_section_number(&self, segment: &Segment) -> (r: Option<Vec<u32>>)
        ensures
            r matches Some(v) ==> section_number_of(*segment) == Some(v@),
            r is None ==> section_number_of(*segment) is None,
    {
        match &segment.heading {
            Some(heading) => match regex_first_group(SECTION_NUMBER_PATTERN, heading.text.as_str()) {
                Some(group) => {
                    let cs = chars_of(group.as_str());
                    let numbers = parse_dotted(cs.as_slice());
                    if numbers.len() > 0 {
                        Some(numbers)
                    } else {
                        None
                    }
                },
                None => None,
            },
            None => None,
        }
    }

    /// Whether `curr` continues `prev`: same depth, same leading components,
    /// last component one higher.
    pub fn is_continuous_numbering(&self, prev: &[u32], curr: &[u32]) -> (r: bool)
        ensures
            r == continues(prev@, curr@),
    {
        if prev.len() != curr.len() || prev.len() == 0 {
            return false;
        }
        let n = prev.len();
        let prev_last = prev[n - 1];
        let curr_last = curr[n - 1];
        if prev_last == u32::MAX || curr_last != prev_last + 1 {
            return false;
        }
        let mut i: usize = 0;
        while i < n - 1
            invariant
                n == prev@.len() == curr@.len(),
                n > 0,
                i <= n - 1,
                forall|k: int| 0 <= k < i ==> prev@[k] == curr@[k],
            decreases n - 1 - i,
        {
            if prev[i] != curr[i] {
                assert(prev@.drop_last()[i as int] != curr@.drop_last()[i as int]);
                return false;
            }
            i = i + 1;
        }
        assert(prev@.drop_last() == curr@.drop_last());
        true
    }
}

impl Default for FeatureExtractor {
    fn default() -> (r: Self) {
        FeatureExtractor::new()
    }
}

} // verus!
