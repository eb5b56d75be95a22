//! The rule cascade that turns a segment's score and features into a
//! merge-or-split decision and, for a split, the new unit's level.

use vstd::prelude::*;
use crate::text::{int_text, points_text, push_count, push_points};
use crate::types::{ContentFeature, HeadingStrength, MergeDecision, Segment, SegmentFeatures, SegmentScore};

verus! {

/// Content score (tenths) from which a segment is metadata and always merges.
pub const METADATA_CONTENT_SCORE: i16 = 50;

/// Default total (hundredths) from which a segment merges: +3.0.
pub const DEFAULT_MERGE_THRESHOLD: i64 = 300;

/// Default total (hundredths) up to which a segment opens a unit: -3.0.
pub const DEFAULT_NEW_THRESHOLD: i64 = -300;

/// Default length under which a gray-zone segment merges.
pub const DEFAULT_GRAY_ZONE_LENGTH: usize = 800;

/// Level of a new unit from its heading: a section for a weak heading, else a chapter.
pub open spec fn level_for(h: HeadingStrength) -> u32 {
    if h == HeadingStrength::Weak {
        2
    } else {
        1
    }
}

/// Rule 1 of the cascade: the content score marks metadata.
pub open spec fn is_metadata_score(score: SegmentScore) -> bool {
    score.content_score matches Some(c) && c >= METADATA_CONTENT_SCORE
}

/// Rule 2: a first-level TOC entry that is not metadata.
pub open spec fn is_toc_chapter(f: SegmentFeatures) -> bool {
    f.toc_feature == Some(1u32) && f.content_feature == ContentFeature::Body
}

/// Rule 3: a second-level TOC entry.
pub open spec fn is_toc_section(f: SegmentFeatures) -> bool {
    f.toc_feature == Some(2u32)
}

/// The decision and level that the cascade gives, thresholds in hundredths.
pub open spec fn cascade(
    merge_threshold: i64,
    new_threshold: i64,
    gray_zone_length: usize,
    score: SegmentScore,
    f: SegmentFeatures,
    length: usize,
) -> (MergeDecision, Option<u32>) {
    if is_metadata_score(score) {
        (MergeDecision::Merge, None)
    } else if is_toc_chapter(f) {
        (MergeDecision::CreateNew, Some(1u32))
    } else if is_toc_section(f) {
        (MergeDecision::CreateNew, Some(2u32))
    } else if score.total_score >= merge_threshold {
        (MergeDecision::Merge, None)
    } else if score.total_score <= new_threshold {
        (MergeDecision::CreateNew, Some(level_for(f.heading_feature)))
    } else if length < gray_zone_length {
        (MergeDecision::Merge, None)
    } else {
        (MergeDecision::CreateNew, Some(level_for(f.heading_feature)))
    }
}

/// The reason that goes with the cascade's decision.
pub open spec fn cascade_reason(
    merge_threshold: i64,
    new_threshold: i64,
    gray_zone_length: usize,
    score: SegmentScore,
    f: SegmentFeatures,
    length: usize,
) -> Seq<char> {
    if is_metadata_score(score) {
        "元信息内容，强制合并"@
    } else if is_toc_chapter(f) {
        "TOC 一级节点，创建新章节"@
    } else if is_toc_section(f) {
        "TOC 二级节点，创建新小节"@
    } else if score.total_score >= merge_threshold {
        "总分 "@ + points_text(score.total_score as int) + " >= +"@ + points_text(
            merge_threshold as int,
        ) + "，倾向合并"@
    } else if score.total_score <= new_threshold {
        "总分 "@ + points_text(score.total_score as int) + " <= "@ + points_text(
            new_threshold as int,
        ) + "，创建新章节"@
    } else if length < gray_zone_length {
        "灰区判断：长度 "@ + int_text(length as int) + " < "@ + int_text(gray_zone_length as int)
            + "，合并"@
    } else {
        "灰区判断：长度 "@ + int_text(length as int) + " >= "@ + int_text(gray_zone_length as int)
            + "，创建新章节"@
    }
}

/// Decides, segment by segment, whether to merge or to open a new unit.
pub struct DecisionEngine {
    merge_threshold: i64,
    new_threshold: i64,
    gray_zone_length: usize,
}

impl DecisionEngine {
    /// Total score (hundredths) from which a segment merges.
    pub closed spec fn merge_threshold_spec(&self) -> i64 {
        self.merge_threshold
    }

    /// Total score (hundredths) up to which a segment opens a new unit.
    pub closed spec fn new_threshold_spec(&self) -> i64 {
        self.new_threshold
    }

    /// Length under which a gray-zone segment merges.
    pub closed spec fn gray_zone_length_spec(&self) -> usize {
        self.gray_zone_length
    }

    /// The decision and level this engine gives.
    pub open spec fn decision_spec(
        &self,
        score: SegmentScore,
        f: SegmentFeatures,
        length: usize,
    ) -> (MergeDecision, Option<u32>) {
        cascade(
            self.merge_threshold_spec(),
            self.new_threshold_spec(),
            self.gray_zone_length_spec(),
            score,
            f,
            length,
        )
    }

    /// The reason this engine gives.
    pub open spec fn reason_spec(&self, score: SegmentScore, f: SegmentFeatures, length: usize) -> Seq<
        char,
    > {
        cascade_reason(
            self.merge_threshold_spec(),
            self.new_threshold_spec(),
            self.gray_zone_length_spec(),
            score,
            f,
            length,
        )
    }

    /// An engine with thresholds +3.0 and -3.0 and a gray-zone length of 800.
    pub fn new() -> (r: Self)
        ensures
            r.merge_threshold_spec() == DEFAULT_MERGE_THRESHOLD,
            r.new_threshold_spec() == DEFAULT_NEW_THRESHOLD,
            r.gray_zone_length_spec() == DEFAULT_GRAY_ZONE_LENGTH,
    {
        DecisionEngine {
            merge_threshold: DEFAULT_MERGE_THRESHOLD,
            new_threshold: DEFAULT_NEW_THRESHOLD,
            gray_zone_length: DEFAULT_GRAY_ZONE_LENGTH,
        }
    }

    /// Runs the cascade; the first rule that applies decides.
    pub fn make_decision(
        &self,
        score: &SegmentScore,
        features: &SegmentFeatures,
        segment: &Segment,
    ) -> (r: (MergeDecision, String, Option<u32>))
        ensures
            (r.0, r.2) == self.decision_spec(*score, *features, segment.length),
            r.1@ == self.reason_spec(*score, *features, segment.length),
    {
        if let Some(content_score) = score.content_score {
            if content_score >= METADATA_CONTENT_SCORE {
                return (MergeDecision::Merge, String::from_str("元信息内容，强制合并"), None);
            }
        }
        if let Some(toc_level) = features.toc_feature {
            if toc_level == 1 {
                match features.content_feature {
                    ContentFeature::Body => {
                        return (
                            MergeDecision::CreateNew,
                            String::from_str("TOC 一级节点，创建新章节"),
                            Some(1),
                        );
                    },
                    _ => {},
                }
            }
        }
        if let Some(toc_level) = features.toc_feature {
            if toc_level == 2 {
                return (
                    MergeDecision::CreateNew,
                    String::from_str("TOC 二级节点，创建新小节"),
                    Some(2),
                );
            }
        }
        if score.total_score >= self.merge_threshold {
            let mut reason = String::from_str("总分 ");
            push_points(&mut reason, score.total_score);
            reason.append(" >= +");
            push_points(&mut reason, self.merge_threshold);
            reason.append("，倾向合并");
            return (MergeDecision::Merge, reason, None);
        }
        if score.total_score <= self.new_threshold {
            let level = self.determine_level(features, segment);
            let mut reason = String::from_str("总分 ");
            push_points(&mut reason, score.total_score);
            reason.append(" <= ");
            push_points(&mut reason, self.new_threshold);
            reason.append("，创建新章节");
            return (MergeDecision::CreateNew, reason, Some(level));
        }
        let mut reason = String::from_str("灰区判断：长度 ");
        push_count(&mut reason, segment.length);
        if segment.length < self.gray_zone_length {
            reason.append(" < ");
            push_count(&mut reason, self.gray_zone_length);
            reason.append("，合并");
            (MergeDecision::Merge, reason, None)
        } else {
            let level = self.determine_level(features, segment);
            reason.append(" >= ");
            push_count(&mut reason, self.gray_zone_length);
            reason.append("，创建新章节");
            (MergeDecision::CreateNew, reason, Some(level))
        }
    }

    /// Level of a new unit: 1 for a strong heading, 2 for a weak one, 1 otherwise.
    pub fn determine_level(&self, features: &SegmentFeatures, segment: &Segment) -> (r: u32)
        ensures
            r == level_for(features.heading_feature),
    {
        match features.heading_feature {
            HeadingStrength::Strong => 1,
            HeadingStrength::Weak => 2,
            HeadingStrength::Absent => 1,
        }
    }

    /// Replaces the two thresholds (hundredths) and the gray-zone length.
    pub fn set_thresholds(&mut self, merge: i64, new: i64, gray_length: usize)
        ensures
            final(self).merge_threshold_spec() == merge,
            final(self).new_threshold_spec() == new,
            final(self).gray_zone_length_spec() == gray_length,
    {
        self.merge_threshold = merge;
        self.new_threshold = new;
        self.gray_zone_length = gray_length;
    }
}

impl Default for DecisionEngine {
    fn default() -> (r: Self)
        ensures
            r.merge_threshold_spec() == DEFAULT_MERGE_THRESHOLD,
            r.new_threshold_spec() == DEFAULT_NEW_THRESHOLD,
            r.gray_zone_length_spec() == DEFAULT_GRAY_ZONE_LENGTH,
    {
        DecisionEngine::new()
    }
}

} // verus!
