//! A reduced rule set used when the full feature and score pipeline cannot run.

use vstd::prelude::*;
use crate::feature_extractor::{has_strong_heading, is_strong_heading_text};
use crate::text::{int_text, push_count};
use crate::types::{MergeDecision, Segment};

verus! {

/// The fallback decision: a chapter heading opens a unit, else a short
/// segment merges and a long one opens a unit.
pub open spec fn fallback_decision(gray_zone_length: usize, s: Segment) -> MergeDecision {
    if has_strong_heading(s) {
        MergeDecision::CreateNew
    } else if s.length < gray_zone_length {
        MergeDecision::Merge
    } else {
        MergeDecision::CreateNew
    }
}

pub open spec fn fallback_reason(gray_zone_length: usize, s: Segment) -> Seq<char> {
    if has_strong_heading(s) {
        "降级策略：强章标题，创建新章节"@
    } else if s.length < gray_zone_length {
        "降级策略：长度 "@ + int_text(s.length as int) + " < "@ + int_text(gray_zone_length as int)
            + "，合并"@
    } else {
        "降级策略：长度 "@ + int_text(s.length as int) + " >= "@ + int_text(
            gray_zone_length as int,
        ) + "，创建新章节"@
    }
}

/// Decides from the heading and the length alone.
pub struct FallbackStrategy {
    gray_zone_length: usize,
}

impl FallbackStrategy {
    /// Length under which a segment without a chapter heading merges.
    pub closed spec fn gray_zone_length_spec(&self) -> usize {
        self.gray_zone_length
    }

    /// A strategy with a gray-zone length of 800.
    pub fn new() -> (r: Self)
        ensures
            r.gray_zone_length_spec() == 800,
    {
        FallbackStrategy { gray_zone_length: 800 }
    }

    /// The decision and its reason; a new unit from here is a chapter.
    pub fn apply(&self, segment: &Segment) -> (r: (MergeDecision, String))
        ensures
            r.0 == fallback_decision(self.gray_zone_length_spec(), *segment),
            r.1@ == fallback_reason(self.gray_zone_length_spec(), *segment),
    {
        if let Some(heading) = &segment.heading {
            if is_strong_heading_text(heading.text.as_str()) {
                return (MergeDecision::CreateNew, String::from_str("降级策略：强章标题，创建新章节"));
            }
        }
        let mut reason = String::from_str("降级策略：长度 ");
        push_count(&mut reason, segment.length);
        if segment.length < self.gray_zone_length {
            reason.append(" < ");
            push_count(&mut reason, self.gray_zone_length);
            reason.append("，合并");
            (MergeDecision::Merge, reason)
        } else {
            reason.append(" >= ");
            push_count(&mut reason, self.gray_zone_length);
            reason.append("，创建新章节");
            (MergeDecision::CreateNew, reason)
        }
    }

    /// Replaces the gray-zone length.
    pub fn set_gray_zone_length(&mut self, length: usize)
        ensures
            final(self).gray_zone_length_spec() == length,
    {
        self.gray_zone_length = length;
    }
}

impl Default for FallbackStrategy {
    fn default() -> (r: Self)
        ensures
            r.gray_zone_length_spec() == 800,
    {
        FallbackStrategy::new()
    }
}

} // verus!
