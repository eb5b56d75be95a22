//! Maps segment features to per-dimension scores and a weighted total.

use vstd::prelude::*;
use crate::types::{
    ContentFeature, HeadingStrength, LengthFeature, ScoreWeights, SegmentFeatures, SegmentScore,
    weighted_total,
};

verus! {

/// The default weight table: toc 1.5, heading 1.2, length 1.0, content 1.0,
/// position 0.8, continuity 0.8.
pub open spec fn default_weights() -> ScoreWeights {
    ScoreWeights { toc: 15, heading: 12, length: 10, content: 10, position: 8, continuity: 8 }
}

/// TOC score in tenths: level 1 -3.0, level 2 +1.0, deeper +2.0, none when absent.
pub open spec fn toc_points(level: Option<u32>) -> Option<i16> {
    match level {
        Some(l) => Some(
            (if l == 1 {
                -30
            } else if l == 2 {
                10
            } else {
                20
            }) as i16,
        ),
        None => None,
    }
}

/// Heading score in tenths: strong -3.0, weak +2.0, none +1.0.
pub open spec fn heading_points(h: HeadingStrength) -> int {
    match h {
        HeadingStrength::Strong => -30,
        HeadingStrength::Weak => 20,
        HeadingStrength::Absent => 10,
    }
}

/// Length score in tenths: +3.0, +2.0, 0.0, -1.0, -2.0 from very short to very long.
pub open spec fn length_points(l: LengthFeature) -> int {
    match l {
        LengthFeature::VeryShort => 30,
        LengthFeature::Short => 20,
        LengthFeature::Medium => 0,
        LengthFeature::Long => -10,
        LengthFeature::VeryLong => -20,
    }
}

/// Content score in tenths: +5.0 for copyright, contents and preface, 0.0 for body.
pub open spec fn content_points(c: ContentFeature) -> int {
    match c {
        ContentFeature::Body => 0,
        _ => 50,
    }
}

/// Position score in tenths: +2.0 in the first 5% unless the heading is strong,
/// +1.0 in the last 5%, +1.0 after a strong heading, -1.0 for a second strong
/// heading in a row.
pub open spec fn position_points(f: SegmentFeatures) -> int {
    (if f.position_in_book < 500 && f.heading_feature != HeadingStrength::Strong {
        20int
    } else {
        0int
    }) + (if f.position_in_book > 9500 {
        10int
    } else {
        0int
    }) + (if f.is_after_strong_heading {
        10int
    } else {
        0int
    }) - (if f.is_consecutive_strong_heading {
        10int
    } else {
        0int
    })
}

/// Continuity score in tenths: continuous +2.0, a jump -1.0, none when unnumbered.
pub open spec fn continuity_points(c: Option<bool>) -> Option<i16> {
    match c {
        Some(true) => Some(20i16),
        Some(false) => Some(-10 as i16),
        None => None,
    }
}

/// The per-dimension scores of `f`, with a zero total.
pub open spec fn dimension_scores(f: SegmentFeatures) -> SegmentScore {
    SegmentScore {
        toc_score: toc_points(f.toc_feature),
        heading_score: Some(heading_points(f.heading_feature) as i16),
        length_score: Some(length_points(f.length_feature) as i16),
        content_score: Some(content_points(f.content_feature) as i16),
        position_score: Some(position_points(f) as i16),
        continuity_score: continuity_points(f.numbering_continuity),
        total_score: 0,
    }
}

/// The full score of `f` under weights `w`.
pub open spec fn score_of(f: SegmentFeatures, w: ScoreWeights) -> SegmentScore {
    SegmentScore { total_score: weighted_total(dimension_scores(f), w) as i64, ..dimension_scores(f) }
}

/// Scores segments from their features under a weight table.
pub struct ScoringEngine {
    weights: ScoreWeights,
}

impl ScoringEngine {
    pub closed spec fn weights_spec(&self) -> ScoreWeights {
        self.weights
    }

    /// An engine with the default weight table.
    pub fn new() -> (r: Self)
        ensures
            r.weights_spec() == default_weights(),
    {
        ScoringEngine {
            weights: ScoreWeights {
                toc: 15,
                heading: 12,
                length: 10,
                content: 10,
                position: 8,
                continuity: 8,
            },
        }
    }

    /// Scores every dimension of `features` and totals them under this engine's weights.
    pub fn calculate_score(&self, features: &SegmentFeatures) -> (r: SegmentScore)
        ensures
            r == score_of(*features, self.weights_spec()),
            r.total_score == weighted_total(r, self.weights_spec()),
    {
        let mut score = SegmentScore::new();
        score.toc_score = self.calculate_toc_score(features);
        score.heading_score = Some(self.calculate_heading_score(features));
        score.length_score = Some(self.calculate_length_score(features));
        score.content_score = Some(self.calculate_content_score(features));
        score.position_score = Some(self.calculate_position_score(features));
        score.continuity_score = self.calculate_continuity_score(features);
        score.calculate_total(&self.weights);
        score
    }

    pub fn calculate_toc_score(&self, features: &SegmentFeatures) -> (r: Option<i16>)
        ensures
            r == toc_points(features.toc_feature),
    {
        match features.toc_feature {
            Some(level) => {
                if level == 1 {
                    Some(-30)
                } else if level == 2 {
                    Some(10)
                } else {
                    Some(20)
                }
            },
            None => None,
        }
    }

    pub fn calculate_heading_score(&self, features: &SegmentFeatures) -> (r: i16)
        ensures
            r == heading_points(features.heading_feature),
    {
        match features.heading_feature {
            HeadingStrength::Strong => -30,
            HeadingStrength::Weak => 20,
            HeadingStrength::Absent => 10,
        }
    }

    pub fn calculate_length_score(&self, features: &SegmentFeatures) -> (r: i16)
        ensures
            r == length_points(features.length_feature),
    {
        match features.length_feature {
            LengthFeature::VeryShort => 30,
            LengthFeature::Short => 20,
            LengthFeature::Medium => 0,
            LengthFeature::Long => -10,
            LengthFeature::VeryLong => -20,
        }
    }

    pub fn calculate_content_score(&self, features: &SegmentFeatures) -> (r: i16)
        ensures
            r == content_points(features.content_feature),
    {
        match features.content_feature {
            ContentFeature::Copyright => 50,
            ContentFeature::Toc => 50,
            ContentFeature::Preface => 50,
            ContentFeature::Body => 0,
        }
    }

    pub fn calculate_position_score(&self, features: &SegmentFeatures) -> (r: i16)
        ensures
            r == position_points(*features),
    {
        let mut score: i16 = 0;
        if features.position_in_book < 500 && features.heading_feature != HeadingStrength::Strong {
            score = score + 20;
        }
        if features.position_in_book > 9500 {
            score = score + 10;
        }
        if features.is_after_strong_heading {
            score = score + 10;
        }
        if features.is_consecutive_strong_heading {
            score = score - 10;
        }
        score
    }

    pub fn calculate_continuity_score(&self, features: &SegmentFeatures) -> (r: Option<i16>)
        ensures
            r == continuity_points(features.numbering_continuity),
    {
        match features.numbering_continuity {
            Some(continuous) => {
                if continuous {
                    Some(20)
                } else {
                    Some(-10)
                }
            },
            None => None,
        }
    }

    /// The weight table in use.
    pub fn get_weights(&self) -> (r: &ScoreWeights)
        ensures
            *r == self.weights_spec(),
    {
        &self.weights
    }

    /// Replaces the weight table.
    pub fn set_weights(&mut self, weights: ScoreWeights)
        ensures
            final(self).weights_spec() == weights,
    {
        self.weights = weights;
    }
}

impl Default for ScoringEngine {
    fn default() -> (r: Self)
        ensures
            r.weights_spec() == default_weights(),
    {
        ScoringEngine::new()
    }
}

} // verus!
