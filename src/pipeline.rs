//! The per-segment flow: features, then score, then decision, each segment
//! read with the one before it.

use vstd::prelude::*;
use crate::decision_engine::DecisionEngine;
use crate::feature_extractor::{features_of, FeatureExtractor};
use crate::scoring_engine::{score_of, ScoringEngine};
use crate::types::{MergeDecision, Segment};

verus! {

/// The segment before segment `i`, if any.
pub open spec fn previous(segs: Seq<Segment>, i: int) -> Option<Segment> {
    if i > 0 {
        Some(segs[i - 1])
    } else {
        None
    }
}

/// The decision the full pipeline gives segment `i` of `segs`.
pub open spec fn pipeline_decision(
    scorer: ScoringEngine,
    decider: DecisionEngine,
    segs: Seq<Segment>,
    i: int,
) -> (MergeDecision, Option<u32>) {
    let f = features_of(segs[i], previous(segs, i));
    decider.decision_spec(score_of(f, scorer.weights_spec()), f, segs[i].length)
}

/// The reason the full pipeline gives for segment `i` of `segs`.
pub open spec fn pipeline_reason(
    scorer: ScoringEngine,
    decider: DecisionEngine,
    segs: Seq<Segment>,
    i: int,
) -> Seq<char> {
    let f = features_of(segs[i], previous(segs, i));
    decider.reason_spec(score_of(f, scorer.weights_spec()), f, segs[i].length)
}

/// Decides every segment in source order, each with the one before it as context.
pub fn decide_segments(
    extractor: &FeatureExtractor,
    scorer: &ScoringEngine,
    decider: &DecisionEngine,
    segments: &[Segment],
) -> (r: Vec<(MergeDecision, String, Option<u32>)>)
    ensures
        r@.len() == segments@.len(),
        forall|i: int|
            0 <= i < r@.len() ==> ((#[trigger] r@[i]).0, r@[i].2) == pipeline_decision(
                *scorer,
                *decider,
                segments@,
                i,
            ) && r@[i].1@ == pipeline_reason(*scorer, *decider, segments@, i),
{
    let mut out: Vec<(MergeDecision, String, Option<u32>)> = Vec::new();
    let mut i: usize = 0;
    while i < segments.len()
        invariant
            i <= segments@.len(),
            out@.len() == i,
            forall|k: int|
                0 <= k < i ==> ((#[trigger] out@[k]).0, out@[k].2) == pipeline_decision(
                    *scorer,
                    *decider,
                    segments@,
                    k,
                ) && out@[k].1@ == pipeline_reason(*scorer, *decider, segments@, k),
        decreases segments@.len() - i,
    {
        let prev = if i > 0 {
            Some(&segments[i - 1])
        } else {
            None
        };
        let features = extractor.extract_features(&segments[i], prev);
        let score = scorer.calculate_score(&features);
        let decision = decider.make_decision(&score, &features, &segments[i]);
        out.push(decision);
        i = i + 1;
    }
    out
}

} // verus!
