use reading_units::scoring_engine::ScoringEngine;
use reading_units::types::{
    ContentFeature, HeadingStrength, LengthFeature, ScoreWeights, SegmentFeatures, SegmentScore,
};

fn create_test_features(
    toc_level: Option<u32>,
    heading: HeadingStrength,
    length: LengthFeature,
    content: ContentFeature,
    position: u32,
) -> SegmentFeatures {
    SegmentFeatures {
        toc_feature: toc_level,
        heading_feature: heading,
        length_feature: length,
        content_feature: content,
        position_in_book: position,
        is_after_strong_heading: false,
        is_consecutive_strong_heading: false,
        numbering_continuity: None,
    }
}

#[test]
fn test_segment_score_calculation() {
    let mut score = SegmentScore::new();
    score.toc_score = Some(-30);
    score.heading_score = Some(-30);
    score.length_score = Some(0);
    score.content_score = Some(0);
    score.position_score = Some(0);
    score.continuity_score = Some(0);
    let weights = ScoreWeights { toc: 15, heading: 12, length: 10, content: 10, position: 8, continuity: 8 };
    score.calculate_total(&weights);
    assert!(score.total_score < 0);
    // -3.0 * 1.5 + -3.0 * 1.2 = -8.1
    assert_eq!(score.total_score, -810);
}

#[test]
fn calculate_total_skips_absent_dimensions() {
    let mut score = SegmentScore::new();
    score.heading_score = Some(20);
    score.continuity_score = Some(-10);
    let weights = ScoreWeights { toc: 15, heading: 12, length: 10, content: 10, position: 8, continuity: 8 };
    score.calculate_total(&weights);
    assert_eq!(score.total_score, 240 - 80);
    assert_eq!(score.heading_score, Some(20));
    assert_eq!(score.toc_score, None);
}

#[test]
fn test_calculate_toc_score() {
    let engine = ScoringEngine::new();
    let features1 = create_test_features(Some(1), HeadingStrength::Strong, LengthFeature::Medium, ContentFeature::Body, 5000);
    assert_eq!(engine.calculate_toc_score(&features1), Some(-30));
    let features2 = create_test_features(Some(2), HeadingStrength::Weak, LengthFeature::Short, ContentFeature::Body, 5000);
    assert_eq!(engine.calculate_toc_score(&features2), Some(10));
    let features3 = create_test_features(Some(3), HeadingStrength::Weak, LengthFeature::Short, ContentFeature::Body, 5000);
    assert_eq!(engine.calculate_toc_score(&features3), Some(20));
}

#[test]
fn test_calculate_heading_score() {
    let engine = ScoringEngine::new();
    let features1 = create_test_features(None, HeadingStrength::Strong, LengthFeature::Medium, ContentFeature::Body, 5000);
    assert_eq!(engine.calculate_heading_score(&features1), -30);
    let features2 = create_test_features(None, HeadingStrength::Weak, LengthFeature::Short, ContentFeature::Body, 5000);
    assert_eq!(engine.calculate_heading_score(&features2), 20);
    let features3 = create_test_features(None, HeadingStrength::Absent, LengthFeature::Short, ContentFeature::Body, 5000);
    assert_eq!(engine.calculate_heading_score(&features3), 10);
}

#[test]
fn test_calculate_length_score() {
    let engine = ScoringEngine::new();
    let features1 = create_test_features(None, HeadingStrength::Absent, LengthFeature::VeryShort, ContentFeature::Body, 5000);
    assert_eq!(engine.calculate_length_score(&features1), 30);
    let features2 = create_test_features(None, HeadingStrength::Absent, LengthFeature::Medium, ContentFeature::Body, 5000);
    assert_eq!(engine.calculate_length_score(&features2), 0);
    let features3 = create_test_features(None, HeadingStrength::Absent, LengthFeature::VeryLong, ContentFeature::Body, 5000);
    assert_eq!(engine.calculate_length_score(&features3), -20);
}

#[test]
fn test_calculate_content_score() {
    let engine = ScoringEngine::new();
    let features1 = create_test_features(None, HeadingStrength::Absent, LengthFeature::Short, ContentFeature::Copyright, 100);
    assert_eq!(engine.calculate_content_score(&features1), 50);
    let features2 = create_test_features(None, HeadingStrength::Absent, LengthFeature::Short, ContentFeature::Body, 5000);
    assert_eq!(engine.calculate_content_score(&features2), 0);
}

#[test]
fn test_calculate_position_score() {
    let engine = ScoringEngine::new();
    let mut features1 = create_test_features(None, HeadingStrength::Absent, LengthFeature::Short, ContentFeature::Body, 300);
    assert_eq!(engine.calculate_position_score(&features1), 20);
    features1.is_after_strong_heading = true;
    assert_eq!(engine.calculate_position_score(&features1), 30);
    features1.is_consecutive_strong_heading = true;
    assert_eq!(engine.calculate_position_score(&features1), 20);
}

#[test]
fn position_score_at_the_end_of_the_book() {
    let engine = ScoringEngine::new();
    let features = create_test_features(None, HeadingStrength::Strong, LengthFeature::Short, ContentFeature::Body, 9600);
    assert_eq!(engine.calculate_position_score(&features), 10);
    let strong_start = create_test_features(None, HeadingStrength::Strong, LengthFeature::Short, ContentFeature::Body, 0);
    assert_eq!(engine.calculate_position_score(&strong_start), 0);
}

#[test]
fn continuity_score_values() {
    let engine = ScoringEngine::new();
    let mut features = create_test_features(None, HeadingStrength::Weak, LengthFeature::Short, ContentFeature::Body, 5000);
    assert_eq!(engine.calculate_continuity_score(&features), None);
    features.numbering_continuity = Some(true);
    assert_eq!(engine.calculate_continuity_score(&features), Some(20));
    features.numbering_continuity = Some(false);
    assert_eq!(engine.calculate_continuity_score(&features), Some(-10));
}

#[test]
fn test_calculate_total_score() {
    let engine = ScoringEngine::new();
    let features = create_test_features(Some(1), HeadingStrength::Strong, LengthFeature::Medium, ContentFeature::Body, 5000);
    let score = engine.calculate_score(&features);
    assert!(score.total_score < 0);
    let features2 = create_test_features(None, HeadingStrength::Absent, LengthFeature::VeryShort, ContentFeature::Copyright, 100);
    let score2 = engine.calculate_score(&features2);
    assert!(score2.total_score > 300);
}

#[test]
fn total_is_weighted_sum_under_default_weights() {
    let engine = ScoringEngine::new();
    let features = create_test_features(Some(1), HeadingStrength::Strong, LengthFeature::Medium, ContentFeature::Body, 5000);
    let score = engine.calculate_score(&features);
    // toc -3.0*1.5, heading -3.0*1.2, length 0, content 0, position 0
    assert_eq!(score.total_score, -450 - 360);
    let features2 = create_test_features(None, HeadingStrength::Absent, LengthFeature::VeryShort, ContentFeature::Copyright, 100);
    let score2 = engine.calculate_score(&features2);
    // heading 1.0*1.2, length 3.0*1.0, content 5.0*1.0, position 2.0*0.8
    assert_eq!(score2.total_score, 120 + 300 + 500 + 160);
}

#[test]
fn custom_weights_change_the_total() {
    let mut engine = ScoringEngine::new();
    engine.set_weights(ScoreWeights { toc: 0, heading: 10, length: 0, content: 0, position: 0, continuity: 0 });
    assert_eq!(engine.get_weights().heading, 10);
    let features = create_test_features(Some(1), HeadingStrength::Strong, LengthFeature::Medium, ContentFeature::Body, 5000);
    assert_eq!(engine.calculate_score(&features).total_score, -300);
}
