use reading_units::decision_engine::DecisionEngine;
use reading_units::fallback_strategy::FallbackStrategy;
use reading_units::feature_extractor::FeatureExtractor;
use reading_units::reading_unit_builder::ReadingUnitBuilder;
use reading_units::scoring_engine::ScoringEngine;
use reading_units::types::{Heading, MergeDecision, Segment, SourceFormat};

fn create_segment(id: &str, chapter_id: i32, heading: Option<&str>, length: usize, position: u32) -> Segment {
    Segment {
        id: id.to_string(),
        chapter_id,
        heading: heading.map(|text| Heading { text: text.to_string(), level: None }),
        length,
        position_ratio: position,
        toc_level: None,
        source_format: SourceFormat::Epub,
        start_block_id: chapter_id,
        end_block_id: chapter_id,
    }
}

fn decide_all(segments: &[Segment]) -> Vec<(MergeDecision, String, Option<u32>)> {
    let extractor = FeatureExtractor::new();
    let scorer = ScoringEngine::new();
    let decider = DecisionEngine::new();
    let mut decisions = Vec::new();
    for (i, segment) in segments.iter().enumerate() {
        let prev = if i > 0 { Some(&segments[i - 1]) } else { None };
        let features = extractor.extract_features(segment, prev);
        let score = scorer.calculate_score(&features);
        decisions.push(decider.make_decision(&score, &features, segment));
    }
    decisions
}

#[test]
fn test_full_pipeline_simple_book() {
    let segments = vec![
        create_segment("seg-1", 1, Some("版权所有"), 100, 0),
        create_segment("seg-2", 2, Some("第一章"), 1500, 3300),
        create_segment("seg-3", 3, Some("第二章"), 2000, 6700),
    ];
    let decisions = decide_all(&segments);
    let mut builder = ReadingUnitBuilder::new(1);
    let units = builder.build(&segments, &decisions).unwrap();
    assert!(units.len() <= 3);
    assert_eq!(decisions[0].0, MergeDecision::Merge);
}

#[test]
fn test_full_pipeline_with_sections() {
    let mut segments = vec![
        create_segment("seg-1", 1, Some("第一章"), 1500, 0),
        create_segment("seg-2", 2, Some("1.1 小节"), 800, 3300),
        create_segment("seg-3", 3, Some("1.2 小节"), 900, 6700),
    ];
    segments[0].toc_level = Some(1);
    segments[1].toc_level = Some(2);
    segments[2].toc_level = Some(2);
    let decisions = decide_all(&segments);
    let mut builder = ReadingUnitBuilder::new(1);
    let units = builder.build(&segments, &decisions).unwrap();
    assert_eq!(units.len(), 3);
    assert_eq!(units[0].level, 1);
    assert_eq!(units[1].level, 2);
    assert_eq!(units[2].level, 2);
    assert_eq!(units[1].parent_id, Some(units[0].id.clone()));
    assert_eq!(units[2].parent_id, Some(units[0].id.clone()));
}

#[test]
fn test_fallback_strategy() {
    let segment = create_segment("seg-1", 1, Some("第一章"), 1500, 5000);
    let strategy = FallbackStrategy::new();
    let (decision, reason) = strategy.apply(&segment);
    assert_eq!(decision, MergeDecision::CreateNew);
    assert!(reason.contains("强章标题"));
}

#[test]
fn fallback_and_pipeline_agree_on_chapter_headings() {
    let segments = vec![
        create_segment("a", 1, Some("第一章 起点"), 900, 0),
        create_segment("b", 2, Some("Chapter 2"), 3000, 5000),
        create_segment("c", 3, Some("Part III"), 7000, 10000),
    ];
    let decisions = decide_all(&segments);
    let strategy = FallbackStrategy::new();
    for (segment, decision) in segments.iter().zip(decisions.iter()) {
        assert_eq!(decision.0, MergeDecision::CreateNew);
        assert_eq!(strategy.apply(segment).0, MergeDecision::CreateNew);
    }
}
