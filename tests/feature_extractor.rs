use reading_units::feature_extractor::FeatureExtractor;
use reading_units::types::{ContentFeature, Heading, HeadingStrength, LengthFeature, Segment, SourceFormat};

fn create_test_segment(heading_text: &str, length: usize, position: u32) -> Segment {
    Segment {
        id: "test-seg".to_string(),
        chapter_id: 1,
        heading: Some(Heading { text: heading_text.to_string(), level: None }),
        length,
        position_ratio: position,
        toc_level: None,
        source_format: SourceFormat::Epub,
        start_block_id: 1,
        end_block_id: 1,
    }
}

#[test]
fn test_extract_heading_strength_strong() {
    let extractor = FeatureExtractor::new();
    let segment = create_test_segment("第一章 开始", 1000, 1000);
    assert_eq!(extractor.extract_heading_strength(&segment), HeadingStrength::Strong);
}

#[test]
fn test_extract_heading_strength_weak() {
    let extractor = FeatureExtractor::new();
    let segment = create_test_segment("1.1 小节", 500, 2000);
    assert_eq!(extractor.extract_heading_strength(&segment), HeadingStrength::Weak);
}

#[test]
fn heading_strength_absent() {
    let extractor = FeatureExtractor::new();
    assert_eq!(extractor.extract_heading_strength(&create_test_segment("后记", 500, 2000)), HeadingStrength::Absent);
    let mut segment = create_test_segment("x", 500, 2000);
    segment.heading = None;
    assert_eq!(extractor.extract_heading_strength(&segment), HeadingStrength::Absent);
    assert_eq!(extractor.extract_heading_strength(&create_test_segment("§ 3 注释", 500, 2000)), HeadingStrength::Weak);
    assert_eq!(extractor.extract_heading_strength(&create_test_segment("Part IV", 500, 2000)), HeadingStrength::Strong);
}

#[test]
fn test_extract_length_feature() {
    let extractor = FeatureExtractor::new();
    assert_eq!(extractor.extract_length_feature(&create_test_segment("标题", 200, 1000)), LengthFeature::VeryShort);
    assert_eq!(extractor.extract_length_feature(&create_test_segment("标题", 500, 2000)), LengthFeature::Short);
    assert_eq!(extractor.extract_length_feature(&create_test_segment("标题", 1500, 3000)), LengthFeature::Medium);
}

#[test]
fn length_bucket_edges() {
    let extractor = FeatureExtractor::new();
    assert_eq!(extractor.extract_length_feature(&create_test_segment("t", 299, 0)), LengthFeature::VeryShort);
    assert_eq!(extractor.extract_length_feature(&create_test_segment("t", 300, 0)), LengthFeature::Short);
    assert_eq!(extractor.extract_length_feature(&create_test_segment("t", 800, 0)), LengthFeature::Medium);
    assert_eq!(extractor.extract_length_feature(&create_test_segment("t", 2000, 0)), LengthFeature::Long);
    assert_eq!(extractor.extract_length_feature(&create_test_segment("t", 5999, 0)), LengthFeature::Long);
    assert_eq!(extractor.extract_length_feature(&create_test_segment("t", 6000, 0)), LengthFeature::VeryLong);
}

#[test]
fn test_extract_content_feature_copyright() {
    let extractor = FeatureExtractor::new();
    let segment = create_test_segment("版权所有", 100, 100);
    assert_eq!(extractor.extract_content_feature(&segment), ContentFeature::Copyright);
}

#[test]
fn test_extract_content_feature_toc() {
    let extractor = FeatureExtractor::new();
    let segment = create_test_segment("目录", 50, 200);
    assert_eq!(extractor.extract_content_feature(&segment), ContentFeature::Toc);
}

#[test]
fn test_extract_content_feature_preface() {
    let extractor = FeatureExtractor::new();
    let segment = create_test_segment("序言", 200, 300);
    assert_eq!(extractor.extract_content_feature(&segment), ContentFeature::Preface);
}

#[test]
fn content_feature_ignores_case() {
    let extractor = FeatureExtractor::new();
    assert_eq!(extractor.extract_content_feature(&create_test_segment("TABLE OF CONTENTS", 50, 0)), ContentFeature::Toc);
    assert_eq!(extractor.extract_content_feature(&create_test_segment("All Rights Reserved", 50, 0)), ContentFeature::Copyright);
    assert_eq!(extractor.extract_content_feature(&create_test_segment("Foreword", 50, 0)), ContentFeature::Preface);
    assert_eq!(extractor.extract_content_feature(&create_test_segment("第一章", 50, 0)), ContentFeature::Body);
}

#[test]
fn test_extract_section_number() {
    let extractor = FeatureExtractor::new();
    let segment1 = create_test_segment("1.2.3 小节", 500, 2000);
    assert_eq!(extractor.extract_section_number(&segment1), Some(vec![1, 2, 3]));
    let segment2 = create_test_segment("2.1 小节", 500, 3000);
    assert_eq!(extractor.extract_section_number(&segment2), Some(vec![2, 1]));
    let segment3 = create_test_segment("小节", 500, 3000);
    assert_eq!(extractor.extract_section_number(&segment3), None);
}

#[test]
fn test_is_continuous_numbering() {
    let extractor = FeatureExtractor::new();
    assert!(extractor.is_continuous_numbering(&[1, 1], &[1, 2]));
    assert!(!extractor.is_continuous_numbering(&[1, 1], &[1, 3]));
    assert!(!extractor.is_continuous_numbering(&[1, 1], &[2, 1]));
    assert!(!extractor.is_continuous_numbering(&[1, 1], &[1, 1, 1]));
}

#[test]
fn numbering_continuity_from_headings() {
    let extractor = FeatureExtractor::new();
    let prev = create_test_segment("1.1", 500, 0);
    let cases = [("1.2", Some(true)), ("1.3", Some(false)), ("2.1", Some(false)), ("1.1.1", Some(false)), ("引言", None)];
    for (heading, expected) in cases {
        let curr = create_test_segment(heading, 500, 0);
        assert_eq!(extractor.extract_numbering_continuity(&curr, Some(&prev)), expected);
    }
    let curr = create_test_segment("1.2", 500, 0);
    assert_eq!(extractor.extract_numbering_continuity(&curr, None), None);
}

#[test]
fn features_read_the_previous_segment() {
    let extractor = FeatureExtractor::new();
    let prev = create_test_segment("第一章", 3000, 0);
    let curr = create_test_segment("第二章", 3000, 5000);
    let f = extractor.extract_features(&curr, Some(&prev));
    assert!(f.is_after_strong_heading);
    assert!(f.is_consecutive_strong_heading);
    assert_eq!(f.heading_feature, HeadingStrength::Strong);
    assert_eq!(f.length_feature, LengthFeature::Long);
    assert_eq!(f.position_in_book, 5000);
    assert_eq!(f.numbering_continuity, None);
    let first = extractor.extract_features(&prev, None);
    assert!(!first.is_after_strong_heading);
    assert!(!first.is_consecutive_strong_heading);
}
