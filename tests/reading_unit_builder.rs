use reading_units::reading_unit_builder::ReadingUnitBuilder;
use reading_units::types::{ContentType, Heading, MergeDecision, Segment, SourceFormat};

fn create_test_segment(id: &str, chapter_id: i32, heading: &str, length: usize) -> Segment {
    Segment {
        id: id.to_string(),
        chapter_id,
        heading: Some(Heading { text: heading.to_string(), level: None }),
        length,
        position_ratio: 5000,
        toc_level: None,
        source_format: SourceFormat::Epub,
        start_block_id: chapter_id,
        end_block_id: chapter_id,
    }
}

fn new_unit(level: u32) -> (MergeDecision, String, Option<u32>) {
    (MergeDecision::CreateNew, "新章节".to_string(), Some(level))
}

fn merge() -> (MergeDecision, String, Option<u32>) {
    (MergeDecision::Merge, "合并".to_string(), None)
}

#[test]
fn test_build_simple_structure() {
    let mut builder = ReadingUnitBuilder::new(1);
    let segments = vec![create_test_segment("seg-1", 1, "第一章", 1000), create_test_segment("seg-2", 2, "第二章", 1500)];
    let decisions = vec![
        (MergeDecision::CreateNew, "新章节".to_string(), Some(1)),
        (MergeDecision::CreateNew, "新章节".to_string(), Some(1)),
    ];
    let units = builder.build(&segments, &decisions).unwrap();
    assert_eq!(units.len(), 2);
    assert_eq!(units[0].title, "第一章");
    assert_eq!(units[1].title, "第二章");
    assert_eq!(units[0].level, 1);
    assert_eq!(units[1].level, 1);
}

#[test]
fn test_build_with_merge() {
    let mut builder = ReadingUnitBuilder::new(1);
    let segments = vec![create_test_segment("seg-1", 1, "版权页", 100), create_test_segment("seg-2", 2, "第一章", 1000)];
    let decisions = vec![
        (MergeDecision::CreateNew, "新章节".to_string(), Some(1)),
        (MergeDecision::Merge, "合并".to_string(), None),
    ];
    let units = builder.build(&segments, &decisions).unwrap();
    assert_eq!(units.len(), 1);
    assert_eq!(units[0].segment_ids.len(), 2);
    assert_eq!(units[0].start_block_id, 1);
    assert_eq!(units[0].end_block_id, 2);
}

#[test]
fn test_build_two_level_structure() {
    let mut builder = ReadingUnitBuilder::new(1);
    let segments = vec![
        create_test_segment("seg-1", 1, "第一章", 1000),
        create_test_segment("seg-2", 2, "1.1 小节", 500),
        create_test_segment("seg-3", 3, "1.2 小节", 600),
    ];
    let decisions = vec![
        (MergeDecision::CreateNew, "新章节".to_string(), Some(1)),
        (MergeDecision::CreateNew, "新小节".to_string(), Some(2)),
        (MergeDecision::CreateNew, "新小节".to_string(), Some(2)),
    ];
    let units = builder.build(&segments, &decisions).unwrap();
    assert_eq!(units.len(), 3);
    assert_eq!(units[0].level, 1);
    assert_eq!(units[1].level, 2);
    assert_eq!(units[2].level, 2);
    assert_eq!(units[0].parent_id, None);
    assert_eq!(units[1].parent_id, Some(units[0].id.clone()));
    assert_eq!(units[2].parent_id, Some(units[0].id.clone()));
}

#[test]
fn three_chapters_give_three_top_level_units() {
    let mut builder = ReadingUnitBuilder::new(7);
    let segments = vec![
        create_test_segment("a", 1, "一", 1000),
        create_test_segment("b", 2, "二", 1000),
        create_test_segment("c", 3, "三", 1000),
    ];
    let units = builder.build(&segments, &[new_unit(1), new_unit(1), new_unit(1)]).unwrap();
    assert_eq!(units.len(), 3);
    for (u, id) in units.iter().zip(["a", "b", "c"]) {
        assert_eq!(u.level, 1);
        assert_eq!(u.parent_id, None);
        assert_eq!(u.segment_ids, vec![id.to_string()]);
    }
    assert_eq!(units[0].id, "ru-7-1");
    assert_eq!(units[1].id, "ru-7-2");
    assert_eq!(units[2].id, "ru-7-3");
}

#[test]
fn merges_extend_one_unit() {
    let mut builder = ReadingUnitBuilder::new(1);
    let mut segments = vec![
        create_test_segment("a", 1, "一", 1000),
        create_test_segment("b", 2, "二", 1000),
        create_test_segment("c", 3, "三", 1000),
    ];
    segments[2].end_block_id = 42;
    let units = builder.build(&segments, &[new_unit(1), merge(), merge()]).unwrap();
    assert_eq!(units.len(), 1);
    assert_eq!(units[0].segment_ids, vec!["a".to_string(), "b".to_string(), "c".to_string()]);
    assert_eq!(units[0].start_block_id, 1);
    assert_eq!(units[0].end_block_id, 42);
}

#[test]
fn leading_merge_opens_an_implicit_chapter() {
    let mut builder = ReadingUnitBuilder::new(3);
    let mut segments = vec![create_test_segment("a", 5, "x", 100), create_test_segment("b", 6, "y", 100)];
    segments[0].heading = None;
    segments[0].toc_level = Some(3);
    let units = builder.build(&segments, &[merge(), merge()]).unwrap();
    assert_eq!(units.len(), 1);
    assert_eq!(units[0].level, 1);
    assert_eq!(units[0].parent_id, None);
    assert_eq!(units[0].title, "未命名章节 5");
    assert_eq!(units[0].source, "toc");
    assert_eq!(units[0].id, "ru-3-1");
}

#[test]
fn orphan_section_has_no_parent() {
    let mut builder = ReadingUnitBuilder::new(1);
    let segments = vec![create_test_segment("a", 1, "1.1", 1000), create_test_segment("b", 2, "1.2", 1000)];
    let units = builder.build(&segments, &[new_unit(2), new_unit(2)]).unwrap();
    assert_eq!(units.len(), 2);
    assert_eq!(units[0].parent_id, None);
    assert_eq!(units[1].parent_id, None);
    assert_eq!(units[0].source, "heuristic");
}

#[test]
fn length_mismatch_is_an_error() {
    let mut builder = ReadingUnitBuilder::new(1);
    let segments = vec![create_test_segment("a", 1, "一", 1000)];
    assert!(builder.build(&segments, &[]).is_err());
    let units = builder.build(&segments, &[new_unit(1)]).unwrap();
    assert_eq!(units[0].id, "ru-1-1");
}

#[test]
fn unit_ids_continue_across_builds() {
    let mut builder = ReadingUnitBuilder::new(2);
    let segments = vec![create_test_segment("a", 1, "一", 1000)];
    let first = builder.build(&segments, &[new_unit(1)]).unwrap();
    let second = builder.build(&segments, &[new_unit(1)]).unwrap();
    assert_eq!(first[0].id, "ru-2-1");
    assert_eq!(second[0].id, "ru-2-2");
}

#[test]
fn empty_stream_builds_nothing() {
    let mut builder = ReadingUnitBuilder::new(1);
    assert_eq!(builder.build(&[], &[]).unwrap().len(), 0);
}

#[test]
fn test_determine_content_type_copyright() {
    let builder = ReadingUnitBuilder::new(1);
    let segment = create_test_segment("seg-1", 1, "版权所有", 100);
    assert_eq!(builder.determine_content_type(&segment, 0, 10), Some(ContentType::Frontmatter));
}

#[test]
fn test_determine_content_type_toc() {
    let builder = ReadingUnitBuilder::new(1);
    let segment = create_test_segment("seg-1", 1, "目录", 50);
    assert_eq!(builder.determine_content_type(&segment, 1, 10), Some(ContentType::Frontmatter));
}

#[test]
fn test_determine_content_type_preface() {
    let builder = ReadingUnitBuilder::new(1);
    let segment = create_test_segment("seg-1", 1, "序言", 200);
    assert_eq!(builder.determine_content_type(&segment, 2, 10), Some(ContentType::Frontmatter));
}

#[test]
fn test_determine_content_type_body() {
    let builder = ReadingUnitBuilder::new(1);
    let segment = create_test_segment("seg-1", 1, "第一章", 1000);
    assert_eq!(builder.determine_content_type(&segment, 5, 10), Some(ContentType::Body));
}

#[test]
fn test_determine_content_type_backmatter() {
    let builder = ReadingUnitBuilder::new(1);
    let segment = create_test_segment("seg-1", 1, "后记", 500);
    assert_eq!(builder.determine_content_type(&segment, 9, 10), Some(ContentType::Backmatter));
}

#[test]
fn content_type_by_position() {
    let builder = ReadingUnitBuilder::new(1);
    let short = create_test_segment("s", 1, "无题", 100);
    assert_eq!(builder.determine_content_type(&short, 0, 40), Some(ContentType::Frontmatter));
    assert_eq!(builder.determine_content_type(&short, 2, 40), Some(ContentType::Body));
    assert_eq!(builder.determine_content_type(&short, 38, 40), Some(ContentType::Backmatter));
    let long = create_test_segment("l", 1, "无题", 800);
    assert_eq!(builder.determine_content_type(&long, 0, 40), Some(ContentType::Body));
}
