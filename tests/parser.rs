use reading_units::parser::{BlockData, ChapterData, ChapterInfo, MarkdownParser, ParseQuality, ParseResult, PdfParser};

#[test]
fn test_parse_quality_equality() {
    assert_eq!(ParseQuality::Native, ParseQuality::Native);
    assert_eq!(ParseQuality::Light, ParseQuality::Light);
    assert_ne!(ParseQuality::Native, ParseQuality::Light);
}

#[test]
fn test_chapter_data_creation() {
    let chapter = ChapterData {
        title: "第一章".to_string(),
        blocks: vec![],
        confidence: "explicit".to_string(),
        raw_html: None,
        render_mode: "irp".to_string(),
    };
    assert_eq!(chapter.title, "第一章");
    assert_eq!(chapter.blocks.len(), 0);
    assert_eq!(chapter.confidence, "explicit");
    assert_eq!(chapter.render_mode, "irp");
}

#[test]
fn test_block_data_creation() {
    let block = BlockData { block_type: "paragraph".to_string(), runs: vec![] };
    assert_eq!(block.block_type, "paragraph");
    assert_eq!(block.runs.len(), 0);
}

#[test]
fn test_parse_result_creation() {
    let result = ParseResult { chapters: vec![], total_blocks: 0, quality: ParseQuality::Native };
    assert_eq!(result.chapters.len(), 0);
    assert_eq!(result.total_blocks, 0);
    assert_eq!(result.quality, ParseQuality::Native);
}

#[test]
fn test_chapter_info_creation() {
    let info = ChapterInfo { title: "测试章节".to_string(), confidence: "explicit".to_string(), start_index: 0 };
    assert_eq!(info.title, "测试章节");
    assert_eq!(info.confidence, "explicit");
    assert_eq!(info.start_index, 0);
}

#[test]
fn test_md_parser_creation() {
    let parser = MarkdownParser::new();
    assert_eq!(parser.get_quality(), ParseQuality::Native);
    assert_eq!(parser.supported_extensions(), vec!["md", "markdown"]);
}

#[test]
fn test_pdf_parser_creation() {
    let parser = PdfParser::new();
    assert_eq!(parser.get_quality(), ParseQuality::Light);
    assert_eq!(parser.supported_extensions(), vec!["pdf"]);
}

#[test]
fn test_split_into_blocks() {
    let parser = PdfParser::new();
    let text = "第一段文本。\n这是第一段的第二行。\n\n第二段文本。\n\n第三段文本。";
    let blocks = parser.split_into_blocks(text);
    assert_eq!(blocks.len(), 3);
    assert_eq!(blocks[0].block_type, "paragraph");
    assert_eq!(blocks[0].runs[0].text, "第一段文本。 这是第一段的第二行。");
    assert_eq!(blocks[1].runs[0].text, "第二段文本。");
    assert_eq!(blocks[2].runs[0].text, "第三段文本。");
}

#[test]
fn pdf_parser_test_split_single_paragraph() {
    let parser = PdfParser::new();
    let blocks = parser.split_into_blocks("这是一段没有空行的文本。");
    assert_eq!(blocks.len(), 1);
    assert_eq!(blocks[0].runs[0].text, "这是一段没有空行的文本。");
}

#[test]
fn pdf_parser_test_split_with_multiple_empty_lines() {
    let parser = PdfParser::new();
    let blocks = parser.split_into_blocks("第一段。\n\n\n\n第二段。");
    assert_eq!(blocks.len(), 2);
    assert_eq!(blocks[0].runs[0].text, "第一段。");
    assert_eq!(blocks[1].runs[0].text, "第二段。");
}

#[test]
fn test_empty_text() {
    let parser = PdfParser::new();
    assert_eq!(parser.split_into_blocks("").len(), 0);
}

#[test]
fn pdf_parser_test_only_whitespace() {
    let parser = PdfParser::new();
    assert_eq!(parser.split_into_blocks("   \n\n   \n   ").len(), 0);
}

#[test]
fn test_newline_replacement() {
    let parser = PdfParser::new();
    let blocks = parser.split_into_blocks("第一行\n第二行\n第三行");
    assert_eq!(blocks.len(), 1);
    assert_eq!(blocks[0].runs[0].text, "第一行 第二行 第三行");
}

#[test]
fn test_paragraph_trimming() {
    let parser = PdfParser::new();
    let blocks = parser.split_into_blocks("  第一段  \n\n  第二段  ");
    assert_eq!(blocks.len(), 2);
    assert_eq!(blocks[0].runs[0].text, "第一段");
    assert_eq!(blocks[1].runs[0].text, "第二段");
}

#[test]
fn odd_run_of_line_breaks_leaves_one_in_the_next_paragraph() {
    let parser = PdfParser::new();
    let blocks = parser.split_into_blocks("a\n\n\nb\u{3000}");
    assert_eq!(blocks.len(), 2);
    assert_eq!(blocks[1].runs[0].text, "b");
    assert!(blocks[1].runs[0].marks.is_empty());
}
