use reading_units::import_queue::ImportStatus;
use reading_units::irp::{extract_plain_text_from_runs, MarkType, TextMark, TextRun};

#[test]
fn test_extract_plain_text() {
    let runs = vec![
        TextRun { text: "Hello ".to_string(), marks: vec![] },
        TextRun { text: "World".to_string(), marks: vec![] },
    ];
    assert_eq!(extract_plain_text_from_runs(&runs), "Hello World");
}

#[test]
fn plain_text_of_no_runs_is_empty() {
    assert_eq!(extract_plain_text_from_runs(&[]), "");
    let runs = vec![TextRun {
        text: "测试".to_string(),
        marks: vec![TextMark { mark_type: MarkType::Bold, start: 0, end: 2, attributes: None }],
    }];
    assert_eq!(extract_plain_text_from_runs(&runs), "测试");
}

#[test]
fn test_import_status_equality() {
    assert_eq!(ImportStatus::Pending, ImportStatus::Pending);
    assert_eq!(ImportStatus::Parsing, ImportStatus::Parsing);
    assert_ne!(ImportStatus::Pending, ImportStatus::Parsing);
    assert_eq!(ImportStatus::Failed("error".to_string()), ImportStatus::Failed("error".to_string()));
}
