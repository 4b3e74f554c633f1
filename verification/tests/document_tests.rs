use constella::document::{
    attach_content, chunk_end, is_textual, prepare_document, prepare_document_batch, wants_content, FieldName,
    FileDocument,
};
use constella::error::IndexError;
use constella::file_info::{infer_mime, FileInfo, FileMeta};
use constella::limits::{MAX_CONTENT_SIZE, PROCESSOR_CHUNK_SIZE};

fn meta(size: u64) -> FileMeta {
    FileMeta { size, modified: Some(1_700_000_000), created: None, is_dir: false }
}

fn record(path: &str, size: u64, content: Option<&str>) -> FileInfo {
    FileInfo::from_path(path, Some(meta(size)))
        .unwrap()
        .with_content(content.map(|c| c.to_string()))
}

fn value<'a>(doc: &'a FileDocument, field: FieldName) -> Option<&'a str> {
    doc.get_first(field).map(|s| s.as_str())
}

#[test]
fn record_takes_name_and_media_type_from_the_path() {
    let info = FileInfo::from_path("/data/docs/a.txt", Some(meta(11))).unwrap();
    assert_eq!(info.path, "/data/docs/a.txt");
    assert_eq!(info.name, "a.txt");
    assert_eq!(info.size, 11);
    assert_eq!(info.modified, Some(1_700_000_000));
    assert_eq!(info.created, None);
    assert!(!info.is_dir);
    assert_eq!(info.mime_type.as_deref(), Some("text/plain"));
    assert_eq!(info.content, None);
}

#[test]
fn record_without_metadata_is_a_metadata_failure() {
    let r = FileInfo::from_path("/data/docs/a.txt", None);
    assert!(matches!(r, Err(IndexError::ReadMetadataFailure)));
}

#[test]
fn media_type_comes_from_the_extension_alone() {
    assert_eq!(infer_mime("a.txt").as_deref(), Some("text/plain"));
    assert_eq!(infer_mime("A.TXT").as_deref(), Some("text/plain"));
    assert_eq!(infer_mime("data.json").as_deref(), Some("application/json"));
    assert_eq!(infer_mime("c.bin").as_deref(), Some("application/octet-stream"));
    assert_eq!(infer_mime("README"), None);
    assert_eq!(infer_mime(".bashrc"), None);
    assert_eq!(infer_mime("weird.zzzzzz"), None);
}

#[test]
fn textual_media_types() {
    assert!(is_textual("text/plain"));
    assert!(is_textual("text/markdown"));
    assert!(is_textual("text/"));
    assert!(is_textual("application/json"));
    assert!(is_textual("application/javascript"));
    assert!(is_textual("application/xml"));
    assert!(is_textual("application/x-yaml"));
    assert!(is_textual("application/x-toml"));
    assert!(!is_textual("application/octet-stream"));
    assert!(!is_textual("application/jsonx"));
    assert!(!is_textual("image/png"));
    assert!(!is_textual("text"));
    assert!(!is_textual(""));
}

#[test]
fn content_is_wanted_up_to_the_limit() {
    assert_eq!(MAX_CONTENT_SIZE, 10 * 1024 * 1024);
    assert!(wants_content(&record("/d/a.txt", 0, None)));
    assert!(wants_content(&record("/d/a.txt", 10_000_000, None)));
    assert!(wants_content(&record("/d/a.txt", MAX_CONTENT_SIZE, None)));
    assert!(!wants_content(&record("/d/a.txt", MAX_CONTENT_SIZE + 1, None)));
    assert!(!wants_content(&record("/d/c.bin", 10, None)));
    assert!(!wants_content(&record("/d/noext", 10, None)));
}

#[test]
fn directories_have_no_content() {
    let dir = FileInfo::from_path(
        "/d/notes.txt",
        Some(FileMeta { size: 10, modified: None, created: None, is_dir: true }),
    )
    .unwrap();
    assert!(!wants_content(&dir));
}

#[test]
fn a_textual_file_of_ten_million_bytes_is_indexed_with_content() {
    let doc = prepare_document(&record("/d/big.txt", 10_000_000, Some("hello")));
    assert_eq!(value(&doc, FieldName::Content), Some("hello"));
}

#[test]
fn a_textual_file_at_the_limit_keeps_its_content_and_one_byte_more_loses_it() {
    let at = prepare_document(&record("/d/big.txt", MAX_CONTENT_SIZE, Some("hello")));
    assert_eq!(value(&at, FieldName::Content), Some("hello"));
    let over = prepare_document(&record("/d/big.txt", MAX_CONTENT_SIZE + 1, Some("hello")));
    assert_eq!(value(&over, FieldName::Content), None);
    assert_eq!(value(&over, FieldName::Path), Some("/d/big.txt"));
    assert_eq!(value(&over, FieldName::Size), Some("10485761"));
}

#[test]
fn document_of_a_text_file_has_every_field_in_order() {
    let doc = prepare_document(&record("/data/docs/a.txt", 11, Some("hello world")));
    let fields: Vec<(FieldName, &str)> =
        doc.fields.iter().map(|f| (f.field, f.text.as_str())).collect();
    assert_eq!(
        fields,
        vec![
            (FieldName::Path, "/data/docs/a.txt"),
            (FieldName::Name, "a.txt"),
            (FieldName::Size, "11"),
            (FieldName::MimeType, "text/plain"),
            (FieldName::Extension, "txt"),
            (FieldName::Modified, "1700000000"),
            (FieldName::Content, "hello world"),
        ]
    );
    assert_eq!(doc.len(), 7);
}

#[test]
fn document_of_a_binary_file_has_no_content() {
    let doc = prepare_document(&record("/data/docs/c.bin", 1024, Some("ignored")));
    assert_eq!(value(&doc, FieldName::Content), None);
    assert_eq!(value(&doc, FieldName::MimeType), Some("application/octet-stream"));
    assert_eq!(value(&doc, FieldName::Extension), Some("bin"));
}

#[test]
fn document_of_a_file_whose_content_could_not_be_read_has_no_content() {
    let doc = prepare_document(&record("/data/docs/latin1.txt", 4, None));
    assert_eq!(value(&doc, FieldName::Content), None);
    assert_eq!(value(&doc, FieldName::Path), Some("/data/docs/latin1.txt"));
    assert_eq!(value(&doc, FieldName::Name), Some("latin1.txt"));
    assert_eq!(value(&doc, FieldName::Size), Some("4"));
    assert_eq!(value(&doc, FieldName::MimeType), Some("text/plain"));
}

#[test]
fn document_without_media_type_or_time_stores_the_empty_type() {
    let info = FileInfo::from_path(
        "/data/docs/Makefile",
        Some(FileMeta { size: 3, modified: None, created: None, is_dir: false }),
    )
    .unwrap();
    let doc = prepare_document(&info);
    assert_eq!(value(&doc, FieldName::MimeType), Some(""));
    assert_eq!(value(&doc, FieldName::Extension), Some(""));
    assert_eq!(value(&doc, FieldName::Modified), None);
    assert_eq!(doc.len(), 5);
}

#[test]
fn a_batch_gives_one_document_for_each_record_in_order() {
    let infos = vec![
        record("/d/a.txt", 1, Some("x")),
        record("/d/b.md", 2, Some("y")),
        record("/d/c.bin", 3, None),
    ];
    let docs = prepare_document_batch(&infos);
    assert_eq!(docs.len(), 3);
    assert_eq!(value(&docs[0], FieldName::Name), Some("a.txt"));
    assert_eq!(value(&docs[1], FieldName::Name), Some("b.md"));
    assert_eq!(value(&docs[2], FieldName::Name), Some("c.bin"));
    assert!(prepare_document_batch(&Vec::new()).is_empty());
}

#[test]
fn first_value_wins_where_a_field_is_there_twice() {
    let mut doc = FileDocument::new();
    doc.add_text(FieldName::Name, "first".to_string());
    doc.add_text(FieldName::Name, "second".to_string());
    assert_eq!(value(&doc, FieldName::Name), Some("first"));
    assert_eq!(value(&doc, FieldName::Path), None);
}

#[test]
fn chunks_are_a_quarter_of_a_batch() {
    assert_eq!(PROCESSOR_CHUNK_SIZE, 2_500);
    assert_eq!(chunk_end(10_000, 0), 2_500);
    assert_eq!(chunk_end(10_000, 2_500), 5_000);
    assert_eq!(chunk_end(10_000, 7_500), 10_000);
    assert_eq!(chunk_end(500, 0), 500);
    assert_eq!(chunk_end(2_501, 0), 2_500);
    assert_eq!(chunk_end(2_501, 2_500), 2_501);
    assert_eq!(chunk_end(0, 0), 0);
}

#[test]
fn content_that_could_not_be_read_is_a_content_failure() {
    let wanted = FileInfo::from_path("/d/a.txt", Some(meta(5))).unwrap();
    let (info, failure) = attach_content(wanted, None);
    assert_eq!(failure, Some(IndexError::ReadContentFailure));
    assert_eq!(info.content, None);
    assert_eq!(info.path, "/d/a.txt");
}

#[test]
fn content_is_attached_where_it_is_wanted() {
    let wanted = FileInfo::from_path("/d/a.txt", Some(meta(5))).unwrap();
    let (info, failure) = attach_content(wanted, Some("hello".to_string()));
    assert_eq!(failure, None);
    assert_eq!(info.content.as_deref(), Some("hello"));
    let binary = FileInfo::from_path("/d/c.bin", Some(meta(5))).unwrap();
    let (info, failure) = attach_content(binary, Some("hello".to_string()));
    assert_eq!(failure, None);
    assert_eq!(info.content, None);
    let unread = FileInfo::from_path("/d/c.bin", Some(meta(5))).unwrap();
    let (_, failure) = attach_content(unread, None);
    assert_eq!(failure, None);
}
