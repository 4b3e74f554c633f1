use constella::document::{prepare_document, FieldName, FileDocument};
use constella::error::IndexError;
use constella::file_info::{FileInfo, FileMeta};
use constella::manager::{project_hits, stats_line};
use constella::search::{format_size, project_hit};

fn stored(path: Option<&str>, name: Option<&str>, size: Option<&str>, mime: Option<&str>) -> FileDocument {
    let mut d = FileDocument::new();
    if let Some(p) = path {
        d.add_text(FieldName::Path, p.to_string());
    }
    if let Some(n) = name {
        d.add_text(FieldName::Name, n.to_string());
    }
    if let Some(s) = size {
        d.add_text(FieldName::Size, s.to_string());
    }
    if let Some(m) = mime {
        d.add_text(FieldName::MimeType, m.to_string());
    }
    d
}

#[test]
fn sizes_below_a_kibibyte_are_in_bytes() {
    assert_eq!(format_size(0), "0 B");
    assert_eq!(format_size(1), "1 B");
    assert_eq!(format_size(1_023), "1023 B");
}

#[test]
fn sizes_are_written_with_two_decimals_in_the_largest_unit() {
    assert_eq!(format_size(1_024), "1.00 KiB");
    assert_eq!(format_size(1_536), "1.50 KiB");
    assert_eq!(format_size(10_000_000), "9.54 MiB");
    assert_eq!(format_size(10_485_760), "10.00 MiB");
    assert_eq!(format_size(1_048_575), "1024.00 KiB");
    assert_eq!(format_size(1_048_576), "1.00 MiB");
    assert_eq!(format_size(1_073_741_824), "1.00 GiB");
    assert_eq!(format_size(1_099_511_627_776), "1.00 TiB");
    assert_eq!(format_size(5 * 1_099_511_627_776 + 549_755_813_888), "5.50 TiB");
    assert_eq!(format_size(u64::MAX), "16777216.00 TiB");
}

#[test]
fn sizes_round_to_the_nearest_hundredth_and_a_tie_to_the_even_one() {
    assert_eq!(format_size(1_024 + 5), "1.00 KiB");
    assert_eq!(format_size(1_024 + 6), "1.01 KiB");
    assert_eq!(format_size(1_024 + 128), "1.12 KiB");
    assert_eq!(format_size(1_024 + 384), "1.38 KiB");
    assert_eq!(format_size(2_047), "2.00 KiB");
}

#[test]
fn sizes_agree_with_floating_point_formatting() {
    let units: [(u64, &str); 4] =
        [(1 << 10, "KiB"), (1 << 20, "MiB"), (1 << 30, "GiB"), (1 << 40, "TiB")];
    let mut size: u64 = 1_024;
    while size < (1u64 << 52) {
        let (unit, label) = *units.iter().rev().find(|(u, _)| size >= *u).unwrap();
        let expected = format!("{:.2} {}", size as f64 / unit as f64, label);
        assert_eq!(format_size(size), expected, "for {}", size);
        size = size + size / 3 + 17;
    }
}

#[test]
fn a_hit_shows_the_stored_fields() {
    let hit = project_hit(&stored(Some("/d/a.txt"), Some("a.txt"), Some("2048"), Some("text/plain")))
        .unwrap();
    assert_eq!(hit.path, "/d/a.txt");
    assert_eq!(hit.name, "a.txt");
    assert_eq!(hit.size, 2_048);
    assert_eq!(hit.size_formatted, "2.00 KiB");
    assert_eq!(hit.modified_formatted, "Unknown");
    assert_eq!(hit.mime_type, "text/plain");
    assert!(!hit.is_dir);
    assert!(hit.matches.is_none());
}

#[test]
fn a_hit_without_media_type_counts_as_a_directory() {
    let absent = project_hit(&stored(Some("/d/sub"), Some("sub"), Some("0"), None)).unwrap();
    assert_eq!(absent.mime_type, "");
    assert!(absent.is_dir);
    let empty = project_hit(&stored(Some("/d/sub"), Some("sub"), Some("0"), Some(""))).unwrap();
    assert!(empty.is_dir);
}

#[test]
fn a_size_that_cannot_be_read_is_zero() {
    for size in [None, Some(""), Some("12x"), Some("-4"), Some("99999999999999999999999")] {
        let hit = project_hit(&stored(Some("/d/a"), Some("a"), size, Some("text/plain"))).unwrap();
        assert_eq!(hit.size, 0);
        assert_eq!(hit.size_formatted, "0 B");
    }
}

#[test]
fn a_hit_needs_its_path_and_its_name() {
    assert!(matches!(
        project_hit(&stored(None, Some("a"), Some("1"), None)),
        Err(IndexError::MissingPath)
    ));
    assert!(matches!(
        project_hit(&stored(Some("/d/a"), None, Some("1"), None)),
        Err(IndexError::MissingName)
    ));
    assert!(matches!(project_hit(&stored(None, None, None, None)), Err(IndexError::MissingPath)));
}

#[test]
fn what_was_indexed_is_what_a_hit_shows() {
    let info = FileInfo::from_path(
        "/data/docs/report.json",
        Some(FileMeta { size: 123_456_789, modified: Some(5), created: Some(4), is_dir: false }),
    )
    .unwrap();
    let hit = project_hit(&prepare_document(&info)).unwrap();
    assert_eq!(hit.path, "/data/docs/report.json");
    assert_eq!(hit.name, "report.json");
    assert_eq!(hit.size, 123_456_789);
    assert_eq!(hit.size_formatted, "117.74 MiB");
    assert_eq!(hit.mime_type, "application/json");
    assert!(!hit.is_dir);
}

#[test]
fn hits_come_one_for_each_document_in_order() {
    let docs = vec![
        stored(Some("/d/a"), Some("a"), Some("1"), Some("x/y")),
        stored(Some("/d/b"), Some("b"), Some("2"), None),
    ];
    let hits = project_hits(&docs).unwrap();
    assert_eq!(hits.len(), 2);
    assert_eq!(hits[0].path, "/d/a");
    assert_eq!(hits[1].path, "/d/b");
    assert!(project_hits(&Vec::new()).unwrap().is_empty());
}

#[test]
fn the_first_document_that_cannot_become_a_hit_fails_the_result() {
    let docs = vec![
        stored(Some("/d/a"), Some("a"), Some("1"), None),
        stored(Some("/d/b"), None, None, None),
        stored(None, Some("c"), None, None),
    ];
    assert!(matches!(project_hits(&docs), Err(IndexError::MissingName)));
}

#[test]
fn the_line_of_the_statistics() {
    assert_eq!(stats_line(0), "Index contains 0 documents");
    assert_eq!(stats_line(250_000), "Index contains 250000 documents");
}

#[test]
fn every_failure_has_its_message() {
    assert_eq!(IndexError::NoSelection.message(), "No directory selected");
    assert_eq!(IndexError::InvalidRoot.message(), "Directory does not exist");
    assert_eq!(IndexError::SessionBusy.message(), "Indexing already in progress");
    assert_eq!(IndexError::ReadMetadataFailure.message(), "Failed to get metadata");
    assert_eq!(IndexError::ReadContentFailure.message(), "Failed to decode file content");
    assert_eq!(IndexError::WriteAppendFailure.message(), "Failed to add document");
    assert_eq!(IndexError::CommitFailure.message(), "Failed to commit");
    assert_eq!(IndexError::CleanupTimeout.message(), "Final cleanup timed out");
    assert_eq!(IndexError::BadQuery.message(), "Failed to parse query");
    assert_eq!(IndexError::NoIndex.message(), "Failed to get index reader");
    assert_eq!(IndexError::SchemaMismatch.message(), "Index schema does not match");
    assert_eq!(IndexError::WriterUnavailable.message(), "Failed to create index writer");
    assert_eq!(IndexError::MergeFailure.message(), "Merging threads error");
    assert_eq!(IndexError::SearchFailure.message(), "Search failed");
    assert_eq!(IndexError::MissingPath.message(), "Document missing path field");
    assert_eq!(IndexError::MissingName.message(), "Document missing name field");
}

#[test]
fn failures_of_one_entry_do_not_end_the_session() {
    assert!(IndexError::ReadMetadataFailure.recoverable());
    assert!(IndexError::ReadContentFailure.recoverable());
    assert!(IndexError::WriteAppendFailure.recoverable());
    assert!(IndexError::CleanupTimeout.recoverable());
    assert!(!IndexError::CommitFailure.recoverable());
    assert!(!IndexError::InvalidRoot.recoverable());
    assert!(!IndexError::SessionBusy.recoverable());
    assert!(!IndexError::BadQuery.recoverable());
    assert!(!IndexError::NoIndex.recoverable());
}
