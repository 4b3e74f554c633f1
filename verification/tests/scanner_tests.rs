use constella::file_info::{FileInfo, FileMeta};
use constella::limits::{SCAN_BATCH_SIZE, SCAN_YIELD_THRESHOLD};
use constella::scanner::{always_skipped, should_emit, FileScanner, ScanWorker, WalkEntry};

fn entry(path: &str, is_file: bool) -> WalkEntry {
    WalkEntry { path: path.to_string(), is_file }
}

fn record(i: usize) -> FileInfo {
    FileInfo::from_path(
        &format!("/data/f{}.txt", i),
        Some(FileMeta { size: i as u64, modified: None, created: None, is_dir: false }),
    )
    .unwrap()
}

#[test]
fn a_new_scanner_has_counted_nothing() {
    assert_eq!(FileScanner::new().total_files(), 0);
}

#[test]
fn hidden_entries_are_skipped_by_the_plain_scanner() {
    let s = FileScanner::new();
    assert!(s.should_skip_path("/home/u/.git"));
    assert!(s.should_skip_path(".hidden"));
    assert!(!s.should_skip_path("/home/u/.config/file.txt"));
    assert!(!s.should_skip_path("/home/u/file.txt"));
    assert!(!s.should_skip_path("/home/u/dir/"));
    assert!(s.should_skip_path("/home/u/.git/"));
    assert!(s.should_skip_path("/home/u/.git/."));
    assert!(!s.should_skip_path("a/.."));
    assert!(!s.should_skip_path(".."));
    assert!(!s.should_skip_path("."));
    assert!(!s.should_skip_path(""));
}

#[test]
fn the_scanner_skips_what_the_final_component_of_the_standard_library_hides() {
    let s = FileScanner::new();
    for path in ["/a/.b", "/a/.b/", "/a/.b/c", ".x", "x/..", "x/.", "./.y", "/", "a//.z//", ".../q"] {
        let expected = std::path::Path::new(path)
            .file_name()
            .and_then(|n| n.to_str())
            .map(|n| n.starts_with('.'))
            .unwrap_or(false);
        assert_eq!(s.should_skip_path(path), expected, "for {:?}", path);
    }
}

#[test]
fn windows_system_directories_are_skipped_by_the_plain_scanner() {
    let s = FileScanner::new();
    assert!(s.should_skip_path("C:/System Volume Information/x"));
    assert!(s.should_skip_path("C:/$Recycle.Bin/S-1/file.txt"));
    assert!(s.should_skip_path("C:/$WINDOWS.~BT/setup.exe"));
    assert!(!s.should_skip_path("C:/Users/me/file.txt"));
}

#[test]
fn system_paths_are_always_skipped() {
    assert!(always_skipped("/usr"));
    assert!(always_skipped("/usr/bin/ls"));
    assert!(always_skipped("/System/Library"));
    assert!(always_skipped("/dev/null"));
    assert!(always_skipped("/proc/1/status"));
    assert!(always_skipped("/home/u/.Trash/old.txt"));
    assert!(always_skipped("/Volumes/x/.Spotlight-V100/store"));
    assert!(always_skipped("/Volumes/x/.fseventsd/1"));
    assert!(always_skipped("D:/$Recycle.Bin/a"));
    assert!(always_skipped("D:/System Volume Information/a"));
}

#[test]
fn paths_that_only_look_like_system_paths_are_scanned() {
    assert!(!always_skipped("/usrlocal/file"));
    assert!(!always_skipped("/home/usr/file"));
    assert!(!always_skipped("/devices/a"));
    assert!(!always_skipped("/home/u/.git/config"));
    assert!(!always_skipped("/home/u/file.txt"));
    assert!(!always_skipped(""));
}

#[test]
fn collect_paths_keeps_regular_files_that_are_not_skipped() {
    let s = FileScanner::new();
    let entries = vec![
        entry("/d", false),
        entry("/d/a.txt", true),
        entry("/d/.hidden", true),
        entry("/d/sub", false),
        entry("/d/sub/b.md", true),
        entry("/d/$Recycle.Bin/c.txt", true),
    ];
    assert_eq!(s.collect_paths(&entries), vec!["/d/a.txt".to_string(), "/d/sub/b.md".to_string()]);
    assert!(s.collect_paths(&Vec::new()).is_empty());
}

#[test]
fn scan_directory_counts_and_keeps_the_count() {
    let mut s = FileScanner::new();
    let entries = vec![entry("/d/a.txt", true), entry("/d/.h", true), entry("/d/b", true)];
    assert_eq!(s.scan_directory(&entries), 2);
    assert_eq!(s.total_files(), 2);
    assert_eq!(s.scan_directory(&Vec::new()), 0);
    assert_eq!(s.total_files(), 0);
}

#[test]
fn a_worker_hands_out_a_batch_at_the_batch_size() {
    assert_eq!(SCAN_BATCH_SIZE, 500);
    let mut w = ScanWorker::new();
    for i in 0..SCAN_BATCH_SIZE - 1 {
        assert!(w.push(record(i)).is_none(), "record {} must not complete a batch", i);
    }
    let batch = w.push(record(SCAN_BATCH_SIZE - 1)).expect("the 500th record completes the batch");
    assert_eq!(batch.len(), SCAN_BATCH_SIZE);
    assert_eq!(batch[0].path, "/data/f0.txt");
    assert_eq!(batch[499].path, "/data/f499.txt");
    assert!(w.flush().is_none());
}

#[test]
fn every_record_is_handed_out_once() {
    let mut w = ScanWorker::new();
    let mut out: Vec<String> = Vec::new();
    for i in 0..1_234 {
        if let Some(batch) = w.push(record(i)) {
            out.extend(batch.into_iter().map(|r| r.path));
        }
    }
    if let Some(rest) = w.flush() {
        assert_eq!(rest.len(), 234);
        out.extend(rest.into_iter().map(|r| r.path));
    }
    let expected: Vec<String> = (0..1_234).map(|i| format!("/data/f{}.txt", i)).collect();
    assert_eq!(out, expected);
    assert!(w.flush().is_none());
}

#[test]
fn a_worker_yields_after_the_threshold() {
    assert_eq!(SCAN_YIELD_THRESHOLD, 5_000);
    let mut w = ScanWorker::new();
    for _ in 0..SCAN_YIELD_THRESHOLD - 1 {
        assert_eq!(w.note_file(10), None);
    }
    assert_eq!(w.note_file(5_000), Some(1));
    for _ in 0..SCAN_YIELD_THRESHOLD - 1 {
        assert_eq!(w.note_file(10), None);
    }
    assert_eq!(w.note_file(100_000), Some(1));
    for _ in 0..SCAN_YIELD_THRESHOLD - 1 {
        assert_eq!(w.note_file(10), None);
    }
    assert_eq!(w.note_file(100_001), Some(5));
}

#[test]
fn regular_files_outside_the_system_paths_are_emitted() {
    assert!(should_emit("/home/u/file.txt", true, false));
    assert!(should_emit("/home/u/.git/config", true, false));
    assert!(should_emit("/home/u/.hidden", true, false));
    assert!(!should_emit("/home/u/dir", false, false));
    assert!(!should_emit("/proc/cpuinfo", true, false));
    assert!(!should_emit("/usr/share/doc/x.txt", true, false));
    let skip = FileScanner::new();
    assert!(!should_emit("/home/u/.hidden", true, skip.should_skip_path("/home/u/.hidden")));
    assert!(should_emit("/home/u/shown", true, skip.should_skip_path("/home/u/shown")));
}
