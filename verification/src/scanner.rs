//! The rules of the scanner: which paths it passes over, and how a worker
//! gathers file records into batches.

use vstd::prelude::*;
use crate::file_info::FileInfo;
use crate::limits::{
    LARGE_SCAN_FILES, LONG_YIELD_MS, SCAN_BATCH_SIZE, SCAN_YIELD_THRESHOLD, SHORT_YIELD_MS,
};
use crate::text::{
    chars_of, contains, contains_text, file_name, file_name_of, has_prefix, starts_with,
};

verus! {

/// `path` is the directory `root` or lies below it.
pub open spec fn lies_under(path: Seq<char>, root: Seq<char>) -> bool {
    has_prefix(path, root) && (path.len() == root.len() || path[root.len() as int] == '/')
}

/// The paths that every scan passes over: the system trees `/usr`,
/// `/System`, `/dev` and `/proc`, and whatever lies in a recycle bin, a
/// trash directory, or the metadata of Spotlight, FSEvents or a Windows
/// volume.
pub open spec fn is_system_path(path: Seq<char>) -> bool {
    ||| lies_under(path, "/usr"@)
    ||| lies_under(path, "/System"@)
    ||| lies_under(path, "/dev"@)
    ||| lies_under(path, "/proc"@)
    ||| contains_text(path, "$Recycle.Bin"@)
    ||| contains_text(path, ".Trash"@)
    ||| contains_text(path, ".Spotlight-V100"@)
    ||| contains_text(path, ".fseventsd"@)
    ||| contains_text(path, "System Volume Information"@)
}

/// Whether `path` is the directory `root` or lies below it.
pub fn is_under(path: &Vec<char>, root: &Vec<char>) -> (under: bool)
    ensures
        under == lies_under(path@, root@),
{
    if !starts_with(path, root) {
        return false;
    }
    path.len() == root.len() || path[root.len()] == '/'
}

/// Whether every scan passes over `path`.
pub fn always_skipped(path: &str) -> (skip: bool)
    ensures
        skip == is_system_path(path@),
{
    let p = chars_of(path);
    is_under(&p, &chars_of("/usr")) || is_under(&p, &chars_of("/System")) || is_under(
        &p,
        &chars_of("/dev"),
    ) || is_under(&p, &chars_of("/proc")) || contains(&p, &chars_of("$Recycle.Bin")) || contains(
        &p,
        &chars_of(".Trash"),
    ) || contains(&p, &chars_of(".Spotlight-V100")) || contains(&p, &chars_of(".fseventsd"))
        || contains(&p, &chars_of("System Volume Information"))
}

/// Whether the scanner emits the entry: a regular file that the caller's
/// predicate does not exclude, outside the paths that every scan passes
/// over. Directories and links are not emitted.
pub open spec fn is_emitted(path: Seq<char>, is_regular_file: bool, excluded: bool) -> bool {
    is_regular_file && !excluded && !is_system_path(path)
}

/// Whether the scanner emits the entry at `path`. `excluded` is what the
/// caller's skip predicate said of it.
pub fn should_emit(path: &str, is_regular_file: bool, excluded: bool) -> (emit: bool)
    ensures
        emit == is_emitted(path@, is_regular_file, excluded),
{
    is_regular_file && !excluded && !always_skipped(path)
}

/// The name of the entry begins with a dot.
pub open spec fn is_hidden(path: Seq<char>) -> bool {
    file_name_of(path).len() > 0 && file_name_of(path)[0] == '.'
}

/// The paths that the plain scanner passes over: hidden entries, and what
/// lies in three Windows system directories.
pub open spec fn skipped_by_scanner(path: Seq<char>) -> bool {
    ||| is_hidden(path)
    ||| contains_text(path, "System Volume Information"@)
    ||| contains_text(path, "$Recycle.Bin"@)
    ||| contains_text(path, "$WINDOWS.~BT"@)
}

/// One entry that a walk of the tree met.
#[derive(Clone, Debug)]
pub struct WalkEntry {
    pub path: String,
    pub is_file: bool,
}

/// Whether the plain scanner counts the entry: a regular file that it does
/// not pass over.
pub open spec fn is_counted(entry: WalkEntry) -> bool {
    entry.is_file && !skipped_by_scanner(entry.path@)
}

/// The paths of the counted entries, in the order of the walk.
pub open spec fn counted_paths(entries: Seq<WalkEntry>) -> Seq<Seq<char>>
    decreases entries.len(),
{
    if entries.len() == 0 {
        Seq::empty()
    } else if is_counted(entries.last()) {
        counted_paths(entries.drop_last()).push(entries.last().path@)
    } else {
        counted_paths(entries.drop_last())
    }
}

/// The characters of each string.
pub open spec fn texts(strings: Seq<String>) -> Seq<Seq<char>> {
    Seq::new(strings.len(), |i: int| strings[i]@)
}

/// The plain scanner: it counts the regular files of a tree.
#[derive(Clone, Debug)]
pub struct FileScanner {
    total_files: usize,
}

impl FileScanner {
    /// The files counted by the last scan.
    pub closed spec fn total(&self) -> nat {
        self.total_files as nat
    }

    /// A scanner that has counted nothing.
    pub fn new() -> (scanner: FileScanner)
        ensures
            scanner.total() == 0,
    {
        FileScanner { total_files: 0 }
    }

    /// The files counted by the last scan.
    pub fn total_files(&self) -> (n: usize)
        ensures
            n == self.total(),
    {
        self.total_files
    }

    /// Whether the scanner passes over `path`.
    pub fn should_skip_path(&self, path: &str) -> (skip: bool)
        ensures
            skip == skipped_by_scanner(path@),
    {
        let p = chars_of(path);
        let name = file_name(&p);
        if name.len() > 0 && name[0] == '.' {
            return true;
        }
        contains(&p, &chars_of("System Volume Information")) || contains(
            &p,
            &chars_of("$Recycle.Bin"),
        ) || contains(&p, &chars_of("$WINDOWS.~BT"))
    }

    /// The paths of the regular files among `entries` that the scanner does
    /// not pass over, in the order of the walk.
    pub fn collect_paths(&self, entries: &Vec<WalkEntry>) -> (paths: Vec<String>)
        ensures
            texts(paths@) == counted_paths(entries@),
    {
        let mut paths: Vec<String> = Vec::new();
        let mut i: usize = 0;
        assert(texts(paths@) =~= counted_paths(entries@.take(0)));
        while i < entries.len()
            invariant
                i <= entries.len(),
                texts(paths@) == counted_paths(entries@.take(i as int)),
            decreases entries.len() - i,
        {
            let ghost before = paths@;
            assert(entries@.take(i + 1).drop_last() =~= entries@.take(i as int));
            assert(entries@.take(i + 1).last() == entries@[i as int]);
            let entry = &entries[i];
            if entry.is_file && !self.should_skip_path(entry.path.as_str()) {
                paths.push(entry.path.clone());
                assert(texts(paths@) =~= texts(before).push(entry.path@));
            }
            i += 1;
        }
        assert(entries@.take(i as int) =~= entries@);
        paths
    }

    /// Counts the regular files among `entries` that the scanner does not
    /// pass over, and keeps the count.
    pub fn scan_directory(&mut self, entries: &Vec<WalkEntry>) -> (total: usize)
        ensures
            total == counted_paths(entries@).len(),
            final(self).total() == total,
    {
        let mut total: usize = 0;
        let mut i: usize = 0;
        assert(counted_paths(entries@.take(0)).len() == 0);
        while i < entries.len()
            invariant
                i <= entries.len(),
                total <= i,
                total == counted_paths(entries@.take(i as int)).len(),
            decreases entries.len() - i,
        {
            assert(entries@.take(i + 1).drop_last() =~= entries@.take(i as int));
            assert(entries@.take(i + 1).last() == entries@[i as int]);
            let entry = &entries[i];
            if entry.is_file && !self.should_skip_path(entry.path.as_str()) {
                total += 1;
            }
            i += 1;
        }
        assert(entries@.take(i as int) =~= entries@);
        self.total_files = total;
        total
    }
}

/// How long a worker yields once `found` files were found in all.
pub open spec fn yield_ms(found: nat) -> u64 {
    if found > LARGE_SCAN_FILES {
        LONG_YIELD_MS
    } else {
        SHORT_YIELD_MS
    }
}

/// One worker of the parallel scanner: the records it has gathered and not
/// yet sent, and the files it has seen since it last yielded.
pub struct ScanWorker {
    batch: Vec<FileInfo>,
    since_yield: usize,
}

impl ScanWorker {
    /// The records gathered and not yet sent.
    pub closed spec fn pending(&self) -> Seq<FileInfo> {
        self.batch@
    }

    /// The files seen since the last yield.
    pub closed spec fn since_yield(&self) -> nat {
        self.since_yield as nat
    }

    /// A full batch never waits, and a due yield is never put off.
    pub open spec fn wf(&self) -> bool {
        self.pending().len() < SCAN_BATCH_SIZE && self.since_yield() < SCAN_YIELD_THRESHOLD
    }

    /// A worker that has seen nothing.
    pub fn new() -> (w: ScanWorker)
        ensures
            w.wf(),
            w.pending().len() == 0,
            w.since_yield() == 0,
    {
        ScanWorker { batch: Vec::new(), since_yield: 0 }
    }

    /// Takes the record of one more file. Once `SCAN_BATCH_SIZE` records are
    /// gathered they are handed out as a batch to send, in the order in
    /// which they came; no record is lost and none is handed out twice.
    pub fn push(&mut self, record: FileInfo) -> (full: Option<Vec<FileInfo>>)
        requires
            old(self).wf(),
        ensures
            final(self).wf(),
            final(self).since_yield() == old(self).since_yield(),
            match full {
                Some(batch) => {
                    &&& old(self).pending().len() + 1 == SCAN_BATCH_SIZE
                    &&& batch@ == old(self).pending().push(record)
                    &&& final(self).pending().len() == 0
                },
                None => {
                    &&& old(self).pending().len() + 1 < SCAN_BATCH_SIZE
                    &&& final(self).pending() == old(self).pending().push(record)
                },
            },
    {
        self.batch.push(record);
        if self.batch.len() >= SCAN_BATCH_SIZE {
            let mut full: Vec<FileInfo> = Vec::new();
            std::mem::swap(&mut full, &mut self.batch);
            Some(full)
        } else {
            None
        }
    }

    /// Notes that one more file was seen, and says for how many milliseconds
    /// to yield now: after every `SCAN_YIELD_THRESHOLD` files, for longer
    /// once more than `LARGE_SCAN_FILES` files were found in all.
    pub fn note_file(&mut self, found: usize) -> (pause: Option<u64>)
        requires
            old(self).wf(),
        ensures
            final(self).wf(),
            final(self).pending() == old(self).pending(),
            match pause {
                Some(ms) => {
                    &&& old(self).since_yield() + 1 == SCAN_YIELD_THRESHOLD
                    &&& ms == yield_ms(found as nat)
                    &&& final(self).since_yield() == 0
                },
                None => {
                    &&& old(self).since_yield() + 1 < SCAN_YIELD_THRESHOLD
                    &&& final(self).since_yield() == old(self).since_yield() + 1
                },
            },
    {
        self.since_yield = self.since_yield + 1;
        if self.since_yield >= SCAN_YIELD_THRESHOLD {
            self.since_yield = 0;
            if found > LARGE_SCAN_FILES {
                Some(LONG_YIELD_MS)
            } else {
                Some(SHORT_YIELD_MS)
            }
        } else {
            None
        }
    }

    /// Hands out the records that wait, at the end of the walk.
    pub fn flush(&mut self) -> (rest: Option<Vec<FileInfo>>)
        requires
            old(self).wf(),
        ensures
            final(self).wf(),
            final(self).pending().len() == 0,
            final(self).since_yield() == old(self).since_yield(),
            match rest {
                Some(batch) => batch@ == old(self).pending() && batch@.len() > 0,
                None => old(self).pending().len() == 0,
            },
    {
        if self.batch.len() == 0 {
            None
        } else {
            let mut rest: Vec<FileInfo> = Vec::new();
            std::mem::swap(&mut rest, &mut self.batch);
            Some(rest)
        }
    }
}

} // verus!
