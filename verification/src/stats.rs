//! Statistics of an index by file type.

use vstd::prelude::*;

verus! {

/// What is known of the files of one extension. Times are whole
/// milliseconds; instants are milliseconds since the Unix epoch.
#[derive(Clone, Copy, Debug, PartialEq, Eq, Structural)]
pub struct FileTypeStats {
    pub count: u64,
    pub total_size: u64,
    pub avg_processing_time: u64,
    pub last_indexed: u64,
    pub error_count: u32,
}

/// The kinds of work on an index.
#[derive(Clone, Copy, Debug, PartialEq, Eq, Structural)]
pub enum OperationType {
    InitialIndex,
    IncrementalUpdate,
    Reindex,
    Optimize,
}

/// The measure of one query.
#[derive(Clone, Debug)]
pub struct QueryMetric {
    pub timestamp: u64,
    pub query_type: String,
    pub duration: u64,
    pub results_count: usize,
}

/// The statistics of one extension.
#[derive(Clone, Debug)]
pub struct FileTypeEntry {
    pub extension: String,
    pub stats: FileTypeStats,
}

/// The statistics of an index: its documents, their size, and the files of
/// each extension.
pub struct IndexStats {
    pub total_documents: u64,
    pub total_size: u64,
    pub file_types: Vec<FileTypeEntry>,
}

/// `a + b`, or the largest 64-bit number where the sum is larger.
pub open spec fn capped_sum(a: u64, b: u64) -> u64 {
    if a + b > u64::MAX {
        u64::MAX
    } else {
        (a + b) as u64
    }
}

/// The mean of two times, rounded down.
pub open spec fn mean_of(a: u64, b: u64) -> u64 {
    ((a + b) / 2) as u64
}

/// The statistics of an extension after one more file of `size` bytes took
/// `processing_time` to index at the instant `now`: the average time is the
/// mean of the average before and the new time.
pub open spec fn after_file(stats: FileTypeStats, size: u64, processing_time: u64, now: u64)
    -> FileTypeStats {
    FileTypeStats {
        count: capped_sum(stats.count, 1),
        total_size: capped_sum(stats.total_size, size),
        avg_processing_time: mean_of(stats.avg_processing_time, processing_time),
        last_indexed: now,
        error_count: stats.error_count,
    }
}

/// The statistics of an extension that was not seen before `now`.
pub open spec fn unseen(now: u64) -> FileTypeStats {
    FileTypeStats {
        count: 0,
        total_size: 0,
        avg_processing_time: 0,
        last_indexed: now,
        error_count: 0,
    }
}

/// The place of the extension among the entries, or -1.
pub open spec fn place_of(entries: Seq<FileTypeEntry>, extension: Seq<char>) -> int
    decreases entries.len(),
{
    if entries.len() == 0 {
        -1
    } else if entries.last().extension@ == extension {
        entries.len() - 1
    } else {
        place_of(entries.drop_last(), extension)
    }
}

/// No extension has two entries.
pub open spec fn distinct(entries: Seq<FileTypeEntry>) -> bool {
    forall|i: int, j: int|
        0 <= i < j < entries.len() ==> entries[i].extension@ != entries[j].extension@
}

/// `place_of` finds the entry of an extension where there is one.
pub proof fn lemma_place_of(entries: Seq<FileTypeEntry>, extension: Seq<char>)
    ensures
        -1 <= place_of(entries, extension) < entries.len(),
        place_of(entries, extension) >= 0 ==> entries[place_of(
            entries,
            extension,
        )].extension@ == extension,
        place_of(entries, extension) == -1 ==> forall|i: int|
            0 <= i < entries.len() ==> (#[trigger] entries[i]).extension@ != extension,
    decreases entries.len(),
{
    if entries.len() > 0 && entries.last().extension@ != extension {
        lemma_place_of(entries.drop_last(), extension);
        assert forall|i: int| 0 <= i < entries.len() && place_of(entries, extension)
            == -1 implies (#[trigger] entries[i]).extension@ != extension by {
            if i < entries.len() - 1 {
                assert(entries.drop_last()[i] == entries[i]);
            }
        }
    }
}

impl IndexStats {
    /// The entries by extension.
    pub open spec fn entries(&self) -> Seq<FileTypeEntry> {
        self.file_types@
    }

    /// No extension has two entries.
    pub open spec fn wf(&self) -> bool {
        distinct(self.entries())
    }

    /// The statistics of an extension, where files of it were seen.
    pub open spec fn stats_of(&self, extension: Seq<char>) -> Option<FileTypeStats> {
        if place_of(self.entries(), extension) >= 0 {
            Some(self.entries()[place_of(self.entries(), extension)].stats)
        } else {
            None
        }
    }

    /// Statistics of an empty index.
    pub fn new() -> (s: IndexStats)
        ensures
            s.wf(),
            s.total_documents == 0,
            s.total_size == 0,
            s.entries().len() == 0,
    {
        IndexStats { total_documents: 0, total_size: 0, file_types: Vec::new() }
    }

    /// The place of the entry of an extension.
    fn find(&self, extension: &String) -> (at: Option<usize>)
        ensures
            match at {
                Some(i) => i as int == place_of(self.entries(), extension@),
                None => place_of(self.entries(), extension@) == -1,
            },
    {
        let mut i: usize = self.file_types.len();
        assert(self.entries().take(i as int) =~= self.entries());
        while i > 0
            invariant
                i <= self.file_types.len(),
                place_of(self.entries(), extension@) == place_of(
                    self.entries().take(i as int),
                    extension@,
                ),
            decreases i,
        {
            if self.file_types[i - 1].extension == *extension {
                assert(self.entries().take(i as int).last() == self.entries()[i - 1]);
                return Some(i - 1);
            }
            assert(self.entries().take(i as int).last() == self.entries()[i - 1]);
            assert(self.entries().take(i as int).drop_last() =~= self.entries().take(i - 1));
            i -= 1;
        }
        assert(self.entries().take(0).len() == 0);
        None
    }

    /// The statistics of an extension, where files of it were seen.
    pub fn file_type(&self, extension: &String) -> (stats: Option<FileTypeStats>)
        ensures
            stats == self.stats_of(extension@),
    {
        proof {
            lemma_place_of(self.entries(), extension@);
        }
        let at = self.find(extension);
        match at {
            Some(i) => Some(self.file_types[i].stats),
            None => None,
        }
    }

    /// Counts one more file of the extension: `size` bytes, indexed in
    /// `processing_time` at the instant `now`. Counts that would pass the
    /// largest 64-bit number stay at it. The other extensions keep their
    /// statistics.
    pub fn update_file_type_stats(
        &mut self,
        extension: String,
        size: u64,
        processing_time: u64,
        now: u64,
    )
        requires
            old(self).wf(),
        ensures
            final(self).wf(),
            final(self).total_documents == old(self).total_documents,
            final(self).total_size == old(self).total_size,
            final(self).stats_of(extension@) == Some(
                after_file(
                    match old(self).stats_of(extension@) {
                        Some(stats) => stats,
                        None => unseen(now),
                    },
                    size,
                    processing_time,
                    now,
                ),
            ),
            forall|other: Seq<char>|
                other != extension@ ==> final(self).stats_of(other) == old(self).stats_of(other),
    {
        proof {
            lemma_place_of(self.entries(), extension@);
        }
        let at = self.find(&extension);
        let before = match at {
            Some(i) => self.file_types[i].stats,
            None => FileTypeStats {
                count: 0,
                total_size: 0,
                avg_processing_time: 0,
                last_indexed: now,
                error_count: 0,
            },
        };
        let sum: u128 = before.avg_processing_time as u128 + processing_time as u128;
        let after = FileTypeStats {
            count: if before.count == u64::MAX {
                u64::MAX
            } else {
                before.count + 1
            },
            total_size: if before.total_size > u64::MAX - size {
                u64::MAX
            } else {
                before.total_size + size
            },
            avg_processing_time: (sum / 2) as u64,
            last_indexed: now,
            error_count: before.error_count,
        };
        let ghost old_entries = self.entries();
        match at {
            Some(i) => {
                self.file_types.set(i, FileTypeEntry { extension, stats: after });
                proof {
                    let new_entries = self.entries();
                    assert forall|other: Seq<char>|
                        place_of(new_entries, other) == place_of(old_entries, other) by {
                        lemma_same_places(old_entries, new_entries, other);
                    }
                    assert forall|other: Seq<char>| other != extension@ implies self.stats_of(
                        other,
                    ) == old(self).stats_of(other) by {
                        lemma_place_of(old_entries, other);
                    }
                }
            },
            None => {
                self.file_types.push(FileTypeEntry { extension, stats: after });
                proof {
                    let new_entries = self.entries();
                    assert(new_entries.drop_last() =~= old_entries);
                    assert forall|other: Seq<char>| other != extension@ implies place_of(
                        new_entries,
                        other,
                    ) == place_of(old_entries, other) by {}
                    assert forall|other: Seq<char>| other != extension@ implies self.stats_of(
                        other,
                    ) == old(self).stats_of(other) by {
                        lemma_place_of(old_entries, other);
                    }
                }
            },
        }
    }
}

/// Two lists of entries with the same extensions at the same places find
/// every extension at the same place.
pub proof fn lemma_same_places(a: Seq<FileTypeEntry>, b: Seq<FileTypeEntry>, extension: Seq<char>)
    requires
        a.len() == b.len(),
        forall|i: int| 0 <= i < a.len() ==> a[i].extension@ == b[i].extension@,
    ensures
        place_of(a, extension) == place_of(b, extension),
    decreases a.len(),
{
    if a.len() > 0 {
        lemma_same_places(a.drop_last(), b.drop_last(), extension);
    }
}

} // verus!
