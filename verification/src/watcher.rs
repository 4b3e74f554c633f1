//! What the watcher of the file system decides: which kind of change an
//! event is, and when a change is old enough to be reported.

use vstd::prelude::*;

verus! {

/// A change of a watched path.
#[derive(Clone, Debug)]
pub enum ChangeType {
    Created,
    Modified,
    Deleted,
    /// The path was renamed; the old path is given.
    Renamed(String),
}

/// The kinds of event that the file system reports.
#[derive(Clone, Copy, Debug, PartialEq, Eq, Structural)]
pub enum EventKind {
    Create,
    Modify,
    Remove,
    /// The old name of a renamed path.
    RenameFrom,
    /// The new name of a renamed path.
    RenameTo,
    /// Any other rename, and any other event.
    Other,
}

/// Milliseconds that a change must rest before it is reported.
pub const DEBOUNCE_MS: u64 = 500;

impl ChangeType {
    /// The change as plain values: its kind, and the old path of a rename.
    pub open spec fn view(&self) -> (int, Seq<char>) {
        match self {
            ChangeType::Created => (0, Seq::empty()),
            ChangeType::Modified => (1, Seq::empty()),
            ChangeType::Deleted => (2, Seq::empty()),
            ChangeType::Renamed(from) => (3, from@),
        }
    }
}

/// The change that an event stands for, as plain values, if it stands for
/// one: the old name of a rename is waited out, the new name is a rename
/// where the old path is known and a creation where it is not.
pub open spec fn change_of(kind: EventKind, renamed_from: Option<Seq<char>>) -> Option<
    (int, Seq<char>),
> {
    match kind {
        EventKind::Create => Some((0, Seq::empty())),
        EventKind::Modify => Some((1, Seq::empty())),
        EventKind::Remove => Some((2, Seq::empty())),
        EventKind::RenameTo => match renamed_from {
            Some(from) => Some((3, from)),
            None => Some((0, Seq::empty())),
        },
        EventKind::RenameFrom => None,
        EventKind::Other => None,
    }
}

/// The change that an event stands for, if it stands for one.
pub fn classify(kind: EventKind, renamed_from: Option<String>) -> (change: Option<ChangeType>)
    ensures
        match change {
            Some(c) => change_of(kind, crate::file_info::option_text(renamed_from)) == Some(c.view()),
            None => change_of(kind, crate::file_info::option_text(renamed_from)) is None,
        },
{
    match kind {
        EventKind::Create => Some(ChangeType::Created),
        EventKind::Modify => Some(ChangeType::Modified),
        EventKind::Remove => Some(ChangeType::Deleted),
        EventKind::RenameTo => match renamed_from {
            Some(from) => Some(ChangeType::Renamed(from)),
            None => Some(ChangeType::Created),
        },
        EventKind::RenameFrom => None,
        EventKind::Other => None,
    }
}

/// A change that waits to be reported.
#[derive(Clone, Debug)]
pub struct PendingChange {
    pub path: String,
    pub seen_ms: u64,
    pub change: ChangeType,
}

/// Whether a change seen at `seen_ms` has rested long enough at `now_ms`.
pub open spec fn is_ripe(seen_ms: u64, now_ms: u64) -> bool {
    now_ms >= seen_ms && now_ms - seen_ms >= DEBOUNCE_MS
}

/// The ripe changes among the first `upto`, in order.
pub open spec fn ripe_upto(changes: Seq<PendingChange>, now_ms: u64, upto: int) -> Seq<
    PendingChange,
>
    decreases upto,
{
    if upto <= 0 {
        Seq::empty()
    } else if is_ripe(changes[upto - 1].seen_ms, now_ms) {
        ripe_upto(changes, now_ms, upto - 1).push(changes[upto - 1])
    } else {
        ripe_upto(changes, now_ms, upto - 1)
    }
}

/// The changes among the first `upto` that are not ripe yet, in order.
pub open spec fn unripe_upto(changes: Seq<PendingChange>, now_ms: u64, upto: int) -> Seq<
    PendingChange,
>
    decreases upto,
{
    if upto <= 0 {
        Seq::empty()
    } else if is_ripe(changes[upto - 1].seen_ms, now_ms) {
        unripe_upto(changes, now_ms, upto - 1)
    } else {
        unripe_upto(changes, now_ms, upto - 1).push(changes[upto - 1])
    }
}

/// The changes among the first `upto` that are of another path than `path`,
/// in order.
pub open spec fn of_other_paths(changes: Seq<PendingChange>, path: Seq<char>, upto: int) -> Seq<
    PendingChange,
>
    decreases upto,
{
    if upto <= 0 {
        Seq::empty()
    } else if changes[upto - 1].path@ == path {
        of_other_paths(changes, path, upto - 1)
    } else {
        of_other_paths(changes, path, upto - 1).push(changes[upto - 1])
    }
}

/// No path has two changes among `changes`.
pub open spec fn distinct_paths(changes: Seq<PendingChange>) -> bool {
    forall|i: int, j: int| 0 <= i < j < changes.len() ==> changes[i].path@ != changes[j].path@
}

/// Every change of `part` is one of the first `upto` of `changes`.
pub open spec fn taken_from(part: Seq<PendingChange>, changes: Seq<PendingChange>, upto: int)
    -> bool {
    forall|i: int|
        0 <= i < part.len() ==> exists|k: int| 0 <= k < upto && changes[k] == #[trigger] part[i]
}

/// Leaving changes out keeps the paths apart: each of the three choices
/// among changes of distinct paths holds changes of distinct paths, all
/// taken from the first `upto`, and none of the path that was left out.
pub proof fn lemma_choices_keep_paths_apart(
    changes: Seq<PendingChange>,
    path: Seq<char>,
    now_ms: u64,
    upto: int,
)
    requires
        distinct_paths(changes),
        0 <= upto <= changes.len(),
    ensures
        distinct_paths(of_other_paths(changes, path, upto)),
        taken_from(of_other_paths(changes, path, upto), changes, upto),
        forall|i: int|
            0 <= i < of_other_paths(changes, path, upto).len() ==> (#[trigger] of_other_paths(
                changes,
                path,
                upto,
            )[i]).path@ != path,
        distinct_paths(ripe_upto(changes, now_ms, upto)),
        taken_from(ripe_upto(changes, now_ms, upto), changes, upto),
        distinct_paths(unripe_upto(changes, now_ms, upto)),
        taken_from(unripe_upto(changes, now_ms, upto), changes, upto),
    decreases upto,
{
    if upto > 0 {
        lemma_choices_keep_paths_apart(changes, path, now_ms, upto - 1);
        lemma_push_keeps_paths_apart(of_other_paths(changes, path, upto - 1), changes, upto);
        lemma_push_keeps_paths_apart(ripe_upto(changes, now_ms, upto - 1), changes, upto);
        lemma_push_keeps_paths_apart(unripe_upto(changes, now_ms, upto - 1), changes, upto);
    }
}

/// A list of changes taken from the first `upto - 1` of changes of distinct
/// paths stays one of distinct paths, taken from the first `upto`, with or
/// without the change at `upto - 1` added.
pub proof fn lemma_push_keeps_paths_apart(
    part: Seq<PendingChange>,
    changes: Seq<PendingChange>,
    upto: int,
)
    requires
        distinct_paths(changes),
        0 < upto <= changes.len(),
        distinct_paths(part),
        taken_from(part, changes, upto - 1),
    ensures
        taken_from(part, changes, upto),
        distinct_paths(part.push(changes[upto - 1])),
        taken_from(part.push(changes[upto - 1]), changes, upto),
{
    let more = part.push(changes[upto - 1]);
    assert forall|i: int| 0 <= i < part.len() implies exists|k: int|
        0 <= k < upto && changes[k] == #[trigger] part[i] by {
        let k = choose|k: int| 0 <= k < upto - 1 && changes[k] == part[i];
        assert(0 <= k < upto && changes[k] == part[i]);
    }
    assert forall|i: int| 0 <= i < more.len() implies exists|k: int|
        0 <= k < upto && changes[k] == #[trigger] more[i] by {
        if i < part.len() {
            let k = choose|k: int| 0 <= k < upto - 1 && changes[k] == part[i];
            assert(0 <= k < upto && changes[k] == more[i]);
        } else {
            assert(changes[upto - 1] == more[i]);
        }
    }
    assert forall|i: int, j: int| 0 <= i < j < more.len() implies more[i].path@
        != more[j].path@ by {
        if j == part.len() {
            let k = choose|k: int| 0 <= k < upto - 1 && changes[k] == part[i];
            assert(changes[k].path@ != changes[upto - 1].path@);
        }
    }
}

/// The changes that wait, the latest of each path.
pub struct Debouncer {
    pub pending: Vec<PendingChange>,
}

impl Debouncer {
    /// No path has two changes that wait.
    pub open spec fn wf(&self) -> bool {
        distinct_paths(self.pending@)
    }

    /// Nothing waits.
    pub fn new() -> (d: Debouncer)
        ensures
            d.pending@.len() == 0,
            d.wf(),
    {
        Debouncer { pending: Vec::new() }
    }

    /// Notes a change of `path` seen at `now_ms`. It takes the place of a
    /// change of the same path that waits, and waits from now on.
    pub fn record(&mut self, path: String, change: ChangeType, now_ms: u64)
        ensures
            final(self).pending@ == of_other_paths(
                old(self).pending@,
                path@,
                old(self).pending@.len() as int,
            ).push(PendingChange { path, seen_ms: now_ms, change }),
            old(self).wf() ==> final(self).wf(),
    {
        proof {
            if old(self).wf() {
                let before = old(self).pending@;
                lemma_choices_keep_paths_apart(before, path@, now_ms, before.len() as int);
                let kept = of_other_paths(before, path@, before.len() as int);
                let more = kept.push(PendingChange { path, seen_ms: now_ms, change });
                assert forall|i: int, j: int| 0 <= i < j < more.len() implies more[i].path@
                    != more[j].path@ by {
                    if j == kept.len() {
                        assert(kept[i].path@ != path@);
                    }
                }
            }
        }
        let mut all: Vec<PendingChange> = Vec::new();
        std::mem::swap(&mut all, &mut self.pending);
        let mut i: usize = 0;
        let ghost before = all@;
        while i < all.len()
            invariant
                i <= all.len(),
                all@ == before,
                self.pending@ == of_other_paths(before, path@, i as int),
            decreases all.len() - i,
        {
            let entry = &all[i];
            if !(entry.path == path) {
                self.pending.push(
                    PendingChange {
                        path: entry.path.clone(),
                        seen_ms: entry.seen_ms,
                        change: copy_change(&entry.change),
                    },
                );
            }
            i += 1;
        }
        self.pending.push(PendingChange { path, seen_ms: now_ms, change });
    }

    /// Takes out the changes that have rested for `DEBOUNCE_MS` at
    /// `now_ms` and hands them out, in the order in which they came; the
    /// others go on waiting.
    pub fn flush(&mut self, now_ms: u64) -> (ripe: Vec<PendingChange>)
        ensures
            ripe@ == ripe_upto(old(self).pending@, now_ms, old(self).pending@.len() as int),
            final(self).pending@ == unripe_upto(
                old(self).pending@,
                now_ms,
                old(self).pending@.len() as int,
            ),
            ripe@.len() + final(self).pending@.len() == old(self).pending@.len(),
            old(self).wf() ==> final(self).wf() && distinct_paths(ripe@),
    {
        proof {
            if old(self).wf() {
                let before = old(self).pending@;
                lemma_choices_keep_paths_apart(
                    before,
                    Seq::<char>::empty(),
                    now_ms,
                    before.len() as int,
                );
            }
        }
        let mut all: Vec<PendingChange> = Vec::new();
        std::mem::swap(&mut all, &mut self.pending);
        let mut ripe: Vec<PendingChange> = Vec::new();
        let mut i: usize = 0;
        let ghost before = all@;
        while i < all.len()
            invariant
                i <= all.len(),
                all@ == before,
                ripe@ == ripe_upto(before, now_ms, i as int),
                self.pending@ == unripe_upto(before, now_ms, i as int),
                ripe@.len() + self.pending@.len() == i,
            decreases all.len() - i,
        {
            let entry = &all[i];
            let copy = PendingChange {
                path: entry.path.clone(),
                seen_ms: entry.seen_ms,
                change: copy_change(&entry.change),
            };
            if now_ms >= entry.seen_ms && now_ms - entry.seen_ms >= DEBOUNCE_MS {
                ripe.push(copy);
            } else {
                self.pending.push(copy);
            }
            i += 1;
        }
        ripe
    }
}

/// A copy of a change.
pub fn copy_change(change: &ChangeType) -> (copy: ChangeType)
    ensures
        copy == *change,
{
    match change {
        ChangeType::Created => ChangeType::Created,
        ChangeType::Modified => ChangeType::Modified,
        ChangeType::Deleted => ChangeType::Deleted,
        ChangeType::Renamed(from) => ChangeType::Renamed(from.clone()),
    }
}

} // verus!
