//! The line changes between two versions of a file's content.

use vstd::prelude::*;

verus! {

/// What a change does to the content.
#[derive(Clone, Copy, Debug, PartialEq, Eq, Structural)]
pub enum ChangeOperation {
    Added,
    Removed,
    Modified,
}

/// One changed line.
#[derive(Clone, Debug)]
pub struct DiffChange {
    pub operation: ChangeOperation,
    pub content: String,
    pub line_number: usize,
}

/// Whether a line of a diff is in both versions, only in the old one, or
/// only in the new one.
#[derive(Clone, Copy, Debug, PartialEq, Eq, Structural)]
pub enum LineTag {
    Equal,
    Delete,
    Insert,
}

/// One line of a diff.
#[derive(Clone, Debug)]
pub struct TaggedLine {
    pub tag: LineTag,
    pub text: String,
}

/// The lines of a diff as plain values.
pub open spec fn tagged_view(lines: Seq<TaggedLine>) -> Seq<(LineTag, Seq<char>)> {
    Seq::new(lines.len(), |i: int| (lines[i].tag, lines[i].text@))
}

/// The line diff that the `similar` library computes of two texts.
pub uninterp spec fn line_diff(old_text: Seq<char>, new_text: Seq<char>) -> Seq<
    (LineTag, Seq<char>),
>;

/// `similar::TextDiff::from_lines(old, new).iter_all_changes()`: every line
/// of the diff in order, with the tag of the change and the text that the
/// change displays. The diff runs without a deadline, so it depends on the
/// two texts alone.
#[verifier::external_body]
fn diff_lines(old_text: &str, new_text: &str) -> (lines: Vec<TaggedLine>)
    ensures
        tagged_view(lines@) == line_diff(old_text@, new_text@),
{
    similar::TextDiff::from_lines(old_text, new_text).iter_all_changes().map(
        |change| TaggedLine {
            tag: match change.tag() {
                similar::ChangeTag::Equal => LineTag::Equal,
                similar::ChangeTag::Delete => LineTag::Delete,
                similar::ChangeTag::Insert => LineTag::Insert,
            },
            text: change.to_string(),
        },
    ).collect()
}

/// The number of lines of a text: a line ends with a line feed or with the
/// text.
pub open spec fn line_count(text: Seq<char>) -> nat
    decreases text.len(),
{
    if text.len() == 0 {
        0
    } else if text.len() == 1 {
        1
    } else if text[text.len() - 2] == '\n' {
        line_count(text.drop_last()) + 1
    } else {
        line_count(text.drop_last())
    }
}

/// The number of lines of a text.
pub fn count_lines(text: &str) -> (n: usize)
    ensures
        n == line_count(text@),
{
    let chars = crate::text::chars_of(text);
    if chars.len() == 0 {
        return 0;
    }
    let mut n: usize = 1;
    let mut i: usize = 1;
    assert(chars@.take(1).len() == 1);
    while i < chars.len()
        invariant
            1 <= i <= chars.len(),
            1 <= n <= i,
            n == line_count(chars@.take(i as int)),
        decreases chars.len() - i,
    {
        let ghost longer = chars@.take(i + 1);
        assert(longer.drop_last() =~= chars@.take(i as int));
        assert(longer[longer.len() - 2] == chars@[i - 1]);
        if chars[i - 1] == '\n' {
            n += 1;
        }
        i += 1;
    }
    assert(chars@.take(i as int) =~= chars@);
    n
}

/// The changes among the first `upto` lines of a diff: a deleted line is
/// removed, an inserted line is added, and each carries its place in the
/// diff.
pub open spec fn changes_upto(lines: Seq<(LineTag, Seq<char>)>, upto: int) -> Seq<
    (ChangeOperation, Seq<char>, int),
>
    decreases upto,
{
    if upto <= 0 {
        Seq::empty()
    } else {
        let line = lines[upto - 1];
        match line.0 {
            LineTag::Equal => changes_upto(lines, upto - 1),
            LineTag::Delete => changes_upto(lines, upto - 1).push(
                (ChangeOperation::Removed, line.1, upto - 1),
            ),
            LineTag::Insert => changes_upto(lines, upto - 1).push(
                (ChangeOperation::Added, line.1, upto - 1),
            ),
        }
    }
}

/// The changes of a diff.
pub open spec fn changes_of(lines: Seq<(LineTag, Seq<char>)>) -> Seq<
    (ChangeOperation, Seq<char>, int),
> {
    changes_upto(lines, lines.len() as int)
}

/// The changes as plain values.
pub open spec fn changes_view(changes: Seq<DiffChange>) -> Seq<(ChangeOperation, Seq<char>, int)> {
    Seq::new(
        changes.len(),
        |i: int| (changes[i].operation, changes[i].content@, changes[i].line_number as int),
    )
}

/// The changes of a diff: one for each deleted and each inserted line.
pub fn collect_changes(lines: &Vec<TaggedLine>) -> (changes: Vec<DiffChange>)
    ensures
        changes_view(changes@) == changes_of(tagged_view(lines@)),
        changes@.len() <= lines@.len(),
{
    let mut changes: Vec<DiffChange> = Vec::new();
    let mut i: usize = 0;
    assert(changes_view(changes@) =~= changes_upto(tagged_view(lines@), 0));
    while i < lines.len()
        invariant
            i <= lines.len(),
            changes@.len() <= i,
            changes_view(changes@) == changes_upto(tagged_view(lines@), i as int),
        decreases lines.len() - i,
    {
        let ghost before = changes@;
        let line = &lines[i];
        assert(tagged_view(lines@)[i as int] == (line.tag, line.text@));
        match line.tag {
            LineTag::Equal => {},
            LineTag::Delete => {
                changes.push(
                    DiffChange {
                        operation: ChangeOperation::Removed,
                        content: line.text.clone(),
                        line_number: i,
                    },
                );
                assert(changes_view(changes@) =~= changes_view(before).push(
                    (ChangeOperation::Removed, line.text@, i as int),
                ));
            },
            LineTag::Insert => {
                changes.push(
                    DiffChange {
                        operation: ChangeOperation::Added,
                        content: line.text.clone(),
                        line_number: i,
                    },
                );
                assert(changes_view(changes@) =~= changes_view(before).push(
                    (ChangeOperation::Added, line.text@, i as int),
                ));
            },
        }
        i += 1;
    }
    changes
}

/// The BLAKE3 hash of `content`, in hexadecimal.
pub uninterp spec fn blake3_hex(content: Seq<u8>) -> Seq<char>;

/// `blake3::hash(content)`, then `Hash::to_hex`: the hash of the bytes,
/// written with two hexadecimal digits for each of its 32 bytes. It depends
/// on the bytes alone.
#[verifier::external_body]
fn hash_hex(content: &[u8]) -> (hex: String)
    ensures
        hex@ == blake3_hex(content@),
        hex@.len() == 64,
{
    blake3::hash(content).to_hex().to_string()
}

/// The hash by which the content of a file is known again.
pub fn content_hash(content: &Vec<u8>) -> (hex: String)
    ensures
        hex@ == blake3_hex(content@),
        hex@.len() == 64,
{
    hash_hex(content.as_slice())
}

/// Whether the content differs from the content whose hash was kept.
/// Without a hash kept nothing can be said.
pub fn content_changed(content: &Vec<u8>, stored: &Option<String>) -> (changed: Option<bool>)
    ensures
        changed == match stored {
            Some(hex) => Some(blake3_hex(content@) != hex@),
            None => None,
        },
{
    match stored {
        Some(hex) => {
            let current = content_hash(content);
            Some(!(current == *hex))
        },
        None => None,
    }
}

/// More than one line in twenty has changed.
pub open spec fn is_significant_change(changed_lines: nat, total_lines: nat) -> bool {
    changed_lines * 100 > total_lines * 5
}

/// The changes between two versions of the content of a file.
pub struct ContentDiff {
    pub path: String,
    pub changes: Vec<DiffChange>,
    pub changed_lines: usize,
    pub total_lines: usize,
    pub is_significant: bool,
}

impl ContentDiff {
    /// Compares two versions of the content of the file at `path`: the
    /// changes are those of the line diff, the total is the number of lines
    /// of the longer version, and the change is significant where more than
    /// five lines in a hundred have changed.
    pub fn new(old_content: &str, new_content: &str, path: String) -> (diff: ContentDiff)
        ensures
            diff.path@ == path@,
            changes_view(diff.changes@) == changes_of(line_diff(old_content@, new_content@)),
            diff.changed_lines == diff.changes@.len(),
            diff.total_lines == if line_count(old_content@) >= line_count(new_content@) {
                line_count(old_content@)
            } else {
                line_count(new_content@)
            },
            diff.is_significant == is_significant_change(
                diff.changed_lines as nat,
                diff.total_lines as nat,
            ),
    {
        let lines = diff_lines(old_content, new_content);
        let changes = collect_changes(&lines);
        let old_lines = count_lines(old_content);
        let new_lines = count_lines(new_content);
        let total_lines = if old_lines >= new_lines {
            old_lines
        } else {
            new_lines
        };
        let changed_lines = changes.len();
        let is_significant = (changed_lines as u128) * 100 > (total_lines as u128) * 5;
        ContentDiff { path, changes, changed_lines, total_lines, is_significant }
    }
}

} // verus!
