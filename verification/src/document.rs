//! Documents, and how a preparer makes one from a file record.

use vstd::prelude::*;
use crate::error::IndexError;
use crate::file_info::{option_text, FileInfo, FileInfoView};
use crate::limits::{MAX_CONTENT_SIZE, PROCESSOR_CHUNK_SIZE};
use crate::text::{
    chars_of, decimal, extension, extension_of, has_prefix, same_chars, starts_with, string_of,
    to_decimal,
};

verus! {

/// The fields of the index.
#[derive(Clone, Copy, Debug, PartialEq, Eq, Structural)]
pub enum FieldName {
    Name,
    Path,
    Content,
    Size,
    Modified,
    Created,
    MimeType,
    Extension,
}

/// One named text value of a document.
#[derive(Clone, Debug)]
pub struct FieldValue {
    pub field: FieldName,
    pub text: String,
}

/// A flat bag of named text values, in the order in which they were added.
#[derive(Clone, Debug)]
pub struct FileDocument {
    pub fields: Vec<FieldValue>,
}

impl View for FileDocument {
    type V = Seq<(FieldName, Seq<char>)>;

    open spec fn view(&self) -> Seq<(FieldName, Seq<char>)> {
        Seq::new(self.fields@.len(), |i: int| (self.fields@[i].field, self.fields@[i].text@))
    }
}

/// The first value of `field` in a document, if it holds one.
pub open spec fn first_value(doc: Seq<(FieldName, Seq<char>)>, field: FieldName) -> Option<
    Seq<char>,
>
    decreases doc.len(),
{
    if doc.len() == 0 {
        None
    } else if doc[0].0 == field {
        Some(doc[0].1)
    } else {
        first_value(doc.drop_first(), field)
    }
}

impl FileDocument {
    /// A document without fields.
    pub fn new() -> (doc: FileDocument)
        ensures
            doc@ == Seq::<(FieldName, Seq<char>)>::empty(),
    {
        let doc = FileDocument { fields: Vec::new() };
        assert(doc@ =~= Seq::<(FieldName, Seq<char>)>::empty());
        doc
    }

    /// Adds the value `text` under `field`, after the values already there.
    pub fn add_text(&mut self, field: FieldName, text: String)
        ensures
            final(self)@ == old(self)@.push((field, text@)),
    {
        self.fields.push(FieldValue { field, text });
        assert(self@ =~= old(self)@.push((field, text@)));
    }

    /// The number of values in the document.
    pub fn len(&self) -> (n: usize)
        ensures
            n == self@.len(),
    {
        self.fields.len()
    }

    /// The first value of `field`, if the document holds one.
    pub fn get_first(&self, field: FieldName) -> (value: Option<&String>)
        ensures
            match value {
                Some(text) => first_value(self@, field) == Some(text@),
                None => first_value(self@, field) is None,
            },
    {
        let mut i: usize = 0;
        assert(self@.skip(0) =~= self@);
        while i < self.fields.len()
            invariant
                i <= self.fields.len(),
                first_value(self@, field) == first_value(self@.skip(i as int), field),
            decreases self.fields.len() - i,
        {
            let ghost rest = self@.skip(i as int);
            assert(rest[0] == self@[i as int]);
            assert(rest.drop_first() =~= self@.skip(i + 1));
            if self.fields[i].field == field {
                return Some(&self.fields[i].text);
            }
            i += 1;
        }
        assert(self@.skip(i as int).len() == 0);
        None
    }
}

/// Whether the content of a file of this media type is text: every `text/`
/// type, and five application types.
pub open spec fn is_textual_mime(mime: Seq<char>) -> bool {
    ||| has_prefix(mime, "text/"@)
    ||| mime == "application/json"@
    ||| mime == "application/javascript"@
    ||| mime == "application/xml"@
    ||| mime == "application/x-yaml"@
    ||| mime == "application/x-toml"@
}

/// Whether the content of a file of the media type `mime` is text.
pub fn is_textual(mime: &str) -> (textual: bool)
    ensures
        textual == is_textual_mime(mime@),
{
    let m = chars_of(mime);
    starts_with(&m, &chars_of("text/")) || same_chars(&m, &chars_of("application/json"))
        || same_chars(&m, &chars_of("application/javascript")) || same_chars(
        &m,
        &chars_of("application/xml"),
    ) || same_chars(&m, &chars_of("application/x-yaml")) || same_chars(
        &m,
        &chars_of("application/x-toml"),
    )
}

/// Whether the content of the file is to be read and indexed: it is no
/// directory, its media type is textual, and it holds at most
/// `MAX_CONTENT_SIZE` bytes.
pub open spec fn content_wanted(info: FileInfoView) -> bool {
    &&& !info.is_dir
    &&& info.size <= MAX_CONTENT_SIZE
    &&& info.mime_type is Some
    &&& is_textual_mime(info.mime_type->Some_0)
}

/// Whether the content of the file is to be read and indexed.
pub fn wants_content(info: &FileInfo) -> (wanted: bool)
    ensures
        wanted == content_wanted(info@),
{
    if info.is_dir || info.size > MAX_CONTENT_SIZE {
        return false;
    }
    match &info.mime_type {
        Some(mime) => is_textual(mime.as_str()),
        None => false,
    }
}

/// Attaches to a record what reading its file gave: the text, or nothing
/// where the file could not be read as text. Where the content was wanted
/// and could not be read, the record goes on without content and the
/// failure is told, to be counted; where it was not wanted, nothing is
/// attached.
pub fn attach_content(info: FileInfo, read: Option<String>) -> (r: (FileInfo, Option<IndexError>))
    ensures
        r.0@ == (FileInfoView {
            content: if content_wanted(info@) {
                option_text(read)
            } else {
                None
            },
            ..info@
        }),
        r.1 == if content_wanted(info@) && read is None {
            Some(IndexError::ReadContentFailure)
        } else {
            None
        },
{
    if wants_content(&info) {
        let failure = match &read {
            Some(_) => None,
            None => Some(IndexError::ReadContentFailure),
        };
        (info.with_content(read), failure)
    } else {
        (info.with_content(None), None)
    }
}

/// The media type of a record as the index stores it: empty where none was
/// inferred.
pub open spec fn stored_mime(info: FileInfoView) -> Seq<char> {
    match info.mime_type {
        Some(m) => m,
        None => Seq::empty(),
    }
}

/// The document of a file record: path, name, size in decimal, media type
/// and extension always; the modification time in decimal seconds where it
/// is known; the content where it is wanted and was read.
pub open spec fn document_of(info: FileInfoView) -> Seq<(FieldName, Seq<char>)> {
    seq![
        (FieldName::Path, info.path),
        (FieldName::Name, info.name),
        (FieldName::Size, decimal(info.size as nat)),
        (FieldName::MimeType, stored_mime(info)),
        (FieldName::Extension, extension_of(info.name)),
    ] + (match info.modified {
        Some(secs) => seq![(FieldName::Modified, decimal(secs as nat))],
        None => Seq::empty(),
    }) + (if content_wanted(info) && info.content is Some {
        seq![(FieldName::Content, info.content->Some_0)]
    } else {
        Seq::empty()
    })
}

/// Whether a document carries content.
pub open spec fn has_content(doc: Seq<(FieldName, Seq<char>)>) -> bool {
    first_value(doc, FieldName::Content) is Some
}

/// Makes the document of a file record.
pub fn prepare_document(info: &FileInfo) -> (doc: FileDocument)
    ensures
        doc@ == document_of(info@),
{
    let mut doc = FileDocument::new();
    doc.add_text(FieldName::Path, info.path.clone());
    doc.add_text(FieldName::Name, info.name.clone());
    doc.add_text(FieldName::Size, to_decimal(info.size));
    let mime: String = match &info.mime_type {
        Some(m) => m.clone(),
        None => String::new(),
    };
    doc.add_text(FieldName::MimeType, mime);
    let name_chars = chars_of(info.name.as_str());
    doc.add_text(FieldName::Extension, string_of(&extension(&name_chars)));
    match info.modified {
        Some(secs) => {
            doc.add_text(FieldName::Modified, to_decimal(secs));
        },
        None => {},
    }
    if wants_content(info) {
        match &info.content {
            Some(text) => {
                doc.add_text(FieldName::Content, text.clone());
            },
            None => {},
        }
    }
    assert(doc@ =~= document_of(info@));
    doc
}

/// The documents of `infos[from..to]`, in order.
pub fn prepare_document_range(infos: &Vec<FileInfo>, from: usize, to: usize) -> (docs: Vec<
    FileDocument,
>)
    requires
        from <= to <= infos.len(),
    ensures
        docs.len() == to - from,
        forall|i: int| 0 <= i < docs.len() ==> (#[trigger] docs[i])@ == document_of(infos[from + i]@),
{
    let mut docs: Vec<FileDocument> = Vec::new();
    let mut i: usize = from;
    while i < to
        invariant
            from <= i <= to <= infos.len(),
            docs.len() == i - from,
            forall|k: int|
                0 <= k < docs.len() ==> (#[trigger] docs[k])@ == document_of(infos[from + k]@),
        decreases to - i,
    {
        docs.push(prepare_document(&infos[i]));
        i += 1;
    }
    docs
}

/// The documents of a batch of file records, one for each and in order.
pub fn prepare_document_batch(infos: &Vec<FileInfo>) -> (docs: Vec<FileDocument>)
    ensures
        docs.len() == infos.len(),
        forall|i: int| 0 <= i < docs.len() ==> (#[trigger] docs[i])@ == document_of(infos[i]@),
{
    prepare_document_range(infos, 0, infos.len())
}

/// Where the chunk that begins at `from` ends in a batch of `len` records:
/// after `PROCESSOR_CHUNK_SIZE` records, or with the batch.
pub open spec fn chunk_end_of(len: nat, from: nat) -> nat {
    if len - from <= PROCESSOR_CHUNK_SIZE {
        len
    } else {
        (from + PROCESSOR_CHUNK_SIZE) as nat
    }
}

/// Where the chunk that begins at `from` ends in a batch of `len` records.
pub fn chunk_end(len: usize, from: usize) -> (end: usize)
    requires
        from <= len,
    ensures
        end == chunk_end_of(len as nat, from as nat),
        from <= end <= len,
        from < len ==> from < end,
{
    if len - from <= PROCESSOR_CHUNK_SIZE {
        len
    } else {
        from + PROCESSOR_CHUNK_SIZE
    }
}

/// A file of exactly `MAX_CONTENT_SIZE` bytes keeps its content, a file of
/// one byte more loses it: for a textual file that is no directory and
/// whose content was read, the document carries content exactly up to that
/// size.
pub proof fn lemma_content_boundary(info: FileInfoView)
    requires
        !info.is_dir,
        info.mime_type is Some,
        is_textual_mime(info.mime_type->Some_0),
        info.content is Some,
    ensures
        has_content(document_of(info)) <==> info.size <= MAX_CONTENT_SIZE,
{
    lemma_first_value_content(info);
}

/// A document of a record carries content exactly if the content was wanted
/// and read; its path and name are those of the record.
pub proof fn lemma_first_value_content(info: FileInfoView)
    ensures
        has_content(document_of(info)) <==> (content_wanted(info) && info.content is Some),
        first_value(document_of(info), FieldName::Path) == Some(info.path),
        first_value(document_of(info), FieldName::Name) == Some(info.name),
        first_value(document_of(info), FieldName::Size) == Some(decimal(info.size as nat)),
        first_value(document_of(info), FieldName::MimeType) == Some(stored_mime(info)),
{
    let d = document_of(info);
    let d1 = d.drop_first();
    let d2 = d1.drop_first();
    let d3 = d2.drop_first();
    let d4 = d3.drop_first();
    let d5 = d4.drop_first();
    assert(d[0].0 == FieldName::Path);
    assert(d1[0] == d[1]);
    assert(d2[0] == d[2]);
    assert(d3[0] == d[3]);
    assert(d4[0] == d[4]);
    assert(first_value(d, FieldName::Content) == first_value(d5, FieldName::Content)) by {
        assert(first_value(d, FieldName::Content) == first_value(d1, FieldName::Content));
        assert(first_value(d1, FieldName::Content) == first_value(d2, FieldName::Content));
        assert(first_value(d2, FieldName::Content) == first_value(d3, FieldName::Content));
        assert(first_value(d3, FieldName::Content) == first_value(d4, FieldName::Content));
        assert(first_value(d4, FieldName::Content) == first_value(d5, FieldName::Content));
    }
    assert(first_value(d, FieldName::Name) == first_value(d1, FieldName::Name));
    assert(first_value(d, FieldName::Size) == first_value(d2, FieldName::Size)) by {
        assert(first_value(d, FieldName::Size) == first_value(d1, FieldName::Size));
    }
    assert(first_value(d, FieldName::MimeType) == first_value(d3, FieldName::MimeType)) by {
        assert(first_value(d, FieldName::MimeType) == first_value(d1, FieldName::MimeType));
        assert(first_value(d1, FieldName::MimeType) == first_value(d2, FieldName::MimeType));
    }
    if info.modified is Some {
        let d6 = d5.drop_first();
        assert(d5[0] == d[5]);
        assert(first_value(d5, FieldName::Content) == first_value(d6, FieldName::Content));
        if content_wanted(info) && info.content is Some {
            assert(d6[0] == d[6]);
        } else {
            assert(d6.len() == 0);
        }
    } else {
        if content_wanted(info) && info.content is Some {
            assert(d5[0] == d[5]);
        } else {
            assert(d5.len() == 0);
        }
    }
}

} // verus!
