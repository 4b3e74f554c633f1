//! The record that the scanner makes of one file.

use vstd::prelude::*;
use crate::error::IndexError;
use crate::text::{chars_of, extension, extension_of, file_name, file_name_of, string_of};

verus! {

/// What the file system tells of one entry. Instants are whole seconds since
/// the Unix epoch; one that could not be read, or lies before the epoch, is
/// absent.
#[derive(Clone, Copy, Debug)]
pub struct FileMeta {
    pub size: u64,
    pub modified: Option<u64>,
    pub created: Option<u64>,
    pub is_dir: bool,
}

/// One entry of the scanned tree.
#[derive(Clone, Debug)]
pub struct FileInfo {
    pub path: String,
    pub name: String,
    pub size: u64,
    pub modified: Option<u64>,
    pub created: Option<u64>,
    pub is_dir: bool,
    pub mime_type: Option<String>,
    pub content: Option<String>,
}

/// A `FileInfo` as plain values.
pub struct FileInfoView {
    pub path: Seq<char>,
    pub name: Seq<char>,
    pub size: u64,
    pub modified: Option<u64>,
    pub created: Option<u64>,
    pub is_dir: bool,
    pub mime_type: Option<Seq<char>>,
    pub content: Option<Seq<char>>,
}

/// The characters of an optional string.
pub open spec fn option_text(s: Option<String>) -> Option<Seq<char>> {
    match s {
        Some(t) => Some(t@),
        None => None,
    }
}

impl View for FileInfo {
    type V = FileInfoView;

    open spec fn view(&self) -> FileInfoView {
        FileInfoView {
            path: self.path@,
            name: self.name@,
            size: self.size,
            modified: self.modified,
            created: self.created,
            is_dir: self.is_dir,
            mime_type: option_text(self.mime_type),
            content: option_text(self.content),
        }
    }
}

/// The media type that `mime_guess` holds first for the extension `ext`.
pub uninterp spec fn mime_of_extension(ext: Seq<char>) -> Option<Seq<char>>;

/// `mime_guess::from_ext(ext).first_raw()`: the first media type of the
/// crate's table for this extension, looked up without regard to case. The
/// result depends on the extension alone, and the empty extension has none.
#[verifier::external_body]
fn guess_mime(ext: &str) -> (mime: Option<String>)
    ensures
        option_text(mime) == mime_of_extension(ext@),
        ext@.len() == 0 ==> mime is None,
{
    mime_guess::from_ext(ext).first_raw().map(|m| m.to_string())
}

/// The media type inferred for a file of the name `name`.
pub open spec fn mime_of_name(name: Seq<char>) -> Option<Seq<char>> {
    mime_of_extension(extension_of(name))
}

/// The media type inferred for a file of the name `name`, from its extension.
pub fn infer_mime(name: &str) -> (mime: Option<String>)
    ensures
        option_text(mime) == mime_of_name(name@),
        extension_of(name@).len() == 0 ==> mime is None,
{
    let chars = chars_of(name);
    let ext = string_of(&extension(&chars));
    guess_mime(ext.as_str())
}

impl FileInfo {
    /// The record of the entry at `path` with the metadata `meta`: its name
    /// is the path's terminal component, its media type the one inferred from
    /// the name, and it carries no content yet.
    pub open spec fn record_of(path: Seq<char>, meta: FileMeta) -> FileInfoView {
        FileInfoView {
            path,
            name: file_name_of(path),
            size: meta.size,
            modified: meta.modified,
            created: meta.created,
            is_dir: meta.is_dir,
            mime_type: mime_of_name(file_name_of(path)),
            content: None,
        }
    }

    /// Makes the record of the entry at `path`. `meta` is what reading the
    /// entry's metadata gave, or `None` where that failed, and then there is
    /// no record.
    pub fn from_path(path: &str, meta: Option<FileMeta>) -> (r: Result<FileInfo, IndexError>)
        ensures
            match meta {
                Some(m) => r is Ok && r->Ok_0@ == Self::record_of(path@, m),
                None => r == Err::<FileInfo, IndexError>(IndexError::ReadMetadataFailure),
            },
    {
        match meta {
            None => Err(IndexError::ReadMetadataFailure),
            Some(m) => {
                let chars = chars_of(path);
                let name = string_of(&file_name(&chars));
                let mime_type = infer_mime(name.as_str());
                Ok(
                    FileInfo {
                        path: string_of(&chars),
                        name,
                        size: m.size,
                        modified: m.modified,
                        created: m.created,
                        is_dir: m.is_dir,
                        mime_type,
                        content: None,
                    },
                )
            },
        }
    }

    /// This record with the text `content` attached.
    pub fn with_content(self, content: Option<String>) -> (r: FileInfo)
        ensures
            r@ == (FileInfoView { content: option_text(content), ..self@ }),
    {
        FileInfo {
            path: self.path,
            name: self.name,
            size: self.size,
            modified: self.modified,
            created: self.created,
            is_dir: self.is_dir,
            mime_type: self.mime_type,
            content,
        }
    }
}

} // verus!
