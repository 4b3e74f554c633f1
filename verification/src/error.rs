//! The failures that the library reports.

use vstd::prelude::*;
use vstd::string::StringExecFns;

verus! {

/// What can go wrong while indexing or searching.
#[derive(Clone, Copy, Debug, PartialEq, Eq, Structural)]
pub enum IndexError {
    /// No directory was chosen.
    NoSelection,
    /// The root path is missing or is no directory.
    InvalidRoot,
    /// An indexing session is already live.
    SessionBusy,
    /// The metadata of an entry could not be read.
    ReadMetadataFailure,
    /// The content of a file could not be read as text.
    ReadContentFailure,
    /// The index writer refused a document.
    WriteAppendFailure,
    /// A commit failed.
    CommitFailure,
    /// The final cleanup ran out of time.
    CleanupTimeout,
    /// The query could not be parsed.
    BadQuery,
    /// No reader could be opened on the index.
    NoIndex,
    /// The index lacks one of the fields of the schema.
    SchemaMismatch,
    /// The index writer could not be created.
    WriterUnavailable,
    /// The background merges ended with an error.
    MergeFailure,
    /// The index failed while it ran a query or fetched a hit.
    SearchFailure,
    /// A hit lacks its stored path.
    MissingPath,
    /// A hit lacks its stored name.
    MissingName,
}

impl IndexError {
    /// The text of this failure's message.
    pub open spec fn message_text(self) -> Seq<char> {
        match self {
            IndexError::NoSelection => "No directory selected"@,
            IndexError::InvalidRoot => "Directory does not exist"@,
            IndexError::SessionBusy => "Indexing already in progress"@,
            IndexError::ReadMetadataFailure => "Failed to get metadata"@,
            IndexError::ReadContentFailure => "Failed to decode file content"@,
            IndexError::WriteAppendFailure => "Failed to add document"@,
            IndexError::CommitFailure => "Failed to commit"@,
            IndexError::CleanupTimeout => "Final cleanup timed out"@,
            IndexError::BadQuery => "Failed to parse query"@,
            IndexError::NoIndex => "Failed to get index reader"@,
            IndexError::SchemaMismatch => "Index schema does not match"@,
            IndexError::WriterUnavailable => "Failed to create index writer"@,
            IndexError::MergeFailure => "Merging threads error"@,
            IndexError::SearchFailure => "Search failed"@,
            IndexError::MissingPath => "Document missing path field"@,
            IndexError::MissingName => "Document missing name field"@,
        }
    }

    /// A message for people.
    pub fn message(&self) -> (text: String)
        ensures
            text@ == self.message_text(),
    {
        let text: &str = match self {
            IndexError::NoSelection => "No directory selected",
            IndexError::InvalidRoot => "Directory does not exist",
            IndexError::SessionBusy => "Indexing already in progress",
            IndexError::ReadMetadataFailure => "Failed to get metadata",
            IndexError::ReadContentFailure => "Failed to decode file content",
            IndexError::WriteAppendFailure => "Failed to add document",
            IndexError::CommitFailure => "Failed to commit",
            IndexError::CleanupTimeout => "Final cleanup timed out",
            IndexError::BadQuery => "Failed to parse query",
            IndexError::NoIndex => "Failed to get index reader",
            IndexError::SchemaMismatch => "Index schema does not match",
            IndexError::WriterUnavailable => "Failed to create index writer",
            IndexError::MergeFailure => "Merging threads error",
            IndexError::SearchFailure => "Search failed",
            IndexError::MissingPath => "Document missing path field",
            IndexError::MissingName => "Document missing name field",
        };
        String::from_str(text)
    }

    /// Whether the session goes on after this failure.
    pub open spec fn is_recoverable(self) -> bool {
        match self {
            IndexError::ReadMetadataFailure
            | IndexError::ReadContentFailure
            | IndexError::WriteAppendFailure
            | IndexError::CleanupTimeout => true,
            _ => false,
        }
    }

    /// Whether the session goes on after this failure: a failure of one entry
    /// or one document is skipped, and a cleanup that runs out of time is
    /// recorded only.
    pub fn recoverable(&self) -> (r: bool)
        ensures
            r == self.is_recoverable(),
    {
        match self {
            IndexError::ReadMetadataFailure
            | IndexError::ReadContentFailure
            | IndexError::WriteAppendFailure
            | IndexError::CleanupTimeout => true,
            _ => false,
        }
    }
}

} // verus!
