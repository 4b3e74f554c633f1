//! Indexing of a directory tree into a full-text index, and ranked search
//! over it: the rules of the scanner, the document preparers, the batched
//! writer, the progress sampler, the session and the query surface.

pub mod backoff;
pub mod document;
pub mod error;
pub mod file_info;
pub mod fixed;
pub mod index;
pub mod limits;
pub mod manager;
pub mod phase;
pub mod progress;
pub mod scanner;
pub mod search;
pub mod session;
pub mod stats;
pub mod text;
pub mod tracking;
pub mod watcher;
pub mod writer;
