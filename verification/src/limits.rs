//! The fixed numbers of the indexing pipeline.

use vstd::prelude::*;

verus! {

/// Documents after which the writer commits.
pub const COMMIT_BATCH_SIZE: usize = 100_000;

/// Memory budget of the main index writer, in bytes.
pub const INDEX_BUFFER_SIZE: usize = 2_000_000_000;

/// Memory budget of a writer on a host that is short of memory, in bytes.
pub const SMALL_INDEX_BUFFER_SIZE: usize = 50_000_000;

/// Capacity of each of the two channels between the stages, in batches.
pub const SCAN_QUEUE_SIZE: usize = 50_000;

/// File records that a scanner worker gathers before it sends them on.
pub const SCAN_BATCH_SIZE: usize = 500;

/// Files after which a scanner worker yields for a moment.
pub const SCAN_YIELD_THRESHOLD: usize = 5_000;

/// Files found above which a scanner's yield is the long one.
pub const LARGE_SCAN_FILES: usize = 100_000;

/// A scanner's short yield, in milliseconds.
pub const SHORT_YIELD_MS: u64 = 1;

/// A scanner's yield during a large scan, in milliseconds.
pub const LONG_YIELD_MS: u64 = 5;

/// File records that a preparer takes in one batch.
pub const PROCESSOR_BATCH_SIZE: usize = 10_000;

/// File records that a preparer turns into documents at a time.
pub const PROCESSOR_CHUNK_SIZE: usize = 2_500;

/// The most preparer workers that run at once.
pub const MAX_CONCURRENT_INDEXERS: usize = 4;

/// The scanner's own worker threads.
pub const MAX_CONCURRENT_SCANNERS: usize = 1;

/// Milliseconds between two progress samples.
pub const PROGRESS_UPDATE_INTERVAL_MS: u64 = 500;

/// Samples without progress after which a snapshot carries the stall warning.
pub const STALL_SAMPLES: usize = 20;

/// Milliseconds that the final cleanup may take.
pub const CLEANUP_TIMEOUT_MS: u64 = 15_000;

/// Milliseconds between two attempts at a failed batch.
pub const ERROR_RETRY_DELAY_MS: u64 = 100;

/// Attempts at one batch, and at one send, before it is given up.
pub const MAX_ERROR_RETRIES: usize = 3;

/// A preparer leaves after more failed sends in a row than this.
pub const MAX_CONSECUTIVE_SEND_ERRORS: usize = 5;

/// A preparer leaves after more failed sends in all than this.
pub const MAX_TOTAL_SEND_ERRORS: usize = 20;

/// The first delay after a full channel, in milliseconds.
pub const BACKOFF_START_MS: u64 = 1;

/// The longest delay after a full channel, in milliseconds.
pub const BACKOFF_CAP_MS: u64 = 100;

/// The largest textual file whose content is indexed: 10 MiB.
pub const MAX_CONTENT_SIZE: u64 = 10_485_760;

/// The most hits that a query returns.
pub const SEARCH_LIMIT: usize = 100;

/// Files after which the plain directory indexer commits.
pub const PLAIN_COMMIT_INTERVAL: usize = 1_000;

} // verus!
