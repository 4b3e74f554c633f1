//! Progress snapshots, and the sampler that makes them from the counters.

use vstd::prelude::*;
use vstd::string::StringExecFns;
use crate::error::IndexError;
use crate::fixed::{push_tenths, round_ratio, rounded_ratio, tenths_text};
use crate::limits::STALL_SAMPLES;
use crate::phase::Phase;
use crate::text::{decimal, push_decimal};

verus! {

/// One snapshot of a session's progress, as the observer receives it.
#[derive(Clone, Debug)]
pub struct IndexingState {
    pub total_files: usize,
    pub processed_files: usize,
    pub current_file: String,
    pub is_complete: bool,
    pub state: String,
    pub files_found: usize,
    pub start_time: u64,
    pub speed: u64,
    pub phase: String,
}

/// Two snapshots show the same.
pub open spec fn same_state(a: IndexingState, b: IndexingState) -> bool {
    &&& a.total_files == b.total_files
    &&& a.processed_files == b.processed_files
    &&& a.current_file@ == b.current_file@
    &&& a.is_complete == b.is_complete
    &&& a.state@ == b.state@
    &&& a.files_found == b.files_found
    &&& a.start_time == b.start_time
    &&& a.speed == b.speed
    &&& a.phase@ == b.phase@
}

/// The snapshot of a session that has not begun.
pub open spec fn is_initial_state(s: IndexingState) -> bool {
    &&& s.total_files == 0
    &&& s.processed_files == 0
    &&& s.current_file@ == Seq::<char>::empty()
    &&& !s.is_complete
    &&& s.state@ == "Initializing"@
    &&& s.files_found == 0
    &&& s.start_time == 0
    &&& s.speed == 0
    &&& s.phase@ == Phase::Scanning.name_text()
}

impl Default for IndexingState {
    /// The snapshot of a session that has not begun.
    fn default() -> (s: IndexingState)
        ensures
            is_initial_state(s),
    {
        IndexingState {
            total_files: 0,
            processed_files: 0,
            current_file: String::new(),
            is_complete: false,
            state: String::from_str("Initializing"),
            files_found: 0,
            start_time: 0,
            speed: 0,
            phase: Phase::Scanning.name(),
        }
    }
}

/// A snapshot as the indexing command reports it.
#[derive(Clone, Debug)]
pub struct IndexingProgress {
    pub total_files: usize,
    pub processed_files: usize,
    pub current_file: String,
    pub state: String,
    pub is_complete: bool,
    pub files_found: usize,
    pub start_time: u64,
}

impl IndexingProgress {
    /// The report of a snapshot: the same values, without speed and phase.
    pub fn from_state(state: &IndexingState) -> (p: IndexingProgress)
        ensures
            p.total_files == state.total_files,
            p.processed_files == state.processed_files,
            p.current_file@ == state.current_file@,
            p.state@ == state.state@,
            p.is_complete == state.is_complete,
            p.files_found == state.files_found,
            p.start_time == state.start_time,
    {
        IndexingProgress {
            total_files: state.total_files,
            processed_files: state.processed_files,
            current_file: state.current_file.clone(),
            state: state.state.clone(),
            is_complete: state.is_complete,
            files_found: state.files_found,
            start_time: state.start_time,
        }
    }
}

/// The counters of a session, read at one moment.
#[derive(Clone, Copy, Debug, PartialEq, Eq, Structural)]
pub struct Counters {
    /// Files found by the scanner.
    pub total: usize,
    /// Files that the preparers have turned into documents.
    pub processed: usize,
    /// Failures counted so far.
    pub errors: usize,
}

/// `x`, or the largest 64-bit number where `x` is larger.
pub open spec fn capped(x: nat) -> u64 {
    if x > u64::MAX {
        u64::MAX
    } else {
        x as u64
    }
}

/// The total that a snapshot shows: the files found, but never fewer than
/// an earlier snapshot showed.
pub open spec fn shown_total(last_total: nat, total: nat) -> nat {
    if total < last_total {
        last_total
    } else {
        total
    }
}

/// The processed files that a snapshot shows: none before processing has
/// begun, and never more than the total it shows.
pub open spec fn shown_processed(phase: Phase, processed: nat, total: nat) -> nat {
    if phase == Phase::Idle || phase == Phase::Scanning {
        0
    } else if processed > total {
        total
    } else {
        processed
    }
}

/// Files per second: the files processed since the last sample, over the
/// `window_ms` milliseconds since then.
pub open spec fn throughput(last_processed: nat, processed: nat, window_ms: nat) -> u64 {
    if window_ms == 0 || processed <= last_processed {
        0
    } else {
        capped(((processed - last_processed) * 1000) as nat / window_ms)
    }
}

/// The samples in a row without progress, counted up to `STALL_SAMPLES`.
pub open spec fn unchanged_after(unchanged: nat, last_processed: nat, processed: nat) -> nat {
    if processed != last_processed {
        0
    } else if unchanged >= STALL_SAMPLES {
        STALL_SAMPLES as nat
    } else {
        unchanged + 1
    }
}

/// Failures per thousand processed files, rounded.
pub open spec fn error_rate_tenths(errors: nat, processed: nat) -> u64 {
    if processed == 0 {
        0
    } else {
        capped(rounded_ratio(errors * 1000, processed))
    }
}

/// The line that tells of a scan.
pub open spec fn scanning_text(total: nat) -> Seq<char> {
    "Scanning... (found "@ + decimal(total) + " files)"@
}

/// The line that tells of processing at `speed` files per second.
pub open spec fn processing_text(speed: nat) -> Seq<char> {
    "Processing files ("@ + decimal(speed) + " files/sec)"@
}

/// The line that tells of processing with failures.
pub open spec fn processing_errors_text(speed: nat, rate_tenths: nat) -> Seq<char> {
    "Processing files ("@ + decimal(speed) + " files/sec, "@ + tenths_text(rate_tenths)
        + "% error rate)"@
}

/// The warning of a stall.
pub open spec fn stalled_text(processed: nat, total: nat, errors: nat) -> Seq<char> {
    "Processing stalled - "@ + decimal(processed) + " files processed, "@ + decimal(total)
        + " total, "@ + decimal(errors) + " errors"@
}

/// The line of a snapshot: during the scan the files found; during
/// processing the warning of a stall, or the speed, with the error rate
/// where there were failures; in any other phase the phase's name.
pub open spec fn state_text(
    phase: Phase,
    counters: Counters,
    total: nat,
    speed: nat,
    stalled: bool,
) -> Seq<char> {
    match phase {
        Phase::Scanning => scanning_text(total),
        Phase::Processing => if stalled {
            stalled_text(counters.processed as nat, total, counters.errors as nat)
        } else if counters.errors > 0 && counters.processed > 0 {
            processing_errors_text(
                speed,
                error_rate_tenths(counters.errors as nat, counters.processed as nat) as nat,
            )
        } else {
            processing_text(speed)
        },
        _ => phase.name_text(),
    }
}

/// `snap` is the snapshot that the sampler `before` makes of the counters in
/// the phase `phase`, `window_ms` after its last sample and `elapsed_secs`
/// into the session.
pub open spec fn is_sample_of(
    snap: IndexingState,
    before: ProgressSampler,
    counters: Counters,
    phase: Phase,
    window_ms: u64,
    elapsed_secs: u64,
) -> bool {
    &&& snap.total_files == shown_total(before.last_total(), counters.total as nat)
    &&& snap.processed_files == shown_processed(
        phase,
        counters.processed as nat,
        snap.total_files as nat,
    )
    &&& snap.files_found == snap.total_files
    &&& snap.speed == throughput(
        before.last_processed(),
        counters.processed as nat,
        window_ms as nat,
    )
    &&& snap.start_time == elapsed_secs
    &&& !snap.is_complete
    &&& snap.current_file@ == Seq::<char>::empty()
    &&& snap.phase@ == phase.name_text()
    &&& snap.state@ == state_text(
        phase,
        counters,
        snap.total_files as nat,
        snap.speed as nat,
        unchanged_after(before.unchanged(), before.last_processed(), counters.processed as nat)
            >= STALL_SAMPLES,
    )
}

/// The sampler of a session: what the last sample saw.
#[derive(Clone, Copy, Debug)]
pub struct ProgressSampler {
    last_processed: usize,
    last_total: usize,
    last_errors: usize,
    unchanged: usize,
}

impl ProgressSampler {
    /// The processed files at the last sample.
    pub closed spec fn last_processed(&self) -> nat {
        self.last_processed as nat
    }

    /// The total that the last snapshot showed.
    pub closed spec fn last_total(&self) -> nat {
        self.last_total as nat
    }

    /// The failures at the last sample.
    pub closed spec fn last_errors(&self) -> nat {
        self.last_errors as nat
    }

    /// The samples in a row without progress.
    pub closed spec fn unchanged(&self) -> nat {
        self.unchanged as nat
    }

    /// The count of samples without progress is within its limit.
    pub closed spec fn wf(&self) -> bool {
        self.unchanged <= STALL_SAMPLES
    }

    /// The sampler has taken no sample yet.
    pub open spec fn is_fresh(&self) -> bool {
        &&& self.wf()
        &&& self.last_processed() == 0
        &&& self.last_total() == 0
        &&& self.last_errors() == 0
        &&& self.unchanged() == 0
    }

    /// The sampler of a new session.
    pub fn new() -> (s: ProgressSampler)
        ensures
            s.is_fresh(),
    {
        ProgressSampler { last_processed: 0, last_total: 0, last_errors: 0, unchanged: 0 }
    }

    /// Whether the last sample found the session stalled: `STALL_SAMPLES`
    /// samples in a row without progress.
    pub open spec fn is_stalled(&self) -> bool {
        self.unchanged() >= STALL_SAMPLES
    }

    /// Whether the last sample found the session stalled.
    pub fn stalled(&self) -> (s: bool)
        ensures
            s == self.is_stalled(),
    {
        self.unchanged >= STALL_SAMPLES
    }

    /// Makes the snapshot of one sample. `window_ms` is the time since the
    /// last sample, `elapsed_secs` the time since the session began.
    ///
    /// The snapshot never shows more processed files than files in all, and
    /// never a smaller total than the snapshot before it.
    pub fn sample(
        &mut self,
        counters: Counters,
        phase: Phase,
        window_ms: u64,
        elapsed_secs: u64,
    ) -> (snap: IndexingState)
        requires
            old(self).wf(),
        ensures
            final(self).wf(),
            final(self).last_processed() == counters.processed,
            final(self).last_errors() == counters.errors,
            final(self).last_total() == snap.total_files,
            final(self).unchanged() == unchanged_after(
                old(self).unchanged(),
                old(self).last_processed(),
                counters.processed as nat,
            ),
            is_sample_of(snap, *old(self), counters, phase, window_ms, elapsed_secs),
            snap.processed_files <= snap.total_files,
            snap.total_files >= old(self).last_total(),
    {
        let total: usize = if counters.total < self.last_total {
            self.last_total
        } else {
            counters.total
        };
        let processed: usize = match phase {
            Phase::Idle | Phase::Scanning => 0,
            _ => if counters.processed > total {
                total
            } else {
                counters.processed
            },
        };
        let speed: u64 = if window_ms == 0 || counters.processed <= self.last_processed {
            0
        } else {
            let delta: u128 = (counters.processed - self.last_processed) as u128;
            let per_sec: u128 = delta * 1000 / (window_ms as u128);
            if per_sec > u64::MAX as u128 {
                u64::MAX
            } else {
                per_sec as u64
            }
        };
        let unchanged: usize = if counters.processed != self.last_processed {
            0
        } else if self.unchanged >= STALL_SAMPLES {
            STALL_SAMPLES
        } else {
            self.unchanged + 1
        };
        let stalled = unchanged >= STALL_SAMPLES;
        let state: String = match phase {
            Phase::Scanning => {
                let mut s = String::from_str("Scanning... (found ");
                push_decimal(&mut s, total as u64);
                s.append(" files)");
                s
            },
            Phase::Processing => {
                if stalled {
                    let mut s = String::from_str("Processing stalled - ");
                    push_decimal(&mut s, counters.processed as u64);
                    s.append(" files processed, ");
                    push_decimal(&mut s, total as u64);
                    s.append(" total, ");
                    push_decimal(&mut s, counters.errors as u64);
                    s.append(" errors");
                    s
                } else if counters.errors > 0 && counters.processed > 0 {
                    let rate = error_rate(counters.errors, counters.processed);
                    let mut s = String::from_str("Processing files (");
                    push_decimal(&mut s, speed);
                    s.append(" files/sec, ");
                    push_tenths(&mut s, rate);
                    s.append("% error rate)");
                    s
                } else {
                    let mut s = String::from_str("Processing files (");
                    push_decimal(&mut s, speed);
                    s.append(" files/sec)");
                    s
                }
            },
            _ => phase.name(),
        };
        self.last_processed = counters.processed;
        self.last_total = total;
        self.last_errors = counters.errors;
        self.unchanged = unchanged;
        IndexingState {
            total_files: total,
            processed_files: processed,
            current_file: String::new(),
            is_complete: false,
            state,
            files_found: total,
            start_time: elapsed_secs,
            speed,
            phase: phase.name(),
        }
    }
}

/// Failures per thousand processed files, rounded.
pub fn error_rate(errors: usize, processed: usize) -> (tenths: u64)
    ensures
        tenths == error_rate_tenths(errors as nat, processed as nat),
{
    if processed == 0 {
        return 0;
    }
    let rate: u128 = round_ratio((errors as u128) * 1000, processed as u128);
    if rate > u64::MAX as u128 {
        u64::MAX
    } else {
        rate as u64
    }
}

/// Files per second over a whole session.
pub open spec fn overall_speed(processed: nat, elapsed_ms: nat) -> u64 {
    if elapsed_ms == 0 {
        0
    } else {
        capped((processed * 1000) as nat / elapsed_ms)
    }
}

/// `snap` is the last snapshot of a session that has completed after
/// `elapsed_ms` with `processed` files: every processed file counts as
/// found, and the speed is that of the whole session.
pub open spec fn is_complete_state(snap: IndexingState, processed: usize, elapsed_ms: u64) -> bool {
    &&& snap.total_files == processed
    &&& snap.processed_files == processed
    &&& snap.files_found == processed
    &&& snap.is_complete
    &&& snap.current_file@ == Seq::<char>::empty()
    &&& snap.state@ == Phase::Complete.name_text()
    &&& snap.phase@ == Phase::Complete.name_text()
    &&& snap.start_time == elapsed_ms / 1000
    &&& snap.speed == overall_speed(processed as nat, elapsed_ms as nat)
}

/// `snap` is the last snapshot of a session that has failed with `error`
/// after the snapshot `last`: the phase is `Error` and the line is the
/// failure's message.
pub open spec fn is_error_state(snap: IndexingState, last: IndexingState, error: Option<IndexError>)
    -> bool {
    &&& snap.total_files == last.total_files
    &&& snap.processed_files == last.processed_files
    &&& snap.files_found == last.files_found
    &&& snap.start_time == last.start_time
    &&& snap.speed == 0
    &&& !snap.is_complete
    &&& snap.current_file@ == Seq::<char>::empty()
    &&& snap.state@ == failure_text(error)
    &&& snap.phase@ == Phase::Error.name_text()
}

/// The last snapshot of a session that has completed.
pub fn complete_state(processed: usize, elapsed_ms: u64) -> (snap: IndexingState)
    ensures
        is_complete_state(snap, processed, elapsed_ms),
{
    let speed: u64 = if elapsed_ms == 0 {
        0
    } else {
        let per_sec: u128 = (processed as u128) * 1000 / (elapsed_ms as u128);
        if per_sec > u64::MAX as u128 {
            u64::MAX
        } else {
            per_sec as u64
        }
    };
    IndexingState {
        total_files: processed,
        processed_files: processed,
        current_file: String::new(),
        is_complete: true,
        state: Phase::Complete.name(),
        files_found: processed,
        start_time: elapsed_ms / 1000,
        speed,
        phase: Phase::Complete.name(),
    }
}

/// The line of a failed session: the failure's message, or the name of the
/// phase where the failure is not known.
pub open spec fn failure_text(error: Option<IndexError>) -> Seq<char> {
    match error {
        Some(e) => e.message_text(),
        None => Phase::Error.name_text(),
    }
}

/// The last snapshot of a session that has failed.
pub fn error_state(last: &IndexingState, error: Option<IndexError>) -> (snap: IndexingState)
    ensures
        is_error_state(snap, *last, error),
{
    let state = match error {
        Some(e) => e.message(),
        None => Phase::Error.name(),
    };
    IndexingState {
        total_files: last.total_files,
        processed_files: last.processed_files,
        current_file: String::new(),
        is_complete: false,
        state,
        files_found: last.files_found,
        start_time: last.start_time,
        speed: 0,
        phase: Phase::Error.name(),
    }
}

/// Across the snapshots of one session the total never falls, whatever the
/// counters read: the total of a sample is at least the total of the sample
/// before it.
pub proof fn lemma_total_never_falls(last_total: nat, first: nat, second: nat)
    ensures
        shown_total(last_total, first) >= last_total,
        shown_total(shown_total(last_total, first), second) >= shown_total(last_total, first),
{
}

/// No snapshot shows more processed files than files in all.
pub proof fn lemma_processed_within_total(phase: Phase, processed: nat, total: nat)
    ensures
        shown_processed(phase, processed, total) <= total,
{
}

} // verus!
