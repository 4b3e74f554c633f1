use constella::error::IndexError;
use constella::phase::{Phase, PhaseEvent};
use constella::progress::{
    complete_state, error_rate, error_state, Counters, IndexingProgress, IndexingState,
    ProgressSampler,
};

fn counters(total: usize, processed: usize, errors: usize) -> Counters {
    Counters { total, processed, errors }
}

#[test]
fn default_state_is_the_state_before_a_session() {
    let s = IndexingState::default();
    assert_eq!(s.total_files, 0);
    assert_eq!(s.processed_files, 0);
    assert_eq!(s.current_file, "");
    assert!(!s.is_complete);
    assert_eq!(s.state, "Initializing");
    assert_eq!(s.files_found, 0);
    assert_eq!(s.start_time, 0);
    assert_eq!(s.speed, 0);
    assert_eq!(s.phase, "Scanning");
}

#[test]
fn a_scanning_snapshot_shows_the_files_found_and_none_processed() {
    let mut sampler = ProgressSampler::new();
    let snap = sampler.sample(counters(1_200, 300, 0), Phase::Scanning, 500, 3);
    assert_eq!(snap.total_files, 1_200);
    assert_eq!(snap.files_found, 1_200);
    assert_eq!(snap.processed_files, 0);
    assert_eq!(snap.state, "Scanning... (found 1200 files)");
    assert_eq!(snap.phase, "Scanning");
    assert_eq!(snap.start_time, 3);
    assert_eq!(snap.current_file, "");
    assert!(!snap.is_complete);
}

#[test]
fn throughput_is_the_files_since_the_last_sample_over_the_window() {
    let mut sampler = ProgressSampler::new();
    let first = sampler.sample(counters(10_000, 1_000, 0), Phase::Processing, 500, 1);
    assert_eq!(first.speed, 2_000);
    assert_eq!(first.state, "Processing files (2000 files/sec)");
    let second = sampler.sample(counters(10_000, 1_750, 0), Phase::Processing, 500, 2);
    assert_eq!(second.speed, 1_500);
    assert_eq!(second.processed_files, 1_750);
    let third = sampler.sample(counters(10_000, 1_751, 0), Phase::Processing, 3_000, 5);
    assert_eq!(third.speed, 0);
    let none = sampler.sample(counters(10_000, 2_000, 0), Phase::Processing, 0, 5);
    assert_eq!(none.speed, 0);
}

#[test]
fn processed_never_exceeds_total() {
    let mut sampler = ProgressSampler::new();
    let snap = sampler.sample(counters(10, 25, 0), Phase::Processing, 500, 1);
    assert_eq!(snap.total_files, 10);
    assert_eq!(snap.processed_files, 10);
    assert!(snap.processed_files <= snap.total_files);
}

#[test]
fn total_never_falls_across_snapshots() {
    let mut sampler = ProgressSampler::new();
    let totals: Vec<usize> = [5usize, 40, 30, 30, 100, 0, 101]
        .iter()
        .map(|t| sampler.sample(counters(*t, 0, 0), Phase::Scanning, 500, 1).total_files)
        .collect();
    assert_eq!(totals, vec![5, 40, 40, 40, 100, 100, 101]);
}

#[test]
fn a_stall_is_warned_of_after_twenty_samples_without_progress() {
    let mut sampler = ProgressSampler::new();
    let first = sampler.sample(counters(100, 40, 2), Phase::Processing, 500, 1);
    assert!(!sampler.stalled());
    assert_eq!(first.state, "Processing files (80 files/sec, 5.0% error rate)");
    for i in 1..20 {
        let snap = sampler.sample(counters(100, 40, 2), Phase::Processing, 500, 1);
        assert!(!sampler.stalled(), "after {} samples without progress", i);
        assert_eq!(snap.state, "Processing files (0 files/sec, 5.0% error rate)");
    }
    let stalled = sampler.sample(counters(100, 40, 2), Phase::Processing, 500, 1);
    assert!(sampler.stalled());
    assert_eq!(stalled.state, "Processing stalled - 40 files processed, 100 total, 2 errors");
    let still = sampler.sample(counters(100, 40, 2), Phase::Processing, 500, 1);
    assert_eq!(still.state, "Processing stalled - 40 files processed, 100 total, 2 errors");
    let moving = sampler.sample(counters(100, 41, 2), Phase::Processing, 500, 1);
    assert!(!sampler.stalled());
    assert_eq!(moving.state, "Processing files (2 files/sec, 4.9% error rate)");
}

#[test]
fn error_rate_is_in_tenths_of_a_percent_rounded_to_even() {
    assert_eq!(error_rate(0, 0), 0);
    assert_eq!(error_rate(5, 0), 0);
    assert_eq!(error_rate(0, 100), 0);
    assert_eq!(error_rate(1, 100), 10);
    assert_eq!(error_rate(1, 3), 333);
    assert_eq!(error_rate(2, 3), 667);
    assert_eq!(error_rate(1, 2_000), 0);
    assert_eq!(error_rate(3, 2_000), 2);
    assert_eq!(error_rate(100, 100), 1_000);
}

#[test]
fn later_phases_show_their_name() {
    let mut sampler = ProgressSampler::new();
    let snap = sampler.sample(counters(10, 10, 0), Phase::Flushing, 500, 9);
    assert_eq!(snap.state, "Flushing");
    assert_eq!(snap.phase, "Flushing");
    assert_eq!(snap.processed_files, 10);
    let merging = sampler.sample(counters(10, 10, 0), Phase::Merging, 500, 9);
    assert_eq!(merging.state, "Merging");
}

#[test]
fn the_last_snapshot_of_a_completed_session() {
    let snap = complete_state(250_000, 12_500);
    assert_eq!(snap.total_files, 250_000);
    assert_eq!(snap.processed_files, 250_000);
    assert_eq!(snap.files_found, 250_000);
    assert!(snap.is_complete);
    assert_eq!(snap.state, "Complete");
    assert_eq!(snap.phase, "Complete");
    assert_eq!(snap.speed, 20_000);
    assert_eq!(snap.start_time, 12);
    let empty = complete_state(0, 0);
    assert_eq!(empty.total_files, 0);
    assert_eq!(empty.processed_files, 0);
    assert_eq!(empty.speed, 0);
    assert!(empty.is_complete);
}

#[test]
fn the_last_snapshot_of_a_failed_session() {
    let mut sampler = ProgressSampler::new();
    let last = sampler.sample(counters(50, 20, 3), Phase::Processing, 500, 4);
    let snap = error_state(&last, Some(IndexError::CommitFailure));
    assert_eq!(snap.phase, "Error");
    assert_eq!(snap.state, "Failed to commit");
    assert_eq!(snap.total_files, 50);
    assert_eq!(snap.processed_files, 20);
    assert!(!snap.is_complete);
    assert_eq!(snap.speed, 0);
}

#[test]
fn the_report_of_a_snapshot_copies_its_values() {
    let mut sampler = ProgressSampler::new();
    let snap = sampler.sample(counters(7, 3, 0), Phase::Processing, 1_000, 2);
    let report = IndexingProgress::from_state(&snap);
    assert_eq!(report.total_files, 7);
    assert_eq!(report.processed_files, 3);
    assert_eq!(report.current_file, "");
    assert_eq!(report.state, "Processing files (3 files/sec)");
    assert!(!report.is_complete);
    assert_eq!(report.files_found, 7);
    assert_eq!(report.start_time, 2);
}

#[test]
fn phases_follow_the_order_of_a_session() {
    let path = [
        PhaseEvent::Started,
        PhaseEvent::FirstBatchQueued,
        PhaseEvent::UpstreamDrained,
        PhaseEvent::FinalCommitDone,
        PhaseEvent::MergesQuiesced,
    ];
    let mut phase = Phase::Idle;
    let mut seen = vec![phase];
    for event in path {
        phase = phase.next(event);
        seen.push(phase);
    }
    assert_eq!(
        seen,
        vec![
            Phase::Idle,
            Phase::Scanning,
            Phase::Processing,
            Phase::Flushing,
            Phase::Merging,
            Phase::Complete
        ]
    );
}

#[test]
fn an_empty_scan_still_reaches_processing() {
    assert_eq!(Phase::Scanning.next(PhaseEvent::ScanFinished), Phase::Processing);
}

#[test]
fn a_failure_ends_a_working_session_and_no_other() {
    for phase in [Phase::Scanning, Phase::Processing, Phase::Flushing, Phase::Merging] {
        assert_eq!(phase.next(PhaseEvent::Failed), Phase::Error);
        assert!(phase.active());
        assert!(!phase.terminal());
    }
    assert_eq!(Phase::Idle.next(PhaseEvent::Failed), Phase::Idle);
    assert_eq!(Phase::Complete.next(PhaseEvent::Failed), Phase::Complete);
}

#[test]
fn ended_sessions_stay_as_they_are() {
    let events = [
        PhaseEvent::Started,
        PhaseEvent::FirstBatchQueued,
        PhaseEvent::ScanFinished,
        PhaseEvent::UpstreamDrained,
        PhaseEvent::FinalCommitDone,
        PhaseEvent::MergesQuiesced,
        PhaseEvent::CleanupTimedOut,
        PhaseEvent::Failed,
    ];
    for event in events {
        assert_eq!(Phase::Complete.next(event), Phase::Complete);
        assert_eq!(Phase::Error.next(event), Phase::Error);
    }
    assert!(Phase::Complete.terminal());
    assert!(Phase::Error.terminal());
}

#[test]
fn a_cleanup_out_of_time_completes_the_session() {
    assert_eq!(Phase::Flushing.next(PhaseEvent::CleanupTimedOut), Phase::Complete);
    assert_eq!(Phase::Merging.next(PhaseEvent::CleanupTimedOut), Phase::Complete);
    assert_eq!(Phase::Processing.next(PhaseEvent::CleanupTimedOut), Phase::Processing);
}

#[test]
fn events_out_of_turn_change_nothing() {
    assert_eq!(Phase::Idle.next(PhaseEvent::UpstreamDrained), Phase::Idle);
    assert_eq!(Phase::Scanning.next(PhaseEvent::Started), Phase::Scanning);
    assert_eq!(Phase::Scanning.next(PhaseEvent::MergesQuiesced), Phase::Scanning);
    assert_eq!(Phase::Processing.next(PhaseEvent::FinalCommitDone), Phase::Processing);
    assert_eq!(Phase::Flushing.next(PhaseEvent::MergesQuiesced), Phase::Flushing);
}

#[test]
fn phase_names() {
    assert_eq!(Phase::Idle.name(), "Idle");
    assert_eq!(Phase::Scanning.name(), "Scanning");
    assert_eq!(Phase::Processing.name(), "Processing");
    assert_eq!(Phase::Flushing.name(), "Flushing");
    assert_eq!(Phase::Merging.name(), "Merging");
    assert_eq!(Phase::Complete.name(), "Complete");
    assert_eq!(Phase::Error.name(), "Error");
}
