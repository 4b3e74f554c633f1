use constella::error::IndexError;
use constella::phase::{Phase, PhaseEvent};
use constella::progress::Counters;
use constella::session::{add_saturating, select_directory, RootInfo, Session, SessionManager};

const GOOD: RootInfo = RootInfo { exists: true, is_dir: true };

#[test]
fn a_request_on_a_directory_is_accepted() {
    let mut m = SessionManager::new();
    assert!(!m.busy());
    assert_eq!(m.start_indexing(GOOD), Ok(()));
    assert!(m.busy());
    let s = m.session_mut().unwrap();
    assert_eq!(s.current_phase(), Phase::Scanning);
    assert!(!s.should_stop());
    assert_eq!(s.read_counters(), Counters { total: 0, processed: 0, errors: 0 });
}

#[test]
fn a_missing_root_is_invalid() {
    let mut m = SessionManager::new();
    assert_eq!(
        m.start_indexing(RootInfo { exists: false, is_dir: false }),
        Err(IndexError::InvalidRoot)
    );
    assert!(!m.busy());
    assert!(m.session_mut().is_none());
}

#[test]
fn a_root_that_is_a_file_is_invalid() {
    let mut m = SessionManager::new();
    assert_eq!(
        m.start_indexing(RootInfo { exists: true, is_dir: false }),
        Err(IndexError::InvalidRoot)
    );
    assert!(!m.busy());
}

#[test]
fn two_back_to_back_requests_the_second_is_busy() {
    let mut m = SessionManager::new();
    assert_eq!(m.start_indexing(GOOD), Ok(()));
    {
        let s = m.session_mut().unwrap();
        s.add_found(10);
        s.add_processed(4);
        s.on_event(PhaseEvent::FirstBatchQueued);
        let _ = s.sample(500, 1);
    }
    assert_eq!(m.start_indexing(GOOD), Err(IndexError::SessionBusy));
    assert!(m.busy());
    let progress = m.get_indexing_progress();
    assert_eq!(progress.total_files, 10);
    assert_eq!(progress.processed_files, 4);
    assert_eq!(progress.phase, "Processing");
    let s = m.session_mut().unwrap();
    assert_eq!(s.current_phase(), Phase::Processing);
    assert_eq!(s.read_counters(), Counters { total: 10, processed: 4, errors: 0 });
    assert!(!s.should_stop());
}

#[test]
fn a_busy_manager_says_busy_even_for_an_invalid_root() {
    let mut m = SessionManager::new();
    assert_eq!(m.start_indexing(GOOD), Ok(()));
    assert_eq!(
        m.start_indexing(RootInfo { exists: false, is_dir: false }),
        Err(IndexError::SessionBusy)
    );
}

#[test]
fn a_new_session_is_accepted_after_the_last_has_ended() {
    let mut m = SessionManager::new();
    assert_eq!(m.start_indexing(GOOD), Ok(()));
    {
        let s = m.session_mut().unwrap();
        s.add_found(3);
        s.on_event(PhaseEvent::ScanFinished);
        s.on_event(PhaseEvent::UpstreamDrained);
        s.on_event(PhaseEvent::FinalCommitDone);
        s.on_event(PhaseEvent::MergesQuiesced);
        assert_eq!(s.current_phase(), Phase::Complete);
    }
    assert!(!m.busy());
    assert_eq!(m.start_indexing(GOOD), Ok(()));
    assert!(m.busy());
    let s = m.session_mut().unwrap();
    assert_eq!(s.current_phase(), Phase::Scanning);
    assert_eq!(s.read_counters(), Counters { total: 0, processed: 0, errors: 0 });
}

#[test]
fn cancelling_sets_the_stop_flag_and_keeps_the_phase() {
    let mut m = SessionManager::new();
    m.cancel_indexing();
    assert!(m.session_mut().is_none());
    assert_eq!(m.start_indexing(GOOD), Ok(()));
    m.session_mut().unwrap().add_found(5);
    m.cancel_indexing();
    let s = m.session_mut().unwrap();
    assert!(s.should_stop());
    assert_eq!(s.current_phase(), Phase::Scanning);
    assert_eq!(s.read_counters(), Counters { total: 5, processed: 0, errors: 0 });
    assert!(s.live());
}

#[test]
fn progress_without_a_session_is_the_default_state() {
    let m = SessionManager::new();
    let p = m.get_indexing_progress();
    assert_eq!(p.total_files, 0);
    assert_eq!(p.processed_files, 0);
    assert_eq!(p.state, "Initializing");
}

#[test]
fn an_empty_root_completes_with_nothing_found() {
    let mut s = Session::start();
    s.on_event(PhaseEvent::ScanFinished);
    s.on_event(PhaseEvent::UpstreamDrained);
    s.on_event(PhaseEvent::FinalCommitDone);
    s.on_event(PhaseEvent::MergesQuiesced);
    assert_eq!(s.current_phase(), Phase::Complete);
    let last = s.closing_state(40).unwrap();
    assert_eq!(last.total_files, 0);
    assert_eq!(last.processed_files, 0);
    assert!(last.is_complete);
    assert_eq!(last.phase, "Complete");
}

#[test]
fn a_session_counts_what_it_is_told() {
    let mut s = Session::start();
    s.add_found(500);
    s.add_found(500);
    s.add_processed(250);
    s.add_error();
    assert_eq!(s.read_counters(), Counters { total: 1_000, processed: 250, errors: 1 });
    s.on_event(PhaseEvent::FirstBatchQueued);
    let snap = s.sample(500, 1);
    assert_eq!(snap.total_files, 1_000);
    assert_eq!(snap.processed_files, 250);
    assert!(s.closing_state(10).is_none());
    let latest = s.latest();
    assert_eq!(latest.total_files, 1_000);
    assert_eq!(latest.processed_files, 250);
}

#[test]
fn a_failure_ends_the_session_with_its_message() {
    let mut s = Session::start();
    s.add_found(9);
    s.on_event(PhaseEvent::FirstBatchQueued);
    let _ = s.sample(500, 1);
    s.fail(IndexError::CommitFailure);
    assert_eq!(s.current_phase(), Phase::Error);
    assert!(s.should_stop());
    assert!(!s.live());
    let last = s.closing_state(10).unwrap();
    assert_eq!(last.phase, "Error");
    assert_eq!(last.state, "Failed to commit");
    assert_eq!(last.total_files, 9);
    assert!(!last.is_complete);
}

#[test]
fn a_failure_after_the_end_changes_nothing() {
    let mut s = Session::start();
    s.on_event(PhaseEvent::ScanFinished);
    s.on_event(PhaseEvent::UpstreamDrained);
    s.on_event(PhaseEvent::CleanupTimedOut);
    assert_eq!(s.current_phase(), Phase::Complete);
    assert!(s.should_stop());
    s.fail(IndexError::CommitFailure);
    assert_eq!(s.current_phase(), Phase::Complete);
    assert!(s.closing_state(5).unwrap().is_complete);
}

#[test]
fn a_cancelled_session_completes_through_its_cleanup() {
    let mut s = Session::start();
    s.add_found(1_000);
    s.on_event(PhaseEvent::FirstBatchQueued);
    s.add_processed(400);
    s.request_stop();
    assert!(s.should_stop());
    assert_eq!(s.current_phase(), Phase::Processing);
    s.on_event(PhaseEvent::UpstreamDrained);
    s.on_event(PhaseEvent::FinalCommitDone);
    s.on_event(PhaseEvent::MergesQuiesced);
    assert_eq!(s.current_phase(), Phase::Complete);
    let last = s.closing_state(2_000).unwrap();
    assert_eq!(last.processed_files, 400);
    assert_eq!(last.total_files, 400);
    assert_eq!(last.speed, 200);
}

#[test]
fn counters_stop_at_the_largest_number() {
    assert_eq!(add_saturating(1, 2), 3);
    assert_eq!(add_saturating(usize::MAX, 1), usize::MAX);
    assert_eq!(add_saturating(usize::MAX - 1, 1), usize::MAX);
    assert_eq!(add_saturating(0, 0), 0);
}

#[test]
fn a_picker_closed_without_a_choice_selects_nothing() {
    assert_eq!(select_directory(Some("/home/u/docs".to_string())), Ok("/home/u/docs".to_string()));
    assert_eq!(select_directory(None), Err(IndexError::NoSelection));
}

#[test]
fn the_sampler_ends_with_the_stop_flag_or_the_session() {
    let mut s = Session::start();
    assert!(!s.sampling_is_over());
    s.request_stop();
    assert!(s.sampling_is_over());
    let mut t = Session::start();
    t.on_event(PhaseEvent::ScanFinished);
    t.on_event(PhaseEvent::UpstreamDrained);
    t.on_event(PhaseEvent::FinalCommitDone);
    assert!(!t.sampling_is_over());
    t.on_event(PhaseEvent::MergesQuiesced);
    assert!(t.sampling_is_over());
}

#[test]
fn a_snapshot_shows_every_file_found() {
    let mut s = Session::start();
    for _ in 0..500 {
        s.add_found(500);
    }
    s.on_event(PhaseEvent::FirstBatchQueued);
    assert_eq!(s.sample(500, 1).total_files, 250_000);
    s.add_processed(250_000);
    let snap = s.sample(500, 2);
    assert_eq!(snap.total_files, 250_000);
    assert_eq!(snap.processed_files, 250_000);
}
