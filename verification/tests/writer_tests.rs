use constella::document::{FieldName, FileDocument};
use constella::error::IndexError;
use constella::limits::{COMMIT_BATCH_SIZE, ERROR_RETRY_DELAY_MS, MAX_ERROR_RETRIES};
use constella::phase::PhaseEvent;
use constella::writer::{
    commit_due, phase_event, warning, AttemptOutcome, BatchBuffer, CleanupAction, CleanupEvent,
    CleanupStep, CommitRetry, RetryAction,
};

fn doc(i: usize) -> FileDocument {
    let mut d = FileDocument::new();
    d.add_text(FieldName::Path, format!("/d/{}", i));
    d
}

#[test]
fn one_document_short_of_a_batch_forces_no_commit_and_one_more_does() {
    assert_eq!(COMMIT_BATCH_SIZE, 100_000);
    assert!(!commit_due(0));
    assert!(!commit_due(COMMIT_BATCH_SIZE - 1));
    assert!(commit_due(COMMIT_BATCH_SIZE));
    assert!(commit_due(COMMIT_BATCH_SIZE + 1));
}

#[test]
fn the_buffer_asks_for_a_commit_at_the_batch_size() {
    let mut buffer = BatchBuffer::new();
    let mut first: Vec<FileDocument> = (0..COMMIT_BATCH_SIZE - 1).map(doc).collect();
    assert!(!buffer.receive(&mut first));
    assert!(first.is_empty());
    assert_eq!(buffer.len(), COMMIT_BATCH_SIZE - 1);
    let mut one = vec![doc(COMMIT_BATCH_SIZE - 1)];
    assert!(buffer.receive(&mut one));
    assert_eq!(buffer.len(), COMMIT_BATCH_SIZE);
    let batch = buffer.take();
    assert_eq!(batch.len(), COMMIT_BATCH_SIZE);
    assert_eq!(batch[0].fields[0].text, "/d/0");
    assert_eq!(batch[COMMIT_BATCH_SIZE - 1].fields[0].text, "/d/99999");
    assert_eq!(buffer.len(), 0);
}

#[test]
fn the_buffer_keeps_the_order_of_arrival() {
    let mut buffer = BatchBuffer::new();
    let mut a = vec![doc(1), doc(2)];
    let mut b = vec![doc(3)];
    let mut none: Vec<FileDocument> = Vec::new();
    assert!(!buffer.receive(&mut a));
    assert!(!buffer.receive(&mut none));
    assert!(!buffer.receive(&mut b));
    let texts: Vec<String> = buffer.take().into_iter().map(|d| d.fields[0].text.clone()).collect();
    assert_eq!(texts, vec!["/d/1", "/d/2", "/d/3"]);
}

#[test]
fn a_batch_is_attempted_three_times() {
    assert_eq!(MAX_ERROR_RETRIES, 3);
    assert_eq!(ERROR_RETRY_DELAY_MS, 100);
    let mut retry = CommitRetry::new();
    assert_eq!(retry.step(AttemptOutcome::CommitFailed), RetryAction::RetryAfter(100));
    assert_eq!(retry.step(AttemptOutcome::AppendFailed), RetryAction::RetryAfter(100));
    assert_eq!(retry.step(AttemptOutcome::CommitFailed), RetryAction::Abort);
    assert_eq!(retry, CommitRetry { retry_count: 3, errors: 3 });
}

#[test]
fn a_success_clears_the_retries_and_keeps_the_errors() {
    let mut retry = CommitRetry::new();
    assert_eq!(retry.step(AttemptOutcome::CommitFailed), RetryAction::RetryAfter(100));
    assert_eq!(retry.step(AttemptOutcome::CommitFailed), RetryAction::RetryAfter(100));
    assert_eq!(retry.step(AttemptOutcome::Committed), RetryAction::Proceed);
    assert_eq!(retry, CommitRetry { retry_count: 0, errors: 2 });
    assert_eq!(retry.step(AttemptOutcome::CommitFailed), RetryAction::RetryAfter(100));
    assert_eq!(retry.step(AttemptOutcome::CommitFailed), RetryAction::RetryAfter(100));
    assert_eq!(retry.step(AttemptOutcome::CommitFailed), RetryAction::Abort);
}

#[test]
fn a_cleanup_commits_then_waits_for_the_merges() {
    let mut step = CleanupStep::begin();
    assert_eq!(step, CleanupStep::FinalCommit(0));
    assert_eq!(step.next(CleanupEvent::CommitSucceeded), CleanupAction::WaitForMerges);
    assert_eq!(step, CleanupStep::AwaitMerges);
    assert_eq!(step.next(CleanupEvent::MergesQuiesced), CleanupAction::Complete);
    assert_eq!(step, CleanupStep::Finished);
    assert_eq!(step.next(CleanupEvent::TimedOut), CleanupAction::Ignore);
}

#[test]
fn a_final_commit_is_tried_three_times() {
    let mut step = CleanupStep::begin();
    assert_eq!(step.next(CleanupEvent::CommitFailed), CleanupAction::RetryCommitAfter(100));
    assert_eq!(step.next(CleanupEvent::CommitFailed), CleanupAction::RetryCommitAfter(100));
    assert_eq!(
        step.next(CleanupEvent::CommitFailed),
        CleanupAction::Fail(IndexError::CommitFailure)
    );
    assert_eq!(step, CleanupStep::Finished);
}

#[test]
fn a_cleanup_out_of_time_completes_with_the_warning() {
    let mut committing = CleanupStep::begin();
    assert_eq!(committing.next(CleanupEvent::TimedOut), CleanupAction::CompleteWithWarning);
    assert_eq!(committing, CleanupStep::Finished);
    let mut merging = CleanupStep::AwaitMerges;
    assert_eq!(merging.next(CleanupEvent::TimedOut), CleanupAction::CompleteWithWarning);
    assert_eq!(merging, CleanupStep::Finished);
}

#[test]
fn failed_merges_fail_the_session() {
    let mut step = CleanupStep::AwaitMerges;
    assert_eq!(step.next(CleanupEvent::MergesFailed), CleanupAction::Fail(IndexError::MergeFailure));
    assert_eq!(step, CleanupStep::Finished);
}

#[test]
fn cleanup_events_out_of_turn_are_ignored() {
    let mut step = CleanupStep::begin();
    assert_eq!(step.next(CleanupEvent::MergesQuiesced), CleanupAction::Ignore);
    assert_eq!(step, CleanupStep::FinalCommit(0));
    let mut merging = CleanupStep::AwaitMerges;
    assert_eq!(merging.next(CleanupEvent::CommitFailed), CleanupAction::Ignore);
    assert_eq!(merging, CleanupStep::AwaitMerges);
}

#[test]
fn cleanup_actions_move_the_phase() {
    assert_eq!(phase_event(CleanupAction::WaitForMerges), Some(PhaseEvent::FinalCommitDone));
    assert_eq!(phase_event(CleanupAction::Complete), Some(PhaseEvent::MergesQuiesced));
    assert_eq!(
        phase_event(CleanupAction::CompleteWithWarning),
        Some(PhaseEvent::CleanupTimedOut)
    );
    assert_eq!(
        phase_event(CleanupAction::Fail(IndexError::CommitFailure)),
        Some(PhaseEvent::Failed)
    );
    assert_eq!(phase_event(CleanupAction::RetryCommitAfter(100)), None);
    assert_eq!(phase_event(CleanupAction::Ignore), None);
}

#[test]
fn a_cleanup_out_of_time_is_recorded_and_not_fatal() {
    assert_eq!(warning(CleanupAction::CompleteWithWarning), Some(IndexError::CleanupTimeout));
    assert!(IndexError::CleanupTimeout.recoverable());
    assert_eq!(warning(CleanupAction::Complete), None);
    assert_eq!(warning(CleanupAction::Fail(IndexError::CommitFailure)), None);
}
