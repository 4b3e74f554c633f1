//! The protocol of the single writer: when a batch is committed, what
//! follows a failed attempt, and the steps of the final cleanup.

use vstd::prelude::*;
use crate::document::FileDocument;
use crate::error::IndexError;
use crate::limits::{COMMIT_BATCH_SIZE, ERROR_RETRY_DELAY_MS, MAX_ERROR_RETRIES};
use crate::phase::PhaseEvent;

verus! {

/// Whether `len` waiting documents must be committed.
pub open spec fn is_commit_due(len: nat) -> bool {
    len >= COMMIT_BATCH_SIZE
}

/// Whether `len` waiting documents must be committed.
pub fn commit_due(len: usize) -> (due: bool)
    ensures
        due == is_commit_due(len as nat),
{
    len >= COMMIT_BATCH_SIZE
}

/// One document fewer than `COMMIT_BATCH_SIZE` forces no commit, and one
/// more document does.
pub proof fn lemma_commit_boundary()
    ensures
        !is_commit_due((COMMIT_BATCH_SIZE - 1) as nat),
        is_commit_due(COMMIT_BATCH_SIZE as nat),
        forall|len: nat| #[trigger] is_commit_due(len) <==> len >= COMMIT_BATCH_SIZE,
{
}

/// The documents that wait for the next commit, in the order in which they
/// arrived.
pub struct BatchBuffer {
    docs: Vec<FileDocument>,
}

impl BatchBuffer {
    /// The documents that wait.
    pub closed spec fn waiting(&self) -> Seq<FileDocument> {
        self.docs@
    }

    /// An empty buffer.
    pub fn new() -> (b: BatchBuffer)
        ensures
            b.waiting().len() == 0,
    {
        BatchBuffer { docs: Vec::new() }
    }

    /// The number of documents that wait.
    pub fn len(&self) -> (n: usize)
        ensures
            n == self.waiting().len(),
    {
        self.docs.len()
    }

    /// Takes the documents of one message from the preparers, and says
    /// whether a commit is due now.
    pub fn receive(&mut self, incoming: &mut Vec<FileDocument>) -> (due: bool)
        ensures
            final(self).waiting() == old(self).waiting() + old(incoming)@,
            final(incoming)@.len() == 0,
            due == is_commit_due(final(self).waiting().len()),
    {
        self.docs.append(incoming);
        self.docs.len() >= COMMIT_BATCH_SIZE
    }

    /// Hands out every waiting document, for one attempt to write them.
    pub fn take(&mut self) -> (batch: Vec<FileDocument>)
        ensures
            batch@ == old(self).waiting(),
            final(self).waiting().len() == 0,
    {
        let mut batch: Vec<FileDocument> = Vec::new();
        std::mem::swap(&mut batch, &mut self.docs);
        batch
    }
}

/// How one attempt to write a batch ended.
#[derive(Clone, Copy, Debug, PartialEq, Eq, Structural)]
pub enum AttemptOutcome {
    /// Every document was appended and the commit succeeded.
    Committed,
    /// An append failed; the rest of the batch was abandoned.
    AppendFailed,
    /// Every document was appended and the commit failed.
    CommitFailed,
}

/// What the writer does after an attempt.
#[derive(Clone, Copy, Debug, PartialEq, Eq, Structural)]
pub enum RetryAction {
    /// Go on with the next batch.
    Proceed,
    /// Wait for so many milliseconds, then try again.
    RetryAfter(u64),
    /// Set the stop flag and end the session with a failure.
    Abort,
}

/// The failed attempts in a row, and all failures counted.
#[derive(Clone, Copy, Debug, PartialEq, Eq, Structural)]
pub struct CommitRetry {
    pub retry_count: usize,
    pub errors: usize,
}

impl CommitRetry {
    /// The retries are within the limit.
    pub open spec fn wf(self) -> bool {
        self.retry_count < MAX_ERROR_RETRIES
    }

    /// The state after an attempt: success clears the retries; a failure
    /// adds one retry and one error.
    pub open spec fn after(self, outcome: AttemptOutcome) -> CommitRetry {
        match outcome {
            AttemptOutcome::Committed => CommitRetry { retry_count: 0, errors: self.errors },
            _ => CommitRetry {
                retry_count: (self.retry_count + 1) as usize,
                errors: if self.errors == usize::MAX {
                    usize::MAX
                } else {
                    (self.errors + 1) as usize
                },
            },
        }
    }

    /// What follows an attempt: after a success the next batch; after a
    /// failure another attempt, `ERROR_RETRY_DELAY_MS` later; after the
    /// `MAX_ERROR_RETRIES`th failure in a row the end of the session.
    pub open spec fn action(self, outcome: AttemptOutcome) -> RetryAction {
        match outcome {
            AttemptOutcome::Committed => RetryAction::Proceed,
            _ => if self.retry_count + 1 >= MAX_ERROR_RETRIES {
                RetryAction::Abort
            } else {
                RetryAction::RetryAfter(ERROR_RETRY_DELAY_MS)
            },
        }
    }

    /// No attempt has failed.
    pub fn new() -> (r: CommitRetry)
        ensures
            r == (CommitRetry { retry_count: 0, errors: 0 }),
            r.wf(),
    {
        CommitRetry { retry_count: 0, errors: 0 }
    }

    /// Records an attempt and decides what follows.
    pub fn step(&mut self, outcome: AttemptOutcome) -> (action: RetryAction)
        requires
            old(self).wf(),
        ensures
            *final(self) == old(self).after(outcome),
            action == old(self).action(outcome),
            !(action is Abort) ==> final(self).wf(),
    {
        match outcome {
            AttemptOutcome::Committed => {
                self.retry_count = 0;
                RetryAction::Proceed
            },
            _ => {
                self.retry_count = self.retry_count + 1;
                if self.errors < usize::MAX {
                    self.errors = self.errors + 1;
                }
                if self.retry_count >= MAX_ERROR_RETRIES {
                    RetryAction::Abort
                } else {
                    RetryAction::RetryAfter(ERROR_RETRY_DELAY_MS)
                }
            },
        }
    }
}

/// The retries after `fails` failed attempts in a row from a fresh state.
pub open spec fn retry_after_failures(fails: nat) -> CommitRetry
    decreases fails,
{
    if fails == 0 {
        CommitRetry { retry_count: 0, errors: 0 }
    } else {
        retry_after_failures((fails - 1) as nat).after(AttemptOutcome::CommitFailed)
    }
}

/// A batch is attempted `MAX_ERROR_RETRIES` times and no more: the first
/// two failures ask for another attempt, the third ends the session.
pub proof fn lemma_three_attempts()
    ensures
        retry_after_failures(0).action(AttemptOutcome::CommitFailed) == RetryAction::RetryAfter(
            ERROR_RETRY_DELAY_MS,
        ),
        retry_after_failures(1).action(AttemptOutcome::CommitFailed) == RetryAction::RetryAfter(
            ERROR_RETRY_DELAY_MS,
        ),
        retry_after_failures(2).action(AttemptOutcome::CommitFailed) == RetryAction::Abort,
{
    assert(retry_after_failures(1) == retry_after_failures(0).after(AttemptOutcome::CommitFailed));
    assert(retry_after_failures(2) == retry_after_failures(1).after(AttemptOutcome::CommitFailed));
}

/// Where the final cleanup stands.
#[derive(Clone, Copy, Debug, PartialEq, Eq, Structural)]
pub enum CleanupStep {
    /// The final commit is to be made; so many attempts have failed.
    FinalCommit(usize),
    /// The final commit is done; the background merges are awaited.
    AwaitMerges,
    /// The cleanup has ended.
    Finished,
}

/// What happened during the cleanup.
#[derive(Clone, Copy, Debug, PartialEq, Eq, Structural)]
pub enum CleanupEvent {
    CommitSucceeded,
    CommitFailed,
    MergesQuiesced,
    MergesFailed,
    TimedOut,
}

/// What the cleanup does next.
#[derive(Clone, Copy, Debug, PartialEq, Eq, Structural)]
pub enum CleanupAction {
    /// Try the final commit again after so many milliseconds.
    RetryCommitAfter(u64),
    /// Wait for the background merges.
    WaitForMerges,
    /// The session is complete.
    Complete,
    /// The session is complete, with the warning that the cleanup ran out of
    /// time; the stop flag is set.
    CompleteWithWarning,
    /// The session has failed.
    Fail(IndexError),
    /// Nothing: the event does not belong to this step.
    Ignore,
}

impl CleanupStep {
    /// The step is one that the cleanup can be in.
    pub open spec fn wf(self) -> bool {
        match self {
            CleanupStep::FinalCommit(fails) => fails < MAX_ERROR_RETRIES,
            _ => true,
        }
    }

    /// What the cleanup does after `event`, and the step it is in then.
    pub open spec fn after(self, event: CleanupEvent) -> (CleanupStep, CleanupAction) {
        match (self, event) {
            (CleanupStep::Finished, _) => (CleanupStep::Finished, CleanupAction::Ignore),
            (_, CleanupEvent::TimedOut) => (
                CleanupStep::Finished,
                CleanupAction::CompleteWithWarning,
            ),
            (CleanupStep::FinalCommit(_), CleanupEvent::CommitSucceeded) => (
                CleanupStep::AwaitMerges,
                CleanupAction::WaitForMerges,
            ),
            (CleanupStep::FinalCommit(fails), CleanupEvent::CommitFailed) => if fails + 1
                >= MAX_ERROR_RETRIES {
                (CleanupStep::Finished, CleanupAction::Fail(IndexError::CommitFailure))
            } else {
                (
                    CleanupStep::FinalCommit((fails + 1) as usize),
                    CleanupAction::RetryCommitAfter(ERROR_RETRY_DELAY_MS),
                )
            },
            (CleanupStep::AwaitMerges, CleanupEvent::MergesQuiesced) => (
                CleanupStep::Finished,
                CleanupAction::Complete,
            ),
            (CleanupStep::AwaitMerges, CleanupEvent::MergesFailed) => (
                CleanupStep::Finished,
                CleanupAction::Fail(IndexError::MergeFailure),
            ),
            _ => (self, CleanupAction::Ignore),
        }
    }

    /// The step in which a cleanup begins.
    pub fn begin() -> (step: CleanupStep)
        ensures
            step == CleanupStep::FinalCommit(0),
            step.wf(),
    {
        CleanupStep::FinalCommit(0)
    }

    /// Decides what the cleanup does after `event`.
    pub fn next(&mut self, event: CleanupEvent) -> (action: CleanupAction)
        requires
            old(self).wf(),
        ensures
            final(self).wf(),
            (*final(self), action) == old(self).after(event),
    {
        let (step, action) = match (*self, event) {
            (CleanupStep::Finished, _) => (CleanupStep::Finished, CleanupAction::Ignore),
            (_, CleanupEvent::TimedOut) => (
                CleanupStep::Finished,
                CleanupAction::CompleteWithWarning,
            ),
            (CleanupStep::FinalCommit(_), CleanupEvent::CommitSucceeded) => (
                CleanupStep::AwaitMerges,
                CleanupAction::WaitForMerges,
            ),
            (CleanupStep::FinalCommit(fails), CleanupEvent::CommitFailed) => {
                if fails + 1 >= MAX_ERROR_RETRIES {
                    (CleanupStep::Finished, CleanupAction::Fail(IndexError::CommitFailure))
                } else {
                    (
                        CleanupStep::FinalCommit(fails + 1),
                        CleanupAction::RetryCommitAfter(ERROR_RETRY_DELAY_MS),
                    )
                }
            },
            (CleanupStep::AwaitMerges, CleanupEvent::MergesQuiesced) => (
                CleanupStep::Finished,
                CleanupAction::Complete,
            ),
            (CleanupStep::AwaitMerges, CleanupEvent::MergesFailed) => (
                CleanupStep::Finished,
                CleanupAction::Fail(IndexError::MergeFailure),
            ),
            (s, _) => (s, CleanupAction::Ignore),
        };
        *self = step;
        action
    }
}

/// The failure that an action of the cleanup records without failing the
/// session: a cleanup that ran out of time.
pub open spec fn warning_of(action: CleanupAction) -> Option<IndexError> {
    match action {
        CleanupAction::CompleteWithWarning => Some(IndexError::CleanupTimeout),
        _ => None,
    }
}

/// The failure that an action of the cleanup records without failing the
/// session.
pub fn warning(action: CleanupAction) -> (w: Option<IndexError>)
    ensures
        w == warning_of(action),
{
    match action {
        CleanupAction::CompleteWithWarning => Some(IndexError::CleanupTimeout),
        _ => None,
    }
}

/// The event of the session's phase that an action of the cleanup brings.
pub open spec fn phase_event_of(action: CleanupAction) -> Option<PhaseEvent> {
    match action {
        CleanupAction::WaitForMerges => Some(PhaseEvent::FinalCommitDone),
        CleanupAction::Complete => Some(PhaseEvent::MergesQuiesced),
        CleanupAction::CompleteWithWarning => Some(PhaseEvent::CleanupTimedOut),
        CleanupAction::Fail(_) => Some(PhaseEvent::Failed),
        _ => None,
    }
}

/// The event of the session's phase that an action of the cleanup brings.
pub fn phase_event(action: CleanupAction) -> (event: Option<PhaseEvent>)
    ensures
        event == phase_event_of(action),
{
    match action {
        CleanupAction::WaitForMerges => Some(PhaseEvent::FinalCommitDone),
        CleanupAction::Complete => Some(PhaseEvent::MergesQuiesced),
        CleanupAction::CompleteWithWarning => Some(PhaseEvent::CleanupTimedOut),
        CleanupAction::Fail(_) => Some(PhaseEvent::Failed),
        _ => None,
    }
}

/// A cleanup that runs out of time is no failure: whatever step it is in,
/// the session completes, with the warning.
pub proof fn lemma_timeout_completes(step: CleanupStep)
    requires
        step != CleanupStep::Finished,
    ensures
        step.after(CleanupEvent::TimedOut) == (
            CleanupStep::Finished,
            CleanupAction::CompleteWithWarning,
        ),
{
}

/// A finished cleanup stays finished and does nothing more.
pub proof fn lemma_cleanup_ends(event: CleanupEvent)
    ensures
        CleanupStep::Finished.after(event) == (CleanupStep::Finished, CleanupAction::Ignore),
{
}

} // verus!
