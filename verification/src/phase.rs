//! The phases of an indexing session and the moves between them.

use vstd::prelude::*;
use vstd::string::StringExecFns;

verus! {

/// Where a session stands.
#[derive(Clone, Copy, Debug, PartialEq, Eq, Structural)]
pub enum Phase {
    Idle,
    Scanning,
    Processing,
    Flushing,
    Merging,
    Complete,
    Error,
}

/// What happened to a session.
#[derive(Clone, Copy, Debug, PartialEq, Eq, Structural)]
pub enum PhaseEvent {
    /// Indexing was asked for and accepted.
    Started,
    /// The scanner put its first batch into the channel.
    FirstBatchQueued,
    /// The scanner reached the end of the tree.
    ScanFinished,
    /// Both channels are closed and the writer has emptied them.
    UpstreamDrained,
    /// The final commit succeeded.
    FinalCommitDone,
    /// The background merges have come to rest.
    MergesQuiesced,
    /// The cleanup ran out of time.
    CleanupTimedOut,
    /// A failure that ends the session.
    Failed,
}

impl Phase {
    /// The session has ended.
    pub open spec fn is_terminal(self) -> bool {
        self == Phase::Complete || self == Phase::Error
    }

    /// The session is at work.
    pub open spec fn is_active(self) -> bool {
        self == Phase::Scanning || self == Phase::Processing || self == Phase::Flushing || self
            == Phase::Merging
    }

    /// The place of a phase in the order of a session's life.
    pub open spec fn rank(self) -> nat {
        match self {
            Phase::Idle => 0,
            Phase::Scanning => 1,
            Phase::Processing => 2,
            Phase::Flushing => 3,
            Phase::Merging => 4,
            Phase::Complete => 5,
            Phase::Error => 5,
        }
    }

    /// The phase after `event`. An event that does not belong to the phase
    /// changes nothing.
    pub open spec fn after(self, event: PhaseEvent) -> Phase {
        match (self, event) {
            (Phase::Idle, PhaseEvent::Started) => Phase::Scanning,
            (Phase::Scanning, PhaseEvent::FirstBatchQueued) => Phase::Processing,
            (Phase::Scanning, PhaseEvent::ScanFinished) => Phase::Processing,
            (Phase::Processing, PhaseEvent::UpstreamDrained) => Phase::Flushing,
            (Phase::Flushing, PhaseEvent::FinalCommitDone) => Phase::Merging,
            (Phase::Merging, PhaseEvent::MergesQuiesced) => Phase::Complete,
            (Phase::Flushing, PhaseEvent::CleanupTimedOut) => Phase::Complete,
            (Phase::Merging, PhaseEvent::CleanupTimedOut) => Phase::Complete,
            (Phase::Scanning, PhaseEvent::Failed) => Phase::Error,
            (Phase::Processing, PhaseEvent::Failed) => Phase::Error,
            (Phase::Flushing, PhaseEvent::Failed) => Phase::Error,
            (Phase::Merging, PhaseEvent::Failed) => Phase::Error,
            _ => self,
        }
    }

    /// The name of the phase.
    pub open spec fn name_text(self) -> Seq<char> {
        match self {
            Phase::Idle => "Idle"@,
            Phase::Scanning => "Scanning"@,
            Phase::Processing => "Processing"@,
            Phase::Flushing => "Flushing"@,
            Phase::Merging => "Merging"@,
            Phase::Complete => "Complete"@,
            Phase::Error => "Error"@,
        }
    }

    /// Whether the session has ended.
    pub fn terminal(&self) -> (t: bool)
        ensures
            t == self.is_terminal(),
    {
        match self {
            Phase::Complete | Phase::Error => true,
            _ => false,
        }
    }

    /// Whether the session is at work.
    pub fn active(&self) -> (a: bool)
        ensures
            a == self.is_active(),
    {
        match self {
            Phase::Scanning | Phase::Processing | Phase::Flushing | Phase::Merging => true,
            _ => false,
        }
    }

    /// The phase after `event`.
    pub fn next(&self, event: PhaseEvent) -> (p: Phase)
        ensures
            p == self.after(event),
    {
        match (*self, event) {
            (Phase::Idle, PhaseEvent::Started) => Phase::Scanning,
            (Phase::Scanning, PhaseEvent::FirstBatchQueued) => Phase::Processing,
            (Phase::Scanning, PhaseEvent::ScanFinished) => Phase::Processing,
            (Phase::Processing, PhaseEvent::UpstreamDrained) => Phase::Flushing,
            (Phase::Flushing, PhaseEvent::FinalCommitDone) => Phase::Merging,
            (Phase::Merging, PhaseEvent::MergesQuiesced) => Phase::Complete,
            (Phase::Flushing, PhaseEvent::CleanupTimedOut) => Phase::Complete,
            (Phase::Merging, PhaseEvent::CleanupTimedOut) => Phase::Complete,
            (Phase::Scanning, PhaseEvent::Failed) => Phase::Error,
            (Phase::Processing, PhaseEvent::Failed) => Phase::Error,
            (Phase::Flushing, PhaseEvent::Failed) => Phase::Error,
            (Phase::Merging, PhaseEvent::Failed) => Phase::Error,
            (p, _) => p,
        }
    }

    /// The name of the phase.
    pub fn name(&self) -> (text: String)
        ensures
            text@ == self.name_text(),
    {
        let text: &str = match self {
            Phase::Idle => "Idle",
            Phase::Scanning => "Scanning",
            Phase::Processing => "Processing",
            Phase::Flushing => "Flushing",
            Phase::Merging => "Merging",
            Phase::Complete => "Complete",
            Phase::Error => "Error",
        };
        String::from_str(text)
    }
}

/// A session never goes back: no event leads to an earlier phase, and an
/// ended session stays as it is.
pub proof fn lemma_phase_never_goes_back(phase: Phase, event: PhaseEvent)
    ensures
        phase.rank() <= phase.after(event).rank(),
        phase.is_terminal() ==> phase.after(event) == phase,
{
}

/// `Error` is entered from the four phases of work and from no other.
pub proof fn lemma_error_from_active_only(phase: Phase, event: PhaseEvent)
    ensures
        (phase.after(event) == Phase::Error && phase != Phase::Error) <==> (phase.is_active()
            && event == PhaseEvent::Failed),
{
}

/// `Complete` is entered only from the cleanup: from `Merging` when the
/// merges come to rest, or from `Flushing` or `Merging` when the cleanup
/// runs out of time.
pub proof fn lemma_complete_from_cleanup_only(phase: Phase, event: PhaseEvent)
    ensures
        (phase.after(event) == Phase::Complete && phase != Phase::Complete) <==> ((phase
            == Phase::Merging && event == PhaseEvent::MergesQuiesced) || ((phase
            == Phase::Flushing || phase == Phase::Merging) && event
            == PhaseEvent::CleanupTimedOut)),
{
}

/// A session that is asked to stop ends `Complete`, not `Error`: its
/// workers drain, and from any phase of work the end of the scan, the
/// draining of the channels and the cleanup lead to `Complete`, whether the
/// merges come to rest or the cleanup runs out of time.
pub proof fn lemma_drained_session_completes(phase: Phase, timed_out: bool)
    requires
        phase.is_active(),
    ensures
        phase.after(PhaseEvent::ScanFinished).after(PhaseEvent::UpstreamDrained).after(
            PhaseEvent::FinalCommitDone,
        ).after(
            if timed_out {
                PhaseEvent::CleanupTimedOut
            } else {
                PhaseEvent::MergesQuiesced
            },
        ) == Phase::Complete,
        phase.after(PhaseEvent::ScanFinished).after(PhaseEvent::UpstreamDrained).after(
            PhaseEvent::CleanupTimedOut,
        ) == Phase::Complete,
{
}

} // verus!
