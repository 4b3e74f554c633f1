//! The indexing session and the manager that lets one session live at a
//! time.

use vstd::prelude::*;
use crate::error::IndexError;
use crate::phase::{Phase, PhaseEvent};
use crate::progress::{
    complete_state, error_state, is_complete_state, is_error_state, is_initial_state,
    is_sample_of, same_state, unchanged_after, Counters, IndexingState, ProgressSampler,
};

verus! {

/// What is known of the root of a scan before it begins.
#[derive(Clone, Copy, Debug, PartialEq, Eq, Structural)]
pub struct RootInfo {
    pub exists: bool,
    pub is_dir: bool,
}

impl RootInfo {
    /// The root exists and is a directory.
    pub open spec fn is_valid(self) -> bool {
        self.exists && self.is_dir
    }
}

/// `a + b`, or the largest number where the sum is larger.
pub open spec fn saturating_sum(a: usize, b: usize) -> usize {
    if a + b > usize::MAX {
        usize::MAX
    } else {
        (a + b) as usize
    }
}

/// `a + b`, or the largest number where the sum is larger.
pub fn add_saturating(a: usize, b: usize) -> (sum: usize)
    ensures
        sum == saturating_sum(a, b),
{
    if a > usize::MAX - b {
        usize::MAX
    } else {
        a + b
    }
}

/// The directory that the user picked, or `NoSelection` where the picker
/// was closed without a choice.
pub fn select_directory(picked: Option<String>) -> (r: Result<String, IndexError>)
    ensures
        r == match picked {
            Some(path) => Ok::<String, IndexError>(path),
            None => Err::<String, IndexError>(IndexError::NoSelection),
        },
{
    match picked {
        Some(path) => Ok(path),
        None => Err(IndexError::NoSelection),
    }
}

/// One indexing run: its phase, its stop flag and its counters.
pub struct Session {
    phase: Phase,
    stop: bool,
    warning: bool,
    failure: Option<IndexError>,
    counters: Counters,
    sampler: ProgressSampler,
    last: IndexingState,
}

impl Session {
    /// The phase of the session.
    pub closed spec fn phase(&self) -> Phase {
        self.phase
    }

    /// The stop flag.
    pub closed spec fn stop_requested(&self) -> bool {
        self.stop
    }

    /// The cleanup ran out of time.
    pub closed spec fn has_warning(&self) -> bool {
        self.warning
    }

    /// The failure that ended the session, if one did.
    pub closed spec fn failure(&self) -> Option<IndexError> {
        self.failure
    }

    /// The counters.
    pub closed spec fn counters(&self) -> Counters {
        self.counters
    }

    /// The sampler as the last sample left it.
    pub closed spec fn sampler(&self) -> ProgressSampler {
        self.sampler
    }

    /// The total that the last snapshot showed.
    pub open spec fn shown_total(&self) -> nat {
        self.sampler().last_total()
    }

    /// The latest snapshot.
    pub closed spec fn last_state(&self) -> IndexingState {
        self.last
    }

    /// The session's own invariant.
    pub closed spec fn wf(&self) -> bool {
        &&& self.sampler.wf()
        &&& self.last.total_files == self.sampler.last_total()
        &&& self.last.processed_files <= self.last.total_files
        &&& (self.failure is Some ==> self.phase == Phase::Error)
        &&& (self.phase == Phase::Error ==> self.stop)
    }

    /// The session has not ended.
    pub open spec fn is_live(&self) -> bool {
        !self.phase().is_terminal()
    }

    /// A session that has just been accepted: it scans, nothing is counted
    /// and nobody has asked it to stop.
    pub open spec fn is_fresh(&self) -> bool {
        &&& self.wf()
        &&& self.phase() == Phase::Scanning
        &&& !self.stop_requested()
        &&& !self.has_warning()
        &&& self.failure() is None
        &&& self.counters() == (Counters { total: 0, processed: 0, errors: 0 })
        &&& self.sampler().is_fresh()
        &&& is_initial_state(self.last_state())
    }

    /// Begins a session.
    pub fn start() -> (s: Session)
        ensures
            s.is_fresh(),
    {
        Session {
            phase: Phase::Idle.next(PhaseEvent::Started),
            stop: false,
            warning: false,
            failure: None,
            counters: Counters { total: 0, processed: 0, errors: 0 },
            sampler: ProgressSampler::new(),
            last: IndexingState::default(),
        }
    }

    /// The phase of the session.
    pub fn current_phase(&self) -> (p: Phase)
        ensures
            p == self.phase(),
    {
        self.phase
    }

    /// Whether the workers are to stop.
    pub fn should_stop(&self) -> (stop: bool)
        ensures
            stop == self.stop_requested(),
    {
        self.stop
    }

    /// Whether the session has not ended.
    pub fn live(&self) -> (l: bool)
        ensures
            l == self.is_live(),
    {
        !self.phase.terminal()
    }

    /// The counters as they stand.
    pub fn read_counters(&self) -> (c: Counters)
        ensures
            c == self.counters(),
    {
        self.counters
    }

    /// Whether the sampler is to end: the stop flag is set or the session has
    /// ended.
    pub fn sampling_is_over(&self) -> (over: bool)
        ensures
            over == (self.stop_requested() || !self.is_live()),
    {
        self.stop || self.phase.terminal()
    }

    /// Asks the workers to stop. The phase stays as it is: the session ends
    /// through its cleanup.
    pub fn request_stop(&mut self)
        requires
            old(self).wf(),
        ensures
            final(self).wf(),
            final(self).stop_requested(),
            final(self).phase() == old(self).phase(),
            final(self).counters() == old(self).counters(),
            final(self).failure() == old(self).failure(),
            final(self).has_warning() == old(self).has_warning(),
            final(self).sampler() == old(self).sampler(),
            final(self).last_state() == old(self).last_state(),
    {
        self.stop = true;
    }

    /// Counts `n` more files found.
    pub fn add_found(&mut self, n: usize)
        requires
            old(self).wf(),
        ensures
            final(self).wf(),
            final(self).counters() == (Counters {
                total: saturating_sum(old(self).counters().total, n),
                ..old(self).counters()
            }),
            final(self).phase() == old(self).phase(),
            final(self).stop_requested() == old(self).stop_requested(),
            final(self).failure() == old(self).failure(),
            final(self).has_warning() == old(self).has_warning(),
            final(self).sampler() == old(self).sampler(),
            final(self).last_state() == old(self).last_state(),
    {
        self.counters.total = add_saturating(self.counters.total, n);
    }

    /// Counts `n` more files processed.
    pub fn add_processed(&mut self, n: usize)
        requires
            old(self).wf(),
        ensures
            final(self).wf(),
            final(self).counters() == (Counters {
                processed: saturating_sum(old(self).counters().processed, n),
                ..old(self).counters()
            }),
            final(self).phase() == old(self).phase(),
            final(self).stop_requested() == old(self).stop_requested(),
            final(self).failure() == old(self).failure(),
            final(self).has_warning() == old(self).has_warning(),
            final(self).sampler() == old(self).sampler(),
            final(self).last_state() == old(self).last_state(),
    {
        self.counters.processed = add_saturating(self.counters.processed, n);
    }

    /// Counts one more failure that the session recovers from.
    pub fn add_error(&mut self)
        requires
            old(self).wf(),
        ensures
            final(self).wf(),
            final(self).counters() == (Counters {
                errors: saturating_sum(old(self).counters().errors, 1),
                ..old(self).counters()
            }),
            final(self).phase() == old(self).phase(),
            final(self).stop_requested() == old(self).stop_requested(),
            final(self).failure() == old(self).failure(),
            final(self).has_warning() == old(self).has_warning(),
            final(self).sampler() == old(self).sampler(),
            final(self).last_state() == old(self).last_state(),
    {
        self.counters.errors = add_saturating(self.counters.errors, 1);
    }

    /// Moves the session on. A cleanup that ran out of time sets the stop
    /// flag and the warning; a failure sets the stop flag.
    pub fn on_event(&mut self, event: PhaseEvent)
        requires
            old(self).wf(),
        ensures
            final(self).wf(),
            final(self).phase() == old(self).phase().after(event),
            final(self).counters() == old(self).counters(),
            final(self).failure() == old(self).failure(),
            final(self).sampler() == old(self).sampler(),
            final(self).last_state() == old(self).last_state(),
            final(self).stop_requested() == (old(self).stop_requested() || (event
                == PhaseEvent::CleanupTimedOut && old(self).is_live()) || (event
                == PhaseEvent::Failed && old(self).phase().is_active())),
            final(self).has_warning() == (old(self).has_warning() || (event
                == PhaseEvent::CleanupTimedOut && old(self).is_live())),
    {
        let live = !self.phase.terminal();
        match event {
            PhaseEvent::CleanupTimedOut => {
                if live {
                    self.stop = true;
                    self.warning = true;
                }
            },
            PhaseEvent::Failed => {
                if self.phase.active() {
                    self.stop = true;
                }
            },
            _ => {},
        }
        self.phase = self.phase.next(event);
    }

    /// Ends the session with a failure that it cannot recover from. A
    /// session that is not at work stays as it is.
    pub fn fail(&mut self, error: IndexError)
        requires
            old(self).wf(),
        ensures
            final(self).wf(),
            final(self).counters() == old(self).counters(),
            final(self).sampler() == old(self).sampler(),
            final(self).last_state() == old(self).last_state(),
            final(self).has_warning() == old(self).has_warning(),
            old(self).phase().is_active() ==> {
                &&& final(self).phase() == Phase::Error
                &&& final(self).failure() == Some(error)
                &&& final(self).stop_requested()
            },
            !old(self).phase().is_active() ==> {
                &&& final(self).phase() == old(self).phase()
                &&& final(self).failure() == old(self).failure()
                &&& final(self).stop_requested() == old(self).stop_requested()
            },
    {
        if self.phase.active() {
            self.phase = self.phase.next(PhaseEvent::Failed);
            self.failure = Some(error);
            self.stop = true;
        }
    }

    /// Takes one sample of the counters and keeps it as the latest snapshot.
    /// The snapshot shows no more processed files than files in all, and no
    /// smaller total than the snapshot before it.
    pub fn sample(&mut self, window_ms: u64, elapsed_secs: u64) -> (snap: IndexingState)
        requires
            old(self).wf(),
        ensures
            final(self).wf(),
            final(self).phase() == old(self).phase(),
            final(self).counters() == old(self).counters(),
            final(self).stop_requested() == old(self).stop_requested(),
            final(self).failure() == old(self).failure(),
            final(self).has_warning() == old(self).has_warning(),
            final(self).sampler().wf(),
            final(self).sampler().last_total() == snap.total_files,
            final(self).sampler().last_processed() == old(self).counters().processed,
            final(self).sampler().last_errors() == old(self).counters().errors,
            final(self).sampler().unchanged() == unchanged_after(
                old(self).sampler().unchanged(),
                old(self).sampler().last_processed(),
                old(self).counters().processed as nat,
            ),
            same_state(final(self).last_state(), snap),
            is_sample_of(
                snap,
                old(self).sampler(),
                old(self).counters(),
                old(self).phase(),
                window_ms,
                elapsed_secs,
            ),
            snap.processed_files <= snap.total_files,
            snap.total_files >= old(self).shown_total(),
    {
        let snap = self.sampler.sample(self.counters, self.phase, window_ms, elapsed_secs);
        self.last = copy_state(&snap);
        snap
    }

    /// The latest snapshot.
    pub fn latest(&self) -> (snap: IndexingState)
        requires
            self.wf(),
        ensures
            same_state(snap, self.last_state()),
            snap.processed_files <= snap.total_files,
            snap.total_files == self.shown_total(),
    {
        copy_state(&self.last)
    }

    /// The last snapshot of a session that has ended: the one of completion,
    /// or the one of the failure.
    pub fn closing_state(&self, elapsed_ms: u64) -> (snap: Option<IndexingState>)
        requires
            self.wf(),
        ensures
            match self.phase() {
                Phase::Complete => snap is Some && is_complete_state(
                    snap->Some_0,
                    self.counters().processed,
                    elapsed_ms,
                ),
                Phase::Error => snap is Some && is_error_state(
                    snap->Some_0,
                    self.last_state(),
                    self.failure(),
                ) && snap->Some_0.processed_files <= snap->Some_0.total_files,
                _ => snap is None,
            },
    {
        match self.phase {
            Phase::Complete => Some(complete_state(self.counters.processed, elapsed_ms)),
            Phase::Error => Some(error_state(&self.last, self.failure)),
            _ => None,
        }
    }
}

/// A copy of a snapshot.
pub fn copy_state(state: &IndexingState) -> (copy: IndexingState)
    ensures
        same_state(copy, *state),
{
    IndexingState {
        total_files: state.total_files,
        processed_files: state.processed_files,
        current_file: state.current_file.clone(),
        is_complete: state.is_complete,
        state: state.state.clone(),
        files_found: state.files_found,
        start_time: state.start_time,
        speed: state.speed,
        phase: state.phase.clone(),
    }
}

/// The single slot that holds the session of a process.
pub struct SessionManager {
    current: Option<Session>,
}

impl SessionManager {
    /// The session in the slot, if there is one.
    pub closed spec fn session(&self) -> Option<Session> {
        self.current
    }

    /// The slot holds nothing that breaks a session's invariant.
    pub open spec fn wf(&self) -> bool {
        self.session() is Some ==> self.session()->Some_0.wf()
    }

    /// A session is live.
    pub open spec fn is_busy(&self) -> bool {
        self.session() is Some && self.session()->Some_0.is_live()
    }

    /// A manager with an empty slot.
    pub fn new() -> (m: SessionManager)
        ensures
            m.wf(),
            m.session() is None,
            !m.is_busy(),
    {
        SessionManager { current: None }
    }

    /// Whether a session is live.
    pub fn busy(&self) -> (b: bool)
        ensures
            b == self.is_busy(),
    {
        match &self.current {
            Some(s) => s.live(),
            None => false,
        }
    }

    /// Asks for a session on `root`. While a session is live the answer is
    /// `SessionBusy`, and nothing changes; a root that is missing or no
    /// directory gives `InvalidRoot`, and nothing changes; else a fresh
    /// session takes the slot.
    pub fn start_indexing(&mut self, root: RootInfo) -> (r: Result<(), IndexError>)
        requires
            old(self).wf(),
        ensures
            final(self).wf(),
            old(self).is_busy() ==> r == Err::<(), IndexError>(IndexError::SessionBusy)
                && *final(self) == *old(self),
            !old(self).is_busy() && !root.is_valid() ==> r == Err::<(), IndexError>(
                IndexError::InvalidRoot,
            ) && *final(self) == *old(self),
            !old(self).is_busy() && root.is_valid() ==> r is Ok && final(self).is_busy()
                && final(self).session()->Some_0.is_fresh(),
    {
        if self.busy() {
            return Err(IndexError::SessionBusy);
        }
        if !(root.exists && root.is_dir) {
            return Err(IndexError::InvalidRoot);
        }
        self.current = Some(Session::start());
        Ok(())
    }

    /// Asks the live session to stop. Without a live session nothing
    /// changes. The call always succeeds.
    pub fn cancel_indexing(&mut self)
        requires
            old(self).wf(),
        ensures
            final(self).wf(),
            !old(self).is_busy() ==> *final(self) == *old(self),
            old(self).is_busy() ==> {
                &&& final(self).session() is Some
                &&& final(self).session()->Some_0.stop_requested()
                &&& final(self).session()->Some_0.phase() == old(self).session()->Some_0.phase()
                &&& final(self).session()->Some_0.counters() == old(
                    self,
                ).session()->Some_0.counters()
                &&& final(self).session()->Some_0.failure() == old(
                    self,
                ).session()->Some_0.failure()
                &&& final(self).session()->Some_0.last_state() == old(
                    self,
                ).session()->Some_0.last_state()
                &&& final(self).session()->Some_0.sampler() == old(
                    self,
                ).session()->Some_0.sampler()
            },
    {
        if self.busy() {
            match &mut self.current {
                Some(s) => {
                    s.request_stop();
                },
                None => {},
            }
        }
    }

    /// The latest snapshot of the session in the slot, or the snapshot of a
    /// session that has not begun.
    pub fn get_indexing_progress(&self) -> (snap: IndexingState)
        requires
            self.wf(),
        ensures
            snap.processed_files <= snap.total_files,
            match self.session() {
                Some(s) => same_state(snap, s.last_state()),
                None => is_initial_state(snap),
            },
    {
        match &self.current {
            Some(s) => s.latest(),
            None => IndexingState::default(),
        }
    }

    /// The session in the slot, to drive it.
    pub fn session_mut(&mut self) -> (s: Option<&mut Session>)
        ensures
            s is Some <==> old(self).session() is Some,
            s is Some ==> *s->Some_0 == old(self).session()->Some_0 && final(self).session()
                == Some(*final(s->Some_0)),
            s is None ==> *final(self) == *old(self),
    {
        self.current.as_mut()
    }
}

} // verus!
