//! What a worker does when the channel to the next stage is full.

use vstd::prelude::*;
use crate::limits::{
    BACKOFF_CAP_MS, BACKOFF_START_MS, MAX_CONSECUTIVE_SEND_ERRORS, MAX_ERROR_RETRIES,
    MAX_TOTAL_SEND_ERRORS,
};

verus! {

/// What a try to send a batch gave.
#[derive(Clone, Copy, Debug, PartialEq, Eq, Structural)]
pub enum SendOutcome {
    /// The batch is in the channel.
    Sent,
    /// The channel is full; the batch came back.
    Full,
    /// Nobody receives any more.
    Disconnected,
}

/// What the worker does next.
#[derive(Clone, Copy, Debug, PartialEq, Eq, Structural)]
pub enum SendAction {
    /// The batch is on its way: go on with the next.
    Done,
    /// Sleep for so many milliseconds, then try again.
    RetryAfter(u64),
    /// Drop the batch and go on.
    GiveUp,
    /// Leave.
    Quit,
}

/// The delay before the try after `delay` failed: twice as long, at most
/// `BACKOFF_CAP_MS`.
pub open spec fn next_delay(delay: nat) -> nat {
    if delay * 2 >= BACKOFF_CAP_MS {
        BACKOFF_CAP_MS as nat
    } else {
        delay * 2
    }
}

/// The delay after `fails` full channels in a row.
pub open spec fn delay_after(fails: nat) -> nat
    decreases fails,
{
    if fails == 0 {
        BACKOFF_START_MS as nat
    } else {
        next_delay(delay_after((fails - 1) as nat))
    }
}

/// Every delay lies between the first and the cap, and no delay is shorter
/// than the one before.
pub proof fn lemma_delay_bounds(fails: nat)
    ensures
        BACKOFF_START_MS <= delay_after(fails) <= BACKOFF_CAP_MS,
        delay_after(fails) <= delay_after(fails + 1),
        fails >= 7 ==> delay_after(fails) == BACKOFF_CAP_MS,
    decreases fails,
{
    if fails > 0 {
        lemma_delay_bounds((fails - 1) as nat);
    }
    assert(delay_after(fails + 1) == next_delay(delay_after(fails)));
    if fails >= 7 {
        assert(delay_after(0) == 1);
        assert(delay_after(1) == 2);
        assert(delay_after(2) == 4);
        assert(delay_after(3) == 8);
        assert(delay_after(4) == 16);
        assert(delay_after(5) == 32);
        assert(delay_after(6) == 64);
        assert(delay_after(7) == 100);
    }
}

/// The exponential delay of one send.
#[derive(Clone, Copy, Debug)]
pub struct Backoff {
    delay_ms: u64,
}

impl Backoff {
    /// The delay lies between the first delay and the cap.
    pub closed spec fn wf(&self) -> bool {
        BACKOFF_START_MS <= self.delay_ms <= BACKOFF_CAP_MS
    }

    /// The delay before the next try.
    pub closed spec fn delay(&self) -> nat {
        self.delay_ms as nat
    }

    /// A backoff before any failure.
    pub fn new() -> (b: Backoff)
        ensures
            b.wf(),
            b.delay() == delay_after(0),
    {
        Backoff { delay_ms: BACKOFF_START_MS }
    }

    /// The delay to sleep now; the next one is twice as long, up to the cap.
    pub fn next(&mut self) -> (delay: u64)
        requires
            old(self).wf(),
        ensures
            final(self).wf(),
            delay as nat == old(self).delay(),
            final(self).delay() == next_delay(old(self).delay()),
            BACKOFF_START_MS <= delay <= BACKOFF_CAP_MS,
    {
        let delay = self.delay_ms;
        self.delay_ms = if delay * 2 >= BACKOFF_CAP_MS {
            BACKOFF_CAP_MS
        } else {
            delay * 2
        };
        delay
    }
}

/// What a scanner worker does after a try to send: it retries a full channel
/// without end, with growing delays, and leaves when the session stops or
/// the channel is disconnected.
pub open spec fn scanner_action(outcome: SendOutcome, stop: bool, delay: nat) -> SendAction {
    match outcome {
        SendOutcome::Sent => SendAction::Done,
        SendOutcome::Disconnected => SendAction::Quit,
        SendOutcome::Full => if stop {
            SendAction::Quit
        } else {
            SendAction::RetryAfter(delay as u64)
        },
    }
}

/// Decides what a scanner worker does after a try to send.
pub fn scanner_send_step(backoff: &mut Backoff, outcome: SendOutcome, stop: bool) -> (action:
    SendAction)
    requires
        old(backoff).wf(),
    ensures
        final(backoff).wf(),
        action == scanner_action(outcome, stop, old(backoff).delay()),
        action is RetryAfter ==> final(backoff).delay() == next_delay(old(backoff).delay()),
        !(action is RetryAfter) ==> *final(backoff) == *old(backoff),
{
    match outcome {
        SendOutcome::Sent => SendAction::Done,
        SendOutcome::Disconnected => SendAction::Quit,
        SendOutcome::Full => {
            if stop {
                SendAction::Quit
            } else {
                SendAction::RetryAfter(backoff.next())
            }
        },
    }
}

/// One send of a preparer: its delay and the full channels it met.
#[derive(Clone, Copy, Debug)]
pub struct PreparerSend {
    backoff: Backoff,
    retries: usize,
}

impl PreparerSend {
    /// The delay is the one after so many full channels, and these are
    /// within the limit.
    pub closed spec fn wf(&self) -> bool {
        &&& self.backoff.wf()
        &&& self.backoff.delay() == delay_after(self.retries as nat)
        &&& self.retries < MAX_ERROR_RETRIES
    }

    /// The full channels met by this send.
    pub closed spec fn retries(&self) -> nat {
        self.retries as nat
    }

    /// A send before its first try.
    pub fn new() -> (s: PreparerSend)
        ensures
            s.wf(),
            s.retries() == 0,
    {
        PreparerSend { backoff: Backoff::new(), retries: 0 }
    }

    /// What a preparer does after a try to send: a full channel is retried
    /// after the delay, but the `MAX_ERROR_RETRIES`th full channel gives the
    /// batch up.
    pub open spec fn action(retries: nat, outcome: SendOutcome) -> SendAction {
        match outcome {
            SendOutcome::Sent => SendAction::Done,
            SendOutcome::Disconnected => SendAction::Quit,
            SendOutcome::Full => if retries + 1 >= MAX_ERROR_RETRIES {
                SendAction::GiveUp
            } else {
                SendAction::RetryAfter(delay_after(retries) as u64)
            },
        }
    }

    /// Decides what a preparer does after a try to send.
    pub fn step(&mut self, outcome: SendOutcome) -> (action: SendAction)
        requires
            old(self).wf(),
        ensures
            action == Self::action(old(self).retries(), outcome),
            action is RetryAfter ==> final(self).wf() && final(self).retries() == old(
                self,
            ).retries() + 1,
            !(action is RetryAfter) ==> *final(self) == *old(self),
    {
        match outcome {
            SendOutcome::Sent => SendAction::Done,
            SendOutcome::Disconnected => SendAction::Quit,
            SendOutcome::Full => {
                if self.retries + 1 >= MAX_ERROR_RETRIES {
                    SendAction::GiveUp
                } else {
                    let delay = self.backoff.next();
                    self.retries = self.retries + 1;
                    SendAction::RetryAfter(delay)
                }
            },
        }
    }
}

/// The sends that a preparer gave up: in a row, and in all.
#[derive(Clone, Copy, Debug, PartialEq, Eq, Structural)]
pub struct PreparerErrors {
    pub consecutive: usize,
    pub total: usize,
}

impl PreparerErrors {
    /// Whether a preparer with these counts leaves.
    pub open spec fn over_limit(self) -> bool {
        self.consecutive > MAX_CONSECUTIVE_SEND_ERRORS || self.total > MAX_TOTAL_SEND_ERRORS
    }

    /// The counts after a send ended with `action`: a success ends the row,
    /// a send given up adds one to both counts.
    pub open spec fn after(self, action: SendAction) -> PreparerErrors {
        match action {
            SendAction::Done => PreparerErrors { consecutive: 0, total: self.total },
            SendAction::GiveUp => if self.over_limit() {
                self
            } else {
                PreparerErrors {
                    consecutive: (self.consecutive + 1) as usize,
                    total: (self.total + 1) as usize,
                }
            },
            _ => self,
        }
    }

    /// No send was given up yet.
    pub fn new() -> (e: PreparerErrors)
        ensures
            e == (PreparerErrors { consecutive: 0, total: 0 }),
            !e.over_limit(),
    {
        PreparerErrors { consecutive: 0, total: 0 }
    }

    /// Records how a send ended, and says whether the preparer leaves: after
    /// a disconnected channel, or with more than
    /// `MAX_CONSECUTIVE_SEND_ERRORS` sends given up in a row, or more than
    /// `MAX_TOTAL_SEND_ERRORS` in all.
    pub fn record(&mut self, action: SendAction) -> (leave: bool)
        ensures
            *final(self) == old(self).after(action),
            leave == (action is Quit || (action is GiveUp && final(self).over_limit())),
    {
        match action {
            SendAction::Done => {
                self.consecutive = 0;
                false
            },
            SendAction::GiveUp => {
                if self.consecutive > MAX_CONSECUTIVE_SEND_ERRORS || self.total
                    > MAX_TOTAL_SEND_ERRORS {
                    return true;
                }
                self.consecutive = self.consecutive + 1;
                self.total = self.total + 1;
                self.consecutive > MAX_CONSECUTIVE_SEND_ERRORS || self.total
                    > MAX_TOTAL_SEND_ERRORS
            },
            SendAction::Quit => true,
            SendAction::RetryAfter(_) => false,
        }
    }
}

/// The preparer workers to start on a host with `cores` logical cores.
pub open spec fn pool_size_for(cores: nat) -> nat {
    if cores < crate::limits::MAX_CONCURRENT_INDEXERS {
        cores
    } else {
        crate::limits::MAX_CONCURRENT_INDEXERS as nat
    }
}

/// The preparer workers to start on a host with `cores` logical cores.
pub fn pool_size(cores: usize) -> (n: usize)
    ensures
        n == pool_size_for(cores as nat),
{
    if cores < crate::limits::MAX_CONCURRENT_INDEXERS {
        cores
    } else {
        crate::limits::MAX_CONCURRENT_INDEXERS
    }
}

/// `num_cpus::get()`: the number of logical cores of this host. Nothing is
/// claimed of it.
#[verifier::external_body]
fn logical_cores() -> usize {
    num_cpus::get()
}

/// The preparer workers to start on this host.
pub fn host_pool_size() -> (n: usize)
    ensures
        n <= crate::limits::MAX_CONCURRENT_INDEXERS,
{
    pool_size(logical_cores())
}

} // verus!
