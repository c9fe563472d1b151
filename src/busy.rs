//! The policy for waiting on the panel's busy line.
use vstd::prelude::*;
use crate::bus::Level;

verus! {

/// Milliseconds between two samples of the busy line.
pub const POLL_INTERVAL_MS: u64 = 200;

/// Poll intervals after which a panel that is still busy counts as
/// unresponsive: one minute.
pub const DEFAULT_MAX_POLLS: u64 = 300;

/// What to do after sampling the busy line.
#[derive(Clone, Copy, Debug, PartialEq, Eq, Structural)]
pub enum BusyStep {
    /// The panel is ready: go on with the next operation.
    Proceed,
    /// The panel is busy: wait this many milliseconds, then sample again.
    Wait(u64),
    /// The panel stayed busy longer than allowed: report it as unresponsive.
    Unresponsive,
}

/// Next number of polls and the step to take, after `polls` waits so far, with
/// at most `max_polls` allowed, on sampling the busy line at `busy`.
pub open spec fn next_poll(polls: nat, max_polls: nat, busy: Level) -> (nat, BusyStep) {
    match busy {
        Level::Low => (polls, BusyStep::Proceed),
        Level::High => if polls < max_polls {
            ((polls + 1) as nat, BusyStep::Wait(POLL_INTERVAL_MS))
        } else {
            (polls, BusyStep::Unresponsive)
        },
    }
}

/// The steps taken on a sequence of samples, starting after `polls` waits.
pub open spec fn responses(polls: nat, max_polls: nat, samples: Seq<Level>) -> Seq<BusyStep>
    decreases samples.len(),
{
    if samples.len() == 0 {
        Seq::empty()
    } else {
        let (next, step) = next_poll(polls, max_polls, samples[0]);
        seq![step] + responses(next, max_polls, samples.skip(1))
    }
}

/// A busy line that reads high `n` times.
pub open spec fn busy_for(n: nat) -> Seq<Level> {
    Seq::new(n, |i: int| Level::High)
}

/// `n` waits of one poll interval each.
pub open spec fn waits(n: nat) -> Seq<BusyStep> {
    Seq::new(n, |i: int| BusyStep::Wait(POLL_INTERVAL_MS))
}

/// Waiting for the busy line, with a bound on the number of polls.
pub struct BusyWait {
    polls: u64,
    max_polls: u64,
}

impl BusyWait {
    /// Number of poll intervals waited so far.
    pub closed spec fn polls(&self) -> nat {
        self.polls as nat
    }

    /// Number of poll intervals after which the panel counts as unresponsive.
    pub closed spec fn max_polls(&self) -> nat {
        self.max_polls as nat
    }

    /// Starts a wait that gives up after `max_polls` poll intervals.
    pub fn new(max_polls: u64) -> (wait: BusyWait)
        ensures
            wait.polls() == 0,
            wait.max_polls() == max_polls,
    {
        BusyWait { polls: 0, max_polls }
    }

    /// Takes one sample of the busy line and says what to do next.
    pub fn on_sample(&mut self, busy: Level) -> (step: BusyStep)
        ensures
            (final(self).polls(), step) == next_poll(old(self).polls(), old(self).max_polls(), busy),
            final(self).max_polls() == old(self).max_polls(),
    {
        match busy {
            Level::Low => BusyStep::Proceed,
            Level::High => {
                if self.polls < self.max_polls {
                    self.polls = self.polls + 1;
                    BusyStep::Wait(POLL_INTERVAL_MS)
                } else {
                    BusyStep::Unresponsive
                }
            },
        }
    }
}

/// A busy line that reads high `n` times and then low, within the allowed
/// number of polls, gives exactly `n` waits of one poll interval and then
/// lets the caller proceed.
pub proof fn lemma_busy_then_ready(polls: nat, max_polls: nat, n: nat)
    requires
        polls + n <= max_polls,
    ensures
        responses(polls, max_polls, busy_for(n).push(Level::Low)) == waits(n).push(BusyStep::Proceed),
    decreases n,
{
    let samples = busy_for(n).push(Level::Low);
    if n == 0 {
        assert(samples.skip(1) =~= Seq::<Level>::empty());
        assert(responses(polls, max_polls, samples.skip(1)) == Seq::<BusyStep>::empty());
        assert(responses(polls, max_polls, samples) =~= waits(n).push(BusyStep::Proceed));
    } else {
        lemma_busy_then_ready(polls + 1, max_polls, (n - 1) as nat);
        assert(samples.skip(1) =~= busy_for((n - 1) as nat).push(Level::Low));
        assert(responses(polls, max_polls, samples) =~= waits(n).push(BusyStep::Proceed));
    }
}

/// A busy line that stays high past the allowed number of polls makes the
/// wait give up: `max_polls` waits, then the panel is reported unresponsive.
pub proof fn lemma_busy_times_out(polls: nat, max_polls: nat)
    requires
        polls <= max_polls,
    ensures
        responses(polls, max_polls, busy_for((max_polls - polls + 1) as nat)) == waits(
            (max_polls - polls) as nat,
        ).push(BusyStep::Unresponsive),
    decreases max_polls - polls,
{
    let samples = busy_for((max_polls - polls + 1) as nat);
    if polls == max_polls {
        assert(samples.skip(1) =~= Seq::<Level>::empty());
        assert(responses(polls, max_polls, samples.skip(1)) == Seq::<BusyStep>::empty());
        assert(responses(polls, max_polls, samples) =~= waits(0).push(BusyStep::Unresponsive));
    } else {
        lemma_busy_times_out(polls + 1, max_polls);
        assert(samples.skip(1) =~= busy_for((max_polls - polls) as nat));
        assert(responses(polls, max_polls, samples) =~= waits((max_polls - polls) as nat).push(
            BusyStep::Unresponsive,
        ));
    }
}

} // verus!
