//! The poll loop between ticks: how long to wait, when to look for the
//! shutdown signal, and when to stop.
//!
//! The loop itself runs outside: it performs a tick, measures it, asks
//! [`PollLoop::after_tick`] what to do until the next one, does that, and
//! reports what came of it to [`PollLoop::after_pause`]. A tick is never
//! interrupted; only the wait between two ticks is.

use vstd::prelude::*;

verus! {

/// The nanoseconds in one second.
pub const NANOS_PER_SEC: u32 = 1_000_000_000;

/// A length of time as a clock measures it: whole seconds and the
/// nanoseconds beyond them.
#[derive(Clone, Copy, Debug, PartialEq, Eq, Structural)]
pub struct Lapse {
    pub secs: u64,
    pub nanos: u32,
}

impl Lapse {
    /// The nanoseconds stay below one second.
    pub open spec fn wf(&self) -> bool {
        self.nanos < NANOS_PER_SEC
    }

    /// The whole length in nanoseconds.
    pub open spec fn as_nanos(&self) -> int {
        self.secs * NANOS_PER_SEC + self.nanos
    }
}

/// The two states of the loop. `Stopping` is final.
#[derive(Clone, Copy, Debug, PartialEq, Eq, Structural)]
pub enum LoopState {
    Running,
    Stopping,
}

/// What to do between two ticks.
#[derive(Clone, Copy, Debug, PartialEq, Eq, Structural)]
pub enum Pause {
    /// Wait for the shutdown signal, for this long at most.
    Wait(Lapse),
    /// The tick took the whole interval or more: do not wait, only look
    /// whether the shutdown signal has already come.
    Check,
}

/// What came of a pause.
#[derive(Clone, Copy, Debug, PartialEq, Eq, Structural)]
pub enum PauseOutcome {
    /// The shutdown signal came.
    Shutdown,
    /// No signal: the wait ran out, or nothing was pending.
    Quiet,
    /// The sender of the signal is gone, so no signal can come any more.
    Disconnected,
}

/// The poll loop's state and its interval in seconds.
#[derive(Clone, Copy, Debug, PartialEq, Eq, Structural)]
pub struct PollLoop {
    pub state: LoopState,
    pub interval: u64,
}

/// The lapse that is `nanos` nanoseconds long.
pub open spec fn lapse_of_nanos(nanos: int) -> Lapse {
    Lapse { secs: (nanos / (NANOS_PER_SEC as int)) as u64, nanos: (nanos % (NANOS_PER_SEC as int)) as u32 }
}

/// The pause after a tick that took `elapsed`, for an interval of
/// `interval` seconds: a wait for the rest of the interval where the tick
/// was shorter, and no wait at all where it was not.
pub open spec fn spec_pause(interval: u64, elapsed: Lapse) -> Pause {
    if elapsed.as_nanos() < interval * NANOS_PER_SEC {
        Pause::Wait(lapse_of_nanos(interval * NANOS_PER_SEC - elapsed.as_nanos()))
    } else {
        Pause::Check
    }
}

/// The state after a pause: the loop goes on only from `Running` and only
/// where the pause was quiet.
pub open spec fn spec_after_pause(state: LoopState, outcome: PauseOutcome) -> LoopState {
    if state == LoopState::Running && outcome == PauseOutcome::Quiet {
        LoopState::Running
    } else {
        LoopState::Stopping
    }
}

impl PollLoop {
    /// A running loop with the given interval.
    pub fn new(interval: u64) -> (r: PollLoop)
        ensures
            r == (PollLoop { state: LoopState::Running, interval }),
    {
        PollLoop { state: LoopState::Running, interval }
    }

    /// Whether another tick is due.
    pub fn is_running(&self) -> (r: bool)
        ensures
            r == (self.state == LoopState::Running),
    {
        match self.state {
            LoopState::Running => true,
            LoopState::Stopping => false,
        }
    }

    /// Decides what to do after a tick that took `elapsed`.
    pub fn after_tick(&self, elapsed: Lapse) -> (r: Pause)
        requires
            elapsed.wf(),
        ensures
            r == spec_pause(self.interval, elapsed),
    {
        if elapsed.secs >= self.interval {
            assert(elapsed.as_nanos() >= self.interval * NANOS_PER_SEC) by (nonlinear_arith)
                requires
                    elapsed.secs >= self.interval,
                    elapsed.as_nanos() == elapsed.secs * NANOS_PER_SEC + elapsed.nanos,
            ;
            Pause::Check
        } else {
            assert(elapsed.as_nanos() < self.interval * NANOS_PER_SEC) by (nonlinear_arith)
                requires
                    elapsed.secs + 1 <= self.interval,
                    elapsed.nanos < NANOS_PER_SEC,
                    elapsed.as_nanos() == elapsed.secs * NANOS_PER_SEC + elapsed.nanos,
            ;
            let rest = if elapsed.nanos == 0 {
                Lapse { secs: self.interval - elapsed.secs, nanos: 0 }
            } else {
                Lapse {
                    secs: self.interval - elapsed.secs - 1,
                    nanos: NANOS_PER_SEC - elapsed.nanos,
                }
            };
            proof {
                let left = self.interval * NANOS_PER_SEC - elapsed.as_nanos();
                assert(left == rest.secs * NANOS_PER_SEC + rest.nanos) by (nonlinear_arith)
                    requires
                        left == self.interval * NANOS_PER_SEC - (elapsed.secs * NANOS_PER_SEC
                            + elapsed.nanos),
                        rest.secs == (if elapsed.nanos == 0 {
                            self.interval - elapsed.secs
                        } else {
                            self.interval - elapsed.secs - 1
                        }),
                        rest.nanos == (if elapsed.nanos == 0 {
                            0
                        } else {
                            NANOS_PER_SEC - elapsed.nanos
                        }),
                ;
                lemma_lapse_of_its_nanos(rest);
            }
            Pause::Wait(rest)
        }
    }

    /// Takes in what came of the pause: the loop stops on the shutdown
    /// signal and where the signal's sender is gone, and never starts
    /// again.
    pub fn after_pause(&mut self, outcome: PauseOutcome)
        ensures
            final(self).interval == old(self).interval,
            final(self).state == spec_after_pause(old(self).state, outcome),
    {
        match outcome {
            PauseOutcome::Quiet => {},
            PauseOutcome::Shutdown => {
                self.state = LoopState::Stopping;
            },
            PauseOutcome::Disconnected => {
                self.state = LoopState::Stopping;
            },
        }
    }
}

/// A well-formed lapse is the lapse of its own length.
pub proof fn lemma_lapse_of_its_nanos(lapse: Lapse)
    requires
        lapse.wf(),
    ensures
        lapse_of_nanos(lapse.as_nanos()) == lapse,
{
    vstd::arithmetic::div_mod::lemma_fundamental_div_mod_converse(
        lapse.as_nanos(),
        NANOS_PER_SEC as int,
        lapse.secs as int,
        lapse.nanos as int,
    );
}

/// A wait never lasts longer than what is left of the interval: the tick
/// and the wait after it add up to exactly one interval, and the wait is
/// not empty.
pub proof fn lemma_wait_fills_the_interval(interval: u64, elapsed: Lapse)
    requires
        elapsed.wf(),
    ensures
        match spec_pause(interval, elapsed) {
            Pause::Wait(rest) => rest.wf() && rest.as_nanos() > 0 && elapsed.as_nanos()
                + rest.as_nanos() == interval * NANOS_PER_SEC,
            Pause::Check => elapsed.as_nanos() >= interval * NANOS_PER_SEC,
        },
{
    let left = interval * NANOS_PER_SEC - elapsed.as_nanos();
    if left > 0 {
        let unit = NANOS_PER_SEC as int;
        assert(0 <= left / unit <= interval) by (nonlinear_arith)
            requires
                0 < left <= interval * unit,
                unit > 0,
        ;
    }
}

/// The state after a run of pauses, taken in order.
pub open spec fn spec_after_pauses(state: LoopState, outcomes: Seq<PauseOutcome>) -> LoopState
    decreases outcomes.len(),
{
    if outcomes.len() == 0 {
        state
    } else {
        spec_after_pause(spec_after_pauses(state, outcomes.drop_last()), outcomes.last())
    }
}

/// `Stopping` is final: once the loop has stopped, nothing that comes
/// later starts it again.
pub proof fn lemma_stopping_is_final(outcomes: Seq<PauseOutcome>)
    ensures
        spec_after_pauses(LoopState::Stopping, outcomes) == LoopState::Stopping,
    decreases outcomes.len(),
{
    if outcomes.len() > 0 {
        lemma_stopping_is_final(outcomes.drop_last());
    }
}

/// The loop runs for exactly as long as every pause so far was quiet: the
/// first shutdown signal, or the loss of its sender, stops the loop at the
/// end of that very pause.
pub proof fn lemma_runs_while_quiet(outcomes: Seq<PauseOutcome>)
    ensures
        spec_after_pauses(LoopState::Running, outcomes) == LoopState::Running <==> forall|i: int|
            0 <= i < outcomes.len() ==> outcomes[i] == PauseOutcome::Quiet,
    decreases outcomes.len(),
{
    if outcomes.len() > 0 {
        let earlier = outcomes.drop_last();
        lemma_runs_while_quiet(earlier);
        if spec_after_pauses(LoopState::Running, outcomes) == LoopState::Running {
            assert forall|i: int| 0 <= i < outcomes.len() implies outcomes[i]
                == PauseOutcome::Quiet by {
                if i < earlier.len() {
                    assert(earlier[i] == outcomes[i]);
                }
            }
        } else {
            if forall|i: int| 0 <= i < outcomes.len() ==> outcomes[i] == PauseOutcome::Quiet {
                assert forall|i: int| 0 <= i < earlier.len() implies earlier[i]
                    == PauseOutcome::Quiet by {
                    assert(earlier[i] == outcomes[i]);
                }
                assert(outcomes.last() == PauseOutcome::Quiet);
            }
        }
    }
}

} // verus!
