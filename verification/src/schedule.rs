//! The cadence of a background loop.
//!
//! A loop wakes at short, even intervals so that it notices a shutdown
//! soon, and does its work once every so many wake-ups. The loop asks the
//! cadence what this turn is for; sleeping and working are the caller's.

use vstd::prelude::*;

verus! {

/// What a turn of the loop is for.
#[derive(Clone, Copy, Debug, PartialEq, Eq, Structural)]
pub enum Turn {
    /// Do the work.
    Act,
    /// Sleep for one interval.
    Wait,
    /// Shutdown was asked for: leave the loop.
    Exit,
}

/// Counts the intervals slept since the work was last done.
#[derive(Clone, Copy, Debug, PartialEq, Eq, Structural)]
pub struct Cadence {
    /// Intervals to sleep between two rounds of work.
    pub period: u32,
    /// Intervals slept since the last round of work.
    pub waited: u32,
}

impl Cadence {
    /// The turn that comes next: the loop leaves at once where it is no
    /// longer `running`; else it works once `period` intervals were slept,
    /// and sleeps one more before that.
    pub open spec fn spec_turn(self, running: bool) -> Turn {
        if !running {
            Turn::Exit
        } else if self.waited >= self.period {
            Turn::Act
        } else {
            Turn::Wait
        }
    }

    /// The cadence after the next turn was taken.
    pub open spec fn spec_next(self, running: bool) -> Cadence {
        match self.spec_turn(running) {
            Turn::Exit => self,
            Turn::Act => Cadence { period: self.period, waited: 0 },
            Turn::Wait => Cadence { period: self.period, waited: (self.waited + 1) as u32 },
        }
    }

    /// A cadence of `period` intervals whose first round of work comes
    /// after `delay` of them; a `delay` beyond `period` counts as `period`.
    pub fn new(period: u32, delay: u32) -> (cadence: Cadence)
        ensures
            cadence.period == period,
            cadence.waited == (if delay >= period {
                0
            } else {
                period - delay
            }),
    {
        if delay >= period {
            Cadence { period, waited: 0 }
        } else {
            Cadence { period, waited: period - delay }
        }
    }

    /// Takes the next turn.
    pub fn turn(&mut self, running: bool) -> (turn: Turn)
        ensures
            turn == old(self).spec_turn(running),
            *final(self) == old(self).spec_next(running),
    {
        if !running {
            Turn::Exit
        } else if self.waited >= self.period {
            self.waited = 0;
            Turn::Act
        } else {
            self.waited = self.waited + 1;
            Turn::Wait
        }
    }
}

/// The cadence after `turns` turns in a row were taken while running.
pub open spec fn spec_after(cadence: Cadence, turns: nat) -> Cadence
    decreases turns,
{
    if turns == 0 {
        cadence
    } else {
        spec_after(cadence, (turns - 1) as nat).spec_next(true)
    }
}

/// After a round of work, exactly `period` turns of sleep follow before
/// the next round: counted from there, turn `k` is a wait for every `k`
/// below `period`, and turn `period` is work.
pub proof fn lemma_rounds_are_a_period_apart(cadence: Cadence, k: nat)
    requires
        cadence.waited == 0,
        k <= cadence.period,
    ensures
        spec_after(cadence, k) == (Cadence { period: cadence.period, waited: k as u32 }),
        spec_after(cadence, k).spec_turn(true) == (if k == cadence.period {
            Turn::Act
        } else {
            Turn::Wait
        }),
    decreases k,
{
    if k > 0 {
        lemma_rounds_are_a_period_apart(cadence, (k - 1) as nat);
    }
}

} // verus!
