//! The desktop's cognitive cycle: a switch, and a counter that runs while the
//! switch is on.

use vstd::prelude::*;

verus! {

/// Milliseconds between two ticks of the cycle.
pub const TICK_INTERVAL_MS: u64 = 50;

/// The state of the cognitive cycle.
#[derive(Debug, Clone, Copy, PartialEq, Eq, Structural)]
pub struct CognitiveCycle {
    /// Whether the cycle runs.
    pub running: bool,
    /// Ticks counted while it ran. The counter wraps around.
    pub ticks: u64,
}

/// The counter after one more tick.
pub open spec fn ticked(running: bool, ticks: u64) -> u64 {
    if !running {
        ticks
    } else if ticks == u64::MAX {
        0
    } else {
        (ticks + 1) as u64
    }
}

/// The counter after `n` ticks of the timer.
pub open spec fn ticked_times(running: bool, ticks: u64, n: nat) -> u64
    decreases n,
{
    if n == 0 {
        ticks
    } else {
        ticked(running, ticked_times(running, ticks, (n - 1) as nat))
    }
}

impl CognitiveCycle {
    /// A cycle that stands still and has counted nothing.
    pub fn new() -> (cycle: CognitiveCycle)
        ensures
            cycle == (CognitiveCycle { running: false, ticks: 0 }),
    {
        CognitiveCycle { running: false, ticks: 0 }
    }

    /// Flips the switch and returns its new position.
    pub fn toggle(&mut self) -> (running: bool)
        ensures
            running == !old(self).running,
            *final(self) == (CognitiveCycle { running, ticks: old(self).ticks }),
    {
        self.running = !self.running;
        self.running
    }

    /// One tick of the timer: counted while the cycle runs.
    pub fn tick(&mut self)
        ensures
            *final(self) == (CognitiveCycle {
                running: old(self).running,
                ticks: ticked(old(self).running, old(self).ticks),
            }),
    {
        if self.running {
            self.ticks = self.ticks.wrapping_add(1);
        }
    }

    /// What the switch's button offers.
    pub fn button_label(&self) -> (label: &'static str)
        ensures
            label@ == if self.running {
                "Stop CogCycle"@
            } else {
                "Start CogCycle"@
            },
    {
        if self.running {
            "Stop CogCycle"
        } else {
            "Start CogCycle"
        }
    }

    /// The colour of the indicator beside the button.
    pub fn indicator_color(&self) -> (color: &'static str)
        ensures
            color@ == if self.running {
                "#006400"@
            } else {
                "#8B0000"@
            },
    {
        if self.running {
            "#006400"
        } else {
            "#8B0000"
        }
    }

    /// The trace line of a switch that was flipped.
    pub fn state_line(&self) -> (line: &'static str)
        ensures
            line@ == if self.running {
                "cognitive_cycle_state=true"@
            } else {
                "cognitive_cycle_state=false"@
            },
    {
        if self.running {
            "cognitive_cycle_state=true"
        } else {
            "cognitive_cycle_state=false"
        }
    }
}

/// A cycle that stands still counts nothing, however long the timer ticks.
pub proof fn lemma_idle_cycle_counts_nothing(ticks: u64, n: nat)
    ensures
        ticked_times(false, ticks, n) == ticks,
    decreases n,
{
    if n > 0 {
        lemma_idle_cycle_counts_nothing(ticks, (n - 1) as nat);
    }
}

/// A running cycle that has room for `n` more ticks counts each of them.
pub proof fn lemma_running_cycle_counts_ticks(ticks: u64, n: nat)
    requires
        ticks + n <= u64::MAX,
    ensures
        ticked_times(true, ticks, n) == ticks + n,
    decreases n,
{
    if n > 0 {
        lemma_running_cycle_counts_ticks(ticks, (n - 1) as nat);
    }
}

} // verus!
