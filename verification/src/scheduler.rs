//! The frame scheduler: drives the execution engine for a fixed half-frame
//! cycle budget, then offers the current hardware-interrupt vector to the
//! interrupt controller, alternating deterministically between the
//! mid-frame and end-of-frame vectors.  Wall-clock throttling is the
//! caller's part; the decisions live here.

use vstd::prelude::*;

use crate::cpu::Cpu;
use crate::memory::Addressing;
use crate::memory::MemError;
use crate::semantics::int_view;
use crate::semantics::run_view;
use crate::semantics::RunOutcome;

verus! {

/// The scheduler's configuration and alternation state.  `phase` is false
/// when the mid-frame vector is due next, true when the end-of-frame
/// vector is.
pub struct FrameScheduler {
    pub cycle_max: u32,
    pub vector_mid: u16,
    pub vector_end: u16,
    pub phase: bool,
}

/// What one half-frame did: the cycles the budget loop consumed, the
/// vector that was then requested, and whether the controller accepted it.
#[derive(Clone, Copy)]
pub struct HalfFrameReport {
    pub cycles: u32,
    pub vector: u16,
    pub accepted: bool,
}

impl FrameScheduler {
    pub open spec fn wf(&self) -> bool {
        self.cycle_max <= 0x7FFF_FFFF
    }

    /// The vector the next half-frame will request.
    pub open spec fn current_vector(&self) -> u16 {
        if self.phase {
            self.vector_end
        } else {
            self.vector_mid
        }
    }

    /// The scheduler after one half-frame: the other vector is due next.
    pub open spec fn spec_toggle(&self) -> FrameScheduler {
        FrameScheduler { phase: !self.phase, ..*self }
    }

    /// A scheduler that will request the mid-frame vector first.
    pub fn new(cycle_max: u32, vector_mid: u16, vector_end: u16) -> (s: FrameScheduler)
        requires
            cycle_max <= 0x7FFF_FFFF,
        ensures
            s == (FrameScheduler { cycle_max, vector_mid, vector_end, phase: false }),
    {
        FrameScheduler { cycle_max, vector_mid, vector_end, phase: false }
    }

    /// Hands out the vector that is due and moves to the other one.
    pub fn next_vector(&mut self) -> (v: u16)
        ensures
            v == old(self).current_vector(),
            *final(self) == old(self).spec_toggle(),
    {
        let v = if self.phase {
            self.vector_end
        } else {
            self.vector_mid
        };
        self.phase = !self.phase;
        v
    }

    /// One half-frame: runs the engine until the cycle budget is exceeded,
    /// then requests the vector that is due.  A rejected interrupt is
    /// dropped, not retried.  A bus fault ends the half-frame with the
    /// machine as it stood before the faulting operation.
    pub fn half_frame<A: Addressing>(&mut self, cpu: &mut Cpu<A>) -> (r: Result<
        HalfFrameReport,
        MemError,
    >)
        requires
            old(self).wf(),
            old(cpu).wf(),
        ensures
            final(self).wf(),
            final(cpu).wf(),
            match run_view(old(cpu)@, 0, old(self).cycle_max as int) {
                RunOutcome::Fault(v, e) => r == Err::<HalfFrameReport, MemError>(e) && final(cpu)@
                    == v && *final(self) == *old(self),
                RunOutcome::Done(v, c) => *final(self) == old(self).spec_toggle() && match int_view(
                    v,
                    old(self).current_vector(),
                ) {
                    Err(e) => r == Err::<HalfFrameReport, MemError>(e) && final(cpu)@ == v,
                    Ok((v2, b)) => final(cpu)@ == v2 && (r matches Ok(rep) && rep.cycles as int
                        == c && rep.vector == old(self).current_vector() && rep.accepted == b),
                },
            },
    {
        let cycles = match cpu.run_budget(self.cycle_max) {
            Err(e) => {
                return Err(e);
            },
            Ok(c) => c,
        };
        let vector = self.next_vector();
        let accepted = match cpu.interrupt(vector) {
            Err(e) => {
                return Err(e);
            },
            Ok(b) => b,
        };
        Ok(HalfFrameReport { cycles, vector, accepted })
    }
}

} // verus!
