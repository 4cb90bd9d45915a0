//! The fixed arcade machine: its memory map, entry point, half-frame cycle
//! budget and interrupt vectors, assembled for a caller that supplies the
//! four ROM images and drives the frame loop.

use vstd::prelude::*;

use crate::cpu::Cpu;
use crate::memory::Addressing;
use crate::memory::BuildError;
use crate::register::Register;
use crate::scheduler::FrameScheduler;
use crate::siaddressing::SpaceInvadersAddressing;

verus! {

/// The machine's emulated clock runs 2,000,000 cycles per second.
pub const CLOCK_RATE: u32 = 2_000_000;

/// The display refreshes 60 times per second.
pub const REFRESH_RATE: u32 = 60;

/// Cycles per half frame: the clock rate divided by twice the refresh
/// rate.
pub const HALF_FRAME_CYCLES: u32 = CLOCK_RATE / (2 * REFRESH_RATE);

/// The mid-frame hardware-interrupt vector.
pub const VECTOR_MID: u16 = 0x08;

/// The end-of-frame hardware-interrupt vector.
pub const VECTOR_END: u16 = 0x10;

pub struct InvadersLaunch {}

impl InvadersLaunch {
    pub fn new() -> (l: InvadersLaunch) {
        InvadersLaunch {  }
    }

    /// The machine at power-on: the four 2048-byte ROM images mapped from
    /// address 0, zeroed work and video RAM, PC at 0, running, interrupts
    /// disarmed.  Wrong-sized buffers are rejected before any instruction
    /// executes.
    pub fn machine(&self, h_arr: Vec<u8>, g_arr: Vec<u8>, f_arr: Vec<u8>, e_arr: Vec<u8>) -> (r:
        Result<Cpu<SpaceInvadersAddressing>, BuildError>)
        ensures
            (r is Ok) <==> (h_arr@.len() == 2048 && g_arr@.len() == 2048 && f_arr@.len() == 2048
                && e_arr@.len() == 2048),
            r matches Ok(c) ==> c.wf() && !c.halted && !c.int_enabled && c.register
                == Register::new_spec(0) && (forall|a: u16|
                a < 0x0800 ==> c.addring.byte_at(a) == h_arr@[a as int]) && (forall|a: u16|
                0x0800 <= a < 0x1000 ==> c.addring.byte_at(a) == g_arr@[a - 0x0800]) && (forall|
                a: u16,
            |
                0x1000 <= a < 0x1800 ==> c.addring.byte_at(a) == f_arr@[a - 0x1000]) && (forall|
                a: u16,
            |
                0x1800 <= a < 0x2000 ==> c.addring.byte_at(a) == e_arr@[a - 0x1800]) && (forall|
                a: u16,
            |
                0x2000 <= a < 0x4000 ==> c.addring.byte_at(a) == 0),
            r is Err ==> r == Err::<Cpu<SpaceInvadersAddressing>, BuildError>(
                BuildError::WrongBufferSize,
            ),
    {
        match SpaceInvadersAddressing::new(h_arr, g_arr, f_arr, e_arr) {
            Err(e) => Err(e),
            Ok(bus) => Ok(Cpu::new(bus, 0)),
        }
    }

    /// The frame scheduler for this machine: half-frame budget of
    /// `HALF_FRAME_CYCLES`, mid-frame vector first.
    pub fn scheduler(&self) -> (s: FrameScheduler)
        ensures
            s == (FrameScheduler {
                cycle_max: HALF_FRAME_CYCLES,
                vector_mid: VECTOR_MID,
                vector_end: VECTOR_END,
                phase: false,
            }),
    {
        FrameScheduler::new(HALF_FRAME_CYCLES, VECTOR_MID, VECTOR_END)
    }
}

} // verus!
