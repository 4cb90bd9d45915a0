//! Verified core of an Intel 8080 arcade machine emulator: register file,
//! memory bus, instruction semantics, interrupt controller and frame
//! scheduler.  The display window and ROM loading live outside the library.

pub mod alu;
pub mod instr;
pub mod register;
pub mod memory;
pub mod region;
pub mod semantics;
pub mod cpu;
pub mod scheduler;
pub mod launch;
pub mod video;
pub mod laws;
pub mod siaddressing;
pub mod testadd;
