//! A flat, fully writable address space for exercising the execution
//! engine: every address below the buffer's length is mapped and writable.

use vstd::prelude::*;
use vstd::pervasive::VecAdditionalExecFns;

use crate::memory::Addressing;
use crate::memory::MemError;

verus! {

pub struct TestAddressing {
    pub rom: Vec<u8>,
}

impl TestAddressing {
    pub fn new(rom: Vec<u8>) -> (r: TestAddressing)
        ensures
            r.rom@ == rom@,
            r.inv(),
    {
        TestAddressing { rom }
    }
}

impl Addressing for TestAddressing {
    open spec fn inv(&self) -> bool {
        true
    }

    open spec fn mapped(&self, addr: u16) -> bool {
        (addr as int) < self.rom@.len()
    }

    open spec fn writable(&self, addr: u16) -> bool {
        (addr as int) < self.rom@.len()
    }

    open spec fn byte_at(&self, addr: u16) -> u8 {
        if (addr as int) < self.rom@.len() {
            self.rom@[addr as int]
        } else {
            0
        }
    }

    proof fn lemma_writable_mapped(&self, addr: u16) {
    }

    fn get_mem(&self, addr: u16) -> (r: Result<u8, MemError>) {
        if (addr as usize) < self.rom.len() {
            Ok(self.rom[addr as usize])
        } else {
            Err(MemError::Unmapped)
        }
    }

    fn set_mem(&mut self, addr: u16, val: u8) -> (r: Result<(), MemError>) {
        if (addr as usize) < self.rom.len() {
            self.rom.set(addr as usize, val);
            proof {
                assert forall|x: u16| x != addr implies self.byte_at(x) == old(self).byte_at(
                    x,
                ) by {
                    assert(x as int != addr as int);
                }
            }
            Ok(())
        } else {
            Err(MemError::Unmapped)
        }
    }

    fn probe_write(&self, addr: u16) -> (r: Result<(), MemError>) {
        if (addr as usize) < self.rom.len() {
            Ok(())
        } else {
            Err(MemError::Unmapped)
        }
    }
}

} // verus!
