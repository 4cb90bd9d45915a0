//! The fixed machine topology: four 2 KiB ROM banks from 0x0000, 1 KiB of
//! work RAM at 0x2000, and 7 KiB of video RAM at 0x2400, filling a 16 KiB
//! window.  Everything past 0x3FFF is unmapped.

use vstd::prelude::*;

use crate::memory::Addressing;
use crate::memory::BuildError;
use crate::memory::MemError;
use crate::region::Region;
use crate::region::RegionKind;

verus! {

pub struct SpaceInvadersAddressing {
    pub read_only_h: Region,
    pub read_only_g: Region,
    pub read_only_f: Region,
    pub read_only_e: Region,
    pub work_ram: Region,
    pub video_ram: Region,
}

/// A zero-filled byte buffer, the power-on contents of a RAM region.
pub fn zero_vec(n: usize) -> (v: Vec<u8>)
    ensures
        v@.len() == n,
        forall|i: int| 0 <= i < n ==> v@[i] == 0,
{
    let mut v: Vec<u8> = Vec::new();
    let mut k: usize = 0;
    while k < n
        invariant
            k <= n,
            v@.len() == k,
            forall|i: int| 0 <= i < k ==> v@[i] == 0,
        decreases n - k,
    {
        v.push(0);
        k = k + 1;
    }
    v
}

impl SpaceInvadersAddressing {
    /// Builds the bus from the four ROM images, which must be exactly
    /// 2048 bytes each; the RAM regions start zero-filled.
    pub fn new(h_arr: Vec<u8>, g_arr: Vec<u8>, f_arr: Vec<u8>, e_arr: Vec<u8>) -> (r: Result<
        SpaceInvadersAddressing,
        BuildError,
    >)
        ensures
            (r is Ok) <==> (h_arr@.len() == 2048 && g_arr@.len() == 2048 && f_arr@.len() == 2048
                && e_arr@.len() == 2048),
            r matches Ok(m) ==> m.inv() && (forall|a: u16| a < 0x0800 ==> m.byte_at(a) == h_arr@[a
                as int]) && (forall|a: u16|
                0x0800 <= a < 0x1000 ==> m.byte_at(a) == g_arr@[a - 0x0800]) && (forall|a: u16|
                0x1000 <= a < 0x1800 ==> m.byte_at(a) == f_arr@[a - 0x1000]) && (forall|a: u16|
                0x1800 <= a < 0x2000 ==> m.byte_at(a) == e_arr@[a - 0x1800]) && (forall|a: u16|
                0x2000 <= a < 0x4000 ==> m.byte_at(a) == 0),
            r is Err ==> r == Err::<SpaceInvadersAddressing, BuildError>(
                BuildError::WrongBufferSize,
            ),
    {
        if h_arr.len() != 2048 || g_arr.len() != 2048 || f_arr.len() != 2048 || e_arr.len()
            != 2048 {
            return Err(BuildError::WrongBufferSize);
        }
        Ok(
            SpaceInvadersAddressing {
                read_only_h: Region::init(0x0000, RegionKind::ReadOnly, h_arr),
                read_only_g: Region::init(0x0800, RegionKind::ReadOnly, g_arr),
                read_only_f: Region::init(0x1000, RegionKind::ReadOnly, f_arr),
                read_only_e: Region::init(0x1800, RegionKind::ReadOnly, e_arr),
                work_ram: Region::init(0x2000, RegionKind::Work, zero_vec(1024)),
                video_ram: Region::init(0x2400, RegionKind::Shared, zero_vec(7168)),
            },
        )
    }

    /// The video RAM bytes, one monochrome pixel per bit, in the same
    /// linear order the bus uses; the display adapter reads these.
    pub fn video_bytes(&self) -> (v: &Vec<u8>)
        requires
            self.inv(),
        ensures
            v@.len() == 7168,
            forall|i: int| 0 <= i < 7168 ==> v@[i] == self.byte_at((0x2400 + i) as u16),
    {
        &self.video_ram.data
    }
}

impl Addressing for SpaceInvadersAddressing {
    open spec fn inv(&self) -> bool {
        &&& self.read_only_h.base == 0x0000
        &&& self.read_only_h.kind is ReadOnly
        &&& self.read_only_h.data@.len() == 2048
        &&& self.read_only_g.base == 0x0800
        &&& self.read_only_g.kind is ReadOnly
        &&& self.read_only_g.data@.len() == 2048
        &&& self.read_only_f.base == 0x1000
        &&& self.read_only_f.kind is ReadOnly
        &&& self.read_only_f.data@.len() == 2048
        &&& self.read_only_e.base == 0x1800
        &&& self.read_only_e.kind is ReadOnly
        &&& self.read_only_e.data@.len() == 2048
        &&& self.work_ram.base == 0x2000
        &&& self.work_ram.kind is Work
        &&& self.work_ram.data@.len() == 1024
        &&& self.video_ram.base == 0x2400
        &&& self.video_ram.kind is Shared
        &&& self.video_ram.data@.len() == 7168
    }

    open spec fn mapped(&self, addr: u16) -> bool {
        addr < 0x4000
    }

    open spec fn writable(&self, addr: u16) -> bool {
        0x2000 <= addr < 0x4000
    }

    open spec fn byte_at(&self, addr: u16) -> u8 {
        if addr < 0x0800 {
            self.read_only_h.byte(addr)
        } else if addr < 0x1000 {
            self.read_only_g.byte(addr)
        } else if addr < 0x1800 {
            self.read_only_f.byte(addr)
        } else if addr < 0x2000 {
            self.read_only_e.byte(addr)
        } else if addr < 0x2400 {
            self.work_ram.byte(addr)
        } else if addr < 0x4000 {
            self.video_ram.byte(addr)
        } else {
            0
        }
    }

    proof fn lemma_writable_mapped(&self, addr: u16) {
    }

    fn get_mem(&self, addr: u16) -> (r: Result<u8, MemError>) {
        if addr < 0x0800 {
            self.read_only_h.get(addr)
        } else if addr < 0x1000 {
            self.read_only_g.get(addr)
        } else if addr < 0x1800 {
            self.read_only_f.get(addr)
        } else if addr < 0x2000 {
            self.read_only_e.get(addr)
        } else if addr < 0x2400 {
            self.work_ram.get(addr)
        } else if addr < 0x4000 {
            self.video_ram.get(addr)
        } else {
            Err(MemError::Unmapped)
        }
    }

    fn set_mem(&mut self, addr: u16, val: u8) -> (r: Result<(), MemError>) {
        if addr < 0x2000 {
            Err(MemError::ReadOnlyWrite)
        } else if addr < 0x2400 {
            self.work_ram.set(addr, val)
        } else if addr < 0x4000 {
            self.video_ram.set(addr, val)
        } else {
            Err(MemError::Unmapped)
        }
    }

    fn probe_write(&self, addr: u16) -> (r: Result<(), MemError>) {
        if addr < 0x2000 {
            Err(MemError::ReadOnlyWrite)
        } else if addr < 0x4000 {
            Ok(())
        } else {
            Err(MemError::Unmapped)
        }
    }
}

} // verus!
