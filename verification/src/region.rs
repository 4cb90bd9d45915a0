//! One memory region: a contiguous slice of the 16-bit address space backed
//! by a byte buffer, with a mutability discipline chosen at construction.

use vstd::prelude::*;
use vstd::pervasive::VecAdditionalExecFns;

use crate::memory::MemError;

verus! {

/// How a region may be accessed.  `ReadOnly` models burned-in ROM;
/// `Work` is RAM private to the emulation; `Shared` is the video RAM a
/// display adapter also reads.
#[derive(Clone, Copy, PartialEq, Eq, Structural, Debug)]
pub enum RegionKind {
    ReadOnly,
    Work,
    Shared,
}

/// A fixed-size byte buffer at a base offset.  Accesses are translated as
/// `addr - base` and must land inside the buffer.
pub struct Region {
    pub base: u16,
    pub kind: RegionKind,
    pub data: Vec<u8>,
}

impl Region {
    /// The region's slice of the address space stays within 16 bits.
    pub open spec fn inv(&self) -> bool {
        self.base as int + self.data@.len() <= 0x10000
    }

    pub open spec fn contains(&self, addr: u16) -> bool {
        self.base <= addr && (addr as int) < self.base as int + self.data@.len()
    }

    pub open spec fn is_writable(&self) -> bool {
        !(self.kind is ReadOnly)
    }

    pub open spec fn byte(&self, addr: u16) -> u8 {
        self.data@[addr - self.base]
    }

    pub fn init(base: u16, kind: RegionKind, data: Vec<u8>) -> (r: Region)
        requires
            base as int + data@.len() <= 0x10000,
        ensures
            r == (Region { base, kind, data }),
    {
        Region { base, kind, data }
    }

    /// The byte last written at `addr`, or the initial contents if never
    /// written; `Unmapped` outside the region.
    pub fn get(&self, addr: u16) -> (r: Result<u8, MemError>)
        requires
            self.inv(),
        ensures
            self.contains(addr) ==> r == Ok::<u8, MemError>(self.byte(addr)),
            !self.contains(addr) ==> r == Err::<u8, MemError>(MemError::Unmapped),
    {
        if addr >= self.base && ((addr - self.base) as usize) < self.data.len() {
            Ok(self.data[(addr - self.base) as usize])
        } else {
            Err(MemError::Unmapped)
        }
    }

    /// Writes one byte inside the region; read-only regions reject every
    /// write.  On success exactly the addressed byte changes.
    pub fn set(&mut self, addr: u16, val: u8) -> (r: Result<(), MemError>)
        requires
            old(self).inv(),
        ensures
            final(self).base == old(self).base,
            final(self).kind == old(self).kind,
            final(self).data@.len() == old(self).data@.len(),
            old(self).contains(addr) && old(self).is_writable() ==> r == Ok::<(), MemError>(())
                && final(self).data@ == old(self).data@.update(addr - old(self).base, val),
            !old(self).contains(addr) ==> r == Err::<(), MemError>(MemError::Unmapped)
                && *final(self) == *old(self),
            old(self).contains(addr) && !old(self).is_writable() ==> r == Err::<(), MemError>(
                MemError::ReadOnlyWrite,
            ) && *final(self) == *old(self),
    {
        if addr >= self.base && ((addr - self.base) as usize) < self.data.len() {
            match self.kind {
                RegionKind::ReadOnly => Err(MemError::ReadOnlyWrite),
                _ => {
                    self.data.set((addr - self.base) as usize, val);
                    Ok(())
                },
            }
        } else {
            Err(MemError::Unmapped)
        }
    }
}

} // verus!
