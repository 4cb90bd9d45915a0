//! The memory interface: the byte-addressable bus contract that the
//! execution engine runs against, and the error taxonomy for bus faults.

use vstd::prelude::*;

verus! {

/// A bus fault.  `Unmapped` is an access outside every configured region;
/// `ReadOnlyWrite` is a write into a region that models burned-in ROM.
/// Both are fatal to the current instruction.
#[derive(Clone, Copy, PartialEq, Eq, Structural, Debug)]
pub enum MemError {
    Unmapped,
    ReadOnlyWrite,
}

/// A machine-construction failure: a supplied ROM or RAM buffer does not
/// have the size its address range demands.
#[derive(Clone, Copy, PartialEq, Eq, Structural, Debug)]
pub enum BuildError {
    WrongBufferSize,
}

/// An address bus: a static partition of the 16-bit address space into
/// regions.  `mapped` says which addresses some region claims, `writable`
/// which of those accept writes, and `byte_at` gives the current contents.
/// Writes change exactly the addressed byte and never the partition.
pub trait Addressing: Sized {
    spec fn inv(&self) -> bool;

    spec fn mapped(&self, addr: u16) -> bool;

    spec fn writable(&self, addr: u16) -> bool;

    spec fn byte_at(&self, addr: u16) -> u8;

    /// Every writable address is claimed by some region.
    proof fn lemma_writable_mapped(&self, addr: u16)
        ensures
            self.writable(addr) ==> self.mapped(addr),
    ;

    /// Reads the byte a region holds for `addr`; `Unmapped` outside every
    /// region.  Reading never changes anything.
    fn get_mem(&self, addr: u16) -> (r: Result<u8, MemError>)
        requires
            self.inv(),
        ensures
            self.mapped(addr) ==> r == Ok::<u8, MemError>(self.byte_at(addr)),
            !self.mapped(addr) ==> r == Err::<u8, MemError>(MemError::Unmapped),
    ;

    /// Writes one byte.  On success exactly the addressed byte changes; a
    /// rejected write changes nothing and reports why it was rejected.
    fn set_mem(&mut self, addr: u16, val: u8) -> (r: Result<(), MemError>)
        requires
            old(self).inv(),
        ensures
            final(self).inv(),
            old(self).writable(addr) ==> r == Ok::<(), MemError>(()) && final(self).byte_at(addr)
                == val && (forall|x: u16|
                x != addr ==> final(self).byte_at(x) == old(self).byte_at(x)),
            !old(self).writable(addr) ==> r == Err::<(), MemError>(
                if !old(self).mapped(addr) {
                    MemError::Unmapped
                } else {
                    MemError::ReadOnlyWrite
                },
            ) && *final(self) == *old(self),
            forall|x: u16| final(self).mapped(x) == old(self).mapped(x),
            forall|x: u16| final(self).writable(x) == old(self).writable(x),
    ;

    /// Asks whether a write to `addr` would succeed, without performing it,
    /// reporting the same error the write would.
    fn probe_write(&self, addr: u16) -> (r: Result<(), MemError>)
        requires
            self.inv(),
        ensures
            self.writable(addr) ==> r == Ok::<(), MemError>(()),
            !self.writable(addr) ==> r == Err::<(), MemError>(
                if !self.mapped(addr) {
                    MemError::Unmapped
                } else {
                    MemError::ReadOnlyWrite
                },
            ),
    ;
}

} // verus!
