//! The physical-memory bus: a byte-addressable, little-endian RAM region
//! beginning at a configured origin address.
//!
//! The specification functions here say exactly what each sized access
//! returns or stores: alignment is checked first, then region membership,
//! and a successful access touches exactly `width` bytes.

pub mod buffer;
pub mod exception;
pub mod mmap;

use vstd::bytes::{
    spec_u16_from_le_bytes, spec_u16_to_le_bytes, spec_u32_from_le_bytes, spec_u32_to_le_bytes,
    spec_u64_from_le_bytes, spec_u64_to_le_bytes,
};
use vstd::prelude::*;

use crate::memory::exception::Trap;

verus! {

/// A physical address `paddr` may be accessed with `width` bytes when the
/// whole access lies inside the RAM region.
pub open spec fn in_region(origin: u64, mem: Seq<u8>, paddr: u64, width: int) -> bool {
    origin <= paddr && paddr - origin + width <= mem.len()
}

/// `mem` with `bytes` written at offset `at`, all other bytes unchanged.
pub open spec fn splice_bytes(mem: Seq<u8>, at: int, bytes: Seq<u8>) -> Seq<u8>
    recommends
        0 <= at,
        at + bytes.len() <= mem.len(),
{
    mem.take(at) + bytes + mem.skip(at + bytes.len())
}

/// What an instruction fetch returns: the little-endian 32-bit word at
/// `paddr`, or a fetch access fault when the word is not wholly inside the
/// region. Fetches do not check alignment; a misaligned program counter is
/// reported by the control-transfer instruction that produced it.
pub open spec fn bus_fetch(origin: u64, mem: Seq<u8>, paddr: u64) -> Result<u32, Trap> {
    if in_region(origin, mem, paddr, 4) {
        Ok(spec_u32_from_le_bytes(mem.subrange(paddr - origin, paddr - origin + 4)))
    } else {
        Err(Trap::FetchAccessFault { addr: paddr })
    }
}

/// What a byte load returns. Single bytes need no alignment.
pub open spec fn bus_read8(origin: u64, mem: Seq<u8>, paddr: u64) -> Result<u8, Trap> {
    if in_region(origin, mem, paddr, 1) {
        Ok(mem[paddr - origin])
    } else {
        Err(Trap::LoadAccessFault { addr: paddr })
    }
}

/// What a halfword load returns: alignment is checked before the region.
pub open spec fn bus_read16(origin: u64, mem: Seq<u8>, paddr: u64) -> Result<u16, Trap> {
    if paddr % 2 != 0 {
        Err(Trap::MisalignedLoad { addr: paddr, align: 2 })
    } else if in_region(origin, mem, paddr, 2) {
        Ok(spec_u16_from_le_bytes(mem.subrange(paddr - origin, paddr - origin + 2)))
    } else {
        Err(Trap::LoadAccessFault { addr: paddr })
    }
}

/// What a word load returns: alignment is checked before the region.
pub open spec fn bus_read32(origin: u64, mem: Seq<u8>, paddr: u64) -> Result<u32, Trap> {
    if paddr % 4 != 0 {
        Err(Trap::MisalignedLoad { addr: paddr, align: 4 })
    } else if in_region(origin, mem, paddr, 4) {
        Ok(spec_u32_from_le_bytes(mem.subrange(paddr - origin, paddr - origin + 4)))
    } else {
        Err(Trap::LoadAccessFault { addr: paddr })
    }
}

/// What a doubleword load returns: alignment is checked before the region.
pub open spec fn bus_read64(origin: u64, mem: Seq<u8>, paddr: u64) -> Result<u64, Trap> {
    if paddr % 8 != 0 {
        Err(Trap::MisalignedLoad { addr: paddr, align: 8 })
    } else if in_region(origin, mem, paddr, 8) {
        Ok(spec_u64_from_le_bytes(mem.subrange(paddr - origin, paddr - origin + 8)))
    } else {
        Err(Trap::LoadAccessFault { addr: paddr })
    }
}

/// The memory left by a byte store, or the trap that refuses it.
pub open spec fn bus_write8(origin: u64, mem: Seq<u8>, paddr: u64, val: u8) -> Result<
    Seq<u8>,
    Trap,
> {
    if in_region(origin, mem, paddr, 1) {
        Ok(mem.update(paddr - origin, val))
    } else {
        Err(Trap::StoreAccessFault { addr: paddr })
    }
}

/// The memory left by a halfword store: alignment is checked before the
/// region, and only the two addressed bytes change.
pub open spec fn bus_write16(origin: u64, mem: Seq<u8>, paddr: u64, val: u16) -> Result<
    Seq<u8>,
    Trap,
> {
    if paddr % 2 != 0 {
        Err(Trap::MisalignedStore { addr: paddr, align: 2 })
    } else if in_region(origin, mem, paddr, 2) {
        Ok(splice_bytes(mem, paddr - origin, spec_u16_to_le_bytes(val)))
    } else {
        Err(Trap::StoreAccessFault { addr: paddr })
    }
}

/// The memory left by a word store.
pub open spec fn bus_write32(origin: u64, mem: Seq<u8>, paddr: u64, val: u32) -> Result<
    Seq<u8>,
    Trap,
> {
    if paddr % 4 != 0 {
        Err(Trap::MisalignedStore { addr: paddr, align: 4 })
    } else if in_region(origin, mem, paddr, 4) {
        Ok(splice_bytes(mem, paddr - origin, spec_u32_to_le_bytes(val)))
    } else {
        Err(Trap::StoreAccessFault { addr: paddr })
    }
}

/// The memory left by a doubleword store.
pub open spec fn bus_write64(origin: u64, mem: Seq<u8>, paddr: u64, val: u64) -> Result<
    Seq<u8>,
    Trap,
> {
    if paddr % 8 != 0 {
        Err(Trap::MisalignedStore { addr: paddr, align: 8 })
    } else if in_region(origin, mem, paddr, 8) {
        Ok(splice_bytes(mem, paddr - origin, spec_u64_to_le_bytes(val)))
    } else {
        Err(Trap::StoreAccessFault { addr: paddr })
    }
}

/// The bus as the instruction executors see it: sized little-endian reads
/// and writes over one RAM region, plus the raw instruction fetch.
///
/// The spec methods `origin` and `mem` are the abstract state every
/// contract is stated over.
pub trait Bus: Sized {
    /// The physical address where RAM begins.
    spec fn origin(&self) -> u64;

    /// The bytes of RAM.
    spec fn mem(&self) -> Seq<u8>;

    /// The raw 32-bit instruction fetch of the hot path.
    fn fetch(&self, paddr: u64) -> (r: Result<u32, Trap>)
        ensures
            r == bus_fetch(self.origin(), self.mem(), paddr),
    ;

    fn read8(&self, paddr: u64) -> (r: Result<u8, Trap>)
        ensures
            r == bus_read8(self.origin(), self.mem(), paddr),
    ;

    fn read16(&self, paddr: u64) -> (r: Result<u16, Trap>)
        ensures
            r == bus_read16(self.origin(), self.mem(), paddr),
    ;

    fn read32(&self, paddr: u64) -> (r: Result<u32, Trap>)
        ensures
            r == bus_read32(self.origin(), self.mem(), paddr),
    ;

    fn read64(&self, paddr: u64) -> (r: Result<u64, Trap>)
        ensures
            r == bus_read64(self.origin(), self.mem(), paddr),
    ;

    fn write8(&mut self, paddr: u64, val: u8) -> (r: Result<(), Trap>)
        ensures
            final(self).origin() == old(self).origin(),
            match bus_write8(old(self).origin(), old(self).mem(), paddr, val) {
                Ok(m) => r is Ok && final(self).mem() == m,
                Err(t) => r == Err::<(), Trap>(t) && final(self).mem() == old(self).mem(),
            },
    ;

    fn write16(&mut self, paddr: u64, val: u16) -> (r: Result<(), Trap>)
        ensures
            final(self).origin() == old(self).origin(),
            match bus_write16(old(self).origin(), old(self).mem(), paddr, val) {
                Ok(m) => r is Ok && final(self).mem() == m,
                Err(t) => r == Err::<(), Trap>(t) && final(self).mem() == old(self).mem(),
            },
    ;

    fn write32(&mut self, paddr: u64, val: u32) -> (r: Result<(), Trap>)
        ensures
            final(self).origin() == old(self).origin(),
            match bus_write32(old(self).origin(), old(self).mem(), paddr, val) {
                Ok(m) => r is Ok && final(self).mem() == m,
                Err(t) => r == Err::<(), Trap>(t) && final(self).mem() == old(self).mem(),
            },
    ;

    fn write64(&mut self, paddr: u64, val: u64) -> (r: Result<(), Trap>)
        ensures
            final(self).origin() == old(self).origin(),
            match bus_write64(old(self).origin(), old(self).mem(), paddr, val) {
                Ok(m) => r is Ok && final(self).mem() == m,
                Err(t) => r == Err::<(), Trap>(t) && final(self).mem() == old(self).mem(),
            },
    ;
}

} // verus!
