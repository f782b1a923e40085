//! The RAM mapping: one contiguous region of physical memory starting at a
//! configured origin, implementing the [`Bus`] access discipline.

use vstd::prelude::*;

use crate::memory::buffer::MemoryBuffer;
use crate::memory::exception::Trap;
use crate::memory::{
    bus_fetch, bus_read16, bus_read32, bus_read64, bus_read8, bus_write16, bus_write32,
    bus_write64, bus_write8, in_region, Bus,
};

verus! {

/// Maps physical addresses from `ram_start` upward onto a byte buffer.
#[derive(Debug)]
pub struct Mmap {
    ram: MemoryBuffer,
    ram_start: u64,
}

impl Mmap {
    /// A RAM region of `length` zero bytes beginning at physical address
    /// `origin`.
    pub fn new(origin: u64, length: usize) -> (r: Mmap)
        ensures
            r.origin() == origin,
            r.mem().len() == length,
            forall|i: int| 0 <= i < length ==> r.mem()[i] == 0u8,
    {
        Mmap { ram: MemoryBuffer::new(length), ram_start: origin }
    }

    /// The buffer offset of a `width`-byte access at `paddr`, or `None`
    /// when the access leaves the RAM region.
    fn region_offset(&self, paddr: u64, width: u64) -> (r: Option<usize>)
        requires
            1 <= width <= 8,
        ensures
            r is Some <==> in_region(self.origin(), self.mem(), paddr, width as int),
            r is Some ==> r->Some_0 == paddr - self.origin() && r->Some_0 + width
                <= self.mem().len(),
    {
        let len64 = self.ram.len() as u64;
        if paddr < self.ram_start {
            return None;
        }
        let off = paddr - self.ram_start;
        if len64 < width || off > len64 - width {
            return None;
        }
        Some(off as usize)
    }

    /// Copy a loadable segment into RAM: `filesz` bytes from `src` are
    /// placed at `paddr`, and the remainder of the segment's `memsz` bytes
    /// is cleared to zero.
    pub fn load_segment(&mut self, src: &[u8], paddr: u64, memsz: u64, filesz: u64)
        requires
            filesz <= memsz,
            filesz <= src@.len(),
            in_region(old(self).origin(), old(self).mem(), paddr, memsz as int),
        ensures
            final(self).origin() == old(self).origin(),
            final(self).mem().len() == old(self).mem().len(),
            forall|i: int|
                0 <= i < filesz ==> final(self).mem()[paddr - old(self).origin() + i] == src@[i],
            forall|i: int|
                paddr - old(self).origin() + filesz <= i < paddr - old(self).origin() + memsz
                    ==> final(self).mem()[i] == 0u8,
            forall|j: int|
                0 <= j < old(self).mem().len() && !(paddr - old(self).origin() <= j < paddr - old(
                    self,
                ).origin() + memsz) ==> final(self).mem()[j] == old(self).mem()[j],
    {
        let rlen = self.ram.len();
        let slen = src.len();
        let base = paddr - self.ram_start;
        let mut i: u64 = 0;
        while i < filesz
            invariant
                i <= filesz,
                filesz <= memsz,
                filesz <= slen,
                slen == src@.len(),
                rlen == old(self).mem().len(),
                base == paddr - old(self).origin(),
                base + memsz <= rlen,
                self.origin() == old(self).origin(),
                self.mem().len() == old(self).mem().len(),
                forall|k: int| 0 <= k < i ==> self.mem()[base + k] == src@[k],
                forall|j: int|
                    0 <= j < old(self).mem().len() && !(base <= j < base + memsz) ==> self.mem()[j]
                        == old(self).mem()[j],
            decreases filesz - i,
        {
            let b = *vstd::slice::slice_index_get(src, i as usize);
            self.ram.store8((base + i) as usize, b);
            i = i + 1;
        }
        let mut j: u64 = filesz;
        while j < memsz
            invariant
                filesz <= j <= memsz,
                filesz <= slen,
                slen == src@.len(),
                rlen == old(self).mem().len(),
                base == paddr - old(self).origin(),
                base + memsz <= rlen,
                self.origin() == old(self).origin(),
                self.mem().len() == old(self).mem().len(),
                forall|k: int| 0 <= k < filesz ==> self.mem()[base + k] == src@[k],
                forall|k: int| base + filesz <= k < base + j ==> self.mem()[k] == 0u8,
                forall|m: int|
                    0 <= m < old(self).mem().len() && !(base <= m < base + memsz) ==> self.mem()[m]
                        == old(self).mem()[m],
            decreases memsz - j,
        {
            self.ram.store8((base + j) as usize, 0);
            j = j + 1;
        }
    }
}

impl Bus for Mmap {
    closed spec fn origin(&self) -> u64 {
        self.ram_start
    }

    closed spec fn mem(&self) -> Seq<u8> {
        self.ram@
    }

    fn fetch(&self, paddr: u64) -> (r: Result<u32, Trap>) {
        match self.region_offset(paddr, 4) {
            Some(off) => Ok(self.ram.load32(off)),
            None => Err(Trap::FetchAccessFault { addr: paddr }),
        }
    }

    fn read8(&self, paddr: u64) -> (r: Result<u8, Trap>) {
        match self.region_offset(paddr, 1) {
            Some(off) => Ok(self.ram.load8(off)),
            None => Err(Trap::LoadAccessFault { addr: paddr }),
        }
    }

    fn read16(&self, paddr: u64) -> (r: Result<u16, Trap>) {
        if paddr % 2 != 0 {
            return Err(Trap::MisalignedLoad { addr: paddr, align: 2 });
        }
        match self.region_offset(paddr, 2) {
            Some(off) => Ok(self.ram.load16(off)),
            None => Err(Trap::LoadAccessFault { addr: paddr }),
        }
    }

    fn read32(&self, paddr: u64) -> (r: Result<u32, Trap>) {
        if paddr % 4 != 0 {
            return Err(Trap::MisalignedLoad { addr: paddr, align: 4 });
        }
        match self.region_offset(paddr, 4) {
            Some(off) => Ok(self.ram.load32(off)),
            None => Err(Trap::LoadAccessFault { addr: paddr }),
        }
    }

    fn read64(&self, paddr: u64) -> (r: Result<u64, Trap>) {
        if paddr % 8 != 0 {
            return Err(Trap::MisalignedLoad { addr: paddr, align: 8 });
        }
        match self.region_offset(paddr, 8) {
            Some(off) => Ok(self.ram.load64(off)),
            None => Err(Trap::LoadAccessFault { addr: paddr }),
        }
    }

    fn write8(&mut self, paddr: u64, val: u8) -> (r: Result<(), Trap>) {
        match self.region_offset(paddr, 1) {
            Some(off) => {
                self.ram.store8(off, val);
                Ok(())
            },
            None => Err(Trap::StoreAccessFault { addr: paddr }),
        }
    }

    fn write16(&mut self, paddr: u64, val: u16) -> (r: Result<(), Trap>) {
        if paddr % 2 != 0 {
            return Err(Trap::MisalignedStore { addr: paddr, align: 2 });
        }
        match self.region_offset(paddr, 2) {
            Some(off) => {
                self.ram.store16(off, val);
                Ok(())
            },
            None => Err(Trap::StoreAccessFault { addr: paddr }),
        }
    }

    fn write32(&mut self, paddr: u64, val: u32) -> (r: Result<(), Trap>) {
        if paddr % 4 != 0 {
            return Err(Trap::MisalignedStore { addr: paddr, align: 4 });
        }
        match self.region_offset(paddr, 4) {
            Some(off) => {
                self.ram.store32(off, val);
                Ok(())
            },
            None => Err(Trap::StoreAccessFault { addr: paddr }),
        }
    }

    fn write64(&mut self, paddr: u64, val: u64) -> (r: Result<(), Trap>) {
        if paddr % 8 != 0 {
            return Err(Trap::MisalignedStore { addr: paddr, align: 8 });
        }
        match self.region_offset(paddr, 8) {
            Some(off) => {
                self.ram.store64(off, val);
                Ok(())
            },
            None => Err(Trap::StoreAccessFault { addr: paddr }),
        }
    }
}

} // verus!
