//! The architectural state of one hardware thread: the program counter and
//! 32 general-purpose 64-bit registers with the wired-zero register.

use vstd::prelude::*;

use crate::bits::wadd;
use crate::memory::mmap::Mmap;
use crate::memory::Bus;
use crate::processor::exception::Trap;
use crate::processor::instruction::InstrTable;
use crate::processor::Cpu;
use crate::ILEN;

verus! {

/// The register file after writing `val` to register `i`: register zero is
/// wired to zero, so a write to it changes nothing.
pub open spec fn xwrite(regs: Seq<u64>, i: int, val: u64) -> Seq<u64>
    recommends
        regs.len() == 32,
        0 <= i < 32,
{
    if i == 0 {
        regs
    } else {
        regs.update(i, val)
    }
}

/// One hardware thread.
#[derive(Debug)]
pub struct Hart {
    pc: u64,
    xregs: Vec<u64>,
}

impl Hart {
    /// The current program counter.
    pub closed spec fn pc_spec(&self) -> u64 {
        self.pc
    }

    /// The register file as a sequence of 32 values.
    pub closed spec fn regs(&self) -> Seq<u64> {
        self.xregs@
    }

    /// Well-formedness: 32 registers, with register zero holding zero.
    pub open spec fn wf(&self) -> bool {
        self.regs().len() == 32 && self.regs()[0] == 0u64
    }

    /// A hart about to execute its first instruction at `entry`, with every
    /// register zero.
    pub fn new(entry: u64) -> (r: Hart)
        ensures
            r.wf(),
            r.pc_spec() == entry,
            forall|i: int| 0 <= i < 32 ==> r.regs()[i] == 0u64,
    {
        let mut xregs: Vec<u64> = Vec::new();
        while xregs.len() < 32
            invariant
                xregs@.len() <= 32,
                forall|i: int| 0 <= i < xregs@.len() ==> xregs@[i] == 0u64,
            decreases 32 - xregs@.len(),
        {
            xregs.push(0);
        }
        Hart { pc: entry, xregs }
    }

    /// The program counter.
    pub fn pc(&self) -> (r: u64)
        ensures
            r == self.pc_spec(),
    {
        self.pc
    }

    /// Set the program counter to `paddr`.
    pub fn set_pc(&mut self, paddr: u64)
        ensures
            final(self).pc_spec() == paddr,
            final(self).regs() == old(self).regs(),
    {
        self.pc = paddr;
    }

    /// Advance the program counter past the current instruction.
    pub fn next_pc(&mut self)
        ensures
            final(self).pc_spec() == wadd(old(self).pc_spec(), ILEN),
            final(self).regs() == old(self).regs(),
    {
        self.pc = self.pc.wrapping_add(ILEN);
    }

    /// Read register `i`; register zero always reads zero.
    pub fn xreg(&self, i: usize) -> (r: u64)
        requires
            self.wf(),
            i < 32,
        ensures
            r == self.regs()[i as int],
    {
        self.xregs[i]
    }

    /// Write register `i`; a write to register zero is discarded.
    pub fn set_xreg(&mut self, i: usize, val: u64)
        requires
            old(self).wf(),
            i < 32,
        ensures
            final(self).wf(),
            final(self).pc_spec() == old(self).pc_spec(),
            final(self).regs() == xwrite(old(self).regs(), i as int, val),
    {
        if i != 0 {
            self.xregs[i] = val;
        }
    }
}

impl Cpu for Hart {
    open spec fn state_wf(&self) -> bool {
        self.wf()
    }

    open spec fn state_pc(&self) -> u64 {
        self.pc_spec()
    }

    open spec fn state_regs(&self) -> Seq<u64> {
        self.regs()
    }

    fn step(&mut self, bus: &mut Mmap) -> (r: Result<(), Trap>) {
        let pc = self.pc();
        match bus.fetch(pc) {
            Ok(inst) => {
                let table = InstrTable::new();
                table.dispatch(inst, self, bus)
            },
            Err(t) => Err(Trap::Memory(t)),
        }
    }
}

} // verus!
