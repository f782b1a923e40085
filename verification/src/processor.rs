//! The processor: hart state, the RV64I decoder-executors, their
//! specification, and the dispatch table.

pub mod exception;
pub mod hart;
pub mod instruction;
pub mod rv64i;
pub mod semantics;

use vstd::prelude::*;

use crate::memory::mmap::Mmap;
use crate::memory::Bus;
use crate::processor::exception::Trap;
use crate::processor::hart::Hart;
use crate::processor::semantics::{machine_step, step_post, CoreView};

verus! {

/// The architectural state a hart and a bus denote together.
pub open spec fn core_view(h: Hart, b: Mmap) -> CoreView {
    CoreView { pc: h.pc_spec(), regs: h.regs(), origin: b.origin(), mem: b.mem() }
}

/// A processor that can execute one instruction against a bus.
pub trait Cpu: Sized {
    /// Well-formedness of the processor's architectural state.
    spec fn state_wf(&self) -> bool;

    /// The program counter.
    spec fn state_pc(&self) -> u64;

    /// The register file.
    spec fn state_regs(&self) -> Seq<u64>;

    /// Fetch, decode and execute the instruction at the program counter.
    fn step(&mut self, bus: &mut Mmap) -> (r: Result<(), Trap>)
        requires
            old(self).state_wf(),
        ensures
            final(self).state_wf(),
            step_post(
                (CoreView {
                    pc: old(self).state_pc(),
                    regs: old(self).state_regs(),
                    origin: old(bus).origin(),
                    mem: old(bus).mem(),
                }),
                (CoreView {
                    pc: final(self).state_pc(),
                    regs: final(self).state_regs(),
                    origin: final(bus).origin(),
                    mem: final(bus).mem(),
                }),
                r,
                machine_step(
                    (CoreView {
                        pc: old(self).state_pc(),
                        regs: old(self).state_regs(),
                        origin: old(bus).origin(),
                        mem: old(bus).mem(),
                    }),
                ),
            ),
    ;
}

} // verus!
