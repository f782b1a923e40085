//! Unconditional jumps: `JAL` and `JALR`. The target is validated for
//! 4-byte alignment before the link register or the program counter is
//! written; on a trap the hart keeps the program counter of the jumping
//! instruction.

use vstd::prelude::*;

use crate::decode::{imm_i_exec, imm_j_exec, matches_jal, matches_jalr, rd_exec, rs1_exec};
use crate::memory::exception::Trap as MemTrap;
use crate::memory::mmap::Mmap;
use crate::processor::exception::Trap;
use crate::processor::hart::Hart;
use crate::processor::instruction::InstrExec;
use crate::processor::semantics::{jal_effect, jalr_effect, CoreView};

verus! {

/// `JAL rd, imm`: link `pc + 4` into `rd`, jump to `pc + imm`.
pub struct Jal;

impl InstrExec for Jal {
    open spec fn match_spec(&self, inst: u32) -> bool {
        matches_jal(inst)
    }

    open spec fn effect(&self, s: CoreView, inst: u32) -> Result<CoreView, Trap> {
        jal_effect(s, inst)
    }

    fn matches(&self, inst: u32) -> (r: bool) {
        inst & 0x7f == 0x6f
    }

    fn call(&self, inst: u32, hart: &mut Hart, bus: &mut Mmap) -> (r: Result<(), Trap>) {
        let rd = rd_exec(inst);
        let pc = hart.pc();
        let target = pc.wrapping_add(imm_j_exec(inst));
        if target % 4 != 0 {
            return Err(Trap::Memory(MemTrap::MisalignedFetch { addr: target }));
        }
        hart.set_xreg(rd, pc.wrapping_add(4));
        hart.set_pc(target);
        Ok(())
    }
}

/// `JALR rd, rs1, imm`: link `pc + 4` into `rd`, jump to `(rs1 + imm)` with
/// bit zero cleared; the alignment check applies to the masked target.
pub struct Jalr;

impl InstrExec for Jalr {
    open spec fn match_spec(&self, inst: u32) -> bool {
        matches_jalr(inst)
    }

    open spec fn effect(&self, s: CoreView, inst: u32) -> Result<CoreView, Trap> {
        jalr_effect(s, inst)
    }

    fn matches(&self, inst: u32) -> (r: bool) {
        inst & 0x707f == 0x67
    }

    fn call(&self, inst: u32, hart: &mut Hart, bus: &mut Mmap) -> (r: Result<(), Trap>) {
        let rd = rd_exec(inst);
        let a = hart.xreg(rs1_exec(inst));
        let target = a.wrapping_add(imm_i_exec(inst)) & 0xffff_ffff_ffff_fffe;
        if target % 4 != 0 {
            return Err(Trap::Memory(MemTrap::MisalignedFetch { addr: target }));
        }
        let pc = hart.pc();
        hart.set_xreg(rd, pc.wrapping_add(4));
        hart.set_pc(target);
        Ok(())
    }
}

} // verus!
