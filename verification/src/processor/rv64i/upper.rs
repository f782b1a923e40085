//! Upper-immediate instructions: `LUI` and `AUIPC`.

use vstd::prelude::*;

use crate::decode::{imm_u_exec, matches_auipc, matches_lui, rd_exec};
use crate::memory::mmap::Mmap;
use crate::processor::exception::Trap;
use crate::processor::hart::Hart;
use crate::processor::instruction::InstrExec;
use crate::processor::semantics::{auipc_effect, lui_effect, CoreView};

verus! {

/// `LUI rd, imm`: load the sign-extended upper immediate.
pub struct Lui;

impl InstrExec for Lui {
    open spec fn match_spec(&self, inst: u32) -> bool {
        matches_lui(inst)
    }

    open spec fn effect(&self, s: CoreView, inst: u32) -> Result<CoreView, Trap> {
        lui_effect(s, inst)
    }

    fn matches(&self, inst: u32) -> (r: bool) {
        inst & 0x7f == 0x37
    }

    fn call(&self, inst: u32, hart: &mut Hart, bus: &mut Mmap) -> (r: Result<(), Trap>) {
        let rd = rd_exec(inst);
        hart.set_xreg(rd, imm_u_exec(inst));
        hart.next_pc();
        Ok(())
    }
}

/// `AUIPC rd, imm`: add the sign-extended upper immediate to the program
/// counter.
pub struct Auipc;

impl InstrExec for Auipc {
    open spec fn match_spec(&self, inst: u32) -> bool {
        matches_auipc(inst)
    }

    open spec fn effect(&self, s: CoreView, inst: u32) -> Result<CoreView, Trap> {
        auipc_effect(s, inst)
    }

    fn matches(&self, inst: u32) -> (r: bool) {
        inst & 0x7f == 0x17
    }

    fn call(&self, inst: u32, hart: &mut Hart, bus: &mut Mmap) -> (r: Result<(), Trap>) {
        let rd = rd_exec(inst);
        let pc = hart.pc();
        hart.set_xreg(rd, pc.wrapping_add(imm_u_exec(inst)));
        hart.next_pc();
        Ok(())
    }
}

} // verus!
