//! Conditional branches: `BEQ`, `BNE`, `BLT`, `BGE`, `BLTU`, `BGEU`. A taken
//! branch whose target is not 4-byte aligned traps before the program
//! counter moves.

use vstd::prelude::*;

use crate::bits::signed_lt_exec;
use crate::decode::{
    imm_b_exec, matches_beq, matches_bge, matches_bgeu, matches_blt, matches_bltu, matches_bne,
    rs1_exec, rs2_exec,
};
use crate::memory::exception::Trap as MemTrap;
use crate::memory::mmap::Mmap;
use crate::processor::exception::Trap;
use crate::processor::hart::Hart;
use crate::processor::instruction::InstrExec;
use crate::processor::semantics::{
    beq_effect, bge_effect, bgeu_effect, blt_effect, bltu_effect, bne_effect, CoreView,
};

verus! {

/// `BEQ rs1, rs2, imm`: branch when equal.
pub struct Beq;

impl InstrExec for Beq {
    open spec fn match_spec(&self, inst: u32) -> bool {
        matches_beq(inst)
    }

    open spec fn effect(&self, s: CoreView, inst: u32) -> Result<CoreView, Trap> {
        beq_effect(s, inst)
    }

    fn matches(&self, inst: u32) -> (r: bool) {
        inst & 0x707f == 0x63
    }

    fn call(&self, inst: u32, hart: &mut Hart, bus: &mut Mmap) -> (r: Result<(), Trap>) {
        let a = hart.xreg(rs1_exec(inst));
        let b = hart.xreg(rs2_exec(inst));
        if a == b {
            let target = hart.pc().wrapping_add(imm_b_exec(inst));
            if target % 4 != 0 {
                return Err(Trap::Memory(MemTrap::MisalignedFetch { addr: target }));
            }
            hart.set_pc(target);
        } else {
            hart.next_pc();
        }
        Ok(())
    }
}

/// `BNE rs1, rs2, imm`: branch when not equal.
pub struct Bne;

impl InstrExec for Bne {
    open spec fn match_spec(&self, inst: u32) -> bool {
        matches_bne(inst)
    }

    open spec fn effect(&self, s: CoreView, inst: u32) -> Result<CoreView, Trap> {
        bne_effect(s, inst)
    }

    fn matches(&self, inst: u32) -> (r: bool) {
        inst & 0x707f == 0x1063
    }

    fn call(&self, inst: u32, hart: &mut Hart, bus: &mut Mmap) -> (r: Result<(), Trap>) {
        let a = hart.xreg(rs1_exec(inst));
        let b = hart.xreg(rs2_exec(inst));
        if a != b {
            let target = hart.pc().wrapping_add(imm_b_exec(inst));
            if target % 4 != 0 {
                return Err(Trap::Memory(MemTrap::MisalignedFetch { addr: target }));
            }
            hart.set_pc(target);
        } else {
            hart.next_pc();
        }
        Ok(())
    }
}

/// `BLT rs1, rs2, imm`: branch when less than, signed.
pub struct Blt;

impl InstrExec for Blt {
    open spec fn match_spec(&self, inst: u32) -> bool {
        matches_blt(inst)
    }

    open spec fn effect(&self, s: CoreView, inst: u32) -> Result<CoreView, Trap> {
        blt_effect(s, inst)
    }

    fn matches(&self, inst: u32) -> (r: bool) {
        inst & 0x707f == 0x4063
    }

    fn call(&self, inst: u32, hart: &mut Hart, bus: &mut Mmap) -> (r: Result<(), Trap>) {
        let a = hart.xreg(rs1_exec(inst));
        let b = hart.xreg(rs2_exec(inst));
        if signed_lt_exec(a, b) {
            let target = hart.pc().wrapping_add(imm_b_exec(inst));
            if target % 4 != 0 {
                return Err(Trap::Memory(MemTrap::MisalignedFetch { addr: target }));
            }
            hart.set_pc(target);
        } else {
            hart.next_pc();
        }
        Ok(())
    }
}

/// `BGE rs1, rs2, imm`: branch when greater or equal, signed.
pub struct Bge;

impl InstrExec for Bge {
    open spec fn match_spec(&self, inst: u32) -> bool {
        matches_bge(inst)
    }

    open spec fn effect(&self, s: CoreView, inst: u32) -> Result<CoreView, Trap> {
        bge_effect(s, inst)
    }

    fn matches(&self, inst: u32) -> (r: bool) {
        inst & 0x707f == 0x5063
    }

    fn call(&self, inst: u32, hart: &mut Hart, bus: &mut Mmap) -> (r: Result<(), Trap>) {
        let a = hart.xreg(rs1_exec(inst));
        let b = hart.xreg(rs2_exec(inst));
        if !signed_lt_exec(a, b) {
            let target = hart.pc().wrapping_add(imm_b_exec(inst));
            if target % 4 != 0 {
                return Err(Trap::Memory(MemTrap::MisalignedFetch { addr: target }));
            }
            hart.set_pc(target);
        } else {
            hart.next_pc();
        }
        Ok(())
    }
}

/// `BLTU rs1, rs2, imm`: branch when less than, unsigned.
pub struct Bltu;

impl InstrExec for Bltu {
    open spec fn match_spec(&self, inst: u32) -> bool {
        matches_bltu(inst)
    }

    open spec fn effect(&self, s: CoreView, inst: u32) -> Result<CoreView, Trap> {
        bltu_effect(s, inst)
    }

    fn matches(&self, inst: u32) -> (r: bool) {
        inst & 0x707f == 0x6063
    }

    fn call(&self, inst: u32, hart: &mut Hart, bus: &mut Mmap) -> (r: Result<(), Trap>) {
        let a = hart.xreg(rs1_exec(inst));
        let b = hart.xreg(rs2_exec(inst));
        if a < b {
            let target = hart.pc().wrapping_add(imm_b_exec(inst));
            if target % 4 != 0 {
                return Err(Trap::Memory(MemTrap::MisalignedFetch { addr: target }));
            }
            hart.set_pc(target);
        } else {
            hart.next_pc();
        }
        Ok(())
    }
}

/// `BGEU rs1, rs2, imm`: branch when greater or equal, unsigned.
pub struct Bgeu;

impl InstrExec for Bgeu {
    open spec fn match_spec(&self, inst: u32) -> bool {
        matches_bgeu(inst)
    }

    open spec fn effect(&self, s: CoreView, inst: u32) -> Result<CoreView, Trap> {
        bgeu_effect(s, inst)
    }

    fn matches(&self, inst: u32) -> (r: bool) {
        inst & 0x707f == 0x7063
    }

    fn call(&self, inst: u32, hart: &mut Hart, bus: &mut Mmap) -> (r: Result<(), Trap>) {
        let a = hart.xreg(rs1_exec(inst));
        let b = hart.xreg(rs2_exec(inst));
        if a >= b {
            let target = hart.pc().wrapping_add(imm_b_exec(inst));
            if target % 4 != 0 {
                return Err(Trap::Memory(MemTrap::MisalignedFetch { addr: target }));
            }
            hart.set_pc(target);
        } else {
            hart.next_pc();
        }
        Ok(())
    }
}

} // verus!
