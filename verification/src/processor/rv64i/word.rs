//! 32-bit word operations: `ADDW`, `SUBW`, `SLLW`, `SRLW`, `SRAW`, `ADDIW`,
//! `SLLIW`, `SRLIW`, `SRAIW`. Each computes on the low 32 bits and writes
//! the 32-bit result sign-extended to 64 bits.

use vstd::prelude::*;

use crate::bits::{lo32_exec, sext32_exec, sra32_exec};
use crate::decode::{
    imm_i_exec, lemma_field_bounds, matches_addiw, matches_addw, matches_slliw, matches_sllw,
    matches_sraiw, matches_sraw, matches_srliw, matches_srlw, matches_subw, rd_exec, rs1_exec,
    rs2_exec, shamt5_exec,
};
use crate::memory::mmap::Mmap;
use crate::processor::exception::Trap;
use crate::processor::hart::Hart;
use crate::processor::instruction::InstrExec;
use crate::processor::semantics::{
    addiw_effect, addw_effect, slliw_effect, sllw_effect, sraiw_effect, sraw_effect,
    srliw_effect, srlw_effect, subw_effect, CoreView,
};

verus! {

/// `ADDW rd, rs1, rs2`: 32-bit addition, sign-extended; overflow wraps.
pub struct Addw;

impl InstrExec for Addw {
    open spec fn match_spec(&self, inst: u32) -> bool {
        matches_addw(inst)
    }

    open spec fn effect(&self, s: CoreView, inst: u32) -> Result<CoreView, Trap> {
        addw_effect(s, inst)
    }

    fn matches(&self, inst: u32) -> (r: bool) {
        inst & 0xfe00_707f == 0x0000_003b
    }

    fn call(&self, inst: u32, hart: &mut Hart, bus: &mut Mmap) -> (r: Result<(), Trap>) {
        let rd = rd_exec(inst);
        let a = lo32_exec(hart.xreg(rs1_exec(inst)));
        let b = lo32_exec(hart.xreg(rs2_exec(inst)));
        hart.set_xreg(rd, sext32_exec((a + b) % 0x1_0000_0000));
        hart.next_pc();
        Ok(())
    }
}

/// `SUBW rd, rs1, rs2`: 32-bit subtraction, sign-extended; overflow wraps.
pub struct Subw;

impl InstrExec for Subw {
    open spec fn match_spec(&self, inst: u32) -> bool {
        matches_subw(inst)
    }

    open spec fn effect(&self, s: CoreView, inst: u32) -> Result<CoreView, Trap> {
        subw_effect(s, inst)
    }

    fn matches(&self, inst: u32) -> (r: bool) {
        inst & 0xfe00_707f == 0x4000_003b
    }

    fn call(&self, inst: u32, hart: &mut Hart, bus: &mut Mmap) -> (r: Result<(), Trap>) {
        let rd = rd_exec(inst);
        let a = lo32_exec(hart.xreg(rs1_exec(inst)));
        let b = lo32_exec(hart.xreg(rs2_exec(inst)));
        hart.set_xreg(rd, sext32_exec((a + 0x1_0000_0000 - b) % 0x1_0000_0000));
        hart.next_pc();
        Ok(())
    }
}

/// `SLLW rd, rs1, rs2`: 32-bit logical left shift by the low 5 bits of
/// `rs2`, sign-extended.
pub struct Sllw;

impl InstrExec for Sllw {
    open spec fn match_spec(&self, inst: u32) -> bool {
        matches_sllw(inst)
    }

    open spec fn effect(&self, s: CoreView, inst: u32) -> Result<CoreView, Trap> {
        sllw_effect(s, inst)
    }

    fn matches(&self, inst: u32) -> (r: bool) {
        inst & 0xfe00_707f == 0x103b
    }

    fn call(&self, inst: u32, hart: &mut Hart, bus: &mut Mmap) -> (r: Result<(), Trap>) {
        proof {
            lemma_field_bounds();
        }
        let rd = rd_exec(inst);
        let a = lo32_exec(hart.xreg(rs1_exec(inst)));
        let sh = hart.xreg(rs2_exec(inst)) & 0x1f;
        hart.set_xreg(rd, sext32_exec(lo32_exec(a << sh)));
        hart.next_pc();
        Ok(())
    }
}

/// `SRLW rd, rs1, rs2`: 32-bit logical right shift by the low 5 bits of
/// `rs2`, sign-extended.
pub struct Srlw;

impl InstrExec for Srlw {
    open spec fn match_spec(&self, inst: u32) -> bool {
        matches_srlw(inst)
    }

    open spec fn effect(&self, s: CoreView, inst: u32) -> Result<CoreView, Trap> {
        srlw_effect(s, inst)
    }

    fn matches(&self, inst: u32) -> (r: bool) {
        inst & 0xfe00_707f == 0x503b
    }

    fn call(&self, inst: u32, hart: &mut Hart, bus: &mut Mmap) -> (r: Result<(), Trap>) {
        proof {
            lemma_field_bounds();
            crate::bits::lemma_shr_bounds();
        }
        let rd = rd_exec(inst);
        let a = lo32_exec(hart.xreg(rs1_exec(inst)));
        let sh = hart.xreg(rs2_exec(inst)) & 0x1f;
        hart.set_xreg(rd, sext32_exec(a >> sh));
        hart.next_pc();
        Ok(())
    }
}

/// `SRAW rd, rs1, rs2`: 32-bit arithmetic right shift by the low 5 bits of
/// `rs2`, sign-extended.
pub struct Sraw;

impl InstrExec for Sraw {
    open spec fn match_spec(&self, inst: u32) -> bool {
        matches_sraw(inst)
    }

    open spec fn effect(&self, s: CoreView, inst: u32) -> Result<CoreView, Trap> {
        sraw_effect(s, inst)
    }

    fn matches(&self, inst: u32) -> (r: bool) {
        inst & 0xfe00_707f == 0x4000_503b
    }

    fn call(&self, inst: u32, hart: &mut Hart, bus: &mut Mmap) -> (r: Result<(), Trap>) {
        proof {
            lemma_field_bounds();
        }
        let rd = rd_exec(inst);
        let a = lo32_exec(hart.xreg(rs1_exec(inst)));
        let sh = hart.xreg(rs2_exec(inst)) & 0x1f;
        hart.set_xreg(rd, sext32_exec(sra32_exec(a, sh)));
        hart.next_pc();
        Ok(())
    }
}

/// `ADDIW rd, rs1, imm`: 32-bit addition of the sign-extended immediate,
/// sign-extended to 64 bits; overflow wraps.
pub struct Addiw;

impl InstrExec for Addiw {
    open spec fn match_spec(&self, inst: u32) -> bool {
        matches_addiw(inst)
    }

    open spec fn effect(&self, s: CoreView, inst: u32) -> Result<CoreView, Trap> {
        addiw_effect(s, inst)
    }

    fn matches(&self, inst: u32) -> (r: bool) {
        inst & 0x707f == 0x1b
    }

    fn call(&self, inst: u32, hart: &mut Hart, bus: &mut Mmap) -> (r: Result<(), Trap>) {
        let rd = rd_exec(inst);
        let a = lo32_exec(hart.xreg(rs1_exec(inst)));
        let b = lo32_exec(imm_i_exec(inst));
        hart.set_xreg(rd, sext32_exec((a + b) % 0x1_0000_0000));
        hart.next_pc();
        Ok(())
    }
}

/// `SLLIW rd, rs1, shamt`: 32-bit logical left shift by a five-bit
/// immediate, sign-extended.
pub struct Slliw;

impl InstrExec for Slliw {
    open spec fn match_spec(&self, inst: u32) -> bool {
        matches_slliw(inst)
    }

    open spec fn effect(&self, s: CoreView, inst: u32) -> Result<CoreView, Trap> {
        slliw_effect(s, inst)
    }

    fn matches(&self, inst: u32) -> (r: bool) {
        inst & 0xfe00_707f == 0x101b
    }

    fn call(&self, inst: u32, hart: &mut Hart, bus: &mut Mmap) -> (r: Result<(), Trap>) {
        let rd = rd_exec(inst);
        let a = lo32_exec(hart.xreg(rs1_exec(inst)));
        let sh = shamt5_exec(inst);
        hart.set_xreg(rd, sext32_exec(lo32_exec(a << sh)));
        hart.next_pc();
        Ok(())
    }
}

/// `SRLIW rd, rs1, shamt`: 32-bit logical right shift by a five-bit
/// immediate, sign-extended.
pub struct Srliw;

impl InstrExec for Srliw {
    open spec fn match_spec(&self, inst: u32) -> bool {
        matches_srliw(inst)
    }

    open spec fn effect(&self, s: CoreView, inst: u32) -> Result<CoreView, Trap> {
        srliw_effect(s, inst)
    }

    fn matches(&self, inst: u32) -> (r: bool) {
        inst & 0xfe00_707f == 0x501b
    }

    fn call(&self, inst: u32, hart: &mut Hart, bus: &mut Mmap) -> (r: Result<(), Trap>) {
        proof {
            crate::bits::lemma_shr_bounds();
        }
        let rd = rd_exec(inst);
        let a = lo32_exec(hart.xreg(rs1_exec(inst)));
        let sh = shamt5_exec(inst);
        hart.set_xreg(rd, sext32_exec(a >> sh));
        hart.next_pc();
        Ok(())
    }
}

/// `SRAIW rd, rs1, shamt`: 32-bit arithmetic right shift by a five-bit
/// immediate, sign-extended.
pub struct Sraiw;

impl InstrExec for Sraiw {
    open spec fn match_spec(&self, inst: u32) -> bool {
        matches_sraiw(inst)
    }

    open spec fn effect(&self, s: CoreView, inst: u32) -> Result<CoreView, Trap> {
        sraiw_effect(s, inst)
    }

    fn matches(&self, inst: u32) -> (r: bool) {
        inst & 0xfe00_707f == 0x4000_501b
    }

    fn call(&self, inst: u32, hart: &mut Hart, bus: &mut Mmap) -> (r: Result<(), Trap>) {
        let rd = rd_exec(inst);
        let a = lo32_exec(hart.xreg(rs1_exec(inst)));
        let sh = shamt5_exec(inst);
        hart.set_xreg(rd, sext32_exec(sra32_exec(a, sh)));
        hart.next_pc();
        Ok(())
    }
}

} // verus!
