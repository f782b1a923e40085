//! Register-immediate arithmetic and logic: `ADDI`, `SLTI`, `SLTIU`,
//! `XORI`, `ORI`, `ANDI`, `SLLI`, `SRLI`, `SRAI`.

use vstd::prelude::*;

use crate::bits::{signed_lt_exec, sra64_exec};
use crate::decode::{
    imm_i_exec, matches_addi, matches_andi, matches_ori, matches_slli, matches_slti,
    matches_sltiu, matches_srai, matches_srli, matches_xori, rd_exec, rs1_exec, shamt6_exec,
};
use crate::memory::mmap::Mmap;
use crate::processor::exception::Trap;
use crate::processor::hart::Hart;
use crate::processor::instruction::InstrExec;
use crate::processor::semantics::{
    addi_effect, andi_effect, ori_effect, slli_effect, slti_effect, sltiu_effect, srai_effect,
    srli_effect, xori_effect, CoreView,
};

verus! {

/// `ADDI rd, rs1, imm`: add the sign-extended immediate; overflow wraps.
pub struct Addi;

impl InstrExec for Addi {
    open spec fn match_spec(&self, inst: u32) -> bool {
        matches_addi(inst)
    }

    open spec fn effect(&self, s: CoreView, inst: u32) -> Result<CoreView, Trap> {
        addi_effect(s, inst)
    }

    fn matches(&self, inst: u32) -> (r: bool) {
        inst & 0x707f == 0x13
    }

    fn call(&self, inst: u32, hart: &mut Hart, bus: &mut Mmap) -> (r: Result<(), Trap>) {
        let rd = rd_exec(inst);
        let a = hart.xreg(rs1_exec(inst));
        hart.set_xreg(rd, a.wrapping_add(imm_i_exec(inst)));
        hart.next_pc();
        Ok(())
    }
}

/// `SLTI rd, rs1, imm`: one when `rs1` is less than the sign-extended
/// immediate as signed values, else zero.
pub struct Slti;

impl InstrExec for Slti {
    open spec fn match_spec(&self, inst: u32) -> bool {
        matches_slti(inst)
    }

    open spec fn effect(&self, s: CoreView, inst: u32) -> Result<CoreView, Trap> {
        slti_effect(s, inst)
    }

    fn matches(&self, inst: u32) -> (r: bool) {
        inst & 0x707f == 0x2013
    }

    fn call(&self, inst: u32, hart: &mut Hart, bus: &mut Mmap) -> (r: Result<(), Trap>) {
        let rd = rd_exec(inst);
        let a = hart.xreg(rs1_exec(inst));
        let val: u64 = if signed_lt_exec(a, imm_i_exec(inst)) {
            1
        } else {
            0
        };
        hart.set_xreg(rd, val);
        hart.next_pc();
        Ok(())
    }
}

/// `SLTIU rd, rs1, imm`: one when `rs1` is less than the sign-extended
/// immediate as unsigned values, else zero.
pub struct Sltiu;

impl InstrExec for Sltiu {
    open spec fn match_spec(&self, inst: u32) -> bool {
        matches_sltiu(inst)
    }

    open spec fn effect(&self, s: CoreView, inst: u32) -> Result<CoreView, Trap> {
        sltiu_effect(s, inst)
    }

    fn matches(&self, inst: u32) -> (r: bool) {
        inst & 0x707f == 0x3013
    }

    fn call(&self, inst: u32, hart: &mut Hart, bus: &mut Mmap) -> (r: Result<(), Trap>) {
        let rd = rd_exec(inst);
        let a = hart.xreg(rs1_exec(inst));
        let val: u64 = if a < imm_i_exec(inst) {
            1
        } else {
            0
        };
        hart.set_xreg(rd, val);
        hart.next_pc();
        Ok(())
    }
}

/// `XORI rd, rs1, imm`: exclusive or with the sign-extended immediate.
pub struct Xori;

impl InstrExec for Xori {
    open spec fn match_spec(&self, inst: u32) -> bool {
        matches_xori(inst)
    }

    open spec fn effect(&self, s: CoreView, inst: u32) -> Result<CoreView, Trap> {
        xori_effect(s, inst)
    }

    fn matches(&self, inst: u32) -> (r: bool) {
        inst & 0x707f == 0x4013
    }

    fn call(&self, inst: u32, hart: &mut Hart, bus: &mut Mmap) -> (r: Result<(), Trap>) {
        let rd = rd_exec(inst);
        let a = hart.xreg(rs1_exec(inst));
        hart.set_xreg(rd, a ^ imm_i_exec(inst));
        hart.next_pc();
        Ok(())
    }
}

/// `ORI rd, rs1, imm`: or with the sign-extended immediate.
pub struct Ori;

impl InstrExec for Ori {
    open spec fn match_spec(&self, inst: u32) -> bool {
        matches_ori(inst)
    }

    open spec fn effect(&self, s: CoreView, inst: u32) -> Result<CoreView, Trap> {
        ori_effect(s, inst)
    }

    fn matches(&self, inst: u32) -> (r: bool) {
        inst & 0x707f == 0x6013
    }

    fn call(&self, inst: u32, hart: &mut Hart, bus: &mut Mmap) -> (r: Result<(), Trap>) {
        let rd = rd_exec(inst);
        let a = hart.xreg(rs1_exec(inst));
        hart.set_xreg(rd, a | imm_i_exec(inst));
        hart.next_pc();
        Ok(())
    }
}

/// `ANDI rd, rs1, imm`: and with the sign-extended immediate.
pub struct Andi;

impl InstrExec for Andi {
    open spec fn match_spec(&self, inst: u32) -> bool {
        matches_andi(inst)
    }

    open spec fn effect(&self, s: CoreView, inst: u32) -> Result<CoreView, Trap> {
        andi_effect(s, inst)
    }

    fn matches(&self, inst: u32) -> (r: bool) {
        inst & 0x707f == 0x7013
    }

    fn call(&self, inst: u32, hart: &mut Hart, bus: &mut Mmap) -> (r: Result<(), Trap>) {
        let rd = rd_exec(inst);
        let a = hart.xreg(rs1_exec(inst));
        hart.set_xreg(rd, a & imm_i_exec(inst));
        hart.next_pc();
        Ok(())
    }
}

/// `SLLI rd, rs1, shamt`: logical left shift by a six-bit immediate.
pub struct Slli;

impl InstrExec for Slli {
    open spec fn match_spec(&self, inst: u32) -> bool {
        matches_slli(inst)
    }

    open spec fn effect(&self, s: CoreView, inst: u32) -> Result<CoreView, Trap> {
        slli_effect(s, inst)
    }

    fn matches(&self, inst: u32) -> (r: bool) {
        inst & 0xfc00_707f == 0x1013
    }

    fn call(&self, inst: u32, hart: &mut Hart, bus: &mut Mmap) -> (r: Result<(), Trap>) {
        let rd = rd_exec(inst);
        let a = hart.xreg(rs1_exec(inst));
        hart.set_xreg(rd, a << shamt6_exec(inst));
        hart.next_pc();
        Ok(())
    }
}

/// `SRLI rd, rs1, shamt`: logical right shift by a six-bit immediate.
pub struct Srli;

impl InstrExec for Srli {
    open spec fn match_spec(&self, inst: u32) -> bool {
        matches_srli(inst)
    }

    open spec fn effect(&self, s: CoreView, inst: u32) -> Result<CoreView, Trap> {
        srli_effect(s, inst)
    }

    fn matches(&self, inst: u32) -> (r: bool) {
        inst & 0xfc00_707f == 0x5013
    }

    fn call(&self, inst: u32, hart: &mut Hart, bus: &mut Mmap) -> (r: Result<(), Trap>) {
        let rd = rd_exec(inst);
        let a = hart.xreg(rs1_exec(inst));
        hart.set_xreg(rd, a >> shamt6_exec(inst));
        hart.next_pc();
        Ok(())
    }
}

/// `SRAI rd, rs1, shamt`: arithmetic right shift by a six-bit immediate.
pub struct Srai;

impl InstrExec for Srai {
    open spec fn match_spec(&self, inst: u32) -> bool {
        matches_srai(inst)
    }

    open spec fn effect(&self, s: CoreView, inst: u32) -> Result<CoreView, Trap> {
        srai_effect(s, inst)
    }

    fn matches(&self, inst: u32) -> (r: bool) {
        inst & 0xfc00_707f == 0x4000_5013
    }

    fn call(&self, inst: u32, hart: &mut Hart, bus: &mut Mmap) -> (r: Result<(), Trap>) {
        let rd = rd_exec(inst);
        let a = hart.xreg(rs1_exec(inst));
        let sh = shamt6_exec(inst);
        hart.set_xreg(rd, sra64_exec(a, sh));
        hart.next_pc();
        Ok(())
    }
}

} // verus!
