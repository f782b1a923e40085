//! Register-register arithmetic and logic: `ADD`, `SUB`, `SLL`, `SLT`,
//! `SLTU`, `XOR`, `SRL`, `SRA`, `OR`, `AND`.

use vstd::prelude::*;

use crate::bits::{signed_lt_exec, sra64_exec};
use crate::decode::{
    matches_add, matches_and, matches_or, matches_sll, matches_slt, matches_sltu, matches_sra,
    matches_srl, matches_sub, matches_xor, rd_exec, rs1_exec, rs2_exec,
};
use crate::memory::mmap::Mmap;
use crate::processor::exception::Trap;
use crate::processor::hart::Hart;
use crate::processor::instruction::InstrExec;
use crate::processor::semantics::{
    add_effect, and_effect, or_effect, sll_effect, slt_effect, sltu_effect, sra_effect,
    srl_effect, sub_effect, xor_effect, CoreView,
};

verus! {

/// `ADD rd, rs1, rs2`: 64-bit addition; overflow wraps.
pub struct Add;

impl InstrExec for Add {
    open spec fn match_spec(&self, inst: u32) -> bool {
        matches_add(inst)
    }

    open spec fn effect(&self, s: CoreView, inst: u32) -> Result<CoreView, Trap> {
        add_effect(s, inst)
    }

    fn matches(&self, inst: u32) -> (r: bool) {
        inst & 0xfe00_707f == 0x0000_0033
    }

    fn call(&self, inst: u32, hart: &mut Hart, bus: &mut Mmap) -> (r: Result<(), Trap>) {
        let rd = rd_exec(inst);
        let a = hart.xreg(rs1_exec(inst));
        let b = hart.xreg(rs2_exec(inst));
        hart.set_xreg(rd, a.wrapping_add(b));
        hart.next_pc();
        Ok(())
    }
}

/// `SUB rd, rs1, rs2`: 64-bit subtraction; overflow wraps.
pub struct Sub;

impl InstrExec for Sub {
    open spec fn match_spec(&self, inst: u32) -> bool {
        matches_sub(inst)
    }

    open spec fn effect(&self, s: CoreView, inst: u32) -> Result<CoreView, Trap> {
        sub_effect(s, inst)
    }

    fn matches(&self, inst: u32) -> (r: bool) {
        inst & 0xfe00_707f == 0x4000_0033
    }

    fn call(&self, inst: u32, hart: &mut Hart, bus: &mut Mmap) -> (r: Result<(), Trap>) {
        let rd = rd_exec(inst);
        let a = hart.xreg(rs1_exec(inst));
        let b = hart.xreg(rs2_exec(inst));
        hart.set_xreg(rd, a.wrapping_sub(b));
        hart.next_pc();
        Ok(())
    }
}

/// `SLL rd, rs1, rs2`: logical left shift by the low 6 bits of `rs2`.
pub struct Sll;

impl InstrExec for Sll {
    open spec fn match_spec(&self, inst: u32) -> bool {
        matches_sll(inst)
    }

    open spec fn effect(&self, s: CoreView, inst: u32) -> Result<CoreView, Trap> {
        sll_effect(s, inst)
    }

    fn matches(&self, inst: u32) -> (r: bool) {
        inst & 0xfe00_707f == 0x1033
    }

    fn call(&self, inst: u32, hart: &mut Hart, bus: &mut Mmap) -> (r: Result<(), Trap>) {
        proof {
            crate::decode::lemma_field_bounds();
        }
        let rd = rd_exec(inst);
        let a = hart.xreg(rs1_exec(inst));
        let sh = hart.xreg(rs2_exec(inst)) & 0x3f;
        hart.set_xreg(rd, a << sh);
        hart.next_pc();
        Ok(())
    }
}

/// `SLT rd, rs1, rs2`: one when `rs1 < rs2` as signed values, else zero.
pub struct Slt;

impl InstrExec for Slt {
    open spec fn match_spec(&self, inst: u32) -> bool {
        matches_slt(inst)
    }

    open spec fn effect(&self, s: CoreView, inst: u32) -> Result<CoreView, Trap> {
        slt_effect(s, inst)
    }

    fn matches(&self, inst: u32) -> (r: bool) {
        inst & 0xfe00_707f == 0x2033
    }

    fn call(&self, inst: u32, hart: &mut Hart, bus: &mut Mmap) -> (r: Result<(), Trap>) {
        let rd = rd_exec(inst);
        let a = hart.xreg(rs1_exec(inst));
        let b = hart.xreg(rs2_exec(inst));
        let val: u64 = if signed_lt_exec(a, b) {
            1
        } else {
            0
        };
        hart.set_xreg(rd, val);
        hart.next_pc();
        Ok(())
    }
}

/// `SLTU rd, rs1, rs2`: one when `rs1 < rs2` as unsigned values, else zero.
pub struct Sltu;

impl InstrExec for Sltu {
    open spec fn match_spec(&self, inst: u32) -> bool {
        matches_sltu(inst)
    }

    open spec fn effect(&self, s: CoreView, inst: u32) -> Result<CoreView, Trap> {
        sltu_effect(s, inst)
    }

    fn matches(&self, inst: u32) -> (r: bool) {
        inst & 0xfe00_707f == 0x3033
    }

    fn call(&self, inst: u32, hart: &mut Hart, bus: &mut Mmap) -> (r: Result<(), Trap>) {
        let rd = rd_exec(inst);
        let a = hart.xreg(rs1_exec(inst));
        let b = hart.xreg(rs2_exec(inst));
        let val: u64 = if a < b {
            1
        } else {
            0
        };
        hart.set_xreg(rd, val);
        hart.next_pc();
        Ok(())
    }
}

/// `XOR rd, rs1, rs2`: bitwise exclusive or.
pub struct Xor;

impl InstrExec for Xor {
    open spec fn match_spec(&self, inst: u32) -> bool {
        matches_xor(inst)
    }

    open spec fn effect(&self, s: CoreView, inst: u32) -> Result<CoreView, Trap> {
        xor_effect(s, inst)
    }

    fn matches(&self, inst: u32) -> (r: bool) {
        inst & 0xfe00_707f == 0x4033
    }

    fn call(&self, inst: u32, hart: &mut Hart, bus: &mut Mmap) -> (r: Result<(), Trap>) {
        let rd = rd_exec(inst);
        let a = hart.xreg(rs1_exec(inst));
        let b = hart.xreg(rs2_exec(inst));
        hart.set_xreg(rd, a ^ b);
        hart.next_pc();
        Ok(())
    }
}

/// `SRL rd, rs1, rs2`: logical right shift by the low 6 bits of `rs2`.
pub struct Srl;

impl InstrExec for Srl {
    open spec fn match_spec(&self, inst: u32) -> bool {
        matches_srl(inst)
    }

    open spec fn effect(&self, s: CoreView, inst: u32) -> Result<CoreView, Trap> {
        srl_effect(s, inst)
    }

    fn matches(&self, inst: u32) -> (r: bool) {
        inst & 0xfe00_707f == 0x5033
    }

    fn call(&self, inst: u32, hart: &mut Hart, bus: &mut Mmap) -> (r: Result<(), Trap>) {
        proof {
            crate::decode::lemma_field_bounds();
        }
        let rd = rd_exec(inst);
        let a = hart.xreg(rs1_exec(inst));
        let sh = hart.xreg(rs2_exec(inst)) & 0x3f;
        hart.set_xreg(rd, a >> sh);
        hart.next_pc();
        Ok(())
    }
}

/// `SRA rd, rs1, rs2`: arithmetic right shift by the low 6 bits of `rs2`.
pub struct Sra;

impl InstrExec for Sra {
    open spec fn match_spec(&self, inst: u32) -> bool {
        matches_sra(inst)
    }

    open spec fn effect(&self, s: CoreView, inst: u32) -> Result<CoreView, Trap> {
        sra_effect(s, inst)
    }

    fn matches(&self, inst: u32) -> (r: bool) {
        inst & 0xfe00_707f == 0x4000_5033
    }

    fn call(&self, inst: u32, hart: &mut Hart, bus: &mut Mmap) -> (r: Result<(), Trap>) {
        proof {
            crate::decode::lemma_field_bounds();
        }
        let rd = rd_exec(inst);
        let a = hart.xreg(rs1_exec(inst));
        let sh = hart.xreg(rs2_exec(inst)) & 0x3f;
        hart.set_xreg(rd, sra64_exec(a, sh));
        hart.next_pc();
        Ok(())
    }
}

/// `OR rd, rs1, rs2`: bitwise or.
pub struct Or;

impl InstrExec for Or {
    open spec fn match_spec(&self, inst: u32) -> bool {
        matches_or(inst)
    }

    open spec fn effect(&self, s: CoreView, inst: u32) -> Result<CoreView, Trap> {
        or_effect(s, inst)
    }

    fn matches(&self, inst: u32) -> (r: bool) {
        inst & 0xfe00_707f == 0x6033
    }

    fn call(&self, inst: u32, hart: &mut Hart, bus: &mut Mmap) -> (r: Result<(), Trap>) {
        let rd = rd_exec(inst);
        let a = hart.xreg(rs1_exec(inst));
        let b = hart.xreg(rs2_exec(inst));
        hart.set_xreg(rd, a | b);
        hart.next_pc();
        Ok(())
    }
}

/// `AND rd, rs1, rs2`: bitwise and.
pub struct And;

impl InstrExec for And {
    open spec fn match_spec(&self, inst: u32) -> bool {
        matches_and(inst)
    }

    open spec fn effect(&self, s: CoreView, inst: u32) -> Result<CoreView, Trap> {
        and_effect(s, inst)
    }

    fn matches(&self, inst: u32) -> (r: bool) {
        inst & 0xfe00_707f == 0x7033
    }

    fn call(&self, inst: u32, hart: &mut Hart, bus: &mut Mmap) -> (r: Result<(), Trap>) {
        let rd = rd_exec(inst);
        let a = hart.xreg(rs1_exec(inst));
        let b = hart.xreg(rs2_exec(inst));
        hart.set_xreg(rd, a & b);
        hart.next_pc();
        Ok(())
    }
}

} // verus!
