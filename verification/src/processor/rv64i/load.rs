//! Loads: `LB`, `LH`, `LW`, `LD` sign-extend, `LBU`, `LHU`, `LWU`
//! zero-extend. A bus trap is propagated unchanged and leaves the hart
//! untouched.

use vstd::prelude::*;

use crate::bits::{sext16_exec, sext32_exec, sext8_exec};
use crate::decode::{
    imm_i_exec, matches_lb, matches_lbu, matches_ld, matches_lh, matches_lhu, matches_lw,
    matches_lwu, rd_exec, rs1_exec,
};
use crate::memory::mmap::Mmap;
use crate::memory::Bus;
use crate::processor::exception::Trap;
use crate::processor::hart::Hart;
use crate::processor::instruction::InstrExec;
use crate::processor::semantics::{
    lb_effect, lbu_effect, ld_effect, lh_effect, lhu_effect, lw_effect, lwu_effect, CoreView,
};

verus! {

/// `LB rd, imm(rs1)`: load one byte, sign-extended.
pub struct Lb;

impl InstrExec for Lb {
    open spec fn match_spec(&self, inst: u32) -> bool {
        matches_lb(inst)
    }

    open spec fn effect(&self, s: CoreView, inst: u32) -> Result<CoreView, Trap> {
        lb_effect(s, inst)
    }

    fn matches(&self, inst: u32) -> (r: bool) {
        inst & 0x707f == 0x3
    }

    fn call(&self, inst: u32, hart: &mut Hart, bus: &mut Mmap) -> (r: Result<(), Trap>) {
        let rd = rd_exec(inst);
        let addr = hart.xreg(rs1_exec(inst)).wrapping_add(imm_i_exec(inst));
        match bus.read8(addr) {
            Ok(b) => {
                hart.set_xreg(rd, sext8_exec(b));
                hart.next_pc();
                Ok(())
            },
            Err(t) => Err(Trap::Memory(t)),
        }
    }
}

/// `LH rd, imm(rs1)`: load a halfword, sign-extended.
pub struct Lh;

impl InstrExec for Lh {
    open spec fn match_spec(&self, inst: u32) -> bool {
        matches_lh(inst)
    }

    open spec fn effect(&self, s: CoreView, inst: u32) -> Result<CoreView, Trap> {
        lh_effect(s, inst)
    }

    fn matches(&self, inst: u32) -> (r: bool) {
        inst & 0x707f == 0x1003
    }

    fn call(&self, inst: u32, hart: &mut Hart, bus: &mut Mmap) -> (r: Result<(), Trap>) {
        let rd = rd_exec(inst);
        let addr = hart.xreg(rs1_exec(inst)).wrapping_add(imm_i_exec(inst));
        match bus.read16(addr) {
            Ok(h) => {
                hart.set_xreg(rd, sext16_exec(h));
                hart.next_pc();
                Ok(())
            },
            Err(t) => Err(Trap::Memory(t)),
        }
    }
}

/// `LW rd, imm(rs1)`: load a word, sign-extended.
pub struct Lw;

impl InstrExec for Lw {
    open spec fn match_spec(&self, inst: u32) -> bool {
        matches_lw(inst)
    }

    open spec fn effect(&self, s: CoreView, inst: u32) -> Result<CoreView, Trap> {
        lw_effect(s, inst)
    }

    fn matches(&self, inst: u32) -> (r: bool) {
        inst & 0x707f == 0x2003
    }

    fn call(&self, inst: u32, hart: &mut Hart, bus: &mut Mmap) -> (r: Result<(), Trap>) {
        let rd = rd_exec(inst);
        let addr = hart.xreg(rs1_exec(inst)).wrapping_add(imm_i_exec(inst));
        match bus.read32(addr) {
            Ok(w) => {
                hart.set_xreg(rd, sext32_exec(w as u64));
                hart.next_pc();
                Ok(())
            },
            Err(t) => Err(Trap::Memory(t)),
        }
    }
}

/// `LD rd, imm(rs1)`: load a doubleword.
pub struct Ld;

impl InstrExec for Ld {
    open spec fn match_spec(&self, inst: u32) -> bool {
        matches_ld(inst)
    }

    open spec fn effect(&self, s: CoreView, inst: u32) -> Result<CoreView, Trap> {
        ld_effect(s, inst)
    }

    fn matches(&self, inst: u32) -> (r: bool) {
        inst & 0x707f == 0x3003
    }

    fn call(&self, inst: u32, hart: &mut Hart, bus: &mut Mmap) -> (r: Result<(), Trap>) {
        let rd = rd_exec(inst);
        let addr = hart.xreg(rs1_exec(inst)).wrapping_add(imm_i_exec(inst));
        match bus.read64(addr) {
            Ok(d) => {
                hart.set_xreg(rd, d);
                hart.next_pc();
                Ok(())
            },
            Err(t) => Err(Trap::Memory(t)),
        }
    }
}

/// `LBU rd, imm(rs1)`: load one byte, zero-extended.
pub struct Lbu;

impl InstrExec for Lbu {
    open spec fn match_spec(&self, inst: u32) -> bool {
        matches_lbu(inst)
    }

    open spec fn effect(&self, s: CoreView, inst: u32) -> Result<CoreView, Trap> {
        lbu_effect(s, inst)
    }

    fn matches(&self, inst: u32) -> (r: bool) {
        inst & 0x707f == 0x4003
    }

    fn call(&self, inst: u32, hart: &mut Hart, bus: &mut Mmap) -> (r: Result<(), Trap>) {
        let rd = rd_exec(inst);
        let addr = hart.xreg(rs1_exec(inst)).wrapping_add(imm_i_exec(inst));
        match bus.read8(addr) {
            Ok(b) => {
                hart.set_xreg(rd, b as u64);
                hart.next_pc();
                Ok(())
            },
            Err(t) => Err(Trap::Memory(t)),
        }
    }
}

/// `LHU rd, imm(rs1)`: load a halfword, zero-extended.
pub struct Lhu;

impl InstrExec for Lhu {
    open spec fn match_spec(&self, inst: u32) -> bool {
        matches_lhu(inst)
    }

    open spec fn effect(&self, s: CoreView, inst: u32) -> Result<CoreView, Trap> {
        lhu_effect(s, inst)
    }

    fn matches(&self, inst: u32) -> (r: bool) {
        inst & 0x707f == 0x5003
    }

    fn call(&self, inst: u32, hart: &mut Hart, bus: &mut Mmap) -> (r: Result<(), Trap>) {
        let rd = rd_exec(inst);
        let addr = hart.xreg(rs1_exec(inst)).wrapping_add(imm_i_exec(inst));
        match bus.read16(addr) {
            Ok(h) => {
                hart.set_xreg(rd, h as u64);
                hart.next_pc();
                Ok(())
            },
            Err(t) => Err(Trap::Memory(t)),
        }
    }
}

/// `LWU rd, imm(rs1)`: load a word, zero-extended.
pub struct Lwu;

impl InstrExec for Lwu {
    open spec fn match_spec(&self, inst: u32) -> bool {
        matches_lwu(inst)
    }

    open spec fn effect(&self, s: CoreView, inst: u32) -> Result<CoreView, Trap> {
        lwu_effect(s, inst)
    }

    fn matches(&self, inst: u32) -> (r: bool) {
        inst & 0x707f == 0x6003
    }

    fn call(&self, inst: u32, hart: &mut Hart, bus: &mut Mmap) -> (r: Result<(), Trap>) {
        let rd = rd_exec(inst);
        let addr = hart.xreg(rs1_exec(inst)).wrapping_add(imm_i_exec(inst));
        match bus.read32(addr) {
            Ok(w) => {
                hart.set_xreg(rd, w as u64);
                hart.next_pc();
                Ok(())
            },
            Err(t) => Err(Trap::Memory(t)),
        }
    }
}

} // verus!
