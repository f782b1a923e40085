//! Stores: `SB`, `SH`, `SW`, `SD` store the low bits of `rs2`. A bus trap
//! is propagated unchanged and leaves hart and memory untouched.

use vstd::prelude::*;

use crate::decode::{imm_s_exec, matches_sb, matches_sd, matches_sh, matches_sw, rs1_exec, rs2_exec};
use crate::memory::mmap::Mmap;
use crate::memory::Bus;
use crate::processor::exception::Trap;
use crate::processor::hart::Hart;
use crate::processor::instruction::InstrExec;
use crate::processor::semantics::{sb_effect, sd_effect, sh_effect, sw_effect, CoreView};

verus! {

/// `SB rs2, imm(rs1)`: store the low byte of `rs2`.
pub struct Sb;

impl InstrExec for Sb {
    open spec fn match_spec(&self, inst: u32) -> bool {
        matches_sb(inst)
    }

    open spec fn effect(&self, s: CoreView, inst: u32) -> Result<CoreView, Trap> {
        sb_effect(s, inst)
    }

    fn matches(&self, inst: u32) -> (r: bool) {
        inst & 0x707f == 0x23
    }

    fn call(&self, inst: u32, hart: &mut Hart, bus: &mut Mmap) -> (r: Result<(), Trap>) {
        let addr = hart.xreg(rs1_exec(inst)).wrapping_add(imm_s_exec(inst));
        let v = hart.xreg(rs2_exec(inst));
        match bus.write8(addr, (v % 0x100) as u8) {
            Ok(u) => {
                hart.next_pc();
                Ok(u)
            },
            Err(t) => Err(Trap::Memory(t)),
        }
    }
}

/// `SH rs2, imm(rs1)`: store the low halfword of `rs2`.
pub struct Sh;

impl InstrExec for Sh {
    open spec fn match_spec(&self, inst: u32) -> bool {
        matches_sh(inst)
    }

    open spec fn effect(&self, s: CoreView, inst: u32) -> Result<CoreView, Trap> {
        sh_effect(s, inst)
    }

    fn matches(&self, inst: u32) -> (r: bool) {
        inst & 0x707f == 0x1023
    }

    fn call(&self, inst: u32, hart: &mut Hart, bus: &mut Mmap) -> (r: Result<(), Trap>) {
        let addr = hart.xreg(rs1_exec(inst)).wrapping_add(imm_s_exec(inst));
        let v = hart.xreg(rs2_exec(inst));
        match bus.write16(addr, (v % 0x1_0000) as u16) {
            Ok(u) => {
                hart.next_pc();
                Ok(u)
            },
            Err(t) => Err(Trap::Memory(t)),
        }
    }
}

/// `SW rs2, imm(rs1)`: store the low word of `rs2`.
pub struct Sw;

impl InstrExec for Sw {
    open spec fn match_spec(&self, inst: u32) -> bool {
        matches_sw(inst)
    }

    open spec fn effect(&self, s: CoreView, inst: u32) -> Result<CoreView, Trap> {
        sw_effect(s, inst)
    }

    fn matches(&self, inst: u32) -> (r: bool) {
        inst & 0x707f == 0x2023
    }

    fn call(&self, inst: u32, hart: &mut Hart, bus: &mut Mmap) -> (r: Result<(), Trap>) {
        let addr = hart.xreg(rs1_exec(inst)).wrapping_add(imm_s_exec(inst));
        let v = hart.xreg(rs2_exec(inst));
        match bus.write32(addr, (v % 0x1_0000_0000) as u32) {
            Ok(u) => {
                hart.next_pc();
                Ok(u)
            },
            Err(t) => Err(Trap::Memory(t)),
        }
    }
}

/// `SD rs2, imm(rs1)`: store all of `rs2`.
pub struct Sd;

impl InstrExec for Sd {
    open spec fn match_spec(&self, inst: u32) -> bool {
        matches_sd(inst)
    }

    open spec fn effect(&self, s: CoreView, inst: u32) -> Result<CoreView, Trap> {
        sd_effect(s, inst)
    }

    fn matches(&self, inst: u32) -> (r: bool) {
        inst & 0x707f == 0x3023
    }

    fn call(&self, inst: u32, hart: &mut Hart, bus: &mut Mmap) -> (r: Result<(), Trap>) {
        let addr = hart.xreg(rs1_exec(inst)).wrapping_add(imm_s_exec(inst));
        let v = hart.xreg(rs2_exec(inst));
        match bus.write64(addr, v) {
            Ok(u) => {
                hart.next_pc();
                Ok(u)
            },
            Err(t) => Err(Trap::Memory(t)),
        }
    }
}

} // verus!
