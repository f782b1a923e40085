//! System and barrier instructions: `ECALL`, `EBREAK` and `FENCE`.
//!
//! The core runs a single user-level hart with no privileged modes and no
//! store buffer, so all three act as no-ops that advance the program
//! counter.

use vstd::prelude::*;

use crate::decode::{matches_ebreak, matches_ecall, matches_fence};
use crate::memory::mmap::Mmap;
use crate::processor::exception::Trap;
use crate::processor::hart::Hart;
use crate::processor::instruction::InstrExec;
use crate::processor::semantics::{system_effect, CoreView};

verus! {

/// `ECALL`: an environment call; a no-op in this user-level core.
pub struct Ecall;

impl InstrExec for Ecall {
    open spec fn match_spec(&self, inst: u32) -> bool {
        matches_ecall(inst)
    }

    open spec fn effect(&self, s: CoreView, inst: u32) -> Result<CoreView, Trap> {
        system_effect(s, inst)
    }

    fn matches(&self, inst: u32) -> (r: bool) {
        inst == 0x73
    }

    fn call(&self, inst: u32, hart: &mut Hart, bus: &mut Mmap) -> (r: Result<(), Trap>) {
        hart.next_pc();
        Ok(())
    }
}

/// `EBREAK`: a breakpoint; a no-op in this user-level core.
pub struct Ebreak;

impl InstrExec for Ebreak {
    open spec fn match_spec(&self, inst: u32) -> bool {
        matches_ebreak(inst)
    }

    open spec fn effect(&self, s: CoreView, inst: u32) -> Result<CoreView, Trap> {
        system_effect(s, inst)
    }

    fn matches(&self, inst: u32) -> (r: bool) {
        inst == 0x0010_0073
    }

    fn call(&self, inst: u32, hart: &mut Hart, bus: &mut Mmap) -> (r: Result<(), Trap>) {
        hart.next_pc();
        Ok(())
    }
}

/// `FENCE`: a memory ordering barrier; a no-op for a single in-order hart.
pub struct Fence;

impl InstrExec for Fence {
    open spec fn match_spec(&self, inst: u32) -> bool {
        matches_fence(inst)
    }

    open spec fn effect(&self, s: CoreView, inst: u32) -> Result<CoreView, Trap> {
        system_effect(s, inst)
    }

    fn matches(&self, inst: u32) -> (r: bool) {
        inst & 0x707f == 0xf
    }

    fn call(&self, inst: u32, hart: &mut Hart, bus: &mut Mmap) -> (r: Result<(), Trap>) {
        hart.next_pc();
        Ok(())
    }
}

} // verus!
