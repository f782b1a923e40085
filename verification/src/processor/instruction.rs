//! The decoder-executor interface and the instruction dispatch table.

use vstd::prelude::*;

use crate::memory::mmap::Mmap;
use crate::processor::core_view;
use crate::processor::exception::Trap;
use crate::processor::hart::Hart;
use crate::processor::rv64i::branch::{Beq, Bge, Bgeu, Blt, Bltu, Bne};
use crate::processor::rv64i::jump::{Jal, Jalr};
use crate::processor::rv64i::load::{Lb, Lbu, Ld, Lh, Lhu, Lw, Lwu};
use crate::processor::rv64i::op::{Add, And, Or, Sll, Slt, Sltu, Sra, Srl, Sub, Xor};
use crate::processor::rv64i::op_imm::{Addi, Andi, Ori, Slli, Slti, Sltiu, Srai, Srli, Xori};
use crate::processor::rv64i::store::{Sb, Sd, Sh, Sw};
use crate::processor::rv64i::system::{Ebreak, Ecall, Fence};
use crate::processor::rv64i::upper::{Auipc, Lui};
use crate::processor::rv64i::word::{Addiw, Addw, Slliw, Sllw, Sraiw, Sraw, Srliw, Srlw, Subw};
use crate::processor::semantics::{step_post, step_spec, CoreView};

verus! {

/// One decoder-executor: a match predicate over 32-bit encodings and an
/// execute operation applying the instruction's effect to hart and bus.
///
/// Each implementation names its predicate and its effect as spec functions;
/// `call` is verified to realise the effect exactly: on success the new
/// architectural state is the specified post-state, and on a trap the same
/// trap is returned with the state untouched.
pub trait InstrExec: Sized {
    /// The masked-equality predicate selecting this executor's encodings.
    spec fn match_spec(&self, inst: u32) -> bool;

    /// The instruction's effect on the architectural state.
    spec fn effect(&self, s: CoreView, inst: u32) -> Result<CoreView, Trap>;

    /// Does this executor handle the encoding `inst`?
    fn matches(&self, inst: u32) -> (r: bool)
        ensures
            r == self.match_spec(inst),
    ;

    /// Decode the operand fields of `inst` and apply the effect.
    fn call(&self, inst: u32, hart: &mut Hart, bus: &mut Mmap) -> (r: Result<(), Trap>)
        requires
            old(hart).wf(),
        ensures
            final(hart).wf(),
            step_post(
                crate::processor::core_view(*old(hart), *old(bus)),
                crate::processor::core_view(*final(hart), *final(bus)),
                r,
                self.effect(crate::processor::core_view(*old(hart), *old(bus)), inst),
            ),
    ;
}

/// The dispatcher: scans the executors in a fixed order and invokes the
/// first whose predicate matches; when none matches, the encoding is
/// illegal.
///
/// The predicates are pairwise disjoint over valid encodings (see
/// [`crate::laws::lemma_dispatcher_disjoint`]), so the scan order carries no
/// meaning and the outcome is exactly `step_spec`.
pub struct InstrTable;

impl Default for InstrTable {
    fn default() -> (r: InstrTable)
        ensures
            r == (InstrTable),
    {
        InstrTable
    }
}

impl InstrTable {
    /// The table of every RV64I executor.
    pub fn new() -> (r: InstrTable) {
        InstrTable
    }

    /// Execute `inst` through the first matching executor, or raise an
    /// illegal-instruction trap.
    pub fn dispatch(&self, inst: u32, hart: &mut Hart, bus: &mut Mmap) -> (r: Result<(), Trap>)
        requires
            old(hart).wf(),
        ensures
            final(hart).wf(),
            step_post(
                core_view(*old(hart), *old(bus)),
                core_view(*final(hart), *final(bus)),
                r,
                step_spec(core_view(*old(hart), *old(bus)), inst),
            ),
    {
        if Add.matches(inst) {
            return Add.call(inst, hart, bus);
        }
        if Addi.matches(inst) {
            return Addi.call(inst, hart, bus);
        }
        if Addiw.matches(inst) {
            return Addiw.call(inst, hart, bus);
        }
        if Addw.matches(inst) {
            return Addw.call(inst, hart, bus);
        }
        if And.matches(inst) {
            return And.call(inst, hart, bus);
        }
        if Andi.matches(inst) {
            return Andi.call(inst, hart, bus);
        }
        if Auipc.matches(inst) {
            return Auipc.call(inst, hart, bus);
        }
        if Beq.matches(inst) {
            return Beq.call(inst, hart, bus);
        }
        if Bge.matches(inst) {
            return Bge.call(inst, hart, bus);
        }
        if Bgeu.matches(inst) {
            return Bgeu.call(inst, hart, bus);
        }
        if Blt.matches(inst) {
            return Blt.call(inst, hart, bus);
        }
        if Bltu.matches(inst) {
            return Bltu.call(inst, hart, bus);
        }
        if Bne.matches(inst) {
            return Bne.call(inst, hart, bus);
        }
        if Ecall.matches(inst) {
            return Ecall.call(inst, hart, bus);
        }
        if Ebreak.matches(inst) {
            return Ebreak.call(inst, hart, bus);
        }
        if Fence.matches(inst) {
            return Fence.call(inst, hart, bus);
        }
        if Jal.matches(inst) {
            return Jal.call(inst, hart, bus);
        }
        if Jalr.matches(inst) {
            return Jalr.call(inst, hart, bus);
        }
        if Lb.matches(inst) {
            return Lb.call(inst, hart, bus);
        }
        if Lbu.matches(inst) {
            return Lbu.call(inst, hart, bus);
        }
        if Ld.matches(inst) {
            return Ld.call(inst, hart, bus);
        }
        if Lh.matches(inst) {
            return Lh.call(inst, hart, bus);
        }
        if Lhu.matches(inst) {
            return Lhu.call(inst, hart, bus);
        }
        if Lui.matches(inst) {
            return Lui.call(inst, hart, bus);
        }
        if Lw.matches(inst) {
            return Lw.call(inst, hart, bus);
        }
        if Lwu.matches(inst) {
            return Lwu.call(inst, hart, bus);
        }
        if Or.matches(inst) {
            return Or.call(inst, hart, bus);
        }
        if Ori.matches(inst) {
            return Ori.call(inst, hart, bus);
        }
        if Sb.matches(inst) {
            return Sb.call(inst, hart, bus);
        }
        if Sd.matches(inst) {
            return Sd.call(inst, hart, bus);
        }
        if Sh.matches(inst) {
            return Sh.call(inst, hart, bus);
        }
        if Sll.matches(inst) {
            return Sll.call(inst, hart, bus);
        }
        if Slli.matches(inst) {
            return Slli.call(inst, hart, bus);
        }
        if Slliw.matches(inst) {
            return Slliw.call(inst, hart, bus);
        }
        if Sllw.matches(inst) {
            return Sllw.call(inst, hart, bus);
        }
        if Slt.matches(inst) {
            return Slt.call(inst, hart, bus);
        }
        if Slti.matches(inst) {
            return Slti.call(inst, hart, bus);
        }
        if Sltiu.matches(inst) {
            return Sltiu.call(inst, hart, bus);
        }
        if Sltu.matches(inst) {
            return Sltu.call(inst, hart, bus);
        }
        if Sra.matches(inst) {
            return Sra.call(inst, hart, bus);
        }
        if Srai.matches(inst) {
            return Srai.call(inst, hart, bus);
        }
        if Sraiw.matches(inst) {
            return Sraiw.call(inst, hart, bus);
        }
        if Sraw.matches(inst) {
            return Sraw.call(inst, hart, bus);
        }
        if Srl.matches(inst) {
            return Srl.call(inst, hart, bus);
        }
        if Srli.matches(inst) {
            return Srli.call(inst, hart, bus);
        }
        if Srliw.matches(inst) {
            return Srliw.call(inst, hart, bus);
        }
        if Srlw.matches(inst) {
            return Srlw.call(inst, hart, bus);
        }
        if Sub.matches(inst) {
            return Sub.call(inst, hart, bus);
        }
        if Subw.matches(inst) {
            return Subw.call(inst, hart, bus);
        }
        if Sw.matches(inst) {
            return Sw.call(inst, hart, bus);
        }
        if Xor.matches(inst) {
            return Xor.call(inst, hart, bus);
        }
        if Xori.matches(inst) {
            return Xori.call(inst, hart, bus);
        }
        Err(Trap::IllegalInstruction { inst })
    }
}

} // verus!
