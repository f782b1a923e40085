//! The specification of RV64I execution: what each instruction does to the
//! architectural state.
//!
//! `CoreView` is the mathematical state a hart-and-bus pair denotes. For
//! every instruction there is one effect function from pre-state to either
//! post-state or trap; `step_spec` composes them with the decoder, and
//! `machine_step` adds the instruction fetch. The executable interpreter is
//! verified against these functions clause for clause.

use vstd::prelude::*;

use crate::bits::{
    lo32, sext16, sext32, sext8, signed_lt, sra32, sra64, wadd, wadd32, wsub, wsub32,
};
use crate::decode::{
    decode, imm_b, imm_i, imm_j, imm_s, imm_u, rd, rs1, rs2, shamt5, shamt6, Op,
};
use crate::memory::exception::Trap as MemTrap;
use crate::memory::{
    bus_fetch, bus_read16, bus_read32, bus_read64, bus_read8, bus_write16, bus_write32,
    bus_write64, bus_write8,
};
use crate::processor::exception::Trap;
use crate::processor::hart::xwrite;

verus! {

/// The architectural state: program counter, register file, and the RAM
/// region the bus maps.
#[verifier::ext_equal]
pub struct CoreView {
    pub pc: u64,
    pub regs: Seq<u64>,
    pub origin: u64,
    pub mem: Seq<u8>,
}

impl CoreView {
    /// Thirty-two registers with register zero wired to zero.
    pub open spec fn wf(self) -> bool {
        self.regs.len() == 32 && self.regs[0] == 0u64
    }
}

/// The state after an instruction that writes `val` to register `i` and
/// falls through to the next instruction.
pub open spec fn advance(s: CoreView, i: int, val: u64) -> CoreView {
    CoreView { pc: wadd(s.pc, 4), regs: xwrite(s.regs, i, val), origin: s.origin, mem: s.mem }
}

/// The state after an instruction that only falls through.
pub open spec fn fall_through(s: CoreView) -> CoreView {
    CoreView { pc: wadd(s.pc, 4), regs: s.regs, origin: s.origin, mem: s.mem }
}

/// The state after a successful store of memory image `mem`.
pub open spec fn store_advance(s: CoreView, mem: Seq<u8>) -> CoreView {
    CoreView { pc: wadd(s.pc, 4), regs: s.regs, origin: s.origin, mem }
}

/// A control transfer to `target`: misaligned targets trap before any state
/// changes; otherwise the program counter moves and `rd` (for jumps) takes
/// the link value.
pub open spec fn jump_to(s: CoreView, target: u64, i: int, link: u64) -> Result<CoreView, Trap> {
    if target % 4 != 0 {
        Err(Trap::Memory(MemTrap::MisalignedFetch { addr: target }))
    } else {
        Ok(CoreView { pc: target, regs: xwrite(s.regs, i, link), origin: s.origin, mem: s.mem })
    }
}

/// A conditional branch: taken branches go to `pc + imm_b`, checked for
/// 4-byte alignment before the program counter moves; untaken branches fall
/// through.
pub open spec fn branch_effect(s: CoreView, inst: u32, taken: bool) -> Result<CoreView, Trap> {
    if taken {
        let target = wadd(s.pc, imm_b(inst));
        if target % 4 != 0 {
            Err(Trap::Memory(MemTrap::MisalignedFetch { addr: target }))
        } else {
            Ok(CoreView { pc: target, regs: s.regs, origin: s.origin, mem: s.mem })
        }
    } else {
        Ok(fall_through(s))
    }
}

pub open spec fn add_effect(s: CoreView, inst: u32) -> Result<CoreView, Trap> {
    Ok(advance(s, rd(inst), wadd(s.regs[rs1(inst)], s.regs[rs2(inst)])))
}

pub open spec fn sub_effect(s: CoreView, inst: u32) -> Result<CoreView, Trap> {
    Ok(advance(s, rd(inst), wsub(s.regs[rs1(inst)], s.regs[rs2(inst)])))
}

pub open spec fn sll_effect(s: CoreView, inst: u32) -> Result<CoreView, Trap> {
    Ok(advance(s, rd(inst), s.regs[rs1(inst)] << (s.regs[rs2(inst)] & 0x3f)))
}

pub open spec fn slt_effect(s: CoreView, inst: u32) -> Result<CoreView, Trap> {
    Ok(
        advance(
            s,
            rd(inst),
            if signed_lt(s.regs[rs1(inst)], s.regs[rs2(inst)]) {
                1u64
            } else {
                0u64
            },
        ),
    )
}

pub open spec fn sltu_effect(s: CoreView, inst: u32) -> Result<CoreView, Trap> {
    Ok(
        advance(
            s,
            rd(inst),
            if s.regs[rs1(inst)] < s.regs[rs2(inst)] {
                1u64
            } else {
                0u64
            },
        ),
    )
}

pub open spec fn xor_effect(s: CoreView, inst: u32) -> Result<CoreView, Trap> {
    Ok(advance(s, rd(inst), s.regs[rs1(inst)] ^ s.regs[rs2(inst)]))
}

pub open spec fn srl_effect(s: CoreView, inst: u32) -> Result<CoreView, Trap> {
    Ok(advance(s, rd(inst), s.regs[rs1(inst)] >> (s.regs[rs2(inst)] & 0x3f)))
}

pub open spec fn sra_effect(s: CoreView, inst: u32) -> Result<CoreView, Trap> {
    Ok(advance(s, rd(inst), sra64(s.regs[rs1(inst)], s.regs[rs2(inst)] & 0x3f)))
}

pub open spec fn or_effect(s: CoreView, inst: u32) -> Result<CoreView, Trap> {
    Ok(advance(s, rd(inst), s.regs[rs1(inst)] | s.regs[rs2(inst)]))
}

pub open spec fn and_effect(s: CoreView, inst: u32) -> Result<CoreView, Trap> {
    Ok(advance(s, rd(inst), s.regs[rs1(inst)] & s.regs[rs2(inst)]))
}

pub open spec fn addi_effect(s: CoreView, inst: u32) -> Result<CoreView, Trap> {
    Ok(advance(s, rd(inst), wadd(s.regs[rs1(inst)], imm_i(inst))))
}

pub open spec fn slti_effect(s: CoreView, inst: u32) -> Result<CoreView, Trap> {
    Ok(
        advance(
            s,
            rd(inst),
            if signed_lt(s.regs[rs1(inst)], imm_i(inst)) {
                1u64
            } else {
                0u64
            },
        ),
    )
}

pub open spec fn sltiu_effect(s: CoreView, inst: u32) -> Result<CoreView, Trap> {
    Ok(
        advance(
            s,
            rd(inst),
            if s.regs[rs1(inst)] < imm_i(inst) {
                1u64
            } else {
                0u64
            },
        ),
    )
}

pub open spec fn xori_effect(s: CoreView, inst: u32) -> Result<CoreView, Trap> {
    Ok(advance(s, rd(inst), s.regs[rs1(inst)] ^ imm_i(inst)))
}

pub open spec fn ori_effect(s: CoreView, inst: u32) -> Result<CoreView, Trap> {
    Ok(advance(s, rd(inst), s.regs[rs1(inst)] | imm_i(inst)))
}

pub open spec fn andi_effect(s: CoreView, inst: u32) -> Result<CoreView, Trap> {
    Ok(advance(s, rd(inst), s.regs[rs1(inst)] & imm_i(inst)))
}

pub open spec fn slli_effect(s: CoreView, inst: u32) -> Result<CoreView, Trap> {
    Ok(advance(s, rd(inst), s.regs[rs1(inst)] << shamt6(inst)))
}

pub open spec fn srli_effect(s: CoreView, inst: u32) -> Result<CoreView, Trap> {
    Ok(advance(s, rd(inst), s.regs[rs1(inst)] >> shamt6(inst)))
}

pub open spec fn srai_effect(s: CoreView, inst: u32) -> Result<CoreView, Trap> {
    Ok(advance(s, rd(inst), sra64(s.regs[rs1(inst)], shamt6(inst))))
}

pub open spec fn lui_effect(s: CoreView, inst: u32) -> Result<CoreView, Trap> {
    Ok(advance(s, rd(inst), imm_u(inst)))
}

pub open spec fn auipc_effect(s: CoreView, inst: u32) -> Result<CoreView, Trap> {
    Ok(advance(s, rd(inst), wadd(s.pc, imm_u(inst))))
}

pub open spec fn addw_effect(s: CoreView, inst: u32) -> Result<CoreView, Trap> {
    Ok(
        advance(
            s,
            rd(inst),
            sext32(wadd32(lo32(s.regs[rs1(inst)]), lo32(s.regs[rs2(inst)]))),
        ),
    )
}

pub open spec fn subw_effect(s: CoreView, inst: u32) -> Result<CoreView, Trap> {
    Ok(
        advance(
            s,
            rd(inst),
            sext32(wsub32(lo32(s.regs[rs1(inst)]), lo32(s.regs[rs2(inst)]))),
        ),
    )
}

pub open spec fn sllw_effect(s: CoreView, inst: u32) -> Result<CoreView, Trap> {
    Ok(
        advance(
            s,
            rd(inst),
            sext32(lo32(lo32(s.regs[rs1(inst)]) << (s.regs[rs2(inst)] & 0x1f))),
        ),
    )
}

pub open spec fn srlw_effect(s: CoreView, inst: u32) -> Result<CoreView, Trap> {
    Ok(advance(s, rd(inst), sext32(lo32(s.regs[rs1(inst)]) >> (s.regs[rs2(inst)] & 0x1f))))
}

pub open spec fn sraw_effect(s: CoreView, inst: u32) -> Result<CoreView, Trap> {
    Ok(advance(s, rd(inst), sext32(sra32(lo32(s.regs[rs1(inst)]), s.regs[rs2(inst)] & 0x1f))))
}

pub open spec fn addiw_effect(s: CoreView, inst: u32) -> Result<CoreView, Trap> {
    Ok(advance(s, rd(inst), sext32(wadd32(lo32(s.regs[rs1(inst)]), lo32(imm_i(inst))))))
}

pub open spec fn slliw_effect(s: CoreView, inst: u32) -> Result<CoreView, Trap> {
    Ok(advance(s, rd(inst), sext32(lo32(lo32(s.regs[rs1(inst)]) << shamt5(inst)))))
}

pub open spec fn srliw_effect(s: CoreView, inst: u32) -> Result<CoreView, Trap> {
    Ok(advance(s, rd(inst), sext32(lo32(s.regs[rs1(inst)]) >> shamt5(inst))))
}

pub open spec fn sraiw_effect(s: CoreView, inst: u32) -> Result<CoreView, Trap> {
    Ok(advance(s, rd(inst), sext32(sra32(lo32(s.regs[rs1(inst)]), shamt5(inst)))))
}

pub open spec fn beq_effect(s: CoreView, inst: u32) -> Result<CoreView, Trap> {
    branch_effect(s, inst, s.regs[rs1(inst)] == s.regs[rs2(inst)])
}

pub open spec fn bne_effect(s: CoreView, inst: u32) -> Result<CoreView, Trap> {
    branch_effect(s, inst, s.regs[rs1(inst)] != s.regs[rs2(inst)])
}

pub open spec fn blt_effect(s: CoreView, inst: u32) -> Result<CoreView, Trap> {
    branch_effect(s, inst, signed_lt(s.regs[rs1(inst)], s.regs[rs2(inst)]))
}

pub open spec fn bge_effect(s: CoreView, inst: u32) -> Result<CoreView, Trap> {
    branch_effect(s, inst, !signed_lt(s.regs[rs1(inst)], s.regs[rs2(inst)]))
}

pub open spec fn bltu_effect(s: CoreView, inst: u32) -> Result<CoreView, Trap> {
    branch_effect(s, inst, s.regs[rs1(inst)] < s.regs[rs2(inst)])
}

pub open spec fn bgeu_effect(s: CoreView, inst: u32) -> Result<CoreView, Trap> {
    branch_effect(s, inst, s.regs[rs1(inst)] >= s.regs[rs2(inst)])
}

/// `JAL`: link `pc + 4` into `rd` and jump relative to the program counter.
pub open spec fn jal_effect(s: CoreView, inst: u32) -> Result<CoreView, Trap> {
    jump_to(s, wadd(s.pc, imm_j(inst)), rd(inst), wadd(s.pc, 4))
}

/// `JALR`: the target is `rs1 + imm` with bit zero cleared; the alignment
/// check applies to the masked target.
pub open spec fn jalr_effect(s: CoreView, inst: u32) -> Result<CoreView, Trap> {
    jump_to(
        s,
        wadd(s.regs[rs1(inst)], imm_i(inst)) & 0xffff_ffff_ffff_fffeu64,
        rd(inst),
        wadd(s.pc, 4),
    )
}

pub open spec fn lb_effect(s: CoreView, inst: u32) -> Result<CoreView, Trap> {
    let addr = wadd(s.regs[rs1(inst)], imm_i(inst));
    match bus_read8(s.origin, s.mem, addr) {
        Ok(b) => Ok(advance(s, rd(inst), sext8(b))),
        Err(t) => Err(Trap::Memory(t)),
    }
}

pub open spec fn lh_effect(s: CoreView, inst: u32) -> Result<CoreView, Trap> {
    let addr = wadd(s.regs[rs1(inst)], imm_i(inst));
    match bus_read16(s.origin, s.mem, addr) {
        Ok(h) => Ok(advance(s, rd(inst), sext16(h))),
        Err(t) => Err(Trap::Memory(t)),
    }
}

pub open spec fn lw_effect(s: CoreView, inst: u32) -> Result<CoreView, Trap> {
    let addr = wadd(s.regs[rs1(inst)], imm_i(inst));
    match bus_read32(s.origin, s.mem, addr) {
        Ok(w) => Ok(advance(s, rd(inst), sext32(w as u64))),
        Err(t) => Err(Trap::Memory(t)),
    }
}

pub open spec fn ld_effect(s: CoreView, inst: u32) -> Result<CoreView, Trap> {
    let addr = wadd(s.regs[rs1(inst)], imm_i(inst));
    match bus_read64(s.origin, s.mem, addr) {
        Ok(d) => Ok(advance(s, rd(inst), d)),
        Err(t) => Err(Trap::Memory(t)),
    }
}

pub open spec fn lbu_effect(s: CoreView, inst: u32) -> Result<CoreView, Trap> {
    let addr = wadd(s.regs[rs1(inst)], imm_i(inst));
    match bus_read8(s.origin, s.mem, addr) {
        Ok(b) => Ok(advance(s, rd(inst), b as u64)),
        Err(t) => Err(Trap::Memory(t)),
    }
}

pub open spec fn lhu_effect(s: CoreView, inst: u32) -> Result<CoreView, Trap> {
    let addr = wadd(s.regs[rs1(inst)], imm_i(inst));
    match bus_read16(s.origin, s.mem, addr) {
        Ok(h) => Ok(advance(s, rd(inst), h as u64)),
        Err(t) => Err(Trap::Memory(t)),
    }
}

pub open spec fn lwu_effect(s: CoreView, inst: u32) -> Result<CoreView, Trap> {
    let addr = wadd(s.regs[rs1(inst)], imm_i(inst));
    match bus_read32(s.origin, s.mem, addr) {
        Ok(w) => Ok(advance(s, rd(inst), w as u64)),
        Err(t) => Err(Trap::Memory(t)),
    }
}

pub open spec fn sb_effect(s: CoreView, inst: u32) -> Result<CoreView, Trap> {
    let addr = wadd(s.regs[rs1(inst)], imm_s(inst));
    match bus_write8(s.origin, s.mem, addr, (s.regs[rs2(inst)] % 0x100) as u8) {
        Ok(m) => Ok(store_advance(s, m)),
        Err(t) => Err(Trap::Memory(t)),
    }
}

pub open spec fn sh_effect(s: CoreView, inst: u32) -> Result<CoreView, Trap> {
    let addr = wadd(s.regs[rs1(inst)], imm_s(inst));
    match bus_write16(s.origin, s.mem, addr, (s.regs[rs2(inst)] % 0x1_0000) as u16) {
        Ok(m) => Ok(store_advance(s, m)),
        Err(t) => Err(Trap::Memory(t)),
    }
}

pub open spec fn sw_effect(s: CoreView, inst: u32) -> Result<CoreView, Trap> {
    let addr = wadd(s.regs[rs1(inst)], imm_s(inst));
    match bus_write32(s.origin, s.mem, addr, (s.regs[rs2(inst)] % 0x1_0000_0000) as u32) {
        Ok(m) => Ok(store_advance(s, m)),
        Err(t) => Err(Trap::Memory(t)),
    }
}

pub open spec fn sd_effect(s: CoreView, inst: u32) -> Result<CoreView, Trap> {
    let addr = wadd(s.regs[rs1(inst)], imm_s(inst));
    match bus_write64(s.origin, s.mem, addr, s.regs[rs2(inst)]) {
        Ok(m) => Ok(store_advance(s, m)),
        Err(t) => Err(Trap::Memory(t)),
    }
}

/// `ECALL`, `EBREAK` and `FENCE` are no-ops that fall through.
pub open spec fn system_effect(s: CoreView, inst: u32) -> Result<CoreView, Trap> {
    Ok(fall_through(s))
}

/// The effect of the instruction `op` decodes `inst` to.
pub open spec fn apply_op(op: Op, s: CoreView, inst: u32) -> Result<CoreView, Trap> {
    match op {
        Op::Add => add_effect(s, inst),
        Op::Addi => addi_effect(s, inst),
        Op::Addiw => addiw_effect(s, inst),
        Op::Addw => addw_effect(s, inst),
        Op::And => and_effect(s, inst),
        Op::Andi => andi_effect(s, inst),
        Op::Auipc => auipc_effect(s, inst),
        Op::Beq => beq_effect(s, inst),
        Op::Bge => bge_effect(s, inst),
        Op::Bgeu => bgeu_effect(s, inst),
        Op::Blt => blt_effect(s, inst),
        Op::Bltu => bltu_effect(s, inst),
        Op::Bne => bne_effect(s, inst),
        Op::Ecall => system_effect(s, inst),
        Op::Ebreak => system_effect(s, inst),
        Op::Fence => system_effect(s, inst),
        Op::Jal => jal_effect(s, inst),
        Op::Jalr => jalr_effect(s, inst),
        Op::Lb => lb_effect(s, inst),
        Op::Lbu => lbu_effect(s, inst),
        Op::Ld => ld_effect(s, inst),
        Op::Lh => lh_effect(s, inst),
        Op::Lhu => lhu_effect(s, inst),
        Op::Lui => lui_effect(s, inst),
        Op::Lw => lw_effect(s, inst),
        Op::Lwu => lwu_effect(s, inst),
        Op::Or => or_effect(s, inst),
        Op::Ori => ori_effect(s, inst),
        Op::Sb => sb_effect(s, inst),
        Op::Sd => sd_effect(s, inst),
        Op::Sh => sh_effect(s, inst),
        Op::Sll => sll_effect(s, inst),
        Op::Slli => slli_effect(s, inst),
        Op::Slliw => slliw_effect(s, inst),
        Op::Sllw => sllw_effect(s, inst),
        Op::Slt => slt_effect(s, inst),
        Op::Slti => slti_effect(s, inst),
        Op::Sltiu => sltiu_effect(s, inst),
        Op::Sltu => sltu_effect(s, inst),
        Op::Sra => sra_effect(s, inst),
        Op::Srai => srai_effect(s, inst),
        Op::Sraiw => sraiw_effect(s, inst),
        Op::Sraw => sraw_effect(s, inst),
        Op::Srl => srl_effect(s, inst),
        Op::Srli => srli_effect(s, inst),
        Op::Srliw => srliw_effect(s, inst),
        Op::Srlw => srlw_effect(s, inst),
        Op::Sub => sub_effect(s, inst),
        Op::Subw => subw_effect(s, inst),
        Op::Sw => sw_effect(s, inst),
        Op::Xor => xor_effect(s, inst),
        Op::Xori => xori_effect(s, inst),
    }
}

/// One dispatch step on an already-fetched encoding: the effect of the
/// decoded instruction, or an illegal-instruction trap.
pub open spec fn step_spec(s: CoreView, inst: u32) -> Result<CoreView, Trap> {
    match decode(inst) {
        Some(op) => apply_op(op, s, inst),
        None => Err(Trap::IllegalInstruction { inst }),
    }
}

/// One full machine step: fetch the word at the program counter, then
/// dispatch it.
pub open spec fn machine_step(s: CoreView) -> Result<CoreView, Trap> {
    match bus_fetch(s.origin, s.mem, s.pc) {
        Ok(inst) => step_spec(s, inst),
        Err(t) => Err(Trap::Memory(t)),
    }
}

/// Up to `n` machine steps: the state reached and, when a trap cut the run
/// short, that trap. A trap leaves the state at the instruction that
/// trapped.
pub open spec fn run_steps(s: CoreView, n: nat) -> (CoreView, Result<(), Trap>)
    decreases n,
{
    if n == 0 {
        (s, Ok(()))
    } else {
        match machine_step(s) {
            Ok(s2) => run_steps(s2, (n - 1) as nat),
            Err(t) => (s, Err(t)),
        }
    }
}

/// How an executable step relates to its specified outcome: on success the
/// post-state is exactly the specified one; on a trap the same trap is
/// returned and the state is untouched.
pub open spec fn step_post(
    pre: CoreView,
    post: CoreView,
    r: Result<(), Trap>,
    outcome: Result<CoreView, Trap>,
) -> bool {
    match outcome {
        Ok(s2) => r is Ok && post == s2,
        Err(t) => r == Err::<(), Trap>(t) && post == pre,
    }
}

} // verus!
