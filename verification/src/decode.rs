//! Instruction-word field extraction and opcode recognition for RV64I.
//!
//! Every instruction is a 32-bit word. Operand fields (`rd`, `rs1`, `rs2`,
//! the immediates of the I, S, B, U and J formats, and shift amounts) are
//! fixed bit ranges of that word; immediates are sign-extended to 64 bits.
//! An opcode is recognised by a masked equality `inst & mask == pattern`,
//! where the mask selects the opcode, funct3 and (where present) funct7
//! fields.

use vstd::prelude::*;

use crate::bits::sext32;

verus! {

/// Destination register index (bits 11:7).
pub open spec fn rd(inst: u32) -> int {
    ((inst >> 7) & 0x1f) as int
}

/// First source register index (bits 19:15).
pub open spec fn rs1(inst: u32) -> int {
    ((inst >> 15) & 0x1f) as int
}

/// Second source register index (bits 24:20).
pub open spec fn rs2(inst: u32) -> int {
    ((inst >> 20) & 0x1f) as int
}

/// I-type immediate: bits 31:20, sign-extended to 64 bits.
pub open spec fn imm_i(inst: u32) -> u64 {
    let v = ((inst >> 20) & 0xfff) as u64;
    if inst >= 0x8000_0000 {
        v | 0xffff_ffff_ffff_f000u64
    } else {
        v
    }
}

/// S-type immediate: bits 31:25 and 11:7, sign-extended to 64 bits.
pub open spec fn imm_s(inst: u32) -> u64 {
    let v = ((((inst >> 25) & 0x7f) as u64) << 5) | (((inst >> 7) & 0x1f) as u64);
    if inst >= 0x8000_0000 {
        v | 0xffff_ffff_ffff_f000u64
    } else {
        v
    }
}

/// B-type immediate: a 13-bit branch offset (bit 0 is zero), sign-extended.
pub open spec fn imm_b(inst: u32) -> u64 {
    let v = ((((inst >> 31) & 1) as u64) << 12) | ((((inst >> 7) & 1) as u64) << 11) | ((((inst
        >> 25) & 0x3f) as u64) << 5) | ((((inst >> 8) & 0xf) as u64) << 1);
    if inst >= 0x8000_0000 {
        v | 0xffff_ffff_ffff_e000u64
    } else {
        v
    }
}

/// U-type immediate: bits 31:12 shifted left by 12, sign-extended from 32 bits.
pub open spec fn imm_u(inst: u32) -> u64 {
    sext32((inst & 0xffff_f000) as u64)
}

/// J-type immediate: a 21-bit jump offset (bit 0 is zero), sign-extended.
pub open spec fn imm_j(inst: u32) -> u64 {
    let v = ((((inst >> 31) & 1) as u64) << 20) | ((((inst >> 12) & 0xff) as u64) << 12) | ((((inst
        >> 20) & 1) as u64) << 11) | ((((inst >> 21) & 0x3ff) as u64) << 1);
    if inst >= 0x8000_0000 {
        v | 0xffff_ffff_ffe0_0000u64
    } else {
        v
    }
}

/// Six-bit shift amount of the 64-bit immediate shifts (bits 25:20).
pub open spec fn shamt6(inst: u32) -> u64 {
    ((inst >> 20) & 0x3f) as u64
}

/// Five-bit shift amount of the 32-bit immediate shifts (bits 24:20).
pub open spec fn shamt5(inst: u32) -> u64 {
    ((inst >> 20) & 0x1f) as u64
}

/// Bounds of the fixed bit fields, used whenever a field indexes the
/// register file or drives a shift.
pub proof fn lemma_field_bounds()
    by (bit_vector)
    ensures
        forall|x: u32| #[trigger] ((x >> 7) & 0x1f) < 32,
        forall|x: u32| #[trigger] ((x >> 15) & 0x1f) < 32,
        forall|x: u32| #[trigger] ((x >> 20) & 0x1f) < 32,
        forall|x: u32| #[trigger] ((x >> 20) & 0x3f) < 64,
        forall|x: u64| #[trigger] (x & 0x3f) < 64,
        forall|x: u64| #[trigger] (x & 0x1f) < 32,
{
}

/// Executable destination-register extraction.
pub fn rd_exec(inst: u32) -> (r: usize)
    ensures
        r == rd(inst),
        r < 32,
{
    proof {
        lemma_field_bounds();
    }
    ((inst >> 7) & 0x1f) as usize
}

/// Executable first-source-register extraction.
pub fn rs1_exec(inst: u32) -> (r: usize)
    ensures
        r == rs1(inst),
        r < 32,
{
    proof {
        lemma_field_bounds();
    }
    ((inst >> 15) & 0x1f) as usize
}

/// Executable second-source-register extraction.
pub fn rs2_exec(inst: u32) -> (r: usize)
    ensures
        r == rs2(inst),
        r < 32,
{
    proof {
        lemma_field_bounds();
    }
    ((inst >> 20) & 0x1f) as usize
}

/// Executable I-type immediate extraction.
pub fn imm_i_exec(inst: u32) -> (r: u64)
    ensures
        r == imm_i(inst),
{
    let v = ((inst >> 20) & 0xfff) as u64;
    if inst >= 0x8000_0000 {
        v | 0xffff_ffff_ffff_f000
    } else {
        v
    }
}

/// Executable S-type immediate extraction.
pub fn imm_s_exec(inst: u32) -> (r: u64)
    ensures
        r == imm_s(inst),
{
    let v = ((((inst >> 25) & 0x7f) as u64) << 5) | (((inst >> 7) & 0x1f) as u64);
    if inst >= 0x8000_0000 {
        v | 0xffff_ffff_ffff_f000
    } else {
        v
    }
}

/// Executable B-type immediate extraction.
pub fn imm_b_exec(inst: u32) -> (r: u64)
    ensures
        r == imm_b(inst),
{
    let v = ((((inst >> 31) & 1) as u64) << 12) | ((((inst >> 7) & 1) as u64) << 11) | ((((inst
        >> 25) & 0x3f) as u64) << 5) | ((((inst >> 8) & 0xf) as u64) << 1);
    if inst >= 0x8000_0000 {
        v | 0xffff_ffff_ffff_e000
    } else {
        v
    }
}

/// Executable U-type immediate extraction.
pub fn imm_u_exec(inst: u32) -> (r: u64)
    ensures
        r == imm_u(inst),
{
    crate::bits::sext32_exec((inst & 0xffff_f000) as u64)
}

/// Executable J-type immediate extraction.
pub fn imm_j_exec(inst: u32) -> (r: u64)
    ensures
        r == imm_j(inst),
{
    let v = ((((inst >> 31) & 1) as u64) << 20) | ((((inst >> 12) & 0xff) as u64) << 12) | ((((inst
        >> 20) & 1) as u64) << 11) | ((((inst >> 21) & 0x3ff) as u64) << 1);
    if inst >= 0x8000_0000 {
        v | 0xffff_ffff_ffe0_0000
    } else {
        v
    }
}

/// Executable six-bit shift-amount extraction.
pub fn shamt6_exec(inst: u32) -> (r: u64)
    ensures
        r == shamt6(inst),
        r < 64,
{
    proof {
        lemma_field_bounds();
    }
    ((inst >> 20) & 0x3f) as u64
}

/// Executable five-bit shift-amount extraction.
pub fn shamt5_exec(inst: u32) -> (r: u64)
    ensures
        r == shamt5(inst),
        r < 32,
{
    proof {
        lemma_field_bounds();
    }
    ((inst >> 20) & 0x1f) as u64
}

/// One name for each RV64I instruction the interpreter understands.
#[derive(Clone, Copy, Debug, PartialEq, Eq, Structural)]
pub enum Op {
    Add,
    Addi,
    Addiw,
    Addw,
    And,
    Andi,
    Auipc,
    Beq,
    Bge,
    Bgeu,
    Blt,
    Bltu,
    Bne,
    Ecall,
    Ebreak,
    Fence,
    Jal,
    Jalr,
    Lb,
    Lbu,
    Ld,
    Lh,
    Lhu,
    Lui,
    Lw,
    Lwu,
    Or,
    Ori,
    Sb,
    Sd,
    Sh,
    Sll,
    Slli,
    Slliw,
    Sllw,
    Slt,
    Slti,
    Sltiu,
    Sltu,
    Sra,
    Srai,
    Sraiw,
    Sraw,
    Srl,
    Srli,
    Srliw,
    Srlw,
    Sub,
    Subw,
    Sw,
    Xor,
    Xori,
}

pub open spec fn matches_add(inst: u32) -> bool {
    inst & 0xfe00_707f == 0x0000_0033
}

pub open spec fn matches_addi(inst: u32) -> bool {
    inst & 0x707f == 0x13
}

pub open spec fn matches_addiw(inst: u32) -> bool {
    inst & 0x707f == 0x1b
}

pub open spec fn matches_addw(inst: u32) -> bool {
    inst & 0xfe00_707f == 0x0000_003b
}

pub open spec fn matches_and(inst: u32) -> bool {
    inst & 0xfe00_707f == 0x7033
}

pub open spec fn matches_andi(inst: u32) -> bool {
    inst & 0x707f == 0x7013
}

pub open spec fn matches_auipc(inst: u32) -> bool {
    inst & 0x7f == 0x17
}

pub open spec fn matches_beq(inst: u32) -> bool {
    inst & 0x707f == 0x63
}

pub open spec fn matches_bge(inst: u32) -> bool {
    inst & 0x707f == 0x5063
}

pub open spec fn matches_bgeu(inst: u32) -> bool {
    inst & 0x707f == 0x7063
}

pub open spec fn matches_blt(inst: u32) -> bool {
    inst & 0x707f == 0x4063
}

pub open spec fn matches_bltu(inst: u32) -> bool {
    inst & 0x707f == 0x6063
}

pub open spec fn matches_bne(inst: u32) -> bool {
    inst & 0x707f == 0x1063
}

pub open spec fn matches_ecall(inst: u32) -> bool {
    inst == 0x73
}

pub open spec fn matches_ebreak(inst: u32) -> bool {
    inst == 0x0010_0073
}

pub open spec fn matches_fence(inst: u32) -> bool {
    inst & 0x707f == 0xf
}

pub open spec fn matches_jal(inst: u32) -> bool {
    inst & 0x7f == 0x6f
}

pub open spec fn matches_jalr(inst: u32) -> bool {
    inst & 0x707f == 0x67
}

pub open spec fn matches_lb(inst: u32) -> bool {
    inst & 0x707f == 0x3
}

pub open spec fn matches_lbu(inst: u32) -> bool {
    inst & 0x707f == 0x4003
}

pub open spec fn matches_ld(inst: u32) -> bool {
    inst & 0x707f == 0x3003
}

pub open spec fn matches_lh(inst: u32) -> bool {
    inst & 0x707f == 0x1003
}

pub open spec fn matches_lhu(inst: u32) -> bool {
    inst & 0x707f == 0x5003
}

pub open spec fn matches_lui(inst: u32) -> bool {
    inst & 0x7f == 0x37
}

pub open spec fn matches_lw(inst: u32) -> bool {
    inst & 0x707f == 0x2003
}

pub open spec fn matches_lwu(inst: u32) -> bool {
    inst & 0x707f == 0x6003
}

pub open spec fn matches_or(inst: u32) -> bool {
    inst & 0xfe00_707f == 0x6033
}

pub open spec fn matches_ori(inst: u32) -> bool {
    inst & 0x707f == 0x6013
}

pub open spec fn matches_sb(inst: u32) -> bool {
    inst & 0x707f == 0x23
}

pub open spec fn matches_sd(inst: u32) -> bool {
    inst & 0x707f == 0x3023
}

pub open spec fn matches_sh(inst: u32) -> bool {
    inst & 0x707f == 0x1023
}

pub open spec fn matches_sll(inst: u32) -> bool {
    inst & 0xfe00_707f == 0x1033
}

pub open spec fn matches_slli(inst: u32) -> bool {
    inst & 0xfc00_707f == 0x1013
}

pub open spec fn matches_slliw(inst: u32) -> bool {
    inst & 0xfe00_707f == 0x101b
}

pub open spec fn matches_sllw(inst: u32) -> bool {
    inst & 0xfe00_707f == 0x103b
}

pub open spec fn matches_slt(inst: u32) -> bool {
    inst & 0xfe00_707f == 0x2033
}

pub open spec fn matches_slti(inst: u32) -> bool {
    inst & 0x707f == 0x2013
}

pub open spec fn matches_sltiu(inst: u32) -> bool {
    inst & 0x707f == 0x3013
}

pub open spec fn matches_sltu(inst: u32) -> bool {
    inst & 0xfe00_707f == 0x3033
}

pub open spec fn matches_sra(inst: u32) -> bool {
    inst & 0xfe00_707f == 0x4000_5033
}

pub open spec fn matches_srai(inst: u32) -> bool {
    inst & 0xfc00_707f == 0x4000_5013
}

pub open spec fn matches_sraiw(inst: u32) -> bool {
    inst & 0xfe00_707f == 0x4000_501b
}

pub open spec fn matches_sraw(inst: u32) -> bool {
    inst & 0xfe00_707f == 0x4000_503b
}

pub open spec fn matches_srl(inst: u32) -> bool {
    inst & 0xfe00_707f == 0x5033
}

pub open spec fn matches_srli(inst: u32) -> bool {
    inst & 0xfc00_707f == 0x5013
}

pub open spec fn matches_srliw(inst: u32) -> bool {
    inst & 0xfe00_707f == 0x501b
}

pub open spec fn matches_srlw(inst: u32) -> bool {
    inst & 0xfe00_707f == 0x503b
}

pub open spec fn matches_sub(inst: u32) -> bool {
    inst & 0xfe00_707f == 0x4000_0033
}

pub open spec fn matches_subw(inst: u32) -> bool {
    inst & 0xfe00_707f == 0x4000_003b
}

pub open spec fn matches_sw(inst: u32) -> bool {
    inst & 0x707f == 0x2023
}

pub open spec fn matches_xor(inst: u32) -> bool {
    inst & 0xfe00_707f == 0x4033
}

pub open spec fn matches_xori(inst: u32) -> bool {
    inst & 0x707f == 0x4013
}

/// Whether `op`'s match predicate accepts the encoding `inst`.
pub open spec fn matches_op(op: Op, inst: u32) -> bool {
    match op {
        Op::Add => matches_add(inst),
        Op::Addi => matches_addi(inst),
        Op::Addiw => matches_addiw(inst),
        Op::Addw => matches_addw(inst),
        Op::And => matches_and(inst),
        Op::Andi => matches_andi(inst),
        Op::Auipc => matches_auipc(inst),
        Op::Beq => matches_beq(inst),
        Op::Bge => matches_bge(inst),
        Op::Bgeu => matches_bgeu(inst),
        Op::Blt => matches_blt(inst),
        Op::Bltu => matches_bltu(inst),
        Op::Bne => matches_bne(inst),
        Op::Ecall => matches_ecall(inst),
        Op::Ebreak => matches_ebreak(inst),
        Op::Fence => matches_fence(inst),
        Op::Jal => matches_jal(inst),
        Op::Jalr => matches_jalr(inst),
        Op::Lb => matches_lb(inst),
        Op::Lbu => matches_lbu(inst),
        Op::Ld => matches_ld(inst),
        Op::Lh => matches_lh(inst),
        Op::Lhu => matches_lhu(inst),
        Op::Lui => matches_lui(inst),
        Op::Lw => matches_lw(inst),
        Op::Lwu => matches_lwu(inst),
        Op::Or => matches_or(inst),
        Op::Ori => matches_ori(inst),
        Op::Sb => matches_sb(inst),
        Op::Sd => matches_sd(inst),
        Op::Sh => matches_sh(inst),
        Op::Sll => matches_sll(inst),
        Op::Slli => matches_slli(inst),
        Op::Slliw => matches_slliw(inst),
        Op::Sllw => matches_sllw(inst),
        Op::Slt => matches_slt(inst),
        Op::Slti => matches_slti(inst),
        Op::Sltiu => matches_sltiu(inst),
        Op::Sltu => matches_sltu(inst),
        Op::Sra => matches_sra(inst),
        Op::Srai => matches_srai(inst),
        Op::Sraiw => matches_sraiw(inst),
        Op::Sraw => matches_sraw(inst),
        Op::Srl => matches_srl(inst),
        Op::Srli => matches_srli(inst),
        Op::Srliw => matches_srliw(inst),
        Op::Srlw => matches_srlw(inst),
        Op::Sub => matches_sub(inst),
        Op::Subw => matches_subw(inst),
        Op::Sw => matches_sw(inst),
        Op::Xor => matches_xor(inst),
        Op::Xori => matches_xori(inst),
    }
}

/// The instruction selected for an encoding: the first predicate, in the
/// dispatch table's order, that accepts it, or `None` when the encoding is
/// illegal. The predicates are pairwise disjoint over valid encodings, so the
/// order carries no meaning.
pub open spec fn decode(inst: u32) -> Option<Op> {
    if matches_add(inst) {
        Some(Op::Add)
    } else if matches_addi(inst) {
        Some(Op::Addi)
    } else if matches_addiw(inst) {
        Some(Op::Addiw)
    } else if matches_addw(inst) {
        Some(Op::Addw)
    } else if matches_and(inst) {
        Some(Op::And)
    } else if matches_andi(inst) {
        Some(Op::Andi)
    } else if matches_auipc(inst) {
        Some(Op::Auipc)
    } else if matches_beq(inst) {
        Some(Op::Beq)
    } else if matches_bge(inst) {
        Some(Op::Bge)
    } else if matches_bgeu(inst) {
        Some(Op::Bgeu)
    } else if matches_blt(inst) {
        Some(Op::Blt)
    } else if matches_bltu(inst) {
        Some(Op::Bltu)
    } else if matches_bne(inst) {
        Some(Op::Bne)
    } else if matches_ecall(inst) {
        Some(Op::Ecall)
    } else if matches_ebreak(inst) {
        Some(Op::Ebreak)
    } else if matches_fence(inst) {
        Some(Op::Fence)
    } else if matches_jal(inst) {
        Some(Op::Jal)
    } else if matches_jalr(inst) {
        Some(Op::Jalr)
    } else if matches_lb(inst) {
        Some(Op::Lb)
    } else if matches_lbu(inst) {
        Some(Op::Lbu)
    } else if matches_ld(inst) {
        Some(Op::Ld)
    } else if matches_lh(inst) {
        Some(Op::Lh)
    } else if matches_lhu(inst) {
        Some(Op::Lhu)
    } else if matches_lui(inst) {
        Some(Op::Lui)
    } else if matches_lw(inst) {
        Some(Op::Lw)
    } else if matches_lwu(inst) {
        Some(Op::Lwu)
    } else if matches_or(inst) {
        Some(Op::Or)
    } else if matches_ori(inst) {
        Some(Op::Ori)
    } else if matches_sb(inst) {
        Some(Op::Sb)
    } else if matches_sd(inst) {
        Some(Op::Sd)
    } else if matches_sh(inst) {
        Some(Op::Sh)
    } else if matches_sll(inst) {
        Some(Op::Sll)
    } else if matches_slli(inst) {
        Some(Op::Slli)
    } else if matches_slliw(inst) {
        Some(Op::Slliw)
    } else if matches_sllw(inst) {
        Some(Op::Sllw)
    } else if matches_slt(inst) {
        Some(Op::Slt)
    } else if matches_slti(inst) {
        Some(Op::Slti)
    } else if matches_sltiu(inst) {
        Some(Op::Sltiu)
    } else if matches_sltu(inst) {
        Some(Op::Sltu)
    } else if matches_sra(inst) {
        Some(Op::Sra)
    } else if matches_srai(inst) {
        Some(Op::Srai)
    } else if matches_sraiw(inst) {
        Some(Op::Sraiw)
    } else if matches_sraw(inst) {
        Some(Op::Sraw)
    } else if matches_srl(inst) {
        Some(Op::Srl)
    } else if matches_srli(inst) {
        Some(Op::Srli)
    } else if matches_srliw(inst) {
        Some(Op::Srliw)
    } else if matches_srlw(inst) {
        Some(Op::Srlw)
    } else if matches_sub(inst) {
        Some(Op::Sub)
    } else if matches_subw(inst) {
        Some(Op::Subw)
    } else if matches_sw(inst) {
        Some(Op::Sw)
    } else if matches_xor(inst) {
        Some(Op::Xor)
    } else if matches_xori(inst) {
        Some(Op::Xori)
    } else {
        None
    }
}

} // verus!

