//! Quantified invariants of the interpreter, proved once and for all from
//! the specification functions the executors are verified against.

use vstd::prelude::*;

use crate::bits::{
    lemma_shr_bounds, lemma_sra32_bound, lo32, sext16, sext32, sext8, signed_lt, wadd,
};
use crate::decode::{
    imm_b, imm_i, imm_j, lemma_field_bounds, matches_op, rd, rs1, rs2, Op,
};
use crate::memory::exception::Trap as MemTrap;
use crate::memory::{
    bus_read16, bus_read32, bus_read64, bus_write16, bus_write32, bus_write64,
};
use crate::processor::exception::Trap;
use crate::processor::semantics::{
    apply_op, bge_effect, bgeu_effect, blt_effect, bltu_effect, bne_effect, beq_effect,
    jal_effect, jalr_effect, lb_effect, lbu_effect, lh_effect, lhu_effect, lw_effect,
    lwu_effect, CoreView,
};

verus! {

/// Sign extensions leave the low bits alone: reading back the low half of a
/// sign-extended value gives the original.
pub proof fn lemma_sext_fixpoints()
    by (bit_vector)
    ensures
        forall|b: u8| #[trigger] sext8(b) % 0x100 == b,
        forall|h: u16| #[trigger] sext16(h) % 0x1_0000 == h,
        forall|w: u64| w < 0x1_0000_0000 ==> #[trigger] sext32(w) % 0x1_0000_0000 == w,
{
}

/// Wired zero: whatever instruction executes, a well-formed state stays
/// well-formed, so register zero still holds zero afterwards. A trapping
/// execution leaves the state untouched (see `InstrExec::call`), so the
/// invariant holds on every outcome.
pub proof fn lemma_wired_zero(op: Op, s: CoreView, inst: u32)
    requires
        s.wf(),
    ensures
        (match apply_op(op, s, inst) {
            Ok(s2) => s2.wf() && s2.regs[0] == 0u64,
            Err(_) => true,
        }),
{
    lemma_field_bounds();
}

/// The instructions that may move the program counter anywhere but to the
/// next instruction.
pub open spec fn is_control_transfer(op: Op) -> bool {
    ||| op == Op::Jal
    ||| op == Op::Jalr
    ||| op == Op::Beq
    ||| op == Op::Bne
    ||| op == Op::Blt
    ||| op == Op::Bge
    ||| op == Op::Bltu
    ||| op == Op::Bgeu
}

/// Program-counter monotonicity: every instruction other than a branch or
/// jump that completes moves the program counter exactly one instruction
/// forward.
pub proof fn lemma_pc_advance(op: Op, s: CoreView, inst: u32)
    requires
        !is_control_transfer(op),
    ensures
        (match apply_op(op, s, inst) {
            Ok(s2) => s2.pc == wadd(s.pc, 4),
            Err(_) => true,
        }),
{
}

/// Branch-target alignment: a control transfer whose computed target is not
/// 4-byte aligned fails with a misaligned-fetch trap carrying that target.
/// By the executors' contract a trapping execution changes neither the
/// program counter nor the link register.
pub proof fn lemma_branch_target_alignment(s: CoreView, inst: u32)
    ensures
        wadd(s.pc, imm_j(inst)) % 4 != 0 ==> jal_effect(s, inst) == Err::<CoreView, Trap>(
            Trap::Memory(MemTrap::MisalignedFetch { addr: wadd(s.pc, imm_j(inst)) }),
        ),
        (wadd(s.regs[rs1(inst)], imm_i(inst)) & 0xffff_ffff_ffff_fffeu64) % 4 != 0
            ==> jalr_effect(s, inst) == Err::<CoreView, Trap>(
            Trap::Memory(
                MemTrap::MisalignedFetch {
                    addr: wadd(s.regs[rs1(inst)], imm_i(inst)) & 0xffff_ffff_ffff_fffeu64,
                },
            ),
        ),
        s.regs[rs1(inst)] == s.regs[rs2(inst)] && wadd(s.pc, imm_b(inst)) % 4 != 0 ==> beq_effect(
            s,
            inst,
        ) == Err::<CoreView, Trap>(
            Trap::Memory(MemTrap::MisalignedFetch { addr: wadd(s.pc, imm_b(inst)) }),
        ),
        s.regs[rs1(inst)] != s.regs[rs2(inst)] && wadd(s.pc, imm_b(inst)) % 4 != 0 ==> bne_effect(
            s,
            inst,
        ) == Err::<CoreView, Trap>(
            Trap::Memory(MemTrap::MisalignedFetch { addr: wadd(s.pc, imm_b(inst)) }),
        ),
        signed_lt(s.regs[rs1(inst)], s.regs[rs2(inst)]) && wadd(s.pc, imm_b(inst)) % 4
            != 0 ==> blt_effect(s, inst) == Err::<CoreView, Trap>(
            Trap::Memory(MemTrap::MisalignedFetch { addr: wadd(s.pc, imm_b(inst)) }),
        ),
        !signed_lt(s.regs[rs1(inst)], s.regs[rs2(inst)]) && wadd(s.pc, imm_b(inst))
            % 4 != 0 ==> bge_effect(s, inst) == Err::<CoreView, Trap>(
            Trap::Memory(MemTrap::MisalignedFetch { addr: wadd(s.pc, imm_b(inst)) }),
        ),
        s.regs[rs1(inst)] < s.regs[rs2(inst)] && wadd(s.pc, imm_b(inst)) % 4 != 0 ==> bltu_effect(
            s,
            inst,
        ) == Err::<CoreView, Trap>(
            Trap::Memory(MemTrap::MisalignedFetch { addr: wadd(s.pc, imm_b(inst)) }),
        ),
        s.regs[rs1(inst)] >= s.regs[rs2(inst)] && wadd(s.pc, imm_b(inst)) % 4 != 0 ==> bgeu_effect(
            s,
            inst,
        ) == Err::<CoreView, Trap>(
            Trap::Memory(MemTrap::MisalignedFetch { addr: wadd(s.pc, imm_b(inst)) }),
        ),
{
}

/// The word operations: 32-bit computations whose result is written
/// sign-extended.
pub open spec fn is_word_op(op: Op) -> bool {
    ||| op == Op::Addw
    ||| op == Op::Subw
    ||| op == Op::Sllw
    ||| op == Op::Srlw
    ||| op == Op::Sraw
    ||| op == Op::Addiw
    ||| op == Op::Slliw
    ||| op == Op::Srliw
    ||| op == Op::Sraiw
}

/// Word-op sign extension: after any word operation, the destination
/// register holds the sign extension of its own low 32 bits.
pub proof fn lemma_word_sign_extension(op: Op, s: CoreView, inst: u32)
    requires
        s.wf(),
        is_word_op(op),
    ensures
        (match apply_op(op, s, inst) {
            Ok(s2) => s2.regs[rd(inst)] == sext32(lo32(s2.regs[rd(inst)])),
            Err(_) => true,
        }),
{
    lemma_field_bounds();
    lemma_shr_bounds();
    lemma_sext_fixpoints();
    if op == Op::Sraw {
        lemma_sra32_bound(lo32(s.regs[rs1(inst)]), s.regs[rs2(inst)] & 0x1f);
    }
    if op == Op::Sraiw {
        lemma_sra32_bound(lo32(s.regs[rs1(inst)]), crate::decode::shamt5(inst));
    }
}

/// Load/store alignment: the sized accesses fail with a misaligned trap
/// exactly when the address is not width-aligned, whether or not the access
/// also leaves the region — alignment is checked first.
pub proof fn lemma_alignment_before_region(
    origin: u64,
    mem: Seq<u8>,
    paddr: u64,
    v16: u16,
    v32: u32,
    v64: u64,
)
    ensures
        (bus_read16(origin, mem, paddr) == Err::<u16, MemTrap>(
            MemTrap::MisalignedLoad { addr: paddr, align: 2 },
        )) <==> paddr % 2 != 0,
        (bus_read32(origin, mem, paddr) == Err::<u32, MemTrap>(
            MemTrap::MisalignedLoad { addr: paddr, align: 4 },
        )) <==> paddr % 4 != 0,
        (bus_read64(origin, mem, paddr) == Err::<u64, MemTrap>(
            MemTrap::MisalignedLoad { addr: paddr, align: 8 },
        )) <==> paddr % 8 != 0,
        (bus_write16(origin, mem, paddr, v16) == Err::<Seq<u8>, MemTrap>(
            MemTrap::MisalignedStore { addr: paddr, align: 2 },
        )) <==> paddr % 2 != 0,
        (bus_write32(origin, mem, paddr, v32) == Err::<Seq<u8>, MemTrap>(
            MemTrap::MisalignedStore { addr: paddr, align: 4 },
        )) <==> paddr % 4 != 0,
        (bus_write64(origin, mem, paddr, v64) == Err::<Seq<u8>, MemTrap>(
            MemTrap::MisalignedStore { addr: paddr, align: 8 },
        )) <==> paddr % 8 != 0,
{
}

/// Load extension: the unsigned loads zero-extend — the destination stays
/// below the loaded width — and each signed load leaves the destination
/// equal to the sign extension of its own low bits.
pub proof fn lemma_load_extension(s: CoreView, inst: u32)
    requires
        s.wf(),
    ensures
        (match lbu_effect(s, inst) {
            Ok(s2) => s2.regs[rd(inst)] < 0x100,
            Err(_) => true,
        }),
        (match lhu_effect(s, inst) {
            Ok(s2) => s2.regs[rd(inst)] < 0x1_0000,
            Err(_) => true,
        }),
        (match lwu_effect(s, inst) {
            Ok(s2) => s2.regs[rd(inst)] < 0x1_0000_0000,
            Err(_) => true,
        }),
        (match lb_effect(s, inst) {
            Ok(s2) => s2.regs[rd(inst)] == sext8((s2.regs[rd(inst)] % 0x100) as u8),
            Err(_) => true,
        }),
        (match lh_effect(s, inst) {
            Ok(s2) => s2.regs[rd(inst)] == sext16((s2.regs[rd(inst)] % 0x1_0000) as u16),
            Err(_) => true,
        }),
        (match lw_effect(s, inst) {
            Ok(s2) => s2.regs[rd(inst)] == sext32(lo32(s2.regs[rd(inst)])),
            Err(_) => true,
        }),
{
    lemma_field_bounds();
    lemma_sext_fixpoints();
}

/// Dispatcher disjointness: no 32-bit encoding satisfies the predicates of
/// two different executors, so on valid encodings exactly one matches and
/// the scan order of the dispatch table carries no meaning.
pub proof fn lemma_dispatcher_disjoint(op1: Op, op2: Op, inst: u32)
    requires
        matches_op(op1, inst),
        matches_op(op2, inst),
    ensures
        op1 == op2,
{
    lemma_match_fields(inst);
}

/// The decoder selects exactly the executor whose predicate matches: an
/// encoding decodes to `op` precisely when `op`'s predicate accepts it.
/// With `lemma_dispatcher_disjoint` this makes the dispatch table's scan
/// order immaterial.
pub proof fn lemma_decode_iff_match(op: Op, inst: u32)
    ensures
        crate::decode::decode(inst) == Some(op) <==> matches_op(op, inst),
{
    lemma_match_fields(inst);
}

/// Round trip, byte width: a store that succeeds leaves memory from which a
/// load at the same address returns the stored value.
pub proof fn lemma_store_load_roundtrip8(origin: u64, mem: Seq<u8>, paddr: u64, v: u8)
    ensures
        (match crate::memory::bus_write8(origin, mem, paddr, v) {
            Ok(m) => crate::memory::bus_read8(origin, m, paddr) == Ok::<u8, MemTrap>(v),
            Err(_) => true,
        }),
{
}

/// Round trip, halfword width.
pub proof fn lemma_store_load_roundtrip16(origin: u64, mem: Seq<u8>, paddr: u64, v: u16)
    ensures
        (match bus_write16(origin, mem, paddr, v) {
            Ok(m) => bus_read16(origin, m, paddr) == Ok::<u16, MemTrap>(v),
            Err(_) => true,
        }),
{
    vstd::bytes::lemma_auto_spec_u16_to_from_le_bytes();
    match bus_write16(origin, mem, paddr, v) {
        Ok(m) => {
            let at = paddr - origin;
            assert(m.subrange(at, at + 2) =~= vstd::bytes::spec_u16_to_le_bytes(v));
        },
        Err(_) => {
        },
    }
}

/// Round trip, word width.
pub proof fn lemma_store_load_roundtrip32(origin: u64, mem: Seq<u8>, paddr: u64, v: u32)
    ensures
        (match bus_write32(origin, mem, paddr, v) {
            Ok(m) => bus_read32(origin, m, paddr) == Ok::<u32, MemTrap>(v),
            Err(_) => true,
        }),
{
    vstd::bytes::lemma_auto_spec_u32_to_from_le_bytes();
    match bus_write32(origin, mem, paddr, v) {
        Ok(m) => {
            let at = paddr - origin;
            assert(m.subrange(at, at + 4) =~= vstd::bytes::spec_u32_to_le_bytes(v));
        },
        Err(_) => {
        },
    }
}

/// Round trip, doubleword width.
pub proof fn lemma_store_load_roundtrip64(origin: u64, mem: Seq<u8>, paddr: u64, v: u64)
    ensures
        (match bus_write64(origin, mem, paddr, v) {
            Ok(m) => bus_read64(origin, m, paddr) == Ok::<u64, MemTrap>(v),
            Err(_) => true,
        }),
{
    vstd::bytes::lemma_auto_spec_u64_to_from_le_bytes();
    match bus_write64(origin, mem, paddr, v) {
        Ok(m) => {
            let at = paddr - origin;
            assert(m.subrange(at, at + 8) =~= vstd::bytes::spec_u64_to_le_bytes(v));
        },
        Err(_) => {
        },
    }
}

/// Each predicate pins the opcode field, and within the shared opcodes the
/// funct3 field, of any encoding it accepts.
proof fn lemma_match_fields(inst: u32)
    by (bit_vector)
    ensures
        crate::decode::matches_lui(inst) ==> inst & 0x7f == 0x37,
        crate::decode::matches_auipc(inst) ==> inst & 0x7f == 0x17,
        crate::decode::matches_jal(inst) ==> inst & 0x7f == 0x6f,
        crate::decode::matches_jalr(inst) ==> inst & 0x7f == 0x67,
        crate::decode::matches_beq(inst) ==> inst & 0x7f == 0x63,
        crate::decode::matches_bne(inst) ==> inst & 0x7f == 0x63,
        crate::decode::matches_blt(inst) ==> inst & 0x7f == 0x63,
        crate::decode::matches_bge(inst) ==> inst & 0x7f == 0x63,
        crate::decode::matches_bltu(inst) ==> inst & 0x7f == 0x63,
        crate::decode::matches_bgeu(inst) ==> inst & 0x7f == 0x63,
        crate::decode::matches_lb(inst) ==> inst & 0x7f == 0x03,
        crate::decode::matches_lh(inst) ==> inst & 0x7f == 0x03,
        crate::decode::matches_lw(inst) ==> inst & 0x7f == 0x03,
        crate::decode::matches_ld(inst) ==> inst & 0x7f == 0x03,
        crate::decode::matches_lbu(inst) ==> inst & 0x7f == 0x03,
        crate::decode::matches_lhu(inst) ==> inst & 0x7f == 0x03,
        crate::decode::matches_lwu(inst) ==> inst & 0x7f == 0x03,
        crate::decode::matches_sb(inst) ==> inst & 0x7f == 0x23,
        crate::decode::matches_sh(inst) ==> inst & 0x7f == 0x23,
        crate::decode::matches_sw(inst) ==> inst & 0x7f == 0x23,
        crate::decode::matches_sd(inst) ==> inst & 0x7f == 0x23,
        crate::decode::matches_addi(inst) ==> inst & 0x7f == 0x13,
        crate::decode::matches_slti(inst) ==> inst & 0x7f == 0x13,
        crate::decode::matches_sltiu(inst) ==> inst & 0x7f == 0x13,
        crate::decode::matches_xori(inst) ==> inst & 0x7f == 0x13,
        crate::decode::matches_ori(inst) ==> inst & 0x7f == 0x13,
        crate::decode::matches_andi(inst) ==> inst & 0x7f == 0x13,
        crate::decode::matches_slli(inst) ==> inst & 0x7f == 0x13,
        crate::decode::matches_srli(inst) ==> inst & 0x7f == 0x13,
        crate::decode::matches_srai(inst) ==> inst & 0x7f == 0x13,
        crate::decode::matches_addiw(inst) ==> inst & 0x7f == 0x1b,
        crate::decode::matches_slliw(inst) ==> inst & 0x7f == 0x1b,
        crate::decode::matches_srliw(inst) ==> inst & 0x7f == 0x1b,
        crate::decode::matches_sraiw(inst) ==> inst & 0x7f == 0x1b,
        crate::decode::matches_addi(inst) ==> inst & 0x707f == 0x13,
        crate::decode::matches_slti(inst) ==> inst & 0x707f == 0x2013,
        crate::decode::matches_sltiu(inst) ==> inst & 0x707f == 0x3013,
        crate::decode::matches_xori(inst) ==> inst & 0x707f == 0x4013,
        crate::decode::matches_ori(inst) ==> inst & 0x707f == 0x6013,
        crate::decode::matches_andi(inst) ==> inst & 0x707f == 0x7013,
        crate::decode::matches_slli(inst) ==> inst & 0x707f == 0x1013,
        crate::decode::matches_srli(inst) ==> inst & 0x707f == 0x5013,
        crate::decode::matches_srai(inst) ==> inst & 0x707f == 0x5013 && inst & 0x4000_0000
            == 0x4000_0000,
        crate::decode::matches_srli(inst) ==> inst & 0x4000_0000 == 0,
        crate::decode::matches_add(inst) ==> inst & 0x7f == 0x33,
        crate::decode::matches_sub(inst) ==> inst & 0x7f == 0x33,
        crate::decode::matches_sll(inst) ==> inst & 0x7f == 0x33,
        crate::decode::matches_slt(inst) ==> inst & 0x7f == 0x33,
        crate::decode::matches_sltu(inst) ==> inst & 0x7f == 0x33,
        crate::decode::matches_xor(inst) ==> inst & 0x7f == 0x33,
        crate::decode::matches_srl(inst) ==> inst & 0x7f == 0x33,
        crate::decode::matches_sra(inst) ==> inst & 0x7f == 0x33,
        crate::decode::matches_or(inst) ==> inst & 0x7f == 0x33,
        crate::decode::matches_and(inst) ==> inst & 0x7f == 0x33,
        crate::decode::matches_fence(inst) ==> inst & 0x7f == 0x0f,
        crate::decode::matches_ecall(inst) ==> inst & 0x7f == 0x73,
        crate::decode::matches_ebreak(inst) ==> inst & 0x7f == 0x73,
        crate::decode::matches_addiw(inst) ==> inst & 0x707f == 0x1b,
        crate::decode::matches_slliw(inst) ==> inst & 0x707f == 0x101b,
        crate::decode::matches_srliw(inst) ==> inst & 0x707f == 0x501b,
        crate::decode::matches_sraiw(inst) ==> inst & 0x707f == 0x501b && inst & 0x4000_0000
            == 0x4000_0000,
        crate::decode::matches_srliw(inst) ==> inst & 0x4000_0000 == 0,
        crate::decode::matches_addw(inst) ==> inst & 0x7f == 0x3b,
        crate::decode::matches_subw(inst) ==> inst & 0x7f == 0x3b,
        crate::decode::matches_sllw(inst) ==> inst & 0x7f == 0x3b,
        crate::decode::matches_srlw(inst) ==> inst & 0x7f == 0x3b,
        crate::decode::matches_sraw(inst) ==> inst & 0x7f == 0x3b,
{
}

} // verus!
