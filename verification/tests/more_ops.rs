use priest::memory::mmap::Mmap;
use priest::memory::Bus;
use priest::processor::hart::Hart;
use priest::processor::instruction::InstrExec;
use priest::processor::rv64i::load::{Lbu, Lhu};
use priest::processor::rv64i::op::Sub;
use priest::processor::rv64i::store::Sb;
use priest::processor::rv64i::system::{Ebreak, Ecall, Fence};

fn setup() -> (Hart, Mmap) {
    (Hart::new(0), Mmap::new(0x0, 0x10_0000))
}

fn encode_r(funct7: u32, rs2: u32, rs1: u32, funct3: u32, rd: u32, opcode: u32) -> u32 {
    (funct7 << 25) | (rs2 << 20) | (rs1 << 15) | (funct3 << 12) | (rd << 7) | opcode
}

fn encode_i(imm: i16, rs1: u32, funct3: u32, rd: u32, opcode: u32) -> u32 {
    let imm12: u32 = (imm as u32) & 0xfff;
    (imm12 << 20) | (rs1 << 15) | (funct3 << 12) | (rd << 7) | opcode
}

fn encode_s(rs1: u32, rs2: u32, imm: i16, funct3: u32) -> u32 {
    let imm12: u32 = (imm as u32) & 0xfff;
    let imm_11_5: u32 = (imm12 >> 5) & 0x7f;
    let imm_4_0: u32 = imm12 & 0x1f;
    (imm_11_5 << 25) | (rs2 << 20) | (rs1 << 15) | (funct3 << 12) | (imm_4_0 << 7) | 0b0100011
}

#[test]
fn sub_basic() {
    let (mut hart, mut bus) = setup();
    hart.set_xreg(1, 10);
    hart.set_xreg(2, 3);
    Sub.call(encode_r(0b0100000, 2, 1, 0, 3, 0b0110011), &mut hart, &mut bus).unwrap();
    assert_eq!(hart.xreg(3), 7);
}

#[test]
fn sub_underflow_wraps() {
    let (mut hart, mut bus) = setup();
    hart.set_xreg(1, 0);
    hart.set_xreg(2, 1);
    Sub.call(encode_r(0b0100000, 2, 1, 0, 3, 0b0110011), &mut hart, &mut bus).unwrap();
    assert_eq!(hart.xreg(3), u64::MAX);
}

#[test]
fn sb_stores_low_byte_only() {
    let (mut hart, mut bus) = setup();
    bus.write64(0x100, 0xAAAAAAAAAAAAAAAA).unwrap();
    hart.set_xreg(1, 0x100);
    hart.set_xreg(2, 0x11FF);
    Sb.call(encode_s(1, 2, 2, 0b000), &mut hart, &mut bus).unwrap();
    assert_eq!(bus.read8(0x102).unwrap(), 0xFF);
    assert_eq!(bus.read8(0x101).unwrap(), 0xAA);
    assert_eq!(bus.read8(0x103).unwrap(), 0xAA);
}

#[test]
fn lbu_zero_extends() {
    let (mut hart, mut bus) = setup();
    bus.write8(0x200, 0x80).unwrap();
    hart.set_xreg(1, 0x200);
    Lbu.call(encode_i(0, 1, 0b100, 2, 0b0000011), &mut hart, &mut bus).unwrap();
    assert_eq!(hart.xreg(2), 0x80);
}

#[test]
fn lhu_zero_extends() {
    let (mut hart, mut bus) = setup();
    bus.write16(0x200, 0x8001).unwrap();
    hart.set_xreg(1, 0x200);
    Lhu.call(encode_i(0, 1, 0b101, 2, 0b0000011), &mut hart, &mut bus).unwrap();
    assert_eq!(hart.xreg(2), 0x8001);
}

#[test]
fn ecall_matches_its_encoding_and_advances() {
    let (mut hart, mut bus) = setup();
    hart.set_pc(0x40);
    assert!(Ecall.matches(0x73));
    assert!(!Ecall.matches(0x0010_0073));
    Ecall.call(0x73, &mut hart, &mut bus).unwrap();
    assert_eq!(hart.pc(), 0x44);
}

#[test]
fn ebreak_matches_its_encoding_and_advances() {
    let (mut hart, mut bus) = setup();
    hart.set_pc(0x40);
    assert!(Ebreak.matches(0x0010_0073));
    assert!(!Ebreak.matches(0x73));
    Ebreak.call(0x0010_0073, &mut hart, &mut bus).unwrap();
    assert_eq!(hart.pc(), 0x44);
}

#[test]
fn fence_is_a_no_op() {
    let (mut hart, mut bus) = setup();
    hart.set_pc(0x40);
    hart.set_xreg(1, 5);
    assert!(Fence.matches(0x0000000F));
    Fence.call(0x0000000F, &mut hart, &mut bus).unwrap();
    assert_eq!(hart.pc(), 0x44);
    assert_eq!(hart.xreg(1), 5);
}
