use priest::memory::mmap::Mmap;
use priest::memory::Bus;
use priest::processor::hart::Hart;
use priest::processor::instruction::InstrExec;
use priest::processor::rv64i::load::Ld;

fn encode_ld(rd: u32, rs1: u32, imm: i16) -> u32 {
    let imm12: u32 = (imm as u32) & 0xfff;
    (imm12 << 20) | (rs1 << 15) | (0b011 << 12) | (rd << 7) | 0b0000011
}

fn setup() -> (Hart, Mmap) {
    (Hart::new(0), Mmap::new(0x0, 0x10_0000))
}

fn exec(inst: u32, hart: &mut Hart, bus: &mut Mmap) {
    Ld.call(inst, hart, bus)
        .expect("LD execution unexpectedly trapped");
}

#[test]
fn ld_basic() {
    let (mut hart, mut bus) = setup();
    hart.set_xreg(1, 0x100);
    bus.write64(0x100, 0x000000000012345678).unwrap();

    exec(encode_ld(2, 1, 0), &mut hart, &mut bus);
    assert_eq!(hart.xreg(2), 0x000000000012345678);
}

#[test]
fn ld_with_offset() {
    let (mut hart, mut bus) = setup();
    hart.set_xreg(1, 0x200);
    bus.write64(0x208, 0x44332211ddccbbaa).unwrap();

    exec(encode_ld(2, 1, 8), &mut hart, &mut bus);
    assert_eq!(hart.xreg(2), 0x44332211ddccbbaa);
}

#[test]
fn ld_rd_x0() {
    let (mut hart, mut bus) = setup();
    hart.set_xreg(1, 0x300);
    bus.write64(0x300, 0x8877665544332211).unwrap();

    exec(encode_ld(0, 1, 0), &mut hart, &mut bus);
    assert_eq!(hart.xreg(0), 0);
}

#[test]
fn ld_negative_offset() {
    let (mut hart, mut bus) = setup();
    hart.set_xreg(1, 0x400);
    bus.write64(0x3f8, 0x04030201efbeadde).unwrap();

    exec(encode_ld(2, 1, -8), &mut hart, &mut bus);
    assert_eq!(hart.xreg(2), 0x04030201efbeadde);
}
