use priest::memory::mmap::Mmap;
use priest::memory::Bus;
use priest::processor::hart::Hart;
use priest::processor::instruction::InstrExec;
use priest::processor::rv64i::store::Sd;

fn encode_sd(rs1: u32, rs2: u32, imm: i16) -> u32 {
    let imm12: u32 = (imm as u32) & 0xfff;
    let imm_11_5: u32 = (imm12 >> 5) & 0x7f;
    let imm_4_0: u32 = imm12 & 0x1f;
    (imm_11_5 << 25) | (rs2 << 20) | (rs1 << 15) | (0b011 << 12) | (imm_4_0 << 7) | 0b0100011
}

fn setup() -> (Hart, Mmap) {
    (Hart::new(0), Mmap::new(0x0, 0x10_0000))
}

fn exec(inst: u32, hart: &mut Hart, bus: &mut Mmap) {
    Sd.call(inst, hart, bus)
        .expect("SD execution unexpectedly trapped");
}

#[test]
fn sd_basic() {
    let (mut hart, mut bus) = setup();
    hart.set_xreg(1, 0x100);
    hart.set_xreg(2, 0x1122334455667788);

    exec(encode_sd(1, 2, 0), &mut hart, &mut bus);
    assert_eq!(bus.read64(0x100).unwrap(), 0x1122334455667788);
}

#[test]
fn sd_with_offset() {
    let (mut hart, mut bus) = setup();
    hart.set_xreg(1, 0x200);
    hart.set_xreg(2, 0x8877665544332211);

    exec(encode_sd(1, 2, 8), &mut hart, &mut bus);
    assert_eq!(bus.read64(0x208).unwrap(), 0x8877665544332211);
}

#[test]
fn sd_negative_offset() {
    let (mut hart, mut bus) = setup();
    hart.set_xreg(1, 0x300);
    hart.set_xreg(2, 0xdeadbeefcafebabe);

    exec(encode_sd(1, 2, -16), &mut hart, &mut bus);
    assert_eq!(bus.read64(0x2F0).unwrap(), 0xdeadbeefcafebabe);
}

#[test]
fn sd_zero_value() {
    let (mut hart, mut bus) = setup();
    hart.set_xreg(1, 0x400);
    hart.set_xreg(2, 0);

    exec(encode_sd(1, 2, 0), &mut hart, &mut bus);
    assert_eq!(bus.read64(0x400).unwrap(), 0);
}
