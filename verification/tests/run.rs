use priest::machine::Machine;
use priest::memory::exception::Trap as MemTrap;
use priest::memory::mmap::Mmap;
use priest::memory::Bus;
use priest::processor::exception::Trap;
use priest::processor::hart::Hart;
use priest::processor::Cpu;

fn encode_addi(rd: u32, rs1: u32, imm: i16) -> u32 {
    let imm12: u32 = (imm as u32) & 0xfff;
    (imm12 << 20) | (rs1 << 15) | (rd << 7) | 0x13
}

fn encode_bne(rs1: u32, rs2: u32, imm: i16) -> u32 {
    let imm12: u32 = imm as u32;
    let imm_12: u32 = ((imm12 >> 12) & 0x1) << 31;
    let imm_10_5: u32 = ((imm12 >> 5) & 0x3f) << 25;
    let imm_4_1: u32 = ((imm12 >> 1) & 0xf) << 8;
    let imm_11: u32 = ((imm12 >> 11) & 0x1) << 7;
    imm_12 | imm_10_5 | (rs2 << 20) | (rs1 << 15) | (0b001 << 12) | imm_4_1 | imm_11 | 0b1100011
}

fn encode_auipc(rd: u32, imm20: u32) -> u32 {
    ((imm20 & 0xfffff) << 12) | (rd << 7) | 0b0010111
}

fn encode_sw(rs1: u32, rs2: u32, imm: i16) -> u32 {
    let imm12: u32 = (imm as u32) & 0xfff;
    let imm_11_5: u32 = (imm12 >> 5) & 0x7f;
    let imm_4_0: u32 = imm12 & 0x1f;
    (imm_11_5 << 25) | (rs2 << 20) | (rs1 << 15) | (0b010 << 12) | (imm_4_0 << 7) | 0b0100011
}

#[test]
fn machine_runs_a_counting_loop() {
    let mut bus = Mmap::new(0x8000_0000, 0x1000);
    bus.write32(0x8000_0000, encode_addi(1, 0, 3)).unwrap();
    bus.write32(0x8000_0004, encode_addi(2, 2, 1)).unwrap();
    bus.write32(0x8000_0008, encode_bne(2, 1, -4)).unwrap();
    bus.write32(0x8000_000C, encode_auipc(3, 0)).unwrap();
    bus.write32(0x8000_0010, encode_sw(3, 2, 52)).unwrap();
    bus.write32(0x8000_0014, 0).unwrap();
    let cpu = Hart::new(0x8000_0000);
    let mut machine = Machine::new(cpu, bus);
    let r = machine.start(u64::MAX);
    assert_eq!(r, Err(Trap::IllegalInstruction { inst: 0 }));
    assert_eq!(machine.cpu().pc(), 0x8000_0014);
    assert_eq!(machine.cpu().xreg(1), 3);
    assert_eq!(machine.cpu().xreg(2), 3);
    assert_eq!(machine.cpu().xreg(3), 0x8000_000C);
}

#[test]
fn machine_runs_until_illegal_instruction() {
    let mut bus = Mmap::new(0x8000_0000, 0x1000);
    bus.write32(0x8000_0000, encode_addi(1, 0, 5)).unwrap();
    bus.write32(0x8000_0004, encode_addi(2, 1, 7)).unwrap();
    bus.write32(0x8000_0008, 0xFFFFFFFF).unwrap();
    let cpu = Hart::new(0x8000_0000);
    let mut machine = Machine::new(cpu, bus);
    let r = machine.start(u64::MAX);
    assert_eq!(r, Err(Trap::IllegalInstruction { inst: 0xFFFFFFFF }));
    assert_eq!(machine.cpu().pc(), 0x8000_0008);
    assert_eq!(machine.cpu().xreg(1), 5);
    assert_eq!(machine.cpu().xreg(2), 12);
}

#[test]
fn machine_reports_fetch_fault_outside_region() {
    let bus = Mmap::new(0x8000_0000, 0x1000);
    let cpu = Hart::new(0x100);
    let mut machine = Machine::new(cpu, bus);
    let r = machine.start(u64::MAX);
    assert_eq!(r, Err(Trap::Memory(MemTrap::FetchAccessFault { addr: 0x100 })));
}

#[test]
fn machine_honours_the_step_budget() {
    let mut bus = Mmap::new(0x8000_0000, 0x1000);
    bus.write32(0x8000_0000, encode_addi(1, 1, 1)).unwrap();
    let cpu = Hart::new(0x8000_0000);
    let mut machine = Machine::new(cpu, bus);
    assert_eq!(machine.start(1), Ok(()));
    assert_eq!(machine.cpu().pc(), 0x8000_0004);
    assert_eq!(machine.cpu().xreg(1), 1);
}

#[test]
fn step_executes_one_instruction() {
    let mut bus = Mmap::new(0x8000_0000, 0x1000);
    bus.write32(0x8000_0000, encode_addi(3, 0, 9)).unwrap();
    let mut cpu = Hart::new(0x8000_0000);
    cpu.step(&mut bus).unwrap();
    assert_eq!(cpu.pc(), 0x8000_0004);
    assert_eq!(cpu.xreg(3), 9);
}

#[test]
fn step_propagates_load_fault_without_side_effects() {
    let mut bus = Mmap::new(0x8000_0000, 0x1000);
    let lw_low: u32 = (1 << 15) | (0b010 << 12) | (2 << 7) | 0b0000011;
    bus.write32(0x8000_0000, lw_low).unwrap();
    let mut cpu = Hart::new(0x8000_0000);
    let r = cpu.step(&mut bus);
    assert_eq!(r, Err(Trap::Memory(MemTrap::LoadAccessFault { addr: 0 })));
    assert_eq!(cpu.pc(), 0x8000_0000);
    assert_eq!(cpu.xreg(2), 0);
}

#[test]
fn hart_starts_clean() {
    let hart = Hart::new(0x42);
    assert_eq!(hart.pc(), 0x42);
    for i in 0..32usize {
        assert_eq!(hart.xreg(i), 0);
    }
}

#[test]
fn hart_pc_wraps_at_the_top() {
    let mut hart = Hart::new(u64::MAX - 1);
    hart.next_pc();
    assert_eq!(hart.pc(), 2);
}

#[test]
fn hart_discards_writes_to_x0() {
    let mut hart = Hart::new(0);
    hart.set_xreg(0, 0xDEAD);
    assert_eq!(hart.xreg(0), 0);
    hart.set_xreg(31, 0xDEAD);
    assert_eq!(hart.xreg(31), 0xDEAD);
}
