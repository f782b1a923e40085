use priest::memory::buffer::MemoryBuffer;
use priest::memory::exception::Trap;
use priest::memory::mmap::Mmap;
use priest::memory::Bus;

#[test]
fn roundtrip_every_width() {
    let mut bus = Mmap::new(0x8000_0000, 0x1000);
    bus.write8(0x8000_0010, 0xAB).unwrap();
    assert_eq!(bus.read8(0x8000_0010).unwrap(), 0xAB);
    bus.write16(0x8000_0020, 0xBEEF).unwrap();
    assert_eq!(bus.read16(0x8000_0020).unwrap(), 0xBEEF);
    bus.write32(0x8000_0030, 0xDEADBEEF).unwrap();
    assert_eq!(bus.read32(0x8000_0030).unwrap(), 0xDEADBEEF);
    bus.write64(0x8000_0040, 0x0123456789ABCDEF).unwrap();
    assert_eq!(bus.read64(0x8000_0040).unwrap(), 0x0123456789ABCDEF);
}

#[test]
fn memory_is_little_endian() {
    let mut bus = Mmap::new(0, 0x100);
    bus.write32(0x10, 0x11223344).unwrap();
    assert_eq!(bus.read8(0x10).unwrap(), 0x44);
    assert_eq!(bus.read8(0x11).unwrap(), 0x33);
    assert_eq!(bus.read8(0x12).unwrap(), 0x22);
    assert_eq!(bus.read8(0x13).unwrap(), 0x11);
}

#[test]
fn misaligned_load_traps_per_width() {
    let bus = Mmap::new(0, 0x100);
    assert_eq!(bus.read16(0x11), Err(Trap::MisalignedLoad { addr: 0x11, align: 2 }));
    assert_eq!(bus.read32(0x12), Err(Trap::MisalignedLoad { addr: 0x12, align: 4 }));
    assert_eq!(bus.read64(0x14), Err(Trap::MisalignedLoad { addr: 0x14, align: 8 }));
}

#[test]
fn misaligned_store_traps_per_width() {
    let mut bus = Mmap::new(0, 0x100);
    assert_eq!(bus.write16(0x11, 1), Err(Trap::MisalignedStore { addr: 0x11, align: 2 }));
    assert_eq!(bus.write32(0x12, 1), Err(Trap::MisalignedStore { addr: 0x12, align: 4 }));
    assert_eq!(bus.write64(0x14, 1), Err(Trap::MisalignedStore { addr: 0x14, align: 8 }));
}

#[test]
fn access_below_origin_faults() {
    let mut bus = Mmap::new(0x8000_0000, 0x100);
    assert_eq!(bus.read8(0x7FFF_FFFF), Err(Trap::LoadAccessFault { addr: 0x7FFF_FFFF }));
    assert_eq!(bus.write8(0x7FFF_FFFF, 0), Err(Trap::StoreAccessFault { addr: 0x7FFF_FFFF }));
}

#[test]
fn access_beyond_region_faults() {
    let mut bus = Mmap::new(0x8000_0000, 0x100);
    assert_eq!(bus.read8(0x8000_0100), Err(Trap::LoadAccessFault { addr: 0x8000_0100 }));
    assert_eq!(bus.read64(0x8000_00F8).unwrap(), 0);
    assert_eq!(bus.read64(0x8000_0100), Err(Trap::LoadAccessFault { addr: 0x8000_0100 }));
    assert_eq!(bus.write32(0x8000_00FE, 1), Err(Trap::MisalignedStore { addr: 0x8000_00FE, align: 4 }));
    assert_eq!(bus.write32(0x8000_0100, 1), Err(Trap::StoreAccessFault { addr: 0x8000_0100 }));
}

#[test]
fn alignment_is_checked_before_region() {
    let bus = Mmap::new(0x8000_0000, 0x100);
    assert_eq!(bus.read32(0x7FFF_FFFE), Err(Trap::MisalignedLoad { addr: 0x7FFF_FFFE, align: 4 }));
}

#[test]
fn subword_store_leaves_neighbours() {
    let mut bus = Mmap::new(0, 0x100);
    bus.write64(0x20, 0xFFFFFFFFFFFFFFFF).unwrap();
    bus.write16(0x22, 0).unwrap();
    assert_eq!(bus.read64(0x20).unwrap(), 0xFFFFFFFF0000FFFF);
}

#[test]
fn fetch_reads_in_region_word() {
    let mut bus = Mmap::new(0x8000_0000, 0x100);
    bus.write32(0x8000_0004, 0x0000_0073).unwrap();
    assert_eq!(bus.fetch(0x8000_0004).unwrap(), 0x73);
}

#[test]
fn fetch_outside_region_faults() {
    let bus = Mmap::new(0x8000_0000, 0x100);
    assert_eq!(bus.fetch(0x100), Err(Trap::FetchAccessFault { addr: 0x100 }));
    assert_eq!(bus.fetch(0x8000_00FE), Err(Trap::FetchAccessFault { addr: 0x8000_00FE }));
}

#[test]
fn new_memory_is_zeroed() {
    let bus = Mmap::new(0, 0x100);
    assert_eq!(bus.read64(0x0).unwrap(), 0);
    assert_eq!(bus.read8(0xFF).unwrap(), 0);
}

#[test]
fn load_segment_copies_and_zero_fills() {
    let mut bus = Mmap::new(0x8000_0000, 0x100);
    bus.write8(0x8000_0013, 0xEE).unwrap();
    bus.write8(0x8000_0017, 0xEE).unwrap();
    let src: Vec<u8> = vec![1, 2, 3, 4];
    bus.load_segment(&src, 0x8000_0010, 6, 4);
    assert_eq!(bus.read8(0x8000_0010).unwrap(), 1);
    assert_eq!(bus.read8(0x8000_0013).unwrap(), 4);
    assert_eq!(bus.read8(0x8000_0014).unwrap(), 0);
    assert_eq!(bus.read8(0x8000_0015).unwrap(), 0);
    assert_eq!(bus.read8(0x8000_0017).unwrap(), 0xEE);
}

#[test]
fn buffer_allows_unaligned_access() {
    let mut buf = MemoryBuffer::new(0x20);
    buf.store32(3, 0xA1B2C3D4);
    assert_eq!(buf.load32(3), 0xA1B2C3D4);
    assert_eq!(buf.load8(3), 0xD4);
    buf.store64(9, 0x1122334455667788);
    assert_eq!(buf.load64(9), 0x1122334455667788);
    buf.store16(1, 0x99AA);
    assert_eq!(buf.load16(1), 0x99AA);
    assert_eq!(buf.len(), 0x20);
}
