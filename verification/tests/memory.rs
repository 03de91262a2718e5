use rvcore::bus::Bus;
use rvcore::memory::Memory;
use rvcore::DRam;

#[test]
fn dram_starts_zeroed() {
    let d = DRam::new(16);
    assert_eq!(d.size(), 16);
    for i in 0..16 {
        assert_eq!(d.load(i, 8), 0);
    }
}

#[test]
fn dram_is_little_endian() {
    let mut d = DRam::new(8);
    d.store(0, 32, 0x1234_5678);
    assert_eq!(d.load(0, 8), 0x78);
    assert_eq!(d.load(1, 8), 0x56);
    assert_eq!(d.load(2, 8), 0x34);
    assert_eq!(d.load(3, 8), 0x12);
    assert_eq!(d.load(0, 16), 0x5678);
    assert_eq!(d.load(2, 16), 0x1234);
    assert_eq!(d.load(1, 32), 0x0012_3456);
}

#[test]
fn dram_store_writes_only_its_width() {
    let mut d = DRam::new(8);
    d.store(0, 32, 0xffff_ffff);
    d.store(4, 32, 0xffff_ffff);
    d.store(1, 8, 0xabcd_ef12);
    assert_eq!(d.load(0, 32), 0xffff_12ff);
    d.store(4, 16, 0xabcd_ef12);
    assert_eq!(d.load(4, 32), 0xffff_ef12);
}

#[test]
fn bus_load_out_of_range_is_zero() {
    let mut bus = Bus::new(DRam::new(8));
    bus.store(0, 32, 0xffff_ffff);
    bus.store(4, 32, 0xffff_ffff);
    assert_eq!(bus.load(8, 32), 0);
    assert_eq!(bus.load(8, 8), 0);
    assert_eq!(bus.load(usize::MAX, 32), 0);
    assert_eq!(bus.load(1 << 20, 16), 0);
}

#[test]
fn bus_store_out_of_range_is_dropped() {
    let mut bus = Bus::new(DRam::new(8));
    bus.store(0, 32, 0x0102_0304);
    bus.store(4, 32, 0x0506_0708);
    bus.store(8, 32, 0xffff_ffff);
    bus.store(usize::MAX, 8, 0xff);
    bus.store(100, 16, 0xffff);
    assert_eq!(bus.dram.size(), 8);
    assert_eq!(bus.load(0, 32), 0x0102_0304);
    assert_eq!(bus.load(4, 32), 0x0506_0708);
}

#[test]
fn bus_access_that_runs_off_the_end_is_out_of_range() {
    let mut bus = Bus::new(DRam::new(8));
    bus.store(4, 32, 0xaabb_ccdd);
    assert_eq!(bus.load(6, 32), 0);
    assert_eq!(bus.load(7, 16), 0);
    assert_eq!(bus.load(7, 8), 0xaa);
    bus.store(6, 32, 0x1111_1111);
    bus.store(7, 16, 0x2222);
    assert_eq!(bus.load(4, 32), 0xaabb_ccdd);
}

#[test]
fn bus_in_range_round_trip() {
    let mut bus = Bus::new(DRam::new(1024));
    bus.store(0, 32, 0x00130293);
    bus.store(1020, 32, 0xff5ff0ef);
    bus.store(512, 16, 0xbeef);
    bus.store(515, 8, 0x7f);
    assert_eq!(bus.load(0, 32), 0x00130293);
    assert_eq!(bus.load(1020, 32), 0xff5ff0ef);
    assert_eq!(bus.load(512, 32), 0x7f00_beef);
}

#[test]
fn memory_signed_and_unsigned_loads() {
    let mut m = Memory::new(8);
    m.store_word(0, -2);
    assert_eq!(m.load_word(0), -2);
    assert_eq!(m.load_byte(0), -2);
    assert_eq!(m.load_ubyte(0), 0xfe);
    assert_eq!(m.load_halfword(0), -2);
    assert_eq!(m.load_uhalfword(0), 0xfffe);
    m.store_halfword(4, 0x1234_8001u32 as i32);
    assert_eq!(m.load_halfword(4), -32767);
    assert_eq!(m.load_uhalfword(4), 0x8001);
    assert_eq!(m.load_word(4), 0x8001);
    m.store_byte(7, 0x17f);
    assert_eq!(m.load_byte(7), 0x7f);
    assert_eq!(m.load_word(4), 0x7f00_8001);
}
