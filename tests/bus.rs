use smw::mem::{region, BusFault, Mem, Region};
use smw::rom::{reference_digest_bytes, Rom};

fn image() -> Vec<u8> {
    let mut data = vec![0u8; 0x80000];
    for (i, b) in data.iter_mut().enumerate() {
        *b = (i % 251) as u8;
    }
    data
}

fn bus() -> Mem {
    Mem::new(Rom::with_digest(&image(), &reference_digest_bytes()).unwrap())
}

#[test]
fn work_ram_banks_are_0x10000_apart() {
    assert_eq!(region(0x7e0000), Region::Ram { index: 0x00000 });
    assert_eq!(region(0x7f0000), Region::Ram { index: 0x10000 });
    assert_eq!(region(0x7f1234), Region::Ram { index: 0x11234 });
    let mut m = bus();
    assert_eq!(m.write(0x7e0000, 0x11), Ok(()));
    assert_eq!(m.read(0x7f0000), Ok(0x00));
    assert_eq!(m.write(0x7f0000, 0x22), Ok(()));
    assert_eq!(m.read(0x7e0000), Ok(0x11));
    assert_eq!(m.read(0x7f0000), Ok(0x22));
}

#[test]
fn low_ram_is_mirrored_in_system_banks() {
    let mut m = bus();
    assert_eq!(m.write(0x7e1fff, 0x5a), Ok(()));
    assert_eq!(m.read(0x001fff), Ok(0x5a));
    assert_eq!(m.read(0x3f1fff), Ok(0x5a));
    assert_eq!(m.read(0x801fff), Ok(0x5a));
    assert_eq!(m.write(0xbf0010, 0xa5), Ok(()));
    assert_eq!(m.read(0x7e0010), Ok(0xa5));
}

#[test]
fn rom_reads_follow_lorom_mapping() {
    let data = image();
    let m = bus();
    assert_eq!(region(0x008000), Region::Rom { index: 0 });
    assert_eq!(m.read(0x008000), Ok(data[0]));
    assert_eq!(m.read(0x018000), Ok(data[0x8000]));
    assert_eq!(m.read(0x0fffff), Ok(data[0x7ffff]));
    assert_eq!(m.read(0x808123), Ok(data[0x123]));
    assert_eq!(m.read(0x7d9000), Ok(data[0x1000 + 0xd * 0x8000]));
}

#[test]
fn rom_writes_are_discarded() {
    let data = image();
    let mut m = bus();
    assert_eq!(m.write(0x008005, 0xee), Ok(()));
    assert_eq!(m.read(0x008005), Ok(data[5]));
}

#[test]
fn reserved_regions_fault() {
    let mut m = bus();
    assert_eq!(region(0x004000), Region::IoPorts);
    assert_eq!(m.read(0x004000), Err(BusFault::Reserved { address: 0x004000 }));
    assert_eq!(region(0x002100), Region::HardwareRegisters);
    assert_eq!(m.read(0x802100), Err(BusFault::Reserved { address: 0x802100 }));
    assert_eq!(region(0x700000), Region::SaveRam);
    assert_eq!(m.write(0xf00000, 1), Err(BusFault::Reserved { address: 0xf00000 }));
    assert_eq!(m.write(0x4fff, 1), Err(BusFault::Reserved { address: 0x4fff }));
}

#[test]
fn open_bus_faults() {
    let mut m = bus();
    assert_eq!(region(0x400000), Region::OpenBus);
    assert_eq!(m.read(0x400000), Err(BusFault::Unmapped { address: 0x400000 }));
    assert_eq!(region(0x006000), Region::OpenBus);
    assert_eq!(m.write(0x006000, 1), Err(BusFault::Unmapped { address: 0x006000 }));
    assert_eq!(m.read(0x3000), Err(BusFault::Unmapped { address: 0x3000 }));
}

#[test]
fn read16_is_little_endian() {
    let mut m = bus();
    assert_eq!(m.write(0x7e0100, 0x34), Ok(()));
    assert_eq!(m.write(0x7e0101, 0x12), Ok(()));
    assert_eq!(m.read16(0x7e0100), Ok(0x1234));
}

#[test]
fn read16_wraps_the_24_bit_space() {
    let data = image();
    let mut m = bus();
    assert_eq!(m.write(0x000000, 0xab), Ok(()));
    assert_eq!(m.read16(0xffffff), Ok(((0xab as u16) << 8) | data[0x7ffff] as u16));
}

#[test]
fn read16_reports_the_failing_byte() {
    let m = bus();
    assert_eq!(m.read16(0x001fff), Err(BusFault::Reserved { address: 0x002000 }));
    assert_eq!(m.read16(0x003fff), Err(BusFault::Unmapped { address: 0x003fff }));
}
