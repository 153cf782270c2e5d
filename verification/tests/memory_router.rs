use gameboyo::mbc::{MBC0, MemoryBankController};
use gameboyo::memory::{LoadError, Memory};

fn plain_rom() -> Vec<u8> {
    let mut rom = vec![0u8; 0x8000];
    rom[0x147] = 0x00;
    rom
}

#[test]
fn load_rejects_a_truncated_header() {
    let rom = vec![0u8; 0x100];
    let r = Memory::new(&rom);
    assert_eq!(r.err(), Some(LoadError::TruncatedHeader));
}

#[test]
fn load_rejects_an_unsupported_cartridge_type() {
    let mut rom = plain_rom();
    rom[0x147] = 0x01;
    let r = Memory::new(&rom);
    assert_eq!(r.err(), Some(LoadError::UnsupportedCartridgeType));
}

#[test]
fn load_places_both_rom_banks() {
    let mut rom = plain_rom();
    rom[0x0000] = 0xAA;
    rom[0x3FFF] = 0xBB;
    rom[0x4000] = 0xCC;
    rom[0x7FFF] = 0xDD;
    let mem = Memory::new(&rom).unwrap();
    assert_eq!(mem.read(0x0000), 0xAA);
    assert_eq!(mem.read(0x3FFF), 0xBB);
    assert_eq!(mem.read(0x4000), 0xCC);
    assert_eq!(mem.read(0x7FFF), 0xDD);
}

#[test]
fn load_zero_pads_a_short_image() {
    let mut rom = vec![0u8; 0x150];
    rom[0x147] = 0x00;
    let mem = Memory::new(&rom).unwrap();
    assert_eq!(mem.read(0x3FFF), 0x00);
    assert_eq!(mem.read(0x7FFF), 0x00);
}

#[test]
fn echo_write_reads_back_through_wram() {
    let mut mem = Memory::new(&plain_rom()).unwrap();
    mem.write(0xE000 + 5, 0x7F);
    assert_eq!(mem.read(0xC005), 0x7F);
    mem.write(0xC123, 0x55);
    assert_eq!(mem.read(0xE123), 0x55);
}

#[test]
fn echo_alias_covers_the_switchable_window_too() {
    let mut mem = Memory::new(&plain_rom()).unwrap();
    mem.write(0xFDFF, 0x99);
    assert_eq!(mem.read(0xDDFF), 0x99);
    mem.write(0xD321, 0x44);
    assert_eq!(mem.read(0xF321), 0x44);
}

#[test]
fn regions_hold_their_bytes() {
    let mut mem = Memory::new(&plain_rom()).unwrap();
    mem.write(0x8000, 0x11); // VRAM
    mem.write(0xA000, 0x22); // external RAM
    mem.write(0xC000, 0x33); // fixed WRAM
    mem.write(0xD000, 0x44); // switchable WRAM
    mem.write(0xFE00, 0x55); // OAM
    mem.write(0xFF00, 0x66); // I/O block
    mem.write(0xFF80, 0x77); // HRAM
    mem.write(0xFFFF, 0x88); // IE byte
    assert_eq!(mem.read(0x8000), 0x11);
    assert_eq!(mem.read(0xA000), 0x22);
    assert_eq!(mem.read(0xC000), 0x33);
    assert_eq!(mem.read(0xD000), 0x44);
    assert_eq!(mem.read(0xFE00), 0x55);
    assert_eq!(mem.read(0xFF00), 0x66);
    assert_eq!(mem.read(0xFF80), 0x77);
    assert_eq!(mem.read(0xFFFF), 0x88);
}

#[test]
fn unmapped_gap_reads_a_constant_and_drops_writes() {
    let mut mem = Memory::new(&plain_rom()).unwrap();
    assert_eq!(mem.read(0xFEA0), 0xFF);
    mem.write(0xFEA0, 0x12);
    assert_eq!(mem.read(0xFEA0), 0xFF);
    assert_eq!(mem.read(0xFEFF), 0xFF);
}

#[test]
fn mbc0_reads_and_writes_both_windows() {
    let mut m = MBC0::new();
    m.write(0x4000, 0x12);
    assert_eq!(m.read(0x4000), 0x12);
    m.write(0xA000, 0x34);
    assert_eq!(m.read(0xA000), 0x34);
}

#[test]
fn mbc0_doubles_are_little_endian() {
    let mut m = MBC0::new();
    m.write_double(0x4100, 0xBEEF);
    assert_eq!(m.read(0x4100), 0xEF);
    assert_eq!(m.read(0x4101), 0xBE);
    assert_eq!(m.read_double(0x4100), 0xBEEF);
    m.write_double(0xA010, 0x1234);
    assert_eq!(m.read(0xA010), 0x34);
    assert_eq!(m.read(0xA011), 0x12);
    assert_eq!(m.read_double(0xA010), 0x1234);
}
