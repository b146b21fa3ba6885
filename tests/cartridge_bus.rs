use nes_cpu::bus::BUS;
use nes_cpu::cartridge::{Cartridge, RomError};
use nes_cpu::cartridge_header::{CartridgeHeader, Mirroring};
use nes_cpu::cpu::{low_byte, Interrupt, CPU};

fn ines(prg_pages: u8, chr_pages: u8, flags6: u8, flags7: u8) -> Vec<u8> {
    let mut d = vec![0x4E, 0x45, 0x53, 0x1A, prg_pages, chr_pages, flags6, flags7];
    d.resize(16, 0);
    for i in 0..(prg_pages as usize * 0x4000) {
        d.push((i % 251) as u8);
    }
    for i in 0..(chr_pages as usize * 0x2000) {
        d.push((i % 13) as u8);
    }
    d
}

#[test]
fn header_sizes() {
    let h = CartridgeHeader::new(0, Mirroring::Vertical, 2, 1, 1);
    assert_eq!(h.prg_rom_bytes(), 0x8000);
    assert_eq!(h.prg_ram_bytes(), 0x2000);
    assert_eq!(h.chr_rom_bytes(), 0x2000);
    assert_eq!(h.chr_ram_bytes(), 0);
    assert_eq!(h.prg_rom_range(), 16..16 + 0x8000);
    assert_eq!(h.chr_rom_range(), 16 + 0x8000..16 + 0xA000);
    let h = CartridgeHeader::new(0, Mirroring::Horizontal, 1, 1, 0);
    assert_eq!(h.chr_ram_bytes(), 0x2000);
}

#[test]
fn cartridge_parses_header() {
    let c = Cartridge::new(&ines(1, 1, 0x01, 0x00)).unwrap();
    assert_eq!(c.header.prg_rom_pages, 1);
    assert_eq!(c.header.chr_rom_pages, 1);
    assert_eq!(c.header.prg_ram_pages, 1);
    assert_eq!(c.header.mapper_number, 0);
    assert_eq!(c.header.mirroring, Mirroring::Vertical);
    assert_eq!(c.data.prg_rom.len(), 0x4000);
    assert_eq!(c.data.chr_ram.len(), 0);
    let c = Cartridge::new(&ines(2, 0, 0x00, 0x00)).unwrap();
    assert_eq!(c.header.mirroring, Mirroring::Horizontal);
    assert_eq!(c.data.chr_ram.len(), 0x2000);
}

#[test]
fn cartridge_rejects_short_header() {
    assert!(matches!(Cartridge::new(&[0x4E, 0x45, 0x53]), Err(RomError::BadRom)));
}

#[test]
fn cartridge_rejects_other_mappers() {
    assert!(matches!(
        Cartridge::new(&ines(1, 1, 0x10, 0x00)),
        Err(RomError::UnsupportedMapper(1))
    ));
    assert!(matches!(
        Cartridge::new(&ines(1, 1, 0x40, 0x10)),
        Err(RomError::UnsupportedMapper(0x14))
    ));
}

#[test]
fn cartridge_rejects_truncated_rom() {
    let mut d = ines(2, 1, 0, 0);
    d.truncate(d.len() - 1);
    assert!(matches!(Cartridge::new(&d), Err(RomError::BadRom)));
}

#[test]
fn cartridge_rejects_prg_size_the_board_cannot_map() {
    assert!(matches!(Cartridge::new(&ines(0, 1, 0, 0)), Err(RomError::BadRom)));
    assert!(matches!(Cartridge::new(&ines(3, 1, 0, 0)), Err(RomError::BadRom)));
}

#[test]
fn mapper000_mirrors_one_prg_page() {
    let c = Cartridge::new(&ines(1, 1, 0, 0)).unwrap();
    assert!(c.can_cpu_read(0x8000));
    assert!(c.can_cpu_read(0x6000));
    assert!(!c.can_cpu_read(0x5FFF));
    assert_eq!(c.cpu_read(0x8005), c.cpu_read(0xC005));
    assert_eq!(c.cpu_read(0x80FB), 0);
    assert_eq!(c.cpu_read(0xC001), 1);
}

#[test]
fn mapper000_maps_two_prg_pages() {
    let c = Cartridge::new(&ines(2, 1, 0, 0)).unwrap();
    assert_eq!(c.cpu_read(0xC000), (0x4000 % 251) as u8);
    assert_eq!(c.cpu_read(0x8000), 0);
}

#[test]
fn chr_rom_reads_and_ignores_writes() {
    let mut c = Cartridge::new(&ines(1, 1, 0, 0)).unwrap();
    assert!(c.can_ppu_read(0x1FFF));
    assert!(!c.can_ppu_read(0x2000));
    assert_eq!(c.ppu_read(0x0005), 5);
    c.ppu_write(0x0005, 0xEE);
    assert_eq!(c.ppu_read(0x0005), 5);
}

#[test]
fn chr_ram_accepts_writes() {
    let mut c = Cartridge::new(&ines(1, 0, 0, 0)).unwrap();
    assert_eq!(c.ppu_read(0x0100), 0);
    c.ppu_write(0x0100, 0xEE);
    assert_eq!(c.ppu_read(0x0100), 0xEE);
}

#[test]
fn bus_ram_is_mirrored() {
    let mut bus = BUS::new();
    bus.write(0x0801, 0xAB);
    assert_eq!(bus.read(0x0001), 0xAB);
    assert_eq!(bus.read(0x1801), 0xAB);
    assert_eq!(bus.memory[1], 0xAB);
}

#[test]
fn bus_register_windows_read_zero() {
    let mut bus = BUS::new();
    bus.write(0x2000, 0x55);
    assert_eq!(bus.read(0x2000), 0);
    assert_eq!(bus.read(0x4016), 0);
    assert_eq!(bus.read(0xFFFC), 0);
}

#[test]
fn bus_routes_cartridge_window() {
    let mut bus = BUS::new();
    bus.cartridge = Some(Cartridge::new(&ines(1, 1, 0, 0)).unwrap());
    assert_eq!(bus.read(0xC002), 2);
    bus.write(0xC002, 0x99);
    assert_eq!(bus.read(0x8002), 0x99);
}

#[test]
fn reset_loads_vector_from_cartridge() {
    let mut rom = ines(1, 1, 0, 0);
    rom[16 + 0x3FFC] = 0x00;
    rom[16 + 0x3FFD] = 0xC0;
    let mut bus = BUS::new();
    bus.cartridge = Some(Cartridge::new(&rom).unwrap());
    let mut cpu = CPU::new(bus);
    cpu.a = 9;
    cpu.sp = 0x10;
    cpu.interrupt(Interrupt::Reset);
    assert_eq!(cpu.pc, 0xC000);
    assert_eq!(cpu.a, 0);
    assert_eq!(cpu.sp, 0xFD);
    assert_eq!(cpu.p, 0x24);
    let mut ticks = 0;
    while !cpu.complete() {
        cpu.clock();
        ticks += 1;
    }
    assert_eq!(ticks, 8);
}

#[test]
fn low_byte_keeps_page_zero_offset() {
    assert_eq!(low_byte(0x12FF), 0x00FF);
    assert_eq!(low_byte(0x0100), 0x0000);
}
