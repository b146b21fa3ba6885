use vstd::prelude::*;

use crate::cartridge_header::CartridgeHeader;
use crate::mapper::Mapper;

verus! {

/// The ROM-only board (iNES mapper 0): no registers, one or two PRG-ROM pages.
pub struct Mapper000 {
    pub header: CartridgeHeader,
}

impl Mapper000 {
    pub fn new(header: CartridgeHeader) -> (r: Self)
        ensures
            r.header == header,
    {
        Mapper000 { header }
    }

    /// The PRG window mask: a single 16 KiB page is mirrored over the upper 32 KiB.
    pub open spec fn prg_mask(&self) -> u16 {
        if self.header.prg_rom_pages > 1 { 0x7FFF } else { 0x3FFF }
    }
}

impl Mapper for Mapper000 {
    open spec fn owns_cpu(&self, address: u16) -> bool {
        address >= 0x6000
    }

    open spec fn owns_ppu(&self, address: u16) -> bool {
        address <= 0x1FFF
    }

    open spec fn prg_offset(&self, address: u16) -> u16 {
        address & self.prg_mask()
    }

    open spec fn chr_offset(&self, address: u16) -> Option<u16> {
        if address <= 0x1FFF { Some(address) } else { None }
    }

    open spec fn chr_writable(&self) -> bool {
        self.header.chr_rom_pages == 0
    }

    fn map_prg_read(&self, address: u16) -> (r: u16) {
        let mask: u16 = if self.header.prg_rom_pages > 1 { 0x7FFF } else { 0x3FFF };
        address & mask
    }

    fn map_prg_write(&mut self, address: u16) -> (r: u16) {
        self.map_prg_read(address)
    }

    fn map_chr_read(&self, address: u16) -> (r: Option<u16>) {
        if address > 0x1FFF {
            None
        } else {
            Some(address)
        }
    }

    fn map_chr_write(&mut self, address: u16) -> (r: Option<u16>) {
        if self.header.chr_rom_pages != 0 {
            None
        } else {
            self.map_chr_read(address)
        }
    }

    fn irq_flag(&self) -> (r: bool) {
        false
    }

    fn can_cpu_read(&self, address: u16) -> (r: bool) {
        address >= 0x6000
    }

    fn can_ppu_read(&self, address: u16) -> (r: bool) {
        address <= 0x1FFF
    }
}

} // verus!
