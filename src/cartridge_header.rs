use vstd::prelude::*;

verus! {

/// Size of one PRG-ROM page in bytes.
pub const PRG_ROM_PAGE_SIZE: usize = 0x4000;

/// Size of one PRG-RAM page in bytes.
pub const PRG_RAM_PAGE_SIZE: usize = 0x2000;

/// Size of one CHR-ROM page in bytes.
pub const CHR_ROM_PAGE_SIZE: usize = 0x2000;

/// Size of the CHR-RAM buffer given to a cartridge without CHR-ROM.
pub const CHR_RAM_PAGE_SIZE: usize = 0x2000;

/// Length of the iNES header that precedes the ROM images.
pub const HEADER_SIZE: usize = 16;

/// Nametable mirroring selected by the cartridge wiring.
#[derive(Clone, Copy, Debug, PartialEq, Eq, Structural)]
pub enum Mirroring {
    Vertical,
    Horizontal,
}

/// The fields of an iNES header that the cartridge layer uses.
#[derive(Clone, Copy, Debug, PartialEq, Eq, Structural)]
pub struct CartridgeHeader {
    pub mapper_number: u8,
    pub mirroring: Mirroring,
    pub prg_rom_pages: usize,
    pub prg_ram_pages: usize,
    pub chr_rom_pages: usize,
}

impl CartridgeHeader {
    /// The byte counts of the header's images fit in `usize`, after the header itself.
    pub open spec fn sizes_fit(&self) -> bool {
        HEADER_SIZE + self.prg_rom_pages * PRG_ROM_PAGE_SIZE + self.chr_rom_pages * CHR_ROM_PAGE_SIZE
            <= usize::MAX
        && self.prg_ram_pages * PRG_RAM_PAGE_SIZE <= usize::MAX
    }

    pub fn new(
        mapper: u8,
        mirroring: Mirroring,
        prg_rom_pages: usize,
        prg_ram_pages: usize,
        chr_rom_pages: usize,
    ) -> (r: Self)
        ensures
            r.mapper_number == mapper,
            r.mirroring == mirroring,
            r.prg_rom_pages == prg_rom_pages,
            r.prg_ram_pages == prg_ram_pages,
            r.chr_rom_pages == chr_rom_pages,
    {
        CartridgeHeader { mapper_number: mapper, mirroring, prg_rom_pages, prg_ram_pages, chr_rom_pages }
    }

    /// Byte range of the PRG-ROM image inside an iNES file.
    pub fn prg_rom_range(&self) -> (r: std::ops::Range<usize>)
        requires
            self.sizes_fit(),
        ensures
            r.start == HEADER_SIZE,
            r.end == HEADER_SIZE + self.prg_rom_pages * PRG_ROM_PAGE_SIZE,
    {
        let start: usize = HEADER_SIZE;
        let end: usize = HEADER_SIZE + self.prg_rom_bytes();
        start..end
    }

    /// Byte range of the CHR-ROM image, which follows the PRG-ROM image.
    pub fn chr_rom_range(&self) -> (r: std::ops::Range<usize>)
        requires
            self.sizes_fit(),
        ensures
            r.start == HEADER_SIZE + self.prg_rom_pages * PRG_ROM_PAGE_SIZE,
            r.end == r.start + self.chr_rom_pages * CHR_ROM_PAGE_SIZE,
    {
        let prg = self.prg_rom_range();
        let end: usize = prg.end + self.chr_rom_bytes();
        prg.end..end
    }

    pub fn prg_rom_bytes(&self) -> (r: usize)
        requires
            self.sizes_fit(),
        ensures
            r == self.prg_rom_pages * PRG_ROM_PAGE_SIZE,
    {
        self.prg_rom_pages * PRG_ROM_PAGE_SIZE
    }

    pub fn prg_ram_bytes(&self) -> (r: usize)
        requires
            self.sizes_fit(),
        ensures
            r == self.prg_ram_pages * PRG_RAM_PAGE_SIZE,
    {
        self.prg_ram_pages * PRG_RAM_PAGE_SIZE
    }

    pub fn chr_rom_bytes(&self) -> (r: usize)
        requires
            self.sizes_fit(),
        ensures
            r == self.chr_rom_pages * CHR_ROM_PAGE_SIZE,
    {
        self.chr_rom_pages * CHR_ROM_PAGE_SIZE
    }

    /// CHR-RAM is provided, one page of it, exactly when there is no CHR-ROM.
    pub fn chr_ram_bytes(&self) -> (r: usize)
        ensures
            r == (if self.chr_rom_pages == 0 { CHR_RAM_PAGE_SIZE } else { 0 }),
    {
        if self.chr_rom_pages == 0 {
            CHR_RAM_PAGE_SIZE
        } else {
            0
        }
    }
}

} // verus!
