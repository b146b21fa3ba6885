use vstd::prelude::*;

use crate::cartridge_data::CartridgeData;
use crate::cartridge_header::{
    CartridgeHeader, Mirroring, CHR_RAM_PAGE_SIZE, CHR_ROM_PAGE_SIZE, HEADER_SIZE,
    PRG_RAM_PAGE_SIZE, PRG_ROM_PAGE_SIZE,
};
use crate::mapper::Mapper;
use crate::mapper000::Mapper000;

verus! {

/// Why an iNES image was refused.
#[derive(Clone, Copy, Debug, PartialEq, Eq, Structural)]
pub enum RomError {
    /// The header is cut short, or promises more ROM than the file holds,
    /// or a PRG-ROM size that the board cannot map.
    BadRom,
    /// The header names a board other than mapper 0.
    UnsupportedMapper(u8),
}

/// Mapper number of an iNES header: low nibble from byte 6, high nibble from byte 7.
pub open spec fn header_mapper(d: Seq<u8>) -> u8 {
    ((d[6] >> 4u8) & 0x0F) | (d[7] & 0xF0)
}

/// PRG-RAM pages named by byte 8, where 0 stands for one page.
pub open spec fn header_prg_ram_pages(d: Seq<u8>) -> nat {
    if d[8] == 0 { 1 } else { d[8] as nat }
}

/// Length of the header and of the two ROM images that it announces.
pub open spec fn image_len(d: Seq<u8>) -> int {
    HEADER_SIZE + d[4] * PRG_ROM_PAGE_SIZE + d[5] * CHR_ROM_PAGE_SIZE
}

/// The outcome of reading an iNES image, as the cartridge constructor reports it.
pub open spec fn rom_check(d: Seq<u8>) -> Result<(), RomError> {
    if d.len() < HEADER_SIZE {
        Err(RomError::BadRom)
    } else if header_mapper(d) != 0 {
        Err(RomError::UnsupportedMapper(header_mapper(d)))
    } else if d[4] != 1 && d[4] != 2 {
        Err(RomError::BadRom)
    } else if d.len() < image_len(d) {
        Err(RomError::BadRom)
    } else {
        Ok(())
    }
}

/// A cartridge: its header, its memories and the board that maps addresses into them.
pub struct Cartridge {
    pub header: CartridgeHeader,
    pub data: CartridgeData,
    pub mapper: Mapper000,
}

impl Cartridge {
    /// The memories have the sizes that the header gives, and the board is mapper 0
    /// with one or two PRG-ROM pages.
    pub open spec fn wf(&self) -> bool {
        &&& self.mapper.header == self.header
        &&& self.header.mapper_number == 0
        &&& (self.header.prg_rom_pages == 1 || self.header.prg_rom_pages == 2)
        &&& self.header.chr_rom_pages <= 0xFF
        &&& self.header.prg_ram_pages <= 0xFF
        &&& self.data.prg_rom@.len() == self.header.prg_rom_pages * PRG_ROM_PAGE_SIZE
        &&& self.data.chr_rom@.len() == self.header.chr_rom_pages * CHR_ROM_PAGE_SIZE
        &&& self.data.prg_ram@.len() == self.header.prg_ram_pages * PRG_RAM_PAGE_SIZE
        &&& self.data.chr_ram@.len() == (if self.header.chr_rom_pages == 0 {
            CHR_RAM_PAGE_SIZE
        } else {
            0
        })
    }

    /// The cartridge answers CPU accesses at `addr`.
    pub open spec fn owns_cpu(&self, addr: u16) -> bool {
        self.mapper.owns_cpu(addr)
    }

    /// The cartridge answers PPU accesses at `addr`.
    pub open spec fn owns_ppu(&self, addr: u16) -> bool {
        self.mapper.owns_ppu(addr)
    }

    /// The byte that a CPU read of `addr` returns.
    pub open spec fn cpu_peek(&self, addr: u16) -> u8 {
        self.data.prg_rom@[self.mapper.prg_offset(addr) as int]
    }

    /// CHR memory as the PPU sees it: CHR-ROM where there is some, else CHR-RAM.
    pub open spec fn chr(&self) -> Seq<u8> {
        if self.header.chr_rom_pages == 0 { self.data.chr_ram@ } else { self.data.chr_rom@ }
    }

    /// Reads an iNES image: a 16-byte header, then PRG-ROM, then CHR-ROM.
    pub fn new(data: &[u8]) -> (r: Result<Self, RomError>)
        ensures
            r is Err <==> rom_check(data@) is Err,
            r is Err ==> r == Err::<Self, RomError>(rom_check(data@)->Err_0),
            r matches Ok(c) ==> {
                &&& c.wf()
                &&& c.header.mapper_number == header_mapper(data@)
                &&& c.header.prg_rom_pages == data@[4]
                &&& c.header.chr_rom_pages == data@[5]
                &&& c.header.prg_ram_pages == header_prg_ram_pages(data@)
                &&& c.header.mirroring == (if data@[6] & 1 == 0 {
                    Mirroring::Horizontal
                } else {
                    Mirroring::Vertical
                })
                &&& c.data.prg_rom@ == data@.subrange(
                    HEADER_SIZE as int,
                    HEADER_SIZE + data@[4] * PRG_ROM_PAGE_SIZE,
                )
                &&& c.data.chr_rom@ == data@.subrange(
                    HEADER_SIZE + data@[4] * PRG_ROM_PAGE_SIZE,
                    image_len(data@),
                )
                &&& forall|i: int| 0 <= i < c.data.prg_ram@.len() ==> c.data.prg_ram@[i] == 0
                &&& forall|i: int| 0 <= i < c.data.chr_ram@.len() ==> c.data.chr_ram@[i] == 0
            },
    {
        if data.len() < HEADER_SIZE {
            return Err(RomError::BadRom);
        }
        let mapper_number: u8 = ((data[6] >> 4u8) & 0x0F) | (data[7] & 0xF0);
        if mapper_number != 0 {
            return Err(RomError::UnsupportedMapper(mapper_number));
        }
        if data[4] != 1 && data[4] != 2 {
            return Err(RomError::BadRom);
        }
        let prg_ram_pages: usize = if data[8] == 0 { 1 } else { data[8] as usize };
        let mirroring = if data[6] & 1 == 0 { Mirroring::Horizontal } else { Mirroring::Vertical };
        let header = CartridgeHeader::new(
            mapper_number,
            mirroring,
            data[4] as usize,
            prg_ram_pages,
            data[5] as usize,
        );
        let prg = header.prg_rom_range();
        let chr = header.chr_rom_range();
        if data.len() < chr.end {
            return Err(RomError::BadRom);
        }
        let prg_rom = copy_range(data, prg.start, prg.end);
        let chr_rom = copy_range(data, chr.start, chr.end);
        let prg_ram = zeroed(header.prg_ram_bytes());
        let chr_ram = zeroed(header.chr_ram_bytes());
        let cart_data = CartridgeData::new(prg_rom, prg_ram, chr_rom, chr_ram);
        Ok(Cartridge { header, data: cart_data, mapper: Mapper000::new(header) })
    }

    pub fn can_cpu_read(&self, addr: u16) -> (r: bool)
        ensures
            r == self.owns_cpu(addr),
    {
        self.mapper.can_cpu_read(addr)
    }

    pub fn can_ppu_read(&self, addr: u16) -> (r: bool)
        ensures
            r == self.owns_ppu(addr),
    {
        self.mapper.can_ppu_read(addr)
    }

    pub fn cpu_read(&self, addr: u16) -> (r: u8)
        requires
            self.wf(),
            self.owns_cpu(addr),
        ensures
            r == self.cpu_peek(addr),
    {
        let mapped = self.mapper.map_prg_read(addr);
        proof {
            lemma_prg_offset_in_bounds(addr, self.header.prg_rom_pages);
        }
        self.data.prg_rom[mapped as usize]
    }

    /// A CPU write into the PRG window lands in PRG memory at the mapped offset.
    pub fn cpu_write(&mut self, addr: u16, value: u8)
        requires
            old(self).wf(),
            old(self).owns_cpu(addr),
        ensures
            final(self).wf(),
            final(self).header == old(self).header,
            final(self).mapper == old(self).mapper,
            final(self).data.prg_rom@ == old(self).data.prg_rom@.update(
                old(self).mapper.prg_offset(addr) as int,
                value,
            ),
            final(self).data.prg_ram@ == old(self).data.prg_ram@,
            final(self).data.chr_rom@ == old(self).data.chr_rom@,
            final(self).data.chr_ram@ == old(self).data.chr_ram@,
    {
        let mapped = self.mapper.map_prg_write(addr);
        proof {
            lemma_prg_offset_in_bounds(addr, self.header.prg_rom_pages);
        }
        self.data.prg_rom.set(mapped as usize, value);
    }

    pub fn ppu_read(&self, addr: u16) -> (r: u8)
        requires
            self.wf(),
            self.owns_ppu(addr),
        ensures
            r == self.chr()[addr as int],
    {
        let mapped = self.mapper.map_chr_read(addr);
        match mapped {
            Some(offset) => {
                if self.header.chr_rom_pages == 0 {
                    self.data.chr_ram[offset as usize]
                } else {
                    self.data.chr_rom[offset as usize]
                }
            },
            None => 0,
        }
    }

    /// A PPU write reaches CHR-RAM; on a cartridge with CHR-ROM it is dropped.
    pub fn ppu_write(&mut self, addr: u16, value: u8)
        requires
            old(self).wf(),
            old(self).owns_ppu(addr),
        ensures
            final(self).wf(),
            final(self).header == old(self).header,
            final(self).mapper == old(self).mapper,
            final(self).data.prg_rom@ == old(self).data.prg_rom@,
            final(self).data.prg_ram@ == old(self).data.prg_ram@,
            final(self).data.chr_rom@ == old(self).data.chr_rom@,
            final(self).data.chr_ram@ == (if old(self).header.chr_rom_pages == 0 {
                old(self).data.chr_ram@.update(addr as int, value)
            } else {
                old(self).data.chr_ram@
            }),
    {
        match self.mapper.map_chr_write(addr) {
            Some(offset) => {
                self.data.chr_ram.set(offset as usize, value);
            },
            None => {},
        }
    }
}

/// The PRG offset of any address stays inside the PRG-ROM of one or two pages.
proof fn lemma_prg_offset_in_bounds(addr: u16, pages: usize)
    requires
        pages == 1 || pages == 2,
    ensures
        (addr & (if pages > 1 { 0x7FFFu16 } else { 0x3FFFu16 })) < pages * PRG_ROM_PAGE_SIZE,
{
    assert(addr & 0x7FFFu16 < 0x8000) by (bit_vector);
    assert(addr & 0x3FFFu16 < 0x4000) by (bit_vector);
}

/// Every CPU address maps inside the PRG-ROM of a well-formed cartridge.
pub proof fn lemma_prg_offsets(c: &Cartridge)
    requires
        c.wf(),
    ensures
        forall|a: u16| (#[trigger] c.mapper.prg_offset(a) as int) < c.data.prg_rom@.len(),
{
    assert forall|a: u16| (#[trigger] c.mapper.prg_offset(a) as int) < c.data.prg_rom@.len() by {
        lemma_prg_offset_in_bounds(a, c.header.prg_rom_pages);
    }
}

/// A copy of `data[start..end]`.
fn copy_range(data: &[u8], start: usize, end: usize) -> (r: Vec<u8>)
    requires
        start <= end <= data@.len(),
    ensures
        r@ == data@.subrange(start as int, end as int),
{
    let mut out: Vec<u8> = Vec::new();
    let mut i: usize = start;
    while i < end
        invariant
            start <= i <= end <= data@.len(),
            out@ == data@.subrange(start as int, i as int),
        decreases end - i,
    {
        out.push(data[i]);
        i = i + 1;
    }
    out
}

/// A buffer of `len` zero bytes.
fn zeroed(len: usize) -> (r: Vec<u8>)
    ensures
        r@.len() == len,
        forall|i: int| 0 <= i < len ==> r@[i] == 0,
{
    let mut out: Vec<u8> = Vec::new();
    while out.len() < len
        invariant
            out@.len() <= len,
            forall|i: int| 0 <= i < out@.len() ==> out@[i] == 0,
        decreases len - out@.len(),
    {
        out.push(0);
    }
    out
}

} // verus!
