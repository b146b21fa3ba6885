use vstd::prelude::*;

verus! {

/// Address mapping of a cartridge board: which addresses it answers for,
/// and where in its ROM or RAM images an address lands.
pub trait Mapper: Sized {
    /// The board answers CPU accesses at `address`.
    spec fn owns_cpu(&self, address: u16) -> bool;

    /// The board answers PPU accesses at `address`.
    spec fn owns_ppu(&self, address: u16) -> bool;

    /// Offset into PRG memory that a CPU access at `address` reaches.
    spec fn prg_offset(&self, address: u16) -> u16;

    /// Offset into CHR memory of a PPU access at `address`, where one exists.
    spec fn chr_offset(&self, address: u16) -> Option<u16>;

    /// Whether CHR memory accepts writes.
    spec fn chr_writable(&self) -> bool;

    fn map_prg_read(&self, address: u16) -> (r: u16)
        ensures
            r == self.prg_offset(address),
    ;

    fn map_prg_write(&mut self, address: u16) -> (r: u16)
        ensures
            r == old(self).prg_offset(address),
            *final(self) == *old(self),
    ;

    fn map_chr_read(&self, address: u16) -> (r: Option<u16>)
        ensures
            r == self.chr_offset(address),
    ;

    /// The offset that a CHR write reaches; `None` where the write is dropped.
    fn map_chr_write(&mut self, address: u16) -> (r: Option<u16>)
        ensures
            r == (if old(self).chr_writable() { old(self).chr_offset(address) } else { None }),
            *final(self) == *old(self),
    ;

    fn irq_flag(&self) -> (r: bool)
        ensures
            !r,
    {
        false
    }

    fn can_cpu_read(&self, address: u16) -> (r: bool)
        ensures
            r == self.owns_cpu(address),
    ;

    fn can_ppu_read(&self, address: u16) -> (r: bool)
        ensures
            r == self.owns_ppu(address),
    ;
}

} // verus!
