use vstd::prelude::*;

verus! {

/// The memories of a cartridge.
pub struct CartridgeData {
    pub prg_rom: Vec<u8>,
    pub prg_ram: Vec<u8>,
    pub chr_rom: Vec<u8>,
    pub chr_ram: Vec<u8>,
}

impl CartridgeData {
    pub fn new(prg_rom: Vec<u8>, prg_ram: Vec<u8>, chr_rom: Vec<u8>, chr_ram: Vec<u8>) -> (r: Self)
        ensures
            r.prg_rom@ == prg_rom@,
            r.prg_ram@ == prg_ram@,
            r.chr_rom@ == chr_rom@,
            r.chr_ram@ == chr_ram@,
    {
        CartridgeData { prg_rom, prg_ram, chr_rom, chr_ram }
    }
}

} // verus!
