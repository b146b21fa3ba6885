use vstd::prelude::*;

use crate::cartridge::{lemma_prg_offsets, Cartridge};
use crate::mapper::Mapper;

verus! {

/// Bytes of system RAM; the RAM is mirrored every `MEM_SIZE` bytes below 0x2000.
pub const MEM_SIZE: usize = 2048;

/// The CPU's address space: 2 KiB of RAM, the PPU and APU register windows,
/// and the cartridge.
pub struct BUS {
    pub memory: [u8; MEM_SIZE],
    pub cartridge: Option<Cartridge>,
    pub system_clock_count: usize,
}

/// Index into system RAM of an address below 0x2000.
pub open spec fn ram_index(addr: u16) -> int {
    (addr & 0x07FF) as int
}

/// Every address below 0x2000 lands inside RAM.
pub proof fn lemma_ram_index_bound()
    ensures
        forall|a: u16| 0 <= #[trigger] ram_index(a) < MEM_SIZE,
{
    assert(forall|a: u16| (#[trigger] (a & 0x07FFu16)) < 0x0800u16) by (bit_vector);
}

impl BUS {
    /// The cartridge, where one is inserted, is well formed.
    pub open spec fn wf(&self) -> bool {
        self.cartridge matches Some(c) ==> c.wf()
    }

    /// The cartridge claims `addr`.
    pub open spec fn cart_owns(&self, addr: u16) -> bool {
        self.cartridge matches Some(c) && c.owns_cpu(addr)
    }

    /// The byte that a CPU read of `addr` yields.
    pub open spec fn peek(&self, addr: u16) -> u8 {
        if self.cart_owns(addr) {
            self.cartridge->0.cpu_peek(addr)
        } else if addr <= 0x1FFF {
            self.memory@[ram_index(addr)]
        } else {
            0
        }
    }

    /// A write of `addr` reaches the cell that a read of `other` reads.
    pub open spec fn aliases(&self, addr: u16, other: u16) -> bool {
        if self.cart_owns(addr) {
            self.cart_owns(other) && self.cartridge->0.mapper.prg_offset(addr)
                == self.cartridge->0.mapper.prg_offset(other)
        } else if addr <= 0x1FFF {
            !self.cart_owns(other) && other <= 0x1FFF && ram_index(addr) == ram_index(other)
        } else {
            false
        }
    }

    /// `new` is this bus after the CPU wrote `value` at `addr`.
    pub open spec fn written(&self, addr: u16, value: u8, new: BUS) -> bool {
        &&& new.system_clock_count == self.system_clock_count
        &&& if self.cart_owns(addr) {
            &&& new.memory == self.memory
            &&& new.cartridge matches Some(c) && {
                let o = self.cartridge->0;
                &&& c.header == o.header
                &&& c.mapper == o.mapper
                &&& c.data.prg_rom@ == o.data.prg_rom@.update(o.mapper.prg_offset(addr) as int, value)
                &&& c.data.prg_ram@ == o.data.prg_ram@
                &&& c.data.chr_rom@ == o.data.chr_rom@
                &&& c.data.chr_ram@ == o.data.chr_ram@
            }
        } else if addr <= 0x1FFF {
            &&& new.memory@ == self.memory@.update(ram_index(addr), value)
            &&& new.cartridge == self.cartridge
        } else {
            new == *self
        }
    }

    pub fn new() -> (r: Self)
        ensures
            r.wf(),
            r.cartridge is None,
            r.system_clock_count == 0,
            forall|i: int| 0 <= i < MEM_SIZE ==> r.memory@[i] == 0,
    {
        BUS { memory: [0u8; MEM_SIZE], cartridge: None, system_clock_count: 0 }
    }

    pub fn read(&mut self, addr: u16) -> (r: u8)
        requires
            old(self).wf(),
        ensures
            r == old(self).peek(addr),
            *final(self) == *old(self),
    {
        let claimed = match &self.cartridge {
            Some(c) => c.can_cpu_read(addr),
            None => false,
        };
        if claimed {
            match &self.cartridge {
                Some(c) => c.cpu_read(addr),
                None => 0,
            }
        } else if addr <= 0x1FFF {
            proof {
                assert(addr & 0x07FF < 0x0800) by (bit_vector);
            }
            self.memory[(addr & 0x07FF) as usize]
        } else {
            // PPU registers, APU and I/O registers: not modelled, read as 0.
            0
        }
    }

    pub fn write(&mut self, addr: u16, data: u8)
        requires
            old(self).wf(),
        ensures
            final(self).wf(),
            old(self).written(addr, data, *final(self)),
            forall|a: u16|
                #[trigger] final(self).peek(a) == if old(self).aliases(addr, a) {
                    data
                } else {
                    old(self).peek(a)
                },
    {
        let claimed = match &self.cartridge {
            Some(c) => c.can_cpu_read(addr),
            None => false,
        };
        proof {
            lemma_ram_index_bound();
        }
        if claimed {
            match &mut self.cartridge {
                Some(c) => {
                    proof {
                        lemma_prg_offsets(c);
                    }
                    c.cpu_write(addr, data);
                },
                None => {},
            }
        } else if addr <= 0x1FFF {
            proof {
                assert(addr & 0x07FF < 0x0800) by (bit_vector);
            }
            self.memory[(addr & 0x07FF) as usize] = data;
        } else {
            // PPU registers, APU and I/O registers: not modelled, writes are dropped.
        }
    }
}

} // verus!
