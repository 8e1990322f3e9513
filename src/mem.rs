//! The memory bus: decodes 24-bit bank:offset addresses into work RAM, cartridge
//! ROM and regions that are not emulated.
use vstd::prelude::*;

use crate::rom::{Rom, ROM_LEN};

verus! {

/// Size in bytes of work RAM (128 KiB).
pub const RAM_LEN: usize = 0x20000;

/// Where an address leads.
#[derive(Clone, Copy, Debug, PartialEq, Eq)]
pub enum Region {
    /// Work RAM, at `index`.
    Ram { index: u32 },
    /// Cartridge ROM, at `index`; writes there are discarded.
    Rom { index: u32 },
    /// The CPU's I/O window, not emulated.
    IoPorts,
    /// Cartridge save RAM, not emulated.
    SaveRam,
    /// Video and audio hardware registers, not emulated.
    HardwareRegisters,
    /// Nothing answers.
    OpenBus,
}

/// Why a bus access failed.
#[derive(Clone, Copy, Debug, PartialEq, Eq)]
pub enum BusFault {
    /// The address decodes to no region.
    Unmapped { address: u32 },
    /// The address falls in a hardware region that is not emulated.
    Reserved { address: u32 },
}

/// The bank: bits 16 to 23 of the address.
pub open spec fn bank_of(addr: u32) -> int {
    addr as int / 0x10000 % 0x100
}

/// The offset within the bank: the low 16 bits of the address.
pub open spec fn offset_of(addr: u32) -> int {
    addr as int % 0x10000
}

/// Banks 0x00-0x3f and 0x80-0xbf, which mirror low RAM and the hardware windows.
pub open spec fn is_system_bank(bank: int) -> bool {
    bank <= 0x3f || 0x80 <= bank <= 0xbf
}

/// The decoding table, first match first.
pub open spec fn region_of(addr: u32) -> Region {
    let bank = bank_of(addr);
    let offset = offset_of(addr);
    if 0x7e <= bank <= 0x7f {
        Region::Ram { index: (offset + bank % 2 * 0x10000) as u32 }
    } else if is_system_bank(bank) && 0x4000 <= offset <= 0x4fff {
        Region::IoPorts
    } else if is_system_bank(bank) && offset <= 0x1fff {
        Region::Ram { index: offset as u32 }
    } else if (0x70 <= bank <= 0x7d || 0xf0 <= bank) && offset <= 0x7fff {
        Region::SaveRam
    } else if (bank <= 0x7d || 0x80 <= bank) && 0x8000 <= offset {
        Region::Rom { index: (offset % 0x8000 + bank % 0x10 * 0x8000) as u32 }
    } else if is_system_bank(bank) && 0x2000 <= offset <= 0x2fff {
        Region::HardwareRegisters
    } else {
        Region::OpenBus
    }
}

/// The fault for an access to `addr`, which decodes to neither RAM nor ROM.
pub open spec fn fault_at(addr: u32) -> BusFault {
    if region_of(addr) == Region::OpenBus {
        BusFault::Unmapped { address: addr }
    } else {
        BusFault::Reserved { address: addr }
    }
}

/// The address after `addr` in the 24-bit address space.
pub open spec fn next_address(addr: u32) -> u32 {
    ((addr as int % 0x1000000 + 1) % 0x1000000) as u32
}

/// Decodes `addr` by the bus's table.
pub fn region(addr: u32) -> (r: Region)
    ensures
        r == region_of(addr),
{
    let bank = (addr / 0x10000 % 0x100) as u8;
    let offset = (addr % 0x10000) as u16;
    let system = bank <= 0x3f || (0x80 <= bank && bank <= 0xbf);
    if 0x7e <= bank && bank <= 0x7f {
        Region::Ram { index: offset as u32 + (bank as u32 % 2) * 0x10000 }
    } else if system && 0x4000 <= offset && offset <= 0x4fff {
        Region::IoPorts
    } else if system && offset <= 0x1fff {
        Region::Ram { index: offset as u32 }
    } else if ((0x70 <= bank && bank <= 0x7d) || 0xf0 <= bank) && offset <= 0x7fff {
        Region::SaveRam
    } else if (bank <= 0x7d || 0x80 <= bank) && 0x8000 <= offset {
        Region::Rom { index: offset as u32 % 0x8000 + (bank as u32 % 0x10) * 0x8000 }
    } else if system && 0x2000 <= offset && offset <= 0x2fff {
        Region::HardwareRegisters
    } else {
        Region::OpenBus
    }
}

/// Every RAM index that the table gives is inside work RAM, and every ROM index
/// inside the image.
pub proof fn lemma_region_in_bounds(addr: u32)
    ensures
        region_of(addr) matches Region::Ram { index } ==> index < RAM_LEN,
        region_of(addr) matches Region::Rom { index } ==> index < ROM_LEN,
{
}

/// Banks 0x7e and 0x7f are the two halves of work RAM: one offset in each
/// reaches two cells exactly 0x10000 apart.
pub proof fn lemma_work_ram_banks(offset: u32)
    requires
        offset < 0x10000,
    ensures
        region_of((0x7e0000 + offset) as u32) == (Region::Ram { index: offset }),
        region_of((0x7f0000 + offset) as u32) == (Region::Ram { index: (offset + 0x10000) as u32 }),
{
}

/// Work RAM and the cartridge image, as the CPU sees them through the bus.
pub struct Mem {
    ram: Vec<u8>,
    rom: Rom,
}

impl Mem {
    #[verifier::type_invariant]
    spec fn inv(self) -> bool {
        self.ram@.len() == RAM_LEN
    }

    /// Contents of work RAM.
    pub closed spec fn ram(&self) -> Seq<u8> {
        self.ram@
    }

    /// Contents of the cartridge image.
    pub closed spec fn rom(&self) -> Seq<u8> {
        self.rom@
    }

    /// What a read of `addr` gives.
    pub open spec fn read_spec(&self, addr: u32) -> Result<u8, BusFault> {
        match region_of(addr) {
            Region::Ram { index } => Ok(self.ram()[index as int]),
            Region::Rom { index } => Ok(self.rom()[index as int]),
            _ => Err(fault_at(addr)),
        }
    }

    /// What a little-endian 16-bit read of `addr` gives.
    pub open spec fn read16_spec(&self, addr: u32) -> Result<u16, BusFault> {
        match self.read_spec(addr) {
            Err(e) => Err(e),
            Ok(lo) => match self.read_spec(next_address(addr)) {
                Err(e) => Err(e),
                Ok(hi) => Ok((hi as int * 0x100 + lo as int) as u16),
            },
        }
    }

    /// A bus over zeroed work RAM and `rom`.
    pub fn new(rom: Rom) -> (m: Mem)
        ensures
            m.ram() == Seq::new(RAM_LEN as nat, |i: int| 0u8),
            m.rom() == rom@,
    {
        let ram = vec![0u8; RAM_LEN];
        let m = Mem { ram, rom };
        assert(m.ram() =~= Seq::new(RAM_LEN as nat, |i: int| 0u8));
        m
    }

    /// Reads the byte at `addr`.
    pub fn read(&self, addr: u32) -> (r: Result<u8, BusFault>)
        ensures
            r == self.read_spec(addr),
    {
        proof {
            use_type_invariant(self);
            lemma_region_in_bounds(addr);
        }
        match region(addr) {
            Region::Ram { index } => Ok(self.ram[index as usize]),
            Region::Rom { index } => Ok(self.rom.byte(index as usize)),
            Region::OpenBus => Err(BusFault::Unmapped { address: addr }),
            _ => Err(BusFault::Reserved { address: addr }),
        }
    }

    /// Writes `value` at `addr`. RAM takes it; ROM discards it; any other
    /// region faults and nothing changes.
    pub fn write(&mut self, addr: u32, value: u8) -> (r: Result<(), BusFault>)
        ensures
            final(self).rom() == old(self).rom(),
            match region_of(addr) {
                Region::Ram { index } => r is Ok && final(self).ram() == old(self).ram().update(
                    index as int,
                    value,
                ),
                Region::Rom { .. } => r is Ok && final(self).ram() == old(self).ram(),
                _ => r == Err::<(), BusFault>(fault_at(addr)) && final(self).ram() == old(
                    self,
                ).ram(),
            },
    {
        proof {
            use_type_invariant(&*self);
            lemma_region_in_bounds(addr);
        }
        match region(addr) {
            Region::Ram { index } => {
                self.ram[index as usize] = value;
                Ok(())
            },
            Region::Rom { .. } => Ok(()),
            Region::OpenBus => Err(BusFault::Unmapped { address: addr }),
            _ => Err(BusFault::Reserved { address: addr }),
        }
    }

    /// Reads the little-endian 16-bit value at `addr`; the high byte comes from
    /// the next address, wrapping within the 24-bit space.
    pub fn read16(&self, addr: u32) -> (r: Result<u16, BusFault>)
        ensures
            r == self.read16_spec(addr),
    {
        let lo = self.read(addr)?;
        let next = ((addr % 0x1000000) + 1) % 0x1000000;
        let hi = self.read(next)?;
        Ok((hi as u16) * 0x100 + lo as u16)
    }
}

} // verus!
