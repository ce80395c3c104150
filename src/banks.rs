use vstd::prelude::*;

use crate::header::CartridgeHeader;

verus! {

/// The byte that an address-mirrored read of `bank` returns.
pub open spec fn mirrored_get(bank: Seq<u8>, address: int) -> u8 {
    if bank.len() == 0 {
        0
    } else {
        bank[address % (bank.len() as int)]
    }
}

/// The bank after an address-mirrored write; a zero-sized bank drops the write.
pub open spec fn mirrored_set(bank: Seq<u8>, address: int, value: u8) -> Seq<u8> {
    if bank.len() == 0 {
        bank
    } else {
        bank.update(address % (bank.len() as int), value)
    }
}

/// Reads `bank[address mod len]`, or 0 from an empty bank.
pub fn mirrored_read(bank: &Vec<u8>, address: u16) -> (r: u8)
    ensures
        r == mirrored_get(bank@, address as int),
{
    if bank.len() == 0 {
        0
    } else {
        bank[(address as usize) % bank.len()]
    }
}

/// Writes `bank[address mod len]`; an empty bank is left as it is.
pub fn mirrored_write(bank: &mut Vec<u8>, address: u16, value: u8)
    ensures
        final(bank)@ == mirrored_set(old(bank)@, address as int, value),
{
    if bank.len() != 0 {
        let index = (address as usize) % bank.len();
        bank.set(index, value);
    }
}

/// The four memories that a cartridge holds.
#[derive(Clone)]
pub struct CartridgeBanks {
    pub prg_ram: Vec<u8>,
    pub prg_rom: Vec<u8>,
    pub chr_rom: Vec<u8>,
    pub chr_ram: Vec<u8>,
}

impl CartridgeBanks {
    /// Holds the two ROMs and allocates zeroed RAMs of the sizes the header gives.
    pub fn new(header: &CartridgeHeader, prg_rom: Vec<u8>, chr_rom: Vec<u8>) -> (r: Self)
        ensures
            r.prg_rom@ == prg_rom@,
            r.chr_rom@ == chr_rom@,
            r.prg_ram@ == Seq::new(header.prg_ram_size as nat, |i: int| 0u8),
            r.chr_ram@ == Seq::new(header.chr_ram_size as nat, |i: int| 0u8),
    {
        let prg_ram = vec![0u8; header.prg_ram_size];
        let chr_ram = vec![0u8; header.chr_ram_size];
        assert(prg_ram@ =~= Seq::new(header.prg_ram_size as nat, |i: int| 0u8));
        assert(chr_ram@ =~= Seq::new(header.chr_ram_size as nat, |i: int| 0u8));
        CartridgeBanks { prg_ram, chr_ram, prg_rom, chr_rom }
    }
}

/// NROM: `$6000-$7FFF` is PRG-RAM, `$8000-$FFFF` is PRG-ROM, the PPU sees CHR-ROM (or CHR-RAM).
#[derive(Debug, Clone, Copy, PartialEq, Eq, Structural)]
pub struct Mapper000 {}

/// A board with PRG-RAM across the whole cartridge window and nothing on the PPU side.
#[derive(Debug, Clone, Copy, PartialEq, Eq, Structural)]
pub struct Mapper220 {}

impl Mapper000 {
    pub open spec fn cpu_read_spec(banks: &CartridgeBanks, address: u16) -> Option<u8> {
        if 0x6000 <= address <= 0x7fff {
            Some(mirrored_get(banks.prg_ram@, address - 0x6000))
        } else if 0x8000 <= address {
            Some(mirrored_get(banks.prg_rom@, address - 0x8000))
        } else {
            None
        }
    }

    pub open spec fn ppu_read_spec(banks: &CartridgeBanks, address: u16) -> u8 {
        if banks.chr_rom@.len() == 0 {
            mirrored_get(banks.chr_ram@, address as int)
        } else {
            mirrored_get(banks.chr_rom@, address as int)
        }
    }

    pub fn cpu_read(&self, banks: &CartridgeBanks, address: u16) -> (r: Option<u8>)
        ensures
            r == Self::cpu_read_spec(banks, address),
    {
        if 0x6000 <= address && address <= 0x7fff {
            Some(mirrored_read(&banks.prg_ram, address - 0x6000))
        } else if 0x8000 <= address {
            Some(mirrored_read(&banks.prg_rom, address - 0x8000))
        } else {
            None
        }
    }

    pub fn cpu_write(&self, banks: &mut CartridgeBanks, address: u16, value: u8)
        ensures
            final(banks).prg_ram@ == if 0x6000 <= address <= 0x7fff {
                mirrored_set(old(banks).prg_ram@, address - 0x6000, value)
            } else {
                old(banks).prg_ram@
            },
            final(banks).prg_rom@ == old(banks).prg_rom@,
            final(banks).chr_rom@ == old(banks).chr_rom@,
            final(banks).chr_ram@ == old(banks).chr_ram@,
    {
        if 0x6000 <= address && address <= 0x7fff {
            mirrored_write(&mut banks.prg_ram, address - 0x6000, value);
        }
    }

    pub fn ppu_read(&self, banks: &CartridgeBanks, address: u16) -> (r: u8)
        ensures
            r == Self::ppu_read_spec(banks, address),
    {
        if banks.chr_rom.len() == 0 {
            mirrored_read(&banks.chr_ram, address)
        } else {
            mirrored_read(&banks.chr_rom, address)
        }
    }

    pub fn ppu_write(&self, banks: &mut CartridgeBanks, address: u16, value: u8)
        ensures
            final(banks).chr_ram@ == if old(banks).chr_rom@.len() == 0 {
                mirrored_set(old(banks).chr_ram@, address as int, value)
            } else {
                old(banks).chr_ram@
            },
            final(banks).prg_ram@ == old(banks).prg_ram@,
            final(banks).prg_rom@ == old(banks).prg_rom@,
            final(banks).chr_rom@ == old(banks).chr_rom@,
    {
        if banks.chr_rom.len() == 0 {
            mirrored_write(&mut banks.chr_ram, address, value);
        }
    }
}

impl Mapper220 {
    pub fn cpu_read(&self, banks: &CartridgeBanks, address: u16) -> (r: Option<u8>)
        ensures
            r == Some(mirrored_get(banks.prg_ram@, address as int)),
    {
        Some(mirrored_read(&banks.prg_ram, address))
    }

    pub fn cpu_write(&self, banks: &mut CartridgeBanks, address: u16, value: u8)
        ensures
            final(banks).prg_ram@ == mirrored_set(old(banks).prg_ram@, address as int, value),
            final(banks).prg_rom@ == old(banks).prg_rom@,
            final(banks).chr_rom@ == old(banks).chr_rom@,
            final(banks).chr_ram@ == old(banks).chr_ram@,
    {
        mirrored_write(&mut banks.prg_ram, address, value);
    }
}

} // verus!
