use vstd::prelude::*;

use crate::banks::{mirrored_get, mirrored_set, CartridgeBanks, Mapper000, Mapper220};
use crate::error::NesParseError;
use crate::header::{has_magic, header_of, CartridgeHeader, Mirroring};

verus! {

/// The mapper circuits that a cartridge can carry.
#[derive(Debug, Clone, Copy, PartialEq, Eq, Structural)]
pub enum MapperChip {
    Nrom(Mapper000),
    Ram(Mapper220),
}

/// True for the mapper ids that have an implementation.
pub open spec fn supported_mapper(id: u8) -> bool {
    id == 0 || id == 220
}

/// PRG-RAM `ram` after a CPU-side write through `mapper`.
pub open spec fn prg_ram_written(mapper: MapperChip, ram: Seq<u8>, address: u16, value: u8) -> Seq<u8> {
    match mapper {
        MapperChip::Nrom(_) => if 0x6000 <= address <= 0x7fff {
            mirrored_set(ram, address - 0x6000, value)
        } else {
            ram
        },
        MapperChip::Ram(_) => mirrored_set(ram, address as int, value),
    }
}

/// A cartridge: header, memories and the mapper that arbitrates between them and the buses.
#[derive(Clone)]
pub struct Cartridge {
    pub banks: CartridgeBanks,
    pub header: CartridgeHeader,
    pub mapper: MapperChip,
}

/// The bytes `[start, start + len)` of `bytes`, copied.
fn copy_range(bytes: &[u8], start: usize, len: usize) -> (r: Vec<u8>)
    requires
        start + len <= bytes@.len(),
    ensures
        r@ == bytes@.subrange(start as int, start + len),
{
    let mut out: Vec<u8> = Vec::new();
    let mut i: usize = 0;
    while i < len
        invariant
            i <= len,
            start + len <= bytes@.len(),
            bytes@.len() == bytes.len(),
            out@ == bytes@.subrange(start as int, start + i),
        decreases len - i,
    {
        out.push(bytes[start + i]);
        i += 1;
        assert(out@ =~= bytes@.subrange(start as int, start + i));
    }
    out
}

impl Cartridge {
    pub open spec fn cpu_read_spec(&self, address: u16) -> Option<u8> {
        match self.mapper {
            MapperChip::Nrom(_) => Mapper000::cpu_read_spec(&self.banks, address),
            MapperChip::Ram(_) => Some(mirrored_get(self.banks.prg_ram@, address as int)),
        }
    }

    /// PRG-RAM after a CPU-side write.
    pub open spec fn prg_ram_after_write(&self, address: u16, value: u8) -> Seq<u8> {
        prg_ram_written(self.mapper, self.banks.prg_ram@, address, value)
    }

    pub open spec fn ppu_read_spec(&self, address: u16) -> u8 {
        match self.mapper {
            MapperChip::Nrom(_) => Mapper000::ppu_read_spec(&self.banks, address),
            MapperChip::Ram(_) => 0,
        }
    }

    /// CHR-RAM after a PPU-side write.
    pub open spec fn chr_ram_after_write(&self, address: u16, value: u8) -> Seq<u8> {
        match self.mapper {
            MapperChip::Nrom(_) => if self.banks.chr_rom@.len() == 0 {
                mirrored_set(self.banks.chr_ram@, address as int, value)
            } else {
                self.banks.chr_ram@
            },
            MapperChip::Ram(_) => self.banks.chr_ram@,
        }
    }

    /// The mapper is the one the header names and the RAMs have the sizes the header gives.
    pub open spec fn wf(&self) -> bool {
        &&& self.mapper == if self.header.mapper_id == 0 {
            MapperChip::Nrom(Mapper000 {  })
        } else {
            MapperChip::Ram(Mapper220 {  })
        }
        &&& supported_mapper(self.header.mapper_id)
        &&& self.banks.prg_ram@.len() == self.header.prg_ram_size
        &&& self.banks.chr_ram@.len() == self.header.chr_ram_size
    }

    /// True when `other` differs from `self` at most in its RAMs.
    pub open spec fn same_but_ram(&self, other: &Cartridge) -> bool {
        &&& other.header == self.header
        &&& other.mapper == self.mapper
        &&& other.banks.prg_rom@ == self.banks.prg_rom@
        &&& other.banks.chr_rom@ == self.banks.chr_rom@
    }

    /// The image is long enough for what its header announces, with a good magic number and a
    /// supported mapper.
    pub open spec fn image_accepted(bytes: Seq<u8>) -> bool {
        &&& bytes.len() >= 16
        &&& has_magic(bytes.subrange(0, 16))
        &&& bytes.len() >= header_of(bytes.subrange(0, 16)).total_size_spec()
        &&& supported_mapper(header_of(bytes.subrange(0, 16)).mapper_id)
    }

    /// Reads an iNES image: header, optional 512-byte trainer (skipped), PRG-ROM, CHR-ROM.
    #[verifier::rlimit(60)]
    pub fn from_nes(bytes: &[u8]) -> (r: Result<Self, NesParseError>)
        ensures
            bytes@.len() >= 16 && !has_magic(bytes@.subrange(0, 16)) ==> r == Err::<Self, _>(
                NesParseError::InvalidMagicNumber([bytes@[0], bytes@[1], bytes@[2], bytes@[3]]),
            ),
            r.is_ok() ==> r.unwrap().wf(),
            r.is_ok() <==> Self::image_accepted(bytes@),
            bytes@.len() < 16 ==> r == Err::<Self, _>(NesParseError::NotEnough(16)),
            r.is_ok() ==> ({
                let h = header_of(bytes@.subrange(0, 16));
                let start: int = if h.has_trainer { 528 } else { 16 };
                &&& r.unwrap().header == h
                &&& r.unwrap().banks.prg_rom@ == bytes@.subrange(start, start + h.prg_rom_size)
                &&& r.unwrap().banks.chr_rom@ == bytes@.subrange(
                    start + h.prg_rom_size,
                    start + h.prg_rom_size + h.chr_rom_size,
                )
                &&& r.unwrap().banks.prg_ram@.len() == h.prg_ram_size
                &&& r.unwrap().banks.chr_ram@.len() == h.chr_ram_size
            }),
    {
        if bytes.len() < 16 {
            return Err(NesParseError::NotEnough(16));
        }
        let mut data = [0u8; 16];
        let mut i: usize = 0;
        while i < 16
            invariant
                i <= 16,
                bytes@.len() >= 16,
                forall|j: int| 0 <= j < i ==> data[j] == bytes@[j],
            decreases 16 - i,
        {
            data[i] = bytes[i];
            i += 1;
        }
        assert(data@ =~= bytes@.subrange(0, 16));
        let header = match CartridgeHeader::from_nes(data) {
            Ok(h) => h,
            Err(e) => return Err(e),
        };
        let start: usize = if header.has_trainer { 16 + 512 } else { 16 };
        if bytes.len() < start || bytes.len() - start < header.prg_rom_size || bytes.len() - start - header.prg_rom_size
            < header.chr_rom_size {
            return Err(
                NesParseError::NotEnough(
                    start.saturating_add(header.prg_rom_size).saturating_add(header.chr_rom_size),
                ),
            );
        }
        let prg_rom = copy_range(bytes, start, header.prg_rom_size);
        let chr_rom = copy_range(bytes, start + header.prg_rom_size, header.chr_rom_size);
        let banks = CartridgeBanks::new(&header, prg_rom, chr_rom);
        Self::new(header, banks)
    }

    /// Pairs a header and memories with the mapper the header names.
    pub fn new(header: CartridgeHeader, banks: CartridgeBanks) -> (r: Result<Self, NesParseError>)
        ensures
            supported_mapper(header.mapper_id) <==> r.is_ok(),
            !supported_mapper(header.mapper_id) ==> r == Err::<Self, _>(
                NesParseError::UnsupportedMapper(header.mapper_id),
            ),
            r.is_ok() ==> {
                &&& r.unwrap().header == header
                &&& r.unwrap().banks == banks
                &&& r.unwrap().mapper == if header.mapper_id == 0 {
                    MapperChip::Nrom(Mapper000 {  })
                } else {
                    MapperChip::Ram(Mapper220 {  })
                }
            },
    {
        let mapper = if header.mapper_id == 0 {
            MapperChip::Nrom(Mapper000 {  })
        } else if header.mapper_id == 220 {
            MapperChip::Ram(Mapper220 {  })
        } else {
            return Err(NesParseError::UnsupportedMapper(header.mapper_id));
        };
        Ok(Cartridge { mapper, header, banks })
    }

    /// A cartridge made from ROM contents, with the given PRG-RAM size and no CHR-RAM.
    pub fn with_rom(mapper_id: u8, prg_rom: Vec<u8>, chr_rom: Vec<u8>, prg_ram_size: usize) -> (r: Self)
        requires
            supported_mapper(mapper_id),
        ensures
            !r.header.has_trainer && !r.header.is_v2,
            r.wf(),
            r.header.mapper_id == mapper_id,
            r.header.prg_rom_size == prg_rom@.len(),
            r.header.chr_rom_size == chr_rom@.len(),
            r.header.prg_ram_size == prg_ram_size,
            r.header.chr_ram_size == 0,
            r.header.mirroring == Mirroring::Horizontal,
            r.banks.prg_rom@ == prg_rom@,
            r.banks.chr_rom@ == chr_rom@,
            r.banks.prg_ram@ == Seq::new(prg_ram_size as nat, |i: int| 0u8),
            r.banks.chr_ram@.len() == 0,
            r.mapper == if mapper_id == 0 {
                MapperChip::Nrom(Mapper000 {  })
            } else {
                MapperChip::Ram(Mapper220 {  })
            },
    {
        let header = CartridgeHeader {
            mapper_id,
            prg_rom_size: prg_rom.len(),
            chr_rom_size: chr_rom.len(),
            prg_ram_size,
            chr_ram_size: 0,
            has_trainer: false,
            mirroring: Mirroring::Horizontal,
            is_v2: false,
        };
        let banks = CartridgeBanks::new(&header, prg_rom, chr_rom);
        let mapper = if mapper_id == 0 {
            MapperChip::Nrom(Mapper000 {  })
        } else {
            MapperChip::Ram(Mapper220 {  })
        };
        Cartridge { banks, header, mapper }
    }

    /// CPU-side read of the cartridge window; `None` where nothing drives the bus.
    pub fn cpu_read(&self, address: u16) -> (r: Option<u8>)
        ensures
            r == self.cpu_read_spec(address),
    {
        match &self.mapper {
            MapperChip::Nrom(m) => m.cpu_read(&self.banks, address),
            MapperChip::Ram(m) => m.cpu_read(&self.banks, address),
        }
    }

    /// CPU-side write of the cartridge window.
    pub fn cpu_write(&mut self, address: u16, value: u8)
        ensures
            old(self).same_but_ram(final(self)),
            final(self).banks.prg_ram@ == old(self).prg_ram_after_write(address, value),
            final(self).banks.chr_ram@ == old(self).banks.chr_ram@,
    {
        match &self.mapper {
            MapperChip::Nrom(m) => m.cpu_write(&mut self.banks, address, value),
            MapperChip::Ram(m) => m.cpu_write(&mut self.banks, address, value),
        }
    }

    /// PPU-side read of the pattern tables.
    pub fn ppu_read(&self, address: u16) -> (r: u8)
        ensures
            r == self.ppu_read_spec(address),
    {
        match &self.mapper {
            MapperChip::Nrom(m) => m.ppu_read(&self.banks, address),
            MapperChip::Ram(_) => 0,
        }
    }

    /// PPU-side write of the pattern tables.
    pub fn ppu_write(&mut self, address: u16, value: u8)
        ensures
            old(self).same_but_ram(final(self)),
            final(self).banks.chr_ram@ == old(self).chr_ram_after_write(address, value),
            final(self).banks.prg_ram@ == old(self).banks.prg_ram@,
    {
        match &self.mapper {
            MapperChip::Nrom(m) => m.ppu_write(&mut self.banks, address, value),
            MapperChip::Ram(_) => {},
        }
    }

    /// Nametable mirroring; no mapper here overrides the header's.
    pub fn mirroring(&self) -> (r: Mirroring)
        ensures
            r == self.header.mirroring,
    {
        self.header.mirroring
    }

    pub fn header(&self) -> (r: &CartridgeHeader)
        ensures
            *r == self.header,
    {
        &self.header
    }
}

} // verus!
