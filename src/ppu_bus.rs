use vstd::prelude::*;

use crate::cartridge::Cartridge;
use crate::header::Mirroring;

verus! {

pub const PALETTE_RAM_SIZE: usize = 0x20;
pub const NAMETABLE_RAM_SIZE: usize = 0x800;
/// Tiles in one pattern table: adding it to a tile number selects the second table.
pub const PATTERN_TILE_COUNT: u16 = 256;

/// Offset into the 2 KiB nametable RAM that a nametable address maps to.
pub open spec fn nametable_index(address: u16, mirroring: Mirroring) -> int {
    let local = address as int % 0x1000;
    match mirroring {
        Mirroring::Horizontal => (local / 2048) * 1024 + local % 1024,
        Mirroring::Vertical => local % 2048,
    }
}

/// Offset into the 32-byte palette RAM; `$10/$14/$18/$1C` alias `$00/$04/$08/$0C`.
pub open spec fn palette_index(address: u16) -> int {
    let local = address as int % 32;
    if local == 0x10 || local == 0x14 || local == 0x18 || local == 0x1c {
        local - 0x10
    } else {
        local
    }
}

/// Maps a nametable address into the 2 KiB nametable RAM.
pub fn mirror_nametable(address: u16, mirroring: Mirroring) -> (r: usize)
    ensures
        r == nametable_index(address, mirroring),
        r < NAMETABLE_RAM_SIZE,
{
    let local = address as usize % 0x1000;
    match mirroring {
        Mirroring::Horizontal => (local / 2048) * 1024 + local % 1024,
        Mirroring::Vertical => local % 2048,
    }
}

/// Maps a palette address into the 32-byte palette RAM.
pub fn mirror_palette(address: u16) -> (r: usize)
    ensures
        r == palette_index(address),
        r < PALETTE_RAM_SIZE,
{
    let local = address as usize % 32;
    if local == 0x10 || local == 0x14 || local == 0x18 || local == 0x1c {
        local - 0x10
    } else {
        local
    }
}

/// The PPU's address space: cartridge CHR, nametable RAM and palette RAM.
#[derive(Clone)]
pub struct PpuBus {
    pub palette_ram: [u8; 32],
    pub nametable_ram: [u8; 2048],
    /// The cartridge; the CPU bus reaches it through here as well.
    pub cartridge: Option<Cartridge>,
}

impl Default for PpuBus {
    fn default() -> (r: Self)
        ensures
            r.cartridge.is_none(),
            forall|i: int| 0 <= i < 32 ==> r.palette_ram[i] == 0,
            forall|i: int| 0 <= i < 2048 ==> r.nametable_ram[i] == 0,
    {
        PpuBus { palette_ram: [0u8; 32], nametable_ram: [0u8; 2048], cartridge: None }
    }
}

impl PpuBus {
    pub open spec fn mirroring_spec(&self) -> Mirroring {
        match self.cartridge {
            Some(c) => c.header.mirroring,
            None => Mirroring::Horizontal,
        }
    }

    /// The byte a read of `address` returns.
    pub open spec fn read_spec(&self, address: u16) -> u8 {
        let local = address % 0x4000;
        if local < 0x2000 {
            match self.cartridge {
                Some(c) => c.ppu_read_spec(local),
                None => 0,
            }
        } else if local < 0x3f00 {
            self.nametable_ram[nametable_index(address, self.mirroring_spec())]
        } else {
            self.palette_ram[palette_index(address)]
        }
    }

    /// `new` is this bus after writing `value` at `address`.
    pub open spec fn wrote(&self, new: &PpuBus, address: u16, value: u8) -> bool {
        let local = address % 0x4000;
        if local < 0x2000 {
            &&& new.palette_ram == self.palette_ram
            &&& new.nametable_ram == self.nametable_ram
            &&& match self.cartridge {
                None => new.cartridge.is_none(),
                Some(c) => new.cartridge.is_some() && c.same_but_ram(&new.cartridge.unwrap())
                    && new.cartridge.unwrap().banks.prg_ram@ == c.banks.prg_ram@
                    && new.cartridge.unwrap().banks.chr_ram@ == c.chr_ram_after_write(local, value),
            }
        } else if local < 0x3f00 {
            &&& new.palette_ram == self.palette_ram
            &&& new.cartridge == self.cartridge
            &&& new.nametable_ram@ == self.nametable_ram@.update(
                nametable_index(address, self.mirroring_spec()),
                value,
            )
        } else {
            &&& new.nametable_ram == self.nametable_ram
            &&& new.cartridge == self.cartridge
            &&& new.palette_ram@ == self.palette_ram@.update(palette_index(address), value)
        }
    }

    pub fn mirroring(&self) -> (r: Mirroring)
        ensures
            r == self.mirroring_spec(),
    {
        match &self.cartridge {
            Some(c) => c.mirroring(),
            None => Mirroring::Horizontal,
        }
    }

    pub fn read_u8(&self, address: u16) -> (r: u8)
        ensures
            r == self.read_spec(address),
    {
        let local = address % 0x4000;
        if local < 0x2000 {
            match &self.cartridge {
                Some(c) => c.ppu_read(local),
                None => 0,
            }
        } else if local < 0x3f00 {
            self.nametable_ram[mirror_nametable(address, self.mirroring())]
        } else {
            self.palette_ram[mirror_palette(address)]
        }
    }

    pub fn write_u8(&mut self, address: u16, value: u8)
        ensures
            old(self).wrote(final(self), address, value),
    {
        let local = address % 0x4000;
        if local < 0x2000 {
            match &mut self.cartridge {
                Some(c) => c.ppu_write(local, value),
                None => {},
            }
        } else if local < 0x3f00 {
            let index = mirror_nametable(address, self.mirroring());
            self.nametable_ram[index] = value;
        } else {
            let index = mirror_palette(address);
            self.palette_ram[index] = value;
        }
    }

    /// The two bit planes of one row of a tile: `(read(tile << 4 | y), read(tile << 4 | y | 8))`.
    pub fn read_pattern_tile_planes(&self, tile_number: u16, fine_y: u16) -> (r: (u8, u8))
        ensures
            r.0 == self.read_spec(((tile_number << 4u16) | (fine_y % 8)) as u16),
            r.1 == self.read_spec(((tile_number << 4u16) | (fine_y % 8) | 8) as u16),
    {
        let address = (tile_number << 4u16) | (fine_y % 8);
        (self.read_u8(address), self.read_u8(address | 8))
    }
}

} // verus!
