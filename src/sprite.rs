use vstd::prelude::*;

use crate::registers::{Control, Registers};

verus! {

/// The attribute byte of an OAM entry.
#[derive(Debug, Clone, Copy, PartialEq, Eq, Structural, Default)]
pub struct Attributes(pub u8);

impl Attributes {
    pub const PALLETTE: u8 = 0b11;
    /// Drawn behind an opaque background.
    pub const BEHIND: u8 = 0x20;
    pub const FLIP_HORIZONTAL: u8 = 0x40;
    pub const FLIP_VERTICAL: u8 = 0x80;
    /// The defined bits.
    pub const ALL: u8 = 0b1110_0011;

    pub open spec fn has(&self, flag: u8) -> bool {
        self.0 & flag != 0
    }

    pub fn contains(&self, flag: u8) -> (r: bool)
        ensures
            r == (self.0 & flag == flag),
    {
        self.0 & flag == flag
    }

    /// Which of the four sprite palettes.
    pub fn palette(&self) -> (r: u8)
        ensures
            r == self.0 & 0b11,
            r < 4,
    {
        let bits = self.0;
        assert(bits & 0b11 < 4u8) by (bit_vector);
        bits & 0b11
    }
}

/// One sprite picked for the next scanline, with its decoded row of pattern bits.
#[derive(Debug, Clone, Copy, PartialEq, Eq, Structural)]
pub struct Sprite {
    pub x: u8,
    pub y: u8,
    pub tile_number: u8,
    pub attributes: Attributes,
    /// OAM index, to detect sprite 0.
    pub oam_index: u8,
    pub color_bits_low: u8,
    pub color_bits_high: u8,
}

/// The `i`-th byte of an OAM entry, or 0 past its end.
pub open spec fn entry_byte(oam: Seq<u8>, i: int) -> u8 {
    if i < oam.len() { oam[i] } else { 0 }
}

/// The 2-bit value at bit `7 - x` of two planes.
pub open spec fn plane_pixel(low: u8, high: u8, x: int) -> u8 {
    let mask = (0x80u8 >> (x as u8)) as u8;
    ((if low & mask != 0 { 1int } else { 0 }) + (if high & mask != 0 { 2int } else { 0 })) as u8
}

impl Default for Sprite {
    fn default() -> (r: Self)
        ensures
            r == (Sprite {
                x: 0,
                y: 0,
                tile_number: 0,
                attributes: Attributes(0),
                oam_index: 0,
                color_bits_low: 0,
                color_bits_high: 0,
            }),
    {
        Sprite {
            x: 0,
            y: 0,
            tile_number: 0,
            attributes: Attributes(0),
            oam_index: 0,
            color_bits_low: 0,
            color_bits_high: 0,
        }
    }
}

impl Sprite {
    /// Decodes an OAM entry: Y, tile, attributes, X (missing bytes read as 0).
    pub fn new(oam: &[u8]) -> (r: Self)
        ensures
            r.y == entry_byte(oam@, 0),
            r.tile_number == entry_byte(oam@, 1),
            r.attributes.0 == entry_byte(oam@, 2) & Attributes::ALL,
            r.x == entry_byte(oam@, 3),
            r.oam_index == 0,
            r.color_bits_low == 0,
            r.color_bits_high == 0,
    {
        let y = if oam.len() > 0 { oam[0] } else { 0 };
        let tile_number = if oam.len() > 1 { oam[1] } else { 0 };
        let attributes = if oam.len() > 2 { oam[2] } else { 0 };
        let x = if oam.len() > 3 { oam[3] } else { 0 };
        Sprite {
            x,
            y,
            tile_number,
            attributes: Attributes(attributes & Attributes::ALL),
            oam_index: 0,
            color_bits_low: 0,
            color_bits_high: 0,
        }
    }

    pub open spec fn intersects(&self, scanline: u16, height: u16) -> bool {
        self.y <= scanline < self.y + height
    }

    /// The scanline lies within the sprite's rows.
    pub fn y_intersects(&self, scanline: u16, height: u16) -> (r: bool)
        requires
            height <= 16,
        ensures
            r == self.intersects(scanline, height),
    {
        let top = self.y as u16;
        scanline >= top && scanline < top + height
    }

    /// The row of the sprite's tile that `scanline` shows, counted from the tile's top.
    pub open spec fn row(&self, scanline: u16, height: u16) -> int {
        let dy = scanline - self.y;
        if self.attributes.has(Attributes::FLIP_VERTICAL) { height - 1 - dy } else { dy }
    }

    /// The tile (with the pattern table folded in) that holds that row.
    pub open spec fn tile_for_row(&self, control: Control, row: int) -> int {
        if control.has(Control::TALL_SPRITES) {
            (self.tile_number & 1) * 256 + (self.tile_number & 0xfe) + if row >= 8 { 1int } else { 0 }
        } else {
            (if control.has(Control::SPRITE_SECOND_TABLE) { 256int } else { 0 }) + self.tile_number
        }
    }

    /// The sprite with the pattern planes of the row that `scanline` shows, or with clear planes
    /// when the scanline is not one of its rows.
    pub open spec fn fetched(&self, scanline: u16, registers: Registers) -> Sprite {
        let height = registers.control.sprite_height_spec();
        if self.intersects(scanline, height) {
            let row = self.row(scanline, height);
            let address = (self.tile_for_row(registers.control, row) * 16 + row % 8) as u16;
            Sprite {
                color_bits_low: registers.bus.read_spec(address),
                color_bits_high: registers.bus.read_spec((address + 8) as u16),
                ..*self
            }
        } else {
            Sprite { color_bits_low: 0, color_bits_high: 0, ..*self }
        }
    }

    /// Fetches the two pattern planes of the row that `scanline` shows.
    pub fn load_shift_bits(&mut self, scanline: u16, registers: &Registers)
        requires
            old(self).intersects(scanline, registers.control.sprite_height_spec()),
        ensures
            ({
                let row = old(self).row(scanline, registers.control.sprite_height_spec());
                let address = (old(self).tile_for_row(registers.control, row) * 16 + row % 8) as u16;
                &&& final(self).color_bits_low == registers.bus.read_spec(address)
                &&& final(self).color_bits_high == registers.bus.read_spec((address + 8) as u16)
            }),
            final(self).x == old(self).x,
            final(self).y == old(self).y,
            final(self).tile_number == old(self).tile_number,
            final(self).attributes == old(self).attributes,
            final(self).oam_index == old(self).oam_index,
    {
        let tall = registers.control.0 & Control::TALL_SPRITES != 0;
        let tn = self.tile_number;
        assert(tn & 0xfe <= 254u8 && tn & 1 <= 1u8) by (bit_vector);
        let height = registers.control.sprite_height();
        let mut tile_number: u16 = if tall {
            (self.tile_number & 0xfe) as u16
        } else {
            self.tile_number as u16
        };
        let table: u16 = if tall {
            (self.tile_number & 1) as u16
        } else if registers.control.0 & Control::SPRITE_SECOND_TABLE != 0 {
            1
        } else {
            0
        };
        let mut fine_y = scanline - self.y as u16;
        if self.attributes.0 & Attributes::FLIP_VERTICAL != 0 {
            fine_y = (height - 1) - fine_y;
        }
        if fine_y >= 8 {
            assert(tall);
            tile_number += 1;
        }
        let tile = table * 256 + tile_number;
        let (low, high) = registers.bus.read_pattern_tile_planes(tile, fine_y);
        proof {
            let t = tile;
            let f = fine_y;
            assert(f < 16);
            assert(t < 512);
            assert((t << 4u16) | (f % 8) == t * 16 + f % 8) by (bit_vector)
                requires t < 512, f < 16;
            assert(((t << 4u16) | (f % 8) | 8) == t * 16 + f % 8 + 8) by (bit_vector)
                requires t < 512, f < 16;
        }
        self.color_bits_low = low;
        self.color_bits_high = high;
    }

    /// The sprite's 2-bit pixel at screen column `scan_x` (0 outside its eight columns).
    pub open spec fn pixel_at(&self, scan_x: usize) -> u8 {
        if scan_x < self.x || scan_x >= self.x + 8 {
            0
        } else {
            plane_pixel(
                self.color_bits_low,
                self.color_bits_high,
                if self.attributes.has(Attributes::FLIP_HORIZONTAL) {
                    7 - (scan_x - self.x)
                } else {
                    scan_x - self.x
                },
            )
        }
    }

    /// The sprite's 2-bit pixel at screen column `scan_x` (0 outside its eight columns).
    pub fn color_index(&self, scan_x: usize) -> (r: u8)
        ensures
            r == self.pixel_at(scan_x),
            r == if scan_x < self.x || scan_x >= self.x + 8 {
                0
            } else {
                plane_pixel(
                    self.color_bits_low,
                    self.color_bits_high,
                    if self.attributes.has(Attributes::FLIP_HORIZONTAL) {
                        7 - (scan_x - self.x)
                    } else {
                        scan_x - self.x
                    },
                )
            },
            r < 4,
    {
        if scan_x < self.x as usize || scan_x - (self.x as usize) > 7 {
            return 0;
        }
        let mut x = (scan_x - self.x as usize) as u8;
        if self.attributes.0 & Attributes::FLIP_HORIZONTAL != 0 {
            x = 7 - x;
        }
        crate::ppu::add_bit_planes(self.color_bits_low, self.color_bits_high, 0x80u8 >> x)
    }
}

} // verus!
