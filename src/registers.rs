use vstd::prelude::*;

use crate::ppu_bus::{PpuBus, PATTERN_TILE_COUNT};

verus! {

/// PPUCTRL (`$2000`).
#[derive(Debug, Clone, Copy, PartialEq, Eq, Structural, Default)]
pub struct Control(pub u8);

impl Control {
    /// Base nametable select bits.
    pub const NAMETABLE: u8 = 0x03;
    /// Add 32 to the VRAM address per data access instead of 1.
    pub const VRAM_INCREMENT: u8 = 0x04;
    pub const SPRITE_SECOND_TABLE: u8 = 0x08;
    pub const BACKGROUND_SECOND_TABLE: u8 = 0x10;
    /// 8x16 sprites instead of 8x8.
    pub const TALL_SPRITES: u8 = 0x20;
    pub const PPU_SELECT: u8 = 0x40;
    /// Raise an NMI when vertical blank starts.
    pub const VBLANK_NMI: u8 = 0x80;

    pub open spec fn has(&self, flag: u8) -> bool {
        self.0 & flag != 0
    }

    pub fn contains(&self, flag: u8) -> (r: bool)
        ensures
            r == (self.0 & flag == flag),
    {
        self.0 & flag == flag
    }

    pub open spec fn sprite_height_spec(&self) -> u16 {
        if self.has(Control::TALL_SPRITES) { 16 } else { 8 }
    }

    /// 16 for tall sprites, else 8.
    pub fn sprite_height(&self) -> (r: u16)
        ensures
            r == self.sprite_height_spec(),
    {
        if self.0 & Control::TALL_SPRITES != 0 {
            16
        } else {
            8
        }
    }

    /// Tile offset of the background pattern table: 0 or 256.
    pub fn background_table_offset(&self) -> (r: u16)
        ensures
            r == if self.has(Control::BACKGROUND_SECOND_TABLE) { PATTERN_TILE_COUNT } else { 0 },
    {
        if self.0 & Control::BACKGROUND_SECOND_TABLE != 0 {
            PATTERN_TILE_COUNT
        } else {
            0
        }
    }
}

/// PPUMASK (`$2001`).
#[derive(Debug, Clone, Copy, PartialEq, Eq, Structural, Default)]
pub struct Mask(pub u8);

impl Mask {
    pub const GRAYSCALE: u8 = 0x01;
    pub const SHOW_BACKGROUND_LEFTMOST_8: u8 = 0x02;
    pub const SHOW_SPRITE_LEFTMOST_8: u8 = 0x04;
    pub const RENDER_BACKGROUND: u8 = 0x08;
    pub const RENDER_SPRITE: u8 = 0x10;
    pub const EMPHASIZE_RED: u8 = 0x20;
    pub const EMPHASIZE_GREEN: u8 = 0x40;
    pub const EMPHASIZE_BLUE: u8 = 0x80;

    pub open spec fn rendering(&self) -> bool {
        self.0 & (Mask::RENDER_BACKGROUND | Mask::RENDER_SPRITE) != 0
    }

    /// True when either background or sprites are rendered.
    pub fn is_rendering(&self) -> (r: bool)
        ensures
            r == self.rendering(),
    {
        self.0 & (Mask::RENDER_BACKGROUND | Mask::RENDER_SPRITE) != 0
    }

    pub open spec fn sprite_visible(&self, scan_x: usize) -> bool {
        self.0 & Mask::RENDER_SPRITE != 0 && (self.0 & Mask::SHOW_SPRITE_LEFTMOST_8 != 0 || scan_x
            >= 8)
    }

    pub open spec fn background_visible(&self, scan_x: usize) -> bool {
        self.0 & Mask::RENDER_BACKGROUND != 0 && (self.0 & Mask::SHOW_BACKGROUND_LEFTMOST_8 != 0
            || scan_x >= 8)
    }

    /// Sprites are shown at this column.
    pub fn can_show_sprite(&self, scan_x: usize) -> (r: bool)
        ensures
            r == self.sprite_visible(scan_x),
    {
        self.0 & Mask::RENDER_SPRITE != 0 && (self.0 & Mask::SHOW_SPRITE_LEFTMOST_8 != 0 || scan_x
            >= 8)
    }

    /// The background is shown at this column.
    pub fn can_show_background(&self, scan_x: usize) -> (r: bool)
        ensures
            r == self.background_visible(scan_x),
    {
        self.0 & Mask::RENDER_BACKGROUND != 0 && (self.0 & Mask::SHOW_BACKGROUND_LEFTMOST_8 != 0
            || scan_x >= 8)
    }
}

/// PPUSTATUS (`$2002`); only the top three bits are driven.
#[derive(Debug, Clone, Copy, PartialEq, Eq, Structural, Default)]
pub struct Status(pub u8);

impl Status {
    pub const SPRITE_OVERFLOW: u8 = 0x20;
    pub const SPRITE_0_HIT: u8 = 0x40;
    pub const VBLANK: u8 = 0x80;
    /// All driven bits.
    pub const ALL: u8 = 0b1110_0000;

    pub open spec fn has(&self, flag: u8) -> bool {
        self.0 & flag != 0
    }

    pub fn contains(&self, flag: u8) -> (r: bool)
        ensures
            r == (self.0 & flag == flag),
    {
        self.0 & flag == flag
    }
}

/// Position of the lowest set bit of a nonzero mask.
pub open spec fn shift_of(mask: u16) -> u16 {
    if mask & 0x0001 != 0 { 0 }
    else if mask & 0x0002 != 0 { 1 }
    else if mask & 0x0004 != 0 { 2 }
    else if mask & 0x0008 != 0 { 3 }
    else if mask & 0x0010 != 0 { 4 }
    else if mask & 0x0020 != 0 { 5 }
    else if mask & 0x0040 != 0 { 6 }
    else if mask & 0x0080 != 0 { 7 }
    else if mask & 0x0100 != 0 { 8 }
    else if mask & 0x0200 != 0 { 9 }
    else if mask & 0x0400 != 0 { 10 }
    else if mask & 0x0800 != 0 { 11 }
    else if mask & 0x1000 != 0 { 12 }
    else if mask & 0x2000 != 0 { 13 }
    else if mask & 0x4000 != 0 { 14 }
    else { 15 }
}

fn lowest_bit(mask: u16) -> (r: u16)
    ensures
        r == shift_of(mask),
        r < 16,
{
    if mask & 0x0001 != 0 { 0 }
    else if mask & 0x0002 != 0 { 1 }
    else if mask & 0x0004 != 0 { 2 }
    else if mask & 0x0008 != 0 { 3 }
    else if mask & 0x0010 != 0 { 4 }
    else if mask & 0x0020 != 0 { 5 }
    else if mask & 0x0040 != 0 { 6 }
    else if mask & 0x0080 != 0 { 7 }
    else if mask & 0x0100 != 0 { 8 }
    else if mask & 0x0200 != 0 { 9 }
    else if mask & 0x0400 != 0 { 10 }
    else if mask & 0x0800 != 0 { 11 }
    else if mask & 0x1000 != 0 { 12 }
    else if mask & 0x2000 != 0 { 13 }
    else if mask & 0x4000 != 0 { 14 }
    else { 15 }
}

/// After a coarse-X increment: wraps 31 to 0 and flips the horizontal nametable bit.
pub open spec fn coarse_x_scrolled(v: u16) -> u16 {
    if v & 0x001f == 31 {
        ((v & !0x001fu16) ^ 0x0400) as u16
    } else {
        (v + 1) as u16
    }
}

/// After a fine-Y increment: carries into coarse Y, which wraps at 29 (flipping the vertical
/// nametable bit) or, from the invalid values 30-31, at 32; every other bit is kept.
pub open spec fn fine_y_scrolled(v: u16) -> u16 {
    if v & 0x7000 != 0x7000 {
        (v + 0x1000) as u16
    } else {
        let w = v & 0x8fff;
        let coarse_y = (w >> 5u16) & 0x1f;
        if coarse_y == 29 {
            ((w & !0x03e0u16) ^ 0x0800) as u16
        } else if coarse_y == 31 {
            (w & !0x03e0u16) as u16
        } else {
            (w + 0x20) as u16
        }
    }
}

/// A 15-bit scroll/address register laid out as `0yyy NN YYYYY XXXXX`.
#[derive(Debug, Clone, Copy, PartialEq, Eq, Structural, Default)]
pub struct TvRegister(pub u16);

impl TvRegister {
    pub const COARSE_X: u16 = 0b00000000_00011111;
    pub const COARSE_Y: u16 = 0b00000011_11100000;
    pub const NAMETABLE: u16 = 0b00001100_00000000;
    pub const NAMETABLE_X: u16 = 0b00000100_00000000;
    pub const NAMETABLE_Y: u16 = 0b00001000_00000000;
    pub const FINE_Y: u16 = 0b01110000_00000000;
    pub const LOW: u16 = 0b00000000_11111111;
    pub const HIGH: u16 = 0b11111111_00000000;

    pub open spec fn wf(&self) -> bool {
        self.0 < 0x8000
    }

    /// Replaces the bits under `select_bits` with `value`, shifted into place.
    pub fn set(&mut self, select_bits: u16, value: u16)
        requires
            select_bits != 0,
            value <= select_bits >> shift_of(select_bits),
        ensures
            final(self).0 == ((value << shift_of(select_bits)) | (old(self).0 & !select_bits)),
    {
        let shift = lowest_bit(select_bits);
        self.0 = (value << shift) | (self.0 & !select_bits);
    }

    /// The bits under `select_bits`, shifted down.
    pub fn get(&self, select_bits: u16) -> (r: u16)
        requires
            select_bits != 0,
        ensures
            r == (self.0 & select_bits) >> shift_of(select_bits),
    {
        let shift = lowest_bit(select_bits);
        (self.0 & select_bits) >> shift
    }

    /// Address of the nametable byte for the current tile.
    pub fn nametable_address(&self) -> (r: u16)
        ensures
            r == 0x2000 | (self.0 & 0x0fff),
    {
        0x2000 | (self.0 & 0x0fff)
    }

    /// Address of the attribute byte for the current tile.
    pub fn attribute_address(&self) -> (r: u16)
        ensures
            r == 0x23c0 | (self.0 & 0x0c00) | ((self.0 >> 4u16) & 0x38) | ((self.0 >> 2u16) & 0x07),
    {
        0x23c0 | (self.0 & 0x0c00) | ((self.0 >> 4u16) & 0x38) | ((self.0 >> 2u16) & 0x07)
    }

    /// The 2-bit palette id for the current tile's quadrant of an attribute byte.
    pub fn shift_attribute(&self, attribute: u8) -> (r: u8)
        ensures
            r == (attribute >> ((((self.0 & 0x1f) % 4) / 2 + (((self.0 >> 5u16) & 0x1f) % 4)
                / 2 * 2) * 2) as u8) & 0b11,
            r < 4,
    {
        let quadrant_x = ((self.0 & 0x1f) % 4) / 2;
        let quadrant_y = (((self.0 >> 5u16) & 0x1f) % 4) / 2;
        let shift = ((quadrant_x + quadrant_y * 2) * 2) as u8;
        let r = (attribute >> shift) & 0b11;
        assert((attribute >> shift) & 0b11 < 4u8) by (bit_vector);
        r
    }

    /// Increments coarse X, wrapping into the next horizontal nametable.
    pub fn scroll_coarse_x(&mut self)
        ensures
            final(self).0 == coarse_x_scrolled(old(self).0),
            old(self).wf() ==> final(self).wf(),
    {
        let v = self.0;
        if v & 0x001f == 31 {
            self.0 = (v & !0x001fu16) ^ 0x0400;
            assert(v < 0x8000 ==> (v & !0x001fu16) ^ 0x0400 < 0x8000) by (bit_vector);
        } else {
            assert((v & 0x001f != 31 ==> v != 0xffff) && (v < 0x8000 && v & 0x001f != 31 ==> v + 1
                < 0x8000)) by (bit_vector);
            self.0 = v + 1;
        }
    }

    /// Increments fine Y, carrying into coarse Y and the vertical nametable bit.
    pub fn scroll_fine_y(&mut self)
        ensures
            final(self).0 == fine_y_scrolled(old(self).0),
            old(self).wf() ==> final(self).wf(),
    {
        let v = self.0;
        if v & 0x7000 != 0x7000 {
            assert((v < 0x8000 && v & 0x7000 != 0x7000 ==> v + 0x1000 < 0x8000) && (v & 0x7000
                != 0x7000 ==> v <= 0xefff)) by (bit_vector);
            self.0 = v + 0x1000;
        } else {
            let w = v & 0x8fff;
            let coarse_y = (w >> 5u16) & 0x1f;
            assert(w <= 0x8fff && (v < 0x8000 ==> w <= 0x0fff)) by (bit_vector)
                requires
                    w == v & 0x8fff,
            ;
            if coarse_y == 29 {
                assert(w <= 0x0fff ==> (w & !0x03e0u16) ^ 0x0800 < 0x8000) by (bit_vector);
                self.0 = (w & !0x03e0u16) ^ 0x0800;
            } else if coarse_y == 31 {
                assert(w <= 0x0fff ==> w & !0x03e0u16 < 0x8000) by (bit_vector);
                self.0 = w & !0x03e0u16;
            } else {
                self.0 = w + 0x20;
            }
        }
    }

    /// Copies the horizontal bits (coarse X, nametable X) from `other`.
    pub fn set_x(&mut self, other: &TvRegister)
        ensures
            final(self).0 == (old(self).0 & !0x041fu16) | (other.0 & 0x041f),
            old(self).wf() && other.wf() ==> final(self).wf(),
    {
        let v = self.0;
        let o = other.0;
        self.0 = (v & !0x041fu16) | (o & 0x041f);
        assert(v < 0x8000 && o < 0x8000 ==> (v & !0x041fu16) | (o & 0x041f) < 0x8000) by (bit_vector);
    }

    /// Copies the vertical bits (fine Y, coarse Y, nametable Y) from `other`.
    pub fn set_y(&mut self, other: &TvRegister)
        ensures
            final(self).0 == (old(self).0 & !0x7be0u16) | (other.0 & 0x7be0),
            old(self).wf() && other.wf() ==> final(self).wf(),
    {
        let v = self.0;
        let o = other.0;
        self.0 = (v & !0x7be0u16) | (o & 0x7be0);
        assert(v < 0x8000 && o < 0x8000 ==> (v & !0x7be0u16) | (o & 0x7be0) < 0x8000) by (bit_vector);
    }
}


/// The eight memory-mapped PPU registers and the state behind them.
#[derive(Clone)]
pub struct Registers {
    pub bus: PpuBus,
    pub control: Control,
    pub mask: Mask,
    pub status: Status,
    pub t: TvRegister,
    pub v: TvRegister,
    /// First or second write of `$2005` / `$2006`.
    pub latch: bool,
    pub fine_x: u8,
    pub oam_address: u8,
    pub oam_data: [u8; 256],
    pub read_buffer: u8,
    pub open_bus: u8,
}

impl Default for Registers {
    fn default() -> (r: Self)
        ensures
            r.wf(),
            r.bus.cartridge.is_none(),
            r.v.0 == 0 && r.t.0 == 0 && !r.latch && r.status.0 == 0 && r.control.0 == 0
                && r.mask.0 == 0 && r.oam_address == 0,
    {
        Registers {
            bus: PpuBus::default(),
            control: Control(0),
            mask: Mask(0),
            status: Status(0),
            t: TvRegister(0),
            v: TvRegister(0),
            latch: false,
            fine_x: 0,
            oam_address: 0,
            oam_data: [0u8; 256],
            read_buffer: 0,
            open_bus: 0,
        }
    }
}

/// VRAM address after a `$2007` access: plus 32 or 1, kept to 15 bits.
pub open spec fn incremented(v: u16, control: Control) -> u16 {
    ((v + if control.has(Control::VRAM_INCREMENT) { 32u16 } else { 1u16 }) % 0x8000) as u16
}

/// `t` after a write of `value` to `$2005`.
pub open spec fn scroll_written(t: u16, latch: bool, value: u8) -> u16 {
    if !latch {
        ((t & !0x001fu16) | ((value >> 3u8) as u16)) as u16
    } else {
        ((t & !0x73e0u16) | (((value >> 3u8) as u16) << 5u16) | (((value & 7) as u16) << 12u16)) as u16
    }
}

/// `t` after a write of `value` to `$2006`.
pub open spec fn address_written(t: u16, latch: bool, value: u8) -> u16 {
    if !latch {
        ((t & 0x00ff) | (((value & 0x3f) as u16) << 8u16)) as u16
    } else {
        ((t & 0xff00) | (value as u16)) as u16
    }
}

impl Registers {
    pub open spec fn wf(&self) -> bool {
        &&& self.v.wf()
        &&& self.t.wf()
        &&& self.fine_x < 8
    }

    /// What a read of the register at `address` returns.
    pub open spec fn peek(&self, address: u16) -> u8 {
        let offset = address % 8;
        if offset == 2 {
            self.status.0 | (self.open_bus & !Status::ALL)
        } else if offset == 4 {
            self.oam_data[self.oam_address as int]
        } else if offset == 7 {
            if self.v.0 >= 0x3f00 {
                self.bus.read_spec(self.v.0)
            } else {
                self.read_buffer
            }
        } else {
            self.open_bus
        }
    }

    /// The registers after a read of `address`, with `new_bus` unchanged here.
    pub open spec fn after_read(&self, address: u16) -> Registers {
        let offset = address % 8;
        let out = self.peek(address);
        if offset == 2 {
            Registers {
                status: Status(self.status.0 & !Status::VBLANK),
                latch: false,
                open_bus: out,
                ..*self
            }
        } else if offset == 7 {
            Registers {
                read_buffer: self.bus.read_spec(self.v.0),
                v: TvRegister(incremented(self.v.0, self.control)),
                open_bus: out,
                ..*self
            }
        } else {
            Registers { open_bus: out, ..*self }
        }
    }

    /// The registers after writing `value` to `address`, given the PPU bus after a `$2007`
    /// write (see `wrote`) and OAM after a `$2004` write (see `oam_written`).
    pub open spec fn after_write(&self, address: u16, value: u8, new_bus: PpuBus, new_oam: [u8; 256]) -> Registers {
        let offset = address % 8;
        let base = Registers { open_bus: value, ..*self };
        if offset == 0 {
            Registers {
                control: Control(value),
                t: TvRegister(((self.t.0 & !0x0c00u16) | (((value & 3) as u16) << 10u16)) as u16),
                ..base
            }
        } else if offset == 1 {
            Registers { mask: Mask(value), ..base }
        } else if offset == 3 {
            Registers { oam_address: value, ..base }
        } else if offset == 4 {
            Registers {
                oam_data: new_oam,
                oam_address: ((self.oam_address + 1) % 256) as u8,
                ..base
            }
        } else if offset == 5 {
            Registers {
                t: TvRegister(scroll_written(self.t.0, self.latch, value)),
                fine_x: if !self.latch { value & 7 } else { self.fine_x },
                latch: !self.latch,
                ..base
            }
        } else if offset == 6 {
            Registers {
                t: TvRegister(address_written(self.t.0, self.latch, value)),
                v: if self.latch { TvRegister(address_written(self.t.0, self.latch, value)) } else { self.v },
                latch: !self.latch,
                ..base
            }
        } else if offset == 7 {
            Registers { bus: new_bus, v: TvRegister(incremented(self.v.0, self.control)), ..base }
        } else {
            base
        }
    }

    /// `new_oam` is OAM after writing `value` through `$2004`: attribute bytes lose bits 2-4.
    pub open spec fn oam_written(&self, new_oam: [u8; 256], value: u8) -> bool {
        new_oam@ == self.oam_data@.update(
            self.oam_address as int,
            if self.oam_address % 4 == 2 { value & 0b1110_0011 } else { value },
        )
    }

    /// Reads a register without side effects.
    pub fn immut_read_u8(&self, address: u16) -> (r: u8)
        ensures
            r == self.peek(address),
    {
        let offset = address % 8;
        if offset == 2 {
            self.status.0 | (self.open_bus & !Status::ALL)
        } else if offset == 4 {
            self.oam_data[self.oam_address as usize]
        } else if offset == 7 {
            if self.v.0 >= 0x3f00 {
                self.bus.read_u8(self.v.0)
            } else {
                self.read_buffer
            }
        } else {
            self.open_bus
        }
    }

    /// Reads a register: `$2002` clears VBLANK and the latch, `$2007` refills the read buffer and
    /// advances `v`.
    #[verifier::rlimit(60)]
    pub fn read_u8(&mut self, address: u16) -> (r: u8)
        requires
            old(self).wf(),
        ensures
            r == old(self).peek(address),
            *final(self) == old(self).after_read(address),
            final(self).wf(),
    {
        let output = self.immut_read_u8(address);
        let offset = address % 8;
        if offset == 2 {
            self.status = Status(self.status.0 & !Status::VBLANK);
            self.latch = false;
        } else if offset == 7 {
            self.read_buffer = self.bus.read_u8(self.v.0);
            self.increment_v_register();
        }
        self.open_bus = output;
        output
    }

    /// Writes a register.
    #[verifier::rlimit(60)]
    pub fn write_u8(&mut self, address: u16, value: u8)
        requires
            old(self).wf(),
        ensures
            *final(self) == old(self).after_write(address, value, final(self).bus, final(self).oam_data),
            address % 8 == 7 ==> old(self).bus.wrote(&final(self).bus, old(self).v.0, value),
            address % 8 == 4 ==> old(self).oam_written(final(self).oam_data, value),
            final(self).wf(),
    {
        self.open_bus = value;
        let offset = address % 8;
        if offset == 0 {
            self.write_control(value);
        } else if offset == 1 {
            self.mask = Mask(value);
        } else if offset == 3 {
            self.oam_address = value;
        } else if offset == 4 {
            self.write_oam_data(value);
        } else if offset == 5 {
            self.write_scroll(value);
        } else if offset == 6 {
            self.write_vram_address(value);
        } else if offset == 7 {
            self.write_vram_data(value);
        }
    }

    /// Writes OAM at `oam_address` and advances it; attribute bytes keep only bits 0-1 and 5-7.
    pub fn write_oam_data(&mut self, value: u8)
        ensures
            old(self).oam_written(final(self).oam_data, value),
            *final(self) == (Registers {
                oam_data: final(self).oam_data,
                oam_address: ((old(self).oam_address + 1) % 256) as u8,
                ..*old(self)
            }),
    {
        let stored = if self.oam_address % 4 == 2 { value & 0b1110_0011 } else { value };
        self.oam_data[self.oam_address as usize] = stored;
        self.oam_address = self.oam_address.wrapping_add(1);
    }

    fn write_control(&mut self, value: u8)
        requires
            old(self).wf(),
        ensures
            *final(self) == (Registers {
                control: Control(value),
                t: TvRegister(((old(self).t.0 & !0x0c00u16) | (((value & 3) as u16) << 10u16)) as u16),
                ..*old(self)
            }),
            final(self).wf(),
    {
        self.control = Control(value);
        let t = self.t.0;
        let nt = (value & 3) as u16;
        assert((t < 0x8000 && nt < 4 ==> (t & !0x0c00u16) | (nt << 10u16) < 0x8000) && value & 3
            < 4) by (bit_vector);
        self.t = TvRegister((t & !0x0c00u16) | (nt << 10u16));
    }

    fn write_scroll(&mut self, value: u8)
        requires
            old(self).wf(),
        ensures
            *final(self) == (Registers {
                t: TvRegister(scroll_written(old(self).t.0, old(self).latch, value)),
                fine_x: if !old(self).latch { value & 7 } else { old(self).fine_x },
                latch: !old(self).latch,
                ..*old(self)
            }),
            final(self).wf(),
    {
        let t = self.t.0;
        let coarse = (value >> 3u8) as u16;
        let fine = (value & 7) as u16;
        assert(value >> 3u8 < 32u8 && value & 7 < 8u8) by (bit_vector);
        if !self.latch {
            assert(t < 0x8000 && coarse < 32 ==> (t & !0x001fu16) | coarse < 0x8000) by (bit_vector);
            self.t = TvRegister((t & !0x001fu16) | coarse);
            self.fine_x = value & 7;
        } else {
            assert(t < 0x8000 && coarse < 32 && fine < 8 ==> (t & !0x73e0u16) | (coarse << 5u16) | (fine << 12u16) < 0x8000) by (bit_vector);
            self.t = TvRegister((t & !0x73e0u16) | (coarse << 5u16) | (fine << 12u16));
        }
        self.latch = !self.latch;
    }

    fn write_vram_address(&mut self, value: u8)
        requires
            old(self).wf(),
        ensures
            *final(self) == (Registers {
                t: TvRegister(address_written(old(self).t.0, old(self).latch, value)),
                v: if old(self).latch {
                    TvRegister(address_written(old(self).t.0, old(self).latch, value))
                } else {
                    old(self).v
                },
                latch: !old(self).latch,
                ..*old(self)
            }),
            final(self).wf(),
    {
        let t = self.t.0;
        if !self.latch {
            let high = (value & 0x3f) as u16;
            assert(value & 0x3f < 64u8 && (high < 64 ==> (t & 0x00ff) | (high << 8u16) < 0x8000))
                by (bit_vector);
            self.t = TvRegister((t & 0x00ff) | (high << 8u16));
        } else {
            let low = value as u16;
            assert(t < 0x8000 && low < 256 ==> (t & 0xff00) | low < 0x8000) by (bit_vector);
            self.t = TvRegister((t & 0xff00) | low);
            self.v = self.t;
        }
        self.latch = !self.latch;
    }

    fn write_vram_data(&mut self, value: u8)
        requires
            old(self).wf(),
        ensures
            old(self).bus.wrote(&final(self).bus, old(self).v.0, value),
            *final(self) == (Registers {
                bus: final(self).bus,
                v: TvRegister(incremented(old(self).v.0, old(self).control)),
                ..*old(self)
            }),
            final(self).wf(),
    {
        let address = self.v.0;
        self.bus.write_u8(address, value);
        self.increment_v_register();
    }

    fn increment_v_register(&mut self)
        ensures
            *final(self) == (Registers { v: TvRegister(incremented(old(self).v.0, old(self).control)), ..*old(self) }),
            final(self).v.wf(),
    {
        let amount: u16 = if self.control.0 & Control::VRAM_INCREMENT != 0 { 32 } else { 1 };
        self.v = TvRegister(((self.v.0 as u32 + amount as u32) % 0x8000) as u16);
    }
}

} // verus!
