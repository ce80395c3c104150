use vstd::prelude::*;

use crate::palette::Palette;
use crate::registers::{coarse_x_scrolled, fine_y_scrolled, Control, Mask, Registers, Status, TvRegister};
use crate::sprite::{Attributes, Sprite};

verus! {

pub const WIDTH: usize = 256;
pub const HEIGHT: usize = 240;
pub const DOTS_PER_SCANLINE: u16 = 341;
pub const SCANLINES_PER_FRAME: u16 = 262;

/// The 2-bit pixel made of the bits that `bit_mask` selects in two planes.
pub fn add_bit_planes(lsb_plane: u8, msb_plane: u8, bit_mask: u8) -> (r: u8)
    ensures
        r == plane_bits(lsb_plane, msb_plane, bit_mask),
        r < 4,
{
    let lsb: u8 = if lsb_plane & bit_mask != 0 { 1 } else { 0 };
    let msb: u8 = if msb_plane & bit_mask != 0 { 2 } else { 0 };
    lsb + msb
}

/// The 2-bit value of the bits that `mask` selects in two planes.
pub open spec fn plane_bits(low: u8, high: u8, mask: u8) -> u8 {
    ((if low & mask != 0 { 1int } else { 0 }) + (if high & mask != 0 { 2int } else { 0 })) as u8
}

/// Byte `k` of OAM, or 0 past its end.
pub open spec fn oam_byte(oam: Seq<u8>, k: int) -> u8 {
    if 0 <= k < oam.len() { oam[k] } else { 0 }
}

/// The sprite that the four OAM bytes at `i` describe, tagged with entry number `i / 4`.
pub open spec fn oam_entry(oam: Seq<u8>, i: int) -> Sprite {
    Sprite {
        x: oam_byte(oam, i + 3),
        y: oam_byte(oam, i),
        tile_number: oam_byte(oam, i + 1),
        attributes: Attributes(oam_byte(oam, i + 2) & Attributes::ALL),
        oam_index: (i / 4) as u8,
        color_bits_low: 0,
        color_bits_high: 0,
    }
}

/// Sprite evaluation from OAM byte `i` with `found` already buffered: entries that cover the
/// scanline are buffered, four bytes apart, until eight are held; after that a covering entry
/// means overflow and ends the scan, and a miss advances five bytes. Gives the buffer and
/// whether overflow was found.
pub open spec fn sprite_scan(oam: Seq<u8>, scanline: u16, height: u16, i: int, found: Seq<Sprite>) -> (Seq<Sprite>, bool)
    decreases 300 - i,
{
    if i >= 256 || i < 0 {
        (found, false)
    } else {
        let sprite = oam_entry(oam, i);
        if sprite.intersects(scanline, height) {
            if found.len() >= 8 {
                (found, true)
            } else {
                sprite_scan(oam, scanline, height, i + 4, found.push(sprite))
            }
        } else if found.len() >= 8 {
            sprite_scan(oam, scanline, height, i + 5, found)
        } else {
            sprite_scan(oam, scanline, height, i + 4, found)
        }
    }
}

/// Dots in a frame without the odd-frame skip.
pub open spec fn frame_dots() -> int {
    89342
}

/// The emulated 2C02 NTSC PPU.
#[derive(Clone)]
pub struct Ppu {
    pub registers: Registers,
    pub palette: Palette,
    pub scanline: u16,
    pub dot: u16,
    /// 256 x 240 pixels, row by row, as `0x00RRGGBB`.
    pub screen_pixels: Vec<u32>,
    pub frame_complete: bool,
    pub require_nmi: bool,
    pub bg_shift_bits_low: u16,
    pub bg_shift_bits_high: u16,
    pub bg_palette_id: u8,
    pub bg_palette_bits_low: u8,
    pub bg_palette_bits_high: u8,
    pub odd_frame: bool,
    /// Sprites picked for the next scanline.
    pub sprite_buffer: [Sprite; 8],
    pub sprite_count: u8,
    pub oam_start_address: u8,
    /// Dots dropped by the odd-frame skip so far.
    pub skipped_dots: Ghost<int>,
    /// Frames completed so far.
    pub frames: Ghost<int>,
}

impl Default for Ppu {
    fn default() -> (r: Self)
        ensures
            r.wf(),
            r.scanline == 0 && r.dot == 0,
            !r.require_nmi && !r.frame_complete && !r.odd_frame,
            r.registers.bus.cartridge.is_none(),
            r.registers.v.0 == 0 && r.registers.t.0 == 0 && !r.registers.latch,
            r.registers.status.0 == 0 && r.registers.control.0 == 0 && r.registers.mask.0 == 0,
    {
        Ppu {
            registers: Registers::default(),
            palette: Palette::default(),
            scanline: 0,
            dot: 0,
            screen_pixels: vec![0u32; WIDTH * HEIGHT],
            frame_complete: false,
            require_nmi: false,
            bg_shift_bits_low: 0,
            bg_shift_bits_high: 0,
            bg_palette_id: 0,
            bg_palette_bits_low: 0,
            bg_palette_bits_high: 0,
            odd_frame: false,
            sprite_buffer: [Sprite::default(), Sprite::default(), Sprite::default(),
                Sprite::default(), Sprite::default(), Sprite::default(), Sprite::default(),
                Sprite::default()],
            sprite_count: 0,
            oam_start_address: 0,
            skipped_dots: Ghost(0),
            frames: Ghost(0),
        }
    }
}

impl Ppu {
    pub open spec fn wf(&self) -> bool {
        &&& self.scanline < 262
        &&& self.dot < 341
        &&& self.registers.wf()
        &&& self.sprite_count <= 8
        &&& self.screen_pixels@.len() == WIDTH * HEIGHT
        &&& self.bg_palette_id < 4
    }

    /// Dots since the start of the frame.
    pub open spec fn position(&self) -> int {
        self.scanline * 341 + self.dot
    }

    /// The next dot is dropped: pre-render line, dot 339, rendering on, odd frame.
    pub open spec fn skips_dot(&self) -> bool {
        self.scanline == 261 && self.dot == 339 && self.registers.mask.rendering() && self.odd_frame
    }

    /// Palette-RAM offset (0-15) of the background pixel at `scan_x`; 0 is transparent.
    pub open spec fn background_pixel(&self, scan_x: usize) -> u8 {
        let mask = (0x80u8 >> self.registers.fine_x) as u8;
        let pixel = plane_bits(
            (self.bg_shift_bits_low >> 8u16) as u8,
            (self.bg_shift_bits_high >> 8u16) as u8,
            mask,
        );
        if !self.registers.mask.background_visible(scan_x) || pixel == 0 {
            0
        } else {
            (pixel + 4 * plane_bits(self.bg_palette_bits_low, self.bg_palette_bits_high, mask)) as u8
        }
    }

    /// The first buffered sprite from `i` on with an opaque pixel at `scan_x`.
    pub open spec fn first_opaque(&self, scan_x: usize, i: int) -> Option<int>
        decreases self.sprite_count - i,
    {
        if i >= self.sprite_count || i < 0 {
            None
        } else if self.sprite_buffer[i].pixel_at(scan_x) != 0 {
            Some(i)
        } else {
            self.first_opaque(scan_x, i + 1)
        }
    }

    /// Palette-RAM offset (0-31) shown at `scan_x` over background offset `bg`.
    pub open spec fn composed_pixel(&self, scan_x: usize, bg: u8) -> u8 {
        if !self.registers.mask.sprite_visible(scan_x) {
            bg
        } else {
            match self.first_opaque(scan_x, 0) {
                None => bg,
                Some(k) => {
                    let sprite = self.sprite_buffer[k];
                    if !sprite.attributes.has(Attributes::BEHIND) || bg == 0 {
                        (sprite.pixel_at(scan_x) + ((sprite.attributes.0 & 0b11) + 4) * 4) as u8
                    } else {
                        bg
                    }
                },
            }
        }
    }

    /// The pixel at `scan_x` is sprite 0 over an opaque background, off the last column.
    pub open spec fn sprite_zero_hits(&self, scan_x: usize, bg: u8) -> bool {
        &&& self.registers.mask.sprite_visible(scan_x)
        &&& self.first_opaque(scan_x, 0).is_some()
        &&& self.sprite_buffer[self.first_opaque(scan_x, 0).unwrap()].oam_index == 0
        &&& bg != 0
        &&& scan_x != 255
    }

    /// One of the next `n` dots is where VBLANK is raised (241, 1) or cleared (261, 1).
    pub open spec fn meets_vblank_edge(&self, n: int) -> bool {
        let p = self.position();
        (p <= 241 * 341 + 1 < p + n) || (p <= 261 * 341 + 1 < p + n)
    }

    /// The background shifters after one pixel's shift.
    pub open spec fn after_shift(&self) -> Ppu {
        Ppu {
            bg_shift_bits_low: (self.bg_shift_bits_low << 1u16) as u16,
            bg_shift_bits_high: (self.bg_shift_bits_high << 1u16) as u16,
            bg_palette_bits_low: ((self.bg_palette_bits_low << 1u8) | (self.bg_palette_id & 0b01)) as u8,
            bg_palette_bits_high: ((self.bg_palette_bits_high << 1u8) | ((self.bg_palette_id & 0b10)
                >> 1u8)) as u8,
            ..*self
        }
    }

    /// After fetching the next tile at `v`: nametable byte, attribute quadrant, the two pattern
    /// planes into the low bytes of the shifters, and (when rendering) coarse X moved on.
    pub open spec fn after_reload(&self) -> Ppu {
        let v = self.registers.v.0;
        let tile = self.registers.bus.read_spec(0x2000 | (v & 0x0fff));
        let attribute = self.registers.bus.read_spec(
            0x23c0 | (v & 0x0c00) | ((v >> 4u16) & 0x38) | ((v >> 2u16) & 0x07),
        );
        let number = (tile as u16 + if self.registers.control.has(Control::BACKGROUND_SECOND_TABLE) {
            256u16
        } else {
            0u16
        }) as u16;
        let address = ((number << 4u16) | (((v >> 12u16) & 0x7) % 8)) as u16;
        Ppu {
            bg_palette_id: (attribute >> ((((v & 0x1f) % 4) / 2 + (((v >> 5u16) & 0x1f) % 4) / 2
                * 2) * 2) as u8) & 0b11,
            bg_shift_bits_low: ((self.bg_shift_bits_low & 0xff00) | (self.registers.bus.read_spec(
                address,
            ) as u16)) as u16,
            bg_shift_bits_high: ((self.bg_shift_bits_high & 0xff00) | (self.registers.bus.read_spec(
                (address | 8) as u16,
            ) as u16)) as u16,
            registers: Registers {
                v: TvRegister(
                    if self.registers.mask.rendering() {
                        coarse_x_scrolled(v)
                    } else {
                        v
                    },
                ),
                ..self.registers
            },
            ..*self
        }
    }

    /// The background work of a visible or pre-render line at this dot: shift (and every eighth
    /// dot reload) at dots 1-256 and 328-336; at dot 257, when rendering, fine Y moves on and the
    /// horizontal bits come from `t`.
    pub open spec fn after_bg_line(&self) -> Ppu {
        let dot = self.dot;
        if (1 <= dot <= 256) || (328 <= dot <= 336) {
            if (dot - 1) % 8 == 0 {
                self.after_shift().after_reload()
            } else {
                self.after_shift()
            }
        } else if dot == 257 && self.registers.mask.rendering() {
            let v = fine_y_scrolled(self.registers.v.0);
            Ppu {
                registers: Registers {
                    v: TvRegister(((v & !0x041fu16) | (self.registers.t.0 & 0x041f)) as u16),
                    ..self.registers
                },
                ..*self
            }
        } else {
            *self
        }
    }

    /// The state the pixel at a visible dot is computed from: the sprite latch at dot 65, then
    /// the background work.
    pub open spec fn before_pixel(&self) -> Ppu {
        Ppu {
            oam_start_address: if self.dot == 65 {
                self.registers.oam_address
            } else {
                self.oam_start_address
            },
            ..*self
        }.after_bg_line()
    }

    /// The background shifters and the current palette id are the same in `other`.
    pub open spec fn same_background(&self, other: &Ppu) -> bool {
        &&& other.bg_shift_bits_low == self.bg_shift_bits_low
        &&& other.bg_shift_bits_high == self.bg_shift_bits_high
        &&& other.bg_palette_id == self.bg_palette_id
        &&& other.bg_palette_bits_low == self.bg_palette_bits_low
        &&& other.bg_palette_bits_high == self.bg_palette_bits_high
    }

    /// Everything the dot pipeline never writes is the same in `other`.
    pub open spec fn same_outside_pipeline(&self, other: &Ppu) -> bool {
        &&& other.registers.bus == self.registers.bus
        &&& other.registers.control == self.registers.control
        &&& other.registers.mask == self.registers.mask
        &&& other.registers.t == self.registers.t
        &&& other.registers.latch == self.registers.latch
        &&& other.registers.fine_x == self.registers.fine_x
        &&& other.registers.oam_data == self.registers.oam_data
        &&& other.registers.read_buffer == self.registers.read_buffer
        &&& other.registers.open_bus == self.registers.open_bus
        &&& other.palette == self.palette
    }

    /// `other` is at the same dot of the same frame, with the same frame flags.
    pub open spec fn same_timing(&self, other: &Ppu) -> bool {
        &&& other.scanline == self.scanline
        &&& other.dot == self.dot
        &&& other.odd_frame == self.odd_frame
        &&& other.frame_complete == self.frame_complete
        &&& other.require_nmi == self.require_nmi
        &&& other.skipped_dots == self.skipped_dots
        &&& other.frames == self.frames
    }

    /// The RGB color of palette-RAM entry `color_index`.
    pub fn get_palette_color(&self, color_index: u8) -> (r: u32)
        ensures
            r == self.palette.0[self.registers.bus.read_spec((0x3f00 + color_index) as u16) as int % 64],
    {
        let palette_index = self.registers.bus.read_u8(0x3f00 + color_index as u16);
        self.palette.get(palette_index)
    }

    /// The four RGB colors of palette `palette_id` (0-7).
    pub fn get_palette_colors(&self, palette_id: u8) -> (r: [u32; 4])
        requires
            palette_id < 8,
        ensures
            forall|i: int|
                0 <= i < 4 ==> r[i] == self.palette.0[self.registers.bus.read_spec(
                    (0x3f00 + palette_id * 4 + i) as u16,
                ) as int % 64],
    {
        let base = palette_id * 4;
        [
            self.get_palette_color(base),
            self.get_palette_color(base + 1),
            self.get_palette_color(base + 2),
            self.get_palette_color(base + 3),
        ]
    }

    /// Advances the PPU by one dot.
    #[verifier::rlimit(60)]
    pub fn clock(&mut self)
        requires
            old(self).wf(),
        ensures
            old(self).scanline < 240 ==> old(self).before_pixel().same_background(final(self))
                && final(self).registers.v == old(self).before_pixel().registers.v,
            old(self).scanline < 240 && 1 <= old(self).dot <= 256 && old(self).registers.mask.rendering()
                ==> ({
                let l = old(self).before_pixel();
                let x = (old(self).dot - 1) as usize;
                let bg = l.background_pixel(x);
                let fg = l.composed_pixel(x, bg);
                &&& final(self).screen_pixels@[x + 256 * old(self).scanline] == l.palette.0[l.registers.bus.read_spec(
                    (0x3f00 + fg) as u16,
                ) as int % 64]
                &&& l.sprite_zero_hits(x, bg) ==> final(self).registers.status.has(Status::SPRITE_0_HIT)
            }),
            final(self).frames@ == old(self).frames@ + if final(self).position() == 0 { 1int } else { 0 },
            !old(self).registers.mask.rendering() ==> final(self).registers.v == old(self).registers.v,
            !(old(self).scanline == 241 && old(self).dot == 1) && !(old(self).scanline == 261
                && old(self).dot == 1) ==> final(self).registers.status.0 & 0x80 == old(self).registers.status.0 & 0x80,
            final(self).wf(),
            final(self).position() == (old(self).position() + 1 + if old(self).skips_dot() {
                1int
            } else {
                0
            }) % frame_dots(),
            final(self).skipped_dots@ == old(self).skipped_dots@ + if old(self).skips_dot() {
                1int
            } else {
                0
            },
            old(self).same_outside_pipeline(final(self)),
            final(self).position() < old(self).position() ==> final(self).position() == 0,
            old(self).scanline == 241 && old(self).dot == 1 ==> final(self).registers.status.has(
                Status::VBLANK,
            ) && final(self).require_nmi == (old(self).require_nmi || old(
                self,
            ).registers.control.has(Control::VBLANK_NMI)),
            !(old(self).scanline == 241 && old(self).dot == 1) ==> final(self).require_nmi == old(
                self,
            ).require_nmi,
            final(self).frame_complete == (old(self).frame_complete || final(self).position()
                == 0),
            final(self).odd_frame == (old(self).odd_frame != (final(self).position() == 0)),
            old(self).scanline == 261 && old(self).dot == 1 ==> final(self).registers.status.0 == 0,
    {
        let line = self.scanline;
        let dot = self.dot;
        if line < 240 {
            self.clock_sprite_render_line();
            self.clock_bg_render_line();
        } else if line == 241 && dot == 1 {
            let s = self.registers.status.0;
            assert((s | 0x80u8) & 0x80u8 != 0) by (bit_vector);
            self.registers.status = Status(s | Status::VBLANK);
            if self.registers.control.0 & Control::VBLANK_NMI != 0 {
                self.require_nmi = true;
            }
        } else if line == 261 {
            self.clock_sprite_render_line();
            self.clock_prerender_line();
        }
        if dot >= 1 && dot - 1 < 256 && line < 240 && self.registers.mask.is_rendering() {
            let x = (dot - 1) as usize;
            let y = line as usize;
            let bg_color_index = self.render_bg_pixel(x);
            let fg_color_index = self.render_fg_pixel(x, bg_color_index);
            let color = self.get_palette_color(fg_color_index);
            self.screen_pixels.set(x + y * WIDTH, color);
        }
        if line == 261 && dot == 339 && self.registers.mask.is_rendering() && self.odd_frame {
            self.dot = 340;
            self.skipped_dots = Ghost(self.skipped_dots@ + 1);
        }
        self.next_dot();
    }

    /// Background work of a visible or pre-render line.
    fn clock_bg_render_line(&mut self)
        requires
            old(self).wf(),
        ensures
            *final(self) == old(self).after_bg_line(),
            !old(self).registers.mask.rendering() ==> final(self).registers.v == old(self).registers.v,
            !((1 <= old(self).dot <= 256) || (328 <= old(self).dot <= 336) || old(self).dot == 257)
                ==> final(self).registers.v == old(self).registers.v,
            final(self).wf(),
            old(self).same_timing(final(self)),
            old(self).same_outside_pipeline(final(self)),
            final(self).registers.status == old(self).registers.status,
    {
        let dot = self.dot;
        if (1 <= dot && dot <= 256) || (328 <= dot && dot <= 336) {
            self.shift_registers();
            if (dot - 1) % 8 == 0 {
                self.load_background_shift_bits();
            }
        } else if dot == 257 {
            if self.registers.mask.is_rendering() {
                self.registers.v.scroll_fine_y();
                let t = self.registers.t;
                self.registers.v.set_x(&t);
            }
        }
    }

    /// Pre-render line: the background work of a visible line, plus flag clearing and the
    /// vertical scroll copy.
    fn clock_prerender_line(&mut self)
        requires
            old(self).wf(),
        ensures
            !old(self).registers.mask.rendering() ==> final(self).registers.v == old(self).registers.v,
            old(self).dot != 1 ==> final(self).registers.status == old(self).registers.status,
            280 <= old(self).dot <= 304 && old(self).registers.mask.rendering()
                ==> final(self).registers.v.0 == (old(self).registers.v.0 & !0x7be0u16) | (old(self).registers.t.0 & 0x7be0),
            final(self).wf(),
            old(self).same_timing(final(self)),
            old(self).same_outside_pipeline(final(self)),
            old(self).dot == 1 ==> final(self).registers.status.0 == 0,
    {
        let dot = self.dot;
        if dot == 1 {
            self.registers.status = Status(0);
        } else if 280 <= dot && dot <= 304 {
            if self.registers.mask.is_rendering() {
                let t = self.registers.t;
                self.registers.v.set_y(&t);
            }
        }
        self.clock_bg_render_line();
    }

    /// Fetches the next tile's nametable, attribute and pattern bytes into the shifters.
    fn load_background_shift_bits(&mut self)
        requires
            old(self).wf(),
        ensures
            *final(self) == old(self).after_reload(),
            !old(self).registers.mask.rendering() ==> final(self).registers.v == old(self).registers.v,
            final(self).wf(),
            old(self).same_timing(final(self)),
            old(self).same_outside_pipeline(final(self)),
            final(self).registers.status == old(self).registers.status,
    {
        let tile_number = self.registers.bus.read_u8(self.registers.v.nametable_address());
        let attribute_byte = self.registers.bus.read_u8(self.registers.v.attribute_address());
        self.bg_palette_id = self.registers.v.shift_attribute(attribute_byte);
        let v = self.registers.v.0;
        let fine_y = (v >> 12u16) & 0x7;
        let (tile_lsb, tile_msb) = self.registers.bus.read_pattern_tile_planes(
            tile_number as u16 + self.registers.control.background_table_offset(),
            fine_y,
        );
        self.bg_shift_bits_low = (self.bg_shift_bits_low & 0xff00) | tile_lsb as u16;
        self.bg_shift_bits_high = (self.bg_shift_bits_high & 0xff00) | tile_msb as u16;
        if self.registers.mask.is_rendering() {
            self.registers.v.scroll_coarse_x();
        }
    }

    /// Sprite work of a visible or pre-render line.
    #[verifier::rlimit(60)]
    fn clock_sprite_render_line(&mut self)
        requires
            old(self).wf(),
        ensures
            old(self).dot == 321 ==> forall|k: int| 0 <= k < old(self).sprite_count ==> #[trigger] final(self).sprite_buffer[k]
                == old(self).sprite_buffer[k].fetched(old(self).scanline, old(self).registers),
            old(self).same_background(final(self)),
            old(self).dot == 257 && old(self).scanline < 240 ==> ({
                let scan = sprite_scan(
                    old(self).registers.oam_data@,
                    old(self).scanline,
                    old(self).registers.control.sprite_height_spec(),
                    old(self).oam_start_address as int,
                    seq![],
                );
                &&& final(self).sprite_count == scan.0.len()
                &&& final(self).sprite_buffer@.subrange(0, final(self).sprite_count as int) == scan.0
                &&& final(self).registers.status.0 == if scan.1 {
                    old(self).registers.status.0 | Status::SPRITE_OVERFLOW
                } else {
                    old(self).registers.status.0
                }
            }),
            258 <= old(self).dot <= 320 ==> final(self).registers.oam_address == 0,
            final(self).sprite_count == old(self).sprite_count || old(self).dot == 257,
            old(self).dot == 65 ==> *final(self) == (Ppu { oam_start_address: old(self).registers.oam_address, ..*old(self) }),
            old(self).dot != 65 && old(self).dot < 257 ==> *final(self) == *old(self),
            final(self).wf(),
            old(self).same_timing(final(self)),
            old(self).same_outside_pipeline(final(self)),
            final(self).registers.v == old(self).registers.v,
            final(self).registers.status.0 & Status::VBLANK == old(self).registers.status.0 & Status::VBLANK,
            old(self).dot != 257 ==> final(self).registers.status == old(self).registers.status,
    {
        let dot = self.dot;
        if dot == 65 {
            self.oam_start_address = self.registers.oam_address;
        } else if dot == 257 {
            if (self.scanline as usize) < HEIGHT {
                self.eval_sprites();
            }
        } else if 258 <= dot && dot <= 320 {
            self.registers.oam_address = 0;
        } else if dot == 321 {
            let height = self.registers.control.sprite_height();
            let count = self.sprite_count as usize;
            let mut i: usize = 0;
            while i < count
                invariant
                    i <= count,
                    count == self.sprite_count,
                    self.wf(),
                    old(self).same_timing(self),
                    old(self).same_outside_pipeline(self),
                    self.registers.v == old(self).registers.v,
                    self.registers.status == old(self).registers.status,
                    height == self.registers.control.sprite_height_spec(),
                    old(self).same_background(self),
                    self.scanline == old(self).scanline,
                    self.registers == old(self).registers,
                    forall|k: int| 0 <= k < i ==> #[trigger] self.sprite_buffer[k] == old(self).sprite_buffer[k].fetched(
                        old(self).scanline, old(self).registers),
                    forall|k: int| i <= k < 8 ==> #[trigger] self.sprite_buffer[k] == old(self).sprite_buffer[k],
                decreases count - i,
            {
                let mut sprite = self.sprite_buffer[i];
                if sprite.y_intersects(self.scanline, height) {
                    sprite.load_shift_bits(self.scanline, &self.registers);
                } else {
                    sprite.color_bits_low = 0;
                    sprite.color_bits_high = 0;
                }
                self.sprite_buffer[i] = sprite;
                i += 1;
            }
        }
    }

    /// Picks up to eight sprites of OAM that cover the current scanline, starting at the latched
    /// OAM address; a ninth sets SPRITE_OVERFLOW, with the hardware's misaligned scan after the
    /// buffer is full.
    #[verifier::rlimit(60)]
    fn eval_sprites(&mut self)
        requires
            old(self).wf(),
        ensures
            old(self).same_background(final(self)),
            final(self).wf(),
            old(self).same_timing(final(self)),
            old(self).same_outside_pipeline(final(self)),
            final(self).registers.v == old(self).registers.v,
            final(self).registers.status.0 & Status::VBLANK == old(self).registers.status.0 & Status::VBLANK,
            forall|k: int| 0 <= k < final(self).sprite_count ==> #[trigger] final(self).sprite_buffer[k].intersects(
                final(self).scanline, final(self).registers.control.sprite_height_spec()),
            ({
                let scan = sprite_scan(
                    old(self).registers.oam_data@,
                    old(self).scanline,
                    old(self).registers.control.sprite_height_spec(),
                    old(self).oam_start_address as int,
                    seq![],
                );
                &&& final(self).sprite_count == scan.0.len()
                &&& final(self).sprite_buffer@.subrange(0, final(self).sprite_count as int) == scan.0
                &&& final(self).registers.status.0 == if scan.1 {
                    old(self).registers.status.0 | Status::SPRITE_OVERFLOW
                } else {
                    old(self).registers.status.0
                }
            }),
    {
        self.sprite_count = 0;
        let height = self.registers.control.sprite_height();
        let mut i: usize = self.oam_start_address as usize;
        let mut overflow = false;
        let ghost oam = self.registers.oam_data@;
        let ghost whole = sprite_scan(oam, self.scanline, height, i as int, seq![]);
        assert(self.sprite_buffer@.subrange(0, 0) =~= Seq::<Sprite>::empty());
        while i < 256 && !overflow
            invariant
                i <= 261,
                self.wf(),
                old(self).same_timing(self),
                old(self).same_outside_pipeline(self),
                self.registers.v == old(self).registers.v,
                self.registers.status == old(self).registers.status,
                height == self.registers.control.sprite_height_spec(),
                oam == self.registers.oam_data@,
                old(self).same_background(self),
                whole == sprite_scan(oam, self.scanline, height, old(self).oam_start_address as int, seq![]),
                forall|k: int| 0 <= k < self.sprite_count ==> #[trigger] self.sprite_buffer[k].intersects(
                    self.scanline, height),
                !overflow ==> sprite_scan(oam, self.scanline, height, i as int,
                    self.sprite_buffer@.subrange(0, self.sprite_count as int)) == whole,
                overflow ==> whole == (self.sprite_buffer@.subrange(0, self.sprite_count as int), true)
                    && self.sprite_count == 8,
            decreases 2 * (261 - i) + if overflow { 0int } else { 1 },
        {
            let entry = [
                self.registers.oam_data[i],
                if i + 1 < 256 { self.registers.oam_data[i + 1] } else { 0 },
                if i + 2 < 256 { self.registers.oam_data[i + 2] } else { 0 },
                if i + 3 < 256 { self.registers.oam_data[i + 3] } else { 0 },
            ];
            let mut sprite = Sprite::new(&entry);
            sprite.oam_index = (i / 4) as u8;
            assert(sprite == oam_entry(oam, i as int));
            let ghost prefix = self.sprite_buffer@.subrange(0, self.sprite_count as int);
            if sprite.y_intersects(self.scanline, height) {
                if self.sprite_count == 8 {
                    overflow = true;
                } else {
                    self.sprite_buffer[self.sprite_count as usize] = sprite;
                    self.sprite_count = self.sprite_count + 1;
                    assert(self.sprite_buffer@.subrange(0, self.sprite_count as int) =~= prefix.push(sprite));
                    i += 4;
                }
            } else {
                if self.sprite_count == 8 {
                    i += 1;
                }
                i += 4;
            }
        }
        if overflow {
            let s = self.registers.status.0;
            assert((s | 0x20u8) & 0x80u8 == s & 0x80u8) by (bit_vector);
            self.registers.status = Status(s | Status::SPRITE_OVERFLOW);
        }
    }

    /// Palette-RAM offset (0-15) of the background at column `scan_x`; 0 is transparent.
    fn render_bg_pixel(&self, scan_x: usize) -> (r: u8)
        requires
            self.wf(),
        ensures
            r < 16,
            r == self.background_pixel(scan_x),
    {
        if !self.registers.mask.can_show_background(scan_x) {
            return 0;
        }
        let bit_mask: u8 = 0x80u8 >> self.registers.fine_x;
        let color_index = add_bit_planes(
            (self.bg_shift_bits_low >> 8u16) as u8,
            (self.bg_shift_bits_high >> 8u16) as u8,
            bit_mask,
        );
        if color_index != 0 {
            let palette_id = add_bit_planes(
                self.bg_palette_bits_low,
                self.bg_palette_bits_high,
                bit_mask,
            );
            color_index + 4 * palette_id
        } else {
            0
        }
    }

    /// Palette-RAM offset (0-31) of the pixel at `scan_x`: the first sprite with an opaque pixel
    /// there wins over the background unless it is behind an opaque background. Sets
    /// SPRITE_0_HIT when sprite 0 is that sprite over an opaque background, off the last column.
    #[verifier::rlimit(60)]
    fn render_fg_pixel(&mut self, scan_x: usize, bg_color_index: u8) -> (r: u8)
        requires
            old(self).wf(),
            bg_color_index < 16,
            scan_x < 256,
        ensures
            old(self).same_background(final(self)),
            !old(self).sprite_zero_hits(scan_x, bg_color_index) ==> final(self).registers.status
                == old(self).registers.status,
            r < 32,
            final(self).wf(),
            old(self).same_timing(final(self)),
            old(self).same_outside_pipeline(final(self)),
            final(self).registers.v == old(self).registers.v,
            final(self).registers.status.0 & Status::VBLANK == old(self).registers.status.0 & Status::VBLANK,
            r == old(self).composed_pixel(scan_x, bg_color_index),
            old(self).sprite_zero_hits(scan_x, bg_color_index) ==> final(self).registers.status.has(
                Status::SPRITE_0_HIT,
            ),
    {
        if !self.registers.mask.can_show_sprite(scan_x) {
            return bg_color_index;
        }
        let count = self.sprite_count as usize;
        let mut i: usize = 0;
        while i < count
            invariant
                i <= count,
                count == self.sprite_count,
                bg_color_index < 16,
                self.wf(),
                old(self).same_timing(self),
                old(self).same_outside_pipeline(self),
                self.registers.v == old(self).registers.v,
                self.registers.status.0 & Status::VBLANK == old(self).registers.status.0 & Status::VBLANK,
                self.sprite_buffer == old(self).sprite_buffer,
                self.sprite_count == old(self).sprite_count,
                self.registers.mask == old(self).registers.mask,
                self.registers.mask.sprite_visible(scan_x),
                old(self).first_opaque(scan_x, 0) == old(self).first_opaque(scan_x, i as int),
                self.registers.status == old(self).registers.status,
                old(self).same_background(self),
            decreases count - i,
        {
            let sprite = self.sprite_buffer[i];
            let color_index = sprite.color_index(scan_x);
            if color_index != 0 {
                if sprite.oam_index == 0 && bg_color_index != 0 && scan_x != 255 {
                    let s = self.registers.status.0;
                    assert((s | 0x40u8) & 0x80u8 == s & 0x80u8 && (s | 0x40u8) & 0x40u8 != 0) by (bit_vector);
                    self.registers.status = Status(s | Status::SPRITE_0_HIT);
                }
                let palette_id = sprite.attributes.palette() + 4;
                let behind_bg = sprite.attributes.0 & Attributes::BEHIND != 0;
                if !behind_bg || bg_color_index == 0 {
                    return color_index + palette_id * 4;
                }
                return bg_color_index;
            }
            i += 1;
        }
        bg_color_index
    }

    /// Shifts the background pattern and palette shifters by one pixel.
    fn shift_registers(&mut self)
        requires
            old(self).wf(),
        ensures
            *final(self) == old(self).after_shift(),
            final(self).wf(),
            old(self).same_timing(final(self)),
            old(self).same_outside_pipeline(final(self)),
            final(self).registers == old(self).registers,
    {
        self.bg_shift_bits_low = self.bg_shift_bits_low << 1u16;
        self.bg_shift_bits_high = self.bg_shift_bits_high << 1u16;
        let palette_lsb = self.bg_palette_id & 0b01;
        let palette_msb = (self.bg_palette_id & 0b10) >> 1u8;
        self.bg_palette_bits_low = (self.bg_palette_bits_low << 1u8) | palette_lsb;
        self.bg_palette_bits_high = (self.bg_palette_bits_high << 1u8) | palette_msb;
    }

    /// Moves to the next dot, wrapping the line at 341 dots and the frame at 262 lines.
    fn next_dot(&mut self)
        requires
            old(self).scanline < 262,
            old(self).dot <= 340,
        ensures
            *final(self) == (Ppu {
                scanline: final(self).scanline,
                dot: final(self).dot,
                odd_frame: final(self).odd_frame,
                frame_complete: final(self).frame_complete,
                frames: final(self).frames,
                ..*old(self)
            }),
            final(self).scanline < 262,
            final(self).dot < 341,
            final(self).position() == (old(self).position() + 1) % frame_dots(),
            final(self).odd_frame == (old(self).odd_frame != (final(self).position() == 0)),
            final(self).frame_complete == (old(self).frame_complete || final(self).position() == 0),
            final(self).registers == old(self).registers,
            final(self).require_nmi == old(self).require_nmi,
            final(self).skipped_dots == old(self).skipped_dots,
            final(self).frames@ == old(self).frames@ + if final(self).position() == 0 { 1int } else { 0 },
            final(self).screen_pixels == old(self).screen_pixels,
            final(self).sprite_count == old(self).sprite_count,
            final(self).bg_palette_id == old(self).bg_palette_id,
            final(self).palette == old(self).palette,
    {
        self.dot = self.dot + 1;
        if self.dot == DOTS_PER_SCANLINE {
            self.dot = 0;
            self.scanline = self.scanline + 1;
        }
        if self.scanline == SCANLINES_PER_FRAME {
            self.odd_frame = !self.odd_frame;
            self.frame_complete = true;
            self.frames = Ghost(self.frames@ + 1);
            self.scanline = 0;
        }
    }
}

} // verus!
