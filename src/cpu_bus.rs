use vstd::prelude::*;

use crate::cartridge::Cartridge;
use crate::controller::Controller;
use crate::ppu::{frame_dots, Ppu};

verus! {

/// `((a mod F) + b) mod F == (a + b) mod F` for the frame length F.
pub proof fn lemma_frame_mod(a: int, b: int)
    ensures
        ((a % frame_dots()) + b) % frame_dots() == (a + b) % frame_dots(),
{
    vstd::arithmetic::div_mod::lemma_add_mod_noop_right(b, a, frame_dots());
}

/// The CPU's address space: RAM, PPU registers, controllers and the cartridge window.
#[derive(Clone)]
pub struct CpuBus {
    /// 2 KiB of RAM, mirrored through `$0000-$1FFF`.
    pub ram: [u8; 2048],
    /// Cycles taken by the current instruction so far.
    pub cpu_cycles_to_wait: u32,
    /// Cycles since reset, wrapping.
    pub cpu_cycles_total: u32,
    pub ppu: Ppu,
    /// The last byte read.
    pub open_bus: u8,
    pub controllers: [Controller; 2],
}

impl Default for CpuBus {
    fn default() -> (r: Self)
        ensures
            r.wf(),
            r.cpu_cycles_to_wait == 0,
            r.cartridge().is_none(),
            r.ppu.scanline == 0 && r.ppu.dot == 0 && !r.ppu.require_nmi,
    {
        CpuBus {
            ram: [0u8; 2048],
            cpu_cycles_to_wait: 0,
            cpu_cycles_total: 0,
            ppu: Ppu::default(),
            open_bus: 0,
            controllers: [Controller::default(), Controller::default()],
        }
    }
}

/// `new` is `old` after `new.cpu_cycles_to_wait - old.cpu_cycles_to_wait` cycles: the PPU has
/// moved three dots per cycle, plus the dots the odd-frame skip dropped.
pub open spec fn advanced(old: &CpuBus, new: &CpuBus) -> bool {
    &&& new.cpu_cycles_to_wait >= old.cpu_cycles_to_wait
    &&& new.ppu.skipped_dots@ >= old.ppu.skipped_dots@
    &&& new.ppu.skipped_dots@ - old.ppu.skipped_dots@ <= 3 * (new.cpu_cycles_to_wait
        - old.cpu_cycles_to_wait)
    &&& (old.ppu.frame_complete || new.ppu.position() < old.ppu.position())
        ==> new.ppu.frame_complete
    &&& new.ppu.frames@ >= old.ppu.frames@
    &&& new.ppu.frame_complete ==> old.ppu.frame_complete || new.ppu.frames@ > old.ppu.frames@
    &&& new.ppu.position() == (old.ppu.position() + 3 * (new.cpu_cycles_to_wait
        - old.cpu_cycles_to_wait) + (new.ppu.skipped_dots@ - old.ppu.skipped_dots@))
        % frame_dots()
}

pub proof fn lemma_advanced_trans(a: &CpuBus, b: &CpuBus, c: &CpuBus)
    requires
        advanced(a, b),
        advanced(b, c),
    ensures
        advanced(a, c),
{
    let x = a.ppu.position() + 3 * (b.cpu_cycles_to_wait - a.cpu_cycles_to_wait) + (
    b.ppu.skipped_dots@ - a.ppu.skipped_dots@);
    let y = 3 * (c.cpu_cycles_to_wait - b.cpu_cycles_to_wait) + (c.ppu.skipped_dots@
        - b.ppu.skipped_dots@);
    lemma_frame_mod(x, y);
}

/// A little-endian word from two bytes.
pub proof fn lemma_word(lsb: u16, msb: u16)
    requires
        lsb < 256,
        msb < 256,
    ensures
        (msb << 8u16) | lsb == msb * 256 + lsb,
        lsb | (msb << 8u16) == lsb + 256 * msb,
{
    assert((msb << 8u16) | lsb == msb * 256 + lsb && lsb | (msb << 8u16) == lsb + 256 * msb) by (bit_vector)
        requires
            lsb < 256,
            msb < 256,
    ;
}

/// Cycle accounting composes.
pub broadcast proof fn lemma_advanced_chain(a: &CpuBus, b: &CpuBus, c: &CpuBus)
    requires
        advanced(a, b),
        advanced(b, c),
    ensures
        #![trigger advanced(a, b), advanced(b, c)]
        advanced(a, c),
{
    lemma_advanced_trans(a, b, c);
}

/// No cycles, no movement.
pub broadcast proof fn lemma_advanced_refl(a: &CpuBus)
    requires
        a.wf(),
    ensures
        #[trigger] advanced(a, a),
{
    assert(a.ppu.position() % frame_dots() == a.ppu.position()) by {
        vstd::arithmetic::div_mod::lemma_small_mod(a.ppu.position() as nat, frame_dots() as nat);
    }
}

/// `new` differs from `old` only in the PPU's dot pipeline and the cycle counters.
pub open spec fn only_ticked(old: &CpuBus, new: &CpuBus) -> bool {
    &&& new.ram == old.ram
    &&& new.open_bus == old.open_bus
    &&& new.controllers == old.controllers
    &&& old.ppu.same_outside_pipeline(&new.ppu)
}

impl CpuBus {
    pub open spec fn wf(&self) -> bool {
        self.ppu.wf()
    }

    pub open spec fn cartridge(&self) -> Option<Cartridge> {
        self.ppu.registers.bus.cartridge
    }

    /// What a side-effect-free read of `address` returns.
    pub open spec fn peek(&self, address: u16) -> u8 {
        if address < 0x2000 {
            self.ram[address as int % 2048]
        } else if address < 0x4000 {
            self.ppu.registers.peek(address)
        } else if address >= 0x4020 {
            match self.cartridge() {
                Some(c) => match c.cpu_read_spec(address) {
                    Some(b) => b,
                    None => self.open_bus,
                },
                None => self.open_bus,
            }
        } else {
            self.open_bus
        }
    }

    /// A read of `address` has no side effect and does not depend on the open bus: RAM, or a
    /// cartridge address that the mapper drives.
    pub open spec fn settled(&self, address: u16) -> bool {
        address < 0x2000 || (address >= 0x4020 && match self.cartridge() {
            Some(c) => c.cpu_read_spec(address).is_some(),
            None => false,
        })
    }

    /// What a read of `address` returns.
    pub open spec fn read_value(&self, address: u16) -> u8 {
        if address == 0x4016 {
            self.controllers[0].read_value()
        } else if address == 0x4017 {
            self.controllers[1].read_value()
        } else {
            self.peek(address)
        }
    }

    /// Reads without side effects (for debuggers and the disassembler).
    pub fn immut_read_u8(&self, address: u16) -> (r: u8)
        ensures
            r == self.peek(address),
    {
        if address < 0x2000 {
            self.ram[(address % 2048) as usize]
        } else if address < 0x4000 {
            self.ppu.registers.immut_read_u8(address)
        } else if address >= 0x4020 {
            match &self.ppu.registers.bus.cartridge {
                Some(c) => match c.cpu_read(address) {
                    Some(b) => b,
                    None => self.open_bus,
                },
                None => self.open_bus,
            }
        } else {
            self.open_bus
        }
    }

    /// Reads a byte, with the side effects of the device read, then runs one cycle.
    #[verifier::rlimit(60)]
    pub fn read_u8(&mut self, address: u16) -> (r: u8)
        requires
            old(self).wf(),
            old(self).cpu_cycles_to_wait < u32::MAX,
        ensures
            final(self).ppu.registers.control == old(self).ppu.registers.control,
            final(self).ppu.registers.mask == old(self).ppu.registers.mask,
            0x2000 <= address < 0x4000 ==> ({
                let after = old(self).ppu.registers.after_read(address);
                &&& !old(self).ppu.registers.mask.rendering() ==> final(self).ppu.registers.v == after.v
                &&& !old(self).ppu.meets_vblank_edge(3) ==> final(self).ppu.registers.status.0 & 0x80
                    == after.status.0 & 0x80
            }),
            final(self).cpu_cycles_total == old(self).cpu_cycles_total.wrapping_add(1),
            final(self).wf(),
            r == old(self).read_value(address),
            final(self).open_bus == r,
            final(self).ram == old(self).ram,
            final(self).cpu_cycles_to_wait == old(self).cpu_cycles_to_wait + 1,
            advanced(old(self), final(self)),
            final(self).cartridge() == old(self).cartridge(),
            final(self).controllers == if address == 0x4016 {
                [old(self).controllers[0].after_read(), old(self).controllers[1]]
            } else if address == 0x4017 {
                [old(self).controllers[0], old(self).controllers[1].after_read()]
            } else {
                old(self).controllers
            },
            !(0x2000 <= address < 0x4000) ==> old(self).ppu.same_outside_pipeline(&final(self).ppu),
            0x2000 <= address < 0x4000 ==> ({
                let after = old(self).ppu.registers.after_read(address);
                &&& final(self).ppu.registers.latch == after.latch
                &&& final(self).ppu.registers.read_buffer == after.read_buffer
                &&& final(self).ppu.registers.bus == after.bus
            }),
    {
        let output = if 0x2000 <= address && address < 0x4000 {
            self.ppu.registers.read_u8(address)
        } else if address == 0x4016 {
            let mut c = self.controllers[0];
            let b = c.read_u8();
            self.controllers[0] = c;
            b
        } else if address == 0x4017 {
            let mut c = self.controllers[1];
            let b = c.read_u8();
            self.controllers[1] = c;
            b
        } else {
            self.immut_read_u8(address)
        };
        self.open_bus = output;
        self.clock();
        output
    }

    /// Writes a byte to the device at `address`, then runs one cycle.
    #[verifier::rlimit(60)]
    pub fn write_u8(&mut self, address: u16, value: u8)
        requires
            old(self).wf(),
            old(self).cpu_cycles_to_wait < u32::MAX,
        ensures
            0x2000 <= address < 0x4000 ==> ({
                let after = old(self).ppu.registers.after_write(
                    address,
                    value,
                    final(self).ppu.registers.bus,
                    final(self).ppu.registers.oam_data,
                );
                &&& final(self).ppu.registers.t == after.t
                &&& final(self).ppu.registers.latch == after.latch
                &&& final(self).ppu.registers.fine_x == after.fine_x
                &&& final(self).ppu.registers.control == after.control
                &&& final(self).ppu.registers.mask == after.mask
                &&& !after.mask.rendering() ==> final(self).ppu.registers.v == after.v
            }),
            final(self).cpu_cycles_total == old(self).cpu_cycles_total.wrapping_add(1),
            final(self).wf(),
            final(self).cpu_cycles_to_wait == old(self).cpu_cycles_to_wait + 1,
            advanced(old(self), final(self)),
            final(self).open_bus == old(self).open_bus,
            final(self).ram@ == if address < 0x2000 {
                old(self).ram@.update(address as int % 2048, value)
            } else {
                old(self).ram@
            },
            final(self).controllers == if address == 0x4016 || address == 0x4017 {
                [old(self).controllers[0].after_write(value), old(self).controllers[1].after_write(value)]
            } else {
                old(self).controllers
            },
            address < 0x2000 || (0x4000 <= address < 0x4020) ==> final(self).cartridge() == old(self).cartridge(),
            address >= 0x4020 ==> match old(self).cartridge() {
                None => final(self).cartridge().is_none(),
                Some(c) => final(self).cartridge().is_some() && c.same_but_ram(&final(self).cartridge().unwrap())
                    && final(self).cartridge().unwrap().banks.prg_ram@ == c.prg_ram_after_write(address, value)
                    && final(self).cartridge().unwrap().banks.chr_ram@ == c.banks.chr_ram@,
            },
            !(0x2000 <= address < 0x4000) ==> final(self).ppu.registers.bus.nametable_ram == old(self).ppu.registers.bus.nametable_ram
                && final(self).ppu.registers.bus.palette_ram == old(self).ppu.registers.bus.palette_ram,
    {
        if address < 0x2000 {
            self.ram[(address % 2048) as usize] = value;
        } else if address < 0x4000 {
            self.ppu.registers.write_u8(address, value);
        } else if address == 0x4016 || address == 0x4017 {
            let mut c0 = self.controllers[0];
            c0.write_u8(value);
            let mut c1 = self.controllers[1];
            c1.write_u8(value);
            self.controllers = [c0, c1];
        } else if address >= 0x4020 {
            match &mut self.ppu.registers.bus.cartridge {
                Some(c) => c.cpu_write(address, value),
                None => {},
            }
        }
        self.clock();
    }

    /// Reads a little-endian word at `address` and `address + 1`.
    pub fn read_u16(&mut self, address: u16) -> (r: u16)
        requires
            old(self).wf(),
            old(self).cpu_cycles_to_wait < u32::MAX - 1,
        ensures
            final(self).cpu_cycles_total == old(self).cpu_cycles_total.wrapping_add(1).wrapping_add(1),
            final(self).wf(),
            final(self).cpu_cycles_to_wait == old(self).cpu_cycles_to_wait + 2,
            advanced(old(self), final(self)),
            final(self).ram == old(self).ram,
            final(self).cartridge() == old(self).cartridge(),
            address < 0x1fff ==> r == old(self).ram[address as int % 2048] + 256 * old(self).ram[(address as int + 1) % 2048],
            old(self).settled(address) && old(self).settled(address.wrapping_add(1)) ==> r == old(
                self,
            ).peek(address) + 256 * old(self).peek(address.wrapping_add(1)),
    {
        let lsb = self.read_u8(address) as u16;
        let ghost mid = *self;
        let msb = self.read_u8(address.wrapping_add(1)) as u16;
        proof {
            lemma_advanced_trans(old(self), &mid, self);
        }
        proof {
            lemma_word(lsb, msb);
        }
        (msb << 8u16) | lsb
    }

    /// Reads a word whose high byte comes from the same 256-byte page as the low byte.
    #[verifier::rlimit(60)]
    pub fn read_u16_wrapped(&mut self, address: u16) -> (r: u16)
        requires
            old(self).wf(),
            old(self).cpu_cycles_to_wait < u32::MAX - 1,
        ensures
            final(self).cpu_cycles_total == old(self).cpu_cycles_total.wrapping_add(1).wrapping_add(1),
            final(self).wf(),
            final(self).cpu_cycles_to_wait == old(self).cpu_cycles_to_wait + 2,
            advanced(old(self), final(self)),
            final(self).ram == old(self).ram,
            final(self).cartridge() == old(self).cartridge(),
            address < 0x2000 ==> r == old(self).ram[address as int % 2048] + 256 * old(self).ram[
                ((address & 0xff00) | (((address + 1) % 256) as u16)) as int % 2048],
            old(self).settled(address) && old(self).settled(
                ((address & 0xff00) | (((address + 1) % 256) as u16)) as u16,
            ) ==> r == old(self).peek(address) + 256 * old(self).peek(
                ((address & 0xff00) | (((address + 1) % 256) as u16)) as u16,
            ),
    {
        let lsb = self.read_u8(address) as u16;
        let ghost mid = *self;
        let high_address = (address & 0xff00) | (address.wrapping_add(1) & 0x00ff);
        assert((address < 0x2000 ==> (address & 0xff00) | ((address + 1) as u16 & 0x00ff) < 0x2000)
            && (address < 0xffff ==> (address + 1) as u16 & 0x00ff == (address + 1) % 256)
            && (address == 0xffff ==> 0u16 & 0x00ff == 0)) by (bit_vector);
        let msb = self.read_u8(high_address) as u16;
        proof {
            lemma_advanced_trans(old(self), &mid, self);
        }
        proof {
            lemma_word(lsb, msb);
        }
        (msb << 8u16) | lsb
    }

    /// Writes a little-endian word at `address` and `address + 1`.
    pub fn write_u16(&mut self, address: u16, value: u16)
        requires
            old(self).wf(),
            old(self).cpu_cycles_to_wait < u32::MAX - 1,
        ensures
            0x4020 <= address < 0xffff ==> match old(self).cartridge() {
                None => final(self).cartridge().is_none(),
                Some(c) => final(self).cartridge().is_some() && c.same_but_ram(&final(self).cartridge().unwrap())
                    && final(self).cartridge().unwrap().banks.chr_ram@ == c.banks.chr_ram@
                    && final(self).cartridge().unwrap().banks.prg_ram@ == crate::cartridge::prg_ram_written(
                    c.mapper,
                    crate::cartridge::prg_ram_written(c.mapper, c.banks.prg_ram@, address, (value % 256) as u8),
                    (address + 1) as u16,
                    (value / 256) as u8,
                ),
            },
            0x4020 <= address < 0xffff ==> final(self).ram == old(self).ram,
            final(self).cpu_cycles_total == old(self).cpu_cycles_total.wrapping_add(1).wrapping_add(1),
            final(self).wf(),
            final(self).cpu_cycles_to_wait == old(self).cpu_cycles_to_wait + 2,
            advanced(old(self), final(self)),
            address < 0x1fff ==> final(self).ram@ == old(self).ram@.update(address as int % 2048, (value % 256) as u8).update(
                (address as int + 1) % 2048, (value / 256) as u8),
    {
        let lsb = (value & 0xff) as u8;
        let msb = (value >> 8u16) as u8;
        assert(value & 0xff == value % 256 && value >> 8u16 == value / 256) by (bit_vector);
        self.write_u8(address, lsb);
        let ghost mid = *self;
        self.write_u8(address.wrapping_add(1), msb);
        proof {
            lemma_advanced_trans(old(self), &mid, self);
        }
    }

    /// Runs one CPU cycle: three PPU dots.
    #[verifier::rlimit(60)]
    pub fn clock(&mut self)
        requires
            old(self).wf(),
            old(self).cpu_cycles_to_wait < u32::MAX,
        ensures
            !old(self).ppu.registers.mask.rendering() ==> final(self).ppu.registers.v == old(self).ppu.registers.v,
            !old(self).ppu.meets_vblank_edge(3) ==> final(self).ppu.registers.status.0 & 0x80 == old(self).ppu.registers.status.0 & 0x80,
            final(self).wf(),
            final(self).cpu_cycles_to_wait == old(self).cpu_cycles_to_wait + 1,
            final(self).cpu_cycles_total == old(self).cpu_cycles_total.wrapping_add(1),
            advanced(old(self), final(self)),
            only_ticked(old(self), final(self)),
    {
        self.cpu_cycles_to_wait = self.cpu_cycles_to_wait + 1;
        self.cpu_cycles_total = self.cpu_cycles_total.wrapping_add(1);
        let ghost first = self.ppu;
        self.ppu.clock();
        let ghost second = self.ppu;
        self.ppu.clock();
        let ghost third = self.ppu;
        self.ppu.clock();
        proof {
            let s0 = if first.skips_dot() { 1int } else { 0 };
            let s1 = if second.skips_dot() { 1int } else { 0 };
            let s2 = if third.skips_dot() { 1int } else { 0 };
            lemma_frame_mod(first.position() + 1 + s0, 1 + s1);
            lemma_frame_mod(first.position() + 2 + s0 + s1, 1 + s2);
        }
    }

    /// Inserts a cartridge; both buses reach it through the PPU bus.
    pub fn attach_catridge(&mut self, catridge: Cartridge)
        ensures
            final(self).cartridge() == Some(catridge),
            final(self).ram == old(self).ram,
            final(self).cpu_cycles_to_wait == old(self).cpu_cycles_to_wait,
            old(self).wf() ==> final(self).wf(),
            final(self).ppu.position() == old(self).ppu.position(),
    {
        self.ppu.registers.bus.cartridge = Some(catridge);
    }

    /// Takes the NMI request the PPU raised, clearing it.
    pub fn require_nmi(&mut self) -> (r: bool)
        ensures
            r == old(self).ppu.require_nmi,
            !final(self).ppu.require_nmi,
            *final(self) == (CpuBus { ppu: Ppu { require_nmi: false, ..old(self).ppu }, ..*old(self) }),
    {
        let status = self.ppu.require_nmi;
        self.ppu.require_nmi = false;
        status
    }
}

} // verus!
