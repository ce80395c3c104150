//! Properties that relate several operations of the core, stated over the contracts of those operations.

use vstd::prelude::*;

use crate::cartridge::{Cartridge, MapperChip};
use crate::cpu::pushed;
use crate::cpu_bus::CpuBus;
use crate::header::{bytes_of, has_magic, header_of, size_code, size_code_from, v2_size, Mirroring};
use crate::ppu_bus::{nametable_index, palette_index, PpuBus};
use crate::registers::{Registers, Status};

verus! {

/// Palette entries `$3F10/$3F14/$3F18/$3F1C` are the same cells as `$3F00/$3F04/$3F08/$3F0C`.
pub proof fn palette_backdrop_aliases(k: u16)
    requires
        k == 0 || k == 4 || k == 8 || k == 12,
    ensures
        palette_index((0x3f10 + k) as u16) == palette_index((0x3f00 + k) as u16),
{
}

/// With horizontal mirroring `$2000+k` and `$2400+k` read alike; with vertical mirroring
/// `$2000+k` and `$2800+k` do.
pub proof fn nametable_mirrors_read_alike(bus: PpuBus, k: u16)
    requires
        k < 0x400,
    ensures
        bus.mirroring_spec() == Mirroring::Horizontal ==> bus.read_spec((0x2000 + k) as u16)
            == bus.read_spec((0x2400 + k) as u16),
        bus.mirroring_spec() == Mirroring::Vertical ==> bus.read_spec((0x2000 + k) as u16)
            == bus.read_spec((0x2800 + k) as u16),
{
    assert(nametable_index((0x2000 + k) as u16, Mirroring::Horizontal) == nametable_index(
        (0x2400 + k) as u16,
        Mirroring::Horizontal,
    ));
    assert(nametable_index((0x2000 + k) as u16, Mirroring::Vertical) == nametable_index(
        (0x2800 + k) as u16,
        Mirroring::Vertical,
    ));
}

/// Reading `$2002` clears VBLANK and the write latch.
pub proof fn status_read_clears_vblank_and_latch(registers: Registers, address: u16)
    requires
        address % 8 == 2,
    ensures
        !registers.after_read(address).status.has(Status::VBLANK),
        !registers.after_read(address).latch,
{
    let s = registers.status.0;
    assert((s & !0x80u8) & 0x80u8 == 0) by (bit_vector);
}


/// The VRAM address that two writes to `$2006` (high byte first) select.
pub open spec fn vram_address(high: u8, low: u8) -> u16 {
    ((((high & 0x3f) as u16) << 8u16) | (low as u16)) as u16
}

/// Two writes to `$2006` then reads of `$2007`: below `$3F00` each read returns the buffered
/// byte and refills the buffer from the current address, so the reads give the old buffer and
/// then the bytes at the address, one step late; at or above `$3F00` the first read returns the
/// palette byte at once.
pub proof fn data_reads_after_address_writes(r0: Registers, high: u8, low: u8)
    requires
        r0.wf(),
        !r0.latch,
    ensures
        ({
            let r1 = r0.after_write(0x2006, high, r0.bus, r0.oam_data);
            let r2 = r1.after_write(0x2006, low, r1.bus, r1.oam_data);
            let address = vram_address(high, low);
            let step: int = if r0.control.has(crate::registers::Control::VRAM_INCREMENT) { 32 } else { 1 };
            let r3 = r2.after_read(0x2007);
            let r4 = r3.after_read(0x2007);
            let r5 = r4.after_read(0x2007);
            &&& r2.v.0 == address
            &&& r2.bus == r0.bus
            &&& (address + 3 * step < 0x3f00 ==> {
                &&& r2.peek(0x2007) == r0.read_buffer
                &&& r3.peek(0x2007) == r0.bus.read_spec(address)
                &&& r4.peek(0x2007) == r0.bus.read_spec((address + step) as u16)
                &&& r5.peek(0x2007) == r0.bus.read_spec((address + 2 * step) as u16)
            })
            &&& (address >= 0x3f00 ==> r2.peek(0x2007) == r0.bus.read_spec(address))
        }),
{
    let t = r0.t.0;
    assert((((t & 0x00ff) | (((high & 0x3f) as u16) << 8u16)) & 0xff00) | (low as u16) == (((
    high & 0x3f) as u16) << 8u16) | (low as u16)) by (bit_vector);
    assert((((high & 0x3f) as u16) << 8u16) | (low as u16) <= 0x3fff) by (bit_vector);
}

/// A pushed byte is the next one popped, and the stack pointer comes back.
pub proof fn push_then_pop(ram: Seq<u8>, sp: u8, value: u8)
    requires
        ram.len() == 2048,
    ensures
        ({
            let sp_after_push = ((sp + 255) % 256) as u8;
            let sp_after_pop = ((sp_after_push + 1) % 256) as u8;
            &&& sp_after_pop == sp
            &&& pushed(ram, sp, value)[0x100 + sp_after_pop] == value
        }),
{
}

/// Pushing a run of bytes and popping as many gives them back last first, with the stack
/// pointer restored.
#[verifier::rlimit(60)]
pub proof fn pushes_then_pops(ram: Seq<u8>, sp: u8, values: Seq<u8>)
    requires
        ram.len() == 2048,
        values.len() <= 256,
    ensures
        ({
            let (after, sp_after) = push_all(ram, sp, values);
            forall|i: int|
                0 <= i < values.len() ==> #[trigger] after[0x100 + ((sp_after + 1 + i) % 256)]
                    == values[values.len() - 1 - i]
        }),
        push_all(ram, sp, values).0.len() == 2048,
    decreases values.len(),
{
    if values.len() > 0 {
        let init = values.drop_last();
        pushes_then_pops(ram, sp, init);
        let (mid, sp_mid) = push_all(ram, sp, init);
        let (after, sp_after) = push_all(ram, sp, values);
        assert(after == pushed(mid, sp_mid, values.last()));
        assert(sp_after as int == if sp_mid == 0 { 255 } else { sp_mid - 1 });
        assert forall|i: int| 0 <= i < values.len() implies #[trigger] after[0x100 + ((sp_after + 1 + i) % 256)]
            == values[values.len() - 1 - i] by {
            let j = (sp_after + 1 + i) % 256;
            assert(j == (sp_mid + i) % 256);
            if i == 0 {
                assert(j == sp_mid);
            } else {
                assert(j != sp_mid);
                assert(values[values.len() - 1 - i] == init[init.len() - 1 - (i - 1)]);
                assert(j == (sp_mid + 1 + (i - 1)) % 256);
            }
        }
    }
}

/// RAM and stack pointer after pushing `values` in order.
pub open spec fn push_all(ram: Seq<u8>, sp: u8, values: Seq<u8>) -> (Seq<u8>, u8)
    decreases values.len(),
{
    if values.len() == 0 {
        (ram, sp)
    } else {
        let (mid, sp_mid) = push_all(ram, sp, values.drop_last());
        (pushed(mid, sp_mid, values.last()), ((sp_mid + 255) % 256) as u8)
    }
}

/// PHP then PLP gives back the flags with UNUSED set: BREAK exists only in the pushed byte.
pub proof fn php_then_plp(flags: u8)
    requires
        flags & 0x10 == 0,
    ensures
        ((flags | 0x30) | 0x20) & !0x10u8 == flags | 0x20,
{
    assert(flags & 0x10 == 0 ==> ((flags | 0x30) | 0x20) & !0x10u8 == flags | 0x20) by (bit_vector);
}

/// A write to CPU RAM (or a mirror of it) is what a read of the same address returns.
pub proof fn ram_write_then_read(before: CpuBus, after: CpuBus, address: u16, value: u8)
    requires
        address < 0x2000,
        after.ram@ == before.ram@.update(address as int % 2048, value),
    ensures
        after.read_value(address) == value,
{
}

/// A write to nametable or palette RAM is what a read of the same address returns.
pub proof fn vram_write_then_read(before: PpuBus, after: PpuBus, address: u16, value: u8)
    requires
        before.wrote(&after, address, value),
        address % 0x4000 >= 0x2000,
    ensures
        after.read_spec(address) == value,
{
}

/// A write to PRG-RAM is what a read of the same address returns.
pub proof fn prg_ram_write_then_read(before: Cartridge, after: Cartridge, address: u16, value: u8)
    requires
        before.same_but_ram(&after),
        after.banks.prg_ram@ == before.prg_ram_after_write(address, value),
        before.banks.prg_ram@.len() > 0,
        match before.mapper {
            MapperChip::Nrom(_) => 0x6000 <= address <= 0x7fff,
            MapperChip::Ram(_) => true,
        },
    ensures
        after.cpu_read_spec(address) == Some(value),
{
}


proof fn size_code_finds(n: usize, k: nat)
    requires
        n < 16,
        k <= n,
    ensures
        size_code_from((64usize << n) as usize, k) == n as u8,
    decreases n - k,
{
    if k < n {
        let kk = k as usize;
        assert(kk < n && n < 16 ==> (64usize << kk) != (64usize << n)) by (bit_vector);
        size_code_finds(n, k + 1);
    }
}

/// Parsing a header, emitting it and parsing again gives the same header.
#[verifier::rlimit(60)]
pub proof fn header_round_trip(data: Seq<u8>)
    requires
        data.len() == 16,
        has_magic(data),
    ensures
        bytes_of(header_of(data)).len() == 16,
        has_magic(bytes_of(header_of(data))),
        header_of(bytes_of(header_of(data))) == header_of(data),
{
    let h = header_of(data);
    let b = bytes_of(h);
    let (b4, b5, b6, b7, b8, b10, b11) = (data[4], data[5], data[6], data[7], data[8], data[10], data[11]);
    vstd::arithmetic::div_mod::lemma_div_by_multiple(b4 as int, 16384);
    vstd::arithmetic::div_mod::lemma_div_by_multiple(b5 as int, 8192);
    vstd::arithmetic::div_mod::lemma_div_by_multiple(b8 as int, 8192);
    let m = (b6 >> 4u8) | (b7 & 0xf0);
    assert(h.mapper_id == m);
    let t: u8 = if h.has_trainer { 0x04 } else { 0 };
    let v: u8 = if h.mirroring == Mirroring::Vertical { 0x01 } else { 0 };
    let w: u8 = if h.is_v2 { 0x08 } else { 0 };
    assert(b[6] == (m << 4u8) | t | v);
    assert(b[7] == (m & 0xf0) | w);
    assert((t == 0 || t == 4) && (v == 0 || v == 1) && (w == 0 || w == 8) ==> {
        &&& ((((m << 4u8) | t | v) >> 4u8) | (((m & 0xf0) | w) & 0xf0)) == m
        &&& ((((m << 4u8) | t | v) & 0x04 != 0) == (t == 4))
        &&& ((((m << 4u8) | t | v) & 0x01 != 0) == (v == 1))
        &&& ((((m & 0xf0) | w) & 0x0c == 0x08) == (w == 8))
    }) by (bit_vector);
    assert(b6 & 0x04 != 0 <==> t == 4);
    assert(b6 & 0x01 != 0 <==> v == 1);
    assert(b7 & 0x0c == 0x08 <==> w == 8);
    if h.is_v2 {
        let n10 = (b10 & 0x0f) as usize;
        let n11 = (b11 & 0x0f) as usize;
        assert(b10 & 0x0f < 16u8 && b11 & 0x0f < 16u8) by (bit_vector);
        size_code_finds(n10, 0);
        size_code_finds(n11, 0);
        let c10 = size_code(h.prg_ram_size);
        let c11 = size_code(h.chr_ram_size);
        assert(c10 == n10 as u8 && c11 == n11 as u8);
        assert(c10 < 16u8 ==> c10 & 0x0f == c10) by (bit_vector);
        assert(c11 < 16u8 ==> c11 & 0x0f == c11) by (bit_vector);
        assert(v2_size(c10) == h.prg_ram_size);
        assert(v2_size(c11) == h.chr_ram_size);
    }
    assert(header_of(b) =~= h);
}


/// Every well-formed CPU (and every operation keeps it so) has its counters and scroll registers
/// in range: scanline below 262, dot below 341, `v` and `t` below `$8000`, fine X below 8.
pub proof fn well_formed_ranges(cpu: crate::cpu::Cpu)
    requires
        cpu.wf(),
    ensures
        cpu.bus.ppu.scanline < 262,
        cpu.bus.ppu.dot < 341,
        cpu.bus.ppu.registers.v.0 < 0x8000,
        cpu.bus.ppu.registers.t.0 < 0x8000,
        cpu.bus.ppu.registers.fine_x < 8,
        cpu.bus.ppu.sprite_count <= 8,
{
}

} // verus!
