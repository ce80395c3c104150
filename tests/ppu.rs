use umesen_core::ppu::Ppu;
use umesen_core::ppu_bus::{mirror_nametable, mirror_palette, PpuBus};
use umesen_core::palette::Palette;
use umesen_core::registers::{Control, Mask, Registers, Status, TvRegister};
use umesen_core::sprite::Sprite;
use umesen_core::{Cartridge, Cpu, Emulator, Mirroring};

#[test]
fn mirroring() {
    assert_eq!(mirror_nametable(0x2020, Mirroring::Vertical), 0x0020);
    assert_eq!(mirror_nametable(0x2420, Mirroring::Vertical), 0x0420);
    assert_eq!(mirror_nametable(0x2820, Mirroring::Vertical), 0x0020);
    assert_eq!(mirror_nametable(0x2c20, Mirroring::Vertical), 0x0420);

    assert_eq!(mirror_nametable(0x2020, Mirroring::Horizontal), 0x0020);
    assert_eq!(mirror_nametable(0x2420, Mirroring::Horizontal), 0x0020);
    assert_eq!(mirror_nametable(0x2820, Mirroring::Horizontal), 0x0420);
    assert_eq!(mirror_nametable(0x2c20, Mirroring::Horizontal), 0x0420);
}

#[test]
pub fn parse_correct() {
    let palette = Palette::default();
    assert_eq!(palette.get(0), 0x626262);
    assert_eq!(palette.get(1), 0x002e98);
    assert_eq!(palette.get(2), 0x0c11c2);
}

#[test]
fn palette_from_bytes() {
    let mut bytes = Vec::new();
    for i in 0..64u8 {
        bytes.extend_from_slice(&[i, i.wrapping_mul(3), 0xff - i]);
    }
    let palette = Palette::from_pal(&bytes).unwrap();
    assert_eq!(palette.get(1), 0x0103fe);
    assert_eq!(palette.get(65), 0x0103fe);
    assert!(Palette::from_pal(&bytes[..191]).is_err());
}

#[test]
fn tv_register() {
    let mut register = TvRegister::default();
    register.set(TvRegister::COARSE_X, 10);
    register.set(TvRegister::COARSE_Y, 15);
    register.set(TvRegister::NAMETABLE, 1);
    assert_eq!(register.get(TvRegister::COARSE_X), 10);
    assert_eq!(register.get(TvRegister::COARSE_Y), 15);
    assert_eq!(register.nametable_address(), 0x2400 + 490);
    assert_eq!(register.attribute_address(), 0x27da);
}

#[test]
fn scroll_wraps() {
    let mut v = TvRegister(31);
    v.scroll_coarse_x();
    assert_eq!(v.0, TvRegister::NAMETABLE_X);
    let mut v = TvRegister(0x7000 | (29 << 5));
    v.scroll_fine_y();
    assert_eq!(v.0, TvRegister::NAMETABLE_Y);
    let mut v = TvRegister(0x7000 | (31 << 5));
    v.scroll_fine_y();
    assert_eq!(v.0, 0);
    let mut v = TvRegister(0x1000);
    v.scroll_fine_y();
    assert_eq!(v.0, 0x2000);
}

#[test]
fn palette_aliases() {
    for (high, low) in [(0x3f10, 0x3f00), (0x3f14, 0x3f04), (0x3f18, 0x3f08), (0x3f1c, 0x3f0c)] {
        assert_eq!(mirror_palette(high), mirror_palette(low));
    }
    assert_eq!(mirror_palette(0x3f11), 0x11);
}

#[test]
fn nametable_mirrors_read_alike() {
    let mut bus = PpuBus::default();
    bus.write_u8(0x2005, 0xab);
    assert_eq!(bus.read_u8(0x2405), 0xab);
    assert_eq!(bus.read_u8(0x2805), 0x00);
    bus.cartridge = Some(Cartridge::with_rom(0, vec![0; 16 * 1024], vec![], 0));
    bus.cartridge.as_mut().unwrap().header.mirroring = Mirroring::Vertical;
    bus.write_u8(0x2005, 0xcd);
    assert_eq!(bus.read_u8(0x2805), 0xcd);
    assert_eq!(bus.read_u8(0x3005), 0xcd);
}

#[test]
fn palette_ram_round_trip() {
    let mut bus = PpuBus::default();
    bus.write_u8(0x3f10, 0x21);
    assert_eq!(bus.read_u8(0x3f00), 0x21);
    assert_eq!(bus.read_u8(0x3f30), 0x21);
}

#[test]
fn status_read_clears_vblank_and_latch() {
    let mut registers = Registers::default();
    registers.status = Status(Status::VBLANK | Status::SPRITE_0_HIT);
    registers.latch = true;
    registers.open_bus = 0x1f;
    assert_eq!(registers.read_u8(0x2002), 0xc0 | 0x1f);
    assert_eq!(registers.status.0, Status::SPRITE_0_HIT);
    assert!(!registers.latch);
}

#[test]
fn data_reads_are_buffered_below_palette() {
    let mut registers = Registers::default();
    for (i, value) in [0x11u8, 0x22, 0x33, 0x44].iter().enumerate() {
        registers.bus.write_u8(0x2100 + i as u16, *value);
    }
    registers.read_buffer = 0x99;
    registers.write_u8(0x2006, 0x21);
    registers.write_u8(0x2006, 0x00);
    let reads: Vec<u8> = (0..4).map(|_| registers.read_u8(0x2007)).collect();
    assert_eq!(reads, vec![0x99, 0x11, 0x22, 0x33]);

    registers.bus.write_u8(0x3f01, 0x2a);
    registers.write_u8(0x2006, 0x3f);
    registers.write_u8(0x2006, 0x01);
    assert_eq!(registers.read_u8(0x2007), 0x2a);
}

#[test]
fn address_write_keeps_fifteen_bits() {
    let mut registers = Registers::default();
    registers.write_u8(0x2006, 0xff);
    registers.write_u8(0x2006, 0xff);
    assert_eq!(registers.v.0, 0x3fff);
    registers.control = Control(Control::VRAM_INCREMENT);
    registers.v = TvRegister(0x7fff);
    registers.write_u8(0x2007, 1);
    assert_eq!(registers.v.0, 31);
}

#[test]
fn oam_data_masks_attribute_bytes() {
    let mut registers = Registers::default();
    registers.write_u8(0x2003, 2);
    registers.write_u8(0x2004, 0xff);
    assert_eq!(registers.oam_data[2], 0b1110_0011);
    assert_eq!(registers.oam_address, 3);
}

#[test]
fn sprite_zero_hit() {
    let mut ppu = Ppu::default();
    ppu.registers.mask = Mask(
        Mask::RENDER_BACKGROUND
            | Mask::RENDER_SPRITE
            | Mask::SHOW_BACKGROUND_LEFTMOST_8
            | Mask::SHOW_SPRITE_LEFTMOST_8,
    );
    ppu.scanline = 10;
    ppu.dot = 9;
    ppu.bg_shift_bits_low = 0x4000;
    let mut sprite = Sprite::new(&[10, 0, 0, 8]);
    sprite.color_bits_low = 0x80;
    ppu.sprite_buffer[0] = sprite;
    ppu.sprite_count = 1;
    ppu.clock();
    assert!(ppu.registers.status.0 & Status::SPRITE_0_HIT != 0);
}

#[test]
fn odd_frames_are_one_dot_shorter() {
    let mut ppu = Ppu::default();
    ppu.registers.mask = Mask(Mask::RENDER_BACKGROUND);
    let mut lengths = Vec::new();
    for _ in 0..3 {
        let mut dots = 0u32;
        loop {
            ppu.clock();
            dots += 1;
            if ppu.frame_complete {
                ppu.frame_complete = false;
                break;
            }
        }
        lengths.push(dots);
    }
    assert_eq!(lengths, vec![89342, 89341, 89342]);
}

#[test]
fn vblank_raises_nmi() {
    let mut ppu = Ppu::default();
    ppu.registers.control = Control(Control::VBLANK_NMI);
    ppu.scanline = 241;
    ppu.dot = 1;
    ppu.clock();
    assert!(ppu.require_nmi);
    assert!(ppu.registers.status.0 & Status::VBLANK != 0);
}

fn program_cpu(program: &[u8]) -> Cpu {
    let mut cpu = Cpu::default();
    cpu.bus
        .attach_catridge(Cartridge::with_rom(220, vec![], vec![], 32 * 1024));
    for (i, byte) in program.iter().enumerate() {
        cpu.bus.ram[i] = *byte;
    }
    cpu
}

#[test]
fn nmi_is_taken_at_the_next_instruction() {
    let mut cpu = program_cpu(&[0xea, 0xea]);
    cpu.bus.write_u16(0xfffa, 0x0100);
    cpu.bus.ram[0x100] = 0xea;
    cpu.sp = 0xfd;
    cpu.flags.set(umesen_core::Flags::CARRY, true);
    cpu.bus.ppu.registers.control = Control(Control::VBLANK_NMI);
    cpu.bus.ppu.scanline = 241;
    cpu.bus.ppu.dot = 0;
    assert_eq!(cpu.execute_next().unwrap(), 2);
    assert!(cpu.bus.ppu.require_nmi);
    // The NMI sequence takes the place of the next instruction: 7 cycles, PC at the vector.
    assert_eq!(cpu.execute_next().unwrap(), 7);
    assert_eq!(cpu.pc, 0x0100);
    assert!(!cpu.bus.ppu.require_nmi);
    assert!(cpu.flags.contains(umesen_core::Flags::INTERRUPT));
    assert_eq!(cpu.sp, 0xfa);
    assert_eq!(cpu.bus.ram[0x1fd], 0x00);
    assert_eq!(cpu.bus.ram[0x1fc], 0x01);
    assert_eq!(
        cpu.bus.ram[0x1fb],
        umesen_core::Flags::CARRY | umesen_core::Flags::UNUSED
    );
    assert_eq!(cpu.execute_next().unwrap(), 2);
    assert_eq!(cpu.pc, 0x0101);
}

#[test]
fn fine_y_scroll_keeps_other_bits() {
    let mut v = TvRegister(0x7000 | (29 << 5) | 0x0400 | 7);
    v.scroll_fine_y();
    assert_eq!(v.0, 0x0800 | 0x0400 | 7);
    let mut v = TvRegister(0x7000 | (30 << 5));
    v.scroll_fine_y();
    assert_eq!(v.0, 31 << 5);
}

#[test]
fn ppu_advances_three_dots_per_cycle() {
    let mut cpu = program_cpu(&[0xa9, 0x7b, 0xb5, 0x13, 0xea, 0x4c, 0x00, 0x00]);
    for _ in 0..50 {
        let before = cpu.bus.ppu.scanline as u32 * 341 + cpu.bus.ppu.dot as u32;
        let cycles = cpu.execute_next().unwrap();
        let after = cpu.bus.ppu.scanline as u32 * 341 + cpu.bus.ppu.dot as u32;
        assert_eq!(after, (before + 3 * cycles) % (341 * 262));
    }
}

#[test]
fn immediate_load_scenario() {
    let mut cpu = program_cpu(&[0xa9, 0x7b]);
    cpu.a = 0xff;
    cpu.x = 0xff;
    cpu.y = 0xff;
    assert_eq!(cpu.execute_next().unwrap(), 2);
    assert_eq!(cpu.a, 0x7b);
    assert_eq!(cpu.flags.bits(), 0);
    assert_eq!(cpu.pc, 2);
}

#[test]
fn zero_page_x_scenario() {
    let mut cpu = program_cpu(&[0xb5, 0x13]);
    cpu.x = 0xff;
    cpu.bus.ram[0x12] = 0x45;
    assert_eq!(cpu.execute_next().unwrap(), 4);
    assert_eq!(cpu.a, 0x45);
}

#[test]
fn branch_near_page_end_scenario() {
    let mut cpu = program_cpu(&[]);
    cpu.bus.ram[0xfe] = 0xb0;
    cpu.bus.ram[0xff] = 0x01;
    cpu.pc = 0x00fe;
    cpu.flags.set(umesen_core::Flags::CARRY, true);
    let cycles = cpu.execute_next().unwrap();
    assert_eq!(cpu.pc, 0x0101);
    // The next instruction starts at $0100, in the target's page: taken costs one cycle.
    assert_eq!(cycles, 3);
}

#[test]
fn unknown_opcode_is_reported() {
    let mut cpu = program_cpu(&[0x02]);
    assert_eq!(
        cpu.execute_next(),
        Err(umesen_core::CpuError::UnknownOpcode(0x02))
    );
    assert_eq!(cpu.pc, 1);
}

#[test]
fn clock_until_frame_returns_a_frame() {
    let mut emulator = Emulator::default();
    emulator
        .cpu
        .bus
        .attach_catridge(Cartridge::with_rom(220, vec![], vec![], 32 * 1024));
    emulator.cpu.bus.ram[0] = 0x4c;
    let mut budget = 40_000;
    assert_eq!(emulator.clock_until_frame(&mut budget), Ok(true));
    assert!(budget < 40_000);
}
