use vstd::prelude::*;

use crate::disassembler::operand_length;
use crate::cpu_bus::{advanced, lemma_advanced_chain, lemma_advanced_refl, CpuBus};
use crate::error::CpuError;
use crate::opcode::{base_cycles, decode, extra_cycles, AddrMode, Mnemonic, Opcode};
use crate::ppu::frame_dots;

verus! {

broadcast use {lemma_advanced_chain, lemma_advanced_refl};

/// CPU clock rate in Hz.
pub const CLOCK_SPEED_HZ: u32 = 1789773;
/// CPU cycles per PPU frame (29780.5, rounded down).
pub const CYCLES_PER_FRAME: u32 = 29780;

/// The processor status register.
///
/// BREAK exists only in the bytes pushed by BRK and PHP: the live register never holds it.
/// UNUSED is set by reset and by every pull of the flags, and in every pushed byte.
#[derive(Debug, Clone, Copy, PartialEq, Eq, Structural)]
pub struct Flags(pub u8);

impl Flags {
    pub const CARRY: u8 = 0x01;
    pub const ZERO: u8 = 0x02;
    pub const INTERRUPT: u8 = 0x04;
    /// Decimal mode; kept but ignored by the arithmetic, as on the 2A03.
    pub const DECIMAL: u8 = 0x08;
    /// Set in bytes pushed by BRK and PHP.
    pub const BREAK: u8 = 0x10;
    /// Set in every pushed byte.
    pub const UNUSED: u8 = 0x20;
    /// Signed overflow of the last addition.
    pub const OVERFLOW: u8 = 0x40;
    pub const NEGATIVE: u8 = 0x80;

    pub open spec fn live(&self) -> bool {
        self.0 & 0x10 == 0
    }

    pub open spec fn has(&self, flag: u8) -> bool {
        self.0 & flag != 0
    }

    pub fn empty() -> (r: Flags)
        ensures
            r.0 == 0,
    {
        Flags(0)
    }

    pub fn bits(&self) -> (r: u8)
        ensures
            r == self.0,
    {
        self.0
    }

    /// Every byte is a valid flag set.
    pub fn from_bits(bits: u8) -> (r: Option<Flags>)
        ensures
            r == Some(Flags(bits)),
    {
        Some(Flags(bits))
    }

    pub fn contains(&self, flag: u8) -> (r: bool)
        ensures
            r == (self.0 & flag == flag),
    {
        self.0 & flag == flag
    }

    pub fn union(&self, other: u8) -> (r: Flags)
        ensures
            r.0 == self.0 | other,
    {
        Flags(self.0 | other)
    }

    /// Sets or clears the bits of `flag`.
    pub fn set(&mut self, flag: u8, value: bool)
        ensures
            final(self).0 == if value { old(self).0 | flag } else { old(self).0 & !flag },
    {
        if value {
            self.0 = self.0 | flag;
        } else {
            self.0 = self.0 & !flag;
        }
    }
}

proof fn lemma_live_constants()
    ensures
        0u8 & 0x10u8 == 0,
        (0x20u8 | 0x04u8) & 0x10u8 == 0,
{
    assert(0u8 & 0x10u8 == 0 && (0x20u8 | 0x04u8) & 0x10u8 == 0) by (bit_vector);
}

/// Cycles spent resolving an operand address in `mode`, before a page cross.
pub open spec fn mode_cycles(mode: AddrMode) -> int {
    match mode {
        AddrMode::Implied | AddrMode::Accumulator | AddrMode::Immediate => 0,
        AddrMode::ZeroPage | AddrMode::Relative => 1,
        AddrMode::ZeroPageX | AddrMode::ZeroPageY | AddrMode::Absolute | AddrMode::AbsoluteX
        | AddrMode::AbsoluteY => 2,
        AddrMode::AbsoluteXForceClock | AddrMode::AbsoluteYForceClock | AddrMode::IndirectY => 3,
        AddrMode::Indirect | AddrMode::IndirectX | AddrMode::IndirectYForceClock => 4,
    }
}

/// Cycles spent executing an instruction once its operand address is resolved (a branch's
/// extra cycles aside).
pub open spec fn op_cycles(name: Mnemonic, has_operand: bool) -> int {
    let access: int = if has_operand { 1 } else { 0 };
    match name {
        Mnemonic::Pha | Mnemonic::Php => 2,
        Mnemonic::Pla | Mnemonic::Plp => 3,
        Mnemonic::Asl | Mnemonic::Lsr | Mnemonic::Rol | Mnemonic::Ror | Mnemonic::Slo
        | Mnemonic::Rla | Mnemonic::Sre | Mnemonic::Rra | Mnemonic::Inc | Mnemonic::Dec
        | Mnemonic::Isc | Mnemonic::Dcp => 1 + 2 * access,
        Mnemonic::Adc | Mnemonic::Sbc | Mnemonic::Lda | Mnemonic::Ldx | Mnemonic::Ldy
        | Mnemonic::Lax | Mnemonic::And | Mnemonic::Eor | Mnemonic::Ora | Mnemonic::Bit
        | Mnemonic::Cmp | Mnemonic::Cpx | Mnemonic::Cpy | Mnemonic::Sta | Mnemonic::Stx
        | Mnemonic::Sty | Mnemonic::Sax => access,
        Mnemonic::Jmp | Mnemonic::Bcc | Mnemonic::Bcs | Mnemonic::Beq | Mnemonic::Bmi
        | Mnemonic::Bne | Mnemonic::Bpl | Mnemonic::Bvc | Mnemonic::Bvs => 0,
        Mnemonic::Jsr => 3,
        Mnemonic::Rts | Mnemonic::Rti => 5,
        Mnemonic::Brk => 6,
        _ => 1,
    }
}

pub open spec fn is_branch(name: Mnemonic) -> bool {
    name == Mnemonic::Bcc || name == Mnemonic::Bcs || name == Mnemonic::Beq || name == Mnemonic::Bmi
        || name == Mnemonic::Bne || name == Mnemonic::Bpl || name == Mnemonic::Bvc || name
        == Mnemonic::Bvs
}

/// The table agrees with the fetch, the operand resolution and the execution.
#[verifier::rlimit(100)]
proof fn lemma_base_cycles(byte: u8)
    requires
        decode(byte).is_some(),
    ensures
        base_cycles(byte) == 1 + mode_cycles(decode(byte).unwrap().1) + op_cycles(
            decode(byte).unwrap().0,
            !(decode(byte).unwrap().1 == AddrMode::Implied || decode(byte).unwrap().1
                == AddrMode::Accumulator),
        ),
        is_branch(decode(byte).unwrap().0) <==> decode(byte).unwrap().1 == AddrMode::Relative,
{
}

/// Within page zero the high byte of a word is read from the next page-zero cell.
proof fn lemma_page_zero_successor(p: u16)
    requires
        p < 256,
    ensures
        ((p & 0xff00) | (((p + 1) % 256) as u16)) == (p + 1) % 256,
        0xff00 | p == 0xff00 + p,
{
    assert(p < 256 ==> ((p & 0xff00) | (((p + 1) % 256) as u16)) == (p + 1) % 256 && 0xff00 | p
        == 0xff00 + p) by (bit_vector);
}

/// Two addresses share a page exactly when their high bytes agree.
proof fn lemma_same_page(a: u16, b: u16)
    ensures
        (a & 0xff00 == b & 0xff00) <==> (a / 256 == b / 256),
{
    assert((a & 0xff00 == b & 0xff00) <==> (a / 256 == b / 256)) by (bit_vector);
}

/// The same-page successor of a pointer, in bit form and in arithmetic form.
proof fn lemma_same_page_successor(p: u16)
    ensures
        ((p & 0xff00) | (((p + 1) % 256) as u16)) as int == (p / 256) * 256 + (p + 1) % 256,
{
    assert(((p & 0xff00) | (((p + 1) % 256) as u16)) == (p / 256) * 256 + (p + 1) % 256) by (bit_vector);
}

/// A flag that the live register can hold.
pub open spec fn is_register_flag(flag: u8) -> bool {
    flag == 0x01 || flag == 0x02 || flag == 0x04 || flag == 0x08 || flag == 0x40 || flag == 0x80
}

/// Flags after a result that sets ZERO and NEGATIVE.
pub open spec fn zn_flags(flags: u8, value: u8) -> u8 {
    ((flags & !0x82u8) | (if value == 0 { 0x02u8 } else { 0 }) | (value & 0x80)) as u8
}

/// Setting ZERO and NEGATIVE twice keeps only the second.
proof fn lemma_zn_twice(flags: u8, first: u8, second: u8)
    ensures
        zn_flags(zn_flags(flags, first), second) == zn_flags(flags, second),
{
    let z1: u8 = if first == 0 { 0x02 } else { 0 };
    let z2: u8 = if second == 0 { 0x02 } else { 0 };
    assert((z1 == 0 || z1 == 2) && (z2 == 0 || z2 == 2) ==> (((((flags & !0x82u8) | z1 | (first
        & 0x80)) & !0x82u8) | z2 | (second & 0x80)) == ((flags & !0x82u8) | z2 | (second & 0x80))))
        by (bit_vector);
}

/// Flags after a comparison of `register` with `value`.
pub open spec fn compare_flags(flags: u8, register: u8, value: u8) -> u8 {
    zn_flags(
        if register >= value { flags | 0x01 } else { flags & !0x01u8 },
        ((register - value + 256) % 256) as u8,
    )
}

/// A after `a + adder + carry`.
pub open spec fn adc_result(a: u8, adder: u8, carry: bool) -> u8 {
    ((a + adder + if carry { 1int } else { 0 }) % 256) as u8
}

/// Flags after `a + adder + carry`: CARRY on a 9-bit sum, OVERFLOW when both inputs share a sign
/// that the result does not, ZERO and NEGATIVE from the result.
pub open spec fn adc_flags(flags: u8, a: u8, adder: u8, carry: bool) -> u8 {
    let sum = a + adder + if carry { 1int } else { 0 };
    let result = adc_result(a, adder, carry);
    let overflow = (a ^ adder) & 0x80 == 0 && (a ^ result) & 0x80 != 0;
    let f1 = if sum > 255 { flags | 0x01 } else { flags & !0x01u8 };
    let f2 = if overflow { f1 | 0x40 } else { f1 & !0x40u8 };
    zn_flags(f2, result)
}

/// A shift (`is_left`) or rotate of `value`, with `carry_in` entering the vacated bit.
pub open spec fn shifted(value: u8, is_left: bool, carry_in: bool) -> u8 {
    let c: u8 = if carry_in { 1 } else { 0 };
    if is_left { ((value << 1u8) | c) as u8 } else { ((value >> 1u8) | (c << 7u8)) as u8 }
}

/// Flags after a shift or rotate of `value`: CARRY from the bit shifted out, ZERO and NEGATIVE
/// from the result.
pub open spec fn shift_flags(flags: u8, value: u8, is_left: bool, carry_in: bool) -> u8 {
    zn_flags(carry_flag(flags, value, is_left), shifted(value, is_left, carry_in))
}

/// Flags with CARRY set to the bit a shift of `value` moves out.
pub open spec fn carry_flag(flags: u8, value: u8, is_left: bool) -> u8 {
    let carry_out = if is_left { value & 0x80 != 0 } else { value & 0x01 != 0 };
    if carry_out { flags | 0x01 } else { flags & !0x01u8 }
}

/// Flags after BIT: ZERO from `a & value`, OVERFLOW and NEGATIVE from bits 6 and 7 of `value`.
pub open spec fn bit_flags(flags: u8, a: u8, value: u8) -> u8 {
    let f1 = if a & value == 0 { flags | 0x02 } else { flags & !0x02u8 };
    let f2 = if value & 0x40 != 0 { f1 | 0x40 } else { f1 & !0x40u8 };
    if value & 0x80 != 0 { f2 | 0x80 } else { f2 & !0x80u8 }
}

/// Whether a branch instruction's condition holds for `flags`.
pub open spec fn branch_taken(name: Mnemonic, flags: u8) -> bool {
    match name {
        Mnemonic::Bcc => flags & 0x01 == 0,
        Mnemonic::Bcs => flags & 0x01 != 0,
        Mnemonic::Bne => flags & 0x02 == 0,
        Mnemonic::Beq => flags & 0x02 != 0,
        Mnemonic::Bvc => flags & 0x40 == 0,
        Mnemonic::Bvs => flags & 0x40 != 0,
        Mnemonic::Bpl => flags & 0x80 == 0,
        Mnemonic::Bmi => flags & 0x80 != 0,
        _ => false,
    }
}

/// RAM after pushing `value` with stack pointer `sp`.
pub open spec fn pushed(ram: Seq<u8>, sp: u8, value: u8) -> Seq<u8> {
    ram.update(0x100 + sp, value)
}

/// What instruction `name` does, from the state with its operand address resolved (`o`) to the
/// state after it (`f`): its effect, and everything it does not write kept.
pub open spec fn executes(o: Cpu, f: Cpu, name: Mnemonic) -> bool {
    instruction_effect(o, f, name) && kept(o, f, name)
}

pub open spec fn writes_a(name: Mnemonic) -> bool {
    matches!(name, Mnemonic::Pla | Mnemonic::Asl | Mnemonic::Lsr | Mnemonic::Rol | Mnemonic::Ror
        | Mnemonic::Slo | Mnemonic::Rla | Mnemonic::Sre | Mnemonic::Rra | Mnemonic::Adc | Mnemonic::Sbc
        | Mnemonic::Isc | Mnemonic::Lda | Mnemonic::Lax | Mnemonic::And | Mnemonic::Eor
        | Mnemonic::Ora | Mnemonic::Txa | Mnemonic::Tya)
}

pub open spec fn writes_x(name: Mnemonic) -> bool {
    matches!(name, Mnemonic::Ldx | Mnemonic::Lax | Mnemonic::Tax | Mnemonic::Tsx | Mnemonic::Inx
        | Mnemonic::Dex)
}

pub open spec fn writes_y(name: Mnemonic) -> bool {
    matches!(name, Mnemonic::Ldy | Mnemonic::Tay | Mnemonic::Iny | Mnemonic::Dey)
}

pub open spec fn writes_sp(name: Mnemonic) -> bool {
    matches!(name, Mnemonic::Pha | Mnemonic::Php | Mnemonic::Pla | Mnemonic::Plp | Mnemonic::Txs
        | Mnemonic::Jsr | Mnemonic::Rts | Mnemonic::Rti | Mnemonic::Brk)
}

/// Instructions that set PC other than by moving past their operand.
pub open spec fn writes_pc(name: Mnemonic) -> bool {
    is_branch(name) || matches!(name, Mnemonic::Jmp | Mnemonic::Jsr | Mnemonic::Rts | Mnemonic::Rti
        | Mnemonic::Brk)
}

pub open spec fn keeps_flags(name: Mnemonic) -> bool {
    is_branch(name) || matches!(name, Mnemonic::Sta | Mnemonic::Stx | Mnemonic::Sty | Mnemonic::Sax
        | Mnemonic::Pha | Mnemonic::Php | Mnemonic::Txs | Mnemonic::Jmp | Mnemonic::Jsr
        | Mnemonic::Rts | Mnemonic::Nop)
}

/// Instructions that write memory at their operand address.
pub open spec fn writes_operand(name: Mnemonic) -> bool {
    matches!(name, Mnemonic::Sta | Mnemonic::Stx | Mnemonic::Sty | Mnemonic::Sax | Mnemonic::Asl
        | Mnemonic::Lsr | Mnemonic::Rol | Mnemonic::Ror | Mnemonic::Inc | Mnemonic::Dec
        | Mnemonic::Slo | Mnemonic::Rla | Mnemonic::Sre | Mnemonic::Rra | Mnemonic::Isc
        | Mnemonic::Dcp)
}

/// Instructions that push on the stack.
pub open spec fn pushes(name: Mnemonic) -> bool {
    matches!(name, Mnemonic::Pha | Mnemonic::Php | Mnemonic::Jsr | Mnemonic::Brk)
}

/// What instruction `name` leaves as it was.
pub open spec fn kept(o: Cpu, f: Cpu, name: Mnemonic) -> bool {
    &&& !writes_a(name) ==> f.a == o.a
    &&& !writes_x(name) ==> f.x == o.x
    &&& !writes_y(name) ==> f.y == o.y
    &&& !writes_sp(name) ==> f.sp == o.sp
    &&& !writes_pc(name) ==> f.pc == o.pc
    &&& keeps_flags(name) ==> f.flags == o.flags
    &&& !writes_operand(name) ==> f.bus.cartridge() == o.bus.cartridge()
    &&& !writes_operand(name) && !pushes(name) ==> f.bus.ram == o.bus.ram
}

/// The effect of instruction `name` on what it writes.
pub open spec fn instruction_effect(o: Cpu, f: Cpu, name: Mnemonic) -> bool {
    let v = o.operand();
    let c = o.flags.has(Flags::CARRY);
    let t = branch_taken(name, o.flags.0);
    match name {
        Mnemonic::Lda => f.a == v && f.flags.0 == zn_flags(o.flags.0, v),
        Mnemonic::Ldx => f.x == v && f.flags.0 == zn_flags(o.flags.0, v),
        Mnemonic::Ldy => f.y == v && f.flags.0 == zn_flags(o.flags.0, v),
        Mnemonic::Lax => f.a == v && f.x == v && f.flags.0 == zn_flags(o.flags.0, v),
        Mnemonic::And => f.a == o.a & v && f.flags.0 == zn_flags(o.flags.0, o.a & v),
        Mnemonic::Eor => f.a == o.a ^ v && f.flags.0 == zn_flags(o.flags.0, o.a ^ v),
        Mnemonic::Ora => f.a == o.a | v && f.flags.0 == zn_flags(o.flags.0, o.a | v),
        Mnemonic::Adc => f.a == adc_result(o.a, v, c) && f.flags.0 == adc_flags(o.flags.0, o.a, v, c),
        Mnemonic::Sbc => f.a == adc_result(o.a, !v, !c) && f.flags.0 == adc_flags(o.flags.0, o.a, !v, !c),
        Mnemonic::Cmp => f.flags.0 == compare_flags(o.flags.0, o.a, v),
        Mnemonic::Cpx => f.flags.0 == compare_flags(o.flags.0, o.x, v),
        Mnemonic::Cpy => f.flags.0 == compare_flags(o.flags.0, o.y, v),
        Mnemonic::Bit => f.flags.0 == bit_flags(o.flags.0, o.a, v) && f.a == o.a,
        Mnemonic::Sta => o.stored(&f, o.a) && f.flags == o.flags,
        Mnemonic::Stx => o.stored(&f, o.x) && f.flags == o.flags,
        Mnemonic::Sty => o.stored(&f, o.y) && f.flags == o.flags,
        Mnemonic::Sax => o.stored(&f, o.a & o.x) && f.flags == o.flags,
        Mnemonic::Asl | Mnemonic::Lsr | Mnemonic::Rol | Mnemonic::Ror => {
            let left = name == Mnemonic::Asl || name == Mnemonic::Rol;
            let cin = c && (name == Mnemonic::Rol || name == Mnemonic::Ror);
            let r = shifted(v, left, cin);
            &&& f.flags.0 == shift_flags(o.flags.0, v, left, cin)
            &&& o.operand_address.is_none() ==> f.a == r
            &&& o.operand_address.is_some() ==> f.a == o.a && o.stored(&f, r)
        },
        Mnemonic::Slo => o.operand_address.is_some() ==> o.stored(&f, shifted(v, true, false)) && f.a == o.a | shifted(v, true, false)
        && f.flags.0 == zn_flags(carry_flag(o.flags.0, v, true), f.a),
        Mnemonic::Rla => o.operand_address.is_some() ==> o.stored(&f, shifted(v, true, c)) && f.a == o.a & shifted(v, true, c)
        && f.flags.0 == zn_flags(carry_flag(o.flags.0, v, true), f.a),
        Mnemonic::Sre => o.operand_address.is_some() ==> o.stored(&f, shifted(v, false, false)) && f.a == o.a ^ shifted(v, false, false)
        && f.flags.0 == zn_flags(carry_flag(o.flags.0, v, false), f.a),
        Mnemonic::Rra => o.operand_address.is_some() ==> {
            let r = shifted(v, false, c);
            let sf = shift_flags(o.flags.0, v, false, c);
            &&& o.stored(&f, r)
            &&& f.a == adc_result(o.a, r, sf & 0x01 != 0)
            &&& f.flags.0 == adc_flags(sf, o.a, r, sf & 0x01 != 0)
        },
        Mnemonic::Inc => o.stored(&f, v.wrapping_add(1)) && f.flags.0 == zn_flags(o.flags.0, v.wrapping_add(1)),
        Mnemonic::Dec => o.stored(&f, v.wrapping_sub(1)) && f.flags.0 == zn_flags(o.flags.0, v.wrapping_sub(1)),
        Mnemonic::Isc => {
            let r = v.wrapping_add(1);
            let zf = zn_flags(o.flags.0, r);
            &&& o.stored(&f, r)
            &&& f.a == adc_result(o.a, !r, zf & 0x01 == 0)
            &&& f.flags.0 == adc_flags(zf, o.a, !r, zf & 0x01 == 0)
        },
        Mnemonic::Dcp => {
            let r = v.wrapping_sub(1);
            o.stored(&f, r) && f.flags.0 == compare_flags(zn_flags(o.flags.0, r), o.a, r)
        },
        Mnemonic::Tax => f.x == o.a && f.flags.0 == zn_flags(o.flags.0, o.a),
        Mnemonic::Tay => f.y == o.a && f.flags.0 == zn_flags(o.flags.0, o.a),
        Mnemonic::Tsx => f.x == o.sp && f.flags.0 == zn_flags(o.flags.0, o.sp),
        Mnemonic::Txa => f.a == o.x && f.flags.0 == zn_flags(o.flags.0, o.x),
        Mnemonic::Tya => f.a == o.y && f.flags.0 == zn_flags(o.flags.0, o.y),
        Mnemonic::Txs => f.sp == o.x && f.flags == o.flags,
        Mnemonic::Inx => f.x == o.x.wrapping_add(1) && f.flags.0 == zn_flags(o.flags.0, f.x),
        Mnemonic::Iny => f.y == o.y.wrapping_add(1) && f.flags.0 == zn_flags(o.flags.0, f.y),
        Mnemonic::Dex => f.x == o.x.wrapping_sub(1) && f.flags.0 == zn_flags(o.flags.0, f.x),
        Mnemonic::Dey => f.y == o.y.wrapping_sub(1) && f.flags.0 == zn_flags(o.flags.0, f.y),
        Mnemonic::Clc => f.flags.0 == o.flags.0 & !Flags::CARRY,
        Mnemonic::Sec => f.flags.0 == o.flags.0 | Flags::CARRY,
        Mnemonic::Cld => f.flags.0 == o.flags.0 & !Flags::DECIMAL,
        Mnemonic::Sed => f.flags.0 == o.flags.0 | Flags::DECIMAL,
        Mnemonic::Cli => f.flags.0 == o.flags.0 & !Flags::INTERRUPT,
        Mnemonic::Sei => f.flags.0 == o.flags.0 | Flags::INTERRUPT,
        Mnemonic::Clv => f.flags.0 == o.flags.0 & !Flags::OVERFLOW,
        Mnemonic::Pha => f.bus.ram@ == pushed(o.bus.ram@, o.sp, o.a) && f.sp == ((o.sp + 255) % 256) as u8,
        Mnemonic::Php => f.bus.ram@ == pushed(o.bus.ram@, o.sp, o.flags.0 | 0x30) && f.sp == ((o.sp + 255) % 256) as u8,
        Mnemonic::Pla => f.sp == ((o.sp + 1) % 256) as u8 && f.a == o.bus.ram[0x100 + f.sp]
            && f.flags.0 == zn_flags(o.flags.0, f.a),
        Mnemonic::Plp => f.sp == ((o.sp + 1) % 256) as u8 && f.flags.0 == (o.bus.ram[0x100 + f.sp] | 0x20u8) & !0x10u8,
        Mnemonic::Jmp => o.operand_address.is_some() ==> f.pc == o.operand_address.unwrap(),
        Mnemonic::Jsr => (o.operand_address.is_some() ==> f.pc == o.operand_address.unwrap())
            && f.sp == ((o.sp + 254) % 256) as u8 && f.bus.ram@ == pushed(
            pushed(o.bus.ram@, o.sp, (o.pc.wrapping_sub(1) / 256) as u8),
            ((o.sp + 255) % 256) as u8,
            (o.pc.wrapping_sub(1) % 256) as u8,
        ),
        Mnemonic::Rts => f.sp == ((o.sp + 2) % 256) as u8 && f.pc == ((o.bus.ram[0x100 + ((o.sp + 1) % 256) as u8] + 256
            * o.bus.ram[0x100 + ((o.sp + 2) % 256) as u8] + 1) % 0x10000) as u16,
        Mnemonic::Rti => f.sp == ((o.sp + 3) % 256) as u8 && f.flags.0 == (o.bus.ram[0x100 + ((o.sp + 1) % 256) as u8] | 0x20u8) & !0x10u8 && f.pc == o.bus.ram[0x100 + ((o.sp + 2) % 256) as u8] + 256
            * o.bus.ram[0x100 + ((o.sp + 3) % 256) as u8],
        Mnemonic::Brk => {
            &&& f.flags.0 == o.flags.0 | Flags::INTERRUPT
            &&& f.sp == ((o.sp + 253) % 256) as u8
            &&& f.bus.ram@ == pushed(
                pushed(
                    pushed(o.bus.ram@, o.sp, (o.pc / 256) as u8),
                    ((o.sp + 255) % 256) as u8,
                    (o.pc % 256) as u8,
                ),
                ((o.sp + 254) % 256) as u8,
                o.flags.0 | 0x10 | 0x20,
            )
            &&& f.bus.settled(0xfffe) && f.bus.settled(0xffff) ==> f.pc == f.bus.peek(0xfffe)
                + 256 * f.bus.peek(0xffff)
        },
        Mnemonic::Bcc | Mnemonic::Bcs | Mnemonic::Beq | Mnemonic::Bmi | Mnemonic::Bne
        | Mnemonic::Bpl | Mnemonic::Bvc | Mnemonic::Bvs => f.pc == o.branch_target(t)
            && o.spent(&f) == o.branch_cycles(t),
        Mnemonic::Nop => o.same_registers(&f),
    }
}

/// From `s`, at an instruction boundary with no interrupt to take, running one instruction
/// ends in `f` with result `r`: an unknown opcode byte is consumed and reported; otherwise the
/// instruction's operand is resolved from the bytes after it and it executes, and `r` counts the
/// cycles (those already spent in `s` included).
pub open spec fn runs_instruction(s: Cpu, f: Cpu, r: Result<u32, CpuError>) -> bool {
    let b = s.bus.read_value(s.pc);
    let fetched = Cpu { pc: s.pc.wrapping_add(1), ..s };
    match decode(b) {
        None => {
            &&& r == Err::<u32, CpuError>(CpuError::UnknownOpcode(b))
            &&& f.pc == s.pc.wrapping_add(1)
            &&& f.a == s.a && f.x == s.x && f.y == s.y && f.sp == s.sp && f.flags == s.flags
            &&& f.bus.ram == s.bus.ram
            &&& f.bus.cartridge() == s.bus.cartridge()
        },
        Some(op) => exists|mid: Cpu|
            #![trigger executes(mid, f, op.0)]
            {
                &&& executes(mid, f, op.0)
                &&& mid.a == s.a && mid.x == s.x && mid.y == s.y && mid.sp == s.sp && mid.flags
                    == s.flags
                &&& mid.bus.ram == s.bus.ram
                &&& mid.bus.cartridge() == s.bus.cartridge()
                &&& mid.pc == ((s.pc + 1 + operand_length(op.1)) % 65536) as u16
                &&& fetched.operand_settled(op.1) ==> {
                    &&& mid.operand_address == fetched.resolved_address(op.1)
                    &&& r == Ok::<u32, CpuError>(
                        (s.bus.cpu_cycles_to_wait + base_cycles(b) + (if fetched.crosses_page(op.1) {
                            1int
                        } else {
                            0
                        }) + (if is_branch(op.0) {
                            mid.branch_cycles(branch_taken(op.0, mid.flags.0))
                        } else {
                            0
                        })) as u32,
                    )
                }
            },
    }
}

/// `s` is `o` after taking an NMI: PC and the flags (with UNUSED) pushed, INTERRUPT set, PC
/// loaded from `$FFFA`, seven cycles.
pub open spec fn nmi_delivered(o: Cpu, s: Cpu) -> bool {
    &&& s.a == o.a && s.x == o.x && s.y == o.y
    &&& s.sp == ((o.sp + 253) % 256) as u8
    &&& s.flags.0 == o.flags.0 | 0x04
    &&& s.bus.ram@ == pushed(
        pushed(
            pushed(o.bus.ram@, o.sp, (o.pc / 256) as u8),
            ((o.sp + 255) % 256) as u8,
            (o.pc % 256) as u8,
        ),
        ((o.sp + 254) % 256) as u8,
        o.flags.0 | 0x20,
    )
    &&& s.bus.cartridge() == o.bus.cartridge()
    &&& s.bus.cpu_cycles_to_wait == 7
    &&& s.bus.settled(0xfffa) && s.bus.settled(0xfffb) ==> s.pc == s.bus.peek(0xfffa) + 256
        * s.bus.peek(0xfffb)
}

/// The emulated 6502 core of the 2A03.
#[derive(Clone)]
pub struct Cpu {
    pub pc: u16,
    pub sp: u8,
    pub a: u8,
    pub x: u8,
    pub y: u8,
    pub flags: Flags,
    pub bus: CpuBus,
    /// Resolved operand address of the instruction being executed; `None` for A or no operand.
    pub operand_address: Option<u16>,
}

impl Default for Cpu {
    fn default() -> (r: Self)
        ensures
            r.wf(),
            r.pc == 0 && r.sp == 0 && r.a == 0 && r.x == 0 && r.y == 0 && r.flags.0 == 0,
            r.bus.cartridge().is_none(),
            !r.bus.ppu.require_nmi,
    {
        proof {
            lemma_live_constants();
        }
        Cpu {
            pc: 0,
            sp: 0,
            a: 0,
            x: 0,
            y: 0,
            flags: Flags(0),
            bus: CpuBus::default(),
            operand_address: None,
        }
    }
}

impl Cpu {
    pub open spec fn wf(&self) -> bool {
        self.bus.wf() && self.flags.live()
    }

    /// `new` follows `self` by at most `k` cycles of well-formed execution.
    pub open spec fn ran(&self, new: &Cpu, k: int) -> bool {
        &&& new.wf()
        &&& advanced(&self.bus, &new.bus)
        &&& new.bus.cpu_cycles_to_wait <= self.bus.cpu_cycles_to_wait + k
    }

    /// The operand value: the byte a read of the operand address returns, or A.
    pub open spec fn operand(&self) -> u8 {
        match self.operand_address {
            Some(address) => self.bus.read_value(address),
            None => self.a,
        }
    }

    /// PC after a branch on `condition`.
    pub open spec fn branch_target(&self, condition: bool) -> u16 {
        if condition && self.operand_address.is_some() {
            self.operand_address.unwrap()
        } else {
            self.pc
        }
    }

    /// The RAM byte at `address` (mirrored).
    pub open spec fn ram_byte(&self, address: int) -> u8 {
        self.bus.ram[address % 2048]
    }

    /// The byte a side-effect-free read of `address` returns.
    pub open spec fn byte_at(&self, address: int) -> u8 {
        self.bus.peek((address % 65536) as u16)
    }

    /// A read of `address` has no side effect (see `CpuBus::settled`).
    pub open spec fn settled_at(&self, address: int) -> bool {
        self.bus.settled((address % 65536) as u16)
    }

    /// The little-endian word at `address`.
    pub open spec fn word_at(&self, address: int) -> int {
        self.byte_at(address) + 256 * self.byte_at(address + 1)
    }

    /// The little-endian word at page-zero `pointer`, its high byte wrapping within page zero.
    pub open spec fn zero_page_word(&self, pointer: int) -> int {
        self.ram_byte(pointer) + 256 * self.ram_byte((pointer + 1) % 256)
    }

    /// The address of the high byte of the word at `pointer`, within the pointer's page.
    pub open spec fn same_page_successor(pointer: int) -> int {
        (pointer / 256) * 256 + (pointer + 1) % 256
    }

    /// The bytes that resolving `mode` reads, at PC and after, are settled.
    pub open spec fn operand_settled(&self, mode: AddrMode) -> bool {
        let pc = self.pc as int;
        match mode {
            AddrMode::Implied | AddrMode::Accumulator | AddrMode::Immediate => true,
            AddrMode::Absolute | AddrMode::AbsoluteX | AddrMode::AbsoluteXForceClock
            | AddrMode::AbsoluteY | AddrMode::AbsoluteYForceClock => self.settled_at(pc)
                && self.settled_at(pc + 1),
            AddrMode::Indirect => self.settled_at(pc) && self.settled_at(pc + 1) && self.settled_at(
                self.word_at(pc),
            ) && self.settled_at(Self::same_page_successor(self.word_at(pc))),
            _ => self.settled_at(pc),
        }
    }

    /// The operand address that `mode` resolves to, from the bytes at PC.
    pub open spec fn resolved_address(&self, mode: AddrMode) -> Option<u16> {
        let b = self.byte_at(self.pc as int);
        let w = self.word_at(self.pc as int);
        match mode {
            AddrMode::Implied | AddrMode::Accumulator => None,
            AddrMode::Immediate => Some(self.pc),
            AddrMode::ZeroPage => Some(b as u16),
            AddrMode::ZeroPageX => Some(((b + self.x) % 256) as u16),
            AddrMode::ZeroPageY => Some(((b + self.y) % 256) as u16),
            AddrMode::Absolute => Some(w as u16),
            AddrMode::AbsoluteX | AddrMode::AbsoluteXForceClock => Some(((w + self.x) % 65536) as u16),
            AddrMode::AbsoluteY | AddrMode::AbsoluteYForceClock => Some(((w + self.y) % 65536) as u16),
            AddrMode::Indirect => Some(
                (self.byte_at(w) + 256 * self.byte_at(Self::same_page_successor(w))) as u16,
            ),
            AddrMode::IndirectX => Some(self.zero_page_word((b + self.x) % 256) as u16),
            AddrMode::IndirectY | AddrMode::IndirectYForceClock => Some(
                ((self.zero_page_word(b as int) + self.y) % 65536) as u16,
            ),
            AddrMode::Relative => Some(
                ((self.pc + 1 + (if b >= 128 { b - 256 } else { b as int }) + 65536) % 65536) as u16,
            ),
        }
    }

    /// Indexing in `mode` crosses into another page (the cycle it costs is then spent).
    pub open spec fn crosses_page(&self, mode: AddrMode) -> bool {
        let base = match mode {
            AddrMode::IndirectY => self.zero_page_word(self.byte_at(self.pc as int) as int),
            _ => self.word_at(self.pc as int),
        };
        (mode == AddrMode::AbsoluteX || mode == AddrMode::AbsoluteY || mode == AddrMode::IndirectY)
            && base / 256 != self.resolved_address(mode).unwrap() / 256
    }

    /// `new` holds `value` at the operand address where that is RAM.
    pub open spec fn stored(&self, new: &Cpu, value: u8) -> bool {
        match self.operand_address {
            Some(address) => address < 0x2000 ==> new.bus.ram@ == self.bus.ram@.update(
                address as int % 2048,
                value,
            ),
            None => true,
        }
    }

    /// Cycles a branch on `condition` adds: one when taken, one more into another page.
    pub open spec fn branch_cycles(&self, condition: bool) -> int {
        if condition && self.operand_address.is_some() {
            if self.operand_address.unwrap() / 256 != self.pc / 256 { 2 } else { 1 }
        } else {
            0
        }
    }

    /// Cycles spent between `self` and `new`.
    pub open spec fn spent(&self, new: &Cpu) -> int {
        new.bus.cpu_cycles_to_wait - self.bus.cpu_cycles_to_wait
    }

    /// Same registers as `other`.
    pub open spec fn same_registers(&self, other: &Cpu) -> bool {
        &&& other.pc == self.pc
        &&& other.sp == self.sp
        &&& other.a == self.a
        &&& other.x == self.x
        &&& other.y == self.y
        &&& other.flags == self.flags
        &&& other.operand_address == self.operand_address
    }

    /// Runs one bus cycle with no access.
    fn tick(&mut self)
        requires
            old(self).wf(),
            old(self).bus.cpu_cycles_to_wait <= u32::MAX - 100,
        ensures
            final(self).bus.cpu_cycles_total == old(self).bus.cpu_cycles_total.wrapping_add(1),
            old(self).ran(final(self), 1),
            final(self).bus.cpu_cycles_to_wait == old(self).bus.cpu_cycles_to_wait + 1,
            old(self).same_registers(final(self)),
            final(self).bus.ram == old(self).bus.ram,
            final(self).bus.cartridge() == old(self).bus.cartridge(),
    {
        self.bus.clock();
    }

    /// Sets or clears flag bits other than BREAK and UNUSED.
    fn put_flag(&mut self, flag: u8, value: bool)
        requires
            old(self).wf(),
            is_register_flag(flag),
        ensures
            final(self).wf(),
            final(self).flags.0 == if value { old(self).flags.0 | flag } else { old(self).flags.0 & !flag },
            final(self).bus == old(self).bus,
            final(self).pc == old(self).pc && final(self).sp == old(self).sp && final(self).a == old(self).a
                && final(self).x == old(self).x && final(self).y == old(self).y
                && final(self).operand_address == old(self).operand_address,
    {
        let f = self.flags.0;
        assert(f & 0x10 == 0 ==> (f | flag) & 0x10 == 0 && (f & !flag) & 0x10 == 0) by (bit_vector)
            requires
                flag == 0x01 || flag == 0x02 || flag == 0x04 || flag == 0x08 || flag == 0x40 || flag == 0x80,
        ;
        self.flags.set(flag, value);
    }

    /// Sets ZERO and NEGATIVE from `value`.
    fn set_zero_neg_flags(&mut self, value: u8)
        requires
            old(self).wf(),
        ensures
            final(self).wf(),
            final(self).flags.0 == zn_flags(old(self).flags.0, value),
            final(self).bus == old(self).bus,
            final(self).pc == old(self).pc && final(self).sp == old(self).sp && final(self).a == old(self).a
                && final(self).x == old(self).x && final(self).y == old(self).y
                && final(self).operand_address == old(self).operand_address,
    {
        let f = self.flags.0;
        let z: u8 = if value == 0 { 0x02 } else { 0 };
        assert(f & 0x10 == 0 && (z == 0 || z == 2) ==> ((f & !0x82u8) | z | (value & 0x80)) & 0x10 == 0) by (bit_vector);
        self.flags = Flags((f & !0x82u8) | z | (value & 0x80));
    }

    /// Sets CARRY, ZERO and NEGATIVE as a comparison of `register` with `value`.
    fn set_compare_flags(&mut self, register: u8, value: u8)
        requires
            old(self).wf(),
        ensures
            final(self).wf(),
            final(self).flags.0 == compare_flags(old(self).flags.0, register, value),
            final(self).bus == old(self).bus,
            final(self).pc == old(self).pc && final(self).sp == old(self).sp && final(self).a == old(self).a
                && final(self).x == old(self).x && final(self).y == old(self).y
                && final(self).operand_address == old(self).operand_address,
    {
        self.put_flag(Flags::CARRY, register >= value);
        self.set_zero_neg_flags(register.wrapping_sub(value));
    }

    /// Reads the byte at PC and advances PC.
    fn read_u8_at_pc(&mut self) -> (r: u8)
        requires
            old(self).wf(),
            old(self).bus.cpu_cycles_to_wait <= u32::MAX - 100,
        ensures
            final(self).bus.cartridge() == old(self).bus.cartridge(),
            old(self).ran(final(self), 1),
            final(self).bus.cpu_cycles_to_wait == old(self).bus.cpu_cycles_to_wait + 1,
            r == old(self).bus.read_value(old(self).pc),
            final(self).pc == old(self).pc.wrapping_add(1),
            final(self).sp == old(self).sp && final(self).a == old(self).a && final(self).x == old(self).x
                && final(self).y == old(self).y && final(self).flags == old(self).flags
                && final(self).operand_address == old(self).operand_address,
            final(self).bus.ram == old(self).bus.ram,
    {
        let pc = self.pc;
        self.pc = self.pc.wrapping_add(1);
        self.bus.read_u8(pc)
    }

    /// Reads the word at PC and advances PC by two.
    fn read_u16_at_pc(&mut self) -> (r: u16)
        requires
            old(self).wf(),
            old(self).bus.cpu_cycles_to_wait <= u32::MAX - 100,
        ensures
            final(self).bus.cartridge() == old(self).bus.cartridge(),
            old(self).ran(final(self), 2),
            final(self).bus.cpu_cycles_to_wait == old(self).bus.cpu_cycles_to_wait + 2,
            final(self).pc == old(self).pc.wrapping_add(2),
            final(self).sp == old(self).sp && final(self).a == old(self).a && final(self).x == old(self).x
                && final(self).y == old(self).y && final(self).flags == old(self).flags
                && final(self).operand_address == old(self).operand_address,
            final(self).bus.ram == old(self).bus.ram,
            old(self).settled_at(old(self).pc as int) && old(self).settled_at(old(self).pc + 1) ==> r
                == old(self).word_at(old(self).pc as int),
    {
        let pc = self.pc;
        self.pc = self.pc.wrapping_add(2);
        self.bus.read_u16(pc)
    }

    /// Pushes a byte: write at `$0100 + sp`, then decrement `sp`.
    pub fn stack_push(&mut self, value: u8)
        requires
            old(self).wf(),
            old(self).bus.cpu_cycles_to_wait <= u32::MAX - 100,
        ensures
            final(self).bus.cartridge() == old(self).bus.cartridge(),
            old(self).ran(final(self), 1),
            final(self).bus.cpu_cycles_to_wait == old(self).bus.cpu_cycles_to_wait + 1,
            final(self).bus.ram@ == pushed(old(self).bus.ram@, old(self).sp, value),
            final(self).sp == ((old(self).sp + 255) % 256) as u8,
            final(self).pc == old(self).pc && final(self).a == old(self).a && final(self).x == old(self).x
                && final(self).y == old(self).y && final(self).flags == old(self).flags
                && final(self).operand_address == old(self).operand_address,
    {
        self.bus.write_u8(0x100 + self.sp as u16, value);
        self.sp = self.sp.wrapping_sub(1);
    }

    /// Pops a byte: increment `sp`, then read at `$0100 + sp`.
    pub fn stack_pop(&mut self) -> (r: u8)
        requires
            old(self).wf(),
            old(self).bus.cpu_cycles_to_wait <= u32::MAX - 100,
        ensures
            final(self).bus.cartridge() == old(self).bus.cartridge(),
            old(self).ran(final(self), 1),
            final(self).bus.cpu_cycles_to_wait == old(self).bus.cpu_cycles_to_wait + 1,
            final(self).sp == ((old(self).sp + 1) % 256) as u8,
            r == old(self).bus.ram[0x100 + final(self).sp],
            final(self).bus.ram == old(self).bus.ram,
            final(self).pc == old(self).pc && final(self).a == old(self).a && final(self).x == old(self).x
                && final(self).y == old(self).y && final(self).flags == old(self).flags
                && final(self).operand_address == old(self).operand_address,
    {
        self.sp = self.sp.wrapping_add(1);
        self.bus.read_u8(0x100 + self.sp as u16)
    }

    /// Pushes a word, high byte first.
    fn stack_push_u16(&mut self, value: u16)
        requires
            old(self).wf(),
            old(self).bus.cpu_cycles_to_wait <= u32::MAX - 200,
        ensures
            final(self).bus.cartridge() == old(self).bus.cartridge(),
            old(self).ran(final(self), 2),
            final(self).bus.cpu_cycles_to_wait == old(self).bus.cpu_cycles_to_wait + 2,
            final(self).bus.ram@ == pushed(
                pushed(old(self).bus.ram@, old(self).sp, (value / 256) as u8),
                ((old(self).sp + 255) % 256) as u8,
                (value % 256) as u8,
            ),
            final(self).sp == ((old(self).sp + 254) % 256) as u8,
            final(self).pc == old(self).pc && final(self).a == old(self).a && final(self).x == old(self).x
                && final(self).y == old(self).y && final(self).flags == old(self).flags
                && final(self).operand_address == old(self).operand_address,
    {
        assert(value >> 8u16 == value / 256 && value & 0xff == value % 256) by (bit_vector);
        self.stack_push((value >> 8u16) as u8);
        self.stack_push((value & 0xff) as u8);
    }

    /// Pops a word, low byte first.
    pub fn stack_pop_u16(&mut self) -> (r: u16)
        requires
            old(self).wf(),
            old(self).bus.cpu_cycles_to_wait <= u32::MAX - 200,
        ensures
            final(self).bus.cartridge() == old(self).bus.cartridge(),
            old(self).ran(final(self), 2),
            final(self).bus.cpu_cycles_to_wait == old(self).bus.cpu_cycles_to_wait + 2,
            final(self).sp == ((old(self).sp + 2) % 256) as u8,
            r == old(self).bus.ram[0x100 + (((old(self).sp + 1) % 256) as u8)] + 256 * old(self).bus.ram[0x100
                + (((old(self).sp + 2) % 256) as u8)],
            final(self).bus.ram == old(self).bus.ram,
            final(self).pc == old(self).pc && final(self).a == old(self).a && final(self).x == old(self).x
                && final(self).y == old(self).y && final(self).flags == old(self).flags
                && final(self).operand_address == old(self).operand_address,
    {
        let lsb = self.stack_pop() as u16;
        let msb = self.stack_pop() as u16;
        proof {
            crate::cpu_bus::lemma_word(lsb, msb);
        }
        lsb | (msb << 8u16)
    }

    /// Adds an index to an address, spending a cycle on a page cross or when the mode forces it.
    fn address_add_offset(&mut self, address: u16, offset: u8, mode: AddrMode) -> (r: u16)
        requires
            old(self).wf(),
            old(self).bus.cpu_cycles_to_wait <= u32::MAX - 200,
        ensures
            final(self).bus.cartridge() == old(self).bus.cartridge(),
            r == address.wrapping_add(offset as u16),
            old(self).ran(final(self), 1),
            final(self).bus.cpu_cycles_to_wait == old(self).bus.cpu_cycles_to_wait + if mode
                == AddrMode::AbsoluteXForceClock || mode == AddrMode::AbsoluteYForceClock || mode
                == AddrMode::IndirectYForceClock || address / 256 != r / 256 {
                1int
            } else {
                0
            },
            old(self).same_registers(final(self)),
            final(self).bus.ram == old(self).bus.ram,
    {
        let address_added = address.wrapping_add(offset as u16);
        proof {
            lemma_same_page(address, address_added);
        }
        let force_clock = mode == AddrMode::AbsoluteYForceClock || mode == AddrMode::AbsoluteXForceClock
            || mode == AddrMode::IndirectYForceClock;
        if force_clock || address & 0xff00 != address_added & 0xff00 {
            self.tick();
        }
        address_added
    }

    /// Page-zero address plus X or Y, wrapping in page zero; one extra cycle.
    #[verifier::rlimit(80)]
    fn resolve_zero_page_indexed(&mut self, mode: AddrMode) -> (r: u16)
        requires
            old(self).wf(),
            mode == AddrMode::ZeroPageX || mode == AddrMode::ZeroPageY,
            old(self).bus.cpu_cycles_to_wait <= u32::MAX - 400,
        ensures
            final(self).bus.cartridge() == old(self).bus.cartridge(),
            final(self).pc == old(self).pc.wrapping_add(1),
            old(self).ran(final(self), 4),
            final(self).sp == old(self).sp && final(self).a == old(self).a && final(self).x == old(self).x
                && final(self).y == old(self).y && final(self).flags == old(self).flags
                && final(self).operand_address == old(self).operand_address,
            final(self).bus.ram == old(self).bus.ram,
            (mode == AddrMode::ZeroPageX || mode == AddrMode::ZeroPageY) ==> old(self).spent(final(self)) == 2,
            old(self).operand_settled(mode) ==> Some(r) == old(self).resolved_address(mode),
    {
        self.tick();
        let base = self.read_u8_at_pc();
        let index = if mode == AddrMode::ZeroPageX { self.x } else { self.y };
        base.wrapping_add(index) as u16
    }

    /// Absolute address plus X or Y.
    #[verifier::rlimit(80)]
    fn resolve_absolute_indexed(&mut self, mode: AddrMode) -> (r: u16)
        requires
            old(self).wf(),
            mode == AddrMode::AbsoluteX || mode == AddrMode::AbsoluteXForceClock || mode == AddrMode::AbsoluteY || mode == AddrMode::AbsoluteYForceClock,
            old(self).bus.cpu_cycles_to_wait <= u32::MAX - 400,
        ensures
            final(self).bus.cartridge() == old(self).bus.cartridge(),
            final(self).pc == old(self).pc.wrapping_add(2),
            old(self).ran(final(self), 4),
            final(self).sp == old(self).sp && final(self).a == old(self).a && final(self).x == old(self).x
                && final(self).y == old(self).y && final(self).flags == old(self).flags
                && final(self).operand_address == old(self).operand_address,
            final(self).bus.ram == old(self).bus.ram,
            mode_cycles(mode) <= old(self).spent(final(self)) <= mode_cycles(mode) + if mode == AddrMode::AbsoluteX || mode == AddrMode::AbsoluteY { 1int } else { 0 },
            old(self).operand_settled(mode) ==> old(self).spent(final(self)) == mode_cycles(mode) + if old(self).crosses_page(mode) { 1int } else { 0 },
            old(self).operand_settled(mode) ==> Some(r) == old(self).resolved_address(mode),
    {
        let address = self.read_u16_at_pc();
        let index = if mode == AddrMode::AbsoluteX || mode == AddrMode::AbsoluteXForceClock {
            self.x
        } else {
            self.y
        };
        self.address_add_offset(address, index, mode)
    }

    /// Page-zero pointer plus X, wrapping in page zero, then the word it points at.
    #[verifier::rlimit(80)]
    fn resolve_indirect_x(&mut self) -> (r: u16)
        requires
            old(self).wf(),
            old(self).bus.cpu_cycles_to_wait <= u32::MAX - 400,
        ensures
            final(self).bus.cartridge() == old(self).bus.cartridge(),
            final(self).pc == old(self).pc.wrapping_add(1),
            old(self).ran(final(self), 4),
            final(self).sp == old(self).sp && final(self).a == old(self).a && final(self).x == old(self).x
                && final(self).y == old(self).y && final(self).flags == old(self).flags
                && final(self).operand_address == old(self).operand_address,
            final(self).bus.ram == old(self).bus.ram,
            old(self).spent(final(self)) == 4,
            old(self).operand_settled(AddrMode::IndirectX) ==> Some(r) == old(self).resolved_address(AddrMode::IndirectX),
    {
        let base = self.read_u8_at_pc();
        let indirect_address = base.wrapping_add(self.x);
        self.tick();
        proof {
            lemma_page_zero_successor(indirect_address as u16);
        }
        self.bus.read_u16_wrapped(indirect_address as u16)
    }

    /// The word at a page-zero pointer, plus Y.
    #[verifier::rlimit(100)]
    fn resolve_indirect_y(&mut self, mode: AddrMode) -> (r: u16)
        requires
            old(self).wf(),
            mode == AddrMode::IndirectY || mode == AddrMode::IndirectYForceClock,
            old(self).bus.cpu_cycles_to_wait <= u32::MAX - 400,
        ensures
            final(self).bus.cartridge() == old(self).bus.cartridge(),
            final(self).pc == old(self).pc.wrapping_add(1),
            old(self).ran(final(self), 4),
            final(self).sp == old(self).sp && final(self).a == old(self).a && final(self).x == old(self).x
                && final(self).y == old(self).y && final(self).flags == old(self).flags
                && final(self).operand_address == old(self).operand_address,
            final(self).bus.ram == old(self).bus.ram,
            mode_cycles(mode) <= old(self).spent(final(self)) <= mode_cycles(mode) + if mode == AddrMode::IndirectY { 1int } else { 0 },
            old(self).operand_settled(mode) ==> old(self).spent(final(self)) == mode_cycles(mode) + if old(self).crosses_page(mode) { 1int } else { 0 },
            old(self).operand_settled(mode) ==> Some(r) == old(self).resolved_address(mode),
    {
        let indirect_address = self.read_u8_at_pc();
        proof {
            lemma_page_zero_successor(indirect_address as u16);
        }
        let address = self.bus.read_u16_wrapped(indirect_address as u16);
        let y = self.y;
        self.address_add_offset(address, y, mode)
    }

    /// The next instruction's address plus a signed offset.
    #[verifier::rlimit(80)]
    fn resolve_relative(&mut self) -> (r: u16)
        requires
            old(self).wf(),
            old(self).bus.cpu_cycles_to_wait <= u32::MAX - 400,
        ensures
            final(self).bus.cartridge() == old(self).bus.cartridge(),
            final(self).pc == old(self).pc.wrapping_add(1),
            old(self).ran(final(self), 4),
            final(self).sp == old(self).sp && final(self).a == old(self).a && final(self).x == old(self).x
                && final(self).y == old(self).y && final(self).flags == old(self).flags
                && final(self).operand_address == old(self).operand_address,
            final(self).bus.ram == old(self).bus.ram,
            old(self).spent(final(self)) == 1,
            old(self).operand_settled(AddrMode::Relative) ==> Some(r) == old(self).resolved_address(AddrMode::Relative),
    {
        let offset = self.read_u8_at_pc();
        proof {
            lemma_page_zero_successor(offset as u16);
        }
        let signed: u16 = if offset >= 0x80 { 0xff00 | offset as u16 } else { offset as u16 };
        self.pc.wrapping_add(signed)
    }

    /// Resolves the operand address of `mode`, reading operand bytes and spending the mode's
    /// extra cycles; `None` for implied and accumulator operands.
    #[verifier::rlimit(100)]
    #[verifier::spinoff_prover]
    fn read_operand_address(&mut self, mode: AddrMode) -> (r: Option<u16>)
        requires
            old(self).wf(),
            old(self).bus.cpu_cycles_to_wait <= u32::MAX - 500,
        ensures
            final(self).pc == ((old(self).pc + operand_length(mode)) % 65536) as u16,
            final(self).bus.cartridge() == old(self).bus.cartridge(),
            old(self).operand_settled(mode) ==> r == old(self).resolved_address(mode),
            old(self).operand_settled(mode) ==> old(self).spent(final(self)) == mode_cycles(mode) + if old(self).crosses_page(mode) { 1int } else { 0 },
            mode_cycles(mode) <= old(self).spent(final(self)) <= mode_cycles(mode) + if mode == AddrMode::AbsoluteX || mode == AddrMode::AbsoluteY || mode == AddrMode::IndirectY { 1int } else { 0 },
            old(self).ran(final(self), 4),
            final(self).sp == old(self).sp && final(self).a == old(self).a && final(self).x == old(self).x
                && final(self).y == old(self).y && final(self).flags == old(self).flags
                && final(self).operand_address == old(self).operand_address,
            mode == AddrMode::Implied || mode == AddrMode::Accumulator <==> r.is_none(),
            mode == AddrMode::Implied || mode == AddrMode::Accumulator ==> *final(self) == *old(self),
            mode == AddrMode::Immediate ==> r == Some(old(self).pc) && final(self).pc == old(self).pc.wrapping_add(1)
                && final(self).bus == old(self).bus,
            final(self).bus.ram == old(self).bus.ram,
    {
        match mode {
            AddrMode::Accumulator => None,
            AddrMode::Implied => None,
            AddrMode::Immediate => {
                let address = self.pc;
                self.pc = self.pc.wrapping_add(1);
                Some(address)
            },
            AddrMode::ZeroPage => Some(self.read_u8_at_pc() as u16),
            AddrMode::ZeroPageX | AddrMode::ZeroPageY => Some(self.resolve_zero_page_indexed(mode)),
            AddrMode::Absolute => Some(self.read_u16_at_pc()),
            AddrMode::AbsoluteX | AddrMode::AbsoluteXForceClock | AddrMode::AbsoluteY
            | AddrMode::AbsoluteYForceClock => Some(self.resolve_absolute_indexed(mode)),
            AddrMode::Indirect => {
                let indirect_address = self.read_u16_at_pc();
                proof {
                    lemma_same_page_successor(indirect_address);
                }
                Some(self.bus.read_u16_wrapped(indirect_address))
            },
            AddrMode::IndirectX => Some(self.resolve_indirect_x()),
            AddrMode::IndirectY | AddrMode::IndirectYForceClock => Some(self.resolve_indirect_y(mode)),
            AddrMode::Relative => Some(self.resolve_relative()),
        }
    }

    /// The operand: the byte at the operand address, or A when there is none.
    fn read_operand_value(&mut self) -> (r: u8)
        requires
            old(self).wf(),
            old(self).bus.cpu_cycles_to_wait <= u32::MAX - 100,
        ensures
            final(self).bus.cartridge() == old(self).bus.cartridge(),
            old(self).ran(final(self), 1),
            old(self).same_registers(final(self)),
            final(self).bus.ram == old(self).bus.ram,
            match old(self).operand_address {
                None => r == old(self).a && final(self).bus == old(self).bus,
                Some(address) => r == old(self).bus.read_value(address)
                    && final(self).bus.cpu_cycles_to_wait == old(self).bus.cpu_cycles_to_wait + 1,
            },
    {
        match self.operand_address {
            Some(address) => self.bus.read_u8(address),
            None => self.a,
        }
    }

    /// Writes `value` to the operand address.
    fn store_mem(&mut self, value: u8)
        requires
            old(self).wf(),
            old(self).bus.cpu_cycles_to_wait <= u32::MAX - 100,
        ensures
            old(self).stored(final(self), value),
            old(self).spent(final(self)) == if old(self).operand_address.is_some() { 1int } else { 0 },
            old(self).ran(final(self), 1),
            old(self).same_registers(final(self)),
            match old(self).operand_address {
                None => final(self).bus == old(self).bus,
                Some(address) => final(self).bus.ram@ == if address < 0x2000 {
                    old(self).bus.ram@.update(address as int % 2048, value)
                } else {
                    old(self).bus.ram@
                },
            },
    {
        match self.operand_address {
            Some(address) => self.bus.write_u8(address, value),
            None => {},
        }
    }

    /// Spends a cycle and sets ZERO and NEGATIVE from `value`, which it returns.
    fn transfer(&mut self, value: u8) -> (r: u8)
        requires
            old(self).wf(),
            old(self).bus.cpu_cycles_to_wait <= u32::MAX - 100,
        ensures
            final(self).bus.cartridge() == old(self).bus.cartridge(),
            old(self).spent(final(self)) == 1,
            r == value,
            old(self).ran(final(self), 1),
            final(self).flags.0 == zn_flags(old(self).flags.0, value),
            final(self).pc == old(self).pc && final(self).sp == old(self).sp && final(self).a == old(self).a
                && final(self).x == old(self).x && final(self).y == old(self).y
                && final(self).operand_address == old(self).operand_address,
            final(self).bus.ram == old(self).bus.ram,
    {
        self.tick();
        self.set_zero_neg_flags(value);
        value
    }

    fn stack_push_clocked(&mut self, value: u8)
        requires
            old(self).wf(),
            old(self).bus.cpu_cycles_to_wait <= u32::MAX - 200,
        ensures
            final(self).bus.cartridge() == old(self).bus.cartridge(),
            old(self).spent(final(self)) == 2,
            old(self).ran(final(self), 2),
            final(self).bus.ram@ == pushed(old(self).bus.ram@, old(self).sp, value),
            final(self).sp == ((old(self).sp + 255) % 256) as u8,
            final(self).pc == old(self).pc && final(self).a == old(self).a && final(self).x == old(self).x
                && final(self).y == old(self).y && final(self).flags == old(self).flags
                && final(self).operand_address == old(self).operand_address,
    {
        self.stack_push(value);
        self.tick();
    }

    fn stack_pop_clocked(&mut self) -> (r: u8)
        requires
            old(self).wf(),
            old(self).bus.cpu_cycles_to_wait <= u32::MAX - 200,
        ensures
            final(self).bus.cartridge() == old(self).bus.cartridge(),
            old(self).spent(final(self)) == 3,
            old(self).ran(final(self), 3),
            final(self).sp == ((old(self).sp + 1) % 256) as u8,
            r == old(self).bus.ram[0x100 + final(self).sp],
            final(self).bus.ram == old(self).bus.ram,
            final(self).pc == old(self).pc && final(self).a == old(self).a && final(self).x == old(self).x
                && final(self).y == old(self).y && final(self).flags == old(self).flags
                && final(self).operand_address == old(self).operand_address,
    {
        self.tick();
        self.tick();
        self.stack_pop()
    }

    /// Pushes the flags with BREAK and UNUSED set.
    fn php(&mut self)
        requires
            old(self).wf(),
            old(self).bus.cpu_cycles_to_wait <= u32::MAX - 300,
        ensures
            final(self).bus.cartridge() == old(self).bus.cartridge(),
            old(self).spent(final(self)) == 2,
            old(self).ran(final(self), 2),
            final(self).bus.ram@ == pushed(old(self).bus.ram@, old(self).sp, old(self).flags.0 | 0x30),
            final(self).sp == ((old(self).sp + 255) % 256) as u8,
            final(self).pc == old(self).pc && final(self).a == old(self).a && final(self).x == old(self).x
                && final(self).y == old(self).y && final(self).flags == old(self).flags,
    {
        let f = self.flags.0;
        let pushed_flags = f | Flags::BREAK | Flags::UNUSED;
        assert(f | 0x10u8 | 0x20u8 == f | 0x30u8) by (bit_vector);
        self.stack_push_clocked(pushed_flags);
    }

    /// Pops the flags, dropping BREAK and setting UNUSED.
    fn plp(&mut self)
        requires
            old(self).wf(),
            old(self).bus.cpu_cycles_to_wait <= u32::MAX - 300,
        ensures
            final(self).bus.cartridge() == old(self).bus.cartridge(),
            old(self).spent(final(self)) == 3,
            old(self).ran(final(self), 3),
            final(self).sp == ((old(self).sp + 1) % 256) as u8,
            final(self).flags.0 == (old(self).bus.ram[0x100 + final(self).sp] | 0x20u8) & !0x10u8,
            final(self).bus.ram == old(self).bus.ram,
            final(self).pc == old(self).pc && final(self).a == old(self).a && final(self).x == old(self).x
                && final(self).y == old(self).y,
    {
        let value = self.stack_pop_clocked();
        assert(((value | 0x20u8) & !0x10u8) & 0x10 == 0) by (bit_vector);
        self.flags = Flags((value | Flags::UNUSED) & !Flags::BREAK);
    }

    /// The shift and rotate instructions, on A or on memory; returns the result.
    #[verifier::rlimit(60)]
    fn shift(&mut self, is_left: bool, contains_carry: bool) -> (r: u8)
        requires
            old(self).wf(),
            old(self).bus.cpu_cycles_to_wait <= u32::MAX - 300,
        ensures
            old(self).spent(final(self)) == if old(self).operand_address.is_some() { 3int } else { 1 },
            old(self).ran(final(self), 3),
            final(self).pc == old(self).pc && final(self).sp == old(self).sp && final(self).x == old(self).x
                && final(self).y == old(self).y && final(self).operand_address == old(self).operand_address,
            ({
                let value = old(self).operand();
                let carry_in = contains_carry && old(self).flags.has(Flags::CARRY);
                &&& r == shifted(value, is_left, carry_in)
                &&& final(self).flags.0 == shift_flags(old(self).flags.0, value, is_left, carry_in)
                &&& old(self).operand_address.is_none() ==> final(self).a == r && final(self).bus.ram
                    == old(self).bus.ram
                &&& old(self).operand_address.is_some() ==> final(self).a == old(self).a && old(
                    self,
                ).stored(final(self), r)
            }),
    {
        let value = self.read_operand_value();
        let carry: u8 = if self.flags.0 & Flags::CARRY != 0 && contains_carry { 1 } else { 0 };
        let result = if is_left { (value << 1u8) | carry } else { (value >> 1u8) | (carry << 7u8) };
        let carry_out = if is_left { value & 0x80 != 0 } else { value & 0x01 != 0 };
        self.put_flag(Flags::CARRY, carry_out);
        self.set_zero_neg_flags(result);
        self.tick();
        match self.operand_address {
            Some(address) => self.bus.write_u8(address, result),
            None => self.a = result,
        }
        result
    }

    /// `value` plus or minus one, with a cycle and ZERO/NEGATIVE set.
    fn inc_val(&mut self, value: u8, increment: bool) -> (r: u8)
        requires
            old(self).wf(),
            old(self).bus.cpu_cycles_to_wait <= u32::MAX - 200,
        ensures
            final(self).bus.cartridge() == old(self).bus.cartridge(),
            old(self).spent(final(self)) == 1,
            r == if increment { value.wrapping_add(1) } else { value.wrapping_sub(1) },
            old(self).ran(final(self), 1),
            final(self).flags.0 == zn_flags(old(self).flags.0, r),
            final(self).pc == old(self).pc && final(self).sp == old(self).sp && final(self).a == old(self).a
                && final(self).x == old(self).x && final(self).y == old(self).y
                && final(self).operand_address == old(self).operand_address,
            final(self).bus.ram == old(self).bus.ram,
    {
        let result = if increment { value.wrapping_add(1) } else { value.wrapping_sub(1) };
        self.transfer(result)
    }

    /// Increments or decrements the operand in memory; returns the result.
    fn inc_mem(&mut self, increment: bool) -> (r: u8)
        requires
            old(self).wf(),
            old(self).bus.cpu_cycles_to_wait <= u32::MAX - 300,
        ensures
            r == if increment { old(self).operand().wrapping_add(1) } else { old(self).operand().wrapping_sub(1) },
            old(self).stored(final(self), r),
            old(self).spent(final(self)) == if old(self).operand_address.is_some() { 3int } else { 1 },
            old(self).ran(final(self), 3),
            final(self).flags.0 == zn_flags(old(self).flags.0, r),
            final(self).pc == old(self).pc && final(self).sp == old(self).sp && final(self).a == old(self).a
                && final(self).x == old(self).x && final(self).y == old(self).y
                && final(self).operand_address == old(self).operand_address,
    {
        let value = self.read_operand_value();
        let result = self.inc_val(value, increment);
        self.store_mem(result);
        result
    }

    /// The operand, with ZERO and NEGATIVE set from it.
    fn load_mem(&mut self) -> (r: u8)
        requires
            old(self).wf(),
            old(self).bus.cpu_cycles_to_wait <= u32::MAX - 200,
        ensures
            final(self).bus.cartridge() == old(self).bus.cartridge(),
            old(self).spent(final(self)) == if old(self).operand_address.is_some() { 1int } else { 0 },
            old(self).ran(final(self), 1),
            final(self).flags.0 == zn_flags(old(self).flags.0, r),
            r == old(self).operand(),
            final(self).pc == old(self).pc && final(self).sp == old(self).sp && final(self).a == old(self).a
                && final(self).x == old(self).x && final(self).y == old(self).y
                && final(self).operand_address == old(self).operand_address,
            final(self).bus.ram == old(self).bus.ram,
    {
        let value = self.read_operand_value();
        self.set_zero_neg_flags(value);
        value
    }

    /// Sets OVERFLOW when `a` and `adder` share a sign that `result` does not.
    fn set_overflow_flag(&mut self, a: u8, adder: u8, result: u8)
        requires
            old(self).wf(),
        ensures
            final(self).wf(),
            final(self).flags.0 == if (a ^ adder) & 0x80 == 0 && (a ^ result) & 0x80 != 0 {
                old(self).flags.0 | 0x40
            } else {
                old(self).flags.0 & !0x40u8
            },
            final(self).bus == old(self).bus,
            final(self).pc == old(self).pc && final(self).sp == old(self).sp && final(self).a == old(self).a
                && final(self).x == old(self).x && final(self).y == old(self).y
                && final(self).operand_address == old(self).operand_address,
    {
        let adder_same_sign = (a ^ adder) & 0x80 == 0;
        let result_changed_sign = (a ^ result) & 0x80 != 0;
        self.put_flag(Flags::OVERFLOW, adder_same_sign && result_changed_sign);
    }

    /// `a + adder + carry` into A, with CARRY, OVERFLOW, ZERO and NEGATIVE; with `invert_carry`
    /// the carry-in is the complement of CARRY (subtraction as the addition of `!operand`).
    fn add_carry(&mut self, adder: u8, invert_carry: bool)
        requires
            old(self).wf(),
        ensures
            final(self).wf(),
            final(self).a == adc_result(old(self).a, adder, old(self).flags.has(Flags::CARRY) != invert_carry),
            final(self).flags.0 == adc_flags(old(self).flags.0, old(self).a, adder,
                old(self).flags.has(Flags::CARRY) != invert_carry),
            final(self).bus == old(self).bus,
            final(self).pc == old(self).pc && final(self).sp == old(self).sp && final(self).x == old(self).x
                && final(self).y == old(self).y && final(self).operand_address == old(self).operand_address,
    {
        let a = self.a;
        let carry: u16 = if (self.flags.0 & Flags::CARRY != 0) != invert_carry { 1 } else { 0 };
        let sum = adder as u16 + a as u16 + carry;
        let result = (sum % 256) as u8;
        self.put_flag(Flags::CARRY, sum > 0xff);
        self.set_overflow_flag(a, adder, result);
        self.set_zero_neg_flags(result);
        self.a = result;
    }

    /// Clears or sets a flag, spending a cycle.
    fn set_flag(&mut self, flag: u8, value: bool)
        requires
            old(self).wf(),
            old(self).bus.cpu_cycles_to_wait <= u32::MAX - 200,
            is_register_flag(flag),
        ensures
            final(self).bus.cartridge() == old(self).bus.cartridge(),
            old(self).spent(final(self)) == 1,
            old(self).ran(final(self), 1),
            final(self).flags.0 == if value { old(self).flags.0 | flag } else { old(self).flags.0 & !flag },
            final(self).pc == old(self).pc && final(self).sp == old(self).sp && final(self).a == old(self).a
                && final(self).x == old(self).x && final(self).y == old(self).y,
            final(self).bus.ram == old(self).bus.ram,
    {
        self.put_flag(flag, value);
        self.tick();
    }

    /// BIT: ZERO from `A & operand`, OVERFLOW and NEGATIVE from the operand's bits 6 and 7.
    fn bit(&mut self)
        requires
            old(self).wf(),
            old(self).bus.cpu_cycles_to_wait <= u32::MAX - 200,
        ensures
            final(self).bus.cartridge() == old(self).bus.cartridge(),
            final(self).flags.0 == bit_flags(old(self).flags.0, old(self).a, old(self).operand()),
            old(self).spent(final(self)) == if old(self).operand_address.is_some() { 1int } else { 0 },
            old(self).ran(final(self), 1),
            final(self).pc == old(self).pc && final(self).sp == old(self).sp && final(self).a == old(self).a
                && final(self).x == old(self).x && final(self).y == old(self).y,
            final(self).bus.ram == old(self).bus.ram,
    {
        let value = self.read_operand_value();
        let result = self.a & value;
        self.put_flag(Flags::ZERO, result == 0);
        self.put_flag(Flags::OVERFLOW, value & 0x40 != 0);
        self.put_flag(Flags::NEGATIVE, value & 0x80 != 0);
    }

    /// CMP, CPX, CPY.
    fn compare(&mut self, register: u8)
        requires
            old(self).wf(),
            old(self).bus.cpu_cycles_to_wait <= u32::MAX - 200,
        ensures
            final(self).bus.cartridge() == old(self).bus.cartridge(),
            final(self).flags.0 == compare_flags(old(self).flags.0, register, old(self).operand()),
            old(self).spent(final(self)) == if old(self).operand_address.is_some() { 1int } else { 0 },
            old(self).ran(final(self), 1),
            old(self).operand_address.is_none() ==> final(self).flags.0 == compare_flags(
                old(self).flags.0,
                register,
                old(self).a,
            ),
            final(self).pc == old(self).pc && final(self).sp == old(self).sp && final(self).a == old(self).a
                && final(self).x == old(self).x && final(self).y == old(self).y,
            final(self).bus.ram == old(self).bus.ram,
    {
        let value = self.read_operand_value();
        self.set_compare_flags(register, value);
    }

    /// Pushes the address of the last byte of the JSR, spends a cycle, jumps.
    #[verifier::rlimit(60)]
    fn jsr(&mut self)
        requires
            old(self).wf(),
            old(self).bus.cpu_cycles_to_wait <= u32::MAX - 300,
        ensures
            final(self).bus.cartridge() == old(self).bus.cartridge(),
            old(self).spent(final(self)) == 3,
            old(self).ran(final(self), 3),
            old(self).operand_address.is_some() ==> final(self).pc == old(self).operand_address.unwrap(),
            final(self).bus.ram@ == pushed(
                pushed(old(self).bus.ram@, old(self).sp, (old(self).pc.wrapping_sub(1) / 256) as u8),
                ((old(self).sp + 255) % 256) as u8,
                (old(self).pc.wrapping_sub(1) % 256) as u8,
            ),
            final(self).sp == ((old(self).sp + 254) % 256) as u8,
            final(self).a == old(self).a && final(self).x == old(self).x && final(self).y == old(self).y
                && final(self).flags == old(self).flags,
    {
        let return_address = self.pc.wrapping_sub(1);
        self.stack_push_u16(return_address);
        self.tick();
        match self.operand_address {
            Some(address) => self.pc = address,
            None => {},
        }
    }

    /// Pops the return address and continues after it.
    #[verifier::rlimit(40)]
    fn rts(&mut self)
        requires
            old(self).wf(),
            old(self).bus.cpu_cycles_to_wait <= u32::MAX - 300,
        ensures
            final(self).bus.cartridge() == old(self).bus.cartridge(),
            old(self).spent(final(self)) == 5,
            old(self).ran(final(self), 5),
            final(self).pc == ((old(self).bus.ram[0x100 + ((old(self).sp + 1) % 256) as u8] + 256
                * old(self).bus.ram[0x100 + ((old(self).sp + 2) % 256) as u8] + 1) % 0x10000) as u16,
            final(self).sp == ((old(self).sp + 2) % 256) as u8,
            final(self).a == old(self).a && final(self).x == old(self).x && final(self).y == old(self).y
                && final(self).flags == old(self).flags,
            final(self).bus.ram == old(self).bus.ram,
    {
        let address = self.stack_pop_u16();
        self.pc = address.wrapping_add(1);
        self.tick();
        self.tick();
        self.tick();
    }

    /// Pops the flags, then the return address (without the +1 of RTS).
    #[verifier::rlimit(60)]
    fn rti(&mut self)
        requires
            old(self).wf(),
            old(self).bus.cpu_cycles_to_wait <= u32::MAX - 400,
        ensures
            final(self).bus.cartridge() == old(self).bus.cartridge(),
            old(self).spent(final(self)) == 5,
            old(self).ran(final(self), 5),
            final(self).flags.0 == (old(self).bus.ram[0x100 + ((old(self).sp + 1) % 256) as u8] | 0x20u8) & !0x10u8,
            final(self).pc == old(self).bus.ram[0x100 + ((old(self).sp + 2) % 256) as u8] + 256
                * old(self).bus.ram[0x100 + ((old(self).sp + 3) % 256) as u8],
            final(self).sp == ((old(self).sp + 3) % 256) as u8,
            final(self).a == old(self).a && final(self).x == old(self).x && final(self).y == old(self).y,
            final(self).bus.ram == old(self).bus.ram,
    {
        self.plp();
        self.pc = self.stack_pop_u16();
    }

    /// Pushes PC and the flags (with UNUSED, and `push_flags`), sets INTERRUPT and jumps through
    /// the vector.
    #[verifier::rlimit(60)]
    fn interrupt(&mut self, load_vector: u16, push_flags: u8)
        requires
            old(self).wf(),
            old(self).bus.cpu_cycles_to_wait <= u32::MAX - 300,
        ensures
            final(self).bus.ram@ == pushed(
                pushed(
                    pushed(old(self).bus.ram@, old(self).sp, (old(self).pc / 256) as u8),
                    ((old(self).sp + 255) % 256) as u8,
                    (old(self).pc % 256) as u8,
                ),
                ((old(self).sp + 254) % 256) as u8,
                old(self).flags.0 | push_flags | 0x20,
            ),
            final(self).bus.cartridge() == old(self).bus.cartridge(),
            final(self).bus.settled(load_vector) && final(self).bus.settled(load_vector.wrapping_add(1))
                ==> final(self).pc == final(self).bus.peek(load_vector) + 256 * final(self).bus.peek(
                load_vector.wrapping_add(1),
            ),
            old(self).ran(final(self), 6),
            final(self).bus.cpu_cycles_to_wait == old(self).bus.cpu_cycles_to_wait + 6,
            final(self).sp == ((old(self).sp + 253) % 256) as u8,
            final(self).flags.0 == old(self).flags.0 | 0x04,
            final(self).a == old(self).a && final(self).x == old(self).x && final(self).y == old(self).y,
    {
        let pc = self.pc;
        self.stack_push_u16(pc);
        let pushed_flags = self.flags.0 | push_flags | Flags::UNUSED;
        self.stack_push(pushed_flags);
        self.put_flag(Flags::INTERRUPT, true);
        self.pc = self.bus.read_u16(load_vector);
        self.tick();
    }

    /// Takes a branch when `condition` holds: one more cycle, and another across a page.
    fn branch(&mut self, condition: bool)
        requires
            old(self).wf(),
            old(self).bus.cpu_cycles_to_wait <= u32::MAX - 300,
        ensures
            final(self).bus.cartridge() == old(self).bus.cartridge(),
            old(self).ran(final(self), 2),
            final(self).pc == if condition && old(self).operand_address.is_some() {
                old(self).operand_address.unwrap()
            } else {
                old(self).pc
            },
            final(self).bus.cpu_cycles_to_wait == old(self).bus.cpu_cycles_to_wait + if condition
                && old(self).operand_address.is_some() {
                if old(self).operand_address.unwrap() / 256 != old(self).pc / 256 { 2int } else { 1 }
            } else {
                0
            },
            final(self).sp == old(self).sp && final(self).a == old(self).a && final(self).x == old(self).x
                && final(self).y == old(self).y && final(self).flags == old(self).flags,
            final(self).bus.ram == old(self).bus.ram,
    {
        match self.operand_address {
            Some(address) => {
                proof {
                    lemma_same_page(address, self.pc);
                }
                if condition {
                    self.tick();
                    if address & 0xff00 != self.pc & 0xff00 {
                        self.tick();
                    }
                    self.pc = address;
                }
            },
            None => {},
        }
    }

    /// Takes a pending NMI in place of the next instruction, or else executes the instruction at
    /// PC. Returns the cycles spent.
    #[verifier::rlimit(100)]
    #[verifier::spinoff_prover]
    pub fn execute_next(&mut self) -> (r: Result<u32, CpuError>)
        requires
            old(self).wf(),
        ensures
            final(self).bus.ppu.frames@ >= old(self).bus.ppu.frames@,
            final(self).bus.ppu.frame_complete ==> old(self).bus.ppu.frame_complete || final(self).bus.ppu.frames@
                > old(self).bus.ppu.frames@,
            r.is_err() && final(self).bus.settled(final(self).pc.wrapping_sub(1)) ==> r == Err::<u32, CpuError>(
                CpuError::UnknownOpcode(final(self).bus.peek(final(self).pc.wrapping_sub(1))),
            ),
            !old(self).bus.ppu.require_nmi ==> runs_instruction(
                Cpu { bus: CpuBus { cpu_cycles_to_wait: 0, ..old(self).bus }, ..*old(self) },
                *final(self),
                r,
            ),
            old(self).bus.ppu.require_nmi ==> nmi_delivered(*old(self), *final(self)) && r == Ok::<
                u32,
                CpuError,
            >(7),
            !old(self).bus.ppu.require_nmi && r.is_ok() ==> ({
                let op = decode(old(self).bus.read_value(old(self).pc)).unwrap();
                let base = base_cycles(old(self).bus.read_value(old(self).pc));
                base <= r.unwrap() <= base + extra_cycles(op.1)
            }),
            final(self).wf(),
            1 <= final(self).bus.cpu_cycles_to_wait <= 20,
            final(self).bus.ppu.skipped_dots@ >= old(self).bus.ppu.skipped_dots@,
            final(self).bus.ppu.skipped_dots@ - old(self).bus.ppu.skipped_dots@ <= 3
                * final(self).bus.cpu_cycles_to_wait,
            (old(self).bus.ppu.frame_complete || final(self).bus.ppu.position() < old(
                self,
            ).bus.ppu.position()) ==> final(self).bus.ppu.frame_complete,
            final(self).bus.ppu.position() == (old(self).bus.ppu.position() + 3
                * final(self).bus.cpu_cycles_to_wait + (final(self).bus.ppu.skipped_dots@ - old(
                self,
            ).bus.ppu.skipped_dots@)) % frame_dots(),
            r.is_ok() ==> r.unwrap() == final(self).bus.cpu_cycles_to_wait,
            r.is_err() ==> (match r.unwrap_err() {
                CpuError::UnknownOpcode(b) => decode(b).is_none(),
                CpuError::DebugTrap => false,
            }),
            !old(self).bus.ppu.require_nmi ==> (r.is_ok() <==> decode(
                old(self).bus.read_value(old(self).pc),
            ).is_some()),
            !old(self).bus.ppu.require_nmi && r.is_err() ==> r.unwrap_err() == CpuError::UnknownOpcode(
                old(self).bus.read_value(old(self).pc),
            ),
    {
        self.bus.cpu_cycles_to_wait = 0;
        let ghost start = self.bus;
        assert(advanced(&start, &start));
        if self.bus.require_nmi() {
            self.nmi();
            return Ok(self.bus.cpu_cycles_to_wait);
        }
        let ghost s = *self;
        let r = self.run_instruction();
        assert(runs_instruction(s, *self, r));
        r
    }

    /// Fetches, decodes and runs the instruction at PC.
    #[verifier::rlimit(100)]
    fn run_instruction(&mut self) -> (r: Result<u32, CpuError>)
        requires
            old(self).wf(),
            old(self).bus.cpu_cycles_to_wait <= 7,
        ensures
            r.is_err() && final(self).bus.settled(final(self).pc.wrapping_sub(1)) ==> r == Err::<u32, CpuError>(
                CpuError::UnknownOpcode(final(self).bus.peek(final(self).pc.wrapping_sub(1))),
            ),
            runs_instruction(*old(self), *final(self), r),
            old(self).ran(final(self), 13),
            final(self).bus.cpu_cycles_to_wait >= old(self).bus.cpu_cycles_to_wait + 1,
            r.is_ok() ==> r.unwrap() == final(self).bus.cpu_cycles_to_wait,
            r.is_ok() ==> ({
                let op = decode(old(self).bus.read_value(old(self).pc)).unwrap();
                let base = base_cycles(old(self).bus.read_value(old(self).pc)) + old(self).bus.cpu_cycles_to_wait;
                base <= r.unwrap() <= base + extra_cycles(op.1)
            }),
            r.is_ok() <==> decode(old(self).bus.read_value(old(self).pc)).is_some(),
            r.is_err() ==> r == Err::<u32, CpuError>(
                CpuError::UnknownOpcode(old(self).bus.read_value(old(self).pc)),
            ),
    {
        let ghost s = *self;
        let byte = self.read_u8_at_pc();
        let ghost fetched = *self;
        let opcode = match Opcode::from_byte(byte) {
            Some(op) => op,
            None => {
                assert(runs_instruction(s, *self, Err(CpuError::UnknownOpcode(byte))));
                return Err(CpuError::UnknownOpcode(byte));
            },
        };
        proof {
            lemma_base_cycles(byte);
            assert(fetched.operand_settled(opcode.addr_mode) == (Cpu { pc: s.pc.wrapping_add(1), ..s }).operand_settled(opcode.addr_mode));
        }
        self.operand_address = self.read_operand_address(opcode.addr_mode);
        let ghost mid = *self;
        self.execute(&opcode);
        assert(executes(mid, *self, opcode.name));
        let cycles = self.bus.cpu_cycles_to_wait;
        assert(runs_instruction(s, *self, Ok(cycles)));
        Ok(cycles)
    }

    /// Services a maskable interrupt unless INTERRUPT is set.
    pub fn irq(&mut self)
        requires
            old(self).wf(),
            old(self).bus.cpu_cycles_to_wait <= u32::MAX - 500,
        ensures
            !old(self).flags.has(Flags::INTERRUPT) ==> {
                &&& final(self).sp == ((old(self).sp + 253) % 256) as u8
                &&& final(self).flags.0 == old(self).flags.0 | 0x04
                &&& final(self).bus.ram@ == pushed(
                    pushed(
                        pushed(old(self).bus.ram@, old(self).sp, (old(self).pc / 256) as u8),
                        ((old(self).sp + 255) % 256) as u8,
                        (old(self).pc % 256) as u8,
                    ),
                    ((old(self).sp + 254) % 256) as u8,
                    old(self).flags.0 | 0x20,
                )
                &&& final(self).bus.settled(0xfffe) && final(self).bus.settled(0xffff)
                    ==> final(self).pc == final(self).bus.peek(0xfffe) + 256 * final(self).bus.peek(0xffff)
            },
            old(self).ran(final(self), 7),
            old(self).flags.has(Flags::INTERRUPT) ==> *final(self) == *old(self),
    {
        if self.flags.0 & Flags::INTERRUPT == 0 {
            let f = self.flags.0;
            assert(f | 0u8 == f) by (bit_vector);
            self.interrupt(0xfffe, 0);
            self.tick();
        }
    }

    /// Services a non-maskable interrupt: pushes PC and flags, jumps through `$FFFA`, 7 cycles.
    fn nmi(&mut self)
        requires
            old(self).wf(),
            old(self).bus.cpu_cycles_to_wait <= u32::MAX - 500,
        ensures
            final(self).a == old(self).a && final(self).x == old(self).x && final(self).y == old(self).y,
            final(self).bus.ram@ == pushed(
                pushed(
                    pushed(old(self).bus.ram@, old(self).sp, (old(self).pc / 256) as u8),
                    ((old(self).sp + 255) % 256) as u8,
                    (old(self).pc % 256) as u8,
                ),
                ((old(self).sp + 254) % 256) as u8,
                old(self).flags.0 | 0x20,
            ),
            final(self).bus.cartridge() == old(self).bus.cartridge(),
            final(self).bus.settled(0xfffa) && final(self).bus.settled(0xfffb) ==> final(self).pc
                == final(self).bus.peek(0xfffa) + 256 * final(self).bus.peek(0xfffb),
            old(self).ran(final(self), 7),
            final(self).bus.cpu_cycles_to_wait == old(self).bus.cpu_cycles_to_wait + 7,
            final(self).flags.0 == old(self).flags.0 | 0x04,
            final(self).sp == ((old(self).sp + 253) % 256) as u8,
    {
        let f = self.flags.0;
        assert(f | 0u8 == f) by (bit_vector);
        self.interrupt(0xfffa, 0);
        self.tick();
    }

    /// Reset: clears A, X, Y, sets INTERRUPT, loads PC from `$FFFC`, SP = `$FD`; 7 cycles.
    #[verifier::rlimit(60)]
    pub fn reset(&mut self)
        requires
            old(self).wf(),
        ensures
            final(self).bus.cpu_cycles_total == 7,
            old(self).bus.settled(0xfffc) && old(self).bus.settled(0xfffd) ==> final(self).pc == old(
                self,
            ).bus.peek(0xfffc) + 256 * old(self).bus.peek(0xfffd),
            final(self).wf(),
            final(self).a == 0 && final(self).x == 0 && final(self).y == 0,
            final(self).flags.0 == Flags::UNUSED | Flags::INTERRUPT,
            final(self).sp == 0xfd,
            final(self).bus.cpu_cycles_to_wait == 7,
            final(self).bus.ppu.position() == (old(self).bus.ppu.position() + 21 + (
            final(self).bus.ppu.skipped_dots@ - old(self).bus.ppu.skipped_dots@)) % frame_dots(),
    {
        self.a = 0;
        self.x = 0;
        self.y = 0;
        proof {
            lemma_live_constants();
        }
        self.flags = Flags(Flags::UNUSED | Flags::INTERRUPT);
        self.bus.cpu_cycles_total = 0;
        self.bus.cpu_cycles_to_wait = 0;
        let ghost start = self.bus;
        assert(advanced(&start, &start));
        self.pc = self.bus.read_u16(0xfffc);
        self.sp = 0xfd;
        let mut i: u32 = 0;
        while i < 5
            invariant
                i <= 5,
                self.wf(),
                self.a == 0 && self.x == 0 && self.y == 0 && self.flags.0 == Flags::UNUSED | Flags::INTERRUPT && self.sp == 0xfd,
                self.bus.cpu_cycles_to_wait == 2 + i,
                self.bus.cpu_cycles_total == 2 + i,
                self.bus.ram == old(self).bus.ram,
                self.bus.cartridge() == old(self).bus.cartridge(),
                old(self).bus.settled(0xfffc) && old(self).bus.settled(0xfffd) ==> self.pc == old(
                    self,
                ).bus.peek(0xfffc) + 256 * old(self).bus.peek(0xfffd),
                advanced(&start, &self.bus),
                start.cpu_cycles_to_wait == 0,
                start.ppu.position() == old(self).bus.ppu.position(),
                start.ppu.skipped_dots == old(self).bus.ppu.skipped_dots,
            decreases 5 - i,
        {
            self.tick();
            i += 1;
        }
    }

    /// Runs one decoded instruction whose operand address is already resolved.
    #[verifier::rlimit(60)]
    fn execute(&mut self, opcode: &Opcode)
        requires
            old(self).wf(),
            old(self).bus.cpu_cycles_to_wait <= u32::MAX - 500,
        ensures
            !is_branch(opcode.name) ==> old(self).spent(final(self)) == op_cycles(opcode.name, old(self).operand_address.is_some()),
            is_branch(opcode.name) ==> old(self).spent(final(self)) <= 2,
            old(self).ran(final(self), 8),
            executes(*old(self), *final(self), opcode.name),
    {
        match opcode.name {
            Mnemonic::Pha => {
                let a = self.a;
                self.stack_push_clocked(a);
            },
            Mnemonic::Php => self.php(),
            Mnemonic::Pla => {
                self.a = self.stack_pop_clocked();
                let a = self.a;
                self.set_zero_neg_flags(a);
            },
            Mnemonic::Plp => self.plp(),
            Mnemonic::Asl => {
                self.shift(true, false);
            },
            Mnemonic::Lsr => {
                self.shift(false, false);
            },
            Mnemonic::Rol => {
                self.shift(true, true);
            },
            Mnemonic::Ror => {
                self.shift(false, true);
            },
            Mnemonic::Slo => {
                let ghost f0 = carry_flag(self.flags.0, self.operand(), true);
                let value = self.shift(true, false);
                self.a = self.a | value;
                let a = self.a;
                self.set_zero_neg_flags(a);
                proof {
                    lemma_zn_twice(f0, value, a);
                }
            },
            Mnemonic::Rla => {
                let ghost f0 = carry_flag(self.flags.0, self.operand(), true);
                let value = self.shift(true, true);
                self.a = self.a & value;
                let a = self.a;
                self.set_zero_neg_flags(a);
                proof {
                    lemma_zn_twice(f0, value, a);
                }
            },
            Mnemonic::Sre => {
                let ghost f0 = carry_flag(self.flags.0, self.operand(), false);
                let value = self.shift(false, false);
                self.a = self.a ^ value;
                let a = self.a;
                self.set_zero_neg_flags(a);
                proof {
                    lemma_zn_twice(f0, value, a);
                }
            },
            Mnemonic::Rra => {
                let adder = self.shift(false, true);
                self.add_carry(adder, false);
            },
            Mnemonic::Adc => {
                let adder = self.read_operand_value();
                self.add_carry(adder, false);
            },
            Mnemonic::Sbc => {
                let value = self.read_operand_value();
                self.add_carry(!value, true);
            },
            Mnemonic::Inc => {
                self.inc_mem(true);
            },
            Mnemonic::Dec => {
                self.inc_mem(false);
            },
            Mnemonic::Inx => {
                let x = self.x;
                self.x = self.inc_val(x, true);
            },
            Mnemonic::Iny => {
                let y = self.y;
                self.y = self.inc_val(y, true);
            },
            Mnemonic::Dex => {
                let x = self.x;
                self.x = self.inc_val(x, false);
            },
            Mnemonic::Dey => {
                let y = self.y;
                self.y = self.inc_val(y, false);
            },
            Mnemonic::Isc => {
                let value = self.inc_mem(true);
                self.add_carry(!value, true);
            },
            Mnemonic::Dcp => {
                let value = self.inc_mem(false);
                let a = self.a;
                self.set_compare_flags(a, value);
            },
            Mnemonic::Lda => {
                self.a = self.load_mem();
            },
            Mnemonic::Ldx => {
                self.x = self.load_mem();
            },
            Mnemonic::Ldy => {
                self.y = self.load_mem();
            },
            Mnemonic::Lax => {
                self.a = self.load_mem();
                self.x = self.a;
            },
            Mnemonic::Sta => {
                let a = self.a;
                self.store_mem(a);
            },
            Mnemonic::Stx => {
                let x = self.x;
                self.store_mem(x);
            },
            Mnemonic::Sty => {
                let y = self.y;
                self.store_mem(y);
            },
            Mnemonic::Sax => {
                let value = self.a & self.x;
                self.store_mem(value);
            },
            Mnemonic::Tax => {
                let a = self.a;
                self.x = self.transfer(a);
            },
            Mnemonic::Tay => {
                let a = self.a;
                self.y = self.transfer(a);
            },
            Mnemonic::Tsx => {
                let sp = self.sp;
                self.x = self.transfer(sp);
            },
            Mnemonic::Txa => {
                let x = self.x;
                self.a = self.transfer(x);
            },
            Mnemonic::Txs => {
                self.sp = self.x;
                self.tick();
            },
            Mnemonic::Tya => {
                let y = self.y;
                self.a = self.transfer(y);
            },
            Mnemonic::Clc => self.set_flag(Flags::CARRY, false),
            Mnemonic::Cld => self.set_flag(Flags::DECIMAL, false),
            Mnemonic::Cli => self.set_flag(Flags::INTERRUPT, false),
            Mnemonic::Clv => self.set_flag(Flags::OVERFLOW, false),
            Mnemonic::Sec => self.set_flag(Flags::CARRY, true),
            Mnemonic::Sed => self.set_flag(Flags::DECIMAL, true),
            Mnemonic::Sei => self.set_flag(Flags::INTERRUPT, true),
            Mnemonic::And => {
                let ghost f0 = self.flags.0;
                let value = self.load_mem();
                self.a = self.a & value;
                let a = self.a;
                self.set_zero_neg_flags(a);
                proof {
                    lemma_zn_twice(f0, value, a);
                }
            },
            Mnemonic::Eor => {
                let ghost f0 = self.flags.0;
                let value = self.load_mem();
                self.a = self.a ^ value;
                let a = self.a;
                self.set_zero_neg_flags(a);
                proof {
                    lemma_zn_twice(f0, value, a);
                }
            },
            Mnemonic::Ora => {
                let ghost f0 = self.flags.0;
                let value = self.load_mem();
                self.a = self.a | value;
                let a = self.a;
                self.set_zero_neg_flags(a);
                proof {
                    lemma_zn_twice(f0, value, a);
                }
            },
            Mnemonic::Bit => self.bit(),
            Mnemonic::Cmp => {
                let a = self.a;
                self.compare(a);
            },
            Mnemonic::Cpx => {
                let x = self.x;
                self.compare(x);
            },
            Mnemonic::Cpy => {
                let y = self.y;
                self.compare(y);
            },
            Mnemonic::Jmp => {
                match self.operand_address {
                    Some(address) => self.pc = address,
                    None => {},
                }
            },
            Mnemonic::Jsr => self.jsr(),
            Mnemonic::Rts => self.rts(),
            Mnemonic::Brk => self.interrupt(0xfffe, Flags::BREAK),
            Mnemonic::Rti => self.rti(),
            Mnemonic::Bcc => {
                let c = self.flags.0 & Flags::CARRY == 0;
                self.branch(c);
            },
            Mnemonic::Bcs => {
                let c = self.flags.0 & Flags::CARRY != 0;
                self.branch(c);
            },
            Mnemonic::Beq => {
                let c = self.flags.0 & Flags::ZERO != 0;
                self.branch(c);
            },
            Mnemonic::Bmi => {
                let c = self.flags.0 & Flags::NEGATIVE != 0;
                self.branch(c);
            },
            Mnemonic::Bne => {
                let c = self.flags.0 & Flags::ZERO == 0;
                self.branch(c);
            },
            Mnemonic::Bpl => {
                let c = self.flags.0 & Flags::NEGATIVE == 0;
                self.branch(c);
            },
            Mnemonic::Bvc => {
                let c = self.flags.0 & Flags::OVERFLOW == 0;
                self.branch(c);
            },
            Mnemonic::Bvs => {
                let c = self.flags.0 & Flags::OVERFLOW != 0;
                self.branch(c);
            },
            Mnemonic::Nop => {
                self.tick();
            },
        }
    }
}

} // verus!
