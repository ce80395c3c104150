use vstd::prelude::*;

verus! {
/// How an instruction finds its operand.
#[derive(Debug, Clone, Copy, PartialEq, Eq, Structural)]
pub enum AddrMode {
    /// No operand.
    Implied,
    /// Operates on A.
    Accumulator,
    /// The operand byte is the value.
    Immediate,
    /// The operand is an address in page zero.
    ZeroPage,
    /// Page-zero address plus X, wrapping in page zero.
    ZeroPageX,
    /// Page-zero address plus Y, wrapping in page zero.
    ZeroPageY,
    /// The operand is a 16-bit address.
    Absolute,
    /// Absolute address plus X; one more cycle on a page cross.
    AbsoluteX,
    /// Absolute address plus X; always one more cycle.
    AbsoluteXForceClock,
    /// Absolute address plus Y; one more cycle on a page cross.
    AbsoluteY,
    /// Absolute address plus Y; always one more cycle.
    AbsoluteYForceClock,
    /// The operand points at the 16-bit address (high byte read within the same page).
    Indirect,
    /// Page-zero pointer plus X.
    IndirectX,
    /// Page-zero pointer, then plus Y; one more cycle on a page cross.
    IndirectY,
    /// Page-zero pointer, then plus Y; always one more cycle.
    IndirectYForceClock,
    /// A signed offset from the next instruction.
    Relative,
}

/// Instruction names, documented and undocumented.
#[derive(Debug, Clone, Copy, PartialEq, Eq, Structural)]
pub enum Mnemonic {
    Pha,
    Php,
    Pla,
    Plp,
    Asl,
    Lsr,
    Rol,
    Ror,
    Slo,
    Rla,
    Sre,
    Rra,
    Adc,
    Sbc,
    Inc,
    Dec,
    Inx,
    Iny,
    Dex,
    Dey,
    Isc,
    Dcp,
    Lda,
    Ldx,
    Ldy,
    Lax,
    Sta,
    Stx,
    Sty,
    Sax,
    Tax,
    Tay,
    Tsx,
    Txa,
    Txs,
    Tya,
    Clc,
    Cld,
    Cli,
    Clv,
    Sec,
    Sed,
    Sei,
    And,
    Bit,
    Eor,
    Ora,
    Cmp,
    Cpx,
    Cpy,
    Jmp,
    Jsr,
    Rts,
    Brk,
    Rti,
    Bcc,
    Bcs,
    Beq,
    Bmi,
    Bne,
    Bpl,
    Bvc,
    Bvs,
    Nop,
}

impl Mnemonic {
    /// The lower-case assembler name.
    pub fn name(&self) -> (r: &'static str)
        ensures
            *self == Mnemonic::Pha ==> r@ == "pha"@,
            *self == Mnemonic::Php ==> r@ == "php"@,
            *self == Mnemonic::Pla ==> r@ == "pla"@,
            *self == Mnemonic::Plp ==> r@ == "plp"@,
            *self == Mnemonic::Asl ==> r@ == "asl"@,
            *self == Mnemonic::Lsr ==> r@ == "lsr"@,
            *self == Mnemonic::Rol ==> r@ == "rol"@,
            *self == Mnemonic::Ror ==> r@ == "ror"@,
            *self == Mnemonic::Slo ==> r@ == "slo"@,
            *self == Mnemonic::Rla ==> r@ == "rla"@,
            *self == Mnemonic::Sre ==> r@ == "sre"@,
            *self == Mnemonic::Rra ==> r@ == "rra"@,
            *self == Mnemonic::Adc ==> r@ == "adc"@,
            *self == Mnemonic::Sbc ==> r@ == "sbc"@,
            *self == Mnemonic::Inc ==> r@ == "inc"@,
            *self == Mnemonic::Dec ==> r@ == "dec"@,
            *self == Mnemonic::Inx ==> r@ == "inx"@,
            *self == Mnemonic::Iny ==> r@ == "iny"@,
            *self == Mnemonic::Dex ==> r@ == "dex"@,
            *self == Mnemonic::Dey ==> r@ == "dey"@,
            *self == Mnemonic::Isc ==> r@ == "isc"@,
            *self == Mnemonic::Dcp ==> r@ == "dcp"@,
            *self == Mnemonic::Lda ==> r@ == "lda"@,
            *self == Mnemonic::Ldx ==> r@ == "ldx"@,
            *self == Mnemonic::Ldy ==> r@ == "ldy"@,
            *self == Mnemonic::Lax ==> r@ == "lax"@,
            *self == Mnemonic::Sta ==> r@ == "sta"@,
            *self == Mnemonic::Stx ==> r@ == "stx"@,
            *self == Mnemonic::Sty ==> r@ == "sty"@,
            *self == Mnemonic::Sax ==> r@ == "sax"@,
            *self == Mnemonic::Tax ==> r@ == "tax"@,
            *self == Mnemonic::Tay ==> r@ == "tay"@,
            *self == Mnemonic::Tsx ==> r@ == "tsx"@,
            *self == Mnemonic::Txa ==> r@ == "txa"@,
            *self == Mnemonic::Txs ==> r@ == "txs"@,
            *self == Mnemonic::Tya ==> r@ == "tya"@,
            *self == Mnemonic::Clc ==> r@ == "clc"@,
            *self == Mnemonic::Cld ==> r@ == "cld"@,
            *self == Mnemonic::Cli ==> r@ == "cli"@,
            *self == Mnemonic::Clv ==> r@ == "clv"@,
            *self == Mnemonic::Sec ==> r@ == "sec"@,
            *self == Mnemonic::Sed ==> r@ == "sed"@,
            *self == Mnemonic::Sei ==> r@ == "sei"@,
            *self == Mnemonic::And ==> r@ == "and"@,
            *self == Mnemonic::Bit ==> r@ == "bit"@,
            *self == Mnemonic::Eor ==> r@ == "eor"@,
            *self == Mnemonic::Ora ==> r@ == "ora"@,
            *self == Mnemonic::Cmp ==> r@ == "cmp"@,
            *self == Mnemonic::Cpx ==> r@ == "cpx"@,
            *self == Mnemonic::Cpy ==> r@ == "cpy"@,
            *self == Mnemonic::Jmp ==> r@ == "jmp"@,
            *self == Mnemonic::Jsr ==> r@ == "jsr"@,
            *self == Mnemonic::Rts ==> r@ == "rts"@,
            *self == Mnemonic::Brk ==> r@ == "brk"@,
            *self == Mnemonic::Rti ==> r@ == "rti"@,
            *self == Mnemonic::Bcc ==> r@ == "bcc"@,
            *self == Mnemonic::Bcs ==> r@ == "bcs"@,
            *self == Mnemonic::Beq ==> r@ == "beq"@,
            *self == Mnemonic::Bmi ==> r@ == "bmi"@,
            *self == Mnemonic::Bne ==> r@ == "bne"@,
            *self == Mnemonic::Bpl ==> r@ == "bpl"@,
            *self == Mnemonic::Bvc ==> r@ == "bvc"@,
            *self == Mnemonic::Bvs ==> r@ == "bvs"@,
            *self == Mnemonic::Nop ==> r@ == "nop"@,
    {
        match self {
            Mnemonic::Pha => "pha",
            Mnemonic::Php => "php",
            Mnemonic::Pla => "pla",
            Mnemonic::Plp => "plp",
            Mnemonic::Asl => "asl",
            Mnemonic::Lsr => "lsr",
            Mnemonic::Rol => "rol",
            Mnemonic::Ror => "ror",
            Mnemonic::Slo => "slo",
            Mnemonic::Rla => "rla",
            Mnemonic::Sre => "sre",
            Mnemonic::Rra => "rra",
            Mnemonic::Adc => "adc",
            Mnemonic::Sbc => "sbc",
            Mnemonic::Inc => "inc",
            Mnemonic::Dec => "dec",
            Mnemonic::Inx => "inx",
            Mnemonic::Iny => "iny",
            Mnemonic::Dex => "dex",
            Mnemonic::Dey => "dey",
            Mnemonic::Isc => "isc",
            Mnemonic::Dcp => "dcp",
            Mnemonic::Lda => "lda",
            Mnemonic::Ldx => "ldx",
            Mnemonic::Ldy => "ldy",
            Mnemonic::Lax => "lax",
            Mnemonic::Sta => "sta",
            Mnemonic::Stx => "stx",
            Mnemonic::Sty => "sty",
            Mnemonic::Sax => "sax",
            Mnemonic::Tax => "tax",
            Mnemonic::Tay => "tay",
            Mnemonic::Tsx => "tsx",
            Mnemonic::Txa => "txa",
            Mnemonic::Txs => "txs",
            Mnemonic::Tya => "tya",
            Mnemonic::Clc => "clc",
            Mnemonic::Cld => "cld",
            Mnemonic::Cli => "cli",
            Mnemonic::Clv => "clv",
            Mnemonic::Sec => "sec",
            Mnemonic::Sed => "sed",
            Mnemonic::Sei => "sei",
            Mnemonic::And => "and",
            Mnemonic::Bit => "bit",
            Mnemonic::Eor => "eor",
            Mnemonic::Ora => "ora",
            Mnemonic::Cmp => "cmp",
            Mnemonic::Cpx => "cpx",
            Mnemonic::Cpy => "cpy",
            Mnemonic::Jmp => "jmp",
            Mnemonic::Jsr => "jsr",
            Mnemonic::Rts => "rts",
            Mnemonic::Brk => "brk",
            Mnemonic::Rti => "rti",
            Mnemonic::Bcc => "bcc",
            Mnemonic::Bcs => "bcs",
            Mnemonic::Beq => "beq",
            Mnemonic::Bmi => "bmi",
            Mnemonic::Bne => "bne",
            Mnemonic::Bpl => "bpl",
            Mnemonic::Bvc => "bvc",
            Mnemonic::Bvs => "bvs",
            Mnemonic::Nop => "nop",
        }
    }
}

/// The instruction that an opcode byte encodes, if any.
pub open spec fn decode(byte: u8) -> Option<(Mnemonic, AddrMode)> {
    match byte {
        0x00 => Some((Mnemonic::Brk, AddrMode::Implied)),
        0x01 => Some((Mnemonic::Ora, AddrMode::IndirectX)),
        0x03 => Some((Mnemonic::Slo, AddrMode::IndirectX)),
        0x04 => Some((Mnemonic::Nop, AddrMode::ZeroPage)),
        0x05 => Some((Mnemonic::Ora, AddrMode::ZeroPage)),
        0x06 => Some((Mnemonic::Asl, AddrMode::ZeroPage)),
        0x07 => Some((Mnemonic::Slo, AddrMode::ZeroPage)),
        0x08 => Some((Mnemonic::Php, AddrMode::Implied)),
        0x09 => Some((Mnemonic::Ora, AddrMode::Immediate)),
        0x0a => Some((Mnemonic::Asl, AddrMode::Accumulator)),
        0x0c => Some((Mnemonic::Nop, AddrMode::Absolute)),
        0x0d => Some((Mnemonic::Ora, AddrMode::Absolute)),
        0x0e => Some((Mnemonic::Asl, AddrMode::Absolute)),
        0x0f => Some((Mnemonic::Slo, AddrMode::Absolute)),
        0x10 => Some((Mnemonic::Bpl, AddrMode::Relative)),
        0x11 => Some((Mnemonic::Ora, AddrMode::IndirectY)),
        0x13 => Some((Mnemonic::Slo, AddrMode::IndirectYForceClock)),
        0x14 => Some((Mnemonic::Nop, AddrMode::ZeroPageX)),
        0x15 => Some((Mnemonic::Ora, AddrMode::ZeroPageX)),
        0x16 => Some((Mnemonic::Asl, AddrMode::ZeroPageX)),
        0x17 => Some((Mnemonic::Slo, AddrMode::ZeroPageX)),
        0x18 => Some((Mnemonic::Clc, AddrMode::Implied)),
        0x19 => Some((Mnemonic::Ora, AddrMode::AbsoluteY)),
        0x1a => Some((Mnemonic::Nop, AddrMode::Implied)),
        0x1b => Some((Mnemonic::Slo, AddrMode::AbsoluteYForceClock)),
        0x1c => Some((Mnemonic::Nop, AddrMode::AbsoluteX)),
        0x1d => Some((Mnemonic::Ora, AddrMode::AbsoluteX)),
        0x1e => Some((Mnemonic::Asl, AddrMode::AbsoluteXForceClock)),
        0x1f => Some((Mnemonic::Slo, AddrMode::AbsoluteXForceClock)),
        0x20 => Some((Mnemonic::Jsr, AddrMode::Absolute)),
        0x21 => Some((Mnemonic::And, AddrMode::IndirectX)),
        0x23 => Some((Mnemonic::Rla, AddrMode::IndirectX)),
        0x24 => Some((Mnemonic::Bit, AddrMode::ZeroPage)),
        0x25 => Some((Mnemonic::And, AddrMode::ZeroPage)),
        0x26 => Some((Mnemonic::Rol, AddrMode::ZeroPage)),
        0x27 => Some((Mnemonic::Rla, AddrMode::ZeroPage)),
        0x28 => Some((Mnemonic::Plp, AddrMode::Implied)),
        0x29 => Some((Mnemonic::And, AddrMode::Immediate)),
        0x2a => Some((Mnemonic::Rol, AddrMode::Accumulator)),
        0x2c => Some((Mnemonic::Bit, AddrMode::Absolute)),
        0x2d => Some((Mnemonic::And, AddrMode::Absolute)),
        0x2e => Some((Mnemonic::Rol, AddrMode::Absolute)),
        0x2f => Some((Mnemonic::Rla, AddrMode::Absolute)),
        0x30 => Some((Mnemonic::Bmi, AddrMode::Relative)),
        0x31 => Some((Mnemonic::And, AddrMode::IndirectY)),
        0x33 => Some((Mnemonic::Rla, AddrMode::IndirectYForceClock)),
        0x34 => Some((Mnemonic::Nop, AddrMode::ZeroPageX)),
        0x35 => Some((Mnemonic::And, AddrMode::ZeroPageX)),
        0x36 => Some((Mnemonic::Rol, AddrMode::ZeroPageX)),
        0x37 => Some((Mnemonic::Rla, AddrMode::ZeroPageX)),
        0x38 => Some((Mnemonic::Sec, AddrMode::Implied)),
        0x39 => Some((Mnemonic::And, AddrMode::AbsoluteY)),
        0x3a => Some((Mnemonic::Nop, AddrMode::Implied)),
        0x3b => Some((Mnemonic::Rla, AddrMode::AbsoluteYForceClock)),
        0x3c => Some((Mnemonic::Nop, AddrMode::AbsoluteX)),
        0x3d => Some((Mnemonic::And, AddrMode::AbsoluteX)),
        0x3e => Some((Mnemonic::Rol, AddrMode::AbsoluteXForceClock)),
        0x3f => Some((Mnemonic::Rla, AddrMode::AbsoluteXForceClock)),
        0x40 => Some((Mnemonic::Rti, AddrMode::Implied)),
        0x41 => Some((Mnemonic::Eor, AddrMode::IndirectX)),
        0x43 => Some((Mnemonic::Sre, AddrMode::IndirectX)),
        0x44 => Some((Mnemonic::Nop, AddrMode::ZeroPage)),
        0x45 => Some((Mnemonic::Eor, AddrMode::ZeroPage)),
        0x46 => Some((Mnemonic::Lsr, AddrMode::ZeroPage)),
        0x47 => Some((Mnemonic::Sre, AddrMode::ZeroPage)),
        0x48 => Some((Mnemonic::Pha, AddrMode::Implied)),
        0x49 => Some((Mnemonic::Eor, AddrMode::Immediate)),
        0x4a => Some((Mnemonic::Lsr, AddrMode::Accumulator)),
        0x4c => Some((Mnemonic::Jmp, AddrMode::Absolute)),
        0x4d => Some((Mnemonic::Eor, AddrMode::Absolute)),
        0x4e => Some((Mnemonic::Lsr, AddrMode::Absolute)),
        0x4f => Some((Mnemonic::Sre, AddrMode::Absolute)),
        0x50 => Some((Mnemonic::Bvc, AddrMode::Relative)),
        0x51 => Some((Mnemonic::Eor, AddrMode::IndirectY)),
        0x53 => Some((Mnemonic::Sre, AddrMode::IndirectYForceClock)),
        0x54 => Some((Mnemonic::Nop, AddrMode::ZeroPageX)),
        0x55 => Some((Mnemonic::Eor, AddrMode::ZeroPageX)),
        0x56 => Some((Mnemonic::Lsr, AddrMode::ZeroPageX)),
        0x57 => Some((Mnemonic::Sre, AddrMode::ZeroPageX)),
        0x58 => Some((Mnemonic::Cli, AddrMode::Implied)),
        0x59 => Some((Mnemonic::Eor, AddrMode::AbsoluteY)),
        0x5a => Some((Mnemonic::Nop, AddrMode::Implied)),
        0x5b => Some((Mnemonic::Sre, AddrMode::AbsoluteYForceClock)),
        0x5c => Some((Mnemonic::Nop, AddrMode::AbsoluteX)),
        0x5d => Some((Mnemonic::Eor, AddrMode::AbsoluteX)),
        0x5e => Some((Mnemonic::Lsr, AddrMode::AbsoluteXForceClock)),
        0x5f => Some((Mnemonic::Sre, AddrMode::AbsoluteXForceClock)),
        0x60 => Some((Mnemonic::Rts, AddrMode::Implied)),
        0x61 => Some((Mnemonic::Adc, AddrMode::IndirectX)),
        0x63 => Some((Mnemonic::Rra, AddrMode::IndirectX)),
        0x64 => Some((Mnemonic::Nop, AddrMode::ZeroPage)),
        0x65 => Some((Mnemonic::Adc, AddrMode::ZeroPage)),
        0x66 => Some((Mnemonic::Ror, AddrMode::ZeroPage)),
        0x67 => Some((Mnemonic::Rra, AddrMode::ZeroPage)),
        0x68 => Some((Mnemonic::Pla, AddrMode::Implied)),
        0x69 => Some((Mnemonic::Adc, AddrMode::Immediate)),
        0x6a => Some((Mnemonic::Ror, AddrMode::Accumulator)),
        0x6c => Some((Mnemonic::Jmp, AddrMode::Indirect)),
        0x6d => Some((Mnemonic::Adc, AddrMode::Absolute)),
        0x6e => Some((Mnemonic::Ror, AddrMode::Absolute)),
        0x6f => Some((Mnemonic::Rra, AddrMode::Absolute)),
        0x70 => Some((Mnemonic::Bvs, AddrMode::Relative)),
        0x71 => Some((Mnemonic::Adc, AddrMode::IndirectY)),
        0x73 => Some((Mnemonic::Rra, AddrMode::IndirectYForceClock)),
        0x74 => Some((Mnemonic::Nop, AddrMode::ZeroPageX)),
        0x75 => Some((Mnemonic::Adc, AddrMode::ZeroPageX)),
        0x76 => Some((Mnemonic::Ror, AddrMode::ZeroPageX)),
        0x77 => Some((Mnemonic::Rra, AddrMode::ZeroPageX)),
        0x78 => Some((Mnemonic::Sei, AddrMode::Implied)),
        0x79 => Some((Mnemonic::Adc, AddrMode::AbsoluteY)),
        0x7a => Some((Mnemonic::Nop, AddrMode::Implied)),
        0x7b => Some((Mnemonic::Rra, AddrMode::AbsoluteYForceClock)),
        0x7c => Some((Mnemonic::Nop, AddrMode::AbsoluteX)),
        0x7d => Some((Mnemonic::Adc, AddrMode::AbsoluteX)),
        0x7e => Some((Mnemonic::Ror, AddrMode::AbsoluteXForceClock)),
        0x7f => Some((Mnemonic::Rra, AddrMode::AbsoluteXForceClock)),
        0x80 => Some((Mnemonic::Nop, AddrMode::Immediate)),
        0x81 => Some((Mnemonic::Sta, AddrMode::IndirectX)),
        0x83 => Some((Mnemonic::Sax, AddrMode::IndirectX)),
        0x84 => Some((Mnemonic::Sty, AddrMode::ZeroPage)),
        0x85 => Some((Mnemonic::Sta, AddrMode::ZeroPage)),
        0x86 => Some((Mnemonic::Stx, AddrMode::ZeroPage)),
        0x87 => Some((Mnemonic::Sax, AddrMode::ZeroPage)),
        0x88 => Some((Mnemonic::Dey, AddrMode::Implied)),
        0x8a => Some((Mnemonic::Txa, AddrMode::Implied)),
        0x8c => Some((Mnemonic::Sty, AddrMode::Absolute)),
        0x8d => Some((Mnemonic::Sta, AddrMode::Absolute)),
        0x8e => Some((Mnemonic::Stx, AddrMode::Absolute)),
        0x8f => Some((Mnemonic::Sax, AddrMode::Absolute)),
        0x90 => Some((Mnemonic::Bcc, AddrMode::Relative)),
        0x91 => Some((Mnemonic::Sta, AddrMode::IndirectYForceClock)),
        0x94 => Some((Mnemonic::Sty, AddrMode::ZeroPageX)),
        0x95 => Some((Mnemonic::Sta, AddrMode::ZeroPageX)),
        0x96 => Some((Mnemonic::Stx, AddrMode::ZeroPageY)),
        0x97 => Some((Mnemonic::Sax, AddrMode::ZeroPageY)),
        0x98 => Some((Mnemonic::Tya, AddrMode::Implied)),
        0x99 => Some((Mnemonic::Sta, AddrMode::AbsoluteYForceClock)),
        0x9a => Some((Mnemonic::Txs, AddrMode::Implied)),
        0x9d => Some((Mnemonic::Sta, AddrMode::AbsoluteXForceClock)),
        0xa0 => Some((Mnemonic::Ldy, AddrMode::Immediate)),
        0xa1 => Some((Mnemonic::Lda, AddrMode::IndirectX)),
        0xa2 => Some((Mnemonic::Ldx, AddrMode::Immediate)),
        0xa3 => Some((Mnemonic::Lax, AddrMode::IndirectX)),
        0xa4 => Some((Mnemonic::Ldy, AddrMode::ZeroPage)),
        0xa5 => Some((Mnemonic::Lda, AddrMode::ZeroPage)),
        0xa6 => Some((Mnemonic::Ldx, AddrMode::ZeroPage)),
        0xa7 => Some((Mnemonic::Lax, AddrMode::ZeroPage)),
        0xa8 => Some((Mnemonic::Tay, AddrMode::Implied)),
        0xa9 => Some((Mnemonic::Lda, AddrMode::Immediate)),
        0xaa => Some((Mnemonic::Tax, AddrMode::Implied)),
        0xac => Some((Mnemonic::Ldy, AddrMode::Absolute)),
        0xad => Some((Mnemonic::Lda, AddrMode::Absolute)),
        0xae => Some((Mnemonic::Ldx, AddrMode::Absolute)),
        0xaf => Some((Mnemonic::Lax, AddrMode::Absolute)),
        0xb0 => Some((Mnemonic::Bcs, AddrMode::Relative)),
        0xb1 => Some((Mnemonic::Lda, AddrMode::IndirectY)),
        0xb3 => Some((Mnemonic::Lax, AddrMode::IndirectY)),
        0xb4 => Some((Mnemonic::Ldy, AddrMode::ZeroPageX)),
        0xb5 => Some((Mnemonic::Lda, AddrMode::ZeroPageX)),
        0xb6 => Some((Mnemonic::Ldx, AddrMode::ZeroPageY)),
        0xb7 => Some((Mnemonic::Lax, AddrMode::ZeroPageY)),
        0xb8 => Some((Mnemonic::Clv, AddrMode::Implied)),
        0xb9 => Some((Mnemonic::Lda, AddrMode::AbsoluteY)),
        0xba => Some((Mnemonic::Tsx, AddrMode::Implied)),
        0xbc => Some((Mnemonic::Ldy, AddrMode::AbsoluteX)),
        0xbd => Some((Mnemonic::Lda, AddrMode::AbsoluteX)),
        0xbe => Some((Mnemonic::Ldx, AddrMode::AbsoluteY)),
        0xbf => Some((Mnemonic::Lax, AddrMode::AbsoluteY)),
        0xc0 => Some((Mnemonic::Cpy, AddrMode::Immediate)),
        0xc1 => Some((Mnemonic::Cmp, AddrMode::IndirectX)),
        0xc3 => Some((Mnemonic::Dcp, AddrMode::IndirectX)),
        0xc4 => Some((Mnemonic::Cpy, AddrMode::ZeroPage)),
        0xc5 => Some((Mnemonic::Cmp, AddrMode::ZeroPage)),
        0xc6 => Some((Mnemonic::Dec, AddrMode::ZeroPage)),
        0xc7 => Some((Mnemonic::Dcp, AddrMode::ZeroPage)),
        0xc8 => Some((Mnemonic::Iny, AddrMode::Implied)),
        0xc9 => Some((Mnemonic::Cmp, AddrMode::Immediate)),
        0xca => Some((Mnemonic::Dex, AddrMode::Implied)),
        0xcc => Some((Mnemonic::Cpy, AddrMode::Absolute)),
        0xcd => Some((Mnemonic::Cmp, AddrMode::Absolute)),
        0xce => Some((Mnemonic::Dec, AddrMode::Absolute)),
        0xcf => Some((Mnemonic::Dcp, AddrMode::Absolute)),
        0xd0 => Some((Mnemonic::Bne, AddrMode::Relative)),
        0xd1 => Some((Mnemonic::Cmp, AddrMode::IndirectY)),
        0xd3 => Some((Mnemonic::Dcp, AddrMode::IndirectYForceClock)),
        0xd4 => Some((Mnemonic::Nop, AddrMode::ZeroPageX)),
        0xd5 => Some((Mnemonic::Cmp, AddrMode::ZeroPageX)),
        0xd6 => Some((Mnemonic::Dec, AddrMode::ZeroPageX)),
        0xd7 => Some((Mnemonic::Dcp, AddrMode::ZeroPageX)),
        0xd8 => Some((Mnemonic::Cld, AddrMode::Implied)),
        0xd9 => Some((Mnemonic::Cmp, AddrMode::AbsoluteY)),
        0xda => Some((Mnemonic::Nop, AddrMode::Implied)),
        0xdb => Some((Mnemonic::Dcp, AddrMode::AbsoluteYForceClock)),
        0xdc => Some((Mnemonic::Nop, AddrMode::AbsoluteX)),
        0xdd => Some((Mnemonic::Cmp, AddrMode::AbsoluteX)),
        0xde => Some((Mnemonic::Dec, AddrMode::AbsoluteXForceClock)),
        0xdf => Some((Mnemonic::Dcp, AddrMode::AbsoluteXForceClock)),
        0xe0 => Some((Mnemonic::Cpx, AddrMode::Immediate)),
        0xe1 => Some((Mnemonic::Sbc, AddrMode::IndirectX)),
        0xe3 => Some((Mnemonic::Isc, AddrMode::IndirectX)),
        0xe4 => Some((Mnemonic::Cpx, AddrMode::ZeroPage)),
        0xe5 => Some((Mnemonic::Sbc, AddrMode::ZeroPage)),
        0xe6 => Some((Mnemonic::Inc, AddrMode::ZeroPage)),
        0xe7 => Some((Mnemonic::Isc, AddrMode::ZeroPage)),
        0xe8 => Some((Mnemonic::Inx, AddrMode::Implied)),
        0xe9 => Some((Mnemonic::Sbc, AddrMode::Immediate)),
        0xea => Some((Mnemonic::Nop, AddrMode::Implied)),
        0xeb => Some((Mnemonic::Sbc, AddrMode::Immediate)),
        0xec => Some((Mnemonic::Cpx, AddrMode::Absolute)),
        0xed => Some((Mnemonic::Sbc, AddrMode::Absolute)),
        0xee => Some((Mnemonic::Inc, AddrMode::Absolute)),
        0xef => Some((Mnemonic::Isc, AddrMode::Absolute)),
        0xf0 => Some((Mnemonic::Beq, AddrMode::Relative)),
        0xf1 => Some((Mnemonic::Sbc, AddrMode::IndirectY)),
        0xf3 => Some((Mnemonic::Isc, AddrMode::IndirectYForceClock)),
        0xf4 => Some((Mnemonic::Nop, AddrMode::ZeroPageX)),
        0xf5 => Some((Mnemonic::Sbc, AddrMode::ZeroPageX)),
        0xf6 => Some((Mnemonic::Inc, AddrMode::ZeroPageX)),
        0xf7 => Some((Mnemonic::Isc, AddrMode::ZeroPageX)),
        0xf8 => Some((Mnemonic::Sed, AddrMode::Implied)),
        0xf9 => Some((Mnemonic::Sbc, AddrMode::AbsoluteY)),
        0xfa => Some((Mnemonic::Nop, AddrMode::Implied)),
        0xfb => Some((Mnemonic::Isc, AddrMode::AbsoluteYForceClock)),
        0xfc => Some((Mnemonic::Nop, AddrMode::AbsoluteX)),
        0xfd => Some((Mnemonic::Sbc, AddrMode::AbsoluteX)),
        0xfe => Some((Mnemonic::Inc, AddrMode::AbsoluteXForceClock)),
        0xff => Some((Mnemonic::Isc, AddrMode::AbsoluteXForceClock)),
        _ => None,
    }
}

/// Cycles an instruction takes on the 6502, before the extra cycle of a page cross on an indexed
/// read and the extra cycles of a taken branch; 0 for bytes that are not instructions.
pub open spec fn base_cycles(byte: u8) -> int {
    match byte {
        0x00 => 7,
        0x01 => 6,
        0x03 => 8,
        0x04 => 3,
        0x05 => 3,
        0x06 => 5,
        0x07 => 5,
        0x08 => 3,
        0x09 => 2,
        0x0a => 2,
        0x0c => 4,
        0x0d => 4,
        0x0e => 6,
        0x0f => 6,
        0x10 => 2,
        0x11 => 5,
        0x13 => 8,
        0x14 => 4,
        0x15 => 4,
        0x16 => 6,
        0x17 => 6,
        0x18 => 2,
        0x19 => 4,
        0x1a => 2,
        0x1b => 7,
        0x1c => 4,
        0x1d => 4,
        0x1e => 7,
        0x1f => 7,
        0x20 => 6,
        0x21 => 6,
        0x23 => 8,
        0x24 => 3,
        0x25 => 3,
        0x26 => 5,
        0x27 => 5,
        0x28 => 4,
        0x29 => 2,
        0x2a => 2,
        0x2c => 4,
        0x2d => 4,
        0x2e => 6,
        0x2f => 6,
        0x30 => 2,
        0x31 => 5,
        0x33 => 8,
        0x34 => 4,
        0x35 => 4,
        0x36 => 6,
        0x37 => 6,
        0x38 => 2,
        0x39 => 4,
        0x3a => 2,
        0x3b => 7,
        0x3c => 4,
        0x3d => 4,
        0x3e => 7,
        0x3f => 7,
        0x40 => 6,
        0x41 => 6,
        0x43 => 8,
        0x44 => 3,
        0x45 => 3,
        0x46 => 5,
        0x47 => 5,
        0x48 => 3,
        0x49 => 2,
        0x4a => 2,
        0x4c => 3,
        0x4d => 4,
        0x4e => 6,
        0x4f => 6,
        0x50 => 2,
        0x51 => 5,
        0x53 => 8,
        0x54 => 4,
        0x55 => 4,
        0x56 => 6,
        0x57 => 6,
        0x58 => 2,
        0x59 => 4,
        0x5a => 2,
        0x5b => 7,
        0x5c => 4,
        0x5d => 4,
        0x5e => 7,
        0x5f => 7,
        0x60 => 6,
        0x61 => 6,
        0x63 => 8,
        0x64 => 3,
        0x65 => 3,
        0x66 => 5,
        0x67 => 5,
        0x68 => 4,
        0x69 => 2,
        0x6a => 2,
        0x6c => 5,
        0x6d => 4,
        0x6e => 6,
        0x6f => 6,
        0x70 => 2,
        0x71 => 5,
        0x73 => 8,
        0x74 => 4,
        0x75 => 4,
        0x76 => 6,
        0x77 => 6,
        0x78 => 2,
        0x79 => 4,
        0x7a => 2,
        0x7b => 7,
        0x7c => 4,
        0x7d => 4,
        0x7e => 7,
        0x7f => 7,
        0x80 => 2,
        0x81 => 6,
        0x83 => 6,
        0x84 => 3,
        0x85 => 3,
        0x86 => 3,
        0x87 => 3,
        0x88 => 2,
        0x8a => 2,
        0x8c => 4,
        0x8d => 4,
        0x8e => 4,
        0x8f => 4,
        0x90 => 2,
        0x91 => 6,
        0x94 => 4,
        0x95 => 4,
        0x96 => 4,
        0x97 => 4,
        0x98 => 2,
        0x99 => 5,
        0x9a => 2,
        0x9d => 5,
        0xa0 => 2,
        0xa1 => 6,
        0xa2 => 2,
        0xa3 => 6,
        0xa4 => 3,
        0xa5 => 3,
        0xa6 => 3,
        0xa7 => 3,
        0xa8 => 2,
        0xa9 => 2,
        0xaa => 2,
        0xac => 4,
        0xad => 4,
        0xae => 4,
        0xaf => 4,
        0xb0 => 2,
        0xb1 => 5,
        0xb3 => 5,
        0xb4 => 4,
        0xb5 => 4,
        0xb6 => 4,
        0xb7 => 4,
        0xb8 => 2,
        0xb9 => 4,
        0xba => 2,
        0xbc => 4,
        0xbd => 4,
        0xbe => 4,
        0xbf => 4,
        0xc0 => 2,
        0xc1 => 6,
        0xc3 => 8,
        0xc4 => 3,
        0xc5 => 3,
        0xc6 => 5,
        0xc7 => 5,
        0xc8 => 2,
        0xc9 => 2,
        0xca => 2,
        0xcc => 4,
        0xcd => 4,
        0xce => 6,
        0xcf => 6,
        0xd0 => 2,
        0xd1 => 5,
        0xd3 => 8,
        0xd4 => 4,
        0xd5 => 4,
        0xd6 => 6,
        0xd7 => 6,
        0xd8 => 2,
        0xd9 => 4,
        0xda => 2,
        0xdb => 7,
        0xdc => 4,
        0xdd => 4,
        0xde => 7,
        0xdf => 7,
        0xe0 => 2,
        0xe1 => 6,
        0xe3 => 8,
        0xe4 => 3,
        0xe5 => 3,
        0xe6 => 5,
        0xe7 => 5,
        0xe8 => 2,
        0xe9 => 2,
        0xea => 2,
        0xeb => 2,
        0xec => 4,
        0xed => 4,
        0xee => 6,
        0xef => 6,
        0xf0 => 2,
        0xf1 => 5,
        0xf3 => 8,
        0xf4 => 4,
        0xf5 => 4,
        0xf6 => 6,
        0xf7 => 6,
        0xf8 => 2,
        0xf9 => 4,
        0xfa => 2,
        0xfb => 7,
        0xfc => 4,
        0xfd => 4,
        0xfe => 7,
        0xff => 7,
        _ => 0,
    }
}

/// Most extra cycles: one for a page cross on an indexed read, two for a taken branch into
/// another page.
pub open spec fn extra_cycles(mode: AddrMode) -> int {
    match mode {
        AddrMode::AbsoluteX | AddrMode::AbsoluteY | AddrMode::IndirectY => 1,
        AddrMode::Relative => 2,
        _ => 0,
    }
}

/// A decoded instruction.
#[derive(Debug, Clone, Copy, PartialEq, Eq, Structural)]
pub struct Opcode {
    pub name: Mnemonic,
    pub addr_mode: AddrMode,
    pub byte: u8,
}

impl Opcode {
    pub fn new(name: Mnemonic, addr_mode: AddrMode) -> (r: Self)
        ensures
            r == (Opcode { name, addr_mode, byte: 0 }),
    {
        Opcode { name, addr_mode, byte: 0 }
    }

    /// Decodes an opcode byte, undocumented instructions included.
    pub fn from_byte(byte: u8) -> (r: Option<Self>)
        ensures
            r.is_some() <==> decode(byte).is_some(),
            r.is_some() ==> r.unwrap().name == decode(byte).unwrap().0 && r.unwrap().addr_mode
                == decode(byte).unwrap().1 && r.unwrap().byte == byte,
    {
        let decoded = match byte {
            0x00 => (Mnemonic::Brk, AddrMode::Implied),
            0x01 => (Mnemonic::Ora, AddrMode::IndirectX),
            0x03 => (Mnemonic::Slo, AddrMode::IndirectX),
            0x04 => (Mnemonic::Nop, AddrMode::ZeroPage),
            0x05 => (Mnemonic::Ora, AddrMode::ZeroPage),
            0x06 => (Mnemonic::Asl, AddrMode::ZeroPage),
            0x07 => (Mnemonic::Slo, AddrMode::ZeroPage),
            0x08 => (Mnemonic::Php, AddrMode::Implied),
            0x09 => (Mnemonic::Ora, AddrMode::Immediate),
            0x0a => (Mnemonic::Asl, AddrMode::Accumulator),
            0x0c => (Mnemonic::Nop, AddrMode::Absolute),
            0x0d => (Mnemonic::Ora, AddrMode::Absolute),
            0x0e => (Mnemonic::Asl, AddrMode::Absolute),
            0x0f => (Mnemonic::Slo, AddrMode::Absolute),
            0x10 => (Mnemonic::Bpl, AddrMode::Relative),
            0x11 => (Mnemonic::Ora, AddrMode::IndirectY),
            0x13 => (Mnemonic::Slo, AddrMode::IndirectYForceClock),
            0x14 => (Mnemonic::Nop, AddrMode::ZeroPageX),
            0x15 => (Mnemonic::Ora, AddrMode::ZeroPageX),
            0x16 => (Mnemonic::Asl, AddrMode::ZeroPageX),
            0x17 => (Mnemonic::Slo, AddrMode::ZeroPageX),
            0x18 => (Mnemonic::Clc, AddrMode::Implied),
            0x19 => (Mnemonic::Ora, AddrMode::AbsoluteY),
            0x1a => (Mnemonic::Nop, AddrMode::Implied),
            0x1b => (Mnemonic::Slo, AddrMode::AbsoluteYForceClock),
            0x1c => (Mnemonic::Nop, AddrMode::AbsoluteX),
            0x1d => (Mnemonic::Ora, AddrMode::AbsoluteX),
            0x1e => (Mnemonic::Asl, AddrMode::AbsoluteXForceClock),
            0x1f => (Mnemonic::Slo, AddrMode::AbsoluteXForceClock),
            0x20 => (Mnemonic::Jsr, AddrMode::Absolute),
            0x21 => (Mnemonic::And, AddrMode::IndirectX),
            0x23 => (Mnemonic::Rla, AddrMode::IndirectX),
            0x24 => (Mnemonic::Bit, AddrMode::ZeroPage),
            0x25 => (Mnemonic::And, AddrMode::ZeroPage),
            0x26 => (Mnemonic::Rol, AddrMode::ZeroPage),
            0x27 => (Mnemonic::Rla, AddrMode::ZeroPage),
            0x28 => (Mnemonic::Plp, AddrMode::Implied),
            0x29 => (Mnemonic::And, AddrMode::Immediate),
            0x2a => (Mnemonic::Rol, AddrMode::Accumulator),
            0x2c => (Mnemonic::Bit, AddrMode::Absolute),
            0x2d => (Mnemonic::And, AddrMode::Absolute),
            0x2e => (Mnemonic::Rol, AddrMode::Absolute),
            0x2f => (Mnemonic::Rla, AddrMode::Absolute),
            0x30 => (Mnemonic::Bmi, AddrMode::Relative),
            0x31 => (Mnemonic::And, AddrMode::IndirectY),
            0x33 => (Mnemonic::Rla, AddrMode::IndirectYForceClock),
            0x34 => (Mnemonic::Nop, AddrMode::ZeroPageX),
            0x35 => (Mnemonic::And, AddrMode::ZeroPageX),
            0x36 => (Mnemonic::Rol, AddrMode::ZeroPageX),
            0x37 => (Mnemonic::Rla, AddrMode::ZeroPageX),
            0x38 => (Mnemonic::Sec, AddrMode::Implied),
            0x39 => (Mnemonic::And, AddrMode::AbsoluteY),
            0x3a => (Mnemonic::Nop, AddrMode::Implied),
            0x3b => (Mnemonic::Rla, AddrMode::AbsoluteYForceClock),
            0x3c => (Mnemonic::Nop, AddrMode::AbsoluteX),
            0x3d => (Mnemonic::And, AddrMode::AbsoluteX),
            0x3e => (Mnemonic::Rol, AddrMode::AbsoluteXForceClock),
            0x3f => (Mnemonic::Rla, AddrMode::AbsoluteXForceClock),
            0x40 => (Mnemonic::Rti, AddrMode::Implied),
            0x41 => (Mnemonic::Eor, AddrMode::IndirectX),
            0x43 => (Mnemonic::Sre, AddrMode::IndirectX),
            0x44 => (Mnemonic::Nop, AddrMode::ZeroPage),
            0x45 => (Mnemonic::Eor, AddrMode::ZeroPage),
            0x46 => (Mnemonic::Lsr, AddrMode::ZeroPage),
            0x47 => (Mnemonic::Sre, AddrMode::ZeroPage),
            0x48 => (Mnemonic::Pha, AddrMode::Implied),
            0x49 => (Mnemonic::Eor, AddrMode::Immediate),
            0x4a => (Mnemonic::Lsr, AddrMode::Accumulator),
            0x4c => (Mnemonic::Jmp, AddrMode::Absolute),
            0x4d => (Mnemonic::Eor, AddrMode::Absolute),
            0x4e => (Mnemonic::Lsr, AddrMode::Absolute),
            0x4f => (Mnemonic::Sre, AddrMode::Absolute),
            0x50 => (Mnemonic::Bvc, AddrMode::Relative),
            0x51 => (Mnemonic::Eor, AddrMode::IndirectY),
            0x53 => (Mnemonic::Sre, AddrMode::IndirectYForceClock),
            0x54 => (Mnemonic::Nop, AddrMode::ZeroPageX),
            0x55 => (Mnemonic::Eor, AddrMode::ZeroPageX),
            0x56 => (Mnemonic::Lsr, AddrMode::ZeroPageX),
            0x57 => (Mnemonic::Sre, AddrMode::ZeroPageX),
            0x58 => (Mnemonic::Cli, AddrMode::Implied),
            0x59 => (Mnemonic::Eor, AddrMode::AbsoluteY),
            0x5a => (Mnemonic::Nop, AddrMode::Implied),
            0x5b => (Mnemonic::Sre, AddrMode::AbsoluteYForceClock),
            0x5c => (Mnemonic::Nop, AddrMode::AbsoluteX),
            0x5d => (Mnemonic::Eor, AddrMode::AbsoluteX),
            0x5e => (Mnemonic::Lsr, AddrMode::AbsoluteXForceClock),
            0x5f => (Mnemonic::Sre, AddrMode::AbsoluteXForceClock),
            0x60 => (Mnemonic::Rts, AddrMode::Implied),
            0x61 => (Mnemonic::Adc, AddrMode::IndirectX),
            0x63 => (Mnemonic::Rra, AddrMode::IndirectX),
            0x64 => (Mnemonic::Nop, AddrMode::ZeroPage),
            0x65 => (Mnemonic::Adc, AddrMode::ZeroPage),
            0x66 => (Mnemonic::Ror, AddrMode::ZeroPage),
            0x67 => (Mnemonic::Rra, AddrMode::ZeroPage),
            0x68 => (Mnemonic::Pla, AddrMode::Implied),
            0x69 => (Mnemonic::Adc, AddrMode::Immediate),
            0x6a => (Mnemonic::Ror, AddrMode::Accumulator),
            0x6c => (Mnemonic::Jmp, AddrMode::Indirect),
            0x6d => (Mnemonic::Adc, AddrMode::Absolute),
            0x6e => (Mnemonic::Ror, AddrMode::Absolute),
            0x6f => (Mnemonic::Rra, AddrMode::Absolute),
            0x70 => (Mnemonic::Bvs, AddrMode::Relative),
            0x71 => (Mnemonic::Adc, AddrMode::IndirectY),
            0x73 => (Mnemonic::Rra, AddrMode::IndirectYForceClock),
            0x74 => (Mnemonic::Nop, AddrMode::ZeroPageX),
            0x75 => (Mnemonic::Adc, AddrMode::ZeroPageX),
            0x76 => (Mnemonic::Ror, AddrMode::ZeroPageX),
            0x77 => (Mnemonic::Rra, AddrMode::ZeroPageX),
            0x78 => (Mnemonic::Sei, AddrMode::Implied),
            0x79 => (Mnemonic::Adc, AddrMode::AbsoluteY),
            0x7a => (Mnemonic::Nop, AddrMode::Implied),
            0x7b => (Mnemonic::Rra, AddrMode::AbsoluteYForceClock),
            0x7c => (Mnemonic::Nop, AddrMode::AbsoluteX),
            0x7d => (Mnemonic::Adc, AddrMode::AbsoluteX),
            0x7e => (Mnemonic::Ror, AddrMode::AbsoluteXForceClock),
            0x7f => (Mnemonic::Rra, AddrMode::AbsoluteXForceClock),
            0x80 => (Mnemonic::Nop, AddrMode::Immediate),
            0x81 => (Mnemonic::Sta, AddrMode::IndirectX),
            0x83 => (Mnemonic::Sax, AddrMode::IndirectX),
            0x84 => (Mnemonic::Sty, AddrMode::ZeroPage),
            0x85 => (Mnemonic::Sta, AddrMode::ZeroPage),
            0x86 => (Mnemonic::Stx, AddrMode::ZeroPage),
            0x87 => (Mnemonic::Sax, AddrMode::ZeroPage),
            0x88 => (Mnemonic::Dey, AddrMode::Implied),
            0x8a => (Mnemonic::Txa, AddrMode::Implied),
            0x8c => (Mnemonic::Sty, AddrMode::Absolute),
            0x8d => (Mnemonic::Sta, AddrMode::Absolute),
            0x8e => (Mnemonic::Stx, AddrMode::Absolute),
            0x8f => (Mnemonic::Sax, AddrMode::Absolute),
            0x90 => (Mnemonic::Bcc, AddrMode::Relative),
            0x91 => (Mnemonic::Sta, AddrMode::IndirectYForceClock),
            0x94 => (Mnemonic::Sty, AddrMode::ZeroPageX),
            0x95 => (Mnemonic::Sta, AddrMode::ZeroPageX),
            0x96 => (Mnemonic::Stx, AddrMode::ZeroPageY),
            0x97 => (Mnemonic::Sax, AddrMode::ZeroPageY),
            0x98 => (Mnemonic::Tya, AddrMode::Implied),
            0x99 => (Mnemonic::Sta, AddrMode::AbsoluteYForceClock),
            0x9a => (Mnemonic::Txs, AddrMode::Implied),
            0x9d => (Mnemonic::Sta, AddrMode::AbsoluteXForceClock),
            0xa0 => (Mnemonic::Ldy, AddrMode::Immediate),
            0xa1 => (Mnemonic::Lda, AddrMode::IndirectX),
            0xa2 => (Mnemonic::Ldx, AddrMode::Immediate),
            0xa3 => (Mnemonic::Lax, AddrMode::IndirectX),
            0xa4 => (Mnemonic::Ldy, AddrMode::ZeroPage),
            0xa5 => (Mnemonic::Lda, AddrMode::ZeroPage),
            0xa6 => (Mnemonic::Ldx, AddrMode::ZeroPage),
            0xa7 => (Mnemonic::Lax, AddrMode::ZeroPage),
            0xa8 => (Mnemonic::Tay, AddrMode::Implied),
            0xa9 => (Mnemonic::Lda, AddrMode::Immediate),
            0xaa => (Mnemonic::Tax, AddrMode::Implied),
            0xac => (Mnemonic::Ldy, AddrMode::Absolute),
            0xad => (Mnemonic::Lda, AddrMode::Absolute),
            0xae => (Mnemonic::Ldx, AddrMode::Absolute),
            0xaf => (Mnemonic::Lax, AddrMode::Absolute),
            0xb0 => (Mnemonic::Bcs, AddrMode::Relative),
            0xb1 => (Mnemonic::Lda, AddrMode::IndirectY),
            0xb3 => (Mnemonic::Lax, AddrMode::IndirectY),
            0xb4 => (Mnemonic::Ldy, AddrMode::ZeroPageX),
            0xb5 => (Mnemonic::Lda, AddrMode::ZeroPageX),
            0xb6 => (Mnemonic::Ldx, AddrMode::ZeroPageY),
            0xb7 => (Mnemonic::Lax, AddrMode::ZeroPageY),
            0xb8 => (Mnemonic::Clv, AddrMode::Implied),
            0xb9 => (Mnemonic::Lda, AddrMode::AbsoluteY),
            0xba => (Mnemonic::Tsx, AddrMode::Implied),
            0xbc => (Mnemonic::Ldy, AddrMode::AbsoluteX),
            0xbd => (Mnemonic::Lda, AddrMode::AbsoluteX),
            0xbe => (Mnemonic::Ldx, AddrMode::AbsoluteY),
            0xbf => (Mnemonic::Lax, AddrMode::AbsoluteY),
            0xc0 => (Mnemonic::Cpy, AddrMode::Immediate),
            0xc1 => (Mnemonic::Cmp, AddrMode::IndirectX),
            0xc3 => (Mnemonic::Dcp, AddrMode::IndirectX),
            0xc4 => (Mnemonic::Cpy, AddrMode::ZeroPage),
            0xc5 => (Mnemonic::Cmp, AddrMode::ZeroPage),
            0xc6 => (Mnemonic::Dec, AddrMode::ZeroPage),
            0xc7 => (Mnemonic::Dcp, AddrMode::ZeroPage),
            0xc8 => (Mnemonic::Iny, AddrMode::Implied),
            0xc9 => (Mnemonic::Cmp, AddrMode::Immediate),
            0xca => (Mnemonic::Dex, AddrMode::Implied),
            0xcc => (Mnemonic::Cpy, AddrMode::Absolute),
            0xcd => (Mnemonic::Cmp, AddrMode::Absolute),
            0xce => (Mnemonic::Dec, AddrMode::Absolute),
            0xcf => (Mnemonic::Dcp, AddrMode::Absolute),
            0xd0 => (Mnemonic::Bne, AddrMode::Relative),
            0xd1 => (Mnemonic::Cmp, AddrMode::IndirectY),
            0xd3 => (Mnemonic::Dcp, AddrMode::IndirectYForceClock),
            0xd4 => (Mnemonic::Nop, AddrMode::ZeroPageX),
            0xd5 => (Mnemonic::Cmp, AddrMode::ZeroPageX),
            0xd6 => (Mnemonic::Dec, AddrMode::ZeroPageX),
            0xd7 => (Mnemonic::Dcp, AddrMode::ZeroPageX),
            0xd8 => (Mnemonic::Cld, AddrMode::Implied),
            0xd9 => (Mnemonic::Cmp, AddrMode::AbsoluteY),
            0xda => (Mnemonic::Nop, AddrMode::Implied),
            0xdb => (Mnemonic::Dcp, AddrMode::AbsoluteYForceClock),
            0xdc => (Mnemonic::Nop, AddrMode::AbsoluteX),
            0xdd => (Mnemonic::Cmp, AddrMode::AbsoluteX),
            0xde => (Mnemonic::Dec, AddrMode::AbsoluteXForceClock),
            0xdf => (Mnemonic::Dcp, AddrMode::AbsoluteXForceClock),
            0xe0 => (Mnemonic::Cpx, AddrMode::Immediate),
            0xe1 => (Mnemonic::Sbc, AddrMode::IndirectX),
            0xe3 => (Mnemonic::Isc, AddrMode::IndirectX),
            0xe4 => (Mnemonic::Cpx, AddrMode::ZeroPage),
            0xe5 => (Mnemonic::Sbc, AddrMode::ZeroPage),
            0xe6 => (Mnemonic::Inc, AddrMode::ZeroPage),
            0xe7 => (Mnemonic::Isc, AddrMode::ZeroPage),
            0xe8 => (Mnemonic::Inx, AddrMode::Implied),
            0xe9 => (Mnemonic::Sbc, AddrMode::Immediate),
            0xea => (Mnemonic::Nop, AddrMode::Implied),
            0xeb => (Mnemonic::Sbc, AddrMode::Immediate),
            0xec => (Mnemonic::Cpx, AddrMode::Absolute),
            0xed => (Mnemonic::Sbc, AddrMode::Absolute),
            0xee => (Mnemonic::Inc, AddrMode::Absolute),
            0xef => (Mnemonic::Isc, AddrMode::Absolute),
            0xf0 => (Mnemonic::Beq, AddrMode::Relative),
            0xf1 => (Mnemonic::Sbc, AddrMode::IndirectY),
            0xf3 => (Mnemonic::Isc, AddrMode::IndirectYForceClock),
            0xf4 => (Mnemonic::Nop, AddrMode::ZeroPageX),
            0xf5 => (Mnemonic::Sbc, AddrMode::ZeroPageX),
            0xf6 => (Mnemonic::Inc, AddrMode::ZeroPageX),
            0xf7 => (Mnemonic::Isc, AddrMode::ZeroPageX),
            0xf8 => (Mnemonic::Sed, AddrMode::Implied),
            0xf9 => (Mnemonic::Sbc, AddrMode::AbsoluteY),
            0xfa => (Mnemonic::Nop, AddrMode::Implied),
            0xfb => (Mnemonic::Isc, AddrMode::AbsoluteYForceClock),
            0xfc => (Mnemonic::Nop, AddrMode::AbsoluteX),
            0xfd => (Mnemonic::Sbc, AddrMode::AbsoluteX),
            0xfe => (Mnemonic::Inc, AddrMode::AbsoluteXForceClock),
            0xff => (Mnemonic::Isc, AddrMode::AbsoluteXForceClock),
            _ => return None,
        };
        Some(Opcode { name: decoded.0, addr_mode: decoded.1, byte })
    }
}

} // verus!
