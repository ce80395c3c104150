use vstd::prelude::*;

verus! {

/// Errors raised while executing instructions.
#[derive(Debug, Clone, Copy, PartialEq, Eq, Structural)]
pub enum CpuError {
    /// The byte at the program counter does not decode to an instruction.
    UnknownOpcode(u8),
    /// A debugging trap was hit.
    DebugTrap,
}

/// Errors raised while reading a cartridge image.
#[derive(Debug, Clone, Copy)]
pub enum NesParseError {
    /// The first four bytes are not `NES\x1A`; holds those bytes.
    InvalidMagicNumber([u8; 4]),
    /// The header names a mapper that has no implementation here.
    UnsupportedMapper(u8),
    /// The image ends early; holds the number of bytes it should have had.
    NotEnough(usize),
}

} // verus!
