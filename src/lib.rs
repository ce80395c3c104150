//! A cycle-stepped NES core: 6502 CPU, 2C02 PPU, buses, controllers and cartridge mappers.
pub mod banks;
pub mod cartridge;
pub mod controller;
pub mod cpu;
pub mod cpu_bus;
pub mod disassembler;
pub mod emulator;
pub mod error;
pub mod header;
pub mod laws;
pub mod opcode;
pub mod palette;
pub mod ppu;
pub mod ppu_bus;
pub mod registers;
pub mod sprite;

pub use cartridge::Cartridge;
pub use controller::{Button, Controller};
pub use cpu::{Cpu, Flags};
pub use emulator::Emulator;
pub use error::{CpuError, NesParseError};
pub use header::{CartridgeHeader, Mirroring};
pub use ppu::Ppu;
