use vstd::prelude::*;

use crate::cpu::Cpu;
use crate::opcode::{decode, AddrMode, Opcode};

verus! {

/// Operand bytes that follow an opcode in `mode`.
pub open spec fn operand_length(mode: AddrMode) -> int {
    match mode {
        AddrMode::Implied | AddrMode::Accumulator => 0,
        AddrMode::Absolute | AddrMode::AbsoluteX | AddrMode::AbsoluteXForceClock
        | AddrMode::AbsoluteY | AddrMode::AbsoluteYForceClock | AddrMode::Indirect => 2,
        _ => 1,
    }
}

/// One decoded instruction of the stream.
#[derive(Debug, Clone, Copy, PartialEq, Eq, Structural)]
pub struct Instruction {
    /// Where the opcode byte is.
    pub address: u16,
    pub opcode_byte: u8,
    /// `None` when the byte is not an instruction.
    pub opcode: Option<Opcode>,
    /// The operand, little-endian; 0 when there is none.
    pub operand: u16,
    /// Address after the instruction.
    pub next_address: u16,
}

/// Walks the instruction stream from a program counter, reading memory without side effects.
#[derive(Debug, Clone, Copy, PartialEq, Eq, Structural)]
pub struct Disassembler {
    pub current_address: u16,
}

impl Disassembler {
    /// Starts at the CPU's program counter.
    pub fn new(cpu: &Cpu) -> (r: Self)
        ensures
            r.current_address == cpu.pc,
    {
        Disassembler { current_address: cpu.pc }
    }

    fn next_byte(&mut self, cpu: &Cpu) -> (r: u8)
        ensures
            r == cpu.bus.peek(old(self).current_address),
            final(self).current_address == old(self).current_address.wrapping_add(1),
    {
        let address = self.current_address;
        self.current_address = self.current_address.wrapping_add(1);
        cpu.bus.immut_read_u8(address)
    }

    fn next_word(&mut self, cpu: &Cpu) -> (r: u16)
        ensures
            final(self).current_address == old(self).current_address.wrapping_add(2),
            r == cpu.bus.peek(old(self).current_address) + 256 * cpu.bus.peek(
                old(self).current_address.wrapping_add(1),
            ),
    {
        let low = self.next_byte(cpu) as u16;
        let high = self.next_byte(cpu) as u16;
        proof {
            crate::cpu_bus::lemma_word(low, high);
        }
        low | (high << 8u16)
    }

    /// Decodes the instruction at the current address and moves past it. An unknown byte is
    /// reported and not moved past.
    pub fn disassemble_next(&mut self, cpu: &Cpu) -> (r: Instruction)
        ensures
            r.opcode.is_some() && operand_length(r.opcode.unwrap().addr_mode) == 2 ==> r.operand
                == cpu.bus.peek(r.address.wrapping_add(1)) + 256 * cpu.bus.peek(
                r.address.wrapping_add(1).wrapping_add(1),
            ),
            r.address == old(self).current_address,
            r.opcode_byte == cpu.bus.peek(r.address),
            r.opcode.is_some() <==> decode(r.opcode_byte).is_some(),
            r.opcode.is_none() ==> final(self).current_address == old(self).current_address
                && r.operand == 0,
            r.opcode.is_some() ==> ({
                let op = r.opcode.unwrap();
                &&& op.name == decode(r.opcode_byte).unwrap().0
                &&& op.addr_mode == decode(r.opcode_byte).unwrap().1
                &&& final(self).current_address == (r.address + 1 + operand_length(op.addr_mode))
                    % 0x10000
                &&& operand_length(op.addr_mode) == 0 ==> r.operand == 0
                &&& operand_length(op.addr_mode) == 1 ==> r.operand == cpu.bus.peek(
                    r.address.wrapping_add(1),
                )
            }),
            r.next_address == final(self).current_address,
    {
        let address = self.current_address;
        let opcode_byte = cpu.bus.immut_read_u8(address);
        let opcode = match Opcode::from_byte(opcode_byte) {
            Some(op) => op,
            None => {
                return Instruction {
                    address,
                    opcode_byte,
                    opcode: None,
                    operand: 0,
                    next_address: address,
                };
            },
        };
        self.current_address = self.current_address.wrapping_add(1);
        let operand: u16 = match opcode.addr_mode {
            AddrMode::Implied | AddrMode::Accumulator => 0,
            AddrMode::Absolute | AddrMode::AbsoluteX | AddrMode::AbsoluteXForceClock
            | AddrMode::AbsoluteY | AddrMode::AbsoluteYForceClock | AddrMode::Indirect => self.next_word(cpu),
            _ => self.next_byte(cpu) as u16,
        };
        Instruction {
            address,
            opcode_byte,
            opcode: Some(opcode),
            operand,
            next_address: self.current_address,
        }
    }

    /// Decodes `amount` instructions (at least one).
    pub fn disassemble_lines(&mut self, cpu: &Cpu, amount: usize) -> (r: Vec<Instruction>)
        ensures
            r@.len() == if amount <= 1 { 1 } else { amount as int },
            r@[0].address == old(self).current_address,
            forall|i: int| 0 < i < r@.len() ==> r@[i].address == r@[i - 1].next_address,
            final(self).current_address == r@[r@.len() - 1].next_address,
    {
        let count: usize = if amount <= 1 { 1 } else { amount };
        let mut lines: Vec<Instruction> = Vec::new();
        let first = self.disassemble_next(cpu);
        lines.push(first);
        let mut i: usize = 1;
        while i < count
            invariant
                1 <= i <= count,
                lines@.len() == i,
                lines@[0].address == old(self).current_address,
                forall|k: int| 0 < k < lines@.len() ==> lines@[k].address == lines@[k - 1].next_address,
                self.current_address == lines@[lines@.len() - 1].next_address,
            decreases count - i,
        {
            let line = self.disassemble_next(cpu);
            lines.push(line);
            i += 1;
        }
        lines
    }
}

} // verus!
