use vstd::prelude::*;

use crate::cartridge::Cartridge;
use crate::controller::Controller;
use crate::cpu::Cpu;
use crate::error::{CpuError, NesParseError};
use crate::ppu::{frame_dots, Ppu};

verus! {

/// Scanline from which a frame is always run to its end, past the cycle budget.
pub const LATE_SCANLINE: u16 = 180;

/// Owns the CPU, which owns everything else, and runs it by instructions or by frames.
#[derive(Clone)]
pub struct Emulator {
    pub cpu: Cpu,
}

impl Default for Emulator {
    fn default() -> (r: Self)
        ensures
            r.wf(),
    {
        Emulator { cpu: Cpu::default() }
    }
}

impl Emulator {
    pub open spec fn wf(&self) -> bool {
        self.cpu.wf()
    }

    /// Executes one instruction.
    pub fn step(&mut self) -> (r: Result<(), CpuError>)
        requires
            old(self).wf(),
        ensures
            r.is_err() && final(self).cpu.bus.settled(final(self).cpu.pc.wrapping_sub(1)) ==> r == Err::<(), CpuError>(
                CpuError::UnknownOpcode(final(self).cpu.bus.peek(final(self).cpu.pc.wrapping_sub(1))),
            ),
            !old(self).cpu.bus.ppu.require_nmi ==> (r.is_ok() <==> crate::opcode::decode(
                old(self).cpu.bus.read_value(old(self).cpu.pc),
            ).is_some()),
            !old(self).cpu.bus.ppu.require_nmi && r.is_err() ==> r == Err::<(), CpuError>(
                CpuError::UnknownOpcode(old(self).cpu.bus.read_value(old(self).cpu.pc)),
            ),
            !old(self).cpu.bus.ppu.require_nmi ==> crate::cpu::runs_instruction(
                Cpu { bus: crate::cpu_bus::CpuBus { cpu_cycles_to_wait: 0, ..old(self).cpu.bus }, ..old(self).cpu },
                final(self).cpu,
                match r { Ok(_) => Ok(final(self).cpu.bus.cpu_cycles_to_wait), Err(e) => Err(e) },
            ),
            final(self).wf(),
            final(self).cpu.bus.ppu.position() == (old(self).cpu.bus.ppu.position() + 3
                * final(self).cpu.bus.cpu_cycles_to_wait + (final(self).cpu.bus.ppu.skipped_dots@
                - old(self).cpu.bus.ppu.skipped_dots@)) % frame_dots(),
            r.is_err() ==> (match r.unwrap_err() {
                CpuError::UnknownOpcode(b) => crate::opcode::decode(b).is_none(),
                CpuError::DebugTrap => false,
            }),
    {
        match self.cpu.execute_next() {
            Ok(_) => Ok(()),
            Err(e) => Err(e),
        }
    }

    /// Takes the frame-complete flag, clearing it.
    fn frame_complete(&mut self) -> (r: bool)
        ensures
            r == old(self).cpu.bus.ppu.frame_complete,
            *final(self) == (Emulator {
                cpu: Cpu {
                    bus: crate::cpu_bus::CpuBus {
                        ppu: Ppu { frame_complete: false, ..old(self).cpu.bus.ppu },
                        ..old(self).cpu.bus
                    },
                    ..old(self).cpu
                },
            }),
    {
        let complete = self.cpu.bus.ppu.frame_complete;
        self.cpu.bus.ppu.frame_complete = false;
        complete
    }

    /// Executes instructions until a frame completes; failed instructions are skipped over.
    #[verifier::rlimit(60)]
    pub fn next_frame(&mut self)
        requires
            old(self).wf(),
        ensures
            !final(self).cpu.bus.ppu.frame_complete,
            final(self).wf(),
            old(self).cpu.bus.ppu.frame_complete
                || final(self).cpu.bus.ppu.frames@ > old(self).cpu.bus.ppu.frames@,
    {
        while !self.frame_complete()
            invariant
                self.wf(),
                self.cpu.bus.ppu.frames@ >= old(self).cpu.bus.ppu.frames@,
                self.cpu.bus.ppu.frame_complete ==> old(self).cpu.bus.ppu.frame_complete
                    || self.cpu.bus.ppu.frames@ > old(self).cpu.bus.ppu.frames@,
            decreases (if self.cpu.bus.ppu.frame_complete { 0int } else { 1 }),
                frame_dots() - self.cpu.bus.ppu.position(),
        {
            let ghost before = self.cpu.bus.ppu;
            let _ = self.cpu.execute_next();
            assert(!before.frame_complete);
            proof {
                if !self.cpu.bus.ppu.frame_complete {
                    let d = 3 * self.cpu.bus.cpu_cycles_to_wait + (self.cpu.bus.ppu.skipped_dots@
                        - before.skipped_dots@);
                    if before.position() + d >= frame_dots() {
                        vstd::arithmetic::div_mod::lemma_fundamental_div_mod_converse(
                            before.position() + d, frame_dots(), 1, before.position() + d - frame_dots());
                    } else {
                        vstd::arithmetic::div_mod::lemma_small_mod((before.position() + d) as nat, frame_dots() as nat);
                    }
                }
            }
        }
    }

    /// Runs instructions while cycles remain in `clocks_remaining` (subtracting each
    /// instruction's cost), and past the budget while the PPU is at or below scanline 180 so a
    /// frame is not cut in the middle. Returns `Ok(true)`, clearing the flag, as soon as a frame
    /// completes; `Ok(false)` when the budget ran out first.
    #[verifier::rlimit(60)]
    pub fn clock_until_frame(&mut self, clocks_remaining: &mut i32) -> (r: Result<bool, CpuError>)
        requires
            old(self).wf(),
        ensures
            *final(clocks_remaining) <= *old(clocks_remaining),
            r.is_ok() && *old(clocks_remaining) > 0 ==> *final(clocks_remaining) < *old(clocks_remaining),
            r == Ok::<bool, CpuError>(true) ==> old(self).cpu.bus.ppu.frame_complete
                || final(self).cpu.bus.ppu.frames@ > old(self).cpu.bus.ppu.frames@,
            final(self).cpu.bus.ppu.frames@ >= old(self).cpu.bus.ppu.frames@,
            r.is_err() && final(self).cpu.bus.settled(final(self).cpu.pc.wrapping_sub(1)) ==> r == Err::<bool, CpuError>(
                CpuError::UnknownOpcode(final(self).cpu.bus.peek(final(self).cpu.pc.wrapping_sub(1))),
            ),
            final(self).wf(),
            r == Ok::<bool, CpuError>(true) ==> !final(self).cpu.bus.ppu.frame_complete,
            r == Ok::<bool, CpuError>(false) ==> *final(clocks_remaining) <= 0
                && final(self).cpu.bus.ppu.scanline < LATE_SCANLINE,
            r.is_err() ==> (match r.unwrap_err() {
                CpuError::UnknownOpcode(b) => crate::opcode::decode(b).is_none(),
                CpuError::DebugTrap => false,
            }),
    {
        let ghost mut iterated = false;
        while *clocks_remaining > 0 || self.cpu.bus.ppu.scanline >= LATE_SCANLINE
            invariant
                self.wf(),
                *clocks_remaining <= *old(clocks_remaining),
                !iterated ==> *clocks_remaining == *old(clocks_remaining),
                iterated ==> *clocks_remaining < *old(clocks_remaining) || *old(clocks_remaining)
                    < i32::MIN + 32,
                self.cpu.bus.ppu.frames@ >= old(self).cpu.bus.ppu.frames@,
                self.cpu.bus.ppu.frame_complete ==> old(self).cpu.bus.ppu.frame_complete
                    || self.cpu.bus.ppu.frames@ > old(self).cpu.bus.ppu.frames@,
            decreases (if *clocks_remaining > 0 { *clocks_remaining as int } else { 0 }),
                frame_dots() - self.cpu.bus.ppu.position(),
        {
            let ghost before = self.cpu.bus.ppu;
            let ghost budget = *clocks_remaining;
            let cycles = match self.cpu.execute_next() {
                Ok(c) => c,
                Err(e) => return Err(e),
            };
            let budget_now: i32 = *clocks_remaining;
            *clocks_remaining = if budget_now < i32::MIN + 32 { i32::MIN } else { budget_now - cycles as i32 };
            proof {
                iterated = true;
            }
            if self.frame_complete() {
                return Ok(true);
            }
            proof {
                let d = 3 * self.cpu.bus.cpu_cycles_to_wait + (self.cpu.bus.ppu.skipped_dots@
                    - before.skipped_dots@);
                if before.position() + d >= frame_dots() {
                    vstd::arithmetic::div_mod::lemma_fundamental_div_mod_converse(
                        before.position() + d, frame_dots(), 1, before.position() + d - frame_dots());
                } else {
                    vstd::arithmetic::div_mod::lemma_small_mod((before.position() + d) as nat, frame_dots() as nat);
                }
            }
        }
        Ok(false)
    }

    /// Parses an iNES image and inserts the cartridge; on error nothing changes.
    pub fn load_nes_bytes(&mut self, bytes: &[u8]) -> (r: Result<(), NesParseError>)
        requires
            old(self).wf(),
        ensures
            r.is_ok() <==> Cartridge::image_accepted(bytes@),
            r.is_ok() ==> final(self).cpu.bus.cartridge().unwrap().header == crate::header::header_of(bytes@.subrange(0, 16))
                && final(self).cpu.bus.cartridge().unwrap().wf(),
            final(self).wf(),
            r.is_err() ==> *final(self) == *old(self),
            r.is_ok() ==> final(self).cpu.bus.cartridge().is_some(),
    {
        let cartridge = match Cartridge::from_nes(bytes) {
            Ok(c) => c,
            Err(e) => return Err(e),
        };
        self.cpu.bus.attach_catridge(cartridge);
        Ok(())
    }

    pub fn ppu(&self) -> (r: &Ppu)
        ensures
            *r == self.cpu.bus.ppu,
    {
        &self.cpu.bus.ppu
    }

    pub fn cartridge(&self) -> (r: Option<&Cartridge>)
        ensures
            r == match self.cpu.bus.cartridge() {
                Some(c) => Some(&c),
                None => None::<&Cartridge>,
            },
    {
        self.cpu.bus.ppu.registers.bus.cartridge.as_ref()
    }

    /// Controller `number` (0 or 1).
    pub fn controller(&mut self, number: u8) -> (r: &mut Controller)
        requires
            number < 2,
        ensures
            *r == old(self).cpu.bus.controllers[number as int],
            final(self).cpu.bus.controllers@ == old(self).cpu.bus.controllers@.update(number as int, *final(r)),
            final(self).cpu.pc == old(self).cpu.pc,
            final(self).cpu.bus.ppu == old(self).cpu.bus.ppu,
            final(self).cpu.bus.ram == old(self).cpu.bus.ram,
    {
        &mut self.cpu.bus.controllers[number as usize]
    }
}

} // verus!
