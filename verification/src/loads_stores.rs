//! The load/store family. The effective address is the first register plus
//! a 16-bit sign-extended displacement, always consumed as one trailing
//! halfword regardless of access width. Byte and halfword loads
//! sign-extend into the 32-bit destination; word loads are verbatim;
//! stores truncate the source register to the access width. Every access
//! routes through the bus, so stub-region side effects happen exactly as
//! for directly addressed accesses. Flags never change.

use crate::arith::{sext8, sext16, w_add};
use crate::bus::{read8_s, read16_s, read32_s, write8_s, write16_s, write32_s, Bus};
use crate::cpu::{reg1_of, reg2_of, Cpu, CpuSnapshot};
use crate::errors::EmuError;
use crate::mem::MemSnapshot;
use vstd::prelude::*;

verus! {

/// The CPU states a faulting load or store can leave behind: untouched
/// when the displacement halfword itself could not be read, or just past
/// it when the data access faulted.
pub open spec fn fault_state(pre: CpuSnapshot, post: CpuSnapshot) -> bool {
    post == pre || post == (CpuSnapshot { pc: w_add(pre.pc, 2), ..pre })
}

/// The CPU after the trailing displacement halfword `h` is consumed, and
/// the effective address it selects.
pub open spec fn effective_addr(c: CpuSnapshot, instr: u16, h: u16) -> u32 {
    w_add(c.gprs[reg1_of(instr)], sext16(h))
}

/// Byte load: the byte at the effective address, sign-extended into the
/// destination register.
pub open spec fn ld_byte_s(c: CpuSnapshot, m: MemSnapshot, instr: u16) -> Result<
    CpuSnapshot,
    EmuError,
> {
    match read16_s(m, c.pc) {
        Ok(h) => match read8_s(m, effective_addr(c, instr, h)) {
            Ok(b) => Ok(
                CpuSnapshot {
                    gprs: c.gprs.update(reg2_of(instr), sext8(b)),
                    pc: w_add(c.pc, 2),
                    ..c
                },
            ),
            Err(e) => Err(e),
        },
        Err(e) => Err(e),
    }
}

/// Halfword load: the halfword at the effective address, sign-extended
/// into the destination register.
pub open spec fn ld_halfword_s(c: CpuSnapshot, m: MemSnapshot, instr: u16) -> Result<
    CpuSnapshot,
    EmuError,
> {
    match read16_s(m, c.pc) {
        Ok(h) => match read16_s(m, effective_addr(c, instr, h)) {
            Ok(v) => Ok(
                CpuSnapshot {
                    gprs: c.gprs.update(reg2_of(instr), sext16(v)),
                    pc: w_add(c.pc, 2),
                    ..c
                },
            ),
            Err(e) => Err(e),
        },
        Err(e) => Err(e),
    }
}

/// Word load: the word at the effective address, verbatim.
pub open spec fn ld_word_s(c: CpuSnapshot, m: MemSnapshot, instr: u16) -> Result<
    CpuSnapshot,
    EmuError,
> {
    match read16_s(m, c.pc) {
        Ok(h) => match read32_s(m, effective_addr(c, instr, h)) {
            Ok(v) => Ok(
                CpuSnapshot {
                    gprs: c.gprs.update(reg2_of(instr), v),
                    pc: w_add(c.pc, 2),
                    ..c
                },
            ),
            Err(e) => Err(e),
        },
        Err(e) => Err(e),
    }
}

/// Byte store: the source register truncated to 8 bits, written at the
/// effective address.
pub open spec fn st_byte_s(c: CpuSnapshot, m: MemSnapshot, instr: u16) -> Result<
    (CpuSnapshot, MemSnapshot),
    EmuError,
> {
    match read16_s(m, c.pc) {
        Ok(h) => {
            let c1 = CpuSnapshot { pc: w_add(c.pc, 2), ..c };
            match write8_s(m, effective_addr(c, instr, h), c.gprs[reg2_of(instr)] as u8) {
                Ok(m2) => Ok((c1, m2)),
                Err(e) => Err(e),
            }
        },
        Err(e) => Err(e),
    }
}

/// Halfword store: the source register truncated to 16 bits, written at
/// the effective address.
pub open spec fn st_halfword_s(c: CpuSnapshot, m: MemSnapshot, instr: u16) -> Result<
    (CpuSnapshot, MemSnapshot),
    EmuError,
> {
    match read16_s(m, c.pc) {
        Ok(h) => {
            let c1 = CpuSnapshot { pc: w_add(c.pc, 2), ..c };
            match write16_s(m, effective_addr(c, instr, h), c.gprs[reg2_of(instr)] as u16) {
                Ok(m2) => Ok((c1, m2)),
                Err(e) => Err(e),
            }
        },
        Err(e) => Err(e),
    }
}

/// Word store: the source register written verbatim at the effective
/// address.
pub open spec fn st_word_s(c: CpuSnapshot, m: MemSnapshot, instr: u16) -> Result<
    (CpuSnapshot, MemSnapshot),
    EmuError,
> {
    match read16_s(m, c.pc) {
        Ok(h) => {
            let c1 = CpuSnapshot { pc: w_add(c.pc, 2), ..c };
            match write32_s(m, effective_addr(c, instr, h), c.gprs[reg2_of(instr)]) {
                Ok(m2) => Ok((c1, m2)),
                Err(e) => Err(e),
            }
        },
        Err(e) => Err(e),
    }
}

impl Cpu {
    /// Load a sign-extended byte from base register plus sign-extended
    /// trailing displacement.
    pub fn ld_byte(&mut self, bus: &Bus, instr: u16) -> (r: Result<(), EmuError>)
        requires
            old(self).wf(),
            bus.wf(),
        ensures
            final(self).wf(),
            match ld_byte_s(old(self)@, bus@, instr) {
                Ok(c2) => r is Ok && final(self)@ == c2,
                Err(e) => r == Err::<(), EmuError>(e) && fault_state(old(self)@, final(self)@),
            },
    {
        let reg1_index = instr as usize % 32;
        let reg2_index = (instr as usize / 32) % 32;
        let offset = match self.consume_halfword(bus) {
            Ok(h) => crate::arith::sign_extend_16(h),
            Err(e) => {
                return Err(e);
            },
        };
        let addr = self.regs.gprs[reg1_index].wrapping_add(offset);
        let b = match bus.read8(addr) {
            Ok(b) => b,
            Err(e) => {
                return Err(e);
            },
        };
        self.regs.gprs[reg2_index] = sign_extend_8(b);
        Ok(())
    }

    /// Load a sign-extended halfword from base register plus sign-extended
    /// trailing displacement.
    pub fn ld_halfword(&mut self, bus: &Bus, instr: u16) -> (r: Result<(), EmuError>)
        requires
            old(self).wf(),
            bus.wf(),
        ensures
            final(self).wf(),
            match ld_halfword_s(old(self)@, bus@, instr) {
                Ok(c2) => r is Ok && final(self)@ == c2,
                Err(e) => r == Err::<(), EmuError>(e) && fault_state(old(self)@, final(self)@),
            },
    {
        let reg1_index = instr as usize % 32;
        let reg2_index = (instr as usize / 32) % 32;
        let offset = match self.consume_halfword(bus) {
            Ok(h) => crate::arith::sign_extend_16(h),
            Err(e) => {
                return Err(e);
            },
        };
        let addr = self.regs.gprs[reg1_index].wrapping_add(offset);
        let v = match bus.read16(addr) {
            Ok(v) => v,
            Err(e) => {
                return Err(e);
            },
        };
        self.regs.gprs[reg2_index] = crate::arith::sign_extend_16(v);
        Ok(())
    }

    /// Load a word verbatim from base register plus sign-extended trailing
    /// displacement.
    pub fn ld_word(&mut self, bus: &Bus, instr: u16) -> (r: Result<(), EmuError>)
        requires
            old(self).wf(),
            bus.wf(),
        ensures
            final(self).wf(),
            match ld_word_s(old(self)@, bus@, instr) {
                Ok(c2) => r is Ok && final(self)@ == c2,
                Err(e) => r == Err::<(), EmuError>(e) && fault_state(old(self)@, final(self)@),
            },
    {
        let reg1_index = instr as usize % 32;
        let reg2_index = (instr as usize / 32) % 32;
        let offset = match self.consume_halfword(bus) {
            Ok(h) => crate::arith::sign_extend_16(h),
            Err(e) => {
                return Err(e);
            },
        };
        let addr = self.regs.gprs[reg1_index].wrapping_add(offset);
        let v = match bus.read32(addr) {
            Ok(v) => v,
            Err(e) => {
                return Err(e);
            },
        };
        self.regs.gprs[reg2_index] = v;
        Ok(())
    }

    /// Store the low byte of the source register at base register plus
    /// sign-extended trailing displacement.
    pub fn st_byte(&mut self, bus: &mut Bus, instr: u16) -> (r: Result<(), EmuError>)
        requires
            old(self).wf(),
            old(bus).wf(),
        ensures
            final(self).wf(),
            final(bus).wf(),
            match st_byte_s(old(self)@, old(bus)@, instr) {
                Ok((c2, m2)) => r is Ok && final(self)@ == c2 && final(bus)@ == m2,
                Err(e) => r == Err::<(), EmuError>(e) && final(bus)@ == old(bus)@ && fault_state(
                    old(self)@,
                    final(self)@,
                ),
            },
    {
        let reg1_index = instr as usize % 32;
        let reg2_index = (instr as usize / 32) % 32;
        let offset = match self.consume_halfword(bus) {
            Ok(h) => crate::arith::sign_extend_16(h),
            Err(e) => {
                return Err(e);
            },
        };
        let addr = self.regs.gprs[reg1_index].wrapping_add(offset);
        match bus.write8(addr, self.regs.gprs[reg2_index] as u8) {
            Ok(()) => Ok(()),
            Err(e) => Err(e),
        }
    }

    /// Store the low halfword of the source register at base register plus
    /// sign-extended trailing displacement.
    pub fn st_halfword(&mut self, bus: &mut Bus, instr: u16) -> (r: Result<(), EmuError>)
        requires
            old(self).wf(),
            old(bus).wf(),
        ensures
            final(self).wf(),
            final(bus).wf(),
            match st_halfword_s(old(self)@, old(bus)@, instr) {
                Ok((c2, m2)) => r is Ok && final(self)@ == c2 && final(bus)@ == m2,
                Err(e) => r == Err::<(), EmuError>(e) && final(bus)@ == old(bus)@ && fault_state(
                    old(self)@,
                    final(self)@,
                ),
            },
    {
        let reg1_index = instr as usize % 32;
        let reg2_index = (instr as usize / 32) % 32;
        let offset = match self.consume_halfword(bus) {
            Ok(h) => crate::arith::sign_extend_16(h),
            Err(e) => {
                return Err(e);
            },
        };
        let addr = self.regs.gprs[reg1_index].wrapping_add(offset);
        match bus.write16(addr, self.regs.gprs[reg2_index] as u16) {
            Ok(()) => Ok(()),
            Err(e) => Err(e),
        }
    }

    /// Store the source register verbatim at base register plus
    /// sign-extended trailing displacement.
    pub fn st_word(&mut self, bus: &mut Bus, instr: u16) -> (r: Result<(), EmuError>)
        requires
            old(self).wf(),
            old(bus).wf(),
        ensures
            final(self).wf(),
            final(bus).wf(),
            match st_word_s(old(self)@, old(bus)@, instr) {
                Ok((c2, m2)) => r is Ok && final(self)@ == c2 && final(bus)@ == m2,
                Err(e) => r == Err::<(), EmuError>(e) && final(bus)@ == old(bus)@ && fault_state(
                    old(self)@,
                    final(self)@,
                ),
            },
    {
        let reg1_index = instr as usize % 32;
        let reg2_index = (instr as usize / 32) % 32;
        let offset = match self.consume_halfword(bus) {
            Ok(h) => crate::arith::sign_extend_16(h),
            Err(e) => {
                return Err(e);
            },
        };
        let addr = self.regs.gprs[reg1_index].wrapping_add(offset);
        match bus.write32(addr, self.regs.gprs[reg2_index]) {
            Ok(()) => Ok(()),
            Err(e) => Err(e),
        }
    }
}

/// Executable byte sign extension, tied to `sext8`.
fn sign_extend_8(b: u8) -> (r: u32)
    ensures
        r == sext8(b),
{
    if b >= 0x80 {
        b as u32 + 0xFFFF_FF00
    } else {
        b as u32
    }
}

} // verus!
