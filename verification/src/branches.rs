//! The branch and jump family. Displacements are relative to the address of
//! the instruction's first byte: by the time a handler runs, the PC has
//! already advanced past the opcode halfword, so the handlers subtract the
//! bytes consumed so far before adding the displacement.

use crate::arith::{sext9, sext26, w_add, w_sub};
use crate::bus::{read16_s, Bus};
use crate::cpu::{cond_of, reg1_of, Cpu, CpuSnapshot};
use crate::errors::EmuError;
use crate::mem::MemSnapshot;
use crate::psw::cond_holds;
use vstd::prelude::*;

verus! {

/// Conditional branch: when the 4-bit condition holds of the flags, the PC
/// moves to the branch's own address plus the sign-extended 9-bit
/// displacement; otherwise it stays at the next sequential instruction.
pub open spec fn bcond_s(c: CpuSnapshot, instr: u16) -> CpuSnapshot {
    if cond_holds(c.psw, cond_of(instr)) {
        CpuSnapshot { pc: w_add(w_sub(c.pc, 2), sext9(instr)), ..c }
    } else {
        c
    }
}

/// Register-indirect jump: the PC becomes the register value with its low
/// bit cleared, forcing halfword alignment.
pub open spec fn jmp_s(c: CpuSnapshot, instr: u16) -> CpuSnapshot {
    CpuSnapshot { pc: ((c.gprs[reg1_of(instr)] / 2) * 2) as u32, ..c }
}

/// The 26-bit sign-extended offset of a long jump: the low 10 bits of the
/// opcode word above one trailing halfword.
pub open spec fn long_jump_offset(instr: u16, h: u16) -> u32 {
    sext26(((instr % 1024) as u32 * 0x1_0000 + h) as u32)
}

/// PC-relative long jump: the target is the jump's own address plus the
/// 26-bit offset, with the low bit cleared. One trailing halfword is
/// consumed; reading it can fault.
pub open spec fn jr_s(c: CpuSnapshot, m: MemSnapshot, instr: u16) -> Result<
    CpuSnapshot,
    EmuError,
> {
    match read16_s(m, c.pc) {
        Ok(h) => {
            let pc2 = w_add(c.pc, 2);
            let target = ((w_add(w_sub(pc2, 4), long_jump_offset(instr, h)) / 2) * 2) as u32;
            Ok(CpuSnapshot { pc: target, ..c })
        },
        Err(e) => Err(e),
    }
}

/// PC-relative long jump with link: as `jr_s`, and the address of the
/// instruction after the jump is stored in the link register, register 31.
pub open spec fn jal_s(c: CpuSnapshot, m: MemSnapshot, instr: u16) -> Result<
    CpuSnapshot,
    EmuError,
> {
    match read16_s(m, c.pc) {
        Ok(h) => {
            let pc2 = w_add(c.pc, 2);
            let target = ((w_add(w_sub(pc2, 4), long_jump_offset(instr, h)) / 2) * 2) as u32;
            Ok(CpuSnapshot { pc: target, gprs: c.gprs.update(31, pc2), ..c })
        },
        Err(e) => Err(e),
    }
}

impl Cpu {
    /// Conditional branch on the 4-bit condition in the opcode word, with a
    /// sign-extended 9-bit displacement relative to the branch's first
    /// byte. Flags are not changed.
    pub fn bcond(&mut self, bus: &mut Bus, instr: u16)
        requires
            old(self).wf(),
        ensures
            final(self).wf(),
            *final(bus) == *old(bus),
            final(self)@ == bcond_s(old(self)@, instr),
    {
        let cond = (instr / 512) % 16;
        if self.regs.psw.satisfies_cond(cond) {
            let offset = sign_extend_9(instr);
            self.regs.pc = self.regs.pc.wrapping_sub(2).wrapping_add(offset);
        }
    }

    /// Register-indirect jump: PC from the first register field, low bit
    /// cleared.
    pub fn jmp(&mut self, bus: &mut Bus, instr: u16)
        requires
            old(self).wf(),
        ensures
            final(self).wf(),
            *final(bus) == *old(bus),
            final(self)@ == jmp_s(old(self)@, instr),
    {
        let reg1_index = instr as usize % 32;
        self.regs.pc = self.regs.gprs[reg1_index] / 2 * 2;
    }

    /// PC-relative long jump: 26-bit sign-extended offset assembled from
    /// the opcode word's low 10 bits and one trailing halfword, relative to
    /// the jump's first byte; the target's low bit is cleared.
    pub fn jr(&mut self, bus: &mut Bus, instr: u16) -> (r: Result<(), EmuError>)
        requires
            old(self).wf(),
            old(bus).wf(),
        ensures
            final(self).wf(),
            *final(bus) == *old(bus),
            match jr_s(old(self)@, old(bus)@, instr) {
                Ok(c2) => r is Ok && final(self)@ == c2,
                Err(e) => r == Err::<(), EmuError>(e) && final(self)@ == old(self)@,
            },
    {
        let h = match self.consume_halfword(bus) {
            Ok(h) => h,
            Err(e) => {
                return Err(e);
            },
        };
        let offset = sign_extend_26(instr as u32 % 1024 * 0x1_0000 + h as u32);
        let addr = self.regs.pc.wrapping_sub(4).wrapping_add(offset) / 2 * 2;
        self.regs.pc = addr;
        Ok(())
    }

    /// PC-relative long jump with link: as `jr`, and the address of the
    /// following instruction is stored in register 31.
    pub fn jal(&mut self, bus: &mut Bus, instr: u16) -> (r: Result<(), EmuError>)
        requires
            old(self).wf(),
            old(bus).wf(),
        ensures
            final(self).wf(),
            *final(bus) == *old(bus),
            match jal_s(old(self)@, old(bus)@, instr) {
                Ok(c2) => r is Ok && final(self)@ == c2,
                Err(e) => r == Err::<(), EmuError>(e) && final(self)@ == old(self)@,
            },
    {
        let h = match self.consume_halfword(bus) {
            Ok(h) => h,
            Err(e) => {
                return Err(e);
            },
        };
        let offset = sign_extend_26(instr as u32 % 1024 * 0x1_0000 + h as u32);
        let addr = self.regs.pc.wrapping_sub(4).wrapping_add(offset) / 2 * 2;
        self.regs.gprs[31] = self.regs.pc;
        self.regs.pc = addr;
        Ok(())
    }
}

/// Executable 9-bit sign extension of the branch displacement, tied to
/// `sext9`.
fn sign_extend_9(instr: u16) -> (r: u32)
    ensures
        r == sext9(instr),
{
    let v = (instr % 512) as u32;
    if v >= 0x100 {
        v + 0xFFFF_FE00
    } else {
        v
    }
}

/// Executable 26-bit sign extension of the long-jump offset, tied to
/// `sext26`.
fn sign_extend_26(v: u32) -> (r: u32)
    ensures
        r == sext26(v),
{
    let w = v % 0x400_0000;
    if w >= 0x200_0000 {
        w + 0xFC00_0000
    } else {
        w
    }
}

} // verus!
