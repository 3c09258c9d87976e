//! The register-transfer family: the MOV forms, the upper-halfword loader,
//! the effective-address adder, and the write-system-register instruction.
//! None of them touches the arithmetic flags; the system-register write can
//! overwrite the whole status word.

use crate::arith::{sext5, sext16, w_add};
use crate::bus::{read16_s, Bus};
use crate::cpu::{reg1_of, reg2_of, Cpu, CpuSnapshot};
use crate::errors::EmuError;
use crate::mem::MemSnapshot;
use crate::psw::psw_from_raw;
use vstd::prelude::*;

verus! {

/// System-register id of the status word.
pub const SYSREG_PSW: u16 = 5;

/// System-register id of the cache-control stub: writes are accepted and
/// discarded.
pub const SYSREG_CHCW: u16 = 24;

/// Load the trailing halfword shifted into the upper 16 bits, added to the
/// first register, into the second.
pub open spec fn movhi_s(c: CpuSnapshot, m: MemSnapshot, instr: u16) -> Result<
    CpuSnapshot,
    EmuError,
> {
    match read16_s(m, c.pc) {
        Ok(h) => Ok(
            CpuSnapshot {
                gprs: c.gprs.update(
                    reg2_of(instr),
                    w_add(c.gprs[reg1_of(instr)], (h * 0x1_0000) as u32),
                ),
                pc: w_add(c.pc, 2),
                ..c
            },
        ),
        Err(e) => Err(e),
    }
}

/// Add the sign-extended trailing halfword to the first register, into the
/// second.
pub open spec fn movea_s(c: CpuSnapshot, m: MemSnapshot, instr: u16) -> Result<
    CpuSnapshot,
    EmuError,
> {
    match read16_s(m, c.pc) {
        Ok(h) => Ok(
            CpuSnapshot {
                gprs: c.gprs.update(
                    reg2_of(instr),
                    w_add(c.gprs[reg1_of(instr)], sext16(h)),
                ),
                pc: w_add(c.pc, 2),
                ..c
            },
        ),
        Err(e) => Err(e),
    }
}

/// Move the sign-extended 5-bit immediate into the second register field.
pub open spec fn mov_imm_s(c: CpuSnapshot, instr: u16) -> CpuSnapshot {
    CpuSnapshot { gprs: c.gprs.update(reg2_of(instr), sext5(instr)), ..c }
}

/// Copy the first register into the second.
pub open spec fn mov_reg_s(c: CpuSnapshot, instr: u16) -> CpuSnapshot {
    CpuSnapshot { gprs: c.gprs.update(reg2_of(instr), c.gprs[reg1_of(instr)]), ..c }
}

/// Write a register into the system register selected by the 5-bit id: the
/// status word takes a full raw overwrite, the cache-control stub accepts
/// and discards the value, and any other id is fatal.
pub open spec fn ldsr_s(c: CpuSnapshot, instr: u16) -> Result<CpuSnapshot, EmuError> {
    let id = (instr % 32) as u16;
    if id == SYSREG_PSW {
        Ok(CpuSnapshot { psw: psw_from_raw(c.gprs[reg2_of(instr)]), ..c })
    } else if id == SYSREG_CHCW {
        Ok(c)
    } else {
        Err(EmuError::UnimplementedSystemRegister { id })
    }
}

impl Cpu {
    /// Load the trailing halfword into the upper 16 bits: second register
    /// becomes first register plus immediate shifted left by 16.
    pub fn movhi(&mut self, bus: &mut Bus, instr: u16) -> (r: Result<(), EmuError>)
        requires
            old(self).wf(),
            old(bus).wf(),
        ensures
            final(self).wf(),
            *final(bus) == *old(bus),
            match movhi_s(old(self)@, old(bus)@, instr) {
                Ok(c2) => r is Ok && final(self)@ == c2,
                Err(e) => r == Err::<(), EmuError>(e) && final(self)@ == old(self)@,
            },
    {
        let reg1_index = instr as usize % 32;
        let reg2_index = (instr as usize / 32) % 32;
        let offset = match self.consume_halfword(bus) {
            Ok(h) => h as u32 * 0x1_0000,
            Err(e) => {
                return Err(e);
            },
        };
        self.regs.gprs[reg2_index] = self.regs.gprs[reg1_index].wrapping_add(offset);
        Ok(())
    }

    /// Add the sign-extended trailing halfword to the first register, into
    /// the second.
    pub fn movea(&mut self, bus: &mut Bus, instr: u16) -> (r: Result<(), EmuError>)
        requires
            old(self).wf(),
            old(bus).wf(),
        ensures
            final(self).wf(),
            *final(bus) == *old(bus),
            match movea_s(old(self)@, old(bus)@, instr) {
                Ok(c2) => r is Ok && final(self)@ == c2,
                Err(e) => r == Err::<(), EmuError>(e) && final(self)@ == old(self)@,
            },
    {
        let reg1_index = instr as usize % 32;
        let reg2_index = (instr as usize / 32) % 32;
        let offset = match self.consume_halfword(bus) {
            Ok(h) => crate::arith::sign_extend_16(h),
            Err(e) => {
                return Err(e);
            },
        };
        self.regs.gprs[reg2_index] = self.regs.gprs[reg1_index].wrapping_add(offset);
        Ok(())
    }

    /// Move the sign-extended 5-bit immediate into the second register
    /// field.
    pub fn mov_imm(&mut self, bus: &mut Bus, instr: u16)
        requires
            old(self).wf(),
        ensures
            final(self).wf(),
            *final(bus) == *old(bus),
            final(self)@ == mov_imm_s(old(self)@, instr),
    {
        let reg2_index = (instr as usize / 32) % 32;
        let v = (instr as u32) % 32;
        let imm = if v >= 0x10 {
            v + 0xFFFF_FFE0
        } else {
            v
        };
        self.regs.gprs[reg2_index] = imm;
    }

    /// Copy the first register into the second.
    pub fn mov_reg(&mut self, bus: &mut Bus, instr: u16)
        requires
            old(self).wf(),
        ensures
            final(self).wf(),
            *final(bus) == *old(bus),
            final(self)@ == mov_reg_s(old(self)@, instr),
    {
        let reg2_index = (instr as usize / 32) % 32;
        let reg1_index = instr as usize % 32;
        self.regs.gprs[reg2_index] = self.regs.gprs[reg1_index];
    }

    /// Write the second register field into the system register selected
    /// by the 5-bit id: a raw overwrite of the status word, an inert
    /// accept for the cache-control stub, and a fatal error otherwise.
    pub fn ldsr(&mut self, bus: &mut Bus, instr: u16) -> (r: Result<(), EmuError>)
        requires
            old(self).wf(),
        ensures
            final(self).wf(),
            *final(bus) == *old(bus),
            match ldsr_s(old(self)@, instr) {
                Ok(c2) => r is Ok && final(self)@ == c2,
                Err(e) => r == Err::<(), EmuError>(e) && final(self)@ == old(self)@,
            },
    {
        let system_reg_id = instr % 32;
        let reg2_index = (instr as usize / 32) % 32;
        let reg2 = self.regs.gprs[reg2_index];
        if system_reg_id == SYSREG_PSW {
            self.regs.psw.set_raw(reg2);
            Ok(())
        } else if system_reg_id == SYSREG_CHCW {
            Ok(())
        } else {
            Err(EmuError::UnimplementedSystemRegister { id: system_reg_id })
        }
    }
}

} // verus!
