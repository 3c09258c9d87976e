//! The ALU instruction family. All arithmetic is 32-bit; ADD and CMP set
//! all four arithmetic flags, the logical immediates zero-extend their
//! operand and clear overflow, DIV runs a signed division with an explicit
//! divide-by-zero fault, and MUL forms the full signed 64-bit product
//! without touching the flags.

use crate::arith::{
    abs_u32, add_carry, add_overflow, lemma_add_flags, lemma_sub_flags, mul_hi, mul_lo, s32,
    sdiv_wrapped, sext5, sext16, sign_extend_16, sprod, sub_borrow, sub_overflow, w_add, w_sub,
};
use crate::bus::{read16_s, Bus};
use crate::cpu::{reg1_of, reg2_of, Cpu, CpuSnapshot};
use crate::errors::EmuError;
use crate::mem::MemSnapshot;
use crate::psw::Psw;
use vstd::arithmetic::div_mod::{lemma_mod_mod, lemma_mul_mod_noop_general};
use vstd::prelude::*;

verus! {

/// The CPU after an ADD of `a` and `b` into register `dst`: the wrapped sum
/// lands in the register, and zero, sign, carry and overflow all describe
/// it.
pub open spec fn alu_add(c: CpuSnapshot, dst: int, a: u32, b: u32) -> CpuSnapshot {
    let res = w_add(a, b);
    CpuSnapshot {
        gprs: c.gprs.update(dst, res),
        psw: (Psw {
            zero: res == 0,
            sign: res >= 0x8000_0000,
            carry: add_carry(a, b),
            overflow: add_overflow(a, b),
            ..c.psw
        }),
        ..c
    }
}

/// The CPU after a compare of `a` against `b`: the difference is discarded
/// and the flags describe it, exactly as a subtraction would set them.
pub open spec fn alu_cmp(c: CpuSnapshot, a: u32, b: u32) -> CpuSnapshot {
    let res = w_sub(a, b);
    CpuSnapshot {
        psw: (Psw {
            zero: res == 0,
            sign: res >= 0x8000_0000,
            carry: sub_borrow(a, b),
            overflow: sub_overflow(a, b),
            ..c.psw
        }),
        ..c
    }
}

/// ADD of the sign-extended 5-bit immediate into the second register field.
pub open spec fn addi_short_s(c: CpuSnapshot, instr: u16) -> CpuSnapshot {
    alu_add(c, reg2_of(instr), c.gprs[reg2_of(instr)], sext5(instr))
}

/// ADD of a sign-extended trailing 16-bit immediate to the first register,
/// into the second.
pub open spec fn addi_long_s(c: CpuSnapshot, m: MemSnapshot, instr: u16) -> Result<
    CpuSnapshot,
    EmuError,
> {
    match read16_s(m, c.pc) {
        Ok(h) => {
            let c1 = CpuSnapshot { pc: w_add(c.pc, 2), ..c };
            Ok(alu_add(c1, reg2_of(instr), c1.gprs[reg1_of(instr)], sext16(h)))
        },
        Err(e) => Err(e),
    }
}

/// Register-register ADD into the second register field.
pub open spec fn add_reg_s(c: CpuSnapshot, instr: u16) -> CpuSnapshot {
    alu_add(c, reg2_of(instr), c.gprs[reg1_of(instr)], c.gprs[reg2_of(instr)])
}

/// AND of a zero-extended trailing immediate: sign and overflow are forced
/// clear, zero follows the result, carry is untouched.
pub open spec fn andi_s(c: CpuSnapshot, m: MemSnapshot, instr: u16) -> Result<
    CpuSnapshot,
    EmuError,
> {
    match read16_s(m, c.pc) {
        Ok(h) => {
            let res = c.gprs[reg1_of(instr)] & h as u32;
            Ok(
                CpuSnapshot {
                    gprs: c.gprs.update(reg2_of(instr), res),
                    pc: w_add(c.pc, 2),
                    psw: (Psw { zero: res == 0, sign: false, overflow: false, ..c.psw }),
                },
            )
        },
        Err(e) => Err(e),
    }
}

/// OR of a zero-extended trailing immediate: overflow is forced clear, sign
/// and zero follow the result, carry is untouched.
pub open spec fn ori_s(c: CpuSnapshot, m: MemSnapshot, instr: u16) -> Result<
    CpuSnapshot,
    EmuError,
> {
    match read16_s(m, c.pc) {
        Ok(h) => {
            let res = c.gprs[reg1_of(instr)] | h as u32;
            Ok(
                CpuSnapshot {
                    gprs: c.gprs.update(reg2_of(instr), res),
                    pc: w_add(c.pc, 2),
                    psw: (Psw {
                        zero: res == 0,
                        sign: res >= 0x8000_0000,
                        overflow: false,
                        ..c.psw
                    }),
                },
            )
        },
        Err(e) => Err(e),
    }
}

/// Compare against the sign-extended 5-bit immediate.
pub open spec fn cmp_imm_s(c: CpuSnapshot, instr: u16) -> CpuSnapshot {
    alu_cmp(c, c.gprs[reg2_of(instr)], sext5(instr))
}

/// Register-register compare.
pub open spec fn cmp_reg_s(c: CpuSnapshot, instr: u16) -> CpuSnapshot {
    alu_cmp(c, c.gprs[reg2_of(instr)], c.gprs[reg1_of(instr)])
}

/// Signed division of the second register by the first: the wrapping
/// quotient lands in the destination, the unsigned remainder in register
/// 30, zero and sign follow the quotient and overflow marks the one
/// overflowing quotient (minimum signed value divided by minus one). A zero
/// divisor is an explicit arithmetic fault.
pub open spec fn div_s(c: CpuSnapshot, instr: u16) -> Result<CpuSnapshot, EmuError> {
    let a = c.gprs[reg2_of(instr)];
    let b = c.gprs[reg1_of(instr)];
    if b == 0 {
        Err(EmuError::DivisionByZero)
    } else {
        let q = sdiv_wrapped(a, b);
        Ok(
            CpuSnapshot {
                gprs: c.gprs.update(30, (a % b) as u32).update(reg2_of(instr), q),
                psw: (Psw {
                    zero: q == 0,
                    sign: q >= 0x8000_0000,
                    overflow: a == 0x8000_0000 && b == 0xFFFF_FFFF,
                    ..c.psw
                }),
                ..c
            },
        )
    }
}

/// Signed 64-bit product of both registers: the low 32 bits land in the
/// destination, the high 32 bits in register 30. The flags are untouched.
pub open spec fn mul_s(c: CpuSnapshot, instr: u16) -> CpuSnapshot {
    let a = c.gprs[reg2_of(instr)];
    let b = c.gprs[reg1_of(instr)];
    CpuSnapshot {
        gprs: c.gprs.update(30, mul_hi(a, b)).update(reg2_of(instr), mul_lo(a, b)),
        ..c
    }
}

impl Cpu {
    /// ADD of the 5-bit sign-extended immediate packed in the opcode word;
    /// destination is the second register field. Sets zero, sign, carry and
    /// overflow.
    pub fn addi_short(&mut self, bus: &mut Bus, instr: u16)
        requires
            old(self).wf(),
        ensures
            final(self).wf(),
            *final(bus) == *old(bus),
            final(self)@ == addi_short_s(old(self)@, instr),
    {
        let reg2_index = (instr as usize / 32) % 32;
        let reg2 = self.regs.gprs[reg2_index];
        let imm = sign_extend_5(instr);
        let res = self.alu_add_exec(reg2, imm);
        self.regs.gprs[reg2_index] = res;
    }

    /// ADD of a sign-extended trailing 16-bit immediate to the first
    /// register field; destination is the second. Sets zero, sign, carry
    /// and overflow.
    pub fn addi_long(&mut self, bus: &mut Bus, instr: u16) -> (r: Result<(), EmuError>)
        requires
            old(self).wf(),
            old(bus).wf(),
        ensures
            final(self).wf(),
            *final(bus) == *old(bus),
            match addi_long_s(old(self)@, old(bus)@, instr) {
                Ok(c2) => r is Ok && final(self)@ == c2,
                Err(e) => r == Err::<(), EmuError>(e) && final(self)@ == old(self)@,
            },
    {
        let reg2_index = (instr as usize / 32) % 32;
        let reg1_index = instr as usize % 32;
        let reg1 = self.regs.gprs[reg1_index];
        let imm = match self.consume_halfword(bus) {
            Ok(h) => sign_extend_16(h),
            Err(e) => {
                return Err(e);
            },
        };
        let res = self.alu_add_exec(reg1, imm);
        self.regs.gprs[reg2_index] = res;
        Ok(())
    }

    /// Register-register ADD; destination is the second register field.
    /// Sets zero, sign, carry and overflow.
    pub fn add_reg(&mut self, bus: &mut Bus, instr: u16)
        requires
            old(self).wf(),
        ensures
            final(self).wf(),
            *final(bus) == *old(bus),
            final(self)@ == add_reg_s(old(self)@, instr),
    {
        let reg2_index = (instr as usize / 32) % 32;
        let reg1_index = instr as usize % 32;
        let reg1 = self.regs.gprs[reg1_index];
        let reg2 = self.regs.gprs[reg2_index];
        let res = self.alu_add_exec(reg1, reg2);
        self.regs.gprs[reg2_index] = res;
    }

    /// AND of a zero-extended (never sign-extended) trailing immediate.
    /// Forces sign and overflow clear and sets zero from the result.
    pub fn andi(&mut self, bus: &mut Bus, instr: u16) -> (r: Result<(), EmuError>)
        requires
            old(self).wf(),
            old(bus).wf(),
        ensures
            final(self).wf(),
            *final(bus) == *old(bus),
            match andi_s(old(self)@, old(bus)@, instr) {
                Ok(c2) => r is Ok && final(self)@ == c2,
                Err(e) => r == Err::<(), EmuError>(e) && final(self)@ == old(self)@,
            },
    {
        let reg1_index = instr as usize % 32;
        let reg2_index = (instr as usize / 32) % 32;
        let imm = match self.consume_halfword(bus) {
            Ok(h) => h,
            Err(e) => {
                return Err(e);
            },
        };
        let reg1 = self.regs.gprs[reg1_index];
        let res = reg1 & imm as u32;
        self.regs.psw.sign = false;
        self.regs.psw.overflow = false;
        self.regs.psw.zero = res == 0;
        self.regs.gprs[reg2_index] = res;
        Ok(())
    }

    /// OR of a zero-extended (never sign-extended) trailing immediate.
    /// Forces overflow clear and sets zero and sign from the result.
    pub fn ori(&mut self, bus: &mut Bus, instr: u16) -> (r: Result<(), EmuError>)
        requires
            old(self).wf(),
            old(bus).wf(),
        ensures
            final(self).wf(),
            *final(bus) == *old(bus),
            match ori_s(old(self)@, old(bus)@, instr) {
                Ok(c2) => r is Ok && final(self)@ == c2,
                Err(e) => r == Err::<(), EmuError>(e) && final(self)@ == old(self)@,
            },
    {
        let reg1_index = instr as usize % 32;
        let reg2_index = (instr as usize / 32) % 32;
        let imm = match self.consume_halfword(bus) {
            Ok(h) => h,
            Err(e) => {
                return Err(e);
            },
        };
        let reg1 = self.regs.gprs[reg1_index];
        let res = reg1 | imm as u32;
        self.regs.psw.overflow = false;
        self.regs.psw.set_sign_and_zero(res);
        self.regs.gprs[reg2_index] = res;
        Ok(())
    }

    /// Compare the second register field against the sign-extended 5-bit
    /// immediate: subtraction flags, result discarded.
    pub fn cmp_imm(&mut self, bus: &mut Bus, instr: u16)
        requires
            old(self).wf(),
        ensures
            final(self).wf(),
            *final(bus) == *old(bus),
            final(self)@ == cmp_imm_s(old(self)@, instr),
    {
        let reg2_index = (instr as usize / 32) % 32;
        let reg2 = self.regs.gprs[reg2_index];
        let imm = sign_extend_5(instr);
        self.alu_cmp_exec(reg2, imm);
    }

    /// Compare the second register field against the first: subtraction
    /// flags, result discarded.
    pub fn cmp_reg(&mut self, bus: &mut Bus, instr: u16)
        requires
            old(self).wf(),
        ensures
            final(self).wf(),
            *final(bus) == *old(bus),
            final(self)@ == cmp_reg_s(old(self)@, instr),
    {
        let reg2_index = (instr as usize / 32) % 32;
        let reg2 = self.regs.gprs[reg2_index];
        let reg1 = self.regs.gprs[instr as usize % 32];
        self.alu_cmp_exec(reg2, reg1);
    }

    /// Signed division: quotient to the destination register, unsigned
    /// remainder to register 30; overflow set only for the minimum signed
    /// value divided by minus one. A zero divisor is an arithmetic fault.
    #[verifier::rlimit(60)]
    pub fn div(&mut self, instr: u16) -> (r: Result<(), EmuError>)
        requires
            old(self).wf(),
        ensures
            final(self).wf(),
            match div_s(old(self)@, instr) {
                Ok(c2) => r is Ok && final(self)@ == c2,
                Err(e) => r == Err::<(), EmuError>(e) && final(self)@ == old(self)@,
            },
    {
        let reg2_index = (instr as usize / 32) % 32;
        let reg1 = self.regs.gprs[instr as usize % 32];
        let reg2 = self.regs.gprs[reg2_index];
        if reg1 == 0 {
            return Err(EmuError::DivisionByZero);
        }
        let overflow = reg2 == 0x8000_0000 && reg1 == 0xFFFF_FFFF;
        let res = sdiv32(reg2, reg1);
        self.regs.gprs[30] = reg2 % reg1;
        self.regs.gprs[reg2_index] = res;
        self.regs.psw.set_sign_and_zero(res);
        self.regs.psw.overflow = overflow;
        Ok(())
    }

    /// Signed 64-bit multiplication: low 32 bits of the product to the
    /// destination register, high 32 bits to register 30. No flags change.
    pub fn mul(&mut self, instr: u16)
        requires
            old(self).wf(),
        ensures
            final(self).wf(),
            final(self)@ == mul_s(old(self)@, instr),
    {
        let reg2_index = (instr as usize / 32) % 32;
        let reg1 = self.regs.gprs[instr as usize % 32];
        let reg2 = self.regs.gprs[reg2_index];
        let a64 = sign_extend_32_64(reg2);
        let b64 = sign_extend_32_64(reg1);
        let prod = a64.wrapping_mul(b64);
        proof {
            let range = 0x1_0000_0000_0000_0000int;
            lemma_mul_mod_noop_general(s32(reg2), s32(reg1), range);
            assert(a64 == s32(reg2) % range && b64 == s32(reg1) % range);
            assert(prod == sprod(reg2, reg1) % range);
            lemma_mod_mod(sprod(reg2, reg1), 0x1_0000_0000int, 0x1_0000_0000int);
            assert((prod % 0x1_0000_0000) as u32 == mul_lo(reg2, reg1));
            assert((prod / 0x1_0000_0000) as u32 == mul_hi(reg2, reg1));
        }
        self.regs.gprs[30] = (prod / 0x1_0000_0000) as u32;
        self.regs.gprs[reg2_index] = (prod % 0x1_0000_0000) as u32;
    }

    /// Wrapped 32-bit addition of `a` and `b`, with all four arithmetic
    /// flags set from it.
    fn alu_add_exec(&mut self, a: u32, b: u32) -> (res: u32)
        ensures
            res == w_add(a, b),
            final(self).regs.gprs == old(self).regs.gprs,
            final(self).regs.pc == old(self).regs.pc,
            final(self).regs.psw == (Psw {
                zero: res == 0,
                sign: res >= 0x8000_0000,
                carry: add_carry(a, b),
                overflow: add_overflow(a, b),
                ..old(self).regs.psw
            }),
    {
        let res = a.wrapping_add(b);
        proof {
            lemma_add_flags(a, b);
        }
        let overflow = (a < 0x8000_0000) == (b < 0x8000_0000) && (res < 0x8000_0000) != (a
            < 0x8000_0000);
        self.regs.psw.set_sign_and_zero(res);
        self.regs.psw.carry = res < a;
        self.regs.psw.overflow = overflow;
        res
    }

    /// Subtraction flags of `a - b`; the difference is discarded.
    fn alu_cmp_exec(&mut self, a: u32, b: u32)
        ensures
            final(self).regs.gprs == old(self).regs.gprs,
            final(self).regs.pc == old(self).regs.pc,
            final(self).regs.psw == (Psw {
                zero: w_sub(a, b) == 0,
                sign: w_sub(a, b) >= 0x8000_0000,
                carry: sub_borrow(a, b),
                overflow: sub_overflow(a, b),
                ..old(self).regs.psw
            }),
    {
        let res = a.wrapping_sub(b);
        proof {
            lemma_sub_flags(a, b);
        }
        let overflow = (a < 0x8000_0000) != (b < 0x8000_0000) && (res < 0x8000_0000) != (a
            < 0x8000_0000);
        self.regs.psw.set_sign_and_zero(res);
        self.regs.psw.carry = b > a;
        self.regs.psw.overflow = overflow;
    }
}

/// Executable truncated signed division on the two's-complement readings,
/// tied to `sdiv_wrapped`: divide the magnitudes, then apply the sign.
fn sdiv32(a: u32, b: u32) -> (r: u32)
    requires
        b != 0,
    ensures
        r == sdiv_wrapped(a, b),
{
    let abs_a = if a >= 0x8000_0000 { 0u32.wrapping_sub(a) } else { a };
    let abs_b = if b >= 0x8000_0000 { 0u32.wrapping_sub(b) } else { b };
    proof {
        assert(abs_a == abs_u32(a));
        assert(abs_b == abs_u32(b));
    }
    let q = abs_a / abs_b;
    if (a >= 0x8000_0000) != (b >= 0x8000_0000) {
        0u32.wrapping_sub(q)
    } else {
        q
    }
}

/// Executable 5-bit sign extension, tied to `sext5`.
fn sign_extend_5(instr: u16) -> (r: u32)
    ensures
        r == sext5(instr),
{
    let v = (instr % 32) as u32;
    if v >= 0x10 {
        v + 0xFFFF_FFE0
    } else {
        v
    }
}

/// Executable 64-bit sign extension of a 32-bit value; the result is the
/// two's-complement encoding of `s32(a)` in 64 bits.
fn sign_extend_32_64(a: u32) -> (r: u64)
    ensures
        r as int % 0x1_0000_0000_0000_0000 == s32(a) % 0x1_0000_0000_0000_0000,
{
    if a >= 0x8000_0000 {
        a as u64 + 0xFFFF_FFFF_0000_0000
    } else {
        a as u64
    }
}

} // verus!
