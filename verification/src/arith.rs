//! Two's-complement arithmetic used by the instruction semantics: 32-bit
//! wrapping addition and subtraction, sign extension of the immediate and
//! displacement fields, and the carry/overflow conditions of the ALU.

use vstd::prelude::*;

verus! {

/// The signed value a 32-bit register holds under two's complement.
pub open spec fn s32(a: u32) -> int {
    if a < 0x8000_0000 {
        a as int
    } else {
        a - 0x1_0000_0000
    }
}

/// 32-bit wrapping addition.
pub open spec fn w_add(a: u32, b: u32) -> u32 {
    if a + b > 0xFFFF_FFFF {
        (a + b - 0x1_0000_0000) as u32
    } else {
        (a + b) as u32
    }
}

/// 32-bit wrapping subtraction.
pub open spec fn w_sub(a: u32, b: u32) -> u32 {
    if a >= b {
        (a - b) as u32
    } else {
        (a - b + 0x1_0000_0000) as u32
    }
}

/// 32-bit wrapping negation.
pub open spec fn w_neg(a: u32) -> u32 {
    w_sub(0, a)
}

/// Magnitude of the signed reading of `a`, which always fits in a `u32`
/// (the magnitude of the minimum signed value is `0x8000_0000`).
pub open spec fn abs_u32(a: u32) -> u32 {
    if a < 0x8000_0000 {
        a
    } else {
        w_neg(a)
    }
}

/// Carry condition of `a + b`: the unsigned sum does not fit in 32 bits.
pub open spec fn add_carry(a: u32, b: u32) -> bool {
    a + b > u32::MAX
}

/// Overflow condition of `a + b`: the signed sum does not fit in 32 bits.
pub open spec fn add_overflow(a: u32, b: u32) -> bool {
    s32(a) + s32(b) > i32::MAX || s32(a) + s32(b) < i32::MIN
}

/// Borrow condition of `a - b`: the unsigned difference wraps around.
pub open spec fn sub_borrow(a: u32, b: u32) -> bool {
    b > a
}

/// Overflow condition of `a - b`: the signed difference does not fit in 32
/// bits.
pub open spec fn sub_overflow(a: u32, b: u32) -> bool {
    s32(a) - s32(b) > i32::MAX || s32(a) - s32(b) < i32::MIN
}

/// Sign-extend the low 5 bits of an instruction word to 32 bits.
pub open spec fn sext5(instr: u16) -> u32 {
    let v = (instr % 32) as u32;
    if v >= 0x10 {
        (v + 0xFFFF_FFE0) as u32
    } else {
        v
    }
}

/// Sign-extend the low 9 bits of an instruction word (a conditional-branch
/// displacement) to 32 bits.
pub open spec fn sext9(instr: u16) -> u32 {
    let v = (instr % 512) as u32;
    if v >= 0x100 {
        (v + 0xFFFF_FE00) as u32
    } else {
        v
    }
}

/// Sign-extend a byte to 32 bits.
pub open spec fn sext8(b: u8) -> u32 {
    if b >= 0x80 {
        (b + 0xFFFF_FF00) as u32
    } else {
        b as u32
    }
}

/// Sign-extend a halfword to 32 bits.
pub open spec fn sext16(h: u16) -> u32 {
    if h >= 0x8000 {
        (h + 0xFFFF_0000) as u32
    } else {
        h as u32
    }
}

/// Sign-extend the low 26 bits of a long-jump offset to 32 bits.
pub open spec fn sext26(v: u32) -> u32 {
    let w = v % 0x400_0000;
    if w >= 0x200_0000 {
        (w + 0xFC00_0000) as u32
    } else {
        w
    }
}

/// Truncated (toward zero) signed division of `a` by `b`, wrapped to 32
/// bits: the magnitude quotient with the sign of the operands applied. For
/// the minimum signed value divided by minus one the true quotient does not
/// fit and the result wraps back to the minimum signed value.
pub open spec fn sdiv_wrapped(a: u32, b: u32) -> u32
    recommends
        b != 0,
{
    let qa = (abs_u32(a) as int / abs_u32(b) as int) as u32;
    if (a < 0x8000_0000) != (b < 0x8000_0000) {
        w_neg(qa)
    } else {
        qa
    }
}

/// The exact signed product of the two registers' signed readings.
pub open spec fn sprod(a: u32, b: u32) -> int {
    s32(a) * s32(b)
}

/// Low 32 bits of the two's-complement encoding of the signed product.
pub open spec fn mul_lo(a: u32, b: u32) -> u32 {
    (sprod(a, b) % 0x1_0000_0000) as u32
}

/// High 32 bits of the 64-bit two's-complement encoding of the signed
/// product.
pub open spec fn mul_hi(a: u32, b: u32) -> u32 {
    ((sprod(a, b) % 0x1_0000_0000_0000_0000) / 0x1_0000_0000) as u32
}

/// Executable sign extension of a halfword, tied to `sext16`.
pub fn sign_extend_16(h: u16) -> (r: u32)
    ensures
        r == sext16(h),
{
    if h >= 0x8000 {
        h as u32 + 0xFFFF_0000
    } else {
        h as u32
    }
}

/// The wrapped sum is below the first operand exactly when the unsigned sum
/// carried out of 32 bits, and the executable sign test of the operands and
/// the result detects exactly the signed overflow condition.
pub proof fn lemma_add_flags(a: u32, b: u32)
    ensures
        (w_add(a, b) < a) <==> add_carry(a, b),
        ((a < 0x8000_0000) == (b < 0x8000_0000) && (w_add(a, b) < 0x8000_0000) != (a
            < 0x8000_0000)) <==> add_overflow(a, b),
{
    if a + b > u32::MAX {
        assert(w_add(a, b) == a + b - 0x1_0000_0000);
    } else {
        assert(w_add(a, b) == a + b);
    }
}

/// The executable sign test of the operands and the result of a wrapping
/// subtraction detects exactly the signed overflow condition.
pub proof fn lemma_sub_flags(a: u32, b: u32)
    ensures
        ((a < 0x8000_0000) != (b < 0x8000_0000) && (w_sub(a, b) < 0x8000_0000) != (a
            < 0x8000_0000)) <==> sub_overflow(a, b),
{
    if a >= b {
        assert(w_sub(a, b) == a - b);
    } else {
        assert(w_sub(a, b) == a - b + 0x1_0000_0000);
    }
}

} // verus!
