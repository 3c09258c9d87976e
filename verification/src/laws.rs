//! Machine-wide laws, proved once over the spec-level interpreter: the ADD
//! flag conditions, the register-0 pin after every completed step, ROM
//! mirroring, and the conditional-branch round trip.

use crate::alu::{add_reg_s, alu_add};
use crate::arith::s32;
use crate::branches::bcond_s;
use crate::bus::{masked8, mirrored, read8_s, region, read16_s};
use crate::cpu::{cond_of, opcode_of, reg1_of, reg2_of, step_spec, CpuSnapshot};
use crate::errors::EmuError;
use crate::mem::{mem_wf, MemSnapshot};
use crate::opcodes;
use crate::psw::cond_holds;
use vstd::arithmetic::div_mod::{lemma_mod_mod, lemma_mod_multiples_vanish, lemma_small_mod};
use vstd::arithmetic::mul::{lemma_mul_is_associative, lemma_mul_is_commutative};
use vstd::arithmetic::power2::{lemma_pow2_adds, lemma2_to64, pow2};
use vstd::prelude::*;

verus! {

/// The signed value of a conditional branch's 9-bit displacement field:
/// always between -256 and 255.
pub open spec fn branch_disp(instr: u16) -> int {
    if instr % 512 >= 256 {
        instr % 512 - 512
    } else {
        (instr % 512) as int
    }
}

/// For all 32-bit `a` and `b`, an ADD of `a` and `b` (this one spec
/// function is behind every ADD form: register, short immediate and long
/// immediate) leaves in the destination the wrapped sum and sets carry
/// exactly when the unsigned sum exceeds the 32-bit unsigned range,
/// overflow exactly when the signed sum exceeds the 32-bit signed range,
/// zero exactly when the result is zero, and sign exactly when bit 31 of
/// the result is set.
pub proof fn lemma_add_flags_law(c: CpuSnapshot, dst: int, a: u32, b: u32)
    requires
        c.gprs.len() == 32,
        0 <= dst < 32,
    ensures
        ({
            let c2 = alu_add(c, dst, a, b);
            let res = c2.gprs[dst];
            &&& res == (a + b) % 0x1_0000_0000
            &&& c2.psw.carry <==> a + b > u32::MAX
            &&& c2.psw.overflow <==> (s32(a) + s32(b) > i32::MAX || s32(a) + s32(b) < i32::MIN)
            &&& c2.psw.zero <==> res == 0
            &&& c2.psw.sign <==> res >= 0x8000_0000
        }),
{
    if a + b > u32::MAX {
        assert((a + b) % 0x1_0000_0000 == a + b - 0x1_0000_0000) by {
            lemma_mod_multiples_vanish(-1, a + b, 0x1_0000_0000);
        }
    } else {
        assert((a + b) % 0x1_0000_0000 == a + b);
    }
}

/// The register-register ADD instruction is one instance of the ADD flag
/// law: its operands are the two register fields and its destination the
/// second.
pub proof fn lemma_add_reg_flags(c: CpuSnapshot, instr: u16)
    requires
        c.gprs.len() == 32,
    ensures
        ({
            let a = c.gprs[reg1_of(instr)];
            let b = c.gprs[reg2_of(instr)];
            let c2 = add_reg_s(c, instr);
            let res = c2.gprs[reg2_of(instr)];
            &&& res == (a + b) % 0x1_0000_0000
            &&& c2.psw.carry <==> a + b > u32::MAX
            &&& c2.psw.overflow <==> (s32(a) + s32(b) > i32::MAX || s32(a) + s32(b) < i32::MIN)
            &&& c2.psw.zero <==> res == 0
            &&& c2.psw.sign <==> res >= 0x8000_0000
        }),
{
    lemma_add_flags_law(c, reg2_of(instr), c.gprs[reg1_of(instr)], c.gprs[reg2_of(instr)]);
}

/// Register 0 reads back as zero after any completed step, whatever the
/// decoded instruction wrote to it along the way.
pub proof fn lemma_reg0_after_step(c: CpuSnapshot, m: MemSnapshot)
    requires
        c.gprs.len() == 32,
    ensures
        step_spec(c, m) matches Ok(r) ==> r.0.gprs[0] == 0,
{
}

/// ROM mirroring: two addresses that both resolve to the ROM region and
/// differ by an integer multiple of the ROM size read the same byte,
/// because the mirroring mask reduces both to the same offset within the
/// image.
pub proof fn lemma_rom_mirroring(m: MemSnapshot, x: u32, y: u32, k: nat)
    requires
        mem_wf(m),
        region(masked8(x)) == 7,
        region(masked8(y)) == 7,
        y == x + k * m.rom.len(),
    ensures
        read8_s(m, x) == read8_s(m, y),
{
    let len = m.rom.len() as int;
    let e = choose|e: nat| e < usize::BITS && m.rom.len() == pow2(e);
    lemma2_to64();
    if e <= 27 {
        let f = (27 - e) as nat;
        lemma_pow2_adds(e, f);
        assert(pow2(e) * pow2(f) == 0x0800_0000);
        lemma_mod_mod(x as int, len, pow2(f) as int);
        lemma_mod_mod(y as int, len, pow2(f) as int);
        assert((x as int % 0x0800_0000) % len == x as int % len);
        assert((y as int % 0x0800_0000) % len == y as int % len);
        lemma_mod_multiples_vanish(k as int, x as int, len);
        assert(y as int % len == x as int % len);
        assert(masked8(x) as int % len == masked8(y) as int % len);
        assert(mirrored(m.rom, len, masked8(x), 0) == mirrored(m.rom, len, masked8(y), 0));
    } else {
        let g = (e - 27) as nat;
        lemma_pow2_adds(27, g);
        assert(len == 0x0800_0000 * pow2(g));
        lemma_mul_is_commutative(k as int, 0x0800_0000 * pow2(g) as int);
        lemma_mul_is_associative(0x0800_0000, pow2(g) as int, k as int);
        assert(k * len == 0x0800_0000 * (pow2(g) * k));
        lemma_mod_multiples_vanish((pow2(g) * k) as int, x as int, 0x0800_0000);
        assert(y as int % 0x0800_0000 == x as int % 0x0800_0000);
        assert(masked8(x) == masked8(y));
    }
}

/// Conditional-branch round trip: with the branch instruction's first byte
/// at address `A` (the PC before the step) and signed displacement `d`
/// between -256 and 255, a step fetching that instruction completes, and
/// the PC lands on `A + d` (modulo the 32-bit range) when the condition
/// holds and on `A + 2` when it does not. Memory is untouched either way.
#[verifier::rlimit(60)]
pub proof fn lemma_branch_round_trip(c: CpuSnapshot, m: MemSnapshot, instr: u16)
    requires
        c.gprs.len() == 32,
        read16_s(m, c.pc) == Ok::<u16, EmuError>(instr),
        opcodes::BCOND_START <= opcode_of(instr),
        opcode_of(instr) <= opcodes::BCOND_END,
    ensures
        -256 <= branch_disp(instr) <= 255,
        step_spec(c, m) matches Ok(r) ==> r.1 == m,
        step_spec(c, m) matches Ok(r) ==> {
            &&& cond_holds(c.psw, cond_of(instr)) ==> r.0.pc == (c.pc + branch_disp(instr) + 0x1_0000_0000) % 0x1_0000_0000
            &&& !cond_holds(c.psw, cond_of(instr)) ==> r.0.pc == (c.pc + 2) % 0x1_0000_0000
        },
        step_spec(c, m) is Ok,
{
    let d = branch_disp(instr);
    let range = 0x1_0000_0000int;
    let pc1 = crate::arith::w_add(c.pc, 2);
    let c1 = CpuSnapshot { pc: pc1, ..c };
    let c2 = bcond_s(c1, instr);
    assert(crate::cpu::dispatch_s(c1, m, instr, c.pc) == Ok::<(CpuSnapshot, MemSnapshot), EmuError>((c2, m)));
    let cr = CpuSnapshot { gprs: c2.gprs.update(0, 0u32), ..c2 };
    assert(step_spec(c, m) == Ok::<(CpuSnapshot, MemSnapshot), EmuError>((cr, m)));
    if cond_holds(c.psw, cond_of(instr)) {
        let s = crate::arith::sext9(instr);
        assert(crate::arith::w_sub(pc1, 2) == c.pc);
        let t = crate::arith::w_add(c.pc, s);
        assert(c2.pc == t);
        assert(t == c.pc + d || t == c.pc + d + range || t == c.pc + d - range);
        lemma_small_mod(t as nat, range as nat);
        if t == c.pc + d {
            lemma_mod_multiples_vanish(1, t as int, range);
        } else if t == c.pc + d + range {
        } else {
            lemma_mod_multiples_vanish(2, t as int, range);
        }
        assert(t == (c.pc + d + range) % range);
    } else {
        assert(c2.pc == pc1);
        lemma_small_mod(pc1 as nat, range as nat);
        if c.pc + 2 < range {
            assert(pc1 == c.pc + 2);
        } else {
            lemma_mod_multiples_vanish(1, pc1 as int, range);
            assert(pc1 == c.pc + 2 - range);
        }
        assert(pc1 == (c.pc + 2) % range);
    }
}

} // verus!
