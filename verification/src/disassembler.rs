//! The textual disassembler: a debug aid off the execution hot path. Each
//! routine renders one instruction as a mnemonic string; its contract
//! gives the exact character sequence. Routines that show a trailing
//! immediate read it through the bus at the current PC without consuming
//! it, so they can fault like any other bus read.

use crate::arith::{sext5, sext9, sext16, w_add, w_sub};
use crate::bus::{read16_s, Bus};
use crate::cpu::{cond_of, opcode_of, reg1_of, reg2_of, Cpu, CpuSnapshot};
use crate::errors::EmuError;
use crate::mem::MemSnapshot;
use crate::opcodes;
use vstd::prelude::*;
use vstd::string::StringExecFns;

verus! {

/// Decimal digits of a register index below 32.
pub open spec fn dec_u5(i: int) -> Seq<char> {
    if i == 0 {
        "0"@
    } else if i == 1 {
        "1"@
    } else if i == 2 {
        "2"@
    } else if i == 3 {
        "3"@
    } else if i == 4 {
        "4"@
    } else if i == 5 {
        "5"@
    } else if i == 6 {
        "6"@
    } else if i == 7 {
        "7"@
    } else if i == 8 {
        "8"@
    } else if i == 9 {
        "9"@
    } else if i == 10 {
        "10"@
    } else if i == 11 {
        "11"@
    } else if i == 12 {
        "12"@
    } else if i == 13 {
        "13"@
    } else if i == 14 {
        "14"@
    } else if i == 15 {
        "15"@
    } else if i == 16 {
        "16"@
    } else if i == 17 {
        "17"@
    } else if i == 18 {
        "18"@
    } else if i == 19 {
        "19"@
    } else if i == 20 {
        "20"@
    } else if i == 21 {
        "21"@
    } else if i == 22 {
        "22"@
    } else if i == 23 {
        "23"@
    } else if i == 24 {
        "24"@
    } else if i == 25 {
        "25"@
    } else if i == 26 {
        "26"@
    } else if i == 27 {
        "27"@
    } else if i == 28 {
        "28"@
    } else if i == 29 {
        "29"@
    } else if i == 30 {
        "30"@
    } else {
        "31"@
    }
}

/// One uppercase hexadecimal digit.
pub open spec fn hex_digit(d: int) -> Seq<char> {
    if d == 0 {
        "0"@
    } else if d == 1 {
        "1"@
    } else if d == 2 {
        "2"@
    } else if d == 3 {
        "3"@
    } else if d == 4 {
        "4"@
    } else if d == 5 {
        "5"@
    } else if d == 6 {
        "6"@
    } else if d == 7 {
        "7"@
    } else if d == 8 {
        "8"@
    } else if d == 9 {
        "9"@
    } else if d == 10 {
        "A"@
    } else if d == 11 {
        "B"@
    } else if d == 12 {
        "C"@
    } else if d == 13 {
        "D"@
    } else if d == 14 {
        "E"@
    } else {
        "F"@
    }
}

/// Eight uppercase hexadecimal digits of a 32-bit value, most significant
/// first.
pub open spec fn hex8(v: u32) -> Seq<char> {
    hex_digit(((v / 0x1000_0000) % 16) as int) + hex_digit(((v / 0x100_0000) % 16) as int)
        + hex_digit(((v / 0x10_0000) % 16) as int) + hex_digit(((v / 0x1_0000) % 16) as int)
        + hex_digit(((v / 0x1000) % 16) as int) + hex_digit(((v / 0x100) % 16) as int) + hex_digit(
        ((v / 0x10) % 16) as int,
    ) + hex_digit((v % 16) as int)
}

/// The branch mnemonic of a 4-bit condition code.
pub open spec fn bcond_mnemonic(cond: int) -> Seq<char> {
    if cond == 0 {
        "bv"@
    } else if cond == 1 {
        "bc"@
    } else if cond == 2 {
        "be"@
    } else if cond == 3 {
        "bnh"@
    } else if cond == 4 {
        "bn"@
    } else if cond == 5 {
        "br"@
    } else if cond == 6 {
        "blt"@
    } else if cond == 7 {
        "ble"@
    } else if cond == 8 {
        "bnv"@
    } else if cond == 9 {
        "bnc"@
    } else if cond == 10 {
        "bne"@
    } else if cond == 11 {
        "bh"@
    } else if cond == 12 {
        "bp"@
    } else if cond == 13 {
        "nop"@
    } else if cond == 14 {
        "bge"@
    } else {
        "bgt"@
    }
}

/// Decimal text of a register index.
fn reg_str(i: u16) -> (r: &'static str)
    requires
        i < 32,
    ensures
        r@ == dec_u5(i as int),
{
    match i {
        0 => "0",
        1 => "1",
        2 => "2",
        3 => "3",
        4 => "4",
        5 => "5",
        6 => "6",
        7 => "7",
        8 => "8",
        9 => "9",
        10 => "10",
        11 => "11",
        12 => "12",
        13 => "13",
        14 => "14",
        15 => "15",
        16 => "16",
        17 => "17",
        18 => "18",
        19 => "19",
        20 => "20",
        21 => "21",
        22 => "22",
        23 => "23",
        24 => "24",
        25 => "25",
        26 => "26",
        27 => "27",
        28 => "28",
        29 => "29",
        30 => "30",
        _ => "31",
    }
}

/// Text of one uppercase hexadecimal digit.
fn hex_digit_str(d: u32) -> (r: &'static str)
    requires
        d < 16,
    ensures
        r@ == hex_digit(d as int),
{
    match d {
        0 => "0",
        1 => "1",
        2 => "2",
        3 => "3",
        4 => "4",
        5 => "5",
        6 => "6",
        7 => "7",
        8 => "8",
        9 => "9",
        10 => "A",
        11 => "B",
        12 => "C",
        13 => "D",
        14 => "E",
        _ => "F",
    }
}

/// Render a 32-bit value as eight uppercase hexadecimal digits.
fn hex8_string(v: u32) -> (r: String)
    ensures
        r@ == hex8(v),
{
    let mut s = String::new();
    s.append(hex_digit_str((v / 0x1000_0000) % 16));
    s.append(hex_digit_str((v / 0x100_0000) % 16));
    s.append(hex_digit_str((v / 0x10_0000) % 16));
    s.append(hex_digit_str((v / 0x1_0000) % 16));
    s.append(hex_digit_str((v / 0x1000) % 16));
    s.append(hex_digit_str((v / 0x100) % 16));
    s.append(hex_digit_str((v / 0x10) % 16));
    s.append(hex_digit_str(v % 16));
    proof {
        assert(s@ =~= hex8(v));
    }
    s
}

/// Mnemonic of a move-immediate: the shown immediate is the sign-extended
/// halfword read at `at`.
pub open spec fn disasm_mov_imm(m: MemSnapshot, at: u32, instr: u16) -> Result<
    Seq<char>,
    EmuError,
> {
    match read16_s(m, at) {
        Ok(h) => Ok("mov r"@ + dec_u5(reg2_of(instr)) + ", 0x"@ + hex8(sext16(h))),
        Err(e) => Err(e),
    }
}

/// Mnemonic of a register-register move.
pub open spec fn disasm_mov_reg(instr: u16) -> Seq<char> {
    "mov r"@ + dec_u5(reg2_of(instr)) + ", r"@ + dec_u5(reg1_of(instr))
}

/// Mnemonic of the effective-address adder, with its sign-extended
/// trailing immediate read at `at`.
pub open spec fn disasm_movea(m: MemSnapshot, at: u32, instr: u16) -> Result<
    Seq<char>,
    EmuError,
> {
    match read16_s(m, at) {
        Ok(h) => Ok(
            "movea r"@ + dec_u5(reg2_of(instr)) + ", r"@ + dec_u5(reg1_of(instr)) + " + 0x"@
                + hex8(sext16(h)),
        ),
        Err(e) => Err(e),
    }
}

/// Mnemonic of the upper-halfword loader, with its trailing immediate
/// shown shifted into the upper 16 bits.
pub open spec fn disasm_movhi(m: MemSnapshot, at: u32, instr: u16) -> Result<
    Seq<char>,
    EmuError,
> {
    match read16_s(m, at) {
        Ok(h) => Ok(
            "movhi r"@ + dec_u5(reg2_of(instr)) + ", r"@ + dec_u5(reg1_of(instr)) + " + 0x"@
                + hex8((h * 0x1_0000) as u32),
        ),
        Err(e) => Err(e),
    }
}

/// Mnemonic of the long-immediate ADD, with its sign-extended trailing
/// immediate read at `at`.
pub open spec fn disasm_add_imm(m: MemSnapshot, at: u32, instr: u16) -> Result<
    Seq<char>,
    EmuError,
> {
    match read16_s(m, at) {
        Ok(h) => Ok("add r"@ + dec_u5(reg2_of(instr)) + ", 0x"@ + hex8(sext16(h))),
        Err(e) => Err(e),
    }
}

/// Mnemonic of the register-register ADD.
pub open spec fn disasm_add_reg(instr: u16) -> Seq<char> {
    "add r"@ + dec_u5(reg2_of(instr)) + ", r"@ + dec_u5(reg1_of(instr))
}

/// Mnemonic of the short-immediate ADD, with its sign-extended 5-bit
/// immediate.
pub open spec fn disasm_addi_short(instr: u16) -> Seq<char> {
    "addi r"@ + dec_u5(reg2_of(instr)) + ", 0x"@ + hex8(sext5(instr))
}

/// Mnemonic of the register-register compare.
pub open spec fn disasm_cmp_reg(instr: u16) -> Seq<char> {
    "cmp r"@ + dec_u5(reg2_of(instr)) + ", r"@ + dec_u5(reg1_of(instr))
}

/// Mnemonic of a conditional branch: the condition's name and the branch
/// target computed from `pc`.
pub open spec fn disasm_bcond(pc: u32, instr: u16) -> Seq<char> {
    bcond_mnemonic(cond_of(instr) as int) + " "@ + hex8(w_add(w_sub(pc, 2), sext9(instr)))
}

/// Mnemonic of the register-indirect jump.
pub open spec fn disasm_jmp(instr: u16) -> Seq<char> {
    "jmp r"@ + dec_u5(reg1_of(instr))
}

/// Mnemonic of the PC-relative long jump, with the target computed from
/// `at` and the trailing halfword read there.
pub open spec fn disasm_jr(m: MemSnapshot, at: u32, instr: u16) -> Result<Seq<char>, EmuError> {
    match read16_s(m, at) {
        Ok(h) => Ok(
            "jr "@ + hex8(
                ((w_add(w_sub(at, 2), crate::branches::long_jump_offset(instr, h)) / 2) * 2) as u32,
            ),
        ),
        Err(e) => Err(e),
    }
}

/// Mnemonic of a load, with the width suffix and the sign-extended
/// displacement read at `at`.
pub open spec fn disasm_ld(m: MemSnapshot, at: u32, instr: u16, sfx: Seq<char>) -> Result<
    Seq<char>,
    EmuError,
> {
    match read16_s(m, at) {
        Ok(h) => Ok(
            "ld."@ + sfx + " r"@ + dec_u5(reg2_of(instr)) + ", [r"@ + dec_u5(reg1_of(instr))
                + " + "@ + hex8(sext16(h)) + "]"@,
        ),
        Err(e) => Err(e),
    }
}

/// Mnemonic of a store, with the width suffix and the sign-extended
/// displacement read at `at`.
pub open spec fn disasm_st(m: MemSnapshot, at: u32, instr: u16, sfx: Seq<char>) -> Result<
    Seq<char>,
    EmuError,
> {
    match read16_s(m, at) {
        Ok(h) => Ok(
            "st."@ + sfx + " r"@ + dec_u5(reg2_of(instr)) + ", [r"@ + dec_u5(reg1_of(instr))
                + " + "@ + hex8(sext16(h)) + "]"@,
        ),
        Err(e) => Err(e),
    }
}

/// The mnemonic of the instruction `instr`, as the dispatcher renders it:
/// trailing immediates of the move, ADD and long-jump forms are read at
/// the cursor address `pc`; the move-immediate and long-immediate ADD read
/// at the CPU's own PC, matching the tracer's call site. An opcode outside
/// the rendered subset is an error.
pub open spec fn disasm_instr(c: CpuSnapshot, m: MemSnapshot, instr: u16, pc: u32) -> Result<
    Seq<char>,
    EmuError,
> {
    let opcode = opcode_of(instr);
    if opcodes::BCOND_START <= opcode && opcode <= opcodes::BCOND_END {
        Ok(disasm_bcond(pc, instr))
    } else if opcode == opcodes::JMP {
        Ok(disasm_jmp(instr))
    } else if opcode == opcodes::JR {
        disasm_jr(m, pc, instr)
    } else if opcode == opcodes::MOV_IMM {
        disasm_mov_imm(m, c.pc, instr)
    } else if opcode == opcodes::MOV_REG {
        Ok(disasm_mov_reg(instr))
    } else if opcode == opcodes::MOVEA {
        disasm_movea(m, pc, instr)
    } else if opcode == opcodes::MOVHI {
        disasm_movhi(m, pc, instr)
    } else if opcode == opcodes::ADD_REG {
        Ok(disasm_add_reg(instr))
    } else if opcode == opcodes::ADDI_SHORT {
        Ok(disasm_addi_short(instr))
    } else if opcode == opcodes::CMP_REG {
        Ok(disasm_cmp_reg(instr))
    } else if opcode == opcodes::LD_BYTE {
        disasm_ld(m, pc, instr, "b"@)
    } else if opcode == opcodes::ST_BYTE {
        disasm_st(m, pc, instr, "b"@)
    } else if opcode == opcodes::LD_HALFWORD {
        disasm_ld(m, pc, instr, "h"@)
    } else if opcode == opcodes::ST_HALFWORD {
        disasm_st(m, pc, instr, "h"@)
    } else if opcode == opcodes::LD_WORD {
        disasm_ld(m, pc, instr, "w"@)
    } else if opcode == opcodes::ST_WORD {
        disasm_st(m, pc, instr, "w"@)
    } else {
        Err(EmuError::UnimplementedInstruction { opcode, addr: pc })
    }
}

/// The branch mnemonic of a condition code.
fn bcond_mnemonic_str(cond: u16) -> (r: &'static str)
    requires
        cond < 16,
    ensures
        r@ == bcond_mnemonic(cond as int),
{
    match cond {
        0 => "bv",
        1 => "bc",
        2 => "be",
        3 => "bnh",
        4 => "bn",
        5 => "br",
        6 => "blt",
        7 => "ble",
        8 => "bnv",
        9 => "bnc",
        10 => "bne",
        11 => "bh",
        12 => "bp",
        13 => "nop",
        14 => "bge",
        _ => "bgt",
    }
}

/// Render the instruction at the cursor. The top instruction bits decide
/// the form; opcodes outside the rendered subset are reported as
/// unrecognized.
pub fn disassemble(cpu: &Cpu, bus: &Bus, instr: u16, pc: &mut u32) -> (r: Result<String, EmuError>)
    requires
        bus.wf(),
    ensures
        *final(pc) == *old(pc),
        match disasm_instr(cpu@, bus@, instr, *old(pc)) {
            Ok(t) => r matches Ok(s) && s@ == t,
            Err(e) => r == Err::<String, EmuError>(e),
        },
{
    let opcode = instr / 1024;
    match opcode {
        opcodes::BCOND_START..=opcodes::BCOND_END => Ok(disassemble_bcond(cpu, bus, instr, pc)),
        opcodes::JMP => Ok(disassemble_jmp(cpu, bus, instr, pc)),
        opcodes::JR => disassemble_jr(cpu, bus, instr, pc),
        opcodes::MOV_IMM => disassemble_mov_imm(cpu, bus, instr, pc),
        opcodes::MOV_REG => Ok(disassemble_mov_reg(cpu, bus, instr, pc)),
        opcodes::MOVEA => disassemble_movea(cpu, bus, instr, pc),
        opcodes::MOVHI => disassemble_movhi(cpu, bus, instr, pc),
        opcodes::ADD_REG => Ok(disassemble_add_reg(cpu, bus, instr, pc)),
        opcodes::ADDI_SHORT => Ok(disassemble_addi_short(cpu, bus, instr, pc)),
        opcodes::CMP_REG => Ok(disassemble_cmp_reg(cpu, bus, instr, pc)),
        opcodes::LD_BYTE => disassemble_ld(cpu, bus, instr, pc, String::from_str("b")),
        opcodes::ST_BYTE => disassemble_st(cpu, bus, instr, pc, String::from_str("b")),
        opcodes::LD_HALFWORD => disassemble_ld(cpu, bus, instr, pc, String::from_str("h")),
        opcodes::ST_HALFWORD => disassemble_st(cpu, bus, instr, pc, String::from_str("h")),
        opcodes::LD_WORD => disassemble_ld(cpu, bus, instr, pc, String::from_str("w")),
        opcodes::ST_WORD => disassemble_st(cpu, bus, instr, pc, String::from_str("w")),
        _ => Err(EmuError::UnimplementedInstruction { opcode, addr: *pc }),
    }
}

/// Render a move-immediate; the shown immediate is read at the CPU's PC.
pub fn disassemble_mov_imm(cpu: &Cpu, bus: &Bus, instr: u16, pc: &mut u32) -> (r: Result<
    String,
    EmuError,
>)
    requires
        bus.wf(),
    ensures
        *final(pc) == *old(pc),
        match disasm_mov_imm(bus@, cpu@.pc, instr) {
            Ok(t) => r matches Ok(s) && s@ == t,
            Err(e) => r == Err::<String, EmuError>(e),
        },
{
    let reg2_index = (instr / 32) % 32;
    let imm = match bus.read16(cpu.regs.pc) {
        Ok(h) => crate::arith::sign_extend_16(h),
        Err(e) => {
            return Err(e);
        },
    };
    let mut s = String::from_str("mov r");
    s.append(reg_str(reg2_index));
    s.append(", 0x");
    s.append(hex8_string(imm).as_str());
    proof {
        assert(s@ =~= disasm_mov_imm(bus@, cpu@.pc, instr)->Ok_0);
    }
    Ok(s)
}

/// Render a register-register move.
pub fn disassemble_mov_reg(cpu: &Cpu, bus: &Bus, instr: u16, pc: &mut u32) -> (r: String)
    ensures
        *final(pc) == *old(pc),
        r@ == disasm_mov_reg(instr),
{
    let reg2_index = (instr / 32) % 32;
    let reg1_index = instr % 32;
    let mut s = String::from_str("mov r");
    s.append(reg_str(reg2_index));
    s.append(", r");
    s.append(reg_str(reg1_index));
    proof {
        assert(s@ =~= disasm_mov_reg(instr));
    }
    s
}

/// Render the effective-address adder; the immediate is read at the
/// cursor.
pub fn disassemble_movea(cpu: &Cpu, bus: &Bus, instr: u16, pc: &mut u32) -> (r: Result<
    String,
    EmuError,
>)
    requires
        bus.wf(),
    ensures
        *final(pc) == *old(pc),
        match disasm_movea(bus@, *old(pc), instr) {
            Ok(t) => r matches Ok(s) && s@ == t,
            Err(e) => r == Err::<String, EmuError>(e),
        },
{
    let reg1_index = instr % 32;
    let reg2_index = (instr / 32) % 32;
    let imm = match bus.read16(*pc) {
        Ok(h) => crate::arith::sign_extend_16(h),
        Err(e) => {
            return Err(e);
        },
    };
    let mut s = String::from_str("movea r");
    s.append(reg_str(reg2_index));
    s.append(", r");
    s.append(reg_str(reg1_index));
    s.append(" + 0x");
    s.append(hex8_string(imm).as_str());
    proof {
        assert(s@ =~= disasm_movea(bus@, *old(pc), instr)->Ok_0);
    }
    Ok(s)
}

/// Render the upper-halfword loader; the immediate is read at the cursor
/// and shown shifted into the upper 16 bits.
pub fn disassemble_movhi(cpu: &Cpu, bus: &Bus, instr: u16, pc: &mut u32) -> (r: Result<
    String,
    EmuError,
>)
    requires
        bus.wf(),
    ensures
        *final(pc) == *old(pc),
        match disasm_movhi(bus@, *old(pc), instr) {
            Ok(t) => r matches Ok(s) && s@ == t,
            Err(e) => r == Err::<String, EmuError>(e),
        },
{
    let reg1_index = instr % 32;
    let reg2_index = (instr / 32) % 32;
    let imm = match bus.read16(*pc) {
        Ok(h) => h as u32 * 0x1_0000,
        Err(e) => {
            return Err(e);
        },
    };
    let mut s = String::from_str("movhi r");
    s.append(reg_str(reg2_index));
    s.append(", r");
    s.append(reg_str(reg1_index));
    s.append(" + 0x");
    s.append(hex8_string(imm).as_str());
    proof {
        assert(s@ =~= disasm_movhi(bus@, *old(pc), instr)->Ok_0);
    }
    Ok(s)
}

/// Render the long-immediate ADD; the immediate is read at the CPU's PC.
pub fn disassemble_add_imm(cpu: &Cpu, bus: &Bus, instr: u16, pc: &mut u32) -> (r: Result<
    String,
    EmuError,
>)
    requires
        bus.wf(),
    ensures
        *final(pc) == *old(pc),
        match disasm_add_imm(bus@, cpu@.pc, instr) {
            Ok(t) => r matches Ok(s) && s@ == t,
            Err(e) => r == Err::<String, EmuError>(e),
        },
{
    let reg2_index = (instr / 32) % 32;
    let imm = match bus.read16(cpu.regs.pc) {
        Ok(h) => crate::arith::sign_extend_16(h),
        Err(e) => {
            return Err(e);
        },
    };
    let mut s = String::from_str("add r");
    s.append(reg_str(reg2_index));
    s.append(", 0x");
    s.append(hex8_string(imm).as_str());
    proof {
        assert(s@ =~= disasm_add_imm(bus@, cpu@.pc, instr)->Ok_0);
    }
    Ok(s)
}

/// Render the register-register ADD.
pub fn disassemble_add_reg(cpu: &Cpu, bus: &Bus, instr: u16, pc: &mut u32) -> (r: String)
    ensures
        *final(pc) == *old(pc),
        r@ == disasm_add_reg(instr),
{
    let reg2_index = (instr / 32) % 32;
    let reg1_index = instr % 32;
    let mut s = String::from_str("add r");
    s.append(reg_str(reg2_index));
    s.append(", r");
    s.append(reg_str(reg1_index));
    proof {
        assert(s@ =~= disasm_add_reg(instr));
    }
    s
}

/// Render the short-immediate ADD with its sign-extended 5-bit immediate.
pub fn disassemble_addi_short(cpu: &Cpu, bus: &Bus, instr: u16, pc: &mut u32) -> (r: String)
    ensures
        *final(pc) == *old(pc),
        r@ == disasm_addi_short(instr),
{
    let reg2_index = (instr / 32) % 32;
    let v = (instr % 32) as u32;
    let imm = if v >= 0x10 {
        v + 0xFFFF_FFE0
    } else {
        v
    };
    let mut s = String::from_str("addi r");
    s.append(reg_str(reg2_index));
    s.append(", 0x");
    s.append(hex8_string(imm).as_str());
    proof {
        assert(s@ =~= disasm_addi_short(instr));
    }
    s
}

/// Render the register-register compare.
pub fn disassemble_cmp_reg(cpu: &Cpu, bus: &Bus, instr: u16, pc: &mut u32) -> (r: String)
    ensures
        *final(pc) == *old(pc),
        r@ == disasm_cmp_reg(instr),
{
    let reg2_index = (instr / 32) % 32;
    let reg1_index = instr % 32;
    let mut s = String::from_str("cmp r");
    s.append(reg_str(reg2_index));
    s.append(", r");
    s.append(reg_str(reg1_index));
    proof {
        assert(s@ =~= disasm_cmp_reg(instr));
    }
    s
}

/// Render a conditional branch: its condition's mnemonic and the branch
/// target relative to the cursor.
pub fn disassemble_bcond(cpu: &Cpu, bus: &Bus, instr: u16, pc: &mut u32) -> (r: String)
    ensures
        *final(pc) == *old(pc),
        r@ == disasm_bcond(*old(pc), instr),
{
    let cond = (instr / 512) % 16;
    let v = (instr % 512) as u32;
    let disp = if v >= 0x100 {
        v + 0xFFFF_FE00
    } else {
        v
    };
    let addr = pc.wrapping_sub(2).wrapping_add(disp);
    let mut s = String::from_str(bcond_mnemonic_str(cond));
    s.append(" ");
    s.append(hex8_string(addr).as_str());
    proof {
        assert(s@ =~= disasm_bcond(*old(pc), instr));
    }
    s
}

/// Render the register-indirect jump.
pub fn disassemble_jmp(cpu: &Cpu, bus: &Bus, instr: u16, pc: &mut u32) -> (r: String)
    ensures
        *final(pc) == *old(pc),
        r@ == disasm_jmp(instr),
{
    let reg1_index = instr % 32;
    let mut s = String::from_str("jmp r");
    s.append(reg_str(reg1_index));
    proof {
        assert(s@ =~= disasm_jmp(instr));
    }
    s
}

/// Render the PC-relative long jump; its trailing halfword is read at the
/// cursor and the target shown relative to it.
pub fn disassemble_jr(cpu: &Cpu, bus: &Bus, instr: u16, pc: &mut u32) -> (r: Result<
    String,
    EmuError,
>)
    requires
        bus.wf(),
    ensures
        *final(pc) == *old(pc),
        match disasm_jr(bus@, *old(pc), instr) {
            Ok(t) => r matches Ok(s) && s@ == t,
            Err(e) => r == Err::<String, EmuError>(e),
        },
{
    let h = match bus.read16(*pc) {
        Ok(h) => h,
        Err(e) => {
            return Err(e);
        },
    };
    let v = instr as u32 % 1024 * 0x1_0000 + h as u32;
    let w = v % 0x400_0000;
    let offset = if w >= 0x200_0000 {
        w + 0xFC00_0000
    } else {
        w
    };
    let addr = pc.wrapping_sub(2).wrapping_add(offset) / 2 * 2;
    let mut s = String::from_str("jr ");
    s.append(hex8_string(addr).as_str());
    proof {
        assert(s@ =~= disasm_jr(bus@, *old(pc), instr)->Ok_0);
    }
    Ok(s)
}

/// Render a load with its width suffix; the displacement is read at the
/// cursor.
pub fn disassemble_ld(cpu: &Cpu, bus: &Bus, instr: u16, pc: &mut u32, suffix: String) -> (r:
    Result<String, EmuError>)
    requires
        bus.wf(),
    ensures
        *final(pc) == *old(pc),
        match disasm_ld(bus@, *old(pc), instr, suffix@) {
            Ok(t) => r matches Ok(s) && s@ == t,
            Err(e) => r == Err::<String, EmuError>(e),
        },
{
    let reg1_index = instr % 32;
    let reg2_index = (instr / 32) % 32;
    let offset = match bus.read16(*pc) {
        Ok(h) => crate::arith::sign_extend_16(h),
        Err(e) => {
            return Err(e);
        },
    };
    let mut s = String::from_str("ld.");
    s.append(suffix.as_str());
    s.append(" r");
    s.append(reg_str(reg2_index));
    s.append(", [r");
    s.append(reg_str(reg1_index));
    s.append(" + ");
    s.append(hex8_string(offset).as_str());
    s.append("]");
    proof {
        assert(s@ =~= disasm_ld(bus@, *old(pc), instr, suffix@)->Ok_0);
    }
    Ok(s)
}

/// Render a store with its width suffix; the displacement is read at the
/// cursor.
pub fn disassemble_st(cpu: &Cpu, bus: &Bus, instr: u16, pc: &mut u32, suffix: String) -> (r:
    Result<String, EmuError>)
    requires
        bus.wf(),
    ensures
        *final(pc) == *old(pc),
        match disasm_st(bus@, *old(pc), instr, suffix@) {
            Ok(t) => r matches Ok(s) && s@ == t,
            Err(e) => r == Err::<String, EmuError>(e),
        },
{
    let reg1_index = instr % 32;
    let reg2_index = (instr / 32) % 32;
    let offset = match bus.read16(*pc) {
        Ok(h) => crate::arith::sign_extend_16(h),
        Err(e) => {
            return Err(e);
        },
    };
    let mut s = String::from_str("st.");
    s.append(suffix.as_str());
    s.append(" r");
    s.append(reg_str(reg2_index));
    s.append(", [r");
    s.append(reg_str(reg1_index));
    s.append(" + ");
    s.append(hex8_string(offset).as_str());
    s.append("]");
    proof {
        assert(s@ =~= disasm_st(bus@, *old(pc), instr, suffix@)->Ok_0);
    }
    Ok(s)
}

} // verus!
