//! The CPU: a register file of 32 general-purpose registers, the program
//! counter, the status word, and the fetch-decode-dispatch loop. Register 0
//! is pinned to zero as a post-step invariant: a handler may write it
//! mid-instruction, but the dispatch loop resets it before the step
//! completes, matching hardware where such a write is discarded.

use crate::alu::{
    add_reg_s, addi_long_s, addi_short_s, andi_s, cmp_imm_s, cmp_reg_s, div_s, mul_s, ori_s,
};
use crate::arith::w_add;
use crate::branches::{bcond_s, jal_s, jmp_s, jr_s};
use crate::bus::{read16_s, read32_s, Bus};
use crate::errors::EmuError;
use crate::loads_stores::{
    ld_byte_s, ld_halfword_s, ld_word_s, st_byte_s, st_halfword_s, st_word_s,
};
use crate::mem::MemSnapshot;
use crate::misc_instrs::sei_s;
use crate::opcodes;
use crate::psw::{psw_from_raw, Psw};
use crate::reg_transfer::{ldsr_s, mov_imm_s, mov_reg_s, movea_s, movhi_s};
use vstd::prelude::*;

verus! {

/// Hardware reset vector: the PC value at construction.
pub const RESET_PC: u32 = 0xFFFF_FFF0;

/// Raw PSW value at construction: only the NMI-pending bit set.
pub const RESET_PSW: u32 = 0x0000_8000;

/// Index of the instruction's first register field: the low 5 bits.
pub open spec fn reg1_of(instr: u16) -> int {
    (instr % 32) as int
}

/// Index of the instruction's second register field (the destination of
/// two-register forms): bits 5 to 9.
pub open spec fn reg2_of(instr: u16) -> int {
    ((instr / 32) % 32) as int
}

/// The 6-bit opcode field: the top bits of the instruction word.
pub open spec fn opcode_of(instr: u16) -> u16 {
    instr / 1024
}

/// The 4-bit condition code of a conditional branch: bits 9 to 12.
pub open spec fn cond_of(instr: u16) -> u16 {
    ((instr / 512) % 16) as u16
}

/// Ghost view of the CPU: the register file, program counter and status
/// word as mathematical values.
pub ghost struct CpuSnapshot {
    pub gprs: Seq<u32>,
    pub pc: u32,
    pub psw: Psw,
}

impl CpuSnapshot {
    /// 32 registers and a well-formed status word.
    pub open spec fn wf(&self) -> bool {
        &&& self.gprs.len() == 32
        &&& self.psw.wf()
    }
}

/// CPU register state: general-purpose registers, program counter and
/// status word.
pub struct Regs {
    pub gprs: [u32; 32],
    pub pc: u32,
    pub psw: Psw,
}

/// The CPU core; owns its register state and drives the fetch loop against
/// a borrowed bus.
pub struct Cpu {
    pub regs: Regs,
}

impl View for Cpu {
    type V = CpuSnapshot;

    open spec fn view(&self) -> CpuSnapshot {
        CpuSnapshot { gprs: self.regs.gprs@, pc: self.regs.pc, psw: self.regs.psw }
    }
}

impl Cpu {
    /// The view is well formed.
    pub open spec fn wf(&self) -> bool {
        self@.wf()
    }

    /// A CPU in its reset state: all registers zero, the PC at the reset
    /// vector, the PSW at its reset value.
    pub fn new() -> (r: Cpu)
        ensures
            r.wf(),
            r@.gprs =~= Seq::new(32, |i: int| 0u32),
            r@.pc == RESET_PC,
            r@.psw == psw_from_raw(RESET_PSW),
    {
        Cpu { regs: Regs { gprs: [0u32; 32], pc: RESET_PC, psw: Psw::new() } }
    }

    /// Fetch, decode and execute one instruction against the bus. The
    /// whole effect on registers, flags, program counter and memory is
    /// `step_spec` of the machine's ghost views; on an error the machine
    /// stays well formed but the session is over. After every completed
    /// step register 0 reads as zero, whatever the instruction did to it.
    pub fn step(&mut self, bus: &mut Bus) -> (r: Result<(), EmuError>)
        requires
            old(self).wf(),
            old(bus).wf(),
        ensures
            final(self).wf(),
            final(bus).wf(),
            (match step_spec(old(self)@, old(bus)@) {
                Ok((c2, m2)) => r is Ok && final(self)@ == c2 && final(bus)@ == m2,
                Err(e) => r == Err::<(), EmuError>(e) && final(bus)@ == old(bus)@,
            }),
            r is Ok ==> final(self)@.gprs[0] == 0,
    {
        let instr = match bus.read16(self.regs.pc) {
            Ok(v) => v,
            Err(e) => {
                return Err(e);
            },
        };
        let opcode = instr / 1024;
        self.regs.pc = self.regs.pc.wrapping_add(2);
        let res: Result<(), EmuError> = match opcode {
            opcodes::BCOND_START..=opcodes::BCOND_END => {
                self.bcond(bus, instr);
                Ok(())
            },
            opcodes::JMP => {
                self.jmp(bus, instr);
                Ok(())
            },
            opcodes::JR => self.jr(bus, instr),
            opcodes::JAL => self.jal(bus, instr),
            opcodes::MOVEA => self.movea(bus, instr),
            opcodes::MOVHI => self.movhi(bus, instr),
            opcodes::MOV_IMM => {
                self.mov_imm(bus, instr);
                Ok(())
            },
            opcodes::MOV_REG => {
                self.mov_reg(bus, instr);
                Ok(())
            },
            opcodes::ADD_REG => {
                self.add_reg(bus, instr);
                Ok(())
            },
            opcodes::ADDI_SHORT => {
                self.addi_short(bus, instr);
                Ok(())
            },
            opcodes::ADDI_LONG => self.addi_long(bus, instr),
            opcodes::ANDI => self.andi(bus, instr),
            opcodes::ORI => self.ori(bus, instr),
            opcodes::CMP_IMM => {
                self.cmp_imm(bus, instr);
                Ok(())
            },
            opcodes::CMP_REG => {
                self.cmp_reg(bus, instr);
                Ok(())
            },
            opcodes::DIV => self.div(instr),
            opcodes::MUL => {
                self.mul(instr);
                Ok(())
            },
            opcodes::LD_BYTE => self.ld_byte(bus, instr),
            opcodes::LD_HALFWORD => self.ld_halfword(bus, instr),
            opcodes::LD_WORD => self.ld_word(bus, instr),
            opcodes::ST_BYTE => self.st_byte(bus, instr),
            opcodes::ST_HALFWORD => self.st_halfword(bus, instr),
            opcodes::ST_WORD => self.st_word(bus, instr),
            opcodes::LDSR => self.ldsr(bus, instr),
            opcodes::SEI => {
                self.sei();
                Ok(())
            },
            _ => Err(
                EmuError::UnimplementedInstruction { opcode, addr: self.regs.pc.wrapping_sub(2) },
            ),
        };
        match res {
            Ok(()) => {
                self.regs.gprs[0] = 0;
                Ok(())
            },
            Err(e) => Err(e),
        }
    }

    /// Read the halfword the PC points at and advance the PC past it: the
    /// instruction-stream cursor for opcode words and trailing immediates.
    pub fn consume_halfword(&mut self, bus: &Bus) -> (r: Result<u16, EmuError>)
        requires
            old(self).wf(),
            bus.wf(),
        ensures
            final(self).wf(),
            match read16_s(bus@, old(self)@.pc) {
                Ok(v) => r == Ok::<u16, EmuError>(v) && final(self)@ == (CpuSnapshot {
                    pc: w_add(old(self)@.pc, 2),
                    ..old(self)@
                }),
                Err(e) => r == Err::<u16, EmuError>(e) && final(self)@ == old(self)@,
            },
    {
        match bus.read16(self.regs.pc) {
            Ok(v) => {
                self.regs.pc = self.regs.pc.wrapping_add(2);
                Ok(v)
            },
            Err(e) => Err(e),
        }
    }

    /// Read the word the PC points at and advance the PC past it.
    pub fn consume_word(&mut self, bus: &Bus) -> (r: Result<u32, EmuError>)
        requires
            old(self).wf(),
            bus.wf(),
        ensures
            final(self).wf(),
            match read32_s(bus@, old(self)@.pc) {
                Ok(v) => r == Ok::<u32, EmuError>(v) && final(self)@ == (CpuSnapshot {
                    pc: w_add(old(self)@.pc, 4),
                    ..old(self)@
                }),
                Err(e) => r == Err::<u32, EmuError>(e) && final(self)@ == old(self)@,
            },
    {
        match bus.read32(self.regs.pc) {
            Ok(v) => {
                self.regs.pc = self.regs.pc.wrapping_add(4);
                Ok(v)
            },
            Err(e) => Err(e),
        }
    }
}

/// A CPU-only instruction result paired with the unchanged memory.
pub open spec fn with_mem(r: Result<CpuSnapshot, EmuError>, m: MemSnapshot) -> Result<
    (CpuSnapshot, MemSnapshot),
    EmuError,
> {
    match r {
        Ok(c) => Ok((c, m)),
        Err(e) => Err(e),
    }
}

/// The effect of the instruction whose opcode halfword is `instr`, run
/// from the state `c1` in which the PC has already advanced past that
/// halfword. `fault_addr` is the address of the halfword, reported when
/// the opcode is not recognized.
pub open spec fn dispatch_s(
    c1: CpuSnapshot,
    m: MemSnapshot,
    instr: u16,
    fault_addr: u32,
) -> Result<(CpuSnapshot, MemSnapshot), EmuError> {
    let opcode = opcode_of(instr);
    if opcodes::BCOND_START <= opcode && opcode <= opcodes::BCOND_END {
        Ok((bcond_s(c1, instr), m))
    } else if opcode == opcodes::JMP {
        Ok((jmp_s(c1, instr), m))
    } else if opcode == opcodes::JR {
        with_mem(jr_s(c1, m, instr), m)
    } else if opcode == opcodes::JAL {
        with_mem(jal_s(c1, m, instr), m)
    } else if opcode == opcodes::MOVEA {
        with_mem(movea_s(c1, m, instr), m)
    } else if opcode == opcodes::MOVHI {
        with_mem(movhi_s(c1, m, instr), m)
    } else if opcode == opcodes::MOV_IMM {
        Ok((mov_imm_s(c1, instr), m))
    } else if opcode == opcodes::MOV_REG {
        Ok((mov_reg_s(c1, instr), m))
    } else if opcode == opcodes::ADD_REG {
        Ok((add_reg_s(c1, instr), m))
    } else if opcode == opcodes::ADDI_SHORT {
        Ok((addi_short_s(c1, instr), m))
    } else if opcode == opcodes::ADDI_LONG {
        with_mem(addi_long_s(c1, m, instr), m)
    } else if opcode == opcodes::ANDI {
        with_mem(andi_s(c1, m, instr), m)
    } else if opcode == opcodes::ORI {
        with_mem(ori_s(c1, m, instr), m)
    } else if opcode == opcodes::CMP_IMM {
        Ok((cmp_imm_s(c1, instr), m))
    } else if opcode == opcodes::CMP_REG {
        Ok((cmp_reg_s(c1, instr), m))
    } else if opcode == opcodes::DIV {
        with_mem(div_s(c1, instr), m)
    } else if opcode == opcodes::MUL {
        Ok((mul_s(c1, instr), m))
    } else if opcode == opcodes::LD_BYTE {
        with_mem(ld_byte_s(c1, m, instr), m)
    } else if opcode == opcodes::LD_HALFWORD {
        with_mem(ld_halfword_s(c1, m, instr), m)
    } else if opcode == opcodes::LD_WORD {
        with_mem(ld_word_s(c1, m, instr), m)
    } else if opcode == opcodes::ST_BYTE {
        st_byte_s(c1, m, instr)
    } else if opcode == opcodes::ST_HALFWORD {
        st_halfword_s(c1, m, instr)
    } else if opcode == opcodes::ST_WORD {
        st_word_s(c1, m, instr)
    } else if opcode == opcodes::LDSR {
        with_mem(ldsr_s(c1, instr), m)
    } else if opcode == opcodes::SEI {
        Ok((sei_s(c1), m))
    } else {
        Err(EmuError::UnimplementedInstruction { opcode, addr: fault_addr })
    }
}

/// One whole fetch-decode-execute step as a mathematical function of the
/// machine: fetch the opcode halfword at the PC, advance the PC past it,
/// run the instruction, then pin register 0 back to zero. Any fault along
/// the way ends the step with that error.
pub open spec fn step_spec(c: CpuSnapshot, m: MemSnapshot) -> Result<
    (CpuSnapshot, MemSnapshot),
    EmuError,
> {
    match read16_s(m, c.pc) {
        Err(e) => Err(e),
        Ok(instr) => {
            let c1 = CpuSnapshot { pc: w_add(c.pc, 2), ..c };
            match dispatch_s(c1, m, instr, c.pc) {
                Ok((c2, m2)) => Ok((CpuSnapshot { gprs: c2.gprs.update(0, 0u32), ..c2 }, m2)),
                Err(e) => Err(e),
            }
        },
    }
}

} // verus!
