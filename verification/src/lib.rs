//! Instruction-set simulator for a 32-bit load/store CPU attached to a
//! 27-bit memory bus with power-of-two address mirroring.
//!
//! The crate models the machine as plain data: a register file, a packed
//! status word kept as named flags, and byte arrays behind the bus. Every
//! instruction handler carries a contract that pins down the registers,
//! flags, program counter and memory after the call, and `Cpu::step` is
//! specified against `step_spec`, a mathematical interpreter over ghost
//! views of the whole machine.

pub mod alu;
pub mod arith;
pub mod branches;
pub mod bus;
pub mod cpu;
pub mod disassembler;
pub mod errors;
pub mod laws;
pub mod loads_stores;
pub mod mem;
pub mod misc_instrs;
pub mod opcodes;
pub mod psw;
pub mod reg_transfer;
pub mod vb;
