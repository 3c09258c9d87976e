//! The fatal error taxonomy of the simulator. Every variant ends the
//! simulation session: each operation is a deterministic function of the
//! current state, so retrying would reproduce the same failure.

use vstd::prelude::*;

verus! {

/// A condition the simulator refuses to continue past. Each variant carries
/// the diagnostic the original fault message would have reported.
#[derive(Clone, Copy, Debug, PartialEq, Eq, Structural)]
pub enum EmuError {
    /// The decoder does not recognize the opcode fetched at `addr`.
    UnimplementedInstruction { opcode: u16, addr: u32 },
    /// The combination of the (masked) address and the access width has no
    /// backing store. `width` is the access width in bits; `store` is true
    /// for a write.
    UnimplementedMemoryRegion { addr: u32, width: u8, store: bool },
    /// The write-system-register handler does not model this register id.
    UnimplementedSystemRegister { id: u16 },
    /// The ROM buffer's length is not a power of two, so mask-based
    /// mirroring cannot work on it.
    MalformedRom { len: usize },
    /// A DIV instruction was issued with a zero divisor; the reference core
    /// leaves this case undefined, so the simulator raises an explicit
    /// arithmetic fault instead.
    DivisionByZero,
}

} // verus!
