//! The packed processor status word (PSW). Internally it is a struct of
//! named flags; the bit-exact 32-bit layout appears only at the
//! system-register read/write boundary, through `raw` and `set_raw`.

use vstd::prelude::*;

verus! {

/// CPU status word. The bit of the raw layout each field occupies is noted
/// on the right; bits 10, 11 and 20 to 31 are reserved and read back as
/// zero.
#[derive(Clone, Copy, Debug, PartialEq, Eq, Structural)]
pub struct Psw {
    /// Result of the last flag-producing operation was zero. Bit 0.
    pub zero: bool,
    /// Bit 31 of the result of the last flag-producing operation. Bit 1.
    pub sign: bool,
    /// The last flag-producing operation overflowed signed range. Bit 2.
    pub overflow: bool,
    /// The last flag-producing operation carried or borrowed. Bit 3.
    pub carry: bool,
    /// Floating-point precision degradation. Bit 4. Kept for layout
    /// fidelity; no instruction of this core touches it.
    pub fpr: bool,
    /// Floating-point underflow. Bit 5. Layout fidelity only.
    pub fud: bool,
    /// Floating-point overflow. Bit 6. Layout fidelity only.
    pub fov: bool,
    /// Floating-point zero division. Bit 7. Layout fidelity only.
    pub fzd: bool,
    /// Invalid floating-point operation. Bit 8. Layout fidelity only.
    pub fiv: bool,
    /// Floating-point reserved operand. Bit 9. Layout fidelity only.
    pub fro: bool,
    /// Interrupts are disabled. Bit 12.
    pub irqs_disabled: bool,
    /// Address trap enabled. Bit 13.
    pub addr_trap_enabled: bool,
    /// An exception is being processed. Bit 14.
    pub exception_pending: bool,
    /// A non-maskable interrupt is pending. Bit 15.
    pub nmi_pending: bool,
    /// Interrupt mask level. Bits 16 to 19; always below 16.
    pub int_level: u8,
}

impl Psw {
    /// The interrupt mask level fits its 4-bit field.
    pub open spec fn wf(&self) -> bool {
        self.int_level < 16
    }

    /// The PSW holds at machine reset: raw value `0x0000_8000`, that is,
    /// only the NMI-pending bit set.
    pub fn new() -> (r: Psw)
        ensures
            r == psw_from_raw(0x0000_8000),
            r.wf(),
    {
        Psw {
            zero: false,
            sign: false,
            overflow: false,
            carry: false,
            fpr: false,
            fud: false,
            fov: false,
            fzd: false,
            fiv: false,
            fro: false,
            irqs_disabled: false,
            addr_trap_enabled: false,
            exception_pending: false,
            nmi_pending: true,
            int_level: 0,
        }
    }

    /// Pack the named flags into the raw 32-bit layout. Reserved bits read
    /// as zero.
    #[verifier::rlimit(60)]
    pub fn raw(&self) -> (r: u32)
        requires
            self.wf(),
        ensures
            r == psw_raw(*self),
    {
        let b0: u32 = if self.zero { 0x1 } else { 0 };
        let b1: u32 = if self.sign { 0x2 } else { 0 };
        let b2: u32 = if self.overflow { 0x4 } else { 0 };
        let b3: u32 = if self.carry { 0x8 } else { 0 };
        let b4: u32 = if self.fpr { 0x10 } else { 0 };
        let b5: u32 = if self.fud { 0x20 } else { 0 };
        let b6: u32 = if self.fov { 0x40 } else { 0 };
        let b7: u32 = if self.fzd { 0x80 } else { 0 };
        let b8: u32 = if self.fiv { 0x100 } else { 0 };
        let b9: u32 = if self.fro { 0x200 } else { 0 };
        let b12: u32 = if self.irqs_disabled { 0x1000 } else { 0 };
        let b13: u32 = if self.addr_trap_enabled { 0x2000 } else { 0 };
        let b14: u32 = if self.exception_pending { 0x4000 } else { 0 };
        let b15: u32 = if self.nmi_pending { 0x8000 } else { 0 };
        b0 + b1 + b2 + b3 + b4 + b5 + b6 + b7 + b8 + b9 + b12 + b13 + b14 + b15 + (
        self.int_level as u32) * 0x1_0000
    }

    /// Overwrite every flag from a raw 32-bit value; reserved bits are
    /// dropped. This is the write-system-register path to the PSW.
    pub fn set_raw(&mut self, v: u32)
        ensures
            *final(self) == psw_from_raw(v),
            final(self).wf(),
    {
        *self = Psw {
            zero: v % 2 == 1,
            sign: (v / 0x2) % 2 == 1,
            overflow: (v / 0x4) % 2 == 1,
            carry: (v / 0x8) % 2 == 1,
            fpr: (v / 0x10) % 2 == 1,
            fud: (v / 0x20) % 2 == 1,
            fov: (v / 0x40) % 2 == 1,
            fzd: (v / 0x80) % 2 == 1,
            fiv: (v / 0x100) % 2 == 1,
            fro: (v / 0x200) % 2 == 1,
            irqs_disabled: (v / 0x1000) % 2 == 1,
            addr_trap_enabled: (v / 0x2000) % 2 == 1,
            exception_pending: (v / 0x4000) % 2 == 1,
            nmi_pending: (v / 0x8000) % 2 == 1,
            int_level: ((v / 0x1_0000) % 16) as u8,
        };
    }

    /// Set the zero and sign flags from the result of an operation: zero
    /// when the result is 0, sign from bit 31 of the result.
    pub fn set_sign_and_zero(&mut self, num: u32)
        ensures
            *final(self) == (Psw { zero: num == 0, sign: num >= 0x8000_0000, ..*old(self) }),
    {
        self.sign = num >= 0x8000_0000;
        self.zero = num == 0;
    }

    /// Evaluate a 4-bit condition code against the current flags; used only
    /// by the conditional-branch handler.
    pub fn satisfies_cond(&self, cond: u16) -> (r: bool)
        requires
            cond < 16,
        ensures
            r == cond_holds(*self, cond),
    {
        match cond {
            0 => self.overflow,
            1 => self.carry,
            2 => self.zero,
            3 => self.zero || self.carry,
            4 => self.sign,
            5 => true,
            6 => self.overflow != self.sign,
            7 => (self.overflow != self.sign) || self.zero,
            8 => !self.overflow,
            9 => !self.carry,
            10 => !self.zero,
            11 => !(self.zero || self.carry),
            12 => !self.sign,
            13 => false,
            14 => !(self.overflow != self.sign),
            _ => !((self.overflow != self.sign) || self.zero),
        }
    }

    /// Read the zero flag.
    pub fn zero(&self) -> (r: bool)
        ensures
            r == self.zero,
    {
        self.zero
    }

    /// Read the sign flag.
    pub fn sign(&self) -> (r: bool)
        ensures
            r == self.sign,
    {
        self.sign
    }

    /// Read the carry flag.
    pub fn carry(&self) -> (r: bool)
        ensures
            r == self.carry,
    {
        self.carry
    }

    /// Read the overflow flag.
    pub fn overflow(&self) -> (r: bool)
        ensures
            r == self.overflow,
    {
        self.overflow
    }

    /// Read the interrupts-disabled flag.
    pub fn irqs_disabled(&self) -> (r: bool)
        ensures
            r == self.irqs_disabled,
    {
        self.irqs_disabled
    }
}

/// The raw 32-bit layout of a status word; reserved bits are zero.
pub open spec fn psw_raw(p: Psw) -> u32 {
    ((if p.zero {
        0x1int
    } else {
        0int
    }) + (if p.sign {
        0x2int
    } else {
        0int
    }) + (if p.overflow {
        0x4int
    } else {
        0int
    }) + (if p.carry {
        0x8int
    } else {
        0int
    }) + (if p.fpr {
        0x10int
    } else {
        0int
    }) + (if p.fud {
        0x20int
    } else {
        0int
    }) + (if p.fov {
        0x40int
    } else {
        0int
    }) + (if p.fzd {
        0x80int
    } else {
        0int
    }) + (if p.fiv {
        0x100int
    } else {
        0int
    }) + (if p.fro {
        0x200int
    } else {
        0int
    }) + (if p.irqs_disabled {
        0x1000int
    } else {
        0int
    }) + (if p.addr_trap_enabled {
        0x2000int
    } else {
        0int
    }) + (if p.exception_pending {
        0x4000int
    } else {
        0int
    }) + (if p.nmi_pending {
        0x8000int
    } else {
        0int
    }) + (p.int_level as int) * 0x1_0000) as u32
}

/// The status word a raw 32-bit value unpacks to; reserved bits are
/// dropped.
pub open spec fn psw_from_raw(v: u32) -> Psw {
    Psw {
        zero: v % 2 == 1,
        sign: (v / 0x2) % 2 == 1,
        overflow: (v / 0x4) % 2 == 1,
        carry: (v / 0x8) % 2 == 1,
        fpr: (v / 0x10) % 2 == 1,
        fud: (v / 0x20) % 2 == 1,
        fov: (v / 0x40) % 2 == 1,
        fzd: (v / 0x80) % 2 == 1,
        fiv: (v / 0x100) % 2 == 1,
        fro: (v / 0x200) % 2 == 1,
        irqs_disabled: (v / 0x1000) % 2 == 1,
        addr_trap_enabled: (v / 0x2000) % 2 == 1,
        exception_pending: (v / 0x4000) % 2 == 1,
        nmi_pending: (v / 0x8000) % 2 == 1,
        int_level: ((v / 0x1_0000) % 16) as u8,
    }
}

/// The 16-way condition-code table over the flags: V is overflow, C carry,
/// Z zero, S sign. Code 5 always holds, code 13 never; the signed orderings
/// combine V xor S with Z.
pub open spec fn cond_holds(p: Psw, cond: u16) -> bool {
    if cond == 0 {
        p.overflow
    } else if cond == 1 {
        p.carry
    } else if cond == 2 {
        p.zero
    } else if cond == 3 {
        p.zero || p.carry
    } else if cond == 4 {
        p.sign
    } else if cond == 5 {
        true
    } else if cond == 6 {
        p.overflow != p.sign
    } else if cond == 7 {
        (p.overflow != p.sign) || p.zero
    } else if cond == 8 {
        !p.overflow
    } else if cond == 9 {
        !p.carry
    } else if cond == 10 {
        !p.zero
    } else if cond == 11 {
        !(p.zero || p.carry)
    } else if cond == 12 {
        !p.sign
    } else if cond == 13 {
        false
    } else if cond == 14 {
        !(p.overflow != p.sign)
    } else {
        !((p.overflow != p.sign) || p.zero)
    }
}

} // verus!
