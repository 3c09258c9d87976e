//! Miscellaneous system instructions: only set-interrupt-disable is
//! modeled, and of the interrupt controller only the flag bit that marks
//! IRQs disabled.

use crate::cpu::{Cpu, CpuSnapshot};
use crate::psw::Psw;
use vstd::prelude::*;

verus! {

/// Set the IRQ-disabled flag; nothing else changes.
pub open spec fn sei_s(c: CpuSnapshot) -> CpuSnapshot {
    CpuSnapshot { psw: (Psw { irqs_disabled: true, ..c.psw }), ..c }
}

impl Cpu {
    /// Disable interrupts: sets the IRQ-disabled flag and nothing else. No
    /// further interrupt-controller behavior is modeled.
    pub fn sei(&mut self)
        requires
            old(self).wf(),
        ensures
            final(self).wf(),
            final(self)@ == sei_s(old(self)@),
    {
        self.regs.psw.irqs_disabled = true;
    }
}

} // verus!
