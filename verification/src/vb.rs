//! The whole machine: one CPU and one bus, stepped serially by a single
//! owner. A fatal error from a step ends the simulation session; there is
//! no partial-instruction rollback and no retry.

use crate::bus::Bus;
use crate::cpu::{step_spec, Cpu, RESET_PC, RESET_PSW};
use crate::errors::EmuError;
use crate::mem::{is_pow2, RAM_SIZE, VIP_SIZE, VSU_SIZE};
use crate::psw::psw_from_raw;
use vstd::prelude::*;

verus! {

/// A CPU wired to a bus loaded from one ROM image.
pub struct VirtualBoy {
    pub cpu: Cpu,
    pub bus: Bus,
}

impl VirtualBoy {
    /// Both halves are well formed.
    pub open spec fn wf(&self) -> bool {
        &&& self.cpu.wf()
        &&& self.bus.wf()
    }

    /// Build a machine around the given ROM image: the CPU in its reset
    /// state and zeroed RAM and stub stores. Fails exactly when the ROM
    /// length is not a power of two, before any instruction executes.
    pub fn new(rom: Vec<u8>) -> (r: Result<VirtualBoy, EmuError>)
        ensures
            match r {
                Ok(vb) => {
                    &&& is_pow2(rom@.len())
                    &&& vb.wf()
                    &&& vb.bus@.rom == rom@
                    &&& vb.bus@.ram =~= Seq::new(RAM_SIZE as nat, |i: int| 0u8)
                    &&& vb.bus@.vip =~= Seq::new(VIP_SIZE as nat, |i: int| 0u8)
                    &&& vb.bus@.vsu =~= Seq::new(VSU_SIZE as nat, |i: int| 0u8)
                    &&& vb.cpu@.gprs =~= Seq::new(32, |i: int| 0u32)
                    &&& vb.cpu@.pc == RESET_PC
                    &&& vb.cpu@.psw == psw_from_raw(RESET_PSW)
                },
                Err(e) => {
                    &&& !is_pow2(rom@.len())
                    &&& e == (EmuError::MalformedRom { len: rom@.len() as usize })
                },
            },
    {
        match Bus::new(rom) {
            Ok(bus) => Ok(VirtualBoy { cpu: Cpu::new(), bus }),
            Err(e) => Err(e),
        }
    }

    /// Run one instruction: `step_spec` of the machine's ghost views.
    /// After every completed step register 0 reads as zero.
    pub fn step(&mut self) -> (r: Result<(), EmuError>)
        requires
            old(self).wf(),
        ensures
            final(self).wf(),
            (match step_spec(old(self).cpu@, old(self).bus@) {
                Ok((c2, m2)) => r is Ok && final(self).cpu@ == c2 && final(self).bus@ == m2,
                Err(e) => r == Err::<(), EmuError>(e) && final(self).bus@ == old(self).bus@,
            }),
            r is Ok ==> final(self).cpu@.gprs[0] == 0,
    {
        self.cpu.step(&mut self.bus)
    }
}

} // verus!
