//! The backing stores of the bus: the ROM image, work RAM and the
//! peripheral stub arrays, together with the power-of-two mask used for ROM
//! mirroring. Construction fails before any instruction executes when the
//! ROM buffer's length is not a power of two, because mirroring is mask
//! arithmetic and a mask only mirrors cleanly at power-of-two sizes.

use crate::errors::EmuError;
use vstd::arithmetic::power2::{lemma_pow2_pos, pow2};
use vstd::bits::{lemma_usize_pow2_no_overflow, lemma_usize_shl_is_mul};
use vstd::prelude::*;

verus! {

/// Byte size of the work RAM backing store.
pub const RAM_SIZE: usize = 0x10000;

/// Byte size of the video-processor stub array.
pub const VIP_SIZE: usize = 0x80000;

/// Byte size of the sound-unit stub array.
pub const VSU_SIZE: usize = 0x800;

/// Byte size of the miscellaneous-hardware stub array.
pub const MISC_SIZE: usize = 0x40;

/// Ghost view of the backing stores: one byte sequence per store.
pub ghost struct MemSnapshot {
    pub rom: Seq<u8>,
    pub ram: Seq<u8>,
    pub vip: Seq<u8>,
    pub vsu: Seq<u8>,
    pub misc: Seq<u8>,
}

/// `n` is a power of two that fits a machine word.
pub open spec fn is_pow2(n: nat) -> bool {
    exists|k: nat| k < usize::BITS && n == pow2(k)
}

/// Well-formed backing stores: the ROM length is a power of two and every
/// fixed store has its hardware size.
pub open spec fn mem_wf(m: MemSnapshot) -> bool {
    &&& is_pow2(m.rom.len())
    &&& m.ram.len() == RAM_SIZE
    &&& m.vip.len() == VIP_SIZE
    &&& m.vsu.len() == VSU_SIZE
    &&& m.misc.len() == MISC_SIZE
}

/// Raw backing byte arrays plus the mirroring mask derived from the ROM
/// size.
pub struct Memory {
    pub rom: Vec<u8>,
    pub ram: Vec<u8>,
    pub vip_memory_stub: Vec<u8>,
    pub vsu_memory_stub: Vec<u8>,
    pub misc_hw_memory_stub: Vec<u8>,
    /// Mask applied to a ROM-region address to mirror it into the ROM
    /// image; always the ROM length minus one.
    pub rom_mask: usize,
}

impl View for Memory {
    type V = MemSnapshot;

    open spec fn view(&self) -> MemSnapshot {
        MemSnapshot {
            rom: self.rom@,
            ram: self.ram@,
            vip: self.vip_memory_stub@,
            vsu: self.vsu_memory_stub@,
            misc: self.misc_hw_memory_stub@,
        }
    }
}

impl Memory {
    /// The stores are well formed and the mask matches the ROM length.
    pub open spec fn wf(&self) -> bool {
        &&& mem_wf(self@)
        &&& self.rom_mask == self.rom@.len() - 1
    }

    /// Build the backing stores from a ROM image. Succeeds exactly when the
    /// image's length is a power of two; the fixed stores start zeroed and
    /// the mirroring mask is the ROM length minus one.
    pub fn new(rom: Vec<u8>) -> (r: Result<Memory, EmuError>)
        ensures
            match r {
                Ok(m) => {
                    &&& is_pow2(rom@.len())
                    &&& m.wf()
                    &&& m@.rom == rom@
                    &&& m@.ram =~= Seq::new(RAM_SIZE as nat, |i: int| 0u8)
                    &&& m@.vip =~= Seq::new(VIP_SIZE as nat, |i: int| 0u8)
                    &&& m@.vsu =~= Seq::new(VSU_SIZE as nat, |i: int| 0u8)
                    &&& m@.misc =~= Seq::new(MISC_SIZE as nat, |i: int| 0u8)
                },
                Err(e) => {
                    &&& !is_pow2(rom@.len())
                    &&& e == (EmuError::MalformedRom { len: rom@.len() as usize })
                },
            },
    {
        if !is_power_of_two(rom.len()) {
            return Err(EmuError::MalformedRom { len: rom.len() });
        }
        proof {
            let k = choose|k: nat| k < usize::BITS && rom@.len() == pow2(k);
            lemma_pow2_pos(k);
        }
        let rom_mask = rom.len() - 1;
        Ok(
            Memory {
                rom,
                ram: zeroed(RAM_SIZE),
                vip_memory_stub: zeroed(VIP_SIZE),
                vsu_memory_stub: zeroed(VSU_SIZE),
                misc_hw_memory_stub: zeroed(MISC_SIZE),
                rom_mask,
            },
        )
    }
}

/// A vector of `n` zero bytes.
fn zeroed(n: usize) -> (r: Vec<u8>)
    ensures
        r@ =~= Seq::new(n as nat, |i: int| 0u8),
{
    let mut v: Vec<u8> = Vec::new();
    let mut i: usize = 0;
    while i < n
        invariant
            i <= n,
            v@ =~= Seq::new(i as nat, |j: int| 0u8),
        decreases n - i,
    {
        v.push(0);
        i = i + 1;
    }
    v
}

/// Decide whether `n` is a power of two by scanning every candidate
/// exponent that fits a machine word.
pub fn is_power_of_two(n: usize) -> (r: bool)
    ensures
        r <==> is_pow2(n as nat),
{
    let bits: u32 = usize::BITS;
    let mut k: u32 = 0;
    while k < bits
        invariant
            bits == usize::BITS,
            k <= bits,
            forall|j: nat| j < k ==> n as nat != pow2(j),
        decreases bits - k,
    {
        proof {
            lemma_usize_pow2_no_overflow(k as nat);
            lemma_usize_shl_is_mul(1usize, k as usize);
        }
        if n == 1usize << k {
            proof {
                assert(n as nat == pow2(k as nat));
            }
            return true;
        }
        k = k + 1;
    }
    false
}

} // verus!
