//! The memory bus. A CPU-visible address is 27 bits wide; bits 24 to 26 of
//! the masked address select one of eight regions, and each backed region
//! mirrors its store by masking the address with the store size minus one.
//!
//! Region 0 is the video-processor stub, region 1 the sound-unit stub,
//! region 2 miscellaneous hardware (writes accepted, no state), region 5
//! work RAM and region 7 the ROM image. Regions 3, 4 and 6 are unmapped.
//! An access to a region/width combination without a backing store is a
//! fatal error rather than a silent default read, so simulated state can
//! never desynchronize undetectably.

use crate::errors::EmuError;
use crate::mem::{is_pow2, Memory, MemSnapshot, MISC_SIZE, RAM_SIZE, VIP_SIZE, VSU_SIZE};
use vstd::arithmetic::power2::{lemma_pow2_pos, pow2};
use vstd::bits::{lemma_usize_low_bits_mask_is_mod, lemma_usize_pow2_no_overflow, low_bits_mask};
use vstd::prelude::*;

verus! {

/// An address masked to the 27-bit bus width.
pub open spec fn masked8(a: u32) -> u32 {
    a % 0x0800_0000
}

/// An address masked to 27 bits with the low bit cleared: 16-bit accesses
/// are silently forced to halfword alignment.
pub open spec fn masked16(a: u32) -> u32 {
    ((a % 0x0800_0000) / 2 * 2) as u32
}

/// An address masked to 27 bits with the low 2 bits cleared: 32-bit
/// accesses are silently forced to word alignment.
pub open spec fn masked32(a: u32) -> u32 {
    ((a % 0x0800_0000) / 4 * 4) as u32
}

/// Bits 24 to 26 of a masked address: the region selector.
pub open spec fn region(a27: u32) -> u32 {
    a27 / 0x100_0000
}

/// The byte of `store` that the mirrored address `a27 + i` resolves to,
/// for a store of `size` bytes.
pub open spec fn mirrored(store: Seq<u8>, size: int, a27: u32, i: int) -> u8 {
    store[(a27 + i) % size]
}

/// `store` with the byte at the mirrored address `a27 + i` replaced.
pub open spec fn mirrored_set(store: Seq<u8>, size: int, a27: u32, i: int, b: u8) -> Seq<u8> {
    store.update((a27 + i) % size, b)
}

/// Two little-endian bytes as a halfword.
pub open spec fn le16(b0: u8, b1: u8) -> u16 {
    (b0 + b1 * 0x100) as u16
}

/// Four little-endian bytes as a word.
pub open spec fn le32(b0: u8, b1: u8, b2: u8, b3: u8) -> u32 {
    (b0 + b1 * 0x100 + b2 * 0x1_0000 + b3 * 0x100_0000) as u32
}

/// What an 8-bit read returns: RAM and ROM are backed, every other region
/// is fatal at this width.
pub open spec fn read8_s(m: MemSnapshot, a: u32) -> Result<u8, EmuError> {
    let a27 = masked8(a);
    if region(a27) == 5 {
        Ok(mirrored(m.ram, RAM_SIZE as int, a27, 0))
    } else if region(a27) == 7 {
        Ok(mirrored(m.rom, m.rom.len() as int, a27, 0))
    } else {
        Err(EmuError::UnimplementedMemoryRegion { addr: a27, width: 8, store: false })
    }
}

/// What a 16-bit read returns: the video stub and ROM are backed, every
/// other region is fatal at this width.
pub open spec fn read16_s(m: MemSnapshot, a: u32) -> Result<u16, EmuError> {
    let a27 = masked16(a);
    if region(a27) == 0 {
        Ok(
            le16(
                mirrored(m.vip, VIP_SIZE as int, a27, 0),
                mirrored(m.vip, VIP_SIZE as int, a27, 1),
            ),
        )
    } else if region(a27) == 7 {
        Ok(
            le16(
                mirrored(m.rom, m.rom.len() as int, a27, 0),
                mirrored(m.rom, m.rom.len() as int, a27, 1),
            ),
        )
    } else {
        Err(EmuError::UnimplementedMemoryRegion { addr: a27, width: 16, store: false })
    }
}

/// What a 32-bit read returns: the video stub, RAM and ROM are backed,
/// every other region is fatal at this width.
pub open spec fn read32_s(m: MemSnapshot, a: u32) -> Result<u32, EmuError> {
    let a27 = masked32(a);
    if region(a27) == 0 {
        Ok(
            le32(
                mirrored(m.vip, VIP_SIZE as int, a27, 0),
                mirrored(m.vip, VIP_SIZE as int, a27, 1),
                mirrored(m.vip, VIP_SIZE as int, a27, 2),
                mirrored(m.vip, VIP_SIZE as int, a27, 3),
            ),
        )
    } else if region(a27) == 5 {
        Ok(
            le32(
                mirrored(m.ram, RAM_SIZE as int, a27, 0),
                mirrored(m.ram, RAM_SIZE as int, a27, 1),
                mirrored(m.ram, RAM_SIZE as int, a27, 2),
                mirrored(m.ram, RAM_SIZE as int, a27, 3),
            ),
        )
    } else if region(a27) == 7 {
        Ok(
            le32(
                mirrored(m.rom, m.rom.len() as int, a27, 0),
                mirrored(m.rom, m.rom.len() as int, a27, 1),
                mirrored(m.rom, m.rom.len() as int, a27, 2),
                mirrored(m.rom, m.rom.len() as int, a27, 3),
            ),
        )
    } else {
        Err(EmuError::UnimplementedMemoryRegion { addr: a27, width: 32, store: false })
    }
}

/// The stores after an 8-bit write: the video stub and RAM accept it,
/// every other region is fatal at this width.
pub open spec fn write8_s(m: MemSnapshot, a: u32, v: u8) -> Result<MemSnapshot, EmuError> {
    let a27 = masked8(a);
    if region(a27) == 0 {
        Ok(MemSnapshot { vip: mirrored_set(m.vip, VIP_SIZE as int, a27, 0, v), ..m })
    } else if region(a27) == 5 {
        Ok(MemSnapshot { ram: mirrored_set(m.ram, RAM_SIZE as int, a27, 0, v), ..m })
    } else {
        Err(EmuError::UnimplementedMemoryRegion { addr: a27, width: 8, store: true })
    }
}

/// The stores after a 16-bit write, little-endian: the video stub and RAM
/// accept it, every other region is fatal at this width.
pub open spec fn write16_s(m: MemSnapshot, a: u32, v: u16) -> Result<MemSnapshot, EmuError> {
    let a27 = masked16(a);
    if region(a27) == 0 {
        Ok(
            MemSnapshot {
                vip: mirrored_set(
                    mirrored_set(m.vip, VIP_SIZE as int, a27, 0, v as u8),
                    VIP_SIZE as int,
                    a27,
                    1,
                    (v / 0x100) as u8,
                ),
                ..m
            },
        )
    } else if region(a27) == 5 {
        Ok(
            MemSnapshot {
                ram: mirrored_set(
                    mirrored_set(m.ram, RAM_SIZE as int, a27, 0, v as u8),
                    RAM_SIZE as int,
                    a27,
                    1,
                    (v / 0x100) as u8,
                ),
                ..m
            },
        )
    } else {
        Err(EmuError::UnimplementedMemoryRegion { addr: a27, width: 16, store: true })
    }
}

/// The stores after a 32-bit write, little-endian: the video stub, the
/// sound stub and RAM accept it, miscellaneous hardware accepts and
/// discards it, every other region is fatal at this width.
pub open spec fn write32_s(m: MemSnapshot, a: u32, v: u32) -> Result<MemSnapshot, EmuError> {
    let a27 = masked32(a);
    if region(a27) == 0 {
        Ok(MemSnapshot { vip: store4(m.vip, VIP_SIZE as int, a27, v), ..m })
    } else if region(a27) == 1 {
        Ok(MemSnapshot { vsu: store4(m.vsu, VSU_SIZE as int, a27, v), ..m })
    } else if region(a27) == 2 {
        Ok(m)
    } else if region(a27) == 5 {
        Ok(MemSnapshot { ram: store4(m.ram, RAM_SIZE as int, a27, v), ..m })
    } else {
        Err(EmuError::UnimplementedMemoryRegion { addr: a27, width: 32, store: true })
    }
}

/// A word stored into `store` byte by byte, little-endian, with mirroring.
pub open spec fn store4(store: Seq<u8>, size: int, a27: u32, v: u32) -> Seq<u8> {
    mirrored_set(
        mirrored_set(
            mirrored_set(
                mirrored_set(store, size, a27, 0, v as u8),
                size,
                a27,
                1,
                (v / 0x100) as u8,
            ),
            size,
            a27,
            2,
            (v / 0x1_0000) as u8,
        ),
        size,
        a27,
        3,
        (v / 0x100_0000) as u8,
    )
}

/// The bus: owns the backing stores and resolves masked addresses to them.
pub struct Bus {
    pub memory: Memory,
}

impl View for Bus {
    type V = MemSnapshot;

    open spec fn view(&self) -> MemSnapshot {
        self.memory@
    }
}

impl Bus {
    /// The owned stores are well formed.
    pub open spec fn wf(&self) -> bool {
        self.memory.wf()
    }

    /// Build a bus over stores loaded from the given ROM image. Fails
    /// exactly when the image's length is not a power of two.
    pub fn new(rom: Vec<u8>) -> (r: Result<Bus, EmuError>)
        ensures
            match r {
                Ok(b) => {
                    &&& is_pow2(rom@.len())
                    &&& b.wf()
                    &&& b@.rom == rom@
                    &&& b@.ram =~= Seq::new(RAM_SIZE as nat, |i: int| 0u8)
                    &&& b@.vip =~= Seq::new(VIP_SIZE as nat, |i: int| 0u8)
                    &&& b@.vsu =~= Seq::new(VSU_SIZE as nat, |i: int| 0u8)
                    &&& b@.misc =~= Seq::new(MISC_SIZE as nat, |i: int| 0u8)
                },
                Err(e) => {
                    &&& !is_pow2(rom@.len())
                    &&& e == (EmuError::MalformedRom { len: rom@.len() as usize })
                },
            },
    {
        match Memory::new(rom) {
            Ok(memory) => Ok(Bus { memory }),
            Err(e) => Err(e),
        }
    }

    /// Read one byte at `addr`.
    pub fn read8(&self, addr: u32) -> (r: Result<u8, EmuError>)
        requires
            self.wf(),
        ensures
            r == read8_s(self@, addr),
    {
        let a27 = addr % 0x0800_0000;
        let rg = a27 / 0x100_0000;
        if rg == 5 {
            Ok(self.memory.ram[(a27 as usize) % RAM_SIZE])
        } else if rg == 7 {
            Ok(self.memory.rom_byte(a27, 0))
        } else {
            Err(EmuError::UnimplementedMemoryRegion { addr: a27, width: 8, store: false })
        }
    }

    /// Read one little-endian halfword at `addr`, forced to halfword
    /// alignment.
    pub fn read16(&self, addr: u32) -> (r: Result<u16, EmuError>)
        requires
            self.wf(),
        ensures
            r == read16_s(self@, addr),
    {
        let a27 = addr % 0x0800_0000 / 2 * 2;
        let rg = a27 / 0x100_0000;
        if rg == 0 {
            let b0 = self.memory.vip_memory_stub[(a27 as usize) % VIP_SIZE];
            let b1 = self.memory.vip_memory_stub[(a27 as usize + 1) % VIP_SIZE];
            Ok(b0 as u16 + b1 as u16 * 0x100)
        } else if rg == 7 {
            let b0 = self.memory.rom_byte(a27, 0);
            let b1 = self.memory.rom_byte(a27, 1);
            Ok(b0 as u16 + b1 as u16 * 0x100)
        } else {
            Err(EmuError::UnimplementedMemoryRegion { addr: a27, width: 16, store: false })
        }
    }

    /// Read one little-endian word at `addr`, forced to word alignment.
    pub fn read32(&self, addr: u32) -> (r: Result<u32, EmuError>)
        requires
            self.wf(),
        ensures
            r == read32_s(self@, addr),
    {
        let a27 = addr % 0x0800_0000 / 4 * 4;
        let rg = a27 / 0x100_0000;
        if rg == 0 {
            let b0 = self.memory.vip_memory_stub[(a27 as usize) % VIP_SIZE];
            let b1 = self.memory.vip_memory_stub[(a27 as usize + 1) % VIP_SIZE];
            let b2 = self.memory.vip_memory_stub[(a27 as usize + 2) % VIP_SIZE];
            let b3 = self.memory.vip_memory_stub[(a27 as usize + 3) % VIP_SIZE];
            Ok(b0 as u32 + b1 as u32 * 0x100 + b2 as u32 * 0x1_0000 + b3 as u32 * 0x100_0000)
        } else if rg == 5 {
            let b0 = self.memory.ram[(a27 as usize) % RAM_SIZE];
            let b1 = self.memory.ram[(a27 as usize + 1) % RAM_SIZE];
            let b2 = self.memory.ram[(a27 as usize + 2) % RAM_SIZE];
            let b3 = self.memory.ram[(a27 as usize + 3) % RAM_SIZE];
            Ok(b0 as u32 + b1 as u32 * 0x100 + b2 as u32 * 0x1_0000 + b3 as u32 * 0x100_0000)
        } else if rg == 7 {
            let b0 = self.memory.rom_byte(a27, 0);
            let b1 = self.memory.rom_byte(a27, 1);
            let b2 = self.memory.rom_byte(a27, 2);
            let b3 = self.memory.rom_byte(a27, 3);
            Ok(b0 as u32 + b1 as u32 * 0x100 + b2 as u32 * 0x1_0000 + b3 as u32 * 0x100_0000)
        } else {
            Err(EmuError::UnimplementedMemoryRegion { addr: a27, width: 32, store: false })
        }
    }

    /// Write one byte at `addr`.
    pub fn write8(&mut self, addr: u32, val: u8) -> (r: Result<(), EmuError>)
        requires
            old(self).wf(),
        ensures
            final(self).wf(),
            match write8_s(old(self)@, addr, val) {
                Ok(m2) => r is Ok && final(self)@ == m2,
                Err(e) => r == Err::<(), EmuError>(e) && final(self)@ == old(self)@,
            },
    {
        let a27 = addr % 0x0800_0000;
        let rg = a27 / 0x100_0000;
        if rg == 0 {
            self.memory.vip_memory_stub[(a27 as usize) % VIP_SIZE] = val;
            Ok(())
        } else if rg == 5 {
            self.memory.ram[(a27 as usize) % RAM_SIZE] = val;
            Ok(())
        } else {
            Err(EmuError::UnimplementedMemoryRegion { addr: a27, width: 8, store: true })
        }
    }

    /// Write one little-endian halfword at `addr`, forced to halfword
    /// alignment.
    pub fn write16(&mut self, addr: u32, val: u16) -> (r: Result<(), EmuError>)
        requires
            old(self).wf(),
        ensures
            final(self).wf(),
            match write16_s(old(self)@, addr, val) {
                Ok(m2) => r is Ok && final(self)@ == m2,
                Err(e) => r == Err::<(), EmuError>(e) && final(self)@ == old(self)@,
            },
    {
        let a27 = addr % 0x0800_0000 / 2 * 2;
        let rg = a27 / 0x100_0000;
        if rg == 0 {
            self.memory.vip_memory_stub[(a27 as usize) % VIP_SIZE] = val as u8;
            self.memory.vip_memory_stub[(a27 as usize + 1) % VIP_SIZE] = (val / 0x100) as u8;
            Ok(())
        } else if rg == 5 {
            self.memory.ram[(a27 as usize) % RAM_SIZE] = val as u8;
            self.memory.ram[(a27 as usize + 1) % RAM_SIZE] = (val / 0x100) as u8;
            Ok(())
        } else {
            Err(EmuError::UnimplementedMemoryRegion { addr: a27, width: 16, store: true })
        }
    }

    /// Write one little-endian word at `addr`, forced to word alignment.
    /// The miscellaneous-hardware region accepts the write and keeps no
    /// state.
    pub fn write32(&mut self, addr: u32, val: u32) -> (r: Result<(), EmuError>)
        requires
            old(self).wf(),
        ensures
            final(self).wf(),
            match write32_s(old(self)@, addr, val) {
                Ok(m2) => r is Ok && final(self)@ == m2,
                Err(e) => r == Err::<(), EmuError>(e) && final(self)@ == old(self)@,
            },
    {
        let a27 = addr % 0x0800_0000 / 4 * 4;
        let rg = a27 / 0x100_0000;
        if rg == 0 {
            self.memory.vip_memory_stub[(a27 as usize) % VIP_SIZE] = val as u8;
            self.memory.vip_memory_stub[(a27 as usize + 1) % VIP_SIZE] = (val / 0x100) as u8;
            self.memory.vip_memory_stub[(a27 as usize + 2) % VIP_SIZE] = (val / 0x1_0000) as u8;
            self.memory.vip_memory_stub[(a27 as usize + 3) % VIP_SIZE] = (val / 0x100_0000) as u8;
            Ok(())
        } else if rg == 1 {
            self.memory.vsu_memory_stub[(a27 as usize) % VSU_SIZE] = val as u8;
            self.memory.vsu_memory_stub[(a27 as usize + 1) % VSU_SIZE] = (val / 0x100) as u8;
            self.memory.vsu_memory_stub[(a27 as usize + 2) % VSU_SIZE] = (val / 0x1_0000) as u8;
            self.memory.vsu_memory_stub[(a27 as usize + 3) % VSU_SIZE] = (val / 0x100_0000) as u8;
            Ok(())
        } else if rg == 2 {
            Ok(())
        } else if rg == 5 {
            self.memory.ram[(a27 as usize) % RAM_SIZE] = val as u8;
            self.memory.ram[(a27 as usize + 1) % RAM_SIZE] = (val / 0x100) as u8;
            self.memory.ram[(a27 as usize + 2) % RAM_SIZE] = (val / 0x1_0000) as u8;
            self.memory.ram[(a27 as usize + 3) % RAM_SIZE] = (val / 0x100_0000) as u8;
            Ok(())
        } else {
            Err(EmuError::UnimplementedMemoryRegion { addr: a27, width: 32, store: true })
        }
    }
}

impl Memory {
    /// One mirrored ROM byte: masking with the ROM mask wraps the address
    /// into the image because the image length is a power of two.
    fn rom_byte(&self, a27: u32, i: u32) -> (r: u8)
        requires
            self.wf(),
            a27 < 0x0800_0000,
            i < 4,
        ensures
            r == mirrored(self@.rom, self@.rom.len() as int, a27, i as int),
    {
        proof {
            let k = choose|k: nat| k < usize::BITS && self.rom@.len() == pow2(k);
            lemma_pow2_pos(k);
            lemma_usize_pow2_no_overflow(k);
            lemma_usize_low_bits_mask_is_mod((a27 + i) as usize, k);
            assert(self.rom_mask == low_bits_mask(k));
        }
        self.rom[(a27 as usize + i as usize) & self.rom_mask]
    }
}

} // verus!
