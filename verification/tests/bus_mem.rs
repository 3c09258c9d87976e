//! The bus decoder and the backing stores: construction, region errors,
//! mirroring, little-endian assembly and write-back.

use vb_core::bus::Bus;
use vb_core::errors::EmuError;
use vb_core::mem::{is_power_of_two, Memory};

fn rom16() -> Vec<u8> {
    (0u8..16).collect()
}

#[test]
fn power_of_two_check() {
    assert!(!is_power_of_two(0));
    assert!(is_power_of_two(1));
    assert!(is_power_of_two(2));
    assert!(is_power_of_two(1024));
    assert!(!is_power_of_two(3));
    assert!(!is_power_of_two(12));
    assert!(!is_power_of_two(usize::MAX));
}

#[test]
fn rom_length_must_be_power_of_two() {
    // Construction fails before any instruction executes.
    let err = Memory::new(vec![0u8; 3]).err().unwrap();
    assert_eq!(err, EmuError::MalformedRom { len: 3 });
    assert!(Bus::new(vec![0u8; 5]).is_err());
    assert!(Memory::new(vec![0u8; 16]).is_ok());
}

#[test]
fn memory_new_derives_mask() {
    let m = Memory::new(vec![0u8; 64]).unwrap();
    assert_eq!(m.rom_mask, 63);
    assert_eq!(m.ram.len(), 0x10000);
    assert_eq!(m.vip_memory_stub.len(), 0x80000);
    assert_eq!(m.vsu_memory_stub.len(), 0x800);
    assert_eq!(m.misc_hw_memory_stub.len(), 0x40);
}

#[test]
fn rom_mirroring_reads_identical_bytes() {
    let bus = Bus::new(rom16()).unwrap();
    let base = 0x0700_0000u32;
    assert_eq!(bus.read8(base + 3).unwrap(), 3);
    // The same offset one, two and many image-lengths later.
    assert_eq!(bus.read8(base + 3 + 16).unwrap(), 3);
    assert_eq!(bus.read8(base + 3 + 32).unwrap(), 3);
    assert_eq!(bus.read8(base + 3 + 16 * 4321).unwrap(), 3);
}

#[test]
fn top_bits_of_address_are_ignored() {
    // The bus is 27 bits wide: the upper 5 address bits never matter.
    let bus = Bus::new(rom16()).unwrap();
    assert_eq!(bus.read8(0x0700_0005).unwrap(), bus.read8(0xFF00_0005).unwrap());
    assert_eq!(bus.read8(0xFFFF_FFF0).unwrap(), 0);
}

#[test]
fn read16_is_little_endian_and_aligned() {
    let bus = Bus::new(rom16()).unwrap();
    assert_eq!(bus.read16(0x0700_0002).unwrap(), 0x0302);
    // The low address bit is silently cleared.
    assert_eq!(bus.read16(0x0700_0003).unwrap(), 0x0302);
}

#[test]
fn read32_is_little_endian_and_aligned() {
    let bus = Bus::new(rom16()).unwrap();
    assert_eq!(bus.read32(0x0700_0004).unwrap(), 0x0706_0504);
    assert_eq!(bus.read32(0x0700_0007).unwrap(), 0x0706_0504);
}

#[test]
fn ram_round_trip_with_mirroring() {
    let mut bus = Bus::new(rom16()).unwrap();
    bus.write8(0x0500_1234, 0xAB).unwrap();
    assert_eq!(bus.read8(0x0500_1234).unwrap(), 0xAB);
    // RAM repeats every 0x10000 bytes within its region.
    assert_eq!(bus.read8(0x0501_1234).unwrap(), 0xAB);
    bus.write32(0x0500_0010, 0xDEAD_BEEF).unwrap();
    assert_eq!(bus.read32(0x0500_0010).unwrap(), 0xDEAD_BEEF);
    assert_eq!(bus.read8(0x0500_0010).unwrap(), 0xEF);
    assert_eq!(bus.read8(0x0500_0013).unwrap(), 0xDE);
}

#[test]
fn write16_splits_bytes() {
    let mut bus = Bus::new(rom16()).unwrap();
    bus.write16(0x0500_0020, 0xBEEF).unwrap();
    assert_eq!(bus.read8(0x0500_0020).unwrap(), 0xEF);
    assert_eq!(bus.read8(0x0500_0021).unwrap(), 0xBE);
}

#[test]
fn misc_hardware_write_is_accepted_and_inert() {
    let mut bus = Bus::new(rom16()).unwrap();
    assert_eq!(bus.write32(0x0200_0000, 0x1234_5678), Ok(()));
}

#[test]
fn unmapped_regions_fault_with_diagnostics() {
    let mut bus = Bus::new(rom16()).unwrap();
    assert_eq!(
        bus.read8(0x0300_0001),
        Err(EmuError::UnimplementedMemoryRegion { addr: 0x0300_0001, width: 8, store: false })
    );
    assert_eq!(
        bus.read16(0x0400_0000),
        Err(EmuError::UnimplementedMemoryRegion { addr: 0x0400_0000, width: 16, store: false })
    );
    assert_eq!(
        bus.write8(0x0700_0000, 1),
        Err(EmuError::UnimplementedMemoryRegion { addr: 0x0700_0000, width: 8, store: true })
    );
    assert_eq!(
        bus.write32(0x0600_0004, 5),
        Err(EmuError::UnimplementedMemoryRegion { addr: 0x0600_0004, width: 32, store: true })
    );
}

#[test]
fn width_support_differs_per_region() {
    let mut bus = Bus::new(rom16()).unwrap();
    // RAM is backed for 8- and 32-bit reads but not 16-bit ones.
    assert!(bus.read8(0x0500_0000).is_ok());
    assert!(bus.read32(0x0500_0000).is_ok());
    assert!(bus.read16(0x0500_0000).is_err());
    // The video stub is backed for 16- and 32-bit reads but not 8-bit ones.
    assert!(bus.read16(0x0000_0000).is_ok());
    assert!(bus.read32(0x0000_0000).is_ok());
    assert!(bus.read8(0x0000_0000).is_err());
    // The sound stub only accepts 32-bit writes.
    assert!(bus.write32(0x0100_0000, 7).is_ok());
    assert!(bus.write16(0x0100_0000, 7).is_err());
}

#[test]
fn vip_stub_write_reads_back() {
    let mut bus = Bus::new(rom16()).unwrap();
    bus.write16(0x0004_0000, 0x1234).unwrap();
    assert_eq!(bus.read16(0x0004_0000).unwrap(), 0x1234);
    // The stub mirrors every 0x80000 bytes within its region.
    assert_eq!(bus.read16(0x000C_0000).unwrap(), 0x1234);
}
