//! Whole-instruction steps through the fetch-decode-dispatch loop, driven
//! from ROM images placed where the reset vector lands.

use vb_core::errors::EmuError;
use vb_core::vb::VirtualBoy;

/// A 16-byte ROM whose first bytes are the given halfwords, little-endian.
/// The reset vector 0xFFFFFFF0 masks to 0x07FFFFF0, which mirrors to
/// offset 0 of a 16-byte image, so execution starts at the first halfword.
fn boot_rom(words: &[u16]) -> VirtualBoy {
    let mut rom = vec![0u8; 16];
    for (i, w) in words.iter().enumerate() {
        rom[2 * i] = *w as u8;
        rom[2 * i + 1] = (*w >> 8) as u8;
    }
    VirtualBoy::new(rom).unwrap()
}

#[test]
fn construction_rejects_bad_rom_before_any_step() {
    assert_eq!(
        VirtualBoy::new(vec![0u8; 6]).err().unwrap(),
        EmuError::MalformedRom { len: 6 }
    );
}

#[test]
fn cursor_reads_and_advances() {
    let mut vb = boot_rom(&[0x1234, 0x5678]);
    vb.cpu.regs.pc = 0x0700_0000;
    assert_eq!(vb.cpu.consume_halfword(&vb.bus).unwrap(), 0x1234);
    assert_eq!(vb.cpu.regs.pc, 0x0700_0002);
    vb.cpu.regs.pc = 0x0700_0000;
    assert_eq!(vb.cpu.consume_word(&vb.bus).unwrap(), 0x5678_1234);
    assert_eq!(vb.cpu.regs.pc, 0x0700_0004);
}

#[test]
fn cursor_fault_leaves_pc_in_place() {
    let mut vb = boot_rom(&[]);
    vb.cpu.regs.pc = 0x0300_0000; // unmapped region
    assert!(vb.cpu.consume_halfword(&vb.bus).is_err());
    assert_eq!(vb.cpu.regs.pc, 0x0300_0000);
}

#[test]
fn reset_state() {
    let vb = boot_rom(&[]);
    assert_eq!(vb.cpu.regs.pc, 0xFFFF_FFF0);
    assert_eq!(vb.cpu.regs.gprs, [0u32; 32]);
    // Reset PSW is 0x8000: only NMI-pending set.
    assert!(vb.cpu.regs.psw.nmi_pending);
    assert!(!vb.cpu.regs.psw.zero());
}

#[test]
fn movhi_then_add_sets_sign() {
    // MOVHI loads 0x8000 into the upper halfword of a zeroed register;
    // an ADD using that register must set the sign flag.
    let movhi = 0xBC00u16 | (1 << 5); // movhi r1, r0 + imm<<16
    let add = 0x0400u16 | (2 << 5) | 1; // add r2, r1
    let mut vb = boot_rom(&[movhi, 0x8000, add]);
    vb.step().unwrap();
    assert_eq!(vb.cpu.regs.gprs[1], 0x8000_0000);
    assert!(!vb.cpu.regs.psw.sign());
    vb.step().unwrap();
    assert_eq!(vb.cpu.regs.gprs[2], 0x8000_0000);
    assert!(vb.cpu.regs.psw.sign());
    assert!(!vb.cpu.regs.psw.zero());
}

#[test]
fn ldsr_psw_raw_write_sets_zero_flag() {
    // Writing raw 0x00000001 to the status-register id makes the zero
    // flag accessor read true (bit 0 of the written value).
    let ldsr = 0x7000u16 | (1 << 5) | 5; // ldsr with reg2 = r1, id = 5
    let mut vb = boot_rom(&[ldsr]);
    vb.cpu.regs.gprs[1] = 0x0000_0001;
    vb.step().unwrap();
    assert!(vb.cpu.regs.psw.zero());
    assert!(!vb.cpu.regs.psw.sign());
    assert!(!vb.cpu.regs.psw.nmi_pending);
}

#[test]
fn ldsr_cache_control_is_inert() {
    let ldsr = 0x7000u16 | (1 << 5) | 24;
    let mut vb = boot_rom(&[ldsr]);
    vb.cpu.regs.gprs[1] = 0xFFFF_FFFF;
    let psw_before = vb.cpu.regs.psw;
    vb.step().unwrap();
    assert_eq!(vb.cpu.regs.psw, psw_before);
}

#[test]
fn ldsr_unknown_id_faults() {
    let ldsr = 0x7000u16 | (1 << 5) | 7;
    let mut vb = boot_rom(&[ldsr]);
    assert_eq!(vb.step(), Err(EmuError::UnimplementedSystemRegister { id: 7 }));
}

#[test]
fn register_zero_reads_zero_after_step() {
    // mov r0, -1 decodes register 0 as its destination; after the step
    // completes, register 0 still reads zero.
    let mov = 0x4000u16 | (0 << 5) | 0x1F; // mov r0, #-1
    let mut vb = boot_rom(&[mov]);
    vb.step().unwrap();
    assert_eq!(vb.cpu.regs.gprs[0], 0);
}

#[test]
fn branch_taken_lands_on_displacement() {
    // Condition 10 (not-zero) holds after reset, so the branch is taken:
    // PC = branch address + displacement.
    let bcond = 0x8000u16 | (10 << 9) | 8;
    let mut vb = boot_rom(&[bcond]);
    vb.step().unwrap();
    assert_eq!(vb.cpu.regs.pc, 0xFFFF_FFF0u32.wrapping_add(8));
}

#[test]
fn branch_negative_displacement() {
    // Displacement field 0x1F8 is -8 after sign extension.
    let bcond = 0x8000u16 | (10 << 9) | 0x1F8;
    let mut vb = boot_rom(&[bcond]);
    vb.step().unwrap();
    assert_eq!(vb.cpu.regs.pc, 0xFFFF_FFE8);
}

#[test]
fn branch_not_taken_falls_through() {
    // Condition 2 (zero) does not hold after reset: PC = address + 2.
    let bcond = 0x8000u16 | (2 << 9) | 8;
    let mut vb = boot_rom(&[bcond]);
    vb.step().unwrap();
    assert_eq!(vb.cpu.regs.pc, 0xFFFF_FFF2);
}

#[test]
fn branch_never_condition_falls_through() {
    let bcond = 0x8000u16 | (13 << 9) | 8;
    let mut vb = boot_rom(&[bcond]);
    vb.step().unwrap();
    assert_eq!(vb.cpu.regs.pc, 0xFFFF_FFF2);
}

#[test]
fn jmp_clears_low_bit() {
    let jmp = 0x1800u16 | 1; // jmp r1
    let mut vb = boot_rom(&[jmp]);
    vb.cpu.regs.gprs[1] = 0x0700_0005;
    vb.step().unwrap();
    assert_eq!(vb.cpu.regs.pc, 0x0700_0004);
}

#[test]
fn jr_is_relative_to_first_byte() {
    let jr = 0xA800u16; // jr with offset high bits 0
    let mut vb = boot_rom(&[jr, 0x0008]);
    vb.step().unwrap();
    assert_eq!(vb.cpu.regs.pc, 0xFFFF_FFF8);
}

#[test]
fn jal_links_return_address() {
    let jal = 0xAC00u16;
    let mut vb = boot_rom(&[jal, 0x0008]);
    vb.step().unwrap();
    assert_eq!(vb.cpu.regs.pc, 0xFFFF_FFF8);
    // The link register holds the address of the following instruction.
    assert_eq!(vb.cpu.regs.gprs[31], 0xFFFF_FFF4);
}

#[test]
fn jr_negative_offset() {
    // 26-bit offset -4: high bits 0x3FF in the opcode word, low halfword
    // 0xFFFC.
    let jr = 0xA800u16 | 0x3FF;
    let mut vb = boot_rom(&[jr, 0xFFFC]);
    vb.step().unwrap();
    assert_eq!(vb.cpu.regs.pc, 0xFFFF_FFEC);
}

#[test]
fn store_then_load_round_trip() {
    let st_b = 0xD000u16 | (2 << 5) | 1; // st.b r2 -> [r1 + disp]
    let ld_b = 0xC000u16 | (3 << 5) | 1; // ld.b r3 <- [r1 + disp]
    let mut vb = boot_rom(&[st_b, 0x0004, ld_b, 0x0004]);
    vb.cpu.regs.gprs[1] = 0x0500_0000;
    vb.cpu.regs.gprs[2] = 0xAB;
    vb.step().unwrap();
    assert_eq!(vb.bus.read8(0x0500_0004).unwrap(), 0xAB);
    vb.step().unwrap();
    // Byte loads sign-extend: 0xAB has its top bit set.
    assert_eq!(vb.cpu.regs.gprs[3], 0xFFFF_FFAB);
}

#[test]
fn word_store_truncates_nothing() {
    let st_w = 0xDC00u16 | (2 << 5) | 1;
    let ld_w = 0xCC00u16 | (3 << 5) | 1;
    let mut vb = boot_rom(&[st_w, 0x0010, ld_w, 0x0010]);
    vb.cpu.regs.gprs[1] = 0x0500_0100;
    vb.cpu.regs.gprs[2] = 0xCAFE_F00D;
    vb.step().unwrap();
    vb.step().unwrap();
    assert_eq!(vb.cpu.regs.gprs[3], 0xCAFE_F00D);
}

#[test]
fn halfword_store_truncates_and_load_sign_extends() {
    // Halfword loads are backed by the video stub, not RAM.
    let st_h = 0xD400u16 | (2 << 5) | 1;
    let ld_h = 0xC400u16 | (3 << 5) | 1;
    let mut vb = boot_rom(&[st_h, 0x0020, ld_h, 0x0020]);
    vb.cpu.regs.gprs[1] = 0x0000_0200;
    vb.cpu.regs.gprs[2] = 0x1234_8765;
    vb.step().unwrap();
    assert_eq!(vb.bus.read32(0x0000_0220).unwrap() & 0xFFFF, 0x8765);
    vb.step().unwrap();
    assert_eq!(vb.cpu.regs.gprs[3], 0xFFFF_8765);
}

#[test]
fn addi_long_uses_trailing_immediate() {
    let addi = 0xA400u16 | (2 << 5) | 1; // addi r2, r1, #imm16
    let mut vb = boot_rom(&[addi, 0xFFFF]); // immediate -1
    vb.cpu.regs.gprs[1] = 10;
    vb.step().unwrap();
    assert_eq!(vb.cpu.regs.gprs[2], 9);
    assert_eq!(vb.cpu.regs.pc, 0xFFFF_FFF4);
}

#[test]
fn andi_zero_extends_and_clears_sign() {
    let andi = 0xB400u16 | (2 << 5) | 1;
    let mut vb = boot_rom(&[andi, 0xFF00]);
    vb.cpu.regs.gprs[1] = 0xFFFF_FFFF;
    vb.step().unwrap();
    // The immediate is zero-extended, never sign-extended.
    assert_eq!(vb.cpu.regs.gprs[2], 0x0000_FF00);
    assert!(!vb.cpu.regs.psw.sign());
    assert!(!vb.cpu.regs.psw.overflow());
    assert!(!vb.cpu.regs.psw.zero());
}

#[test]
fn ori_zero_extends_and_sets_sign_from_result() {
    let ori = 0xB000u16 | (2 << 5) | 1;
    let mut vb = boot_rom(&[ori, 0x8000]);
    vb.cpu.regs.gprs[1] = 0x8000_0000;
    vb.step().unwrap();
    assert_eq!(vb.cpu.regs.gprs[2], 0x8000_8000);
    assert!(vb.cpu.regs.psw.sign());
    assert!(!vb.cpu.regs.psw.zero());
}

#[test]
fn movea_sign_extends_immediate() {
    let movea = 0xA000u16 | (2 << 5) | 1;
    let mut vb = boot_rom(&[movea, 0x8000]);
    vb.cpu.regs.gprs[1] = 0;
    vb.step().unwrap();
    assert_eq!(vb.cpu.regs.gprs[2], 0xFFFF_8000);
}

#[test]
fn unrecognized_opcode_faults_with_address() {
    let mut vb = boot_rom(&[0xFC00]); // opcode 0b111111
    assert_eq!(
        vb.step(),
        Err(EmuError::UnimplementedInstruction { opcode: 0x3F, addr: 0xFFFF_FFF0 })
    );
}

#[test]
fn pc_advances_by_two_per_halfword() {
    let mov = 0x4000u16 | (1 << 5) | 3;
    let mut vb = boot_rom(&[mov]);
    vb.step().unwrap();
    assert_eq!(vb.cpu.regs.pc, 0xFFFF_FFF2);
    assert_eq!(vb.cpu.regs.gprs[1], 3);
}
