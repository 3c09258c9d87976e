//! The disassembler's exact output strings, pure forms and forms that read
//! a trailing immediate through the bus.

use vb_core::bus::Bus;
use vb_core::cpu::Cpu;
use vb_core::disassembler::{
    disassemble, disassemble_add_imm, disassemble_add_reg, disassemble_addi_short,
    disassemble_bcond, disassemble_cmp_reg, disassemble_jmp, disassemble_jr,
    disassemble_mov_imm, disassemble_mov_reg, disassemble_movea, disassemble_movhi,
};
use vb_core::errors::EmuError;

/// A machine whose 16-byte ROM holds the given halfwords and whose CPU PC
/// points at the second halfword, as the tracer would be called after the
/// opcode fetch.
fn setup(words: &[u16]) -> (Cpu, Bus, u32) {
    let mut rom = vec![0u8; 16];
    for (i, w) in words.iter().enumerate() {
        rom[2 * i] = *w as u8;
        rom[2 * i + 1] = (*w >> 8) as u8;
    }
    let bus = Bus::new(rom).unwrap();
    let mut cpu = Cpu::new();
    cpu.regs.pc = 0x0700_0002;
    (cpu, bus, 0x0700_0002)
}

#[test]
fn mov_reg_text() {
    let (cpu, bus, mut pc) = setup(&[]);
    let s = disassemble_mov_reg(&cpu, &bus, (2 << 5) | 1, &mut pc);
    assert_eq!(s, "mov r2, r1");
}

#[test]
fn add_reg_text() {
    let (cpu, bus, mut pc) = setup(&[]);
    let s = disassemble_add_reg(&cpu, &bus, (3 << 5) | 31, &mut pc);
    assert_eq!(s, "add r3, r31");
}

#[test]
fn cmp_reg_text() {
    let (cpu, bus, mut pc) = setup(&[]);
    let s = disassemble_cmp_reg(&cpu, &bus, (10 << 5) | 0, &mut pc);
    assert_eq!(s, "cmp r10, r0");
}

#[test]
fn addi_short_text_sign_extends() {
    let (cpu, bus, mut pc) = setup(&[]);
    let s = disassemble_addi_short(&cpu, &bus, (1 << 5) | 0x1F, &mut pc);
    assert_eq!(s, "addi r1, 0xFFFFFFFF");
}

#[test]
fn jmp_text() {
    let (cpu, bus, mut pc) = setup(&[]);
    let s = disassemble_jmp(&cpu, &bus, 5, &mut pc);
    assert_eq!(s, "jmp r5");
}

#[test]
fn bcond_text_shows_target() {
    let (cpu, bus, mut pc) = setup(&[]);
    // Condition 5 is the unconditional branch; displacement 8 lands the
    // target at the cursor minus 2 plus 8.
    let s = disassemble_bcond(&cpu, &bus, 0x8000 | (5 << 9) | 8, &mut pc);
    assert_eq!(s, "br 07000008");
    let s = disassemble_bcond(&cpu, &bus, 0x8000 | (13 << 9) | 8, &mut pc);
    assert_eq!(s, "nop 07000008");
}

#[test]
fn mov_imm_reads_at_cpu_pc() {
    let (cpu, bus, mut pc) = setup(&[0, 0x8000]);
    let s = disassemble_mov_imm(&cpu, &bus, 2 << 5, &mut pc).unwrap();
    assert_eq!(s, "mov r2, 0xFFFF8000");
}

#[test]
fn movea_text() {
    let (cpu, bus, mut pc) = setup(&[0, 0x8000]);
    let s = disassemble_movea(&cpu, &bus, (2 << 5) | 1, &mut pc).unwrap();
    assert_eq!(s, "movea r2, r1 + 0xFFFF8000");
}

#[test]
fn movhi_text_shifts_immediate() {
    let (cpu, bus, mut pc) = setup(&[0, 0x1234]);
    let s = disassemble_movhi(&cpu, &bus, (2 << 5) | 1, &mut pc).unwrap();
    assert_eq!(s, "movhi r2, r1 + 0x12340000");
}

#[test]
fn add_imm_text() {
    let (cpu, bus, mut pc) = setup(&[0, 0x002A]);
    let s = disassemble_add_imm(&cpu, &bus, 4 << 5, &mut pc).unwrap();
    assert_eq!(s, "add r4, 0x0000002A");
}

#[test]
fn jr_text_shows_target() {
    let (cpu, bus, mut pc) = setup(&[0, 0x0010]);
    let s = disassemble_jr(&cpu, &bus, 0xA800, &mut pc).unwrap();
    assert_eq!(s, "jr 07000010");
}

#[test]
fn dispatcher_renders_loads_and_stores() {
    let (cpu, bus, mut pc) = setup(&[0, 0x0004]);
    let ld_b = 0xC000u16 | (3 << 5) | 1;
    assert_eq!(disassemble(&cpu, &bus, ld_b, &mut pc).unwrap(), "ld.b r3, [r1 + 00000004]");
    let st_h = 0xD400u16 | (2 << 5) | 1;
    assert_eq!(disassemble(&cpu, &bus, st_h, &mut pc).unwrap(), "st.h r2, [r1 + 00000004]");
    let st_w = 0xDC00u16 | (7 << 5) | 6;
    assert_eq!(disassemble(&cpu, &bus, st_w, &mut pc).unwrap(), "st.w r7, [r6 + 00000004]");
}

#[test]
fn dispatcher_rejects_unrendered_opcodes() {
    let (cpu, bus, mut pc) = setup(&[]);
    // DIV executes but has no rendering.
    let div = 0x2400u16 | (2 << 5) | 1;
    assert_eq!(
        disassemble(&cpu, &bus, div, &mut pc),
        Err(EmuError::UnimplementedInstruction { opcode: 0b001001, addr: 0x0700_0002 })
    );
}

#[test]
fn dispatcher_leaves_cursor_untouched() {
    let (cpu, bus, mut pc) = setup(&[0, 0x0004]);
    let _ = disassemble(&cpu, &bus, 0xC000 | (3 << 5) | 1, &mut pc).unwrap();
    assert_eq!(pc, 0x0700_0002);
}
