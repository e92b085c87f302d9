//! Unit tests of the register file, the memory bus and the video
//! subsystem: pair aliasing, the flags invariant, little-endian words,
//! and the control-register bitfield.

use corroded_boy::register::{RegisterFile, Registers8b, Registers16b, Flags};
use corroded_boy::memory::Memory;
use corroded_boy::ppu::ppu;
use corroded_boy::timing::{cycle_cost, cycle_cost_cb};

#[test]
fn reset_state() {
    let r = RegisterFile::new();
    assert_eq!(r.pc, 0x0000);
    assert_eq!(r.sp, 0xFFFE);
    assert_eq!(
        (r.a, r.f, r.b, r.c, r.d, r.e, r.h, r.l),
        (0, 0, 0, 0, 0, 0, 0, 0)
    );
}

#[test]
fn pairs_alias_their_cells() {
    let mut r = RegisterFile::new();
    r.write_16b(Registers16b::BC, 0x1234);
    assert_eq!(r.b, 0x12);
    assert_eq!(r.c, 0x34);
    assert_eq!(r.read_16b(Registers16b::BC), 0x1234);
    r.b = 0xAB;
    assert_eq!(r.read_16b(Registers16b::BC), 0xAB34);

    r.write_16b(Registers16b::DE, 0x5678);
    assert_eq!((r.d, r.e), (0x56, 0x78));
    r.write_16b(Registers16b::HL, 0x9ABC);
    assert_eq!((r.h, r.l), (0x9A, 0xBC));
    r.write_16b(Registers16b::SP, 0xDEF0);
    assert_eq!(r.sp, 0xDEF0);
    assert_eq!(r.read_16b(Registers16b::SP), 0xDEF0);
}

#[test]
fn af_write_clears_low_nibble_of_f() {
    let mut r = RegisterFile::new();
    r.write_16b(Registers16b::AF, 0x12FF);
    assert_eq!(r.a, 0x12);
    assert_eq!(r.f, 0xF0);
    assert_eq!(r.read_16b(Registers16b::AF), 0x12F0);

    r.write_8b(Registers8b::F, 0xAB);
    assert_eq!(r.f, 0xA0);
}

#[test]
fn read_write_8b_cells() {
    let mut r = RegisterFile::new();
    r.write_8b(Registers8b::A, 1);
    r.write_8b(Registers8b::B, 2);
    r.write_8b(Registers8b::C, 3);
    r.write_8b(Registers8b::D, 4);
    r.write_8b(Registers8b::E, 5);
    r.write_8b(Registers8b::H, 6);
    r.write_8b(Registers8b::L, 7);
    assert_eq!(r.read_8b(Registers8b::A), 1);
    assert_eq!(r.read_8b(Registers8b::B), 2);
    assert_eq!(r.read_8b(Registers8b::C), 3);
    assert_eq!(r.read_8b(Registers8b::D), 4);
    assert_eq!(r.read_8b(Registers8b::E), 5);
    assert_eq!(r.read_8b(Registers8b::H), 6);
    assert_eq!(r.read_8b(Registers8b::L), 7);
    assert_eq!(r.read_8b(Registers8b::F), 0);
}

#[test]
fn flags_sit_in_the_high_nibble() {
    let mut r = RegisterFile::new();
    r.set_flag(Flags::FZ, true);
    assert_eq!(r.f, 0x80);
    r.set_flag(Flags::FN, true);
    assert_eq!(r.f, 0xC0);
    r.set_flag(Flags::FH, true);
    assert_eq!(r.f, 0xE0);
    r.set_flag(Flags::FC, true);
    assert_eq!(r.f, 0xF0);
    assert!(r.get_flag(Flags::FZ));
    assert!(r.get_flag(Flags::FN));
    assert!(r.get_flag(Flags::FH));
    assert!(r.get_flag(Flags::FC));
    r.set_flag(Flags::FZ, false);
    assert_eq!(r.f, 0x70);
    assert!(!r.get_flag(Flags::FZ));

    r.set_flags(true, false, true, false);
    assert_eq!(r.f, 0xA0);
    r.set_flags(false, true, false, true);
    assert_eq!(r.f, 0x50);
}

#[test]
fn hl_autostep_returns_previous_value() {
    let mut r = RegisterFile::new();
    r.write_16b(Registers16b::HL, 0xFFFF);
    assert_eq!(r.hl_inc(), 0xFFFF);
    assert_eq!(r.read_16b(Registers16b::HL), 0x0000);
    assert_eq!(r.hl_dec(), 0x0000);
    assert_eq!(r.read_16b(Registers16b::HL), 0xFFFF);
}

#[test]
fn memory_bytes_and_words() {
    let mut m = Memory::new();
    assert_eq!(m.read_byte(0x0000), 0);
    assert_eq!(m.read_byte(0xFFFF), 0);
    m.write_byte(0x8001, 0x7E);
    assert_eq!(m.read_byte(0x8001), 0x7E);

    m.write_word(0x2000, 0xBEEF);
    assert_eq!(m.read_byte(0x2000), 0xEF); // little endian
    assert_eq!(m.read_byte(0x2001), 0xBE);
    assert_eq!(m.read_word(0x2000), 0xBEEF);
}

#[test]
fn memory_word_wraps_at_the_top() {
    let mut m = Memory::new();
    m.write_word(0xFFFF, 0x1234);
    assert_eq!(m.read_byte(0xFFFF), 0x34);
    assert_eq!(m.read_byte(0x0000), 0x12);
    assert_eq!(m.read_word(0xFFFF), 0x1234);
}

#[test]
fn ppu_fresh_state_reads_zero() {
    let p = ppu::new();
    assert_eq!(p.read_byte(0x8000), 0);
    assert_eq!(p.read_byte(0x9FFF), 0);
    assert_eq!(p.read_byte(0xFE00), 0);
    assert_eq!(p.read_byte(0xFE9F), 0);
    assert_eq!(p.read_byte(0xFF40), 0);
}

#[test]
fn ppu_vram_and_oam_round_trip() {
    let mut p = ppu::new();
    p.write_byte(0x8000, 0x11);
    p.write_byte(0x9FFF, 0x22);
    p.write_byte(0xFE00, 0x33);
    p.write_byte(0xFE9F, 0x44);
    assert_eq!(p.read_byte(0x8000), 0x11);
    assert_eq!(p.read_byte(0x9FFF), 0x22);
    assert_eq!(p.read_byte(0xFE00), 0x33);
    assert_eq!(p.read_byte(0xFE9F), 0x44);
}

#[test]
fn ppu_control_register_bits_round_trip() {
    let mut p = ppu::new();
    for v in [0x00u8, 0x01, 0x80, 0xA5, 0x5A, 0xFF] {
        p.write_byte(0xFF40, v);
        assert_eq!(p.read_byte(0xFF40), v);
    }
}

#[test]
fn cycle_costs_of_common_opcodes() {
    assert_eq!(cycle_cost(0x00, false), 4); // NOP
    assert_eq!(cycle_cost(0x01, false), 12); // LD BC,d16
    assert_eq!(cycle_cost(0x08, false), 20); // LD (a16),SP
    assert_eq!(cycle_cost(0x36, false), 12); // LD (HL),d8
    assert_eq!(cycle_cost(0x41, false), 4); // LD B,C
    assert_eq!(cycle_cost(0x46, false), 8); // LD B,(HL)
    assert_eq!(cycle_cost(0x70, false), 8); // LD (HL),B
    assert_eq!(cycle_cost(0x76, false), 4); // HALT
    assert_eq!(cycle_cost(0x80, false), 4); // ADD A,B
    assert_eq!(cycle_cost(0x86, false), 8); // ADD A,(HL)
    assert_eq!(cycle_cost(0xC3, false), 16); // JP a16
    assert_eq!(cycle_cost(0xCD, false), 24); // CALL a16
    assert_eq!(cycle_cost(0xC9, false), 16); // RET
    assert_eq!(cycle_cost(0xD3, false), 4); // reserved no-op
    assert_eq!(cycle_cost(0xE8, false), 16); // ADD SP,e
    assert_eq!(cycle_cost(0xF8, false), 12); // LD HL,SP+e
    assert_eq!(cycle_cost(0xFF, false), 16); // RST 0x38
}

#[test]
fn conditional_branches_have_two_costs() {
    assert_eq!(cycle_cost(0x20, false), 8); // JR NZ untaken
    assert_eq!(cycle_cost(0x20, true), 12); // JR NZ taken
    assert_eq!(cycle_cost(0xC2, false), 12); // JP NZ untaken
    assert_eq!(cycle_cost(0xC2, true), 16);
    assert_eq!(cycle_cost(0xC4, false), 12); // CALL NZ untaken
    assert_eq!(cycle_cost(0xC4, true), 24);
    assert_eq!(cycle_cost(0xC0, false), 8); // RET NZ untaken
    assert_eq!(cycle_cost(0xC0, true), 20);
    // unconditional entries ignore the argument
    assert_eq!(cycle_cost(0x18, false), cycle_cost(0x18, true));
    assert_eq!(cycle_cost(0xCD, false), cycle_cost(0xCD, true));
}

#[test]
fn cb_cycle_costs_compose_with_the_prefix() {
    let prefix = cycle_cost(0xCB, false);
    assert_eq!(prefix + cycle_cost_cb(0x00), 8); // RLC B
    assert_eq!(prefix + cycle_cost_cb(0x06), 16); // RLC (HL)
    assert_eq!(prefix + cycle_cost_cb(0x7C), 8); // BIT 7,H
    assert_eq!(prefix + cycle_cost_cb(0x46), 12); // BIT 0,(HL)
    assert_eq!(prefix + cycle_cost_cb(0x86), 16); // RES 0,(HL)
    assert_eq!(prefix + cycle_cost_cb(0xFE), 16); // SET 7,(HL)
    assert_eq!(prefix + cycle_cost_cb(0xD8), 8); // SET 3,B
}
