//! End-to-end instruction scenarios: each test loads a short program into
//! memory, steps the core, and checks registers, flags, PC and SP.

use corroded_boy::cpu::CPU;

// F-register bit masks.
const Z: u8 = 0x80;
const N: u8 = 0x40;
const H: u8 = 0x20;
const C: u8 = 0x10;

#[test]
fn ld_bc_immediate() {
    let mut cpu = CPU::new();
    cpu.mem.write_byte(0x0000, 0x01);
    cpu.mem.write_byte(0x0001, 0x34);
    cpu.mem.write_byte(0x0002, 0x12);
    cpu.execute();
    assert_eq!(cpu.reg.b, 0x12);
    assert_eq!(cpu.reg.c, 0x34);
    assert_eq!(cpu.reg.pc, 0x0003);
}

#[test]
fn inc_b_wraps_to_zero() {
    let mut cpu = CPU::new();
    cpu.reg.b = 0xFF;
    cpu.reg.f = C; // pre-existing carry must survive INC
    cpu.mem.write_byte(0x0000, 0x04);
    cpu.execute();
    assert_eq!(cpu.reg.b, 0x00);
    assert_eq!(cpu.reg.f, Z | H | C);
    assert_eq!(cpu.reg.pc, 0x0001);
}

#[test]
fn add_a_b_half_carry() {
    let mut cpu = CPU::new();
    cpu.reg.a = 0x0F;
    cpu.reg.b = 0x01;
    cpu.mem.write_byte(0x0000, 0x80);
    cpu.execute();
    assert_eq!(cpu.reg.a, 0x10);
    assert_eq!(cpu.reg.f, H);
}

#[test]
fn jr_nz_not_taken_advances_two() {
    let mut cpu = CPU::new();
    cpu.reg.f = Z; // condition NZ is false
    cpu.mem.write_byte(0x0000, 0x20);
    cpu.mem.write_byte(0x0001, 0x05);
    cpu.execute();
    assert_eq!(cpu.reg.pc, 0x0002);
    assert_eq!(cpu.reg.sp, 0xFFFE);
}

#[test]
fn jr_nz_taken_adds_offset() {
    let mut cpu = CPU::new();
    cpu.reg.f = 0; // condition NZ is true
    cpu.mem.write_byte(0x0000, 0x20);
    cpu.mem.write_byte(0x0001, 0x05);
    cpu.execute();
    assert_eq!(cpu.reg.pc, 0x0007);
}

#[test]
fn jr_negative_offset() {
    let mut cpu = CPU::new();
    cpu.reg.pc = 0x0100;
    cpu.mem.write_byte(0x0100, 0x18); // JR +(-2): loops onto itself
    cpu.mem.write_byte(0x0101, 0xFE);
    cpu.execute();
    assert_eq!(cpu.reg.pc, 0x0100);
}

#[test]
fn call_then_ret_restores_pc_and_sp() {
    let mut cpu = CPU::new();
    cpu.mem.write_byte(0x0000, 0xCD); // CALL 0x4000
    cpu.mem.write_byte(0x0001, 0x00);
    cpu.mem.write_byte(0x0002, 0x40);
    cpu.mem.write_byte(0x4000, 0xC9); // RET
    cpu.execute();
    assert_eq!(cpu.reg.pc, 0x4000);
    assert_eq!(cpu.reg.sp, 0xFFFC);
    cpu.execute();
    assert_eq!(cpu.reg.pc, 0x0003);
    assert_eq!(cpu.reg.sp, 0xFFFE);
}

#[test]
fn cb_bit7_h_zero_sets_z_keeps_c() {
    let mut cpu = CPU::new();
    cpu.reg.h = 0x00;
    cpu.reg.f = C;
    cpu.mem.write_byte(0x0000, 0xCB);
    cpu.mem.write_byte(0x0001, 0x7C); // BIT 7,H
    cpu.execute();
    assert_eq!(cpu.reg.f, Z | H | C);
    assert_eq!(cpu.reg.pc, 0x0002);
}

#[test]
fn push_pop_roundtrip_through_stack() {
    let mut cpu = CPU::new();
    cpu.reg.b = 0x12;
    cpu.reg.c = 0x34;
    cpu.mem.write_byte(0x0000, 0xC5); // PUSH BC
    cpu.mem.write_byte(0x0001, 0xD1); // POP DE
    let sp0 = cpu.reg.sp;
    cpu.execute();
    assert_eq!(cpu.reg.sp, sp0.wrapping_sub(2));
    cpu.execute();
    assert_eq!(cpu.reg.d, 0x12);
    assert_eq!(cpu.reg.e, 0x34);
    assert_eq!(cpu.reg.sp, sp0);
}

#[test]
fn halt_stops_stepping_until_woken() {
    let mut cpu = CPU::new();
    cpu.mem.write_byte(0x0000, 0x76);
    cpu.execute();
    assert!(cpu.is_halted);
    assert_eq!(cpu.reg.pc, 0x0001);
    cpu.execute(); // halted: nothing moves
    assert_eq!(cpu.reg.pc, 0x0001);
    cpu.is_halted = false; // an external interrupt wakes the core
    cpu.execute(); // NOP at 0x0001
    assert_eq!(cpu.reg.pc, 0x0002);
}

#[test]
fn reserved_opcodes_are_noops() {
    for op in [0xD3u8, 0xDB, 0xDD, 0xE3, 0xE4, 0xEB, 0xEC, 0xED, 0xF4, 0xFC, 0xFD] {
        let mut cpu = CPU::new();
        cpu.reg.f = Z | C;
        cpu.mem.write_byte(0x0000, op);
        cpu.execute();
        assert_eq!(cpu.reg.pc, 0x0001);
        assert_eq!(cpu.reg.sp, 0xFFFE);
        assert_eq!(cpu.reg.f, Z | C);
        assert!(!cpu.is_halted);
    }
}

#[test]
fn ei_di_and_reti_toggle_ime() {
    let mut cpu = CPU::new();
    cpu.mem.write_byte(0x0000, 0xFB); // EI
    cpu.mem.write_byte(0x0001, 0xF3); // DI
    cpu.execute();
    assert!(cpu.ime);
    cpu.execute();
    assert!(!cpu.ime);

    // RETI: return and enable interrupts in one step
    let mut cpu = CPU::new();
    cpu.reg.sp = 0xFFFC;
    cpu.mem.write_word(0xFFFC, 0x1234);
    cpu.mem.write_byte(0x0000, 0xD9);
    cpu.execute();
    assert!(cpu.ime);
    assert_eq!(cpu.reg.pc, 0x1234);
    assert_eq!(cpu.reg.sp, 0xFFFE);
}

#[test]
fn rst_pushes_and_jumps_low() {
    let mut cpu = CPU::new();
    cpu.reg.pc = 0x0200;
    cpu.mem.write_byte(0x0200, 0xFF); // RST 0x38
    cpu.execute();
    assert_eq!(cpu.reg.pc, 0x0038);
    assert_eq!(cpu.reg.sp, 0xFFFC);
    assert_eq!(cpu.mem.read_word(0xFFFC), 0x0201);
}

#[test]
fn jp_conditional_both_ways() {
    let mut cpu = CPU::new();
    cpu.reg.f = 0; // carry clear: JP C not taken
    cpu.mem.write_byte(0x0000, 0xDA);
    cpu.mem.write_byte(0x0001, 0x00);
    cpu.mem.write_byte(0x0002, 0x80);
    cpu.execute();
    assert_eq!(cpu.reg.pc, 0x0003);

    let mut cpu = CPU::new();
    cpu.reg.f = C;
    cpu.mem.write_byte(0x0000, 0xDA);
    cpu.mem.write_byte(0x0001, 0x00);
    cpu.mem.write_byte(0x0002, 0x80);
    cpu.execute();
    assert_eq!(cpu.reg.pc, 0x8000);
}

#[test]
fn ret_conditional_both_ways() {
    let mut cpu = CPU::new();
    cpu.reg.sp = 0xFFF0;
    cpu.mem.write_word(0xFFF0, 0x2222);
    cpu.reg.f = Z; // RET NZ not taken
    cpu.mem.write_byte(0x0000, 0xC0);
    cpu.execute();
    assert_eq!(cpu.reg.pc, 0x0001);
    assert_eq!(cpu.reg.sp, 0xFFF0);

    let mut cpu = CPU::new();
    cpu.reg.sp = 0xFFF0;
    cpu.mem.write_word(0xFFF0, 0x2222);
    cpu.reg.f = 0; // RET NZ taken
    cpu.mem.write_byte(0x0000, 0xC0);
    cpu.execute();
    assert_eq!(cpu.reg.pc, 0x2222);
    assert_eq!(cpu.reg.sp, 0xFFF2);
}

#[test]
fn high_page_store_and_load() {
    let mut cpu = CPU::new();
    cpu.reg.a = 0x5A;
    cpu.mem.write_byte(0x0000, 0xE0); // LDH (0x80),A
    cpu.mem.write_byte(0x0001, 0x80);
    cpu.execute();
    assert_eq!(cpu.mem.read_byte(0xFF80), 0x5A);

    cpu.reg.a = 0x00;
    cpu.mem.write_byte(0x0002, 0xF0); // LDH A,(0x80)
    cpu.mem.write_byte(0x0003, 0x80);
    cpu.execute();
    assert_eq!(cpu.reg.a, 0x5A);

    // the C-offset forms
    cpu.reg.c = 0x81;
    cpu.reg.a = 0x77;
    cpu.mem.write_byte(0x0004, 0xE2);
    cpu.execute();
    assert_eq!(cpu.mem.read_byte(0xFF81), 0x77);
    cpu.reg.a = 0x00;
    cpu.mem.write_byte(0x0005, 0xF2);
    cpu.execute();
    assert_eq!(cpu.reg.a, 0x77);
}

#[test]
fn ld_a16_sp_stores_little_endian() {
    let mut cpu = CPU::new();
    cpu.reg.sp = 0xBEEF;
    cpu.mem.write_byte(0x0000, 0x08);
    cpu.mem.write_byte(0x0001, 0x00);
    cpu.mem.write_byte(0x0002, 0x30);
    cpu.execute();
    assert_eq!(cpu.mem.read_byte(0x3000), 0xEF);
    assert_eq!(cpu.mem.read_byte(0x3001), 0xBE);
}

#[test]
fn register_move_block_and_hl_indirect() {
    let mut cpu = CPU::new();
    cpu.reg.b = 0xAB;
    cpu.mem.write_byte(0x0000, 0x78); // LD A,B
    cpu.execute();
    assert_eq!(cpu.reg.a, 0xAB);

    cpu.reg.h = 0x20;
    cpu.reg.l = 0x10;
    cpu.mem.write_byte(0x0001, 0x70); // LD (HL),B
    cpu.execute();
    assert_eq!(cpu.mem.read_byte(0x2010), 0xAB);

    cpu.mem.write_byte(0x0002, 0x4E); // LD C,(HL)
    cpu.execute();
    assert_eq!(cpu.reg.c, 0xAB);

    cpu.mem.write_byte(0x0003, 0x52); // LD D,D: a defined no-op
    cpu.reg.d = 0x11;
    cpu.execute();
    assert_eq!(cpu.reg.d, 0x11);
    assert_eq!(cpu.reg.pc, 0x0004);
}

#[test]
fn hl_autoincrement_and_autodecrement() {
    let mut cpu = CPU::new();
    cpu.reg.a = 0x99;
    cpu.reg.h = 0x30;
    cpu.reg.l = 0xFF;
    cpu.mem.write_byte(0x0000, 0x22); // LD (HL+),A
    cpu.execute();
    assert_eq!(cpu.mem.read_byte(0x30FF), 0x99);
    assert_eq!((cpu.reg.h, cpu.reg.l), (0x31, 0x00));

    cpu.mem.write_byte(0x0001, 0x3A); // LD A,(HL-)
    cpu.mem.write_byte(0x3100, 0x42);
    cpu.execute();
    assert_eq!(cpu.reg.a, 0x42);
    assert_eq!((cpu.reg.h, cpu.reg.l), (0x30, 0xFF));
}

#[test]
fn jp_hl_and_ld_sp_hl() {
    let mut cpu = CPU::new();
    cpu.reg.h = 0x12;
    cpu.reg.l = 0x34;
    cpu.mem.write_byte(0x0000, 0xE9); // JP HL
    cpu.execute();
    assert_eq!(cpu.reg.pc, 0x1234);

    cpu.mem.write_byte(0x1234, 0xF9); // LD SP,HL
    cpu.execute();
    assert_eq!(cpu.reg.sp, 0x1234);
}

#[test]
fn sixteen_bit_inc_dec_target_their_own_pair() {
    let mut cpu = CPU::new();
    cpu.reg.b = 0x10;
    cpu.reg.c = 0xFF;
    cpu.reg.d = 0x20;
    cpu.reg.e = 0x00;
    cpu.reg.h = 0x30;
    cpu.reg.l = 0x00;
    cpu.reg.sp = 0x4000;
    cpu.mem.write_byte(0x0000, 0x03); // INC BC
    cpu.mem.write_byte(0x0001, 0x1B); // DEC DE
    cpu.mem.write_byte(0x0002, 0x2B); // DEC HL
    cpu.mem.write_byte(0x0003, 0x3B); // DEC SP
    cpu.mem.write_byte(0x0004, 0x13); // INC DE
    cpu.execute();
    assert_eq!((cpu.reg.b, cpu.reg.c), (0x11, 0x00));
    cpu.execute();
    assert_eq!((cpu.reg.d, cpu.reg.e), (0x1F, 0xFF));
    cpu.execute();
    assert_eq!((cpu.reg.h, cpu.reg.l), (0x2F, 0xFF));
    cpu.execute();
    assert_eq!(cpu.reg.sp, 0x3FFF);
    cpu.execute();
    assert_eq!((cpu.reg.d, cpu.reg.e), (0x20, 0x00));
}

#[test]
fn call_conditional_not_taken_is_silent() {
    let mut cpu = CPU::new();
    cpu.reg.f = 0x80; // Z set: CALL NZ not taken
    cpu.mem.write_byte(0x0000, 0xC4);
    cpu.mem.write_byte(0x0001, 0x00);
    cpu.mem.write_byte(0x0002, 0x40);
    cpu.execute();
    assert_eq!(cpu.reg.pc, 0x0003);
    assert_eq!(cpu.reg.sp, 0xFFFE);
}

#[test]
fn ld_hl_immediate_byte() {
    let mut cpu = CPU::new();
    cpu.reg.h = 0x25;
    cpu.reg.l = 0x80;
    cpu.mem.write_byte(0x0000, 0x36); // LD (HL),0x66
    cpu.mem.write_byte(0x0001, 0x66);
    cpu.execute();
    assert_eq!(cpu.mem.read_byte(0x2580), 0x66);
    assert_eq!(cpu.reg.pc, 0x0002);
}

#[test]
fn ld_a16_a_and_back() {
    let mut cpu = CPU::new();
    cpu.reg.a = 0x3C;
    cpu.mem.write_byte(0x0000, 0xEA); // LD (0x5555),A
    cpu.mem.write_byte(0x0001, 0x55);
    cpu.mem.write_byte(0x0002, 0x55);
    cpu.execute();
    assert_eq!(cpu.mem.read_byte(0x5555), 0x3C);

    cpu.reg.a = 0x00;
    cpu.mem.write_byte(0x0003, 0xFA); // LD A,(0x5555)
    cpu.mem.write_byte(0x0004, 0x55);
    cpu.mem.write_byte(0x0005, 0x55);
    cpu.execute();
    assert_eq!(cpu.reg.a, 0x3C);
}
