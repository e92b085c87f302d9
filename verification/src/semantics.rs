//! The mathematical model of the execution core: the machine state as a
//! plain value, the result and flags of every ALU primitive, and a step
//! function giving the exact effect of each opcode of the primary and the
//! CB-prefixed table. The executable core in `cpu` is verified against
//! this model, one step per instruction.

use vstd::prelude::*;

use crate::register::{RegisterFile, Registers8b, Registers16b};
use crate::register::{flag_z, flag_n, flag_h, flag_c, flags_of};
use crate::register::{reg8_val, with_reg8, pair_val, with_pair, MASK_Z};
use crate::memory::{word_at, word_store};

verus! {

/// The whole machine state the core acts on: register file, flat memory,
/// the halt sub-state and the interrupt master enable gate.
pub struct CpuView {
    pub reg: RegisterFile,
    pub mem: Seq<u8>,
    pub halted: bool,
    pub ime: bool,
}

// --- 8-bit ALU primitives: (result, flags byte) ---

/// ADD: wrapping sum; Z = result is 0, N = 0, H = carry out of bit 3,
/// C = carry out of bit 7.
pub open spec fn add8(a: u8, x: u8) -> (u8, u8) {
    (
        ((a + x) % 256) as u8,
        flags_of((a + x) % 256 == 0, false, (a & 0xF) + (x & 0xF) > 0xF, a + x > 0xFF),
    )
}

/// ADC: as ADD but the incoming carry joins the sum and both carry checks.
pub open spec fn adc8(a: u8, x: u8, cin: bool) -> (u8, u8) {
    let ci: u8 = if cin { 1 } else { 0 };
    (
        ((a + x + ci) % 256) as u8,
        flags_of(
            (a + x + ci) % 256 == 0,
            false,
            (a & 0xF) + (x & 0xF) + ci > 0xF,
            a + x + ci > 0xFF,
        ),
    )
}

/// SUB: wrapping difference; Z = result is 0, N = 1, H = borrow into
/// bit 4, C = borrow.
pub open spec fn sub8(a: u8, x: u8) -> (u8, u8) {
    (
        ((a - x) % 256) as u8,
        flags_of((a - x) % 256 == 0, true, (a & 0xF) < (x & 0xF), a < x),
    )
}

/// SBC: as SUB but the incoming carry joins the subtrahend and both
/// borrow checks.
pub open spec fn sbc8(a: u8, x: u8, cin: bool) -> (u8, u8) {
    let ci: u8 = if cin { 1 } else { 0 };
    (
        ((a - x - ci) % 256) as u8,
        flags_of(
            (a - x - ci) % 256 == 0,
            true,
            (a & 0xF) < (x & 0xF) + ci,
            a < x + ci,
        ),
    )
}

/// AND: Z = result is 0, N = 0, H = 1, C = 0.
pub open spec fn and8(a: u8, x: u8) -> (u8, u8) {
    ((a & x), flags_of(a & x == 0, false, true, false))
}

/// XOR: Z = result is 0, the other flags 0.
pub open spec fn xor8(a: u8, x: u8) -> (u8, u8) {
    ((a ^ x), flags_of(a ^ x == 0, false, false, false))
}

/// OR: Z = result is 0, the other flags 0.
pub open spec fn or8(a: u8, x: u8) -> (u8, u8) {
    ((a | x), flags_of(a | x == 0, false, false, false))
}

/// CP: the flags of SUB, the accumulator untouched; only the flags byte
/// comes back.
pub open spec fn cp8(a: u8, x: u8) -> u8 {
    flags_of(a == x, true, (a & 0xF) < (x & 0xF), a < x)
}

/// INC on one byte: the Z/N/H rules of ADD with operand 1; C keeps the
/// value it has in `f`.
pub open spec fn inc8(x: u8, f: u8) -> (u8, u8) {
    (
        ((x + 1) % 256) as u8,
        flags_of((x + 1) % 256 == 0, false, (x & 0xF) + 1 > 0xF, flag_c(f)),
    )
}

/// DEC on one byte: the Z/N/H rules of SUB with operand 1; C keeps the
/// value it has in `f`.
pub open spec fn dec8(x: u8, f: u8) -> (u8, u8) {
    (
        ((x - 1) % 256) as u8,
        flags_of((x - 1) % 256 == 0, true, (x & 0xF) < 1, flag_c(f)),
    )
}

/// BCD correction after an 8-bit add/sub chain: 0x06 joins the low nibble
/// when H is set or (adding) the nibble exceeds 9; 0x60 joins the byte
/// when C is set or (adding) the value exceeds 0x99, checked before the
/// low correction; subtracting chains subtract the corrections instead.
/// Z = result is 0, N unchanged, H = 0, C = the 0x60 correction applied.
pub open spec fn daa8(a: u8, f: u8) -> (u8, u8) {
    let n = flag_n(f);
    let lo: u8 = if flag_h(f) || (!n && (a & 0xF) > 9) { 0x06 } else { 0 };
    let corr: u8 = if flag_c(f) || (!n && a > 0x99) { (lo + 0x60) as u8 } else { lo };
    let v: u8 = if n { ((a - corr) % 256) as u8 } else { ((a + corr) % 256) as u8 };
    (v, flags_of(v == 0, n, false, corr >= 0x60))
}

/// ADD HL,pair: wrapping 16-bit sum; N = 0, H = carry out of bit 11,
/// C = carry out of bit 15, Z keeps the value it has in `f`.
pub open spec fn add16(hl: u16, x: u16, f: u8) -> (u16, u8) {
    (
        ((hl + x) % 0x10000) as u16,
        flags_of(flag_z(f), false, (hl & 0xFFF) + (x & 0xFFF) > 0xFFF, hl + x > 0xFFFF),
    )
}

/// The signed-immediate 16-bit add of ADD SP,e and LD HL,SP+e: the operand
/// is sign-extended; Z and N are cleared; H and C come from bit 3 and
/// bit 7 of the unsigned low-byte addition.
pub open spec fn addimm16(x: u16, e: u8) -> (u16, u8) {
    (
        if e < 0x80 {
            ((x + e) % 0x10000) as u16
        } else {
            ((x + e + 0xFF00) % 0x10000) as u16
        },
        flags_of(false, false, (x & 0xF) + (e & 0xF) > 0xF, (x & 0xFF) + e > 0xFF),
    )
}

// --- rotates, shifts and bit operations: (result, flags byte) ---
// All of them: N = 0, H = 0, Z = result is 0 (the legacy accumulator
// rotates of the primary table clear Z afterwards).

/// RLC: rotate left circularly; C = the bit that wrapped around.
pub open spec fn rlc8(x: u8) -> (u8, u8) {
    let v: u8 = (x << 1) | ((x & 0x80) >> 7);
    (v, flags_of(v == 0, false, false, x & 0x80 != 0))
}

/// RRC: rotate right circularly; C = the bit that wrapped around.
pub open spec fn rrc8(x: u8) -> (u8, u8) {
    let v: u8 = (x >> 1) | ((x & 1) << 7);
    (v, flags_of(v == 0, false, false, x & 1 != 0))
}

/// RL: rotate left through carry; the incoming carry becomes bit 0,
/// C = the bit shifted out.
pub open spec fn rl8(x: u8, f: u8) -> (u8, u8) {
    let v: u8 = (x << 1) | (if flag_c(f) { 1u8 } else { 0u8 });
    (v, flags_of(v == 0, false, false, x & 0x80 != 0))
}

/// RR: rotate right through carry; the incoming carry becomes bit 7,
/// C = the bit shifted out.
pub open spec fn rr8(x: u8, f: u8) -> (u8, u8) {
    let v: u8 = (x >> 1) | (if flag_c(f) { 0x80u8 } else { 0u8 });
    (v, flags_of(v == 0, false, false, x & 1 != 0))
}

/// SLA: shift left, 0 fills bit 0; C = the old bit 7.
pub open spec fn sla8(x: u8) -> (u8, u8) {
    let v: u8 = x << 1;
    (v, flags_of(v == 0, false, false, x & 0x80 != 0))
}

/// SRA: shift right, the old bit 7 replicated into the new bit 7;
/// C = the old bit 0.
pub open spec fn sra8(x: u8) -> (u8, u8) {
    let v: u8 = (x >> 1) | (x & 0x80);
    (v, flags_of(v == 0, false, false, x & 1 != 0))
}

/// SRL: shift right, 0 fills bit 7; C = the old bit 0.
pub open spec fn srl8(x: u8) -> (u8, u8) {
    let v: u8 = x >> 1;
    (v, flags_of(v == 0, false, false, x & 1 != 0))
}

/// SWAP: exchange the nibbles; Z = result is 0, the other flags 0.
pub open spec fn swap8(x: u8) -> (u8, u8) {
    let v: u8 = (x << 4) | (x >> 4);
    (v, flags_of(v == 0, false, false, false))
}

/// BIT: Z = the chosen bit is 0, N = 0, H = 1, C unchanged; no value is
/// written back.
pub open spec fn bit8(x: u8, b: u8, f: u8) -> u8 {
    flags_of(x & (1u8 << b) == 0, false, true, flag_c(f))
}

/// SET: the chosen bit becomes 1; the flags are untouched.
pub open spec fn setb8(x: u8, b: u8) -> u8 {
    x | (1u8 << b)
}

/// RES: the chosen bit becomes 0; the flags are untouched.
pub open spec fn resb8(x: u8, b: u8) -> u8 {
    x & !(1u8 << b)
}

// --- state composition helpers ---

/// The state with a new register file.
pub open spec fn with_reg(s: CpuView, r: RegisterFile) -> CpuView {
    CpuView { reg: r, ..s }
}

/// The state with one memory byte updated.
pub open spec fn with_mem(s: CpuView, a: u16, v: u8) -> CpuView {
    CpuView { mem: s.mem.update(a as int, v), ..s }
}

/// The state with accumulator and flags from an ALU result.
pub open spec fn acc_apply(s: CpuView, r: (u8, u8)) -> CpuView {
    CpuView { reg: RegisterFile { a: r.0, f: r.1, ..s.reg }, ..s }
}

/// The state with a new flags byte only.
pub open spec fn flags_apply(s: CpuView, f: u8) -> CpuView {
    CpuView { reg: RegisterFile { f: f, ..s.reg }, ..s }
}

/// One opcode or immediate byte fetched: the byte at PC, and the state
/// with PC one further (wrapping).
pub open spec fn fetch_v(s: CpuView) -> (CpuView, u8) {
    (
        with_reg(s, RegisterFile { pc: ((s.reg.pc + 1) % 0x10000) as u16, ..s.reg }),
        s.mem[s.reg.pc as int],
    )
}

/// A little-endian immediate word fetched: the word at PC, and the state
/// with PC two further (wrapping).
pub open spec fn fetchw_v(s: CpuView) -> (CpuView, u16) {
    (
        with_reg(s, RegisterFile { pc: ((s.reg.pc + 2) % 0x10000) as u16, ..s.reg }),
        word_at(s.mem, s.reg.pc),
    )
}

/// A word pushed: SP moves down by two (wrapping), then the word is
/// stored at the new SP.
pub open spec fn push_v(s: CpuView, v: u16) -> CpuView {
    let nsp = ((s.reg.sp - 2) % 0x10000) as u16;
    CpuView {
        reg: RegisterFile { sp: nsp, ..s.reg },
        mem: word_store(s.mem, nsp, v),
        ..s
    }
}

/// A word popped: the word at SP, and the state with SP two further
/// (wrapping).
pub open spec fn pop_v(s: CpuView) -> (CpuView, u16) {
    (
        with_reg(s, RegisterFile { sp: ((s.reg.sp + 2) % 0x10000) as u16, ..s.reg }),
        word_at(s.mem, s.reg.sp),
    )
}

/// The register an operand index of the 8-wide operand axis names;
/// index 6, the HL-indirect slot, never reaches this map.
pub open spec fn reg_of_idx(i: u8) -> Registers8b {
    match i {
        0u8 => Registers8b::B,
        1u8 => Registers8b::C,
        2u8 => Registers8b::D,
        3u8 => Registers8b::E,
        4u8 => Registers8b::H,
        5u8 => Registers8b::L,
        _ => Registers8b::A,
    }
}

/// The operand value an index of the operand axis stands for: a register,
/// or for index 6 the memory byte at HL.
pub open spec fn src_val_v(s: CpuView, i: u8) -> u8 {
    if i == 6 {
        s.mem[pair_val(s.reg, Registers16b::HL) as int]
    } else {
        reg8_val(s.reg, reg_of_idx(i))
    }
}

/// The state after a write to an operand slot: a register, or for index 6
/// the memory byte at HL.
pub open spec fn put_v(s: CpuView, i: u8, v: u8) -> CpuView {
    if i == 6 {
        with_mem(s, pair_val(s.reg, Registers16b::HL), v)
    } else {
        with_reg(s, with_reg8(s.reg, reg_of_idx(i), v))
    }
}

/// The accumulator-and-flags effect of ALU family `k` of the 0x80..0xBF
/// block (and its immediate-operand forms): ADD, ADC, SUB, SBC, AND, XOR,
/// OR, CP in that order.
pub open spec fn alu_op_v(s: CpuView, k: u8, x: u8) -> CpuView {
    match k {
        0u8 => acc_apply(s, add8(s.reg.a, x)),
        1u8 => acc_apply(s, adc8(s.reg.a, x, flag_c(s.reg.f))),
        2u8 => acc_apply(s, sub8(s.reg.a, x)),
        3u8 => acc_apply(s, sbc8(s.reg.a, x, flag_c(s.reg.f))),
        4u8 => acc_apply(s, and8(s.reg.a, x)),
        5u8 => acc_apply(s, xor8(s.reg.a, x)),
        6u8 => acc_apply(s, or8(s.reg.a, x)),
        _ => flags_apply(s, cp8(s.reg.a, x)),
    }
}

/// The value-and-flags effect of rotate/shift family `k` of the CB table:
/// RLC, RRC, RL, RR, SLA, SRA, SWAP, SRL in that order.
pub open spec fn rot_v(x: u8, k: u8, f: u8) -> (u8, u8) {
    match k {
        0u8 => rlc8(x),
        1u8 => rrc8(x),
        2u8 => rl8(x, f),
        3u8 => rr8(x, f),
        4u8 => sla8(x),
        5u8 => sra8(x),
        6u8 => swap8(x),
        _ => srl8(x),
    }
}

/// INC on a register operand.
pub open spec fn inc_r(s: CpuView, sel: Registers8b) -> CpuView {
    let r = inc8(reg8_val(s.reg, sel), s.reg.f);
    with_reg(s, with_reg8(RegisterFile { f: r.1, ..s.reg }, sel, r.0))
}

/// DEC on a register operand.
pub open spec fn dec_r(s: CpuView, sel: Registers8b) -> CpuView {
    let r = dec8(reg8_val(s.reg, sel), s.reg.f);
    with_reg(s, with_reg8(RegisterFile { f: r.1, ..s.reg }, sel, r.0))
}

/// INC on the memory byte at `a`.
pub open spec fn mem_inc_v(s: CpuView, a: u16) -> CpuView {
    let r = inc8(s.mem[a as int], s.reg.f);
    CpuView { reg: RegisterFile { f: r.1, ..s.reg }, mem: s.mem.update(a as int, r.0), ..s }
}

/// DEC on the memory byte at `a`.
pub open spec fn mem_dec_v(s: CpuView, a: u16) -> CpuView {
    let r = dec8(s.mem[a as int], s.reg.f);
    CpuView { reg: RegisterFile { f: r.1, ..s.reg }, mem: s.mem.update(a as int, r.0), ..s }
}

/// A 16-bit immediate load into a pair.
pub open spec fn ld16_v(s: CpuView, p: Registers16b) -> CpuView {
    let r = fetchw_v(s);
    with_reg(r.0, with_pair(r.0.reg, p, r.1))
}

/// An 8-bit immediate load into a register.
pub open spec fn ld8imm_v(s: CpuView, sel: Registers8b) -> CpuView {
    let r = fetch_v(s);
    with_reg(r.0, with_reg8(r.0.reg, sel, r.1))
}

/// A 16-bit increment of a pair, wrapping, no flag effect.
pub open spec fn inc16_v(s: CpuView, p: Registers16b) -> CpuView {
    with_reg(s, with_pair(s.reg, p, ((pair_val(s.reg, p) + 1) % 0x10000) as u16))
}

/// A 16-bit decrement of a pair, wrapping, no flag effect.
pub open spec fn dec16_v(s: CpuView, p: Registers16b) -> CpuView {
    with_reg(s, with_pair(s.reg, p, ((pair_val(s.reg, p) + 0xFFFF) % 0x10000) as u16))
}

/// ADD HL,pair applied to the state.
pub open spec fn addhl_v(s: CpuView, p: Registers16b) -> CpuView {
    let r = add16(pair_val(s.reg, Registers16b::HL), pair_val(s.reg, p), s.reg.f);
    with_reg(s, with_pair(RegisterFile { f: r.1, ..s.reg }, Registers16b::HL, r.0))
}

/// The signed-immediate 16-bit add: the immediate fetched, the flags set;
/// the sum comes back beside the state, for SP or HL to take.
pub open spec fn addimm_v(s: CpuView, x: u16) -> (CpuView, u16) {
    let f = fetch_v(s);
    let r = addimm16(x, f.1);
    (CpuView { reg: RegisterFile { f: r.1, ..f.0.reg }, ..f.0 }, r.0)
}

/// The PC-relative branch target: PC plus the sign-extended offset byte,
/// wrapping.
pub open spec fn rel_target(pc: u16, e: u8) -> u16 {
    if e < 0x80 {
        ((pc + e) % 0x10000) as u16
    } else {
        ((pc + e + 0xFF00) % 0x10000) as u16
    }
}

/// JR: the offset byte is always fetched; the branch is taken only when
/// the condition holds.
pub open spec fn jr_v(s: CpuView, cond: bool) -> CpuView {
    let r = fetch_v(s);
    if cond {
        with_reg(r.0, RegisterFile { pc: rel_target(r.0.reg.pc, r.1), ..r.0.reg })
    } else {
        r.0
    }
}

/// JP: the target word is always fetched; PC moves there only when the
/// condition holds.
pub open spec fn jp_v(s: CpuView, cond: bool) -> CpuView {
    let r = fetchw_v(s);
    if cond {
        with_reg(r.0, RegisterFile { pc: r.1, ..r.0.reg })
    } else {
        r.0
    }
}

/// CALL: the target word is always fetched; when the condition holds the
/// PC beyond the operand is pushed and PC moves to the target.
pub open spec fn call_v(s: CpuView, cond: bool) -> CpuView {
    let r = fetchw_v(s);
    if cond {
        let s3 = push_v(r.0, r.0.reg.pc);
        with_reg(s3, RegisterFile { pc: r.1, ..s3.reg })
    } else {
        r.0
    }
}

/// RET: when the condition holds a word is popped into PC; otherwise
/// nothing changes.
pub open spec fn ret_v(s: CpuView, cond: bool) -> CpuView {
    if cond {
        let r = pop_v(s);
        with_reg(r.0, RegisterFile { pc: r.1, ..r.0.reg })
    } else {
        s
    }
}

/// RST: the current PC is pushed and PC moves to the fixed low address.
pub open spec fn rst_v(s: CpuView, n: u8) -> CpuView {
    let s2 = push_v(s, s.reg.pc);
    with_reg(s2, RegisterFile { pc: n as u16, ..s2.reg })
}

/// The operand index and the bit/family index cut out of an opcode byte
/// stay below 8.
pub proof fn lemma_op_fields(op: u8)
    by (bit_vector)
    ensures
        op & 7 < 8,
        (op >> 3) & 7 < 8,
        op < 0x40 ==> op >> 3 < 8,
{
}

// --- the step function ---

/// The effect of one CB-prefixed opcode, starting at the state after the
/// 0xCB byte itself was fetched: rows 0x00..0x3F are the rotate/shift
/// family, 0x40..0x7F BIT, 0x80..0xBF RES, 0xC0..0xFF SET, each over the
/// 8-wide operand axis, the bit index in bits 3..5.
pub open spec fn step_cb(s: CpuView) -> CpuView {
    let r = fetch_v(s);
    let s1 = r.0;
    let op = r.1;
    let t = op & 7;
    let x = src_val_v(s1, t);
    if op < 0x40 {
        let rr = rot_v(x, op >> 3, s1.reg.f);
        put_v(flags_apply(s1, rr.1), t, rr.0)
    } else if op < 0x80 {
        flags_apply(s1, bit8(x, (op >> 3) & 7, s1.reg.f))
    } else if op < 0xC0 {
        put_v(s1, t, resb8(x, (op >> 3) & 7))
    } else {
        put_v(s1, t, setb8(x, (op >> 3) & 7))
    }
}

/// The effect of a primary opcode below 0x40, starting at the state after
/// the opcode byte was fetched. 0x10 (STOP) is left a no-op, as the
/// reserved opcodes are.
pub open spec fn step_lo(s: CpuView, op: u8) -> CpuView {
    match op {
        0x00u8 => s,
        0x01u8 => ld16_v(s, Registers16b::BC),
        0x02u8 => with_mem(s, pair_val(s.reg, Registers16b::BC), s.reg.a),
        0x03u8 => inc16_v(s, Registers16b::BC),
        0x04u8 => inc_r(s, Registers8b::B),
        0x05u8 => dec_r(s, Registers8b::B),
        0x06u8 => ld8imm_v(s, Registers8b::B),
        0x07u8 => {
            let r = rlc8(s.reg.a);
            with_reg(s, RegisterFile { a: r.0, f: r.1 & !MASK_Z, ..s.reg })
        },
        0x08u8 => {
            let r = fetchw_v(s);
            CpuView { mem: word_store(r.0.mem, r.1, r.0.reg.sp), ..r.0 }
        },
        0x09u8 => addhl_v(s, Registers16b::BC),
        0x0Au8 => with_reg(
            s,
            RegisterFile { a: s.mem[pair_val(s.reg, Registers16b::BC) as int], ..s.reg },
        ),
        0x0Bu8 => dec16_v(s, Registers16b::BC),
        0x0Cu8 => inc_r(s, Registers8b::C),
        0x0Du8 => dec_r(s, Registers8b::C),
        0x0Eu8 => ld8imm_v(s, Registers8b::C),
        0x0Fu8 => {
            let r = rrc8(s.reg.a);
            with_reg(s, RegisterFile { a: r.0, f: r.1 & !MASK_Z, ..s.reg })
        },
        0x10u8 => s,
        0x11u8 => ld16_v(s, Registers16b::DE),
        0x12u8 => with_mem(s, pair_val(s.reg, Registers16b::DE), s.reg.a),
        0x13u8 => inc16_v(s, Registers16b::DE),
        0x14u8 => inc_r(s, Registers8b::D),
        0x15u8 => dec_r(s, Registers8b::D),
        0x16u8 => ld8imm_v(s, Registers8b::D),
        0x17u8 => {
            let r = rl8(s.reg.a, s.reg.f);
            with_reg(s, RegisterFile { a: r.0, f: r.1 & !MASK_Z, ..s.reg })
        },
        0x18u8 => jr_v(s, true),
        0x19u8 => addhl_v(s, Registers16b::DE),
        0x1Au8 => with_reg(
            s,
            RegisterFile { a: s.mem[pair_val(s.reg, Registers16b::DE) as int], ..s.reg },
        ),
        0x1Bu8 => dec16_v(s, Registers16b::DE),
        0x1Cu8 => inc_r(s, Registers8b::E),
        0x1Du8 => dec_r(s, Registers8b::E),
        0x1Eu8 => ld8imm_v(s, Registers8b::E),
        0x1Fu8 => {
            let r = rr8(s.reg.a, s.reg.f);
            with_reg(s, RegisterFile { a: r.0, f: r.1 & !MASK_Z, ..s.reg })
        },
        0x20u8 => jr_v(s, !flag_z(s.reg.f)),
        0x21u8 => ld16_v(s, Registers16b::HL),
        0x22u8 => {
            let hl = pair_val(s.reg, Registers16b::HL);
            CpuView {
                reg: with_pair(s.reg, Registers16b::HL, ((hl + 1) % 0x10000) as u16),
                mem: s.mem.update(hl as int, s.reg.a),
                ..s
            }
        },
        0x23u8 => inc16_v(s, Registers16b::HL),
        0x24u8 => inc_r(s, Registers8b::H),
        0x25u8 => dec_r(s, Registers8b::H),
        0x26u8 => ld8imm_v(s, Registers8b::H),
        0x27u8 => acc_apply(s, daa8(s.reg.a, s.reg.f)),
        0x28u8 => jr_v(s, flag_z(s.reg.f)),
        0x29u8 => addhl_v(s, Registers16b::HL),
        0x2Au8 => {
            let hl = pair_val(s.reg, Registers16b::HL);
            with_reg(
                s,
                with_pair(
                    RegisterFile { a: s.mem[hl as int], ..s.reg },
                    Registers16b::HL,
                    ((hl + 1) % 0x10000) as u16,
                ),
            )
        },
        0x2Bu8 => dec16_v(s, Registers16b::HL),
        0x2Cu8 => inc_r(s, Registers8b::L),
        0x2Du8 => dec_r(s, Registers8b::L),
        0x2Eu8 => ld8imm_v(s, Registers8b::L),
        0x2Fu8 => with_reg(
            s,
            RegisterFile {
                a: s.reg.a ^ 0xFF,
                f: flags_of(flag_z(s.reg.f), true, true, flag_c(s.reg.f)),
                ..s.reg
            },
        ),
        0x30u8 => jr_v(s, !flag_c(s.reg.f)),
        0x31u8 => ld16_v(s, Registers16b::SP),
        0x32u8 => {
            let hl = pair_val(s.reg, Registers16b::HL);
            CpuView {
                reg: with_pair(s.reg, Registers16b::HL, ((hl + 0xFFFF) % 0x10000) as u16),
                mem: s.mem.update(hl as int, s.reg.a),
                ..s
            }
        },
        0x33u8 => inc16_v(s, Registers16b::SP),
        0x34u8 => mem_inc_v(s, pair_val(s.reg, Registers16b::HL)),
        0x35u8 => mem_dec_v(s, pair_val(s.reg, Registers16b::HL)),
        0x36u8 => {
            let r = fetch_v(s);
            with_mem(r.0, pair_val(r.0.reg, Registers16b::HL), r.1)
        },
        0x37u8 => flags_apply(s, flags_of(flag_z(s.reg.f), false, false, true)),
        0x38u8 => jr_v(s, flag_c(s.reg.f)),
        0x39u8 => addhl_v(s, Registers16b::SP),
        0x3Au8 => {
            let hl = pair_val(s.reg, Registers16b::HL);
            with_reg(
                s,
                with_pair(
                    RegisterFile { a: s.mem[hl as int], ..s.reg },
                    Registers16b::HL,
                    ((hl + 0xFFFF) % 0x10000) as u16,
                ),
            )
        },
        0x3Bu8 => dec16_v(s, Registers16b::SP),
        0x3Cu8 => inc_r(s, Registers8b::A),
        0x3Du8 => dec_r(s, Registers8b::A),
        0x3Eu8 => ld8imm_v(s, Registers8b::A),
        0x3Fu8 => flags_apply(
            s,
            flags_of(flag_z(s.reg.f), false, false, !flag_c(s.reg.f)),
        ),
        _ => s,
    }
}

/// The effect of a primary opcode at or above 0xC0, starting at the state
/// after the opcode byte was fetched. The reserved byte values are
/// defined no-ops.
pub open spec fn step_hi(s: CpuView, op: u8) -> CpuView {
    match op {
        0xC0u8 => ret_v(s, !flag_z(s.reg.f)),
        0xC1u8 => {
            let r = pop_v(s);
            with_reg(r.0, with_pair(r.0.reg, Registers16b::BC, r.1))
        },
        0xC2u8 => jp_v(s, !flag_z(s.reg.f)),
        0xC3u8 => jp_v(s, true),
        0xC4u8 => call_v(s, !flag_z(s.reg.f)),
        0xC5u8 => push_v(s, pair_val(s.reg, Registers16b::BC)),
        0xC6u8 => {
            let r = fetch_v(s);
            alu_op_v(r.0, 0, r.1)
        },
        0xC7u8 => rst_v(s, 0x00),
        0xC8u8 => ret_v(s, flag_z(s.reg.f)),
        0xC9u8 => ret_v(s, true),
        0xCAu8 => jp_v(s, flag_z(s.reg.f)),
        0xCBu8 => step_cb(s),
        0xCCu8 => call_v(s, flag_z(s.reg.f)),
        0xCDu8 => call_v(s, true),
        0xCEu8 => {
            let r = fetch_v(s);
            alu_op_v(r.0, 1, r.1)
        },
        0xCFu8 => rst_v(s, 0x08),
        0xD0u8 => ret_v(s, !flag_c(s.reg.f)),
        0xD1u8 => {
            let r = pop_v(s);
            with_reg(r.0, with_pair(r.0.reg, Registers16b::DE, r.1))
        },
        0xD2u8 => jp_v(s, !flag_c(s.reg.f)),
        0xD3u8 => s,
        0xD4u8 => call_v(s, !flag_c(s.reg.f)),
        0xD5u8 => push_v(s, pair_val(s.reg, Registers16b::DE)),
        0xD6u8 => {
            let r = fetch_v(s);
            alu_op_v(r.0, 2, r.1)
        },
        0xD7u8 => rst_v(s, 0x10),
        0xD8u8 => ret_v(s, flag_c(s.reg.f)),
        0xD9u8 => {
            let r = pop_v(s);
            CpuView { reg: RegisterFile { pc: r.1, ..r.0.reg }, ime: true, ..r.0 }
        },
        0xDAu8 => jp_v(s, flag_c(s.reg.f)),
        0xDBu8 => s,
        0xDCu8 => call_v(s, flag_c(s.reg.f)),
        0xDDu8 => s,
        0xDEu8 => {
            let r = fetch_v(s);
            alu_op_v(r.0, 3, r.1)
        },
        0xDFu8 => rst_v(s, 0x18),
        0xE0u8 => {
            let r = fetch_v(s);
            with_mem(r.0, (0xFF00 + r.1) as u16, r.0.reg.a)
        },
        0xE1u8 => {
            let r = pop_v(s);
            with_reg(r.0, with_pair(r.0.reg, Registers16b::HL, r.1))
        },
        0xE2u8 => with_mem(s, (0xFF00 + s.reg.c) as u16, s.reg.a),
        0xE3u8 => s,
        0xE4u8 => s,
        0xE5u8 => push_v(s, pair_val(s.reg, Registers16b::HL)),
        0xE6u8 => {
            let r = fetch_v(s);
            alu_op_v(r.0, 4, r.1)
        },
        0xE7u8 => rst_v(s, 0x20),
        0xE8u8 => {
            let r = addimm_v(s, s.reg.sp);
            with_reg(r.0, RegisterFile { sp: r.1, ..r.0.reg })
        },
        0xE9u8 => with_reg(
            s,
            RegisterFile { pc: pair_val(s.reg, Registers16b::HL), ..s.reg },
        ),
        0xEAu8 => {
            let r = fetchw_v(s);
            with_mem(r.0, r.1, r.0.reg.a)
        },
        0xEBu8 => s,
        0xECu8 => s,
        0xEDu8 => s,
        0xEEu8 => {
            let r = fetch_v(s);
            alu_op_v(r.0, 5, r.1)
        },
        0xEFu8 => rst_v(s, 0x28),
        0xF0u8 => {
            let r = fetch_v(s);
            with_reg(r.0, RegisterFile { a: r.0.mem[(0xFF00 + r.1) as int], ..r.0.reg })
        },
        0xF1u8 => {
            let r = pop_v(s);
            with_reg(r.0, with_pair(r.0.reg, Registers16b::AF, r.1))
        },
        0xF2u8 => with_reg(
            s,
            RegisterFile { a: s.mem[(0xFF00 + s.reg.c) as int], ..s.reg },
        ),
        0xF3u8 => CpuView { ime: false, ..s },
        0xF4u8 => s,
        0xF5u8 => push_v(s, pair_val(s.reg, Registers16b::AF)),
        0xF6u8 => {
            let r = fetch_v(s);
            alu_op_v(r.0, 6, r.1)
        },
        0xF7u8 => rst_v(s, 0x30),
        0xF8u8 => {
            let r = addimm_v(s, s.reg.sp);
            with_reg(r.0, with_pair(r.0.reg, Registers16b::HL, r.1))
        },
        0xF9u8 => with_reg(
            s,
            RegisterFile { sp: pair_val(s.reg, Registers16b::HL), ..s.reg },
        ),
        0xFAu8 => {
            let r = fetchw_v(s);
            with_reg(r.0, RegisterFile { a: r.0.mem[r.1 as int], ..r.0.reg })
        },
        0xFBu8 => CpuView { ime: true, ..s },
        0xFCu8 => s,
        0xFDu8 => s,
        0xFEu8 => {
            let r = fetch_v(s);
            alu_op_v(r.0, 7, r.1)
        },
        0xFFu8 => rst_v(s, 0x38),
        _ => s,
    }
}

/// The effect of one instruction step on the machine state. A halted core
/// stays as it is until woken from outside. Otherwise the opcode byte at
/// PC is fetched (PC one further), and its table entry acts: 0x76 halts;
/// 0x40..0x7F is the register/HL-indirect move block; 0x80..0xBF the ALU
/// block over the operand axis; the rest decode one by one.
pub open spec fn step_spec(s: CpuView) -> CpuView {
    if s.halted {
        s
    } else {
        let r = fetch_v(s);
        let s1 = r.0;
        let op = r.1;
        if op == 0x76 {
            CpuView { halted: true, ..s1 }
        } else if 0x40 <= op && op < 0x80 {
            put_v(s1, (op >> 3) & 7, src_val_v(s1, op & 7))
        } else if 0x80 <= op && op < 0xC0 {
            alu_op_v(s1, (op >> 3) & 7, src_val_v(s1, op & 7))
        } else if op < 0x40 {
            step_lo(s1, op)
        } else {
            step_hi(s1, op)
        }
    }
}

} // verus!

