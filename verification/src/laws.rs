//! The library-wide laws, stated over the model in `semantics` and proved
//! once and for all: the ADD flag table, the push/pop round trip, the BCD
//! fixpoint, the bit-operation round trips, and the exact length and
//! silence of untaken conditional branches.

use vstd::prelude::*;

use crate::register::{flag_z, flag_n, flag_h, flag_c, RegisterFile, lemma_flags_of};
use crate::memory::{word_at, word_store, MEM_SIZE};
use crate::semantics::{CpuView, add8, daa8, setb8, resb8, rlc8, rrc8, step_cb, step_spec, rel_target, pop_v, push_v};

verus! {

/// ADD sets every flag from the operands alone: the result is the sum
/// modulo 256, Z exactly on a zero result, N never, H exactly on a carry
/// out of bit 3, C exactly on a carry out of bit 7.
pub proof fn add_flags_law(a: u8, b: u8)
    ensures
        add8(a, b).0 == (a + b) % 256,
        flag_z(add8(a, b).1) <==> (a + b) % 256 == 0,
        !flag_n(add8(a, b).1),
        flag_h(add8(a, b).1) <==> (a & 0xF) + (b & 0xF) > 0xF,
        flag_c(add8(a, b).1) <==> a + b > 0xFF,
{
    lemma_flags_of((a + b) % 256 == 0, false, (a & 0xF) + (b & 0xF) > 0xF, a + b > 0xFF);
}

/// Pushing a word and popping it hands the word back and restores SP and
/// every register; only the two stacked memory bytes differ.
pub proof fn push_pop_roundtrip(s: CpuView, v: u16)
    requires
        s.mem.len() == MEM_SIZE,
    ensures
        pop_v(push_v(s, v)).1 == v,
        pop_v(push_v(s, v)).0.reg == s.reg,
        pop_v(push_v(s, v)).0.mem == push_v(s, v).mem,
        pop_v(push_v(s, v)).0.halted == s.halted,
        pop_v(push_v(s, v)).0.ime == s.ime,
{
    let nsp = ((s.reg.sp - 2) % 0x10000) as u16;
    crate::memory::Memory::lemma_word_roundtrip(s.mem, nsp, v);
}

/// BCD correction on a byte already holding two valid decimal digits,
/// with N, H and C clear, changes nothing: the accumulator comes back as
/// it was.
pub proof fn daa_bcd_fixpoint(a: u8, f: u8)
    requires
        a & 0x0F <= 9,
        a & 0xF0 <= 0x90,
        !flag_n(f),
        !flag_h(f),
        !flag_c(f),
    ensures
        daa8(a, f).0 == a,
{
    assert(a & 0x0F <= 9 && a & 0xF0 <= 0x90 ==> a <= 0x99) by (bit_vector);
}

/// A BIT instruction of the CB table reads its operand and writes nothing
/// back: memory and every register but F keep their value, and PC moves
/// one past the sub-opcode byte.
pub proof fn bit_test_preserves_state(s: CpuView)
    requires
        0x40 <= s.mem[s.reg.pc as int] < 0x80,
    ensures
        step_cb(s).mem == s.mem,
        step_cb(s).reg == (RegisterFile {
            f: step_cb(s).reg.f,
            pc: ((s.reg.pc + 1) % 0x10000) as u16,
            ..s.reg
        }),
        step_cb(s).halted == s.halted,
        step_cb(s).ime == s.ime,
{
}

/// Setting a clear bit and then resetting it hands the original byte
/// back exactly.
pub proof fn set_then_res_restores(x: u8, b: u8)
    requires
        b < 8,
        x & (1u8 << b) == 0,
    ensures
        resb8(setb8(x, b), b) == x,
{
    assert(x & (1u8 << b) == 0 && b < 8 ==> (x | (1u8 << b)) & !(1u8 << b) == x)
        by (bit_vector);
}

/// Resetting a set bit and then setting it hands the original byte back
/// exactly.
pub proof fn res_then_set_restores(x: u8, b: u8)
    requires
        b < 8,
        x & (1u8 << b) != 0,
    ensures
        setb8(resb8(x, b), b) == x,
{
    assert(x & (1u8 << b) != 0 && b < 8 ==> (x & !(1u8 << b)) | (1u8 << b) == x)
        by (bit_vector);
}

/// Rotating a byte left circularly and then right circularly restores it,
/// whatever the carry flag held; so does the other order.
pub proof fn rotate_roundtrip(x: u8)
    ensures
        rrc8(rlc8(x).0).0 == x,
        rlc8(rrc8(x).0).0 == x,
{
    assert((((x << 1) | ((x & 0x80) >> 7)) >> 1) | ((((x << 1) | ((x & 0x80) >> 7)) & 1) << 7)
        == x) by (bit_vector);
    assert(((((x >> 1) | ((x & 1) << 7)) << 1) | ((((x >> 1) | ((x & 1) << 7)) & 0x80) >> 7))
        == x) by (bit_vector);
}

/// The flag condition a conditional JR/JP/CALL/RET opcode tests:
/// not-zero, zero, no-carry or carry, by the opcode's row.
pub open spec fn cond_sel(op: u8, f: u8) -> bool {
    if op == 0x20 || op == 0xC0 || op == 0xC2 || op == 0xC4 {
        !flag_z(f)
    } else if op == 0x28 || op == 0xC8 || op == 0xCA || op == 0xCC {
        flag_z(f)
    } else if op == 0x30 || op == 0xD0 || op == 0xD2 || op == 0xD4 {
        !flag_c(f)
    } else {
        flag_c(f)
    }
}

/// Two single-byte PC advances make a two-byte advance, and one more a
/// three-byte advance, all wrapping.
proof fn lemma_mod_step(pc: u16)
    ensures
        (((pc + 1) % 0x10000) + 1) % 0x10000 == (pc + 2) % 0x10000,
        (((pc + 1) % 0x10000) + 2) % 0x10000 == (pc + 3) % 0x10000,
{
    if pc + 1 < 0x10000 {
        assert((pc + 1) % 0x10000 == pc + 1);
    } else {
        assert((pc + 1) % 0x10000 == pc + 1 - 0x10000);
    }
}

/// A conditional relative jump whose condition fails advances PC by
/// exactly its two encoded bytes and touches neither memory nor SP; one
/// whose condition holds lands at PC-past-the-operand plus the
/// sign-extended offset byte, with the same silence elsewhere.
pub proof fn jr_conditional_law(s: CpuView, op: u8)
    requires
        !s.halted,
        s.mem[s.reg.pc as int] == op,
        op == 0x20 || op == 0x28 || op == 0x30 || op == 0x38,
    ensures
        step_spec(s).mem == s.mem,
        step_spec(s).halted == s.halted,
        step_spec(s).ime == s.ime,
        step_spec(s).reg == (RegisterFile { pc: step_spec(s).reg.pc, ..s.reg }),
        !cond_sel(op, s.reg.f) ==> step_spec(s).reg.pc == ((s.reg.pc + 2) % 0x10000) as u16,
        cond_sel(op, s.reg.f) ==> step_spec(s).reg.pc == rel_target(
            ((s.reg.pc + 2) % 0x10000) as u16,
            s.mem[((s.reg.pc + 1) % 0x10000) as int],
        ),
{
    lemma_mod_step(s.reg.pc);
}

/// A conditional absolute jump whose condition fails advances PC by
/// exactly its three encoded bytes and touches neither memory nor SP; one
/// whose condition holds lands at the immediate target word, with the
/// same silence elsewhere.
pub proof fn jp_conditional_law(s: CpuView, op: u8)
    requires
        !s.halted,
        s.mem[s.reg.pc as int] == op,
        op == 0xC2 || op == 0xCA || op == 0xD2 || op == 0xDA,
    ensures
        step_spec(s).mem == s.mem,
        step_spec(s).halted == s.halted,
        step_spec(s).ime == s.ime,
        step_spec(s).reg == (RegisterFile { pc: step_spec(s).reg.pc, ..s.reg }),
        !cond_sel(op, s.reg.f) ==> step_spec(s).reg.pc == ((s.reg.pc + 3) % 0x10000) as u16,
        cond_sel(op, s.reg.f) ==> step_spec(s).reg.pc == word_at(
            s.mem,
            ((s.reg.pc + 1) % 0x10000) as u16,
        ),
{
    lemma_mod_step(s.reg.pc);
}

/// A conditional call whose condition fails advances PC by exactly its
/// three encoded bytes and touches neither memory nor SP; one whose
/// condition holds pushes the address past the operand, moves SP down by
/// two, and lands at the target word.
pub proof fn call_conditional_law(s: CpuView, op: u8)
    requires
        !s.halted,
        s.mem[s.reg.pc as int] == op,
        op == 0xC4 || op == 0xCC || op == 0xD4 || op == 0xDC,
    ensures
        step_spec(s).halted == s.halted,
        step_spec(s).ime == s.ime,
        !cond_sel(op, s.reg.f) ==> step_spec(s) == (CpuView {
            reg: RegisterFile { pc: ((s.reg.pc + 3) % 0x10000) as u16, ..s.reg },
            ..s
        }),
        cond_sel(op, s.reg.f) ==> step_spec(s) == (CpuView {
            reg: RegisterFile {
                pc: word_at(s.mem, ((s.reg.pc + 1) % 0x10000) as u16),
                sp: ((s.reg.sp - 2) % 0x10000) as u16,
                ..s.reg
            },
            mem: word_store(
                s.mem,
                ((s.reg.sp - 2) % 0x10000) as u16,
                ((s.reg.pc + 3) % 0x10000) as u16,
            ),
            ..s
        }),
{
    lemma_mod_step(s.reg.pc);
}

/// A conditional return whose condition fails advances PC by exactly its
/// one encoded byte and touches neither memory nor SP; one whose
/// condition holds pops the return address into PC, moving SP up by two.
pub proof fn ret_conditional_law(s: CpuView, op: u8)
    requires
        !s.halted,
        s.mem[s.reg.pc as int] == op,
        op == 0xC0 || op == 0xC8 || op == 0xD0 || op == 0xD8,
    ensures
        step_spec(s).mem == s.mem,
        step_spec(s).halted == s.halted,
        step_spec(s).ime == s.ime,
        !cond_sel(op, s.reg.f) ==> step_spec(s).reg == (RegisterFile {
            pc: ((s.reg.pc + 1) % 0x10000) as u16,
            ..s.reg
        }),
        cond_sel(op, s.reg.f) ==> step_spec(s).reg == (RegisterFile {
            pc: word_at(s.mem, s.reg.sp),
            sp: ((s.reg.sp + 2) % 0x10000) as u16,
            ..s.reg
        }),
{
    lemma_mod_step(s.reg.pc);
}

} // verus!
