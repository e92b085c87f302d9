//! The executable execution core: fetch, decode and execute one
//! instruction per `execute` call, against the register file and the
//! memory bus. Every operation is proved to act on the machine state
//! exactly as the model in `semantics` says.

use vstd::prelude::*;

use crate::register::{RegisterFile, Registers8b, Registers16b, Flags};
use crate::register::{flags_valid, flag_c, lemma_flags_of, lemma_with_flag, lemma_mask_f0};
use crate::memory::Memory;
use crate::semantics::{CpuView, jr_v, jp_v, call_v, ret_v, rst_v, add8, adc8, sub8, sbc8, and8, xor8, or8, cp8, daa8, rlc8, rrc8, rl8, rr8, sla8, sra8, srl8, swap8, bit8, setb8, resb8, acc_apply, flags_apply, fetch_v, fetchw_v, push_v, pop_v, src_val_v, put_v, inc_r, dec_r, mem_inc_v, mem_dec_v, addimm_v, addhl_v, step_spec, step_lo, step_hi, step_cb, lemma_op_fields};

verus! {

/// The CPU: register file, the memory bus it executes against, the halt
/// sub-state and the interrupt master enable gate.
pub struct CPU {
    pub reg: RegisterFile,
    pub mem: Memory,
    pub is_halted: bool,
    pub ime: bool,
}

impl View for CPU {
    type V = CpuView;

    open spec fn view(&self) -> CpuView {
        CpuView { reg: self.reg, mem: self.mem@, halted: self.is_halted, ime: self.ime }
    }
}

impl CPU {
    /// Well-formed: the memory covers the whole address space and the
    /// flags register keeps its low nibble zero.
    pub open spec fn wf(&self) -> bool {
        self.mem.wf() && flags_valid(self.reg.f)
    }

    /// A fresh core: registers at reset, zeroed memory, not halted,
    /// interrupts disabled.
    pub fn new() -> (r: CPU)
        ensures
            r.wf(),
            r.reg == crate::register::reset_regs(),
            forall|i: int| 0 <= i < 0x10000 ==> r@.mem[i] == 0,
            r@.mem.len() == 0x10000,
            !r.is_halted,
            !r.ime,
    {
        proof {
            assert(0u8 & 0x0F == 0) by (bit_vector);
        }
        CPU { reg: RegisterFile::new(), mem: Memory::new(), is_halted: false, ime: false }
    }

    /// Reads the byte at PC and moves PC one further (wrapping).
    fn fetch_byte(&mut self) -> (r: u8)
        requires
            old(self).wf(),
        ensures
            final(self).wf(),
            final(self)@ == fetch_v(old(self)@).0,
            r == fetch_v(old(self)@).1,
    {
        let b = self.mem.read_byte(self.reg.pc);
        self.reg.pc = self.reg.pc.wrapping_add(1);
        b
    }

    /// Reads the little-endian word at PC and moves PC two further
    /// (wrapping).
    fn fetch_word(&mut self) -> (r: u16)
        requires
            old(self).wf(),
        ensures
            final(self).wf(),
            final(self)@ == fetchw_v(old(self)@).0,
            r == fetchw_v(old(self)@).1,
    {
        let w = self.mem.read_word(self.reg.pc);
        self.reg.pc = self.reg.pc.wrapping_add(2);
        w
    }

    /// Pushes a word: SP moves down by two (wrapping), the word lands at
    /// the new SP.
    fn push_stack(&mut self, value: u16)
        requires
            old(self).wf(),
        ensures
            final(self).wf(),
            final(self)@ == push_v(old(self)@, value),
    {
        self.reg.sp = self.reg.sp.wrapping_sub(2);
        self.mem.write_word(self.reg.sp, value);
    }

    /// Pops a word: the word at SP comes back, SP moves two further
    /// (wrapping).
    fn pop_stack(&mut self) -> (r: u16)
        requires
            old(self).wf(),
        ensures
            final(self).wf(),
            final(self)@ == pop_v(old(self)@).0,
            r == pop_v(old(self)@).1,
    {
        let w = self.mem.read_word(self.reg.sp);
        self.reg.sp = self.reg.sp.wrapping_add(2);
        w
    }

    /// ADD to the accumulator, all four flags set.
    fn alu_add(&mut self, operand: u8)
        ensures
            final(self)@ == acc_apply(old(self)@, add8(old(self).reg.a, operand)),
            flags_valid(final(self).reg.f),
    {
        let op1 = self.reg.a;
        let result = op1.wrapping_add(operand);
        self.reg.a = result;
        self.reg.set_flags(
            result == 0,
            false,
            ((op1 & 0x0F) as u16) + ((operand & 0x0F) as u16) > 0x0F,
            (op1 as u16) + (operand as u16) > 0xFF,
        );
        proof {
            lemma_flags_of(
                result == 0,
                false,
                (op1 & 0x0F) + (operand & 0x0F) > 0x0F,
                op1 + operand > 0xFF,
            );
        }
    }

    /// ADC: ADD with the incoming carry flag joining the sum.
    fn alu_adc(&mut self, operand: u8)
        ensures
            final(self)@ == acc_apply(
                old(self)@,
                adc8(old(self).reg.a, operand, flag_c(old(self).reg.f)),
            ),
            flags_valid(final(self).reg.f),
    {
        let carry: u8 = if self.reg.get_flag(Flags::FC) { 1 } else { 0 };
        let op1 = self.reg.a;
        let result = op1.wrapping_add(operand).wrapping_add(carry);
        self.reg.a = result;
        let z = result == 0;
        let h = ((op1 & 0x0F) as u16) + ((operand & 0x0F) as u16) + (carry as u16) > 0x0F;
        let c = (op1 as u16) + (operand as u16) + (carry as u16) > 0xFF;
        self.reg.set_flags(z, false, h, c);
        proof {
            lemma_flags_of(z, false, h, c);
        }
    }

    /// SUB from the accumulator, all four flags set.
    fn alu_sub(&mut self, operand: u8)
        ensures
            final(self)@ == acc_apply(old(self)@, sub8(old(self).reg.a, operand)),
            flags_valid(final(self).reg.f),
    {
        let op1 = self.reg.a;
        let result = op1.wrapping_sub(operand);
        self.reg.a = result;
        let z = result == 0;
        let h = (op1 & 0x0F) < (operand & 0x0F);
        let c = op1 < operand;
        self.reg.set_flags(z, true, h, c);
        proof {
            lemma_flags_of(z, true, h, c);
        }
    }

    /// SBC: SUB with the incoming carry flag joining the subtrahend.
    fn alu_sbc(&mut self, operand: u8)
        ensures
            final(self)@ == acc_apply(
                old(self)@,
                sbc8(old(self).reg.a, operand, flag_c(old(self).reg.f)),
            ),
            flags_valid(final(self).reg.f),
    {
        let carry: u8 = if self.reg.get_flag(Flags::FC) { 1 } else { 0 };
        let op1 = self.reg.a;
        let result = op1.wrapping_sub(operand).wrapping_sub(carry);
        self.reg.a = result;
        let z = result == 0;
        let h = ((op1 & 0x0F) as u16) < ((operand & 0x0F) as u16) + (carry as u16);
        let c = (op1 as u16) < (operand as u16) + (carry as u16);
        self.reg.set_flags(z, true, h, c);
        proof {
            lemma_flags_of(z, true, h, c);
        }
    }

    /// AND into the accumulator; H is set, C cleared.
    fn alu_and(&mut self, operand: u8)
        ensures
            final(self)@ == acc_apply(old(self)@, and8(old(self).reg.a, operand)),
            flags_valid(final(self).reg.f),
    {
        let result = self.reg.a & operand;
        self.reg.a = result;
        self.reg.set_flags(result == 0, false, true, false);
        proof {
            lemma_flags_of(result == 0, false, true, false);
        }
    }

    /// XOR into the accumulator; N, H, C cleared.
    fn alu_xor(&mut self, operand: u8)
        ensures
            final(self)@ == acc_apply(old(self)@, xor8(old(self).reg.a, operand)),
            flags_valid(final(self).reg.f),
    {
        let result = self.reg.a ^ operand;
        self.reg.a = result;
        self.reg.set_flags(result == 0, false, false, false);
        proof {
            lemma_flags_of(result == 0, false, false, false);
        }
    }

    /// OR into the accumulator; N, H, C cleared.
    fn alu_or(&mut self, operand: u8)
        ensures
            final(self)@ == acc_apply(old(self)@, or8(old(self).reg.a, operand)),
            flags_valid(final(self).reg.f),
    {
        let result = self.reg.a | operand;
        self.reg.a = result;
        self.reg.set_flags(result == 0, false, false, false);
        proof {
            lemma_flags_of(result == 0, false, false, false);
        }
    }

    /// CP: the flags of SUB, the accumulator left alone.
    fn alu_cp(&mut self, operand: u8)
        ensures
            final(self)@ == flags_apply(old(self)@, cp8(old(self).reg.a, operand)),
            flags_valid(final(self).reg.f),
    {
        let op1 = self.reg.a;
        let z = op1 == operand;
        let h = (op1 & 0x0F) < (operand & 0x0F);
        let c = op1 < operand;
        self.reg.set_flags(z, true, h, c);
        proof {
            lemma_flags_of(z, true, h, c);
        }
    }

    /// INC on one 8-bit register; C is untouched.
    fn alu_inc(&mut self, reg: Registers8b)
        ensures
            final(self)@ == inc_r(old(self)@, reg),
            flags_valid(old(self).reg.f) ==> flags_valid(final(self).reg.f),
    {
        let x = self.reg.read_8b(reg);
        let result = x.wrapping_add(1);
        let z = result == 0;
        let h = ((x & 0x0F) as u16) + 1 > 0x0F;
        let c = self.reg.get_flag(Flags::FC);
        self.reg.set_flags(z, false, h, c);
        self.reg.write_8b(reg, result);
        proof {
            lemma_flags_of(z, false, h, c);
            lemma_mask_f0(result);
        }
    }

    /// DEC on one 8-bit register; C is untouched.
    fn alu_dec(&mut self, reg: Registers8b)
        ensures
            final(self)@ == dec_r(old(self)@, reg),
            flags_valid(old(self).reg.f) ==> flags_valid(final(self).reg.f),
    {
        let x = self.reg.read_8b(reg);
        let result = x.wrapping_sub(1);
        let z = result == 0;
        let h = (x & 0x0F) < 1;
        let c = self.reg.get_flag(Flags::FC);
        self.reg.set_flags(z, true, h, c);
        self.reg.write_8b(reg, result);
        proof {
            lemma_flags_of(z, true, h, c);
            lemma_mask_f0(result);
        }
    }

    /// BCD correction of the accumulator after an add/sub chain.
    fn alu_daa(&mut self)
        ensures
            final(self)@ == acc_apply(old(self)@, daa8(old(self).reg.a, old(self).reg.f)),
            flags_valid(final(self).reg.f),
    {
        let val = self.reg.a;
        let flag_n = self.reg.get_flag(Flags::FN);
        let flag_h = self.reg.get_flag(Flags::FH);
        let flag_cin = self.reg.get_flag(Flags::FC);
        let lo: u8 = if flag_h || (!flag_n && (val & 0x0F) > 9) { 0x06 } else { 0 };
        let corr: u8 = if flag_cin || (!flag_n && val > 0x99) { lo + 0x60 } else { lo };
        let result = if flag_n { val.wrapping_sub(corr) } else { val.wrapping_add(corr) };
        let z = result == 0;
        let c = corr >= 0x60;
        self.reg.set_flags(z, flag_n, false, c);
        self.reg.a = result;
        proof {
            lemma_flags_of(z, flag_n, false, c);
        }
    }

    /// ADD HL,pair: the wrapping 16-bit sum into HL; Z is untouched.
    fn alu_add_16b(&mut self, operand: Registers16b)
        ensures
            final(self)@ == addhl_v(old(self)@, operand),
            flags_valid(final(self).reg.f),
    {
        let val1 = self.reg.read_16b(Registers16b::HL);
        let val2 = self.reg.read_16b(operand);
        let result = val1.wrapping_add(val2);
        let z = self.reg.get_flag(Flags::FZ);
        let h = ((val1 & 0x0FFF) as u32) + ((val2 & 0x0FFF) as u32) > 0x0FFF;
        let c = (val1 as u32) + (val2 as u32) > 0xFFFF;
        self.reg.set_flags(z, false, h, c);
        self.reg.write_16b(Registers16b::HL, result);
        proof {
            lemma_flags_of(z, false, h, c);
            lemma_mask_f0((result % 256) as u8);
        }
    }

    /// The signed-immediate 16-bit add of ADD SP,e and LD HL,SP+e: fetches
    /// the offset byte, sets the flags from the low-byte addition, and
    /// hands the wrapping sum back.
    fn alu_add_imm(&mut self, operand: u16) -> (r: u16)
        requires
            old(self).wf(),
        ensures
            final(self).wf(),
            final(self)@ == addimm_v(old(self)@, operand).0,
            r == addimm_v(old(self)@, operand).1,
    {
        let imm = self.fetch_byte();
        let h = ((operand & 0x0F) as u32) + ((imm & 0x0F) as u32) > 0x0F;
        let c = ((operand & 0xFF) as u32) + (imm as u32) > 0xFF;
        self.reg.set_flags(false, false, h, c);
        proof {
            lemma_flags_of(false, false, h, c);
        }
        if imm < 0x80 {
            operand.wrapping_add(imm as u16)
        } else {
            operand.wrapping_add(imm as u16).wrapping_sub(0x100)
        }
    }

    /// INC on the memory byte at `addr`; C is untouched.
    fn mem_inc(&mut self, addr: u16)
        requires
            old(self).wf(),
        ensures
            final(self).wf(),
            final(self)@ == mem_inc_v(old(self)@, addr),
    {
        let operand = self.mem.read_byte(addr);
        let result = operand.wrapping_add(1);
        let z = result == 0;
        let h = ((operand & 0x0F) as u16) + 1 > 0x0F;
        let c = self.reg.get_flag(Flags::FC);
        self.reg.set_flags(z, false, h, c);
        self.mem.write_byte(addr, result);
        proof {
            lemma_flags_of(z, false, h, c);
        }
    }

    /// DEC on the memory byte at `addr`; C is untouched.
    fn mem_dec(&mut self, addr: u16)
        requires
            old(self).wf(),
        ensures
            final(self).wf(),
            final(self)@ == mem_dec_v(old(self)@, addr),
    {
        let operand = self.mem.read_byte(addr);
        let result = operand.wrapping_sub(1);
        let z = result == 0;
        let h = (operand & 0x0F) < 1;
        let c = self.reg.get_flag(Flags::FC);
        self.reg.set_flags(z, true, h, c);
        self.mem.write_byte(addr, result);
        proof {
            lemma_flags_of(z, true, h, c);
        }
    }

    /// RLC: rotate left circularly, returning the new value.
    fn alu_rlc(&mut self, operand: u8) -> (r: u8)
        ensures
            final(self)@ == flags_apply(old(self)@, rlc8(operand).1),
            r == rlc8(operand).0,
            flags_valid(final(self).reg.f),
    {
        let result = (operand << 1u32) | ((operand & 0x80) >> 7u32);
        let z = result == 0;
        let c = operand & 0x80 != 0;
        self.reg.set_flags(z, false, false, c);
        proof {
            lemma_flags_of(z, false, false, c);
        }
        result
    }

    /// RL: rotate left through carry, returning the new value.
    fn alu_rl(&mut self, operand: u8) -> (r: u8)
        ensures
            final(self)@ == flags_apply(old(self)@, rl8(operand, old(self).reg.f).1),
            r == rl8(operand, old(self).reg.f).0,
            flags_valid(final(self).reg.f),
    {
        let cin: u8 = if self.reg.get_flag(Flags::FC) { 1 } else { 0 };
        let result = (operand << 1u32) | cin;
        let z = result == 0;
        let c = operand & 0x80 != 0;
        self.reg.set_flags(z, false, false, c);
        proof {
            lemma_flags_of(z, false, false, c);
        }
        result
    }

    /// RRC: rotate right circularly, returning the new value.
    fn alu_rrc(&mut self, operand: u8) -> (r: u8)
        ensures
            final(self)@ == flags_apply(old(self)@, rrc8(operand).1),
            r == rrc8(operand).0,
            flags_valid(final(self).reg.f),
    {
        let result = (operand >> 1u32) | ((operand & 1) << 7u32);
        let z = result == 0;
        let c = operand & 1 != 0;
        self.reg.set_flags(z, false, false, c);
        proof {
            lemma_flags_of(z, false, false, c);
        }
        result
    }

    /// RR: rotate right through carry, returning the new value.
    fn alu_rr(&mut self, operand: u8) -> (r: u8)
        ensures
            final(self)@ == flags_apply(old(self)@, rr8(operand, old(self).reg.f).1),
            r == rr8(operand, old(self).reg.f).0,
            flags_valid(final(self).reg.f),
    {
        let cin: u8 = if self.reg.get_flag(Flags::FC) { 0x80 } else { 0 };
        let result = (operand >> 1u32) | cin;
        let z = result == 0;
        let c = operand & 1 != 0;
        self.reg.set_flags(z, false, false, c);
        proof {
            lemma_flags_of(z, false, false, c);
        }
        result
    }

    /// SLA: shift left, returning the new value.
    fn alu_sla(&mut self, operand: u8) -> (r: u8)
        ensures
            final(self)@ == flags_apply(old(self)@, sla8(operand).1),
            r == sla8(operand).0,
            flags_valid(final(self).reg.f),
    {
        let result = operand << 1u32;
        let z = result == 0;
        let c = operand & 0x80 != 0;
        self.reg.set_flags(z, false, false, c);
        proof {
            lemma_flags_of(z, false, false, c);
        }
        result
    }

    /// SRA: shift right with the sign bit kept, returning the new value.
    fn alu_sra(&mut self, operand: u8) -> (r: u8)
        ensures
            final(self)@ == flags_apply(old(self)@, sra8(operand).1),
            r == sra8(operand).0,
            flags_valid(final(self).reg.f),
    {
        let result = (operand >> 1u32) | (operand & 0x80);
        let z = result == 0;
        let c = operand & 1 != 0;
        self.reg.set_flags(z, false, false, c);
        proof {
            lemma_flags_of(z, false, false, c);
        }
        result
    }

    /// SRL: shift right with a zero bit 7, returning the new value.
    fn alu_srl(&mut self, operand: u8) -> (r: u8)
        ensures
            final(self)@ == flags_apply(old(self)@, srl8(operand).1),
            r == srl8(operand).0,
            flags_valid(final(self).reg.f),
    {
        let result = operand >> 1u32;
        let z = result == 0;
        let c = operand & 1 != 0;
        self.reg.set_flags(z, false, false, c);
        proof {
            lemma_flags_of(z, false, false, c);
        }
        result
    }

    /// SWAP: exchange the nibbles, returning the new value.
    fn alu_swap(&mut self, operand: u8) -> (r: u8)
        ensures
            final(self)@ == flags_apply(old(self)@, swap8(operand).1),
            r == swap8(operand).0,
            flags_valid(final(self).reg.f),
    {
        let result = (operand << 4u32) | (operand >> 4u32);
        let z = result == 0;
        self.reg.set_flags(z, false, false, false);
        proof {
            lemma_flags_of(z, false, false, false);
        }
        result
    }

    /// BIT: tests one bit of the operand; only the flags change, C is
    /// untouched.
    fn test_bit(&mut self, operand: u8, bit: u8)
        requires
            bit < 8,
        ensures
            final(self)@ == flags_apply(old(self)@, bit8(operand, bit, old(self).reg.f)),
            flags_valid(final(self).reg.f),
    {
        let z = operand & (1u8 << bit) == 0;
        let c = self.reg.get_flag(Flags::FC);
        self.reg.set_flags(z, false, true, c);
        proof {
            lemma_flags_of(z, false, true, c);
        }
    }

    /// RES: the operand with one bit cleared; no flag changes.
    fn reset_bit(&self, operand: u8, bit: u8) -> (r: u8)
        requires
            bit < 8,
        ensures
            r == resb8(operand, bit),
    {
        operand & !(1u8 << bit)
    }

    /// SET: the operand with one bit set; no flag changes.
    fn set_bit(&self, operand: u8, bit: u8) -> (r: u8)
        requires
            bit < 8,
        ensures
            r == setb8(operand, bit),
    {
        operand | (1u8 << bit)
    }

    /// JR: fetches the offset byte; when the condition holds, PC moves by
    /// the sign-extended offset (wrapping).
    fn jr(&mut self, condition: bool)
        requires
            old(self).wf(),
        ensures
            final(self).wf(),
            final(self)@ == jr_v(old(self)@, condition),
    {
        let off = self.fetch_byte();
        if condition {
            if off < 0x80 {
                self.reg.pc = self.reg.pc.wrapping_add(off as u16);
            } else {
                self.reg.pc = self.reg.pc.wrapping_add(off as u16).wrapping_sub(0x100);
            }
        }
    }

    /// JP: fetches the target word; when the condition holds, PC moves
    /// there.
    fn jp(&mut self, condition: bool)
        requires
            old(self).wf(),
        ensures
            final(self).wf(),
            final(self)@ == jp_v(old(self)@, condition),
    {
        let target = self.fetch_word();
        if condition {
            self.reg.pc = target;
        }
    }

    /// CALL: fetches the target word; when the condition holds, the PC
    /// beyond the operand is pushed and PC moves to the target.
    fn call(&mut self, condition: bool)
        requires
            old(self).wf(),
        ensures
            final(self).wf(),
            final(self)@ == call_v(old(self)@, condition),
    {
        let target = self.fetch_word();
        if condition {
            let ret_addr = self.reg.pc;
            self.push_stack(ret_addr);
            self.reg.pc = target;
        }
    }

    /// RET: when the condition holds, pops a word into PC.
    fn ret(&mut self, condition: bool)
        requires
            old(self).wf(),
        ensures
            final(self).wf(),
            final(self)@ == ret_v(old(self)@, condition),
    {
        if condition {
            let target = self.pop_stack();
            self.reg.pc = target;
        }
    }

    /// RST: pushes PC and moves it to the fixed low address.
    fn rst(&mut self, pointer: u8)
        requires
            old(self).wf(),
        ensures
            final(self).wf(),
            final(self)@ == rst_v(old(self)@, pointer),
    {
        let ret_addr = self.reg.pc;
        self.push_stack(ret_addr);
        self.reg.pc = pointer as u16;
    }

    /// Reads the operand an index of the 8-wide operand axis names:
    /// B, C, D, E, H, L, the memory byte at HL, A.
    fn src_val(&self, idx: u8) -> (r: u8)
        requires
            self.wf(),
            idx < 8,
        ensures
            r == src_val_v(self@, idx),
    {
        if idx == 6 {
            self.mem.read_byte(self.reg.read_16b(Registers16b::HL))
        } else {
            match idx {
                0u8 => self.reg.b,
                1u8 => self.reg.c,
                2u8 => self.reg.d,
                3u8 => self.reg.e,
                4u8 => self.reg.h,
                5u8 => self.reg.l,
                _ => self.reg.a,
            }
        }
    }

    /// Writes the operand an index of the operand axis names: a register,
    /// or for index 6 the memory byte at HL.
    fn put_dst(&mut self, idx: u8, v: u8)
        requires
            old(self).wf(),
            idx < 8,
        ensures
            final(self).wf(),
            final(self)@ == put_v(old(self)@, idx, v),
    {
        if idx == 6 {
            let addr = self.reg.read_16b(Registers16b::HL);
            self.mem.write_byte(addr, v);
        } else {
            match idx {
                0u8 => self.reg.b = v,
                1u8 => self.reg.c = v,
                2u8 => self.reg.d = v,
                3u8 => self.reg.e = v,
                4u8 => self.reg.h = v,
                5u8 => self.reg.l = v,
                _ => self.reg.a = v,
            }
        }
    }

    /// Executes one primary opcode in 0x00..0x10, the opcode byte
    /// already fetched.
    #[verifier::rlimit(100)]
    #[verifier::spinoff_prover]
    fn execute_lo0(&mut self, op: u8)
        requires
            old(self).wf(),
            0x00 <= op < 0x10,
        ensures
            final(self).wf(),
            final(self)@ == step_lo(old(self)@, op),
    {
        match op {
            0x00u8 => {},
            0x01u8 => {
                let val = self.fetch_word();
                self.reg.write_16b(Registers16b::BC, val);
            },
            0x02u8 => {
                let addr = self.reg.read_16b(Registers16b::BC);
                let a = self.reg.a;
                self.mem.write_byte(addr, a);
            },
            0x03u8 => {
                let v = self.reg.read_16b(Registers16b::BC);
                self.reg.write_16b(Registers16b::BC, v.wrapping_add(1));
            },
            0x04u8 => self.alu_inc(Registers8b::B),
            0x05u8 => self.alu_dec(Registers8b::B),
            0x06u8 => {
                let v = self.fetch_byte();
                self.reg.b = v;
            },
            0x07u8 => {
                let a = self.reg.a;
                let r = self.alu_rlc(a);
                self.reg.a = r;
                let ghost fb: u8 = self.reg.f;
                self.reg.set_flag(Flags::FZ, false);
                proof {
                    lemma_with_flag(fb, Flags::FZ, false);
                }
            },
            0x08u8 => {
                let addr = self.fetch_word();
                let sp = self.reg.sp;
                self.mem.write_word(addr, sp);
            },
            0x09u8 => self.alu_add_16b(Registers16b::BC),
            0x0Au8 => {
                let addr = self.reg.read_16b(Registers16b::BC);
                self.reg.a = self.mem.read_byte(addr);
            },
            0x0Bu8 => {
                let v = self.reg.read_16b(Registers16b::BC);
                self.reg.write_16b(Registers16b::BC, v.wrapping_sub(1));
            },
            0x0Cu8 => self.alu_inc(Registers8b::C),
            0x0Du8 => self.alu_dec(Registers8b::C),
            0x0Eu8 => {
                let v = self.fetch_byte();
                self.reg.c = v;
            },
            0x0Fu8 => {
                let a = self.reg.a;
                let r = self.alu_rrc(a);
                self.reg.a = r;
                let ghost fb: u8 = self.reg.f;
                self.reg.set_flag(Flags::FZ, false);
                proof {
                    lemma_with_flag(fb, Flags::FZ, false);
                }
            },
            _ => {},
        }
    }

    /// Executes one primary opcode in 0x10..0x20, the opcode byte
    /// already fetched.
    #[verifier::rlimit(100)]
    #[verifier::spinoff_prover]
    fn execute_lo1(&mut self, op: u8)
        requires
            old(self).wf(),
            0x10 <= op < 0x20,
        ensures
            final(self).wf(),
            final(self)@ == step_lo(old(self)@, op),
    {
        match op {
            0x10u8 => {},
            0x11u8 => {
                let val = self.fetch_word();
                self.reg.write_16b(Registers16b::DE, val);
            },
            0x12u8 => {
                let addr = self.reg.read_16b(Registers16b::DE);
                let a = self.reg.a;
                self.mem.write_byte(addr, a);
            },
            0x13u8 => {
                let v = self.reg.read_16b(Registers16b::DE);
                self.reg.write_16b(Registers16b::DE, v.wrapping_add(1));
            },
            0x14u8 => self.alu_inc(Registers8b::D),
            0x15u8 => self.alu_dec(Registers8b::D),
            0x16u8 => {
                let v = self.fetch_byte();
                self.reg.d = v;
            },
            0x17u8 => {
                let a = self.reg.a;
                let r = self.alu_rl(a);
                self.reg.a = r;
                let ghost fb: u8 = self.reg.f;
                self.reg.set_flag(Flags::FZ, false);
                proof {
                    lemma_with_flag(fb, Flags::FZ, false);
                }
            },
            0x18u8 => self.jr(true),
            0x19u8 => self.alu_add_16b(Registers16b::DE),
            0x1Au8 => {
                let addr = self.reg.read_16b(Registers16b::DE);
                self.reg.a = self.mem.read_byte(addr);
            },
            0x1Bu8 => {
                let v = self.reg.read_16b(Registers16b::DE);
                self.reg.write_16b(Registers16b::DE, v.wrapping_sub(1));
            },
            0x1Cu8 => self.alu_inc(Registers8b::E),
            0x1Du8 => self.alu_dec(Registers8b::E),
            0x1Eu8 => {
                let v = self.fetch_byte();
                self.reg.e = v;
            },
            0x1Fu8 => {
                let a = self.reg.a;
                let r = self.alu_rr(a);
                self.reg.a = r;
                let ghost fb: u8 = self.reg.f;
                self.reg.set_flag(Flags::FZ, false);
                proof {
                    lemma_with_flag(fb, Flags::FZ, false);
                }
            },
            _ => {},
        }
    }

    /// Executes one primary opcode in 0x20..0x28, the opcode byte
    /// already fetched.
    #[verifier::rlimit(100)]
    #[verifier::spinoff_prover]
    fn execute_lo2a(&mut self, op: u8)
        requires
            old(self).wf(),
            0x20 <= op < 0x28,
        ensures
            final(self).wf(),
            final(self)@ == step_lo(old(self)@, op),
    {
        match op {
            0x20u8 => {
                let c = !self.reg.get_flag(Flags::FZ);
                self.jr(c);
            },
            0x21u8 => {
                let val = self.fetch_word();
                self.reg.write_16b(Registers16b::HL, val);
            },
            0x22u8 => {
                let addr = self.reg.hl_inc();
                let a = self.reg.a;
                self.mem.write_byte(addr, a);
            },
            0x23u8 => {
                let v = self.reg.read_16b(Registers16b::HL);
                self.reg.write_16b(Registers16b::HL, v.wrapping_add(1));
            },
            0x24u8 => self.alu_inc(Registers8b::H),
            0x25u8 => self.alu_dec(Registers8b::H),
            0x26u8 => {
                let v = self.fetch_byte();
                self.reg.h = v;
            },
            0x27u8 => self.alu_daa(),
            _ => {},
        }
    }

    /// Executes one primary opcode in 0x28..0x30, the opcode byte
    /// already fetched.
    #[verifier::rlimit(100)]
    #[verifier::spinoff_prover]
    fn execute_lo2b(&mut self, op: u8)
        requires
            old(self).wf(),
            0x28 <= op < 0x30,
        ensures
            final(self).wf(),
            final(self)@ == step_lo(old(self)@, op),
    {
        match op {
            0x28u8 => {
                let c = self.reg.get_flag(Flags::FZ);
                self.jr(c);
            },
            0x29u8 => self.alu_add_16b(Registers16b::HL),
            0x2Au8 => {
                let addr = self.reg.hl_inc();
                self.reg.a = self.mem.read_byte(addr);
            },
            0x2Bu8 => {
                let v = self.reg.read_16b(Registers16b::HL);
                self.reg.write_16b(Registers16b::HL, v.wrapping_sub(1));
            },
            0x2Cu8 => self.alu_inc(Registers8b::L),
            0x2Du8 => self.alu_dec(Registers8b::L),
            0x2Eu8 => {
                let v = self.fetch_byte();
                self.reg.l = v;
            },
            0x2Fu8 => {
                self.reg.a = self.reg.a ^ 0xFF;
                let z = self.reg.get_flag(Flags::FZ);
                let c = self.reg.get_flag(Flags::FC);
                self.reg.set_flags(z, true, true, c);
                proof {
                    lemma_flags_of(z, true, true, c);
                }
            },
            _ => {},
        }
    }

    /// Executes one primary opcode in 0x20..0x30, the opcode byte
    /// already fetched.
    fn execute_lo2(&mut self, op: u8)
        requires
            old(self).wf(),
            0x20 <= op < 0x30,
        ensures
            final(self).wf(),
            final(self)@ == step_lo(old(self)@, op),
    {
        if op < 0x28 {
            self.execute_lo2a(op);
        } else {
            self.execute_lo2b(op);
        }
    }

    /// Executes one primary opcode in 0x30..0x40, the opcode byte
    /// already fetched.
    #[verifier::rlimit(100)]
    #[verifier::spinoff_prover]
    fn execute_lo3(&mut self, op: u8)
        requires
            old(self).wf(),
            0x30 <= op < 0x40,
        ensures
            final(self).wf(),
            final(self)@ == step_lo(old(self)@, op),
    {
        match op {
            0x30u8 => {
                let c = !self.reg.get_flag(Flags::FC);
                self.jr(c);
            },
            0x31u8 => {
                let val = self.fetch_word();
                self.reg.write_16b(Registers16b::SP, val);
            },
            0x32u8 => {
                let addr = self.reg.hl_dec();
                let a = self.reg.a;
                self.mem.write_byte(addr, a);
            },
            0x33u8 => {
                let v = self.reg.read_16b(Registers16b::SP);
                self.reg.write_16b(Registers16b::SP, v.wrapping_add(1));
            },
            0x34u8 => {
                let addr = self.reg.read_16b(Registers16b::HL);
                self.mem_inc(addr);
            },
            0x35u8 => {
                let addr = self.reg.read_16b(Registers16b::HL);
                self.mem_dec(addr);
            },
            0x36u8 => {
                let val = self.fetch_byte();
                let addr = self.reg.read_16b(Registers16b::HL);
                self.mem.write_byte(addr, val);
            },
            0x37u8 => {
                let z = self.reg.get_flag(Flags::FZ);
                self.reg.set_flags(z, false, false, true);
                proof {
                    lemma_flags_of(z, false, false, true);
                }
            },
            0x38u8 => {
                let c = self.reg.get_flag(Flags::FC);
                self.jr(c);
            },
            0x39u8 => self.alu_add_16b(Registers16b::SP),
            0x3Au8 => {
                let addr = self.reg.hl_dec();
                self.reg.a = self.mem.read_byte(addr);
            },
            0x3Bu8 => {
                let v = self.reg.read_16b(Registers16b::SP);
                self.reg.write_16b(Registers16b::SP, v.wrapping_sub(1));
            },
            0x3Cu8 => self.alu_inc(Registers8b::A),
            0x3Du8 => self.alu_dec(Registers8b::A),
            0x3Eu8 => {
                let v = self.fetch_byte();
                self.reg.a = v;
            },
            0x3Fu8 => {
                let z = self.reg.get_flag(Flags::FZ);
                let c = self.reg.get_flag(Flags::FC);
                self.reg.set_flags(z, false, false, !c);
                proof {
                    lemma_flags_of(z, false, false, !c);
                }
            },
            _ => {},
        }
    }

    /// Executes one primary opcode below 0x40, the opcode byte already
    /// fetched.
    fn execute_lo(&mut self, op: u8)
        requires
            old(self).wf(),
            op < 0x40,
        ensures
            final(self).wf(),
            final(self)@ == step_lo(old(self)@, op),
    {
        if op < 0x10 {
            self.execute_lo0(op);
        } else if op < 0x20 {
            self.execute_lo1(op);
        } else if op < 0x30 {
            self.execute_lo2(op);
        } else {
            self.execute_lo3(op);
        }
    }
    /// Executes one primary opcode in 0xC0..0xD0, the opcode byte already
    /// fetched.
    #[verifier::rlimit(100)]
    #[verifier::spinoff_prover]
    fn execute_hi0(&mut self, op: u8)
        requires
            old(self).wf(),
            0xC0 <= op < 0xD0,
        ensures
            final(self).wf(),
            final(self)@ == step_hi(old(self)@, op),
    {
        match op {
            0xC0u8 => {
                let c = !self.reg.get_flag(Flags::FZ);
                self.ret(c);
            },
            0xC1u8 => {
                let word = self.pop_stack();
                self.reg.write_16b(Registers16b::BC, word);
            },
            0xC2u8 => {
                let c = !self.reg.get_flag(Flags::FZ);
                self.jp(c);
            },
            0xC3u8 => self.jp(true),
            0xC4u8 => {
                let c = !self.reg.get_flag(Flags::FZ);
                self.call(c);
            },
            0xC5u8 => {
                let word = self.reg.read_16b(Registers16b::BC);
                self.push_stack(word);
            },
            0xC6u8 => {
                let val = self.fetch_byte();
                self.alu_add(val);
            },
            0xC7u8 => self.rst(0x00),
            0xC8u8 => {
                let c = self.reg.get_flag(Flags::FZ);
                self.ret(c);
            },
            0xC9u8 => self.ret(true),
            0xCAu8 => {
                let c = self.reg.get_flag(Flags::FZ);
                self.jp(c);
            },
            0xCBu8 => self.execute_cb(),
            0xCCu8 => {
                let c = self.reg.get_flag(Flags::FZ);
                self.call(c);
            },
            0xCDu8 => self.call(true),
            0xCEu8 => {
                let val = self.fetch_byte();
                self.alu_adc(val);
            },
            0xCFu8 => self.rst(0x08),
            _ => {},
        }
    }

    /// Executes one primary opcode in 0xD0..0xE0, the opcode byte already
    /// fetched; the reserved byte values do nothing.
    #[verifier::rlimit(100)]
    #[verifier::spinoff_prover]
    fn execute_hi1(&mut self, op: u8)
        requires
            old(self).wf(),
            0xD0 <= op < 0xE0,
        ensures
            final(self).wf(),
            final(self)@ == step_hi(old(self)@, op),
    {
        match op {
            0xD0u8 => {
                let c = !self.reg.get_flag(Flags::FC);
                self.ret(c);
            },
            0xD1u8 => {
                let word = self.pop_stack();
                self.reg.write_16b(Registers16b::DE, word);
            },
            0xD2u8 => {
                let c = !self.reg.get_flag(Flags::FC);
                self.jp(c);
            },
            0xD3u8 => {},
            0xD4u8 => {
                let c = !self.reg.get_flag(Flags::FC);
                self.call(c);
            },
            0xD5u8 => {
                let word = self.reg.read_16b(Registers16b::DE);
                self.push_stack(word);
            },
            0xD6u8 => {
                let val = self.fetch_byte();
                self.alu_sub(val);
            },
            0xD7u8 => self.rst(0x10),
            0xD8u8 => {
                let c = self.reg.get_flag(Flags::FC);
                self.ret(c);
            },
            0xD9u8 => {
                self.ret(true);
                self.ime = true;
            },
            0xDAu8 => {
                let c = self.reg.get_flag(Flags::FC);
                self.jp(c);
            },
            0xDBu8 => {},
            0xDCu8 => {
                let c = self.reg.get_flag(Flags::FC);
                self.call(c);
            },
            0xDDu8 => {},
            0xDEu8 => {
                let val = self.fetch_byte();
                self.alu_sbc(val);
            },
            0xDFu8 => self.rst(0x18),
            _ => {},
        }
    }

    /// Executes one primary opcode in 0xE0..0xF0, the opcode byte already
    /// fetched; the reserved byte values do nothing.
    #[verifier::rlimit(100)]
    #[verifier::spinoff_prover]
    fn execute_hi2(&mut self, op: u8)
        requires
            old(self).wf(),
            0xE0 <= op < 0xF0,
        ensures
            final(self).wf(),
            final(self)@ == step_hi(old(self)@, op),
    {
        match op {
            0xE0u8 => {
                let off = self.fetch_byte();
                let a = self.reg.a;
                self.mem.write_byte(0xFF00 + off as u16, a);
            },
            0xE1u8 => {
                let word = self.pop_stack();
                self.reg.write_16b(Registers16b::HL, word);
            },
            0xE2u8 => {
                let a = self.reg.a;
                let addr = 0xFF00 + self.reg.c as u16;
                self.mem.write_byte(addr, a);
            },
            0xE3u8 => {},
            0xE4u8 => {},
            0xE5u8 => {
                let word = self.reg.read_16b(Registers16b::HL);
                self.push_stack(word);
            },
            0xE6u8 => {
                let val = self.fetch_byte();
                self.alu_and(val);
            },
            0xE7u8 => self.rst(0x20),
            0xE8u8 => {
                let sp = self.reg.sp;
                let v = self.alu_add_imm(sp);
                self.reg.sp = v;
            },
            0xE9u8 => {
                let hl = self.reg.read_16b(Registers16b::HL);
                self.reg.pc = hl;
            },
            0xEAu8 => {
                let addr = self.fetch_word();
                let a = self.reg.a;
                self.mem.write_byte(addr, a);
            },
            0xEBu8 => {},
            0xECu8 => {},
            0xEDu8 => {},
            0xEEu8 => {
                let val = self.fetch_byte();
                self.alu_xor(val);
            },
            0xEFu8 => self.rst(0x28),
            _ => {},
        }
    }

    /// Executes one primary opcode in 0xF0..=0xFF, the opcode byte already
    /// fetched; the reserved byte values do nothing.
    #[verifier::rlimit(100)]
    #[verifier::spinoff_prover]
    fn execute_hi3(&mut self, op: u8)
        requires
            old(self).wf(),
            0xF0 <= op,
        ensures
            final(self).wf(),
            final(self)@ == step_hi(old(self)@, op),
    {
        match op {
            0xF0u8 => {
                let off = self.fetch_byte();
                self.reg.a = self.mem.read_byte(0xFF00 + off as u16);
            },
            0xF1u8 => {
                let word = self.pop_stack();
                self.reg.write_16b(Registers16b::AF, word);
                proof {
                    lemma_mask_f0((word % 256) as u8);
                }
            },
            0xF2u8 => {
                let addr = 0xFF00 + self.reg.c as u16;
                self.reg.a = self.mem.read_byte(addr);
            },
            0xF3u8 => self.ime = false,
            0xF4u8 => {},
            0xF5u8 => {
                let word = self.reg.read_16b(Registers16b::AF);
                self.push_stack(word);
            },
            0xF6u8 => {
                let val = self.fetch_byte();
                self.alu_or(val);
            },
            0xF7u8 => self.rst(0x30),
            0xF8u8 => {
                let sp = self.reg.sp;
                let v = self.alu_add_imm(sp);
                self.reg.write_16b(Registers16b::HL, v);
            },
            0xF9u8 => {
                let hl = self.reg.read_16b(Registers16b::HL);
                self.reg.sp = hl;
            },
            0xFAu8 => {
                let addr = self.fetch_word();
                self.reg.a = self.mem.read_byte(addr);
            },
            0xFBu8 => self.ime = true,
            0xFCu8 => {},
            0xFDu8 => {},
            0xFEu8 => {
                let val = self.fetch_byte();
                self.alu_cp(val);
            },
            0xFFu8 => self.rst(0x38),
            _ => {},
        }
    }

    /// Executes one primary opcode at or above 0xC0, the opcode byte
    /// already fetched.
    fn execute_hi(&mut self, op: u8)
        requires
            old(self).wf(),
            0xC0 <= op,
        ensures
            final(self).wf(),
            final(self)@ == step_hi(old(self)@, op),
    {
        if op < 0xD0 {
            self.execute_hi0(op);
        } else if op < 0xE0 {
            self.execute_hi1(op);
        } else if op < 0xF0 {
            self.execute_hi2(op);
        } else {
            self.execute_hi3(op);
        }
    }

    /// Fetches and executes one CB-prefixed opcode: the rotate/shift
    /// family, BIT, RES or SET, over the 8-wide operand axis.
    #[verifier::rlimit(100)]
    #[verifier::spinoff_prover]
    fn execute_cb(&mut self)
        requires
            old(self).wf(),
        ensures
            final(self).wf(),
            final(self)@ == step_cb(old(self)@),
    {
        let op = self.fetch_byte();
        proof {
            lemma_op_fields(op);
        }
        let tgt = op & 7;
        let x = self.src_val(tgt);
        if op < 0x40 {
            let v = match op >> 3u32 {
                0u8 => self.alu_rlc(x),
                1u8 => self.alu_rrc(x),
                2u8 => self.alu_rl(x),
                3u8 => self.alu_rr(x),
                4u8 => self.alu_sla(x),
                5u8 => self.alu_sra(x),
                6u8 => self.alu_swap(x),
                _ => self.alu_srl(x),
            };
            self.put_dst(tgt, v);
        } else if op < 0x80 {
            self.test_bit(x, (op >> 3u32) & 7);
        } else if op < 0xC0 {
            let v = self.reset_bit(x, (op >> 3u32) & 7);
            self.put_dst(tgt, v);
        } else {
            let v = self.set_bit(x, (op >> 3u32) & 7);
            self.put_dst(tgt, v);
        }
    }

    /// Fetches, decodes and executes exactly one instruction: the effect
    /// on registers, memory, halt state and interrupt gate is the one the
    /// model's step function gives. A halted core does nothing until
    /// woken from outside.
    #[verifier::rlimit(100)]
    #[verifier::spinoff_prover]
    pub fn execute(&mut self)
        requires
            old(self).wf(),
        ensures
            final(self).wf(),
            final(self)@ == step_spec(old(self)@),
    {
        if self.is_halted {
            return;
        }
        let op = self.fetch_byte();
        proof {
            lemma_op_fields(op);
        }
        if op == 0x76 {
            self.is_halted = true;
        } else if 0x40 <= op && op < 0x80 {
            let v = self.src_val(op & 7);
            self.put_dst((op >> 3u32) & 7, v);
        } else if 0x80 <= op && op < 0xC0 {
            let v = self.src_val(op & 7);
            match (op >> 3u32) & 7 {
                0u8 => self.alu_add(v),
                1u8 => self.alu_adc(v),
                2u8 => self.alu_sub(v),
                3u8 => self.alu_sbc(v),
                4u8 => self.alu_and(v),
                5u8 => self.alu_xor(v),
                6u8 => self.alu_or(v),
                _ => self.alu_cp(v),
            }
        } else if op < 0x40 {
            self.execute_lo(op);
        } else {
            self.execute_hi(op);
        }
    }
}


} // verus!
