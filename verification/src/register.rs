//! The register file: eight 8-bit cells (A, F, B, C, D, E, H, L) plus the
//! 16-bit program counter and stack pointer. AF/BC/DE/HL are views over the
//! 8-bit cells, high byte first. The flags register F keeps its low nibble
//! zero; its high nibble holds, from low to high bit, Carry, Half-Carry,
//! Subtract and Zero.

use vstd::prelude::*;

verus! {

/// Bit mask of the Zero flag in F.
pub const MASK_Z: u8 = 0x80;
/// Bit mask of the Subtract (BCD) flag in F.
pub const MASK_N: u8 = 0x40;
/// Bit mask of the Half-Carry flag in F.
pub const MASK_H: u8 = 0x20;
/// Bit mask of the Carry flag in F.
pub const MASK_C: u8 = 0x10;

#[derive(Clone, Copy)]
pub struct RegisterFile {
    pub a: u8, // accumulator
    pub f: u8, // flags
    pub b: u8,
    pub c: u8,
    pub d: u8,
    pub e: u8,
    pub h: u8,
    pub l: u8,
    pub pc: u16, // program counter
    pub sp: u16, // stack pointer
}

#[derive(Clone, Copy)]
pub enum Registers8b {
    A,
    F,
    B,
    C,
    D,
    E,
    H,
    L,
}

#[derive(Clone, Copy)]
pub enum Registers16b {
    AF,
    BC,
    DE,
    HL,
    SP,
}

#[derive(Clone, Copy)]
pub enum Flags {
    FZ,
    FN,
    FH,
    FC,
}

/// The Zero flag of a flags byte.
pub open spec fn flag_z(f: u8) -> bool {
    f & MASK_Z != 0
}

/// The Subtract (BCD) flag of a flags byte.
pub open spec fn flag_n(f: u8) -> bool {
    f & MASK_N != 0
}

/// The Half-Carry flag of a flags byte.
pub open spec fn flag_h(f: u8) -> bool {
    f & MASK_H != 0
}

/// The Carry flag of a flags byte.
pub open spec fn flag_c(f: u8) -> bool {
    f & MASK_C != 0
}

/// The flags byte encoding the four flags, low nibble zero.
pub open spec fn flags_of(z: bool, n: bool, h: bool, c: bool) -> u8 {
    (if z { MASK_Z } else { 0u8 }) | (if n { MASK_N } else { 0u8 })
        | (if h { MASK_H } else { 0u8 }) | (if c { MASK_C } else { 0u8 })
}

/// The invariant of the flags register: its low nibble is zero.
pub open spec fn flags_valid(f: u8) -> bool {
    f & 0x0F == 0
}

/// The bit mask a flag selector stands for.
pub open spec fn mask_of(flag: Flags) -> u8 {
    match flag {
        Flags::FZ => MASK_Z,
        Flags::FN => MASK_N,
        Flags::FH => MASK_H,
        Flags::FC => MASK_C,
    }
}

/// The flags byte after one flag is set or cleared.
pub open spec fn with_flag(f: u8, flag: Flags, on: bool) -> u8 {
    if on {
        f | mask_of(flag)
    } else {
        f & !mask_of(flag)
    }
}

/// The value of one flag of a flags byte.
pub open spec fn flag_of(f: u8, flag: Flags) -> bool {
    match flag {
        Flags::FZ => flag_z(f),
        Flags::FN => flag_n(f),
        Flags::FH => flag_h(f),
        Flags::FC => flag_c(f),
    }
}

/// The value of an 8-bit register cell.
pub open spec fn reg8_val(r: RegisterFile, sel: Registers8b) -> u8 {
    match sel {
        Registers8b::A => r.a,
        Registers8b::F => r.f,
        Registers8b::B => r.b,
        Registers8b::C => r.c,
        Registers8b::D => r.d,
        Registers8b::E => r.e,
        Registers8b::H => r.h,
        Registers8b::L => r.l,
    }
}

/// The register file after a write to one 8-bit cell; a write to F clears
/// its low nibble.
pub open spec fn with_reg8(r: RegisterFile, sel: Registers8b, v: u8) -> RegisterFile {
    match sel {
        Registers8b::A => RegisterFile { a: v, ..r },
        Registers8b::F => RegisterFile { f: v & 0xF0, ..r },
        Registers8b::B => RegisterFile { b: v, ..r },
        Registers8b::C => RegisterFile { c: v, ..r },
        Registers8b::D => RegisterFile { d: v, ..r },
        Registers8b::E => RegisterFile { e: v, ..r },
        Registers8b::H => RegisterFile { h: v, ..r },
        Registers8b::L => RegisterFile { l: v, ..r },
    }
}

/// The value of a 16-bit pair: high byte times 256 plus low byte; SP is its
/// own 16-bit cell.
pub open spec fn pair_val(r: RegisterFile, sel: Registers16b) -> u16 {
    match sel {
        Registers16b::AF => (r.a * 256 + r.f) as u16,
        Registers16b::BC => (r.b * 256 + r.c) as u16,
        Registers16b::DE => (r.d * 256 + r.e) as u16,
        Registers16b::HL => (r.h * 256 + r.l) as u16,
        Registers16b::SP => r.sp,
    }
}

/// The register file after a 16-bit pair write: the high byte goes to the
/// first cell, the low byte to the second; a write to AF clears the low
/// nibble of F.
pub open spec fn with_pair(r: RegisterFile, sel: Registers16b, v: u16) -> RegisterFile {
    match sel {
        Registers16b::AF => RegisterFile { a: (v / 256) as u8, f: ((v % 256) as u8) & 0xF0, ..r },
        Registers16b::BC => RegisterFile { b: (v / 256) as u8, c: (v % 256) as u8, ..r },
        Registers16b::DE => RegisterFile { d: (v / 256) as u8, e: (v % 256) as u8, ..r },
        Registers16b::HL => RegisterFile { h: (v / 256) as u8, l: (v % 256) as u8, ..r },
        Registers16b::SP => RegisterFile { sp: v, ..r },
    }
}

/// Each flag reads back from the byte `flags_of` builds, and the byte keeps
/// its low nibble zero.
pub proof fn lemma_flags_of(z: bool, n: bool, h: bool, c: bool)
    by (bit_vector)
    ensures
        flag_z(flags_of(z, n, h, c)) == z,
        flag_n(flags_of(z, n, h, c)) == n,
        flag_h(flags_of(z, n, h, c)) == h,
        flag_c(flags_of(z, n, h, c)) == c,
        flags_valid(flags_of(z, n, h, c)),
{
}

/// Setting or clearing one flag changes that flag alone and keeps the low
/// nibble of F clear.
pub proof fn lemma_with_flag(f: u8, flag: Flags, on: bool)
    ensures
        flag_of(with_flag(f, flag, on), flag) == on,
        forall|g: Flags| !same_flag(g, flag) ==> #[trigger] flag_of(
            with_flag(f, flag, on),
            g,
        ) == flag_of(f, g),
        flags_valid(f) ==> flags_valid(with_flag(f, flag, on)),
{
    let r = with_flag(f, flag, on);
    assert((f | 0x80) & 0x80 != 0 && (f & !0x80) & 0x80 == 0 && ((f | 0x80) & 0x40 == f & 0x40)
        && ((f & !0x80) & 0x40 == f & 0x40) && ((f | 0x80) & 0x20 == f & 0x20) && ((f & !0x80)
        & 0x20 == f & 0x20) && ((f | 0x80) & 0x10 == f & 0x10) && ((f & !0x80) & 0x10 == f & 0x10)
        && (f & 0x0F == 0 ==> (f | 0x80) & 0x0F == 0 && (f & !0x80) & 0x0F == 0)) by (bit_vector);
    assert((f | 0x40) & 0x40 != 0 && (f & !0x40) & 0x40 == 0 && ((f | 0x40) & 0x80 == f & 0x80)
        && ((f & !0x40) & 0x80 == f & 0x80) && ((f | 0x40) & 0x20 == f & 0x20) && ((f & !0x40)
        & 0x20 == f & 0x20) && ((f | 0x40) & 0x10 == f & 0x10) && ((f & !0x40) & 0x10 == f & 0x10)
        && (f & 0x0F == 0 ==> (f | 0x40) & 0x0F == 0 && (f & !0x40) & 0x0F == 0)) by (bit_vector);
    assert((f | 0x20) & 0x20 != 0 && (f & !0x20) & 0x20 == 0 && ((f | 0x20) & 0x80 == f & 0x80)
        && ((f & !0x20) & 0x80 == f & 0x80) && ((f | 0x20) & 0x40 == f & 0x40) && ((f & !0x20)
        & 0x40 == f & 0x40) && ((f | 0x20) & 0x10 == f & 0x10) && ((f & !0x20) & 0x10 == f & 0x10)
        && (f & 0x0F == 0 ==> (f | 0x20) & 0x0F == 0 && (f & !0x20) & 0x0F == 0)) by (bit_vector);
    assert((f | 0x10) & 0x10 != 0 && (f & !0x10) & 0x10 == 0 && ((f | 0x10) & 0x80 == f & 0x80)
        && ((f & !0x10) & 0x80 == f & 0x80) && ((f | 0x10) & 0x40 == f & 0x40) && ((f & !0x10)
        & 0x40 == f & 0x40) && ((f | 0x10) & 0x20 == f & 0x20) && ((f & !0x10) & 0x20 == f & 0x20)
        && (f & 0x0F == 0 ==> (f | 0x10) & 0x0F == 0 && (f & !0x10) & 0x0F == 0)) by (bit_vector);
    assert forall|g: Flags| !same_flag(g, flag) implies #[trigger] flag_of(r, g) == flag_of(
        f,
        g,
    ) by {
    }
}

/// A byte masked to its high nibble satisfies the flags invariant.
pub proof fn lemma_mask_f0(x: u8)
    by (bit_vector)
    ensures
        flags_valid(x & 0xF0),
{
}

/// Whether two flag selectors pick the same flag.
pub open spec fn same_flag(x: Flags, y: Flags) -> bool {
    mask_of(x) == mask_of(y)
}

/// The reset state: PC = 0x0000, SP = 0xFFFE, every other cell zero.
pub open spec fn reset_regs() -> RegisterFile {
    RegisterFile { a: 0, f: 0, b: 0, c: 0, d: 0, e: 0, h: 0, l: 0, pc: 0x0000, sp: 0xFFFE }
}

impl RegisterFile {
    /// The reset state: PC = 0x0000, SP = 0xFFFE, every other cell zero.
    pub fn new() -> (r: RegisterFile)
        ensures
            r == reset_regs(),
    {
        RegisterFile { a: 0, f: 0, b: 0, c: 0, d: 0, e: 0, h: 0, l: 0, pc: 0x0000, sp: 0xFFFE }
    }

    /// Reads one 8-bit register cell.
    pub fn read_8b(&self, regaddr: Registers8b) -> (r: u8)
        ensures
            r == reg8_val(*self, regaddr),
    {
        match regaddr {
            Registers8b::A => self.a,
            Registers8b::F => self.f,
            Registers8b::B => self.b,
            Registers8b::C => self.c,
            Registers8b::D => self.d,
            Registers8b::E => self.e,
            Registers8b::H => self.h,
            Registers8b::L => self.l,
        }
    }

    /// Writes one 8-bit register cell; a write to F clears its low nibble.
    pub fn write_8b(&mut self, regaddr: Registers8b, value: u8)
        ensures
            *final(self) == with_reg8(*old(self), regaddr, value),
    {
        match regaddr {
            Registers8b::A => self.a = value,
            Registers8b::F => self.f = value & 0xF0,
            Registers8b::B => self.b = value,
            Registers8b::C => self.c = value,
            Registers8b::D => self.d = value,
            Registers8b::E => self.e = value,
            Registers8b::H => self.h = value,
            Registers8b::L => self.l = value,
        }
    }

    /// Reads a 16-bit pair as high byte times 256 plus low byte.
    pub fn read_16b(&self, regaddr: Registers16b) -> (r: u16)
        ensures
            r == pair_val(*self, regaddr),
    {
        match regaddr {
            Registers16b::AF => (self.a as u16) * 256 + (self.f as u16),
            Registers16b::BC => (self.b as u16) * 256 + (self.c as u16),
            Registers16b::DE => (self.d as u16) * 256 + (self.e as u16),
            Registers16b::HL => (self.h as u16) * 256 + (self.l as u16),
            Registers16b::SP => self.sp,
        }
    }

    /// Writes a 16-bit pair, splitting the value into the two underlying
    /// cells; a write to AF clears the low nibble of F.
    pub fn write_16b(&mut self, regaddr: Registers16b, value: u16)
        ensures
            *final(self) == with_pair(*old(self), regaddr, value),
    {
        match regaddr {
            Registers16b::AF => {
                self.a = (value / 256) as u8;
                self.f = ((value % 256) as u8) & 0xF0;
            },
            Registers16b::BC => {
                self.b = (value / 256) as u8;
                self.c = (value % 256) as u8;
            },
            Registers16b::DE => {
                self.d = (value / 256) as u8;
                self.e = (value % 256) as u8;
            },
            Registers16b::HL => {
                self.h = (value / 256) as u8;
                self.l = (value % 256) as u8;
            },
            Registers16b::SP => {
                self.sp = value;
            },
        }
    }

    /// Sets or clears one flag bit in F; the other bits keep their value.
    pub fn set_flag(&mut self, flag: Flags, set: bool)
        ensures
            *final(self) == (RegisterFile { f: with_flag(old(self).f, flag, set), ..*old(self) }),
    {
        let mask: u8 = match flag {
            Flags::FZ => MASK_Z,
            Flags::FN => MASK_N,
            Flags::FH => MASK_H,
            Flags::FC => MASK_C,
        };
        if set {
            self.f = self.f | mask;
        } else {
            self.f = self.f & !mask;
        }
    }

    /// Tests one flag bit of F.
    pub fn get_flag(&self, flag: Flags) -> (r: bool)
        ensures
            r == flag_of(self.f, flag),
    {
        let mask: u8 = match flag {
            Flags::FZ => MASK_Z,
            Flags::FN => MASK_N,
            Flags::FH => MASK_H,
            Flags::FC => MASK_C,
        };
        self.f & mask != 0
    }

    /// Sets all four flags at once; the low nibble of F becomes zero.
    pub fn set_flags(&mut self, z: bool, n: bool, h: bool, c: bool)
        ensures
            *final(self) == (RegisterFile { f: flags_of(z, n, h, c), ..*old(self) }),
    {
        self.f = (if z { MASK_Z } else { 0u8 }) | (if n { MASK_N } else { 0u8 })
            | (if h { MASK_H } else { 0u8 }) | (if c { MASK_C } else { 0u8 });
    }

    /// Reads HL, then stores HL + 1 (wrapping), returning the value read.
    pub fn hl_inc(&mut self) -> (r: u16)
        ensures
            r == pair_val(*old(self), Registers16b::HL),
            *final(self) == with_pair(
                *old(self),
                Registers16b::HL,
                ((pair_val(*old(self), Registers16b::HL) + 1) % 0x10000) as u16,
            ),
    {
        let hl = self.read_16b(Registers16b::HL);
        self.write_16b(Registers16b::HL, hl.wrapping_add(1));
        hl
    }

    /// Reads HL, then stores HL - 1 (wrapping), returning the value read.
    pub fn hl_dec(&mut self) -> (r: u16)
        ensures
            r == pair_val(*old(self), Registers16b::HL),
            *final(self) == with_pair(
                *old(self),
                Registers16b::HL,
                ((pair_val(*old(self), Registers16b::HL) + 0xFFFF) % 0x10000) as u16,
            ),
    {
        let hl = self.read_16b(Registers16b::HL);
        self.write_16b(Registers16b::HL, hl.wrapping_sub(1));
        hl
    }
}

} // verus!
