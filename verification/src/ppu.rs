//! The reduced video subsystem the memory bus routes to: tile RAM
//! (0x8000..0x9FFF, bank-selectable), the sprite attribute table
//! (0xFE00..0xFE9F), and the control register at 0xFF40, a pure bitfield
//! whose eight bits round-trip exactly through a byte write and read.

use vstd::prelude::*;

verus! {

/// The video state as plain values: the two buffers and the eight control
/// bits, plus the selected tile-RAM bank.
pub struct PpuView {
    pub vram: Seq<u8>,
    pub oam: Seq<u8>,
    pub lcd_en: bool,
    pub win_tile_area: bool,
    pub win_en: bool,
    pub bg_win_tile_area: bool,
    pub bg_tile_area: bool,
    pub obj_size: bool,
    pub obj_en: bool,
    pub bg_win_en: bool,
    pub cur_vram_bank: u8,
}

/// The addresses the video subsystem serves: tile RAM, the sprite table,
/// and the control register.
pub open spec fn valid_ppu_addr(addr: u16) -> bool {
    (0x8000 <= addr && addr <= 0x9FFF) || (0xFE00 <= addr && addr <= 0xFE9F) || addr == 0xFF40
}

/// The tile-RAM slot an address reaches in the selected bank.
pub open spec fn vram_index(p: PpuView, addr: u16) -> int {
    p.cur_vram_bank * 0x2000 + (addr - 0x8000)
}

/// The control-register byte, each field at its own bit: LCD enable at
/// bit 7 down to background/window enable at bit 0.
pub open spec fn lcdc_byte(p: PpuView) -> u8 {
    (if p.lcd_en { 0x80u8 } else { 0u8 }) | (if p.win_tile_area { 0x40u8 } else { 0u8 })
        | (if p.win_en { 0x20u8 } else { 0u8 }) | (if p.bg_win_tile_area { 0x10u8 } else { 0u8 })
        | (if p.bg_tile_area { 0x08u8 } else { 0u8 }) | (if p.obj_size { 0x04u8 } else { 0u8 })
        | (if p.obj_en { 0x02u8 } else { 0u8 }) | (if p.bg_win_en { 0x01u8 } else { 0u8 })
}

/// The video state after a control-register write: every bit of the byte
/// lands in its field.
pub open spec fn with_lcdc(p: PpuView, v: u8) -> PpuView {
    PpuView {
        lcd_en: v & 0x80 != 0,
        win_tile_area: v & 0x40 != 0,
        win_en: v & 0x20 != 0,
        bg_win_tile_area: v & 0x10 != 0,
        bg_tile_area: v & 0x08 != 0,
        obj_size: v & 0x04 != 0,
        obj_en: v & 0x02 != 0,
        bg_win_en: v & 0x01 != 0,
        ..p
    }
}

/// The control register is a pure bitfield: a byte read after a byte
/// write hands the written value back exactly.
pub proof fn lemma_lcdc_roundtrip(p: PpuView, v: u8)
    ensures
        lcdc_byte(with_lcdc(p, v)) == v,
{
    assert((if v & 0x80 != 0 { 0x80u8 } else { 0u8 }) | (if v & 0x40 != 0 { 0x40u8 } else { 0u8 })
        | (if v & 0x20 != 0 { 0x20u8 } else { 0u8 }) | (if v & 0x10 != 0 { 0x10u8 } else { 0u8 })
        | (if v & 0x08 != 0 { 0x08u8 } else { 0u8 }) | (if v & 0x04 != 0 { 0x04u8 } else { 0u8 })
        | (if v & 0x02 != 0 { 0x02u8 } else { 0u8 }) | (if v & 0x01 != 0 { 0x01u8 } else { 0u8 })
        == v) by (bit_vector);
}

#[allow(non_camel_case_types)]
pub struct ppu {
    vram: Vec<u8>,
    oam: Vec<u8>,
    lcd_en: bool,
    win_tile_area: bool,
    win_en: bool,
    bg_win_tile_area: bool,
    bg_tile_area: bool,
    obj_size: bool,
    obj_en: bool,
    bg_win_en: bool,
    cur_vram_bank: u8,
}

impl View for ppu {
    type V = PpuView;

    closed spec fn view(&self) -> PpuView {
        PpuView {
            vram: self.vram@,
            oam: self.oam@,
            lcd_en: self.lcd_en,
            win_tile_area: self.win_tile_area,
            win_en: self.win_en,
            bg_win_tile_area: self.bg_win_tile_area,
            bg_tile_area: self.bg_tile_area,
            obj_size: self.obj_size,
            obj_en: self.obj_en,
            bg_win_en: self.bg_win_en,
            cur_vram_bank: self.cur_vram_bank,
        }
    }
}

impl ppu {
    /// Well-formed: two banks of tile RAM, the full sprite table, and a
    /// selected bank that stays inside them.
    pub open spec fn wf(&self) -> bool {
        self@.vram.len() == 0x4000 && self@.oam.len() == 0xA0 && self@.cur_vram_bank <= 1
    }

    /// A fresh video state: zeroed buffers, every control bit off,
    /// bank 0 selected.
    pub fn new() -> (r: ppu)
        ensures
            r.wf(),
            forall|i: int| 0 <= i < 0x4000 ==> r@.vram[i] == 0,
            forall|i: int| 0 <= i < 0xA0 ==> r@.oam[i] == 0,
            lcdc_byte(r@) == 0,
            r@.cur_vram_bank == 0,
    {
        let mut vram: Vec<u8> = Vec::new();
        let mut i: usize = 0;
        while i < 0x4000
            invariant
                i <= 0x4000,
                vram@.len() == i,
                forall|j: int| 0 <= j < i ==> vram@[j] == 0,
            decreases 0x4000 - i,
        {
            vram.push(0);
            i = i + 1;
        }
        let mut oam: Vec<u8> = Vec::new();
        let mut j: usize = 0;
        while j < 0xA0
            invariant
                j <= 0xA0,
                oam@.len() == j,
                forall|k: int| 0 <= k < j ==> oam@[k] == 0,
            decreases 0xA0 - j,
        {
            oam.push(0);
            j = j + 1;
        }
        proof {
            assert(0u8 | 0u8 == 0u8) by (bit_vector);
        }
        ppu {
            vram,
            oam,
            lcd_en: false,
            win_tile_area: false,
            win_en: false,
            bg_win_tile_area: false,
            bg_tile_area: false,
            obj_size: false,
            obj_en: false,
            bg_win_en: false,
            cur_vram_bank: 0,
        }
    }

    /// Reads one byte of the video region: tile RAM through the selected
    /// bank, the sprite table, or the control-register bitfield.
    pub fn read_byte(&self, addr: u16) -> (r: u8)
        requires
            self.wf(),
            valid_ppu_addr(addr),
        ensures
            0x8000 <= addr <= 0x9FFF ==> r == self@.vram[vram_index(self@, addr)],
            0xFE00 <= addr <= 0xFE9F ==> r == self@.oam[addr - 0xFE00],
            addr == 0xFF40 ==> r == lcdc_byte(self@),
    {
        if 0x8000 <= addr && addr <= 0x9FFF {
            let idx: usize = (self.cur_vram_bank as usize) * 0x2000 + (addr as usize - 0x8000);
            self.vram[idx]
        } else if 0xFE00 <= addr && addr <= 0xFE9F {
            self.oam[addr as usize - 0xFE00]
        } else if addr == 0xFF40 {
            (if self.lcd_en { 0x80u8 } else { 0u8 })
                | (if self.win_tile_area { 0x40u8 } else { 0u8 })
                | (if self.win_en { 0x20u8 } else { 0u8 })
                | (if self.bg_win_tile_area { 0x10u8 } else { 0u8 })
                | (if self.bg_tile_area { 0x08u8 } else { 0u8 })
                | (if self.obj_size { 0x04u8 } else { 0u8 })
                | (if self.obj_en { 0x02u8 } else { 0u8 })
                | (if self.bg_win_en { 0x01u8 } else { 0u8 })
        } else {
            0
        }
    }

    /// Writes one byte of the video region: tile RAM through the selected
    /// bank, the sprite table, or every bit of the control register.
    pub fn write_byte(&mut self, addr: u16, value: u8)
        requires
            old(self).wf(),
            valid_ppu_addr(addr),
        ensures
            final(self).wf(),
            0x8000 <= addr <= 0x9FFF ==> final(self)@ == (PpuView {
                vram: old(self)@.vram.update(vram_index(old(self)@, addr), value),
                ..old(self)@
            }),
            0xFE00 <= addr <= 0xFE9F ==> final(self)@ == (PpuView {
                oam: old(self)@.oam.update(addr - 0xFE00, value),
                ..old(self)@
            }),
            addr == 0xFF40 ==> final(self)@ == with_lcdc(old(self)@, value),
    {
        if 0x8000 <= addr && addr <= 0x9FFF {
            let idx: usize = (self.cur_vram_bank as usize) * 0x2000 + (addr as usize - 0x8000);
            self.vram[idx] = value;
        } else if 0xFE00 <= addr && addr <= 0xFE9F {
            self.oam[addr as usize - 0xFE00] = value;
        } else if addr == 0xFF40 {
            self.lcd_en = value & 0x80 != 0;
            self.win_tile_area = value & 0x40 != 0;
            self.win_en = value & 0x20 != 0;
            self.bg_win_tile_area = value & 0x10 != 0;
            self.bg_tile_area = value & 0x08 != 0;
            self.obj_size = value & 0x04 != 0;
            self.obj_en = value & 0x02 != 0;
            self.bg_win_en = value & 0x01 != 0;
        }
    }
}

} // verus!
