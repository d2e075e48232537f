use vstd::prelude::*;

verus! {

/// The LCD registers at 0xFF40..=0xFF4B (0xFF46, the DMA register, belongs to the bus).
#[derive(Clone, Copy, Debug, PartialEq, Eq, Structural)]
pub struct Lcd {
    pub lcdc: u8,
    pub stat: u8,
    pub scy: u8,
    pub scx: u8,
    pub ly: u8,
    pub lyc: u8,
    pub bgp: u8,
    pub obp0: u8,
    pub obp1: u8,
    pub wy: u8,
    pub wx: u8,
}

pub open spec fn with_coincidence(stat: u8, ly: u8, lyc: u8) -> u8 {
    if ly == lyc {
        stat | 0x04
    } else {
        stat & 0xFB
    }
}

/// Two-bit shade number `index` of palette byte `p`.
pub open spec fn palette_entry(p: u8, index: u8) -> u8 {
    (p >> (2 * index)) & 3u8
}

impl Lcd {
    pub open spec fn read_spec(self, location: u16) -> u8 {
        if location == 0xFF40 {
            self.lcdc
        } else if location == 0xFF41 {
            self.stat
        } else if location == 0xFF42 {
            self.scy
        } else if location == 0xFF43 {
            self.scx
        } else if location == 0xFF44 {
            self.ly
        } else if location == 0xFF45 {
            self.lyc
        } else if location == 0xFF47 {
            self.bgp
        } else if location == 0xFF48 {
            self.obp0
        } else if location == 0xFF49 {
            self.obp1
        } else if location == 0xFF4A {
            self.wy
        } else if location == 0xFF4B {
            self.wx
        } else {
            0xFF
        }
    }

    /// LY is read-only; STAT's mode and coincidence bits are kept.
    pub open spec fn write_spec(self, location: u16, byte: u8) -> Lcd {
        if location == 0xFF40 {
            Lcd { lcdc: byte, ..self }
        } else if location == 0xFF41 {
            Lcd { stat: (byte & 0xF8) | (self.stat & 0x07), ..self }
        } else if location == 0xFF42 {
            Lcd { scy: byte, ..self }
        } else if location == 0xFF43 {
            Lcd { scx: byte, ..self }
        } else if location == 0xFF45 {
            Lcd { lyc: byte, stat: with_coincidence(self.stat, self.ly, byte), ..self }
        } else if location == 0xFF47 {
            Lcd { bgp: byte, ..self }
        } else if location == 0xFF48 {
            Lcd { obp0: byte, ..self }
        } else if location == 0xFF49 {
            Lcd { obp1: byte, ..self }
        } else if location == 0xFF4A {
            Lcd { wy: byte, ..self }
        } else if location == 0xFF4B {
            Lcd { wx: byte, ..self }
        } else {
            self
        }
    }

    pub open spec fn with_mode(self, mode: u8) -> Lcd {
        Lcd { stat: (self.stat & 0xFC) | mode, ..self }
    }

    pub open spec fn new_spec() -> Lcd {
        Lcd {
            lcdc: 0x91,
            stat: 0x85,
            scy: 0,
            scx: 0,
            ly: 0,
            lyc: 0,
            bgp: 0xFC,
            obp0: 0,
            obp1: 0,
            wy: 0,
            wx: 0,
        }
    }

    pub fn new() -> (r: Lcd)
        ensures
            r == Lcd::new_spec(),
            r == (Lcd {
                lcdc: 0x91,
                stat: 0x85,
                scy: 0,
                scx: 0,
                ly: 0,
                lyc: 0,
                bgp: 0xFC,
                obp0: 0,
                obp1: 0,
                wy: 0,
                wx: 0,
            }),
    {
        Lcd {
            lcdc: 0x91,
            stat: 0x85,
            scy: 0x00,
            scx: 0x00,
            ly: 0x00,
            lyc: 0x00,
            bgp: 0xFC,
            obp0: 0x00,
            obp1: 0x00,
            wy: 0x00,
            wx: 0x00,
        }
    }

    pub fn is_display_enabled(&self) -> (r: bool)
        ensures
            r == (self.lcdc & 0x80 != 0),
    {
        self.lcdc & 0x80 != 0
    }

    pub fn get_window_tile_map(&self) -> (r: u16)
        ensures
            r == if self.lcdc & 0x40 != 0 { 0x9C00u16 } else { 0x9800u16 },
    {
        if self.lcdc & 0x40 != 0 {
            0x9C00
        } else {
            0x9800
        }
    }

    pub fn set_ly(&mut self, byte: u8)
        ensures
            *final(self) == (Lcd {
                ly: byte,
                stat: with_coincidence(old(self).stat, byte, old(self).lyc),
                ..*old(self)
            }),
    {
        self.ly = byte;
        self.update_coincidence_flag();
    }

    pub fn inc_ly(&mut self, inc: u8)
        ensures
            final(self).ly == ((old(self).ly + inc) % 256) as u8,
            *final(self) == (Lcd {
                ly: final(self).ly,
                stat: with_coincidence(old(self).stat, final(self).ly, old(self).lyc),
                ..*old(self)
            }),
    {
        self.ly = self.ly.wrapping_add(inc);
        self.update_coincidence_flag();
    }

    pub fn get_ly(&self) -> (r: u8)
        ensures
            r == self.ly,
    {
        self.ly
    }

    pub fn set_lyc(&mut self, byte: u8)
        ensures
            *final(self) == (Lcd {
                lyc: byte,
                stat: with_coincidence(old(self).stat, old(self).ly, byte),
                ..*old(self)
            }),
    {
        self.lyc = byte;
        self.update_coincidence_flag();
    }

    pub fn get_lyc(&self) -> (r: u8)
        ensures
            r == self.lyc,
    {
        self.lyc
    }

    pub fn is_window_enabled(&self) -> (r: bool)
        ensures
            r == (self.lcdc & 0x20 != 0),
    {
        self.lcdc & 0x20 != 0
    }

    /// Base of the tile data: 0x8000 (unsigned tile numbers) or 0x9000 (signed).
    pub fn get_tile_data(&self) -> (r: u16)
        ensures
            r == if self.lcdc & 0x10 != 0 { 0x8000u16 } else { 0x9000u16 },
    {
        if self.lcdc & 0x10 != 0 {
            0x8000
        } else {
            0x9000
        }
    }

    pub fn get_bg_tile_map(&self) -> (r: u16)
        ensures
            r == if self.lcdc & 0x08 != 0 { 0x9C00u16 } else { 0x9800u16 },
    {
        if self.lcdc & 0x08 != 0 {
            0x9C00
        } else {
            0x9800
        }
    }

    /// Sprite height in lines.
    pub fn get_sprite_size(&self) -> (r: u8)
        ensures
            r == if self.lcdc & 0x04 != 0 { 16u8 } else { 8u8 },
    {
        if self.lcdc & 0x04 != 0 {
            16
        } else {
            8
        }
    }

    pub fn is_sprite_enabled(&self) -> (r: bool)
        ensures
            r == (self.lcdc & 0x02 != 0),
    {
        self.lcdc & 0x02 != 0
    }

    pub fn is_bg_window_enabled(&self) -> (r: bool)
        ensures
            r == (self.lcdc & 0x01 != 0),
    {
        self.lcdc & 0x01 != 0
    }

    pub fn oam_stat_enabled(&self) -> (r: bool)
        ensures
            r == (self.stat & 0x20 != 0),
    {
        self.stat & 0x20 != 0
    }

    pub fn vblank_stat_enabled(&self) -> (r: bool)
        ensures
            r == (self.stat & 0x10 != 0),
    {
        self.stat & 0x10 != 0
    }

    pub fn hblank_stat_enabled(&self) -> (r: bool)
        ensures
            r == (self.stat & 0x08 != 0),
    {
        self.stat & 0x08 != 0
    }

    pub fn ly_equal_lyc_stat_enabled(&self) -> (r: bool)
        ensures
            r == (self.stat & 0x40 != 0),
    {
        self.stat & 0x40 != 0
    }

    fn update_coincidence_flag(&mut self)
        ensures
            *final(self) == (Lcd {
                stat: with_coincidence(old(self).stat, old(self).ly, old(self).lyc),
                ..*old(self)
            }),
    {
        if self.ly == self.lyc {
            self.stat = self.stat | 0x04;
        } else {
            self.stat = self.stat & 0xFB;
        }
    }

    fn reset_ppu_mode(&mut self)
        ensures
            *final(self) == (Lcd { stat: old(self).stat & 0xFC, ..*old(self) }),
    {
        self.stat = self.stat & 0xFC;
    }

    pub fn set_hblank_ppu_mode(&mut self)
        ensures
            *final(self) == old(self).with_mode(0),
    {
        self.reset_ppu_mode();
        proof {
            let s = old(self).stat;
            assert((s & 0xFC) | 0u8 == s & 0xFC) by (bit_vector);
        }
    }

    pub fn set_vblank_ppu_mode(&mut self)
        ensures
            *final(self) == old(self).with_mode(1),
    {
        self.reset_ppu_mode();
        self.stat = self.stat | 0x01;
    }

    pub fn set_oam_ppu_mode(&mut self)
        ensures
            *final(self) == old(self).with_mode(2),
    {
        self.reset_ppu_mode();
        self.stat = self.stat | 0x02;
    }

    pub fn set_draw_ppu_mode(&mut self)
        ensures
            *final(self) == old(self).with_mode(3),
    {
        self.reset_ppu_mode();
        self.stat = self.stat | 0x03;
    }

    pub fn get_bgp_index(&self, index: u8) -> (r: u8)
        requires
            index <= 3,
        ensures
            r == palette_entry(self.bgp, index),
            r <= 3,
    {
        proof {
            lemma_two_bits(self.bgp, (2 * index) as u8);
        }
        (self.bgp >> (2 * index)) & 3u8
    }

    pub fn get_obp0_index(&self, index: u8) -> (r: u8)
        requires
            index <= 3,
        ensures
            r == palette_entry(self.obp0, index),
            r <= 3,
    {
        proof {
            lemma_two_bits(self.obp0, (2 * index) as u8);
        }
        (self.obp0 >> (2 * index)) & 3u8
    }

    pub fn get_obp1_index(&self, index: u8) -> (r: u8)
        requires
            index <= 3,
        ensures
            r == palette_entry(self.obp1, index),
            r <= 3,
    {
        proof {
            lemma_two_bits(self.obp1, (2 * index) as u8);
        }
        (self.obp1 >> (2 * index)) & 3u8
    }

    pub fn write(&mut self, location: u16, byte: u8)
        ensures
            *final(self) == old(self).write_spec(location, byte),
    {
        if location == 0xFF40 {
            self.lcdc = byte;
        } else if location == 0xFF41 {
            self.stat = (byte & 0xF8) | (self.stat & 0x07);
        } else if location == 0xFF42 {
            self.scy = byte;
        } else if location == 0xFF43 {
            self.scx = byte;
        } else if location == 0xFF45 {
            self.set_lyc(byte);
        } else if location == 0xFF47 {
            self.bgp = byte;
        } else if location == 0xFF48 {
            self.obp0 = byte;
        } else if location == 0xFF49 {
            self.obp1 = byte;
        } else if location == 0xFF4A {
            self.wy = byte;
        } else if location == 0xFF4B {
            self.wx = byte;
        }
    }

    pub fn read(&self, location: u16) -> (r: u8)
        ensures
            r == self.read_spec(location),
    {
        if location == 0xFF40 {
            self.lcdc
        } else if location == 0xFF41 {
            self.stat
        } else if location == 0xFF42 {
            self.scy
        } else if location == 0xFF43 {
            self.scx
        } else if location == 0xFF44 {
            self.ly
        } else if location == 0xFF45 {
            self.lyc
        } else if location == 0xFF47 {
            self.bgp
        } else if location == 0xFF48 {
            self.obp0
        } else if location == 0xFF49 {
            self.obp1
        } else if location == 0xFF4A {
            self.wy
        } else if location == 0xFF4B {
            self.wx
        } else {
            0xFF
        }
    }
}

proof fn lemma_two_bits(p: u8, s: u8)
    ensures
        (p >> s) & 3u8 <= 3,
{
    assert((p >> s) & 3u8 <= 3) by (bit_vector);
}

} // verus!
