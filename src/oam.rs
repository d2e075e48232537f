use vstd::prelude::*;
use crate::memory::GenericAddressable;

verus! {

/// One OAM entry.
#[derive(Clone, Copy, Debug, PartialEq, Eq, Structural)]
pub struct Sprite {
    pub y_position: u8,
    pub x_position: u8,
    pub tile_no: u8,
    /// Drawn behind non-zero background colours.
    pub priority: bool,
    pub y_flip: bool,
    pub x_flip: bool,
    /// OBP1 when set, else OBP0.
    pub palette: bool,
}

/// Object attribute memory, 0xFE00..=0xFE9F: 40 entries of 4 bytes.
pub struct Oam {
    pub mem: GenericAddressable,
}

pub open spec fn sprite_of(y: u8, x: u8, tile: u8, attr: u8) -> Sprite {
    Sprite {
        y_position: y,
        x_position: x,
        tile_no: tile,
        priority: attr & 0x80 != 0,
        y_flip: attr & 0x40 != 0,
        x_flip: attr & 0x20 != 0,
        palette: attr & 0x10 != 0,
    }
}

impl Oam {
    pub open spec fn wf(&self) -> bool {
        self.mem.wf() && self.mem.start == 0xFE00 && self.mem.end == 0xFE9F
    }

    pub open spec fn sprite_spec(&self, id: u8) -> Sprite {
        let m = self.mem.memory@;
        let i = 4 * id as int;
        sprite_of(m[i], m[i + 1], m[i + 2], m[i + 3])
    }

    pub fn new() -> (r: Oam)
        ensures
            r.wf(),
            forall|i: int| 0 <= i < 160 ==> r.mem.memory@[i] == 0,
    {
        Oam { mem: GenericAddressable::with_range(0xFE00, 0xFE9F) }
    }

    pub fn get_sprite(&self, sprite_id: u8) -> (r: Sprite)
        requires
            self.wf(),
            sprite_id <= 39,
        ensures
            r == self.sprite_spec(sprite_id),
    {
        let start: u16 = 0xFE00 + 4 * sprite_id as u16;
        let attr: u8 = self.read(start + 3);
        Sprite {
            y_position: self.read(start),
            x_position: self.read(start + 1),
            tile_no: self.read(start + 2),
            priority: attr & 0x80 != 0,
            y_flip: attr & 0x40 != 0,
            x_flip: attr & 0x20 != 0,
            palette: attr & 0x10 != 0,
        }
    }

    /// Reads OAM directly, bypassing the bus.
    pub fn fake_read(&self, location: u16) -> (r: u8)
        requires
            self.wf(),
            0xFE00 <= location <= 0xFE9F,
        ensures
            r == self.mem.spec_read(location),
    {
        self.mem.read(location)
    }

    pub fn read(&self, location: u16) -> (r: u8)
        requires
            self.wf(),
            0xFE00 <= location <= 0xFE9F,
        ensures
            r == self.mem.spec_read(location),
    {
        self.mem.read(location)
    }

    pub fn write(&mut self, location: u16, byte: u8)
        requires
            old(self).wf(),
            0xFE00 <= location <= 0xFE9F,
        ensures
            final(self).wf(),
            final(self).mem.memory@ == old(self).mem.memory@.update(location - 0xFE00, byte),
    {
        self.mem.write(location, byte);
    }
}

} // verus!
