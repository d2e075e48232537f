use vstd::prelude::*;
use crate::cart::Cart;
use crate::cart::cart_error;
use crate::cart::opt_view;
use crate::lcd::Lcd;
use crate::header::CartError;
use crate::io::Io;
use crate::memory::GenericAddressable;
use crate::oam::Oam;

verus! {

/// The parts of the bus that a write may change.
#[derive(Clone, Copy, Debug, PartialEq, Eq, Structural)]
pub enum MmuPart {
    Cart,
    Vram,
    Wram,
    Oam,
    Io,
    /// The DMA register together with OAM, which a DMA rewrites.
    Dma,
    Hram,
    Ie,
    Nothing,
}

/// The bus: decodes each 16-bit address to the block that owns it.
pub struct Mmu {
    pub cart: Cart,
    pub vram: GenericAddressable,
    pub wram: GenericAddressable,
    pub oam: Oam,
    pub io: Io,
    pub dma: u8,
    pub hram: GenericAddressable,
    pub ie_flag: u8,
}

pub open spec fn is_cart_address(a: u16) -> bool {
    a <= 0x7FFF || (0xA000 <= a <= 0xBFFF)
}

pub open spec fn is_io_address(a: u16) -> bool {
    0xFF00 <= a <= 0xFF7F && a != 0xFF46
}

/// Addresses backed by plain RAM: VRAM, WRAM and its echo, OAM, HRAM.
pub open spec fn is_ram_address(a: u16) -> bool {
    (0x8000 <= a <= 0x9FFF) || (0xC000 <= a <= 0xFDFF) || (0xFE00 <= a <= 0xFE9F) || (0xFF80 <= a
        <= 0xFFFE)
}

impl Mmu {
    pub open spec fn wf(&self) -> bool {
        &&& self.cart.wf()
        &&& self.vram.wf() && self.vram.start == 0x8000 && self.vram.end == 0x9FFF
        &&& self.wram.wf() && self.wram.start == 0xC000 && self.wram.end == 0xDFFF
        &&& self.oam.wf()
        &&& self.io.wf()
        &&& self.hram.wf() && self.hram.start == 0xFF80 && self.hram.end == 0xFFFE
    }

    pub open spec fn read_spec(&self, a: u16) -> u8 {
        if is_cart_address(a) {
            self.cart.read_spec(a)
        } else if a <= 0x9FFF {
            self.vram.spec_read(a)
        } else if 0xC000 <= a <= 0xDFFF {
            self.wram.spec_read(a)
        } else if 0xE000 <= a <= 0xFDFF {
            self.wram.spec_read((a - 0x2000) as u16)
        } else if 0xFE00 <= a <= 0xFE9F {
            self.oam.mem.spec_read(a)
        } else if 0xFEA0 <= a <= 0xFEFF {
            0
        } else if a == 0xFF46 {
            self.dma
        } else if 0xFF00 <= a <= 0xFF7F {
            self.io.read_spec(a)
        } else if 0xFF80 <= a <= 0xFFFE {
            self.hram.spec_read(a)
        } else {
            self.ie_flag
        }
    }

    /// Every part but `part` is the same in `old` and `new`.
    pub open spec fn keeps(old: &Mmu, new: &Mmu, part: MmuPart) -> bool {
        &&& (part != MmuPart::Cart ==> new.cart == old.cart)
        &&& (part != MmuPart::Vram ==> new.vram == old.vram)
        &&& (part != MmuPart::Wram ==> new.wram == old.wram)
        &&& (part != MmuPart::Oam && part != MmuPart::Dma ==> new.oam == old.oam)
        &&& (part != MmuPart::Io ==> new.io == old.io)
        &&& (part != MmuPart::Dma ==> new.dma == old.dma)
        &&& (part != MmuPart::Hram ==> new.hram == old.hram)
        &&& (part != MmuPart::Ie ==> new.ie_flag == old.ie_flag)
    }

    /// OAM after a DMA from page `v` of `m`: byte `i` is what `m` reads at `v * 256 + i`.
    pub open spec fn dma_post(m: &Mmu, new: &Mmu, v: u8) -> bool {
        &&& new.oam.wf()
        &&& forall|i: int|
            0 <= i < 160 ==> #[trigger] new.oam.mem.memory@[i] == m.read_spec((v as int * 256 + i) as u16)
    }

    /// What no bus write changes: the ROM image, the cartridge header and the keys held.
    pub open spec fn stable(old: &Mmu, new: &Mmu) -> bool {
        &&& new.cart.rom == old.cart.rom
        &&& new.cart.header == old.cart.header
        &&& new.io.joypad.state == old.io.joypad.state
    }

    /// How a write of `v` at `a` takes `old` to `new`.
    pub open spec fn write_post(old: &Mmu, new: &Mmu, a: u16, v: u8) -> bool {
        if is_cart_address(a) {
            Cart::write_post(&old.cart, &new.cart, a, v) && Mmu::keeps(old, new, MmuPart::Cart)
        } else if a <= 0x9FFF {
            Io::block_written(&old.vram, &new.vram, a, v) && Mmu::keeps(old, new, MmuPart::Vram)
        } else if 0xC000 <= a <= 0xDFFF {
            Io::block_written(&old.wram, &new.wram, a, v) && Mmu::keeps(old, new, MmuPart::Wram)
        } else if 0xE000 <= a <= 0xFDFF {
            Io::block_written(&old.wram, &new.wram, (a - 0x2000) as u16, v) && Mmu::keeps(
                old,
                new,
                MmuPart::Wram,
            )
        } else if 0xFE00 <= a <= 0xFE9F {
            Io::block_written(&old.oam.mem, &new.oam.mem, a, v) && Mmu::keeps(old, new, MmuPart::Oam)
        } else if 0xFEA0 <= a <= 0xFEFF {
            Mmu::keeps(old, new, MmuPart::Nothing)
        } else if a == 0xFF46 {
            &&& new.dma == v
            &&& Mmu::dma_post(&Mmu { dma: v, ..*old }, new, v)
            &&& Mmu::keeps(old, new, MmuPart::Dma)
        } else if 0xFF00 <= a <= 0xFF7F {
            Io::write_post(&old.io, &new.io, a, v) && Mmu::keeps(old, new, MmuPart::Io)
        } else if 0xFF80 <= a <= 0xFFFE {
            Io::block_written(&old.hram, &new.hram, a, v) && Mmu::keeps(old, new, MmuPart::Hram)
        } else {
            new.ie_flag == v && Mmu::keeps(old, new, MmuPart::Ie)
        }
    }

    /// Builds the bus around a cartridge; fails as `Cart::new` does.
    pub fn new(rom: Vec<u8>, ram: Option<Vec<u8>>, rtc: Option<Vec<u8>>) -> (r: Result<Mmu, CartError>)
        ensures
            match cart_error(rom@) {
                Some(e) => r == Err::<Mmu, CartError>(e),
                None => r matches Ok(m) && m.wf() && m.cart.loaded_from(rom@, opt_view(ram), opt_view(rtc))
                    && m.ie_flag == 0 && m.dma == 0 && m.io.if_flag == 0xE1 && m.io.lcd == Lcd::new_spec()
                    && m.io.timers == (crate::timers::Timers { sysclk: 0x00AB, tima: 0, tma: 0, tac: 0xF8 }),
            },
    {
        let cart: Cart = Cart::new(rom, ram, rtc)?;
        Ok(Mmu {
            cart,
            vram: GenericAddressable::with_range(0x8000, 0x9FFF),
            wram: GenericAddressable::with_range(0xC000, 0xDFFF),
            oam: Oam::new(),
            io: Io::new(),
            dma: 0,
            hram: GenericAddressable::with_range(0xFF80, 0xFFFE),
            ie_flag: 0,
        })
    }

    /// Copies 160 bytes from page `dma` to OAM.
    pub fn dma_run(&mut self)
        requires
            old(self).wf(),
        ensures
            final(self).wf(),
            Mmu::dma_post(old(self), final(self), old(self).dma),
            Mmu::keeps(old(self), final(self), MmuPart::Oam),
            Mmu::stable(old(self), final(self)),
    {
        let source: u16 = (self.dma as u16) * 256;
        let ghost start = *self;
        let mut i: u16 = 0;
        while i < 160
            invariant
                0 <= i <= 160,
                self.wf(),
                start.wf(),
                source == start.dma as int * 256,
                Mmu::keeps(&start, self, MmuPart::Oam),
                forall|k: int|
                    0 <= k < i ==> #[trigger] self.oam.mem.memory@[k] == start.read_spec(
                        (source + k) as u16,
                    ),
                forall|k: int|
                    i <= k < 160 ==> #[trigger] self.oam.mem.memory@[k] == start.oam.mem.memory@[k],
            decreases 160 - i,
        {
            let a: u16 = source + i;
            proof {
                Mmu::lemma_read_unchanged(&start, self, a);
            }
            let b: u8 = self.read(a);
            self.oam.write(0xFE00 + i, b);
            i = i + 1;
        }
    }

    /// A read that does not touch OAM, or touches an OAM byte not yet rewritten,
    /// gives the same in both states.
    proof fn lemma_read_unchanged(m1: &Mmu, m2: &Mmu, a: u16)
        requires
            m1.wf(),
            m2.wf(),
            Mmu::keeps(m1, m2, MmuPart::Oam),
            0xFE00 <= a <= 0xFE9F ==> m2.oam.mem.memory@[a - 0xFE00] == m1.oam.mem.memory@[a
                - 0xFE00],
        ensures
            m2.read_spec(a) == m1.read_spec(a),
    {
    }

    pub fn write(&mut self, location: u16, byte: u8)
        requires
            old(self).wf(),
        ensures
            final(self).wf(),
            Mmu::write_post(old(self), final(self), location, byte),
            Mmu::stable(old(self), final(self)),
    {
        if location <= 0x7FFF || (0xA000 <= location && location <= 0xBFFF) {
            self.cart.write(location, byte);
        } else if location <= 0x9FFF {
            self.vram.write(location, byte);
        } else if 0xC000 <= location && location <= 0xDFFF {
            self.wram.write(location, byte);
        } else if 0xE000 <= location && location <= 0xFDFF {
            self.wram.write(location - 0x2000, byte);
        } else if 0xFE00 <= location && location <= 0xFE9F {
            self.oam.write(location, byte);
        } else if 0xFEA0 <= location && location <= 0xFEFF {
        } else if location == 0xFF46 {
            self.dma = byte;
            self.dma_run();
        } else if 0xFF00 <= location && location <= 0xFF7F {
            self.io.write(location, byte);
        } else if 0xFF80 <= location && location <= 0xFFFE {
            self.hram.write(location, byte);
        } else {
            self.ie_flag = byte;
        }
    }

    pub fn read(&self, location: u16) -> (r: u8)
        requires
            self.wf(),
        ensures
            r == self.read_spec(location),
    {
        if location <= 0x7FFF || (0xA000 <= location && location <= 0xBFFF) {
            self.cart.read(location)
        } else if location <= 0x9FFF {
            self.vram.read(location)
        } else if 0xC000 <= location && location <= 0xDFFF {
            self.wram.read(location)
        } else if 0xE000 <= location && location <= 0xFDFF {
            self.wram.read(location - 0x2000)
        } else if 0xFE00 <= location && location <= 0xFE9F {
            self.oam.read(location)
        } else if 0xFEA0 <= location && location <= 0xFEFF {
            0
        } else if location == 0xFF46 {
            self.dma
        } else if 0xFF00 <= location && location <= 0xFF7F {
            self.io.read(location)
        } else if 0xFF80 <= location && location <= 0xFFFE {
            self.hram.read(location)
        } else {
            self.ie_flag
        }
    }

    /// Little-endian 16-bit read of `location` and the byte after it.
    pub fn read_16(&self, location: u16) -> (r: u16)
        requires
            self.wf(),
        ensures
            r == self.read_spec(location) as int + 256 * self.read_spec(
                ((location as int + 1) % 65536) as u16,
            ) as int,
    {
        let low: u8 = self.read(location);
        let high: u8 = self.read(location.wrapping_add(1));
        (high as u16) * 256 + (low as u16)
    }
}

/// The RAM cell behind a RAM address (the WRAM echo folds onto WRAM).
pub open spec fn ram_cell(a: u16) -> int {
    if 0xE000 <= a <= 0xFDFF {
        a - 0x2000
    } else {
        a as int
    }
}

/// A write to one RAM cell leaves every other RAM cell as it was.
pub proof fn lemma_write_other_ram(old: &Mmu, new: &Mmu, a: u16, v: u8, b: u16)
    requires
        old.wf(),
        new.wf(),
        Mmu::write_post(old, new, a, v),
        is_ram_address(a),
        is_ram_address(b),
        ram_cell(a) != ram_cell(b),
    ensures
        new.read_spec(b) == old.read_spec(b),
{
}

/// Writing DIV (any value) makes the next read of DIV give 0.
pub proof fn lemma_div_write_resets(old: &Mmu, new: &Mmu, v: u8)
    requires
        old.wf(),
        Mmu::write_post(old, new, 0xFF04, v),
    ensures
        new.read_spec(0xFF04) == 0,
{
}

/// A byte written to VRAM, WRAM, HRAM or OAM reads back unchanged.
pub proof fn lemma_write_then_read(old: &Mmu, new: &Mmu, a: u16, v: u8)
    requires
        old.wf(),
        new.wf(),
        Mmu::write_post(old, new, a, v),
        is_ram_address(a),
    ensures
        new.read_spec(a) == v,
{
}

} // verus!
