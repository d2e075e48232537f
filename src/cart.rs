use vstd::prelude::*;
use crate::header::CartError;
use crate::header::Header;
use crate::header::ROM_BANK_SIZE;
use crate::header::battery_type;
use crate::header::rtc_type;
use crate::header::rumble_type;
use crate::header::spec_ram_banks;
use crate::header::spec_rom_banks;
use crate::mbc::Mbc;
use crate::mbc::ReadResult;
use crate::mbc::WriteResult;
use crate::rtc::Rtc;
use crate::rtc::deserialize_spec;
use crate::rtc::serialize_spec;
use crate::rtc::zero_rtc;

verus! {

/// A cartridge: ROM image, external RAM, optional clock, and its controller.
pub struct Cart {
    pub rom: Vec<u8>,
    pub ram: Vec<u8>,
    pub rtc: Option<Rtc>,
    pub header: Header,
    pub mbc: Mbc,
    /// The ROM size the header declares.
    pub rom_bytes: usize,
}

/// The controller a cartridge type code names, if supported.
pub open spec fn mbc_for(cart_type: u8) -> Option<Mbc> {
    if cart_type == 0 {
        Some(Mbc::NoMbc)
    } else if 1 <= cart_type <= 3 {
        Some(Mbc::Mbc1(false, 1, 0, false))
    } else if 5 <= cart_type <= 6 {
        Some(Mbc::Mbc2(false, 1))
    } else if 0x0F <= cart_type <= 0x13 {
        Some(Mbc::Mbc3(false, 1, 0))
    } else if 0x19 <= cart_type <= 0x1E {
        Some(Mbc::Mbc5(false, 0, 0))
    } else {
        None
    }
}

/// External RAM at power-on: a battery save fitted to `size` (cut or zero-padded),
/// else zeros.
pub open spec fn loaded_ram(size: nat, battery: bool, save: Option<Seq<u8>>) -> Seq<u8> {
    match save {
        Some(d) => if battery {
            Seq::new(size, |i: int| if i < d.len() { d[i] } else { 0u8 })
        } else {
            Seq::new(size, |i: int| 0u8)
        },
        None => Seq::new(size, |i: int| 0u8),
    }
}

/// The clock at power-on: present only on RTC cartridges, read from the save if given.
pub open spec fn loaded_rtc(has_rtc: bool, save: Option<Seq<u8>>) -> Option<Rtc> {
    if !has_rtc {
        None
    } else {
        match save {
            Some(d) => Some(deserialize_spec(d)),
            None => Some(zero_rtc()),
        }
    }
}

pub open spec fn opt_view(v: Option<Vec<u8>>) -> Option<Seq<u8>> {
    match v {
        Some(x) => Some(x@),
        None => None,
    }
}

/// Why a ROM image is refused, if it is.
pub open spec fn cart_error(rom: Seq<u8>) -> Option<CartError> {
    if rom.len() < 0x150 {
        Some(CartError::RomTooShort)
    } else if mbc_for(rom[0x147]) is None {
        Some(CartError::UnsupportedCartType(rom[0x147]))
    } else if rom.len() < spec_rom_banks(rom[0x148]) * ROM_BANK_SIZE {
        Some(CartError::RomTooShort)
    } else {
        None
    }
}

impl Cart {
    pub open spec fn wf(&self) -> bool {
        &&& self.rom_bytes == self.header.spec_rom_size_bytes()
        &&& self.rom@.len() >= self.rom_bytes > 0
        &&& (self.rtc is Some <==> rtc_type(self.header.cart_type))
        &&& self.mbc.wf()
        &&& self.ram@.len() == self.header.spec_ram_size_bytes()
        &&& (self.rtc matches Some(r) ==> r.wf())
    }

    /// The cartridge as built from a ROM image and optional RAM and RTC saves.
    pub open spec fn loaded_from(&self, rom: Seq<u8>, ram: Option<Seq<u8>>, rtc: Option<Seq<u8>>) -> bool {
        &&& self.rom@ == rom
        &&& self.header.cart_type == rom[0x147]
        &&& self.header.rom_size == rom[0x148]
        &&& self.header.ram_size == rom[0x149]
        &&& Some(self.mbc) == mbc_for(rom[0x147])
        &&& self.ram@ == loaded_ram(self.header.spec_ram_size_bytes(), battery_type(rom[0x147]), ram)
        &&& self.rtc == loaded_rtc(rtc_type(rom[0x147]), rtc)
    }

    pub open spec fn ram_read_spec(&self, o: usize) -> u8 {
        if self.ram@.len() > 0 {
            let b = self.ram@[(o as nat % self.ram@.len()) as int];
            if self.mbc is Mbc2 {
                0xF0u8 | b
            } else {
                b
            }
        } else {
            0xFF
        }
    }

    pub open spec fn read_spec(&self, add: u16) -> u8 {
        match self.mbc.read_spec(add) {
            ReadResult::Rom(o) => self.rom@[(o as nat % self.header.spec_rom_size_bytes()) as int],
            ReadResult::Ram(o) => self.ram_read_spec(o),
            ReadResult::Rtc(r) => match self.rtc {
                Some(t) => t.read_spec(r),
                None => 0xFF,
            },
            ReadResult::Mbc(v) => v,
            ReadResult::NoOp => 0xFF,
        }
    }

    /// How a write of `v` at `add` takes `old` to `new`.
    pub open spec fn write_post(old: &Cart, new: &Cart, add: u16, v: u8) -> bool {
        let (m, wr) = old.mbc.write_spec(
            spec_ram_banks(old.header.ram_size),
            rumble_type(old.header.cart_type),
            add,
            v,
        );
        &&& new.mbc == m
        &&& new.rom == old.rom
        &&& new.header == old.header
        &&& match wr {
            WriteResult::Ram(o, b) => {
                &&& new.rtc == old.rtc
                &&& new.ram@ == if old.ram@.len() > 0 {
                    old.ram@.update((o as nat % old.ram@.len()) as int, b)
                } else {
                    old.ram@
                }
            },
            WriteResult::Rtc(r, b) => {
                &&& new.ram@ == old.ram@
                &&& new.rtc == match old.rtc {
                    Some(t) => Some(t.write_spec(r, b)),
                    None => None,
                }
            },
            WriteResult::NoOp => new.ram@ == old.ram@ && new.rtc == old.rtc,
        }
    }

    fn get_mbc(header: &Header) -> (r: Result<Mbc, CartError>)
        ensures
            r == match mbc_for(header.cart_type) {
                Some(m) => Ok(m),
                None => Err(CartError::UnsupportedCartType(header.cart_type)),
            },
    {
        let t: u8 = header.cart_type;
        if t == 0 {
            Ok(Mbc::NoMbc)
        } else if 1 <= t && t <= 3 {
            Ok(Mbc::Mbc1(false, 1, 0, false))
        } else if 5 <= t && t <= 6 {
            Ok(Mbc::Mbc2(false, 1))
        } else if 0x0F <= t && t <= 0x13 {
            Ok(Mbc::Mbc3(false, 1, 0))
        } else if 0x19 <= t && t <= 0x1E {
            Ok(Mbc::Mbc5(false, 0, 0))
        } else {
            Err(CartError::UnsupportedCartType(t))
        }
    }

    fn fit_ram(size: usize, battery: bool, save: Option<Vec<u8>>) -> (r: Vec<u8>)
        ensures
            r@ == loaded_ram(size as nat, battery, opt_view(save)),
    {
        let data: Vec<u8> = match save {
            Some(d) => if battery {
                d
            } else {
                Vec::new()
            },
            None => Vec::new(),
        };
        let mut ram: Vec<u8> = Vec::new();
        let mut i: usize = 0;
        while i < size
            invariant
                i <= size,
                ram@.len() == i,
                forall|j: int|
                    0 <= j < i ==> ram@[j] == loaded_ram(size as nat, battery, opt_view(save))[j],
                data@ == match save {
                    Some(d) => if battery {
                        d@
                    } else {
                        Seq::<u8>::empty()
                    },
                    None => Seq::<u8>::empty(),
                },
            decreases size - i,
        {
            let b: u8 = if i < data.len() { data[i] } else { 0 };
            ram.push(b);
            i = i + 1;
        }
        assert(ram@ =~= loaded_ram(size as nat, battery, opt_view(save)));
        ram
    }

    /// Builds a cartridge from a ROM image and optional RAM and RTC saves.
    pub fn new(rom: Vec<u8>, ram: Option<Vec<u8>>, rtc: Option<Vec<u8>>) -> (r: Result<Cart, CartError>)
        ensures
            match cart_error(rom@) {
                Some(e) => r == Err::<Cart, CartError>(e),
                None => r matches Ok(c) && c.wf() && c.loaded_from(rom@, opt_view(ram), opt_view(rtc)),
            },
    {
        let header: Header = Header::new(&rom)?;
        let mbc: Mbc = Cart::get_mbc(&header)?;
        let rom_bytes: usize = match crate::header::fitting_rom_size(header.rom_size, rom.len()) {
            Some(n) => n,
            None => {
                return Err(CartError::RomTooShort);
            },
        };
        proof {
            crate::header::lemma_rom_banks_grow(header.rom_size, header.rom_size);
        }
        let size: usize = header.get_ram_size_bytes();
        let ram: Vec<u8> = Cart::fit_ram(size, header.has_battery(), ram);
        let rtc: Option<Rtc> = if header.has_rtc() {
            match rtc {
                Some(data) => Some(Rtc::deserialize(&data)),
                None => Some(Rtc::new()),
            }
        } else {
            None
        };
        Ok(Cart { rom, ram, rtc, header, mbc, rom_bytes })
    }

    /// Hands the host's current time in seconds to the clock, if any.
    pub fn update_rtc_now(&mut self, elapsed_secs: u64)
        requires
            old(self).wf(),
        ensures
            final(self).wf(),
            final(self).rom == old(self).rom,
            final(self).ram == old(self).ram,
            final(self).header == old(self).header,
            final(self).mbc == old(self).mbc,
            final(self).rtc == match old(self).rtc {
                Some(t) => Some(Rtc { now: elapsed_secs, ..t }),
                None => None,
            },
    {
        if let Some(rtc) = &mut self.rtc {
            rtc.update_now(elapsed_secs);
        }
    }

    /// The battery-backed RAM, on cartridges that have some.
    pub fn dump_ram(&self) -> (r: Option<Vec<u8>>)
        ensures
            r matches Some(v) ==> v@ == self.ram@,
            r is Some <==> battery_type(self.header.cart_type) && self.ram@.len() > 0,
    {
        if self.header.has_battery() && self.ram.len() > 0 {
            Some(self.ram.clone())
        } else {
            None
        }
    }

    /// The RTC's save image, on cartridges that have a clock.
    pub fn dump_rtc(&self) -> (r: Option<Vec<u8>>)
        ensures
            r matches Some(v) ==> self.rtc matches Some(t) && v@ == serialize_spec(t),
            r is Some <==> self.rtc is Some,
    {
        match &self.rtc {
            Some(rtc) => Some(rtc.serialize()),
            None => None,
        }
    }

    pub fn read(&self, location: u16) -> (r: u8)
        requires
            self.wf(),
        ensures
            r == self.read_spec(location),
    {
        match self.mbc.read(&self.header, location) {
            ReadResult::Rom(o) => self.rom[o % self.rom_bytes],
            ReadResult::Ram(o) => {
                if self.ram.len() > 0 {
                    let b: u8 = self.ram[o % self.ram.len()];
                    if let Mbc::Mbc2(_, _) = self.mbc {
                        0xF0u8 | b
                    } else {
                        b
                    }
                } else {
                    0xFF
                }
            },
            ReadResult::Rtc(reg) => match &self.rtc {
                Some(rtc) => rtc.read(reg),
                None => 0xFF,
            },
            ReadResult::Mbc(v) => v,
            ReadResult::NoOp => 0xFF,
        }
    }

    pub fn write(&mut self, location: u16, byte: u8)
        requires
            old(self).wf(),
        ensures
            final(self).wf(),
            Cart::write_post(old(self), final(self), location, byte),
    {
        match self.mbc.write(&self.header, location, byte) {
            WriteResult::Ram(o, b) => {
                if self.ram.len() > 0 {
                    let i: usize = o % self.ram.len();
                    self.ram.set(i, b);
                }
            },
            WriteResult::Rtc(reg, v) => {
                if let Some(rtc) = &mut self.rtc {
                    rtc.write(reg, v);
                }
            },
            WriteResult::NoOp => {},
        }
    }
}

/// Building a battery cartridge from a RAM dump of the size its header declares (as
/// `dump_ram` gives) restores the RAM exactly.
pub proof fn lemma_ram_dump_reload(c: &Cart, rom: Seq<u8>, dump: Seq<u8>, rtc: Option<Seq<u8>>)
    requires
        c.loaded_from(rom, Some(dump), rtc),
        battery_type(rom[0x147]),
        dump.len() == c.header.spec_ram_size_bytes(),
    ensures
        c.ram@ == dump,
{
    assert(c.ram@ =~= dump);
}

} // verus!
