use vstd::prelude::*;

verus! {

pub const ROM_BANK_SIZE: usize = 16384;

pub const RAM_BANK_SIZE: usize = 8192;

pub const MBC2_RAM_SIZE: usize = 512;

/// Why a cartridge image was refused.
#[derive(Clone, Copy, Debug, PartialEq, Eq, Structural)]
pub enum CartError {
    /// The image is shorter than its header, or than the ROM size the header declares.
    RomTooShort,
    /// The cartridge type code at 0x147 names no supported controller.
    UnsupportedCartType(u8),
}

/// The cartridge header, read from the ROM image at 0x134..0x14A.
pub struct Header {
    /// The title bytes, up to the first byte that is not ASCII.
    pub title: Vec<u8>,
    pub cart_type: u8,
    pub rom_size: u8,
    pub ram_size: u8,
}

pub open spec fn spec_rom_banks(rom_size: u8) -> nat
    decreases rom_size,
{
    if rom_size == 0 {
        2
    } else {
        2 * spec_rom_banks((rom_size - 1) as u8)
    }
}

pub open spec fn spec_ram_banks(ram_size: u8) -> u8 {
    if ram_size == 2 {
        1
    } else if ram_size == 3 {
        4
    } else if ram_size == 4 {
        16
    } else if ram_size == 5 {
        8
    } else {
        0
    }
}

pub open spec fn battery_type(t: u8) -> bool {
    t == 0x03 || t == 0x06 || t == 0x0F || t == 0x10 || t == 0x13 || t == 0x1B || t == 0x1E
}

pub open spec fn rtc_type(t: u8) -> bool {
    t == 0x0F || t == 0x10
}

pub open spec fn rumble_type(t: u8) -> bool {
    t == 0x1C || t == 0x1D || t == 0x1E
}

/// The title: the bytes of `rom[0x134..0x144]` before the first non-ASCII one.
pub open spec fn title_of(rom: Seq<u8>) -> Seq<u8>
    recommends
        rom.len() >= 0x144,
{
    let t = rom.subrange(0x134, 0x144);
    if exists|i: int| 0 <= i < 16 && t[i] >= 128 {
        let k = choose|i: int| 0 <= i < 16 && t[i] >= 128 && forall|j: int| 0 <= j < i ==> t[j] < 128;
        t.subrange(0, k)
    } else {
        t
    }
}

impl Header {
    /// The ROM size fits the 16-bit bank count of `get_rom_banks`.
    pub open spec fn wf(&self) -> bool {
        self.rom_size <= 14
    }

    pub open spec fn spec_rom_size_bytes(&self) -> nat {
        spec_rom_banks(self.rom_size) * ROM_BANK_SIZE as nat
    }

    pub open spec fn spec_ram_size_bytes(&self) -> nat {
        if self.cart_type == 5 || self.cart_type == 6 {
            MBC2_RAM_SIZE as nat
        } else {
            spec_ram_banks(self.ram_size) as nat * RAM_BANK_SIZE as nat
        }
    }

    /// Reads the header; fails on an image too short to hold one.
    pub fn new(rom: &Vec<u8>) -> (r: Result<Header, CartError>)
        ensures
            rom@.len() < 0x150 ==> r == Err::<Header, CartError>(CartError::RomTooShort),
            rom@.len() >= 0x150 ==> (r matches Ok(h) && h.cart_type
                == rom@[0x147] && h.rom_size == rom@[0x148] && h.ram_size == rom@[0x149]
                && h.title@ == title_of(rom@)),
    {
        if rom.len() < 0x150 {
            return Err(CartError::RomTooShort);
        }
        let mut title: Vec<u8> = Vec::new();
        let mut i: usize = 0x134;
        let mut stopped: bool = false;
        while i < 0x144 && !stopped
            invariant
                rom@.len() >= 0x150,
                0x134 <= i <= 0x144,
                stopped ==> i < 0x144 && rom@[i as int] >= 128,
                title@ == rom@.subrange(0x134, i as int),
                forall|j: int| 0x134 <= j < i ==> rom@[j] < 128,
            decreases 0x144 - i + (if stopped { 0int } else { 1int }),
        {
            if rom[i] >= 128 {
                stopped = true;
            } else {
                title.push(rom[i]);
                i = i + 1;
            }
        }
        proof {
            let t = rom@.subrange(0x134, 0x144);
            if stopped {
                let k = (i - 0x134) as int;
                assert(t[k] >= 128);
                let c = choose|x: int| 0 <= x < 16 && t[x] >= 128 && forall|j: int| 0 <= j < x ==> t[j] < 128;
                assert(forall|j: int| 0 <= j < k ==> t[j] < 128);
                if c < k {
                    assert(t[c] < 128);
                }
                if k < c {
                    assert(t[k] < 128);
                }
                assert(t.subrange(0, k) =~= title@);
            } else {
                assert(!(exists|x: int| 0 <= x < 16 && t[x] >= 128)) by {
                    assert(forall|x: int| 0 <= x < 16 ==> t[x] == rom@[x + 0x134]);
                }
                assert(t =~= title@);
            }
        }
        Ok(Header { title, cart_type: rom[0x147], rom_size: rom[0x148], ram_size: rom[0x149] })
    }

    pub fn get_rom_banks(&self) -> (r: u16)
        requires
            self.wf(),
        ensures
            r == spec_rom_banks(self.rom_size),
            2 <= r <= 32768,
    {
        let mut banks: u16 = 2;
        let mut i: u8 = 0;
        while i < self.rom_size
            invariant
                i <= self.rom_size <= 14,
                banks == spec_rom_banks(i),
                2 <= banks <= 32768,
            decreases self.rom_size - i,
        {
            proof {
                lemma_rom_banks_bound(i);
            }
            banks = banks * 2;
            i = i + 1;
            assert(spec_rom_banks(i) == 2 * spec_rom_banks((i - 1) as u8));
        }
        proof {
            lemma_rom_banks_bound(i);
        }
        banks
    }

    pub fn get_ram_banks(&self) -> (r: u8)
        ensures
            r == spec_ram_banks(self.ram_size),
    {
        match self.ram_size {
            0x02 => 1,
            0x03 => 4,
            0x04 => 16,
            0x05 => 8,
            _ => 0,
        }
    }

    pub fn has_battery(&self) -> (r: bool)
        ensures
            r == battery_type(self.cart_type),
    {
        let t: u8 = self.cart_type;
        t == 0x03 || t == 0x06 || t == 0x0F || t == 0x10 || t == 0x13 || t == 0x1B || t == 0x1E
    }

    pub fn has_rtc(&self) -> (r: bool)
        ensures
            r == rtc_type(self.cart_type),
    {
        self.cart_type == 0x0F || self.cart_type == 0x10
    }

    pub fn has_rumble(&self) -> (r: bool)
        ensures
            r == rumble_type(self.cart_type),
    {
        self.cart_type == 0x1C || self.cart_type == 0x1D || self.cart_type == 0x1E
    }

    pub fn get_ram_size_bytes(&self) -> (r: usize)
        ensures
            r == self.spec_ram_size_bytes(),
            r <= 16 * RAM_BANK_SIZE,
    {
        if self.cart_type == 5 || self.cart_type == 6 {
            MBC2_RAM_SIZE
        } else {
            (self.get_ram_banks() as usize) * RAM_BANK_SIZE
        }
    }

    pub fn get_rom_size_bytes(&self) -> (r: usize)
        requires
            self.wf(),
        ensures
            r == self.spec_rom_size_bytes(),
            2 * ROM_BANK_SIZE <= r <= 32768 * ROM_BANK_SIZE,
    {
        (self.get_rom_banks() as usize) * ROM_BANK_SIZE
    }

    /// `add` folded into the RAM size; 0 when the header declares no RAM banks.
    pub fn get_ram_address(&self, add: usize) -> (r: usize)
        ensures
            r == if spec_ram_banks(self.ram_size) > 0 {
                add as nat % self.spec_ram_size_bytes()
            } else {
                0
            },
    {
        if self.get_ram_banks() > 0 {
            add % self.get_ram_size_bytes()
        } else {
            0
        }
    }

    /// `add` folded into the ROM size.
    pub fn get_rom_address(&self, add: usize) -> (r: usize)
        requires
            self.wf(),
        ensures
            r == add as nat % self.spec_rom_size_bytes(),
    {
        add % self.get_rom_size_bytes()
    }
}

proof fn lemma_rom_banks_bound(i: u8)
    requires
        i <= 14,
    ensures
        2 <= spec_rom_banks(i),
        i <= 13 ==> spec_rom_banks(i) <= 16384,
        i <= 12 ==> spec_rom_banks(i) <= 8192,
        i <= 11 ==> spec_rom_banks(i) <= 4096,
        i <= 10 ==> spec_rom_banks(i) <= 2048,
        i <= 9 ==> spec_rom_banks(i) <= 1024,
        i <= 8 ==> spec_rom_banks(i) <= 512,
        i <= 7 ==> spec_rom_banks(i) <= 256,
        i <= 6 ==> spec_rom_banks(i) <= 128,
        i <= 5 ==> spec_rom_banks(i) <= 64,
        i <= 4 ==> spec_rom_banks(i) <= 32,
        i <= 3 ==> spec_rom_banks(i) <= 16,
        i <= 2 ==> spec_rom_banks(i) <= 8,
        i <= 1 ==> spec_rom_banks(i) <= 4,
        i <= 0 ==> spec_rom_banks(i) <= 2,
    decreases i,
{
    if i > 0 {
        lemma_rom_banks_bound((i - 1) as u8);
    }
}

/// The bank count never shrinks as the size code grows.
pub proof fn lemma_rom_banks_grow(i: u8, j: u8)
    requires
        i <= j,
    ensures
        2 <= spec_rom_banks(i) <= spec_rom_banks(j),
    decreases j - i, i,
{
    if i < j {
        lemma_rom_banks_grow(i, (j - 1) as u8);
    } else if i > 0 {
        lemma_rom_banks_grow((i - 1) as u8, (i - 1) as u8);
    }
}

/// `Some` of the ROM size that size code `code` declares, if an image of `len`
/// bytes holds it.
pub fn fitting_rom_size(code: u8, len: usize) -> (r: Option<usize>)
    ensures
        r is Some <==> len >= spec_rom_banks(code) * ROM_BANK_SIZE,
        r matches Some(s) ==> s == spec_rom_banks(code) * ROM_BANK_SIZE,
{
    let mut size: u128 = 32768;
    let mut i: u8 = 0;
    while i < code && size <= len as u128
        invariant
            i <= code,
            size == spec_rom_banks(i) * ROM_BANK_SIZE,
            size <= 2 * (len as u128) + 32768,
        decreases code - i,
    {
        size = size * 2;
        i = i + 1;
    }
    proof {
        lemma_rom_banks_grow(i, code);
    }
    if i == code && size <= len as u128 {
        Some(size as usize)
    } else {
        None
    }
}

} // verus!
