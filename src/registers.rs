use vstd::prelude::*;

verus! {

#[derive(Clone, Copy, Debug, PartialEq, Eq, Structural)]
pub enum Register8 {
    A,
    B,
    C,
    D,
    E,
    F,
    H,
    L,
}

#[derive(Clone, Copy, Debug, PartialEq, Eq, Structural)]
pub enum Register16 {
    AF,
    BC,
    HL,
    DE,
    SP,
    PC,
}

/// A flag, or the negation of one (as used by conditional branches).
#[derive(Clone, Copy, Debug, PartialEq, Eq, Structural)]
pub enum Flag {
    Z,
    N,
    H,
    C,
    NZ,
    NN,
    NH,
    NC,
}

/// The register file. The flags byte F is held as its four flags, so its
/// low nibble reads as zero by construction.
#[derive(Clone, Copy, Debug, PartialEq, Eq, Structural)]
pub struct Registers {
    pub a: u8,
    pub b: u8,
    pub c: u8,
    pub d: u8,
    pub e: u8,
    pub h: u8,
    pub l: u8,
    pub fz: bool,
    pub fn_: bool,
    pub fh: bool,
    pub fc: bool,
    pub sp: u16,
    pub pc: u16,
}

pub open spec fn flag_weight(b: bool, w: int) -> int {
    if b { w } else { 0 }
}

impl Registers {
    /// The F byte: Z, N, H, C in bits 7 to 4.
    pub open spec fn f_byte(self) -> u8 {
        (flag_weight(self.fz, 128) + flag_weight(self.fn_, 64) + flag_weight(self.fh, 32)
            + flag_weight(self.fc, 16)) as u8
    }

    pub open spec fn spec_get8(self, name: Register8) -> u8 {
        match name {
            Register8::A => self.a,
            Register8::B => self.b,
            Register8::C => self.c,
            Register8::D => self.d,
            Register8::E => self.e,
            Register8::F => self.f_byte(),
            Register8::H => self.h,
            Register8::L => self.l,
        }
    }

    pub open spec fn spec_get16(self, name: Register16) -> u16 {
        match name {
            Register16::AF => (self.a as int * 256 + self.f_byte() as int) as u16,
            Register16::BC => (self.b as int * 256 + self.c as int) as u16,
            Register16::HL => (self.h as int * 256 + self.l as int) as u16,
            Register16::DE => (self.d as int * 256 + self.e as int) as u16,
            Register16::SP => self.sp,
            Register16::PC => self.pc,
        }
    }

    /// Whether the condition named by `name` holds.
    pub open spec fn spec_getf(self, name: Flag) -> bool {
        match name {
            Flag::Z => self.fz,
            Flag::N => self.fn_,
            Flag::H => self.fh,
            Flag::C => self.fc,
            Flag::NZ => !self.fz,
            Flag::NN => !self.fn_,
            Flag::NH => !self.fh,
            Flag::NC => !self.fc,
        }
    }

    /// The register file with F loaded from byte `v` (its low nibble is dropped).
    pub open spec fn with_f(self, v: u8) -> Registers {
        Registers {
            fz: v >= 128,
            fn_: v % 128 >= 64,
            fh: v % 64 >= 32,
            fc: v % 32 >= 16,
            ..self
        }
    }

    pub open spec fn with8(self, name: Register8, v: u8) -> Registers {
        match name {
            Register8::A => Registers { a: v, ..self },
            Register8::B => Registers { b: v, ..self },
            Register8::C => Registers { c: v, ..self },
            Register8::D => Registers { d: v, ..self },
            Register8::E => Registers { e: v, ..self },
            Register8::F => self.with_f(v),
            Register8::H => Registers { h: v, ..self },
            Register8::L => Registers { l: v, ..self },
        }
    }

    pub open spec fn with16(self, name: Register16, v: u16) -> Registers {
        let hi: u8 = (v / 256) as u8;
        let lo: u8 = (v % 256) as u8;
        match name {
            Register16::AF => Registers { a: hi, ..self }.with_f(lo),
            Register16::BC => Registers { b: hi, c: lo, ..self },
            Register16::HL => Registers { h: hi, l: lo, ..self },
            Register16::DE => Registers { d: hi, e: lo, ..self },
            Register16::SP => Registers { sp: v, ..self },
            Register16::PC => Registers { pc: v, ..self },
        }
    }

    /// The register file with the flag under `name` set to `on`
    /// (a negated name sets its flag to `!on`).
    pub open spec fn withf(self, name: Flag, on: bool) -> Registers {
        match name {
            Flag::Z => Registers { fz: on, ..self },
            Flag::N => Registers { fn_: on, ..self },
            Flag::H => Registers { fh: on, ..self },
            Flag::C => Registers { fc: on, ..self },
            Flag::NZ => Registers { fz: !on, ..self },
            Flag::NN => Registers { fn_: !on, ..self },
            Flag::NH => Registers { fh: !on, ..self },
            Flag::NC => Registers { fc: !on, ..self },
        }
    }

    /// The register file with the four flags replaced.
    pub open spec fn with_flags(self, z: bool, n: bool, h: bool, c: bool) -> Registers {
        Registers { fz: z, fn_: n, fh: h, fc: c, ..self }
    }

    pub open spec fn new_spec() -> Registers {
        Registers {
            a: 0x01,
            b: 0x00,
            c: 0x13,
            d: 0x00,
            e: 0xD8,
            h: 0x01,
            l: 0x4D,
            fz: true,
            fn_: false,
            fh: true,
            fc: true,
            sp: 0xFFFE,
            pc: 0x0100,
        }
    }

    /// Register values after the boot ROM.
    pub fn new() -> (r: Registers)
        ensures
            r == Registers::new_spec(),
            r.a == 0x01 && r.f_byte() == 0xB0 && r.b == 0x00 && r.c == 0x13,
            r.d == 0x00 && r.e == 0xD8 && r.h == 0x01 && r.l == 0x4D,
            r.sp == 0xFFFE && r.pc == 0x0100,
    {
        Registers {
            a: 0x01,
            b: 0x00,
            c: 0x13,
            d: 0x00,
            e: 0xD8,
            h: 0x01,
            l: 0x4D,
            fz: true,
            fn_: false,
            fh: true,
            fc: true,
            sp: 0xFFFE,
            pc: 0x0100,
        }
    }

    pub fn get_f(&self) -> (r: u8)
        ensures
            r == self.f_byte(),
            r % 16 == 0,
    {
        let mut r: u8 = 0;
        if self.fz {
            r = r + 128;
        }
        if self.fn_ {
            r = r + 64;
        }
        if self.fh {
            r = r + 32;
        }
        if self.fc {
            r = r + 16;
        }
        r
    }

    pub fn get8(&self, name: &Register8) -> (r: u8)
        ensures
            r == self.spec_get8(*name),
    {
        match name {
            Register8::A => self.a,
            Register8::B => self.b,
            Register8::C => self.c,
            Register8::D => self.d,
            Register8::E => self.e,
            Register8::F => self.get_f(),
            Register8::H => self.h,
            Register8::L => self.l,
        }
    }

    pub fn get16(&self, name: &Register16) -> (r: u16)
        ensures
            r == self.spec_get16(*name),
    {
        match name {
            Register16::AF => self.a as u16 * 256 + self.get_f() as u16,
            Register16::BC => self.b as u16 * 256 + self.c as u16,
            Register16::HL => self.h as u16 * 256 + self.l as u16,
            Register16::DE => self.d as u16 * 256 + self.e as u16,
            Register16::SP => self.sp,
            Register16::PC => self.pc,
        }
    }

    pub fn set_f(&mut self, v: u8)
        ensures
            *final(self) == old(self).with_f(v),
            final(self).f_byte() == v - v % 16,
    {
        proof {
            lemma_flag_bits(v);
        }
        self.fz = v >= 128;
        self.fn_ = v % 128 >= 64;
        self.fh = v % 64 >= 32;
        self.fc = v % 32 >= 16;
    }

    pub fn set8(&mut self, name: &Register8, value: u8)
        ensures
            *final(self) == old(self).with8(*name, value),
            final(self).spec_get8(*name) == if *name == Register8::F {
                (value - value % 16) as u8
            } else {
                value
            },
    {
        match name {
            Register8::A => self.a = value,
            Register8::B => self.b = value,
            Register8::C => self.c = value,
            Register8::D => self.d = value,
            Register8::E => self.e = value,
            Register8::F => self.set_f(value),
            Register8::H => self.h = value,
            Register8::L => self.l = value,
        }
    }

    pub fn set16(&mut self, name: &Register16, value: u16)
        ensures
            *final(self) == old(self).with16(*name, value),
            final(self).spec_get16(*name) == if *name == Register16::AF {
                (value - value % 16) as u16
            } else {
                value
            },
    {
        let hi: u8 = (value / 256) as u8;
        let lo: u8 = (value % 256) as u8;
        match name {
            Register16::AF => {
                self.a = hi;
                self.set_f(lo);
            },
            Register16::BC => {
                self.b = hi;
                self.c = lo;
            },
            Register16::HL => {
                self.h = hi;
                self.l = lo;
            },
            Register16::DE => {
                self.d = hi;
                self.e = lo;
            },
            Register16::SP => self.sp = value,
            Register16::PC => self.pc = value,
        }
    }

    /// 1 when the condition named by `name` holds, else 0.
    pub fn getf(&self, name: &Flag) -> (r: u8)
        ensures
            r == (if self.spec_getf(*name) { 1u8 } else { 0u8 }),
    {
        let on: bool = match name {
            Flag::Z => self.fz,
            Flag::N => self.fn_,
            Flag::H => self.fh,
            Flag::C => self.fc,
            Flag::NZ => !self.fz,
            Flag::NN => !self.fn_,
            Flag::NH => !self.fh,
            Flag::NC => !self.fc,
        };
        if on {
            1
        } else {
            0
        }
    }

    /// Makes the condition named by `name` hold.
    pub fn setf(&mut self, name: &Flag)
        ensures
            *final(self) == old(self).withf(*name, true),
            final(self).spec_getf(*name),
    {
        self.put_flag(name, true);
    }

    /// Makes the condition named by `name` fail.
    pub fn unsetf(&mut self, name: &Flag)
        ensures
            *final(self) == old(self).withf(*name, false),
            !final(self).spec_getf(*name),
    {
        self.put_flag(name, false);
    }

    fn put_flag(&mut self, name: &Flag, on: bool)
        ensures
            *final(self) == old(self).withf(*name, on),
    {
        match name {
            Flag::Z => self.fz = on,
            Flag::N => self.fn_ = on,
            Flag::H => self.fh = on,
            Flag::C => self.fc = on,
            Flag::NZ => self.fz = !on,
            Flag::NN => self.fn_ = !on,
            Flag::NH => self.fh = !on,
            Flag::NC => self.fc = !on,
        }
    }

    /// Replaces all four flags at once.
    pub fn set_flags(&mut self, z: bool, n: bool, h: bool, c: bool)
        ensures
            *final(self) == old(self).with_flags(z, n, h, c),
    {
        self.fz = z;
        self.fn_ = n;
        self.fh = h;
        self.fc = c;
    }
}

proof fn lemma_flag_bits(v: u8)
    ensures
        v - v % 16 == (if v >= 128 { 128int } else { 0int }) + (if v % 128 >= 64 { 64int } else { 0int })
            + (if v % 64 >= 32 { 32int } else { 0int }) + (if v % 32 >= 16 { 16int } else { 0int }),
{
    assert(v - v % 16 == (if v >= 128 { 128u8 } else { 0u8 }) + (if v % 128 >= 64 { 64u8 } else { 0u8 })
        + (if v % 64 >= 32 { 32u8 } else { 0u8 }) + (if v % 32 >= 16 { 16u8 } else { 0u8 })) by (bit_vector);
}

/// The F byte's low nibble is zero in every register file.
pub proof fn lemma_f_low_nibble_zero(r: Registers)
    ensures
        r.f_byte() % 16 == 0,
        r.spec_get8(Register8::F) % 16 == 0,
        r.spec_get16(Register16::AF) % 16 == 0,
{
}

} // verus!
