use vstd::prelude::*;

verus! {

/// Result of an 8-bit ALU operation: the value and the four flags.
#[derive(Clone, Copy, Debug, PartialEq, Eq, Structural)]
pub struct AluOut {
    pub value: u8,
    pub z: bool,
    pub n: bool,
    pub h: bool,
    pub c: bool,
}

/// Result of a 16-bit ALU operation: the value and the four flags.
#[derive(Clone, Copy, Debug, PartialEq, Eq, Structural)]
pub struct Alu16Out {
    pub value: u16,
    pub z: bool,
    pub n: bool,
    pub h: bool,
    pub c: bool,
}

pub open spec fn bit(b: bool) -> int {
    if b { 1 } else { 0 }
}

/// Two's-complement reading of a byte.
pub open spec fn signed8(e: u8) -> int {
    if e >= 128 { e as int - 256 } else { e as int }
}

pub open spec fn add8_spec(a: u8, b: u8, cin: bool) -> AluOut {
    let sum: int = a as int + b as int + bit(cin);
    AluOut {
        value: (sum % 256) as u8,
        z: sum % 256 == 0,
        n: false,
        h: (a as int % 16) + (b as int % 16) + bit(cin) > 15,
        c: sum > 255,
    }
}

pub open spec fn sub8_spec(a: u8, b: u8, cin: bool) -> AluOut {
    let diff: int = a as int - b as int - bit(cin);
    AluOut {
        value: ((diff + 256) % 256) as u8,
        z: (diff + 256) % 256 == 0,
        n: true,
        h: (a as int % 16) < (b as int % 16) + bit(cin),
        c: diff < 0,
    }
}

pub open spec fn logic_spec(value: u8, h: bool) -> AluOut {
    AluOut { value, z: value == 0, n: false, h, c: false }
}

pub open spec fn inc8_spec(a: u8, c: bool) -> AluOut {
    let value: int = (a as int + 1) % 256;
    AluOut { value: value as u8, z: value == 0, n: false, h: a as int % 16 == 15, c }
}

pub open spec fn dec8_spec(a: u8, c: bool) -> AluOut {
    let value: int = (a as int + 255) % 256;
    AluOut { value: value as u8, z: value == 0, n: true, h: a as int % 16 == 0, c }
}

/// Flags of a rotate or shift: the result, and the bit moved out into carry.
pub open spec fn shift_spec(value: int, c: bool) -> AluOut {
    AluOut { value: value as u8, z: value == 0, n: false, h: false, c }
}

pub open spec fn rlc8_spec(a: u8) -> AluOut {
    shift_spec((a as int * 2) % 256 + a as int / 128, a >= 128)
}

pub open spec fn rrc8_spec(a: u8) -> AluOut {
    shift_spec(a as int / 2 + (a as int % 2) * 128, a % 2 == 1)
}

pub open spec fn rl8_spec(a: u8, cin: bool) -> AluOut {
    shift_spec((a as int * 2) % 256 + bit(cin), a >= 128)
}

pub open spec fn rr8_spec(a: u8, cin: bool) -> AluOut {
    shift_spec(a as int / 2 + bit(cin) * 128, a % 2 == 1)
}

pub open spec fn sla8_spec(a: u8) -> AluOut {
    shift_spec((a as int * 2) % 256, a >= 128)
}

pub open spec fn sra8_spec(a: u8) -> AluOut {
    shift_spec(a as int / 2 + (a as int / 128) * 128, a % 2 == 1)
}

pub open spec fn srl8_spec(a: u8) -> AluOut {
    shift_spec(a as int / 2, a % 2 == 1)
}

pub open spec fn swap8_spec(a: u8) -> AluOut {
    shift_spec((a as int % 16) * 16 + a as int / 16, false)
}

pub open spec fn bit8_spec(b: u8, v: u8, c: bool) -> AluOut {
    AluOut { value: v, z: (v >> b) & 1u8 == 0, n: false, h: true, c }
}

/// Decimal adjustment of `a` after a BCD addition (`n == false`) or subtraction.
pub open spec fn daa_spec(a: u8, n: bool, h: bool, c: bool) -> AluOut {
    let (value, carry) = if !n {
        let (v1, c1) = if c || a > 0x99 { ((a as int + 0x60) % 256, true) } else { (a as int, c) };
        let v2 = if h || v1 % 16 > 9 { (v1 + 6) % 256 } else { v1 };
        (v2, c1)
    } else {
        let v1 = if c { (a as int + 256 - 0x60) % 256 } else { a as int };
        let v2 = if h { (v1 + 256 - 6) % 256 } else { v1 };
        (v2, c)
    };
    AluOut { value: value as u8, z: value == 0, n, h: false, c: carry }
}

pub open spec fn add16_spec(a: u16, b: u16, z: bool) -> Alu16Out {
    let sum: int = a as int + b as int;
    Alu16Out {
        value: (sum % 65536) as u16,
        z,
        n: false,
        h: (a as int % 4096) + (b as int % 4096) > 4095,
        c: sum > 65535,
    }
}

/// `sp + e` with `e` read as a signed byte; H and C come from the unsigned add of the low byte.
pub open spec fn add_sp_spec(sp: u16, e: u8) -> Alu16Out {
    Alu16Out {
        value: ((sp as int + signed8(e) + 65536) % 65536) as u16,
        z: false,
        n: false,
        h: (sp as int % 16) + (e as int % 16) > 15,
        c: (sp as int % 256) + e as int > 255,
    }
}

/// A single extracted bit is 0 or 1.
pub proof fn lemma_one_bit(x: u8, s: u8)
    ensures
        (x >> s) & 1u8 <= 1,
{
    assert((x >> s) & 1u8 <= 1) by (bit_vector);
}

/// ADD / ADC: `a + b + carry`.
pub fn add8(a: u8, b: u8, cin: bool) -> (r: AluOut)
    ensures
        r == add8_spec(a, b, cin),
{
    let ci: u16 = if cin { 1 } else { 0 };
    let sum: u16 = a as u16 + b as u16 + ci;
    let value: u8 = (sum % 256) as u8;
    AluOut {
        value,
        z: value == 0,
        n: false,
        h: (a % 16) as u16 + (b % 16) as u16 + ci > 15,
        c: sum > 255,
    }
}

/// SUB / SBC / CP: `a - b - carry`.
pub fn sub8(a: u8, b: u8, cin: bool) -> (r: AluOut)
    ensures
        r == sub8_spec(a, b, cin),
{
    let ci: u16 = if cin { 1 } else { 0 };
    let value: u8 = ((a as u16 + 256 - b as u16 - ci) % 256) as u8;
    AluOut {
        value,
        z: value == 0,
        n: true,
        h: ((a % 16) as u16) < (b % 16) as u16 + ci,
        c: (a as u16) < b as u16 + ci,
    }
}

pub fn and8(a: u8, b: u8) -> (r: AluOut)
    ensures
        r == logic_spec(a & b, true),
{
    let value: u8 = a & b;
    AluOut { value, z: value == 0, n: false, h: true, c: false }
}

pub fn or8(a: u8, b: u8) -> (r: AluOut)
    ensures
        r == logic_spec(a | b, false),
{
    let value: u8 = a | b;
    AluOut { value, z: value == 0, n: false, h: false, c: false }
}

pub fn xor8(a: u8, b: u8) -> (r: AluOut)
    ensures
        r == logic_spec(a ^ b, false),
{
    let value: u8 = a ^ b;
    AluOut { value, z: value == 0, n: false, h: false, c: false }
}

/// INC: carry is kept as given.
pub fn inc8(a: u8, c: bool) -> (r: AluOut)
    ensures
        r == inc8_spec(a, c),
{
    let value: u8 = if a == 255 { 0 } else { a + 1 };
    AluOut { value, z: value == 0, n: false, h: a % 16 == 15, c }
}

/// DEC: carry is kept as given.
pub fn dec8(a: u8, c: bool) -> (r: AluOut)
    ensures
        r == dec8_spec(a, c),
{
    let value: u8 = if a == 0 { 255 } else { a - 1 };
    AluOut { value, z: value == 0, n: true, h: a % 16 == 0, c }
}

pub fn rlc8(a: u8) -> (r: AluOut)
    ensures
        r == rlc8_spec(a),
{
    let value: u8 = (((a as u16) * 2) % 256) as u8 + a / 128;
    AluOut { value, z: value == 0, n: false, h: false, c: a >= 128 }
}

pub fn rrc8(a: u8) -> (r: AluOut)
    ensures
        r == rrc8_spec(a),
{
    let value: u8 = a / 2 + (a % 2) * 128;
    AluOut { value, z: value == 0, n: false, h: false, c: a % 2 == 1 }
}

pub fn rl8(a: u8, cin: bool) -> (r: AluOut)
    ensures
        r == rl8_spec(a, cin),
{
    let ci: u8 = if cin { 1 } else { 0 };
    let value: u8 = (((a as u16) * 2) % 256) as u8 + ci;
    AluOut { value, z: value == 0, n: false, h: false, c: a >= 128 }
}

pub fn rr8(a: u8, cin: bool) -> (r: AluOut)
    ensures
        r == rr8_spec(a, cin),
{
    let ci: u8 = if cin { 128 } else { 0 };
    let value: u8 = a / 2 + ci;
    AluOut { value, z: value == 0, n: false, h: false, c: a % 2 == 1 }
}

pub fn sla8(a: u8) -> (r: AluOut)
    ensures
        r == sla8_spec(a),
{
    let value: u8 = (((a as u16) * 2) % 256) as u8;
    AluOut { value, z: value == 0, n: false, h: false, c: a >= 128 }
}

pub fn sra8(a: u8) -> (r: AluOut)
    ensures
        r == sra8_spec(a),
{
    let value: u8 = a / 2 + (a / 128) * 128;
    AluOut { value, z: value == 0, n: false, h: false, c: a % 2 == 1 }
}

pub fn srl8(a: u8) -> (r: AluOut)
    ensures
        r == srl8_spec(a),
{
    let value: u8 = a / 2;
    AluOut { value, z: value == 0, n: false, h: false, c: a % 2 == 1 }
}

pub fn swap8(a: u8) -> (r: AluOut)
    ensures
        r == swap8_spec(a),
{
    let value: u8 = (a % 16) * 16 + a / 16;
    AluOut { value, z: value == 0, n: false, h: false, c: false }
}

/// BIT b: Z tells whether bit `b` of `v` is clear; carry is kept.
pub fn bit8(b: u8, v: u8, c: bool) -> (r: AluOut)
    requires
        b < 8,
    ensures
        r == bit8_spec(b, v, c),
{
    AluOut { value: v, z: (v >> b) & 1u8 == 0, n: false, h: true, c }
}

/// SET b: `v` with bit `b` set.
pub fn setb8(b: u8, v: u8) -> (r: u8)
    requires
        b < 8,
    ensures
        r == v | (1u8 << b),
{
    v | (1u8 << b)
}

/// RES b: `v` with bit `b` cleared.
pub fn resetb8(b: u8, v: u8) -> (r: u8)
    requires
        b < 8,
    ensures
        r == v & !(1u8 << b),
{
    v & !(1u8 << b)
}

pub fn daa8(a: u8, n: bool, h: bool, c: bool) -> (r: AluOut)
    ensures
        r == daa_spec(a, n, h, c),
{
    let (value, carry): (u16, bool) = if !n {
        let (v1, c1): (u16, bool) = if c || a > 0x99 {
            ((a as u16 + 0x60) % 256, true)
        } else {
            (a as u16, c)
        };
        let v2: u16 = if h || v1 % 16 > 9 { (v1 + 6) % 256 } else { v1 };
        (v2, c1)
    } else {
        let v1: u16 = if c { (a as u16 + 256 - 0x60) % 256 } else { a as u16 };
        let v2: u16 = if h { (v1 + 256 - 6) % 256 } else { v1 };
        (v2, c)
    };
    let value: u8 = value as u8;
    AluOut { value, z: value == 0, n, h: false, c: carry }
}

/// ADD HL,rr: Z is kept as given.
pub fn add16(a: u16, b: u16, z: bool) -> (r: Alu16Out)
    ensures
        r == add16_spec(a, b, z),
{
    let sum: u32 = a as u32 + b as u32;
    Alu16Out {
        value: (sum % 65536) as u16,
        z,
        n: false,
        h: (a % 4096) + (b % 4096) > 4095,
        c: sum > 65535,
    }
}

/// ADD SP,e and LD HL,SP+e.
pub fn add_sp8(sp: u16, e: u8) -> (r: Alu16Out)
    ensures
        r == add_sp_spec(sp, e),
{
    let offset: u32 = if e >= 128 { 65536 - 256 + e as u32 } else { e as u32 };
    Alu16Out {
        value: ((sp as u32 + offset) % 65536) as u16,
        z: false,
        n: false,
        h: (sp % 16) + (e as u16 % 16) > 15,
        c: (sp % 256) + e as u16 > 255,
    }
}

} // verus!
