use vstd::prelude::*;

verus! {

/// Size of a serialized RTC.
pub const RTC_SAVE_LEN: usize = 21;

/// The MBC3 real-time clock. Times are whole seconds on the host's monotonic scale.
#[derive(Clone, Copy, Debug, PartialEq, Eq, Structural)]
pub struct Rtc {
    pub s: u8,
    pub m: u8,
    pub h: u8,
    pub dl: u16,
    pub latched_s: u8,
    pub latched_m: u8,
    pub latched_h: u8,
    pub latched_dl: u8,
    pub latched_dh: u8,
    pub last_update: u64,
    pub now: u64,
    pub timer_halt: bool,
    pub day_carry: bool,
    pub latch_state: bool,
}

pub open spec fn le_byte(x: u64, i: u64) -> u8 {
    ((x >> (8 * i)) & 0xFF) as u8
}

pub open spec fn le_u64(b: Seq<u8>) -> u64 {
    (b[0] as u64) | ((b[1] as u64) << 8) | ((b[2] as u64) << 16) | ((b[3] as u64) << 24) | ((
    b[4] as u64) << 32) | ((b[5] as u64) << 40) | ((b[6] as u64) << 48) | ((b[7] as u64) << 56)
}

pub open spec fn flag_byte(b: bool) -> u8 {
    if b { 1 } else { 0 }
}

/// The 21-byte save image of an RTC.
pub open spec fn serialize_spec(r: Rtc) -> Seq<u8> {
    seq![
        r.s, r.m, r.h, (r.dl % 256) as u8, (r.dl / 256) as u8,
        r.latched_s, r.latched_m, r.latched_h, r.latched_dl, r.latched_dh,
        le_byte(r.last_update, 0), le_byte(r.last_update, 1), le_byte(r.last_update, 2),
        le_byte(r.last_update, 3), le_byte(r.last_update, 4), le_byte(r.last_update, 5),
        le_byte(r.last_update, 6), le_byte(r.last_update, 7),
        flag_byte(r.timer_halt), flag_byte(r.day_carry), flag_byte(r.latch_state),
    ]
}

pub open spec fn zero_rtc() -> Rtc {
    Rtc {
        s: 0,
        m: 0,
        h: 0,
        dl: 0,
        latched_s: 0,
        latched_m: 0,
        latched_h: 0,
        latched_dl: 0,
        latched_dh: 0,
        last_update: 0,
        now: 0,
        timer_halt: false,
        day_carry: false,
        latch_state: false,
    }
}

/// The RTC a save image describes; an image of the wrong length gives a zeroed RTC.
pub open spec fn deserialize_spec(d: Seq<u8>) -> Rtc {
    if d.len() != RTC_SAVE_LEN {
        zero_rtc()
    } else {
        let t = le_u64(d.subrange(10, 18));
        Rtc {
            s: d[0] % 64,
            m: d[1] % 64,
            h: d[2] % 32,
            dl: ((d[4] % 2) as int * 256 + d[3] as int) as u16,
            latched_s: d[5],
            latched_m: d[6],
            latched_h: d[7],
            latched_dl: d[8],
            latched_dh: d[9],
            last_update: t,
            now: t,
            timer_halt: d[18] == 1,
            day_carry: d[19] == 1,
            latch_state: d[20] == 1,
        }
    }
}

impl Rtc {
    pub open spec fn wf(self) -> bool {
        self.s < 64 && self.m < 64 && self.h < 32 && self.dl <= 0x1FF
    }

    pub open spec fn inc_d_spec(self, inc: nat) -> Rtc {
        let td = self.dl + inc;
        if td > 0x1FF {
            Rtc { dl: (td % 512) as u16, day_carry: true, ..self }
        } else {
            Rtc { dl: td as u16, ..self }
        }
    }

    pub open spec fn inc_h_spec(self, inc: nat) -> Rtc {
        let th = self.h + inc;
        Rtc { h: (th % 24) as u8, ..self }.inc_d_spec((th / 24) as nat)
    }

    pub open spec fn inc_m_spec(self, inc: nat) -> Rtc {
        let tm = self.m + inc;
        Rtc { m: (tm % 60) as u8, ..self }.inc_h_spec((tm / 60) as nat)
    }

    /// The clock after `inc` more seconds, carried through minutes, hours and days.
    pub open spec fn inc_s_spec(self, inc: nat) -> Rtc {
        let ts = self.s + inc;
        Rtc { s: (ts % 60) as u8, ..self }.inc_m_spec((ts / 60) as nat)
    }

    pub open spec fn update_timer_spec(self) -> Rtc {
        if !self.timer_halt && self.now > self.last_update {
            Rtc { last_update: self.now, ..self.inc_s_spec((self.now - self.last_update) as nat) }
        } else {
            self
        }
    }

    pub open spec fn latch_spec(self) -> Rtc {
        let r = self.update_timer_spec();
        Rtc {
            latched_s: (0xC0 + r.s) as u8,
            latched_m: (0xC0 + r.m) as u8,
            latched_h: (0xE0 + r.h) as u8,
            latched_dl: (r.dl % 256) as u8,
            latched_dh: ((r.dl / 256) + (if r.timer_halt { 0x40int } else { 0 }) + (if r.day_carry {
                0x80int
            } else {
                0
            })) as u8,
            ..r
        }
    }

    pub open spec fn latch_state_spec(self, value: u8) -> Rtc {
        if !self.latch_state && value == 0 {
            Rtc { latch_state: true, ..self }
        } else if self.latch_state && value == 1 {
            Rtc { latch_state: false, ..self }.latch_spec()
        } else {
            self
        }
    }

    pub open spec fn read_spec(self, add: u8) -> u8 {
        if add == 0x08 {
            self.latched_s
        } else if add == 0x09 {
            self.latched_m
        } else if add == 0x0A {
            self.latched_h
        } else if add == 0x0B {
            self.latched_dl
        } else if add == 0x0C {
            self.latched_dh
        } else {
            0
        }
    }

    pub open spec fn write_spec(self, add: u8, value: u8) -> Rtc {
        let u = self.update_timer_spec();
        if add == 0x08 {
            Rtc { s: value % 64, latched_s: (0xC0 + value % 64) as u8, ..u }
        } else if add == 0x09 {
            Rtc { m: value % 64, latched_m: (0xC0 + value % 64) as u8, ..u }
        } else if add == 0x0A {
            Rtc { h: value % 32, latched_h: (0xE0 + value % 32) as u8, ..u }
        } else if add == 0x0B {
            Rtc { dl: ((u.dl / 256) * 256 + value) as u16, latched_dl: value, ..u }
        } else if add == 0x0C {
            Rtc {
                latched_dh: ((value / 64) * 64 + value % 2) as u8,
                timer_halt: (value / 64) % 2 == 1,
                day_carry: value >= 128,
                dl: ((value % 2) as int * 256 + u.dl % 256) as u16,
                ..u
            }
        } else if add == 0x0D {
            self.latch_state_spec(value)
        } else {
            self
        }
    }

    /// A stopped-at-zero clock.
    pub fn new() -> (r: Rtc)
        ensures
            r == zero_rtc(),
    {
        Rtc {
            s: 0,
            m: 0,
            h: 0,
            dl: 0,
            latched_s: 0,
            latched_m: 0,
            latched_h: 0,
            latched_dl: 0,
            latched_dh: 0,
            last_update: 0,
            now: 0,
            timer_halt: false,
            day_carry: false,
            latch_state: false,
        }
    }

    /// Advances the clock to `now`, unless halted.
    pub fn update_timer(&mut self)
        requires
            old(self).wf(),
        ensures
            final(self).wf(),
            *final(self) == old(self).update_timer_spec(),
    {
        if !self.timer_halt && self.now > self.last_update {
            let elapsed: u64 = self.now - self.last_update;
            self.inc_s(elapsed as u128);
            self.last_update = self.now;
        }
    }

    /// Records the host's current time in seconds.
    pub fn update_now(&mut self, elapsed_secs: u64)
        ensures
            *final(self) == (Rtc { now: elapsed_secs, ..*old(self) }),
    {
        self.now = elapsed_secs;
    }

    fn inc_s(&mut self, inc: u128)
        requires
            old(self).wf(),
            inc < 0x1_0000_0000_0000_0000,
        ensures
            final(self).wf(),
            *final(self) == old(self).inc_s_spec(inc as nat),
    {
        let total: u128 = inc + self.s as u128;
        self.s = (total % 60) as u8;
        self.inc_m(total / 60);
    }

    fn inc_m(&mut self, inc: u128)
        requires
            old(self).wf(),
            inc < 0x1_0000_0000_0000_0000,
        ensures
            final(self).wf(),
            *final(self) == old(self).inc_m_spec(inc as nat),
    {
        let total: u128 = inc + self.m as u128;
        self.m = (total % 60) as u8;
        self.inc_h(total / 60);
    }

    fn inc_h(&mut self, inc: u128)
        requires
            old(self).wf(),
            inc < 0x1_0000_0000_0000_0000,
        ensures
            final(self).wf(),
            *final(self) == old(self).inc_h_spec(inc as nat),
    {
        let total: u128 = inc + self.h as u128;
        self.h = (total % 24) as u8;
        self.inc_d(total / 24);
    }

    fn inc_d(&mut self, inc: u128)
        requires
            old(self).wf(),
            inc < 0x1_0000_0000_0000_0000,
        ensures
            final(self).wf(),
            *final(self) == old(self).inc_d_spec(inc as nat),
    {
        let total: u128 = inc + self.dl as u128;
        if total > 0x1FF {
            self.dl = (total % 512) as u16;
            self.day_carry = true;
        } else {
            self.dl = total as u16;
        }
    }

    /// Drives the latch: writing 0 then 1 copies the live registers to the latched ones.
    pub fn update_latch_state(&mut self, value: u8)
        requires
            old(self).wf(),
        ensures
            final(self).wf(),
            *final(self) == old(self).latch_state_spec(value),
    {
        if !self.latch_state && value == 0 {
            self.latch_state = true;
        } else if self.latch_state && value == 1 {
            self.latch_state = false;
            self.latch_registers();
        }
    }

    /// Brings the clock up to date and copies it into the latched registers.
    pub fn latch_registers(&mut self)
        requires
            old(self).wf(),
        ensures
            final(self).wf(),
            *final(self) == old(self).latch_spec(),
    {
        self.update_timer();
        self.latched_s = 0xC0 + self.s;
        self.latched_m = 0xC0 + self.m;
        self.latched_h = 0xE0 + self.h;
        self.latched_dl = (self.dl % 256) as u8;
        let halt: u8 = if self.timer_halt { 0x40 } else { 0 };
        let carry: u8 = if self.day_carry { 0x80 } else { 0 };
        self.latched_dh = (self.dl / 256) as u8 + halt + carry;
    }

    pub fn read(&self, add: u8) -> (r: u8)
        ensures
            r == self.read_spec(add),
    {
        match add {
            0x08 => self.latched_s,
            0x09 => self.latched_m,
            0x0A => self.latched_h,
            0x0B => self.latched_dl,
            0x0C => self.latched_dh,
            _ => 0,
        }
    }

    pub fn write(&mut self, add: u8, value: u8)
        requires
            old(self).wf(),
        ensures
            final(self).wf(),
            *final(self) == old(self).write_spec(add, value),
    {
        match add {
            0x08 => self.write_s(value),
            0x09 => self.write_m(value),
            0x0A => self.write_h(value),
            0x0B => self.write_dl(value),
            0x0C => self.write_dh(value),
            0x0D => self.update_latch_state(value),
            _ => {},
        }
    }

    fn write_s(&mut self, value: u8)
        requires
            old(self).wf(),
        ensures
            final(self).wf(),
            *final(self) == old(self).write_spec(0x08, value),
    {
        self.update_timer();
        self.s = value % 64;
        self.latched_s = 0xC0 + self.s;
    }

    fn write_m(&mut self, value: u8)
        requires
            old(self).wf(),
        ensures
            final(self).wf(),
            *final(self) == old(self).write_spec(0x09, value),
    {
        self.update_timer();
        self.m = value % 64;
        self.latched_m = 0xC0 + self.m;
    }

    fn write_h(&mut self, value: u8)
        requires
            old(self).wf(),
        ensures
            final(self).wf(),
            *final(self) == old(self).write_spec(0x0A, value),
    {
        self.update_timer();
        self.h = value % 32;
        self.latched_h = 0xE0 + self.h;
    }

    fn write_dl(&mut self, value: u8)
        requires
            old(self).wf(),
        ensures
            final(self).wf(),
            *final(self) == old(self).write_spec(0x0B, value),
    {
        self.update_timer();
        self.dl = (self.dl / 256) * 256 + value as u16;
        self.latched_dl = value;
    }

    fn write_dh(&mut self, value: u8)
        requires
            old(self).wf(),
        ensures
            final(self).wf(),
            *final(self) == old(self).write_spec(0x0C, value),
    {
        self.update_timer();
        self.latched_dh = (value / 64) * 64 + value % 2;
        self.timer_halt = (value / 64) % 2 == 1;
        self.day_carry = value >= 128;
        self.dl = (value % 2) as u16 * 256 + self.dl % 256;
    }

    /// Reads a save image; one of the wrong length gives a zeroed clock.
    pub fn deserialize(data: &Vec<u8>) -> (r: Rtc)
        ensures
            r.wf(),
            r == deserialize_spec(data@),
    {
        if data.len() != RTC_SAVE_LEN {
            return Rtc::new();
        }
        let t: u64 = (data[10] as u64) | ((data[11] as u64) << 8) | ((data[12] as u64) << 16) | ((
        data[13] as u64) << 24) | ((data[14] as u64) << 32) | ((data[15] as u64) << 40) | ((
        data[16] as u64) << 48) | ((data[17] as u64) << 56);
        assert(data@.subrange(10, 18)[0] == data@[10]);
        Rtc {
            s: data[0] % 64,
            m: data[1] % 64,
            h: data[2] % 32,
            dl: (data[4] % 2) as u16 * 256 + data[3] as u16,
            latched_s: data[5],
            latched_m: data[6],
            latched_h: data[7],
            latched_dl: data[8],
            latched_dh: data[9],
            last_update: t,
            now: t,
            timer_halt: data[18] == 1,
            day_carry: data[19] == 1,
            latch_state: data[20] == 1,
        }
    }

    /// The 21-byte save image.
    pub fn serialize(&self) -> (r: Vec<u8>)
        ensures
            r@ == serialize_spec(*self),
    {
        let t: u64 = self.last_update;
        let data: Vec<u8> = vec![
            self.s,
            self.m,
            self.h,
            (self.dl % 256) as u8,
            (self.dl / 256) as u8,
            self.latched_s,
            self.latched_m,
            self.latched_h,
            self.latched_dl,
            self.latched_dh,
            (t & 0xFF) as u8,
            ((t >> 8) & 0xFF) as u8,
            ((t >> 16) & 0xFF) as u8,
            ((t >> 24) & 0xFF) as u8,
            ((t >> 32) & 0xFF) as u8,
            ((t >> 40) & 0xFF) as u8,
            ((t >> 48) & 0xFF) as u8,
            ((t >> 56) & 0xFF) as u8,
            if self.timer_halt { 1 } else { 0 },
            if self.day_carry { 1 } else { 0 },
            if self.latch_state { 1 } else { 0 },
        ];
        assert(t >> 0u64 == t) by (bit_vector);
        assert(data@ =~= serialize_spec(*self));
        data
    }
}

proof fn lemma_le_u64_round_trip(x: u64)
    ensures
        le_u64(seq![le_byte(x, 0), le_byte(x, 1), le_byte(x, 2), le_byte(x, 3), le_byte(x, 4),
            le_byte(x, 5), le_byte(x, 6), le_byte(x, 7)]) == x,
{
    let b0 = ((x >> 0) & 0xFF) as u8;
    let b1 = ((x >> 8) & 0xFF) as u8;
    let b2 = ((x >> 16) & 0xFF) as u8;
    let b3 = ((x >> 24) & 0xFF) as u8;
    let b4 = ((x >> 32) & 0xFF) as u8;
    let b5 = ((x >> 40) & 0xFF) as u8;
    let b6 = ((x >> 48) & 0xFF) as u8;
    let b7 = ((x >> 56) & 0xFF) as u8;
    assert((b0 as u64) | ((b1 as u64) << 8) | ((b2 as u64) << 16) | ((b3 as u64) << 24) | ((
    b4 as u64) << 32) | ((b5 as u64) << 40) | ((b6 as u64) << 48) | ((b7 as u64) << 56) == x)
        by (bit_vector)
        requires
            b0 == ((x >> 0) & 0xFF) as u8,
            b1 == ((x >> 8) & 0xFF) as u8,
            b2 == ((x >> 16) & 0xFF) as u8,
            b3 == ((x >> 24) & 0xFF) as u8,
            b4 == ((x >> 32) & 0xFF) as u8,
            b5 == ((x >> 40) & 0xFF) as u8,
            b6 == ((x >> 48) & 0xFF) as u8,
            b7 == ((x >> 56) & 0xFF) as u8,
    ;
    let s = seq![le_byte(x, 0), le_byte(x, 1), le_byte(x, 2), le_byte(x, 3), le_byte(x, 4),
        le_byte(x, 5), le_byte(x, 6), le_byte(x, 7)];
    assert(s[0] == b0 && s[1] == b1 && s[2] == b2 && s[3] == b3);
    assert(s[4] == b4 && s[5] == b5 && s[6] == b6 && s[7] == b7);
}

/// Serializing a well-formed RTC and reading the image back gives the same
/// registers, latched registers, flags and last update time.
pub proof fn lemma_rtc_round_trip(r: Rtc)
    requires
        r.wf(),
    ensures
        deserialize_spec(serialize_spec(r)) == (Rtc { now: r.last_update, ..r }),
{
    let d = serialize_spec(r);
    lemma_le_u64_round_trip(r.last_update);
    assert(d.subrange(10, 18) =~= seq![le_byte(r.last_update, 0), le_byte(r.last_update, 1),
        le_byte(r.last_update, 2), le_byte(r.last_update, 3), le_byte(r.last_update, 4),
        le_byte(r.last_update, 5), le_byte(r.last_update, 6), le_byte(r.last_update, 7)]);
}

} // verus!
