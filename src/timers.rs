use vstd::prelude::*;

verus! {

/// The divider and the programmable timer (0xFF04..=0xFF07).
#[derive(Clone, Copy, Debug, PartialEq, Eq, Structural)]
pub struct Timers {
    pub sysclk: u16,
    pub tima: u8,
    pub tma: u8,
    pub tac: u8,
}

/// The TIMA period in T-cycles for TAC's low two bits.
pub open spec fn tima_period(tac: u8) -> u16 {
    let sel = tac % 4;
    if sel == 0 {
        1024
    } else if sel == 1 {
        16
    } else if sel == 2 {
        64
    } else {
        256
    }
}

impl Timers {
    pub open spec fn read_spec(self, location: u16) -> u8 {
        if location == 0xFF04 {
            (self.sysclk / 256) as u8
        } else if location == 0xFF05 {
            self.tima
        } else if location == 0xFF06 {
            self.tma
        } else {
            self.tac
        }
    }

    pub open spec fn write_spec(self, location: u16, byte: u8) -> Timers {
        if location == 0xFF04 {
            Timers { sysclk: 0, ..self }
        } else if location == 0xFF05 {
            Timers { tima: byte, ..self }
        } else if location == 0xFF06 {
            Timers { tma: byte, ..self }
        } else {
            Timers { tac: byte, ..self }
        }
    }

    /// One TIMA increment: on overflow TIMA reloads from TMA.
    pub open spec fn inc_tima_spec(self) -> Timers {
        if self.tima == 0xFF {
            Timers { tima: self.tma, ..self }
        } else {
            Timers { tima: (self.tima + 1) as u8, ..self }
        }
    }

    pub fn new() -> (r: Timers)
        ensures
            r == (Timers { sysclk: 0x00AB, tima: 0, tma: 0, tac: 0xF8 }),
    {
        Timers { sysclk: 0x00AB, tima: 0, tma: 0, tac: 0xF8 }
    }

    pub fn get_sysclk(&self) -> (r: u16)
        ensures
            r == self.sysclk,
    {
        self.sysclk
    }

    /// One T-cycle of the system clock (wrapping).
    pub fn inc_sysclk(&mut self)
        ensures
            *final(self) == (Timers { sysclk: ((old(self).sysclk + 1) % 65536) as u16, ..*old(self) }),
    {
        self.sysclk = self.sysclk.wrapping_add(1);
    }

    /// Increments TIMA; returns whether it overflowed.
    pub fn inc_tima(&mut self) -> (r: bool)
        ensures
            r == (old(self).tima == 0xFF),
            *final(self) == old(self).inc_tima_spec(),
    {
        if self.tima == 0xFF {
            self.tima = self.tma;
            true
        } else {
            self.tima = self.tima + 1;
            false
        }
    }

    pub fn get_tima_clock(&self) -> (r: u16)
        ensures
            r == tima_period(self.tac),
            r > 0,
    {
        match self.tac % 4 {
            0 => 1024,
            1 => 16,
            2 => 64,
            _ => 256,
        }
    }

    pub fn get_tima_enabled(&self) -> (r: bool)
        ensures
            r == (self.tac & 0x04 != 0),
    {
        self.tac & 0x04 != 0
    }

    pub fn write(&mut self, location: u16, byte: u8)
        requires
            0xFF04 <= location <= 0xFF07,
        ensures
            *final(self) == old(self).write_spec(location, byte),
    {
        if location == 0xFF04 {
            self.sysclk = 0;
        } else if location == 0xFF05 {
            self.tima = byte;
        } else if location == 0xFF06 {
            self.tma = byte;
        } else {
            self.tac = byte;
        }
    }

    pub fn read(&self, location: u16) -> (r: u8)
        requires
            0xFF04 <= location <= 0xFF07,
        ensures
            r == self.read_spec(location),
    {
        if location == 0xFF04 {
            (self.sysclk / 256) as u8
        } else if location == 0xFF05 {
            self.tima
        } else if location == 0xFF06 {
            self.tma
        } else {
            self.tac
        }
    }
}

} // verus!
