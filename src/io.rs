use vstd::prelude::*;
use crate::joypad::Joypad;
use crate::lcd::Lcd;
use crate::memory::GenericAddressable;
use crate::timers::Timers;

verus! {

/// The parts of the IO block that a write may change.
#[derive(Clone, Copy, Debug, PartialEq, Eq, Structural)]
pub enum IoPart {
    Joypad,
    Serial,
    Timers,
    Flags,
    Sound,
    Lcd,
    Upper,
    Nothing,
}

/// The IO block, 0xFF00..=0xFF7F.
pub struct Io {
    pub joypad: Joypad,
    pub i1: GenericAddressable,
    pub timers: Timers,
    pub i2: GenericAddressable,
    pub lcd: Lcd,
    pub i3: GenericAddressable,
    pub if_flag: u8,
    /// Bytes sent over the serial port (the test-output hook).
    pub test: Vec<u8>,
}

impl Io {
    pub open spec fn wf(&self) -> bool {
        &&& self.joypad.wf()
        &&& self.i1.wf() && self.i1.start == 0xFF01 && self.i1.end == 0xFF02
        &&& self.i2.wf() && self.i2.start == 0xFF10 && self.i2.end == 0xFF3F
        &&& self.i3.wf() && self.i3.start == 0xFF4C && self.i3.end == 0xFF7F
    }

    pub open spec fn read_spec(&self, location: u16) -> u8 {
        if location == 0xFF00 {
            self.joypad.read_spec()
        } else if 0xFF01 <= location <= 0xFF02 {
            self.i1.spec_read(location)
        } else if 0xFF04 <= location <= 0xFF07 {
            self.timers.read_spec(location)
        } else if location == 0xFF0F {
            self.if_flag
        } else if 0xFF10 <= location <= 0xFF3F {
            self.i2.spec_read(location)
        } else if 0xFF40 <= location <= 0xFF4B {
            self.lcd.read_spec(location)
        } else if 0xFF4C <= location <= 0xFF7F {
            self.i3.spec_read(location)
        } else {
            0
        }
    }

    /// Every part but `part` is the same in `old` and `new`.
    pub open spec fn keeps(old: &Io, new: &Io, part: IoPart) -> bool {
        &&& (part != IoPart::Joypad ==> new.joypad == old.joypad)
        &&& (part != IoPart::Serial ==> new.i1 == old.i1 && new.test == old.test)
        &&& (part != IoPart::Timers ==> new.timers == old.timers)
        &&& (part != IoPart::Flags ==> new.if_flag == old.if_flag)
        &&& (part != IoPart::Sound ==> new.i2 == old.i2)
        &&& (part != IoPart::Lcd ==> new.lcd == old.lcd)
        &&& (part != IoPart::Upper ==> new.i3 == old.i3)
    }

    pub open spec fn block_written(old: &GenericAddressable, new: &GenericAddressable, location: u16, byte: u8) -> bool {
        &&& new.start == old.start && new.end == old.end
        &&& new.memory@ == old.memory@.update(location - old.start, byte)
    }

    /// How a write of `byte` at `location` takes `old` to `new`.
    pub open spec fn write_post(old: &Io, new: &Io, location: u16, byte: u8) -> bool {
        if location == 0xFF00 {
            new.joypad == old.joypad.write_spec(byte) && Io::keeps(old, new, IoPart::Joypad)
        } else if location == 0xFF02 && byte == 0x81 {
            &&& new.test@ == old.test@.push(old.i1.spec_read(0xFF01))
            &&& Io::block_written(&old.i1, &new.i1, 0xFF02, 0)
            &&& Io::keeps(old, new, IoPart::Serial)
        } else if 0xFF01 <= location <= 0xFF02 {
            &&& new.test == old.test
            &&& Io::block_written(&old.i1, &new.i1, location, byte)
            &&& Io::keeps(old, new, IoPart::Serial)
        } else if 0xFF04 <= location <= 0xFF07 {
            new.timers == old.timers.write_spec(location, byte) && Io::keeps(old, new, IoPart::Timers)
        } else if location == 0xFF0F {
            new.if_flag == byte && Io::keeps(old, new, IoPart::Flags)
        } else if 0xFF10 <= location <= 0xFF3F {
            Io::block_written(&old.i2, &new.i2, location, byte) && Io::keeps(old, new, IoPart::Sound)
        } else if 0xFF40 <= location <= 0xFF4B {
            new.lcd == old.lcd.write_spec(location, byte) && Io::keeps(old, new, IoPart::Lcd)
        } else if 0xFF4C <= location <= 0xFF7F {
            Io::block_written(&old.i3, &new.i3, location, byte) && Io::keeps(old, new, IoPart::Upper)
        } else {
            Io::keeps(old, new, IoPart::Nothing)
        }
    }

    pub fn new() -> (r: Io)
        ensures
            r.wf(),
            r.if_flag == 0xE1,
            r.test@.len() == 0,
            r.lcd == Lcd::new_spec(),
            r.timers == (Timers { sysclk: 0x00AB, tima: 0, tma: 0, tac: 0xF8 }),
    {
        Io {
            joypad: Joypad::new(),
            i1: GenericAddressable::with_range(0xFF01, 0xFF02),
            timers: Timers::new(),
            i2: GenericAddressable::with_range(0xFF10, 0xFF3F),
            lcd: Lcd::new(),
            i3: GenericAddressable::with_range(0xFF4C, 0xFF7F),
            if_flag: 0xE1,
            test: Vec::new(),
        }
    }

    /// Returns the serial output collected so far and clears it.
    pub fn get_test(&mut self) -> (r: Vec<u8>)
        ensures
            r@ == old(self).test@,
            final(self).test@.len() == 0,
            Io::keeps(old(self), final(self), IoPart::Serial),
            final(self).i1 == old(self).i1,
    {
        let mut res: Vec<u8> = Vec::new();
        std::mem::swap(&mut res, &mut self.test);
        res
    }

    pub fn request_vblank_interrupt(&mut self)
        ensures
            final(self).if_flag == old(self).if_flag | 0x01,
            Io::keeps(old(self), final(self), IoPart::Flags),
    {
        self.if_flag = self.if_flag | 0x01;
    }

    pub fn request_lcd_stat_interrupt(&mut self)
        ensures
            final(self).if_flag == old(self).if_flag | 0x02,
            Io::keeps(old(self), final(self), IoPart::Flags),
    {
        self.if_flag = self.if_flag | 0x02;
    }

    pub fn request_timer_interrupt(&mut self)
        ensures
            final(self).if_flag == old(self).if_flag | 0x04,
            Io::keeps(old(self), final(self), IoPart::Flags),
    {
        self.if_flag = self.if_flag | 0x04;
    }

    pub fn request_serial_interrupt(&mut self)
        ensures
            final(self).if_flag == old(self).if_flag | 0x08,
            Io::keeps(old(self), final(self), IoPart::Flags),
    {
        self.if_flag = self.if_flag | 0x08;
    }

    pub fn request_joypad_interrupt(&mut self)
        ensures
            final(self).if_flag == old(self).if_flag | 0x10,
            Io::keeps(old(self), final(self), IoPart::Flags),
    {
        self.if_flag = self.if_flag | 0x10;
    }

    pub fn get_vblank_interrupt(&self) -> (r: bool)
        ensures
            r == (self.if_flag & 0x01 != 0),
    {
        self.if_flag & 0x01 != 0
    }

    pub fn get_lcd_stat_interrupt(&self) -> (r: bool)
        ensures
            r == (self.if_flag & 0x02 != 0),
    {
        self.if_flag & 0x02 != 0
    }

    pub fn get_timer_interrupt(&self) -> (r: bool)
        ensures
            r == (self.if_flag & 0x04 != 0),
    {
        self.if_flag & 0x04 != 0
    }

    pub fn get_serial_interrupt(&self) -> (r: bool)
        ensures
            r == (self.if_flag & 0x08 != 0),
    {
        self.if_flag & 0x08 != 0
    }

    pub fn get_joypad_interrupt(&self) -> (r: bool)
        ensures
            r == (self.if_flag & 0x10 != 0),
    {
        self.if_flag & 0x10 != 0
    }

    pub fn write(&mut self, location: u16, byte: u8)
        requires
            old(self).wf(),
        ensures
            final(self).wf(),
            Io::write_post(old(self), final(self), location, byte),
    {
        if location == 0xFF00 {
            self.joypad.write(byte);
        } else if location == 0xFF02 && byte == 0x81 {
            let c: u8 = self.i1.read(0xFF01);
            self.test.push(c);
            self.i1.write(0xFF02, 0);
        } else if 0xFF01 <= location && location <= 0xFF02 {
            self.i1.write(location, byte);
        } else if 0xFF04 <= location && location <= 0xFF07 {
            self.timers.write(location, byte);
        } else if location == 0xFF0F {
            self.if_flag = byte;
        } else if 0xFF10 <= location && location <= 0xFF3F {
            self.i2.write(location, byte);
        } else if 0xFF40 <= location && location <= 0xFF4B {
            self.lcd.write(location, byte);
        } else if 0xFF4C <= location && location <= 0xFF7F {
            self.i3.write(location, byte);
        }
    }

    pub fn read(&self, location: u16) -> (r: u8)
        requires
            self.wf(),
        ensures
            r == self.read_spec(location),
    {
        if location == 0xFF00 {
            self.joypad.read()
        } else if 0xFF01 <= location && location <= 0xFF02 {
            self.i1.read(location)
        } else if 0xFF04 <= location && location <= 0xFF07 {
            self.timers.read(location)
        } else if location == 0xFF0F {
            self.if_flag
        } else if 0xFF10 <= location && location <= 0xFF3F {
            self.i2.read(location)
        } else if 0xFF40 <= location && location <= 0xFF4B {
            self.lcd.read(location)
        } else if 0xFF4C <= location && location <= 0xFF7F {
            self.i3.read(location)
        } else {
            0
        }
    }
}

} // verus!
