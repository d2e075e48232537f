use vstd::prelude::*;
use crate::header::Header;
use crate::header::RAM_BANK_SIZE;
use crate::header::ROM_BANK_SIZE;

verus! {

/// Where a cartridge read is answered from.
#[derive(Clone, Copy, Debug, PartialEq, Eq, Structural)]
pub enum ReadResult {
    /// An offset into the ROM image.
    Rom(usize),
    /// An offset into the external RAM.
    Ram(usize),
    /// A byte the controller answers itself.
    Mbc(u8),
    /// An RTC register.
    Rtc(u8),
    NoOp,
}

/// What a cartridge write does beyond the controller's own registers.
#[derive(Clone, Copy, Debug, PartialEq, Eq, Structural)]
pub enum WriteResult {
    /// Store a byte at an offset into the external RAM.
    Ram(usize, u8),
    /// Write an RTC register (0x0D is the latch register).
    Rtc(u8, u8),
    NoOp,
}

/// The memory bank controller and its registers.
#[derive(Clone, Copy, Debug, PartialEq, Eq, Structural)]
pub enum Mbc {
    NoMbc,
    /// RAM enabled, bank1 (1..=31), bank2 (0..=3), advanced mode.
    Mbc1(bool, u8, u8, bool),
    /// RAM enabled, ROM bank (1..=15).
    Mbc2(bool, u8),
    /// RAM and RTC enabled, ROM bank (1..=127), RAM bank or RTC register select.
    Mbc3(bool, u8, u8),
    /// RAM enabled, ROM bank (9 bits), RAM bank (0..=15).
    Mbc5(bool, u16, u8),
}

pub open spec fn rom_bank_offset(bank: int, add: u16) -> usize {
    (ROM_BANK_SIZE * bank + (add - 0x4000)) as usize
}

pub open spec fn ram_bank_offset(bank: int, add: u16) -> usize {
    (RAM_BANK_SIZE * bank + (add - 0xA000)) as usize
}

pub open spec fn ram_enable(byte: u8) -> bool {
    byte % 16 == 0x0A
}

impl Mbc {
    pub open spec fn wf(self) -> bool {
        match self {
            Mbc::NoMbc => true,
            Mbc::Mbc1(_, s1, s2, _) => 1 <= s1 <= 31 && s2 <= 3,
            Mbc::Mbc2(_, s1) => 1 <= s1 <= 15,
            Mbc::Mbc3(_, s1, s2) => 1 <= s1 <= 127 && s2 <= 15,
            Mbc::Mbc5(_, s1, s2) => s1 <= 511 && s2 <= 15,
        }
    }

    pub open spec fn read_spec(self, add: u16) -> ReadResult {
        if add <= 0x3FFF {
            ReadResult::Rom(add as usize)
        } else if add <= 0x7FFF {
            match self {
                Mbc::NoMbc => ReadResult::Rom(add as usize),
                Mbc::Mbc1(_, s1, _, _) => ReadResult::Rom(rom_bank_offset(s1 as int, add)),
                Mbc::Mbc2(_, s1) => ReadResult::Rom(rom_bank_offset(s1 as int, add)),
                Mbc::Mbc3(_, s1, _) => ReadResult::Rom(rom_bank_offset(s1 as int, add)),
                Mbc::Mbc5(_, s1, _) => ReadResult::Rom(rom_bank_offset(s1 as int, add)),
            }
        } else if 0xA000 <= add <= 0xBFFF {
            match self {
                Mbc::NoMbc => ReadResult::Ram((add - 0xA000) as usize),
                Mbc::Mbc1(en, _, s2, mode) => if !en {
                    ReadResult::Mbc(0xFF)
                } else if mode {
                    ReadResult::Ram(ram_bank_offset(s2 as int, add))
                } else {
                    ReadResult::Ram((add - 0xA000) as usize)
                },
                Mbc::Mbc2(en, _) => if en {
                    ReadResult::Ram((add % 512) as usize)
                } else {
                    ReadResult::Mbc(0xFF)
                },
                Mbc::Mbc3(en, _, s2) => if s2 <= 3 && en {
                    ReadResult::Ram(ram_bank_offset(s2 as int, add))
                } else if 8 <= s2 <= 0x0C && en {
                    ReadResult::Rtc(s2)
                } else {
                    ReadResult::Mbc(0xFF)
                },
                Mbc::Mbc5(en, _, s2) => if en {
                    ReadResult::Ram(ram_bank_offset(s2 as int, add))
                } else {
                    ReadResult::Mbc(0xFF)
                },
            }
        } else {
            ReadResult::NoOp
        }
    }

    /// The controller after a write, and what the write asks of RAM or RTC.
    pub open spec fn write_spec(self, ram_banks: u8, rumble: bool, add: u16, byte: u8) -> (
        Mbc,
        WriteResult,
    ) {
        match self {
            Mbc::NoMbc => (self, WriteResult::NoOp),
            Mbc::Mbc1(en, s1, s2, mode) => if add <= 0x1FFF {
                (Mbc::Mbc1(ram_enable(byte), s1, s2, mode), WriteResult::NoOp)
            } else if add <= 0x3FFF {
                (Mbc::Mbc1(en, if byte % 32 == 0 { 1 } else { byte % 32 }, s2, mode), WriteResult::NoOp)
            } else if add <= 0x5FFF {
                (Mbc::Mbc1(en, s1, byte % 4, mode), WriteResult::NoOp)
            } else if add <= 0x7FFF {
                (Mbc::Mbc1(en, s1, s2, byte % 2 == 1), WriteResult::NoOp)
            } else if 0xA000 <= add <= 0xBFFF && en && ram_banks > 0 {
                if ram_banks > 1 && mode {
                    (self, WriteResult::Ram(ram_bank_offset(s2 as int, add), byte))
                } else {
                    (self, WriteResult::Ram((add - 0xA000) as usize, byte))
                }
            } else {
                (self, WriteResult::NoOp)
            },
            Mbc::Mbc2(en, s1) => if add <= 0x3FFF {
                if (add / 256) % 2 == 1 {
                    (Mbc::Mbc2(en, if byte % 16 == 0 { 1 } else { byte % 16 }), WriteResult::NoOp)
                } else {
                    (Mbc::Mbc2(ram_enable(byte), s1), WriteResult::NoOp)
                }
            } else if 0xA000 <= add <= 0xBFFF && en {
                (self, WriteResult::Ram((add % 512) as usize, (0xF0 + byte % 16) as u8))
            } else {
                (self, WriteResult::NoOp)
            },
            Mbc::Mbc3(en, s1, s2) => if add <= 0x1FFF {
                (Mbc::Mbc3(ram_enable(byte), s1, s2), WriteResult::NoOp)
            } else if add <= 0x3FFF {
                (Mbc::Mbc3(en, if byte % 128 == 0 { 1 } else { byte % 128 }, s2), WriteResult::NoOp)
            } else if add <= 0x5FFF {
                (Mbc::Mbc3(en, s1, byte % 16), WriteResult::NoOp)
            } else if add <= 0x7FFF {
                (self, WriteResult::Rtc(0x0D, byte))
            } else if 0xA000 <= add <= 0xBFFF && en && s2 <= 3 {
                (self, WriteResult::Ram(ram_bank_offset(s2 as int, add), byte))
            } else if 0xA000 <= add <= 0xBFFF && en && 8 <= s2 <= 0x0C {
                (self, WriteResult::Rtc(s2, byte))
            } else {
                (self, WriteResult::NoOp)
            },
            Mbc::Mbc5(en, s1, s2) => if add <= 0x1FFF {
                (Mbc::Mbc5(ram_enable(byte), s1, s2), WriteResult::NoOp)
            } else if add <= 0x2FFF {
                (Mbc::Mbc5(en, ((s1 / 256) * 256 + byte) as u16, s2), WriteResult::NoOp)
            } else if add <= 0x3FFF {
                (Mbc::Mbc5(en, ((byte % 2) * 256 + s1 % 256) as u16, s2), WriteResult::NoOp)
            } else if add <= 0x5FFF {
                (Mbc::Mbc5(en, s1, if rumble { byte % 8 } else { byte % 16 }), WriteResult::NoOp)
            } else if 0xA000 <= add <= 0xBFFF && en {
                (self, WriteResult::Ram(ram_bank_offset(s2 as int, add), byte))
            } else {
                (self, WriteResult::NoOp)
            },
        }
    }

    /// Routes a read of a cartridge address.
    pub fn read(&self, _header: &Header, add: u16) -> (r: ReadResult)
        requires
            self.wf(),
        ensures
            r == self.read_spec(add),
    {
        if add <= 0x3FFF {
            return ReadResult::Rom(add as usize);
        }
        match self {
            Mbc::NoMbc => Mbc::nombc_read(add),
            Mbc::Mbc1(_, _, _, _) => self.mbc1_read(add),
            Mbc::Mbc2(_, _) => self.mbc2_read(add),
            Mbc::Mbc3(_, _, _) => self.mbc3_read(add),
            Mbc::Mbc5(_, _, _) => self.mbc5_read(add),
        }
    }

    /// Applies a write to a cartridge address.
    pub fn write(&mut self, header: &Header, add: u16, byte: u8) -> (r: WriteResult)
        requires
            old(self).wf(),
        ensures
            final(self).wf(),
            (*final(self), r) == old(self).write_spec(
                crate::header::spec_ram_banks(header.ram_size),
                crate::header::rumble_type(header.cart_type),
                add,
                byte,
            ),
    {
        match self {
            Mbc::NoMbc => WriteResult::NoOp,
            Mbc::Mbc1(_, _, _, _) => self.mbc1_write(header, add, byte),
            Mbc::Mbc2(_, _) => self.mbc2_write(add, byte),
            Mbc::Mbc3(_, _, _) => self.mbc3_write(add, byte),
            Mbc::Mbc5(_, _, _) => self.mbc5_write(header, add, byte),
        }
    }

    fn nombc_read(add: u16) -> (r: ReadResult)
        requires
            add > 0x3FFF,
        ensures
            r == Mbc::NoMbc.read_spec(add),
    {
        if add <= 0x7FFF {
            ReadResult::Rom(add as usize)
        } else if 0xA000 <= add && add <= 0xBFFF {
            ReadResult::Ram((add - 0xA000) as usize)
        } else {
            ReadResult::NoOp
        }
    }

    fn mbc1_read(&self, add: u16) -> (r: ReadResult)
        requires
            self.wf(),
            self is Mbc1,
            add > 0x3FFF,
        ensures
            r == self.read_spec(add),
    {
        if let Mbc::Mbc1(ram_enabled, s1, s2, mode) = self {
            if add <= 0x7FFF {
                ReadResult::Rom(ROM_BANK_SIZE * (*s1 as usize) + ((add - 0x4000) as usize))
            } else if 0xA000 <= add && add <= 0xBFFF {
                if !*ram_enabled {
                    ReadResult::Mbc(0xFF)
                } else if *mode {
                    ReadResult::Ram(RAM_BANK_SIZE * (*s2 as usize) + ((add - 0xA000) as usize))
                } else {
                    ReadResult::Ram((add - 0xA000) as usize)
                }
            } else {
                ReadResult::NoOp
            }
        } else {
            ReadResult::NoOp
        }
    }

    fn mbc1_write(&mut self, header: &Header, add: u16, byte: u8) -> (r: WriteResult)
        requires
            old(self).wf(),
            *old(self) is Mbc1,
        ensures
            final(self).wf(),
            (*final(self), r) == old(self).write_spec(
                crate::header::spec_ram_banks(header.ram_size),
                crate::header::rumble_type(header.cart_type),
                add,
                byte,
            ),
    {
        if let Mbc::Mbc1(ram_enabled, s1, s2, mode) = self {
            if add <= 0x1FFF {
                *ram_enabled = byte % 16 == 0x0A;
                WriteResult::NoOp
            } else if add <= 0x3FFF {
                *s1 = if byte % 32 == 0 { 1 } else { byte % 32 };
                WriteResult::NoOp
            } else if add <= 0x5FFF {
                *s2 = byte % 4;
                WriteResult::NoOp
            } else if add <= 0x7FFF {
                *mode = byte % 2 == 1;
                WriteResult::NoOp
            } else if 0xA000 <= add && add <= 0xBFFF && *ram_enabled && header.get_ram_banks() > 0 {
                if header.get_ram_banks() > 1 && *mode {
                    WriteResult::Ram(RAM_BANK_SIZE * (*s2 as usize) + ((add - 0xA000) as usize), byte)
                } else {
                    WriteResult::Ram((add - 0xA000) as usize, byte)
                }
            } else {
                WriteResult::NoOp
            }
        } else {
            WriteResult::NoOp
        }
    }

    fn mbc2_read(&self, add: u16) -> (r: ReadResult)
        requires
            self.wf(),
            self is Mbc2,
            add > 0x3FFF,
        ensures
            r == self.read_spec(add),
    {
        if let Mbc::Mbc2(ram_enabled, s1) = self {
            if add <= 0x7FFF {
                ReadResult::Rom(ROM_BANK_SIZE * (*s1 as usize) + ((add - 0x4000) as usize))
            } else if 0xA000 <= add && add <= 0xBFFF {
                if *ram_enabled {
                    ReadResult::Ram((add % 512) as usize)
                } else {
                    ReadResult::Mbc(0xFF)
                }
            } else {
                ReadResult::NoOp
            }
        } else {
            ReadResult::NoOp
        }
    }

    fn mbc2_write(&mut self, add: u16, byte: u8) -> (r: WriteResult)
        requires
            old(self).wf(),
            *old(self) is Mbc2,
        ensures
            final(self).wf(),
            forall|banks: u8, rumble: bool|
                (*final(self), r) == #[trigger] old(self).write_spec(banks, rumble, add, byte),
    {
        if let Mbc::Mbc2(ram_enabled, s1) = self {
            if add <= 0x3FFF {
                if (add / 256) % 2 == 1 {
                    *s1 = if byte % 16 == 0 { 1 } else { byte % 16 };
                } else {
                    *ram_enabled = byte % 16 == 0x0A;
                }
                WriteResult::NoOp
            } else if 0xA000 <= add && add <= 0xBFFF && *ram_enabled {
                WriteResult::Ram((add % 512) as usize, 0xF0 + byte % 16)
            } else {
                WriteResult::NoOp
            }
        } else {
            WriteResult::NoOp
        }
    }

    fn mbc3_read(&self, add: u16) -> (r: ReadResult)
        requires
            self.wf(),
            self is Mbc3,
            add > 0x3FFF,
        ensures
            r == self.read_spec(add),
    {
        if let Mbc::Mbc3(ram_enabled, s1, s2) = self {
            if add <= 0x7FFF {
                ReadResult::Rom(ROM_BANK_SIZE * (*s1 as usize) + ((add - 0x4000) as usize))
            } else if 0xA000 <= add && add <= 0xBFFF {
                if *s2 <= 3 && *ram_enabled {
                    ReadResult::Ram(RAM_BANK_SIZE * (*s2 as usize) + ((add - 0xA000) as usize))
                } else if 8 <= *s2 && *s2 <= 0x0C && *ram_enabled {
                    ReadResult::Rtc(*s2)
                } else {
                    ReadResult::Mbc(0xFF)
                }
            } else {
                ReadResult::NoOp
            }
        } else {
            ReadResult::NoOp
        }
    }

    fn mbc3_write(&mut self, add: u16, byte: u8) -> (r: WriteResult)
        requires
            old(self).wf(),
            *old(self) is Mbc3,
        ensures
            final(self).wf(),
            forall|banks: u8, rumble: bool|
                (*final(self), r) == #[trigger] old(self).write_spec(banks, rumble, add, byte),
    {
        if let Mbc::Mbc3(ram_enabled, s1, s2) = self {
            if add <= 0x1FFF {
                *ram_enabled = byte % 16 == 0x0A;
                WriteResult::NoOp
            } else if add <= 0x3FFF {
                *s1 = if byte % 128 == 0 { 1 } else { byte % 128 };
                WriteResult::NoOp
            } else if add <= 0x5FFF {
                *s2 = byte % 16;
                WriteResult::NoOp
            } else if add <= 0x7FFF {
                WriteResult::Rtc(0x0D, byte)
            } else if 0xA000 <= add && add <= 0xBFFF && *ram_enabled && *s2 <= 3 {
                WriteResult::Ram(RAM_BANK_SIZE * (*s2 as usize) + ((add - 0xA000) as usize), byte)
            } else if 0xA000 <= add && add <= 0xBFFF && *ram_enabled && 8 <= *s2 && *s2 <= 0x0C {
                WriteResult::Rtc(*s2, byte)
            } else {
                WriteResult::NoOp
            }
        } else {
            WriteResult::NoOp
        }
    }

    fn mbc5_read(&self, add: u16) -> (r: ReadResult)
        requires
            self.wf(),
            self is Mbc5,
            add > 0x3FFF,
        ensures
            r == self.read_spec(add),
    {
        if let Mbc::Mbc5(ram_enabled, s1, s2) = self {
            if add <= 0x7FFF {
                ReadResult::Rom(ROM_BANK_SIZE * (*s1 as usize) + ((add - 0x4000) as usize))
            } else if 0xA000 <= add && add <= 0xBFFF {
                if *ram_enabled {
                    ReadResult::Ram(RAM_BANK_SIZE * (*s2 as usize) + ((add - 0xA000) as usize))
                } else {
                    ReadResult::Mbc(0xFF)
                }
            } else {
                ReadResult::NoOp
            }
        } else {
            ReadResult::NoOp
        }
    }

    fn mbc5_write(&mut self, header: &Header, add: u16, byte: u8) -> (r: WriteResult)
        requires
            old(self).wf(),
            *old(self) is Mbc5,
        ensures
            final(self).wf(),
            (*final(self), r) == old(self).write_spec(
                crate::header::spec_ram_banks(header.ram_size),
                crate::header::rumble_type(header.cart_type),
                add,
                byte,
            ),
    {
        if let Mbc::Mbc5(ram_enabled, s1, s2) = self {
            if add <= 0x1FFF {
                *ram_enabled = byte % 16 == 0x0A;
                WriteResult::NoOp
            } else if add <= 0x2FFF {
                *s1 = (*s1 / 256) * 256 + byte as u16;
                WriteResult::NoOp
            } else if add <= 0x3FFF {
                *s1 = (byte % 2) as u16 * 256 + *s1 % 256;
                WriteResult::NoOp
            } else if add <= 0x5FFF {
                *s2 = if header.has_rumble() { byte % 8 } else { byte % 16 };
                WriteResult::NoOp
            } else if 0xA000 <= add && add <= 0xBFFF && *ram_enabled {
                WriteResult::Ram(RAM_BANK_SIZE * (*s2 as usize) + ((add - 0xA000) as usize), byte)
            } else {
                WriteResult::NoOp
            }
        } else {
            WriteResult::NoOp
        }
    }
}

} // verus!
