use vstd::prelude::*;

pub mod alu;
pub mod registers;
pub mod memory;
pub mod header;
pub mod mbc;
pub mod rtc;
pub mod cart;
pub mod joypad;
pub mod timers;
pub mod lcd;
pub mod io;
pub mod oam;
pub mod mmu;
pub mod cpu;
pub mod cpu_ops;
pub mod cpu_exec;
pub mod fifo;
pub mod bg_fetcher;
pub mod sprite_fetcher;
pub mod ppu;

use crate::cart::cart_error;
use crate::cart::opt_view;
use crate::cpu::Cpu;
use crate::cpu_exec::tick_post;
use crate::io::Io;
use crate::joypad::Joypad;
use crate::ppu::ppu_tick_post;
use crate::header::CartError;
use crate::joypad::JoypadState;
use crate::mmu::Mmu;
use crate::ppu::LCD_PIXELS;
use crate::ppu::LcdBuffer;
use crate::ppu::Ppu;
use crate::rtc::serialize_spec;
use crate::timers::Timers;
use crate::timers::tima_period;

verus! {

/// T-cycles in one video frame.
pub const CYCLE_LIMIT: u32 = 70224;

/// `x` modulo 2^64.
pub open spec fn wrap64(x: int) -> u64 {
    (x % 0x1_0000_0000_0000_0000) as u64
}

/// The timers after `n` T-cycles with TIMA counting every `period` (when `enabled`),
/// and whether TIMA overflowed on the way.
pub open spec fn timer_run(t: Timers, enabled: bool, period: u16, n: nat) -> (Timers, bool)
    decreases n,
{
    if n == 0 {
        (t, false)
    } else {
        let (t1, o1) = timer_run(t, enabled, period, (n - 1) as nat);
        let t2 = Timers { sysclk: ((t1.sysclk + 1) % 65536) as u16, ..t1 };
        if enabled && period > 0 && t2.sysclk % period == 0 {
            (t2.inc_tima_spec(), o1 || t2.tima == 0xFF)
        } else {
            (t2, o1)
        }
    }
}

/// One timer update of `n` T-cycles: an overflow latched by the previous update is
/// requested first, then the timers run and a new overflow is latched.
pub open spec fn timer_step(
    t0: Timers,
    if0: u8,
    ovf0: bool,
    n: nat,
    t1: Timers,
    if1: u8,
    ovf1: bool,
) -> bool {
    let (t, o) = timer_run(t0, t0.tac & 0x04 != 0, tima_period(t0.tac), n);
    &&& t1 == t
    &&& ovf1 == o
    &&& if1 == if ovf0 { if0 | 0x04 } else { if0 }
}

/// The keys of `joypad_state` handed to the joypad of `d`.
pub open spec fn with_keys(d: Device, joypad_state: JoypadState) -> Device {
    Device {
        mmu: Mmu {
            io: Io { joypad: (Joypad { state: joypad_state, ..d.mmu.io.joypad }).compute_spec(), ..d.mmu.io },
            ..d.mmu
        },
        ..d
    }
}

/// A latched key press requests the joypad interrupt (the check opening each step).
pub open spec fn joypad_post(d0: Device, d1: Device) -> bool {
    let i = d0.mmu.io.joypad.interrupt;
    d1 == Device {
        mmu: Mmu {
            io: Io {
                joypad: Joypad { interrupt: false, ..d0.mmu.io.joypad },
                if_flag: if i { d0.mmu.io.if_flag | 0x10 } else { d0.mmu.io.if_flag },
                ..d0.mmu.io
            },
            ..d0.mmu
        },
        ..d0
    }
}

/// The timer update after `n` T-cycles: only the timers, IF and the overflow latch change.
pub open spec fn timers_post(d0: Device, d1: Device, n: u8) -> bool {
    &&& timer_step(
        d0.mmu.io.timers,
        d0.mmu.io.if_flag,
        d0.tima_overflow,
        n as nat,
        d1.mmu.io.timers,
        d1.mmu.io.if_flag,
        d1.tima_overflow,
    )
    &&& d1 == (Device {
        mmu: Mmu { io: Io { timers: d1.mmu.io.timers, if_flag: d1.mmu.io.if_flag, ..d0.mmu.io }, ..d0.mmu },
        tima_overflow: d1.tima_overflow,
        ..d0
    })
}

/// One step of a frame: the joypad check, a CPU tick of `n` T-cycles, then `n` PPU
/// T-cycles and `n` timer T-cycles.
pub open spec fn frame_step(d0: Device, b0: LcdBuffer, d1: Device, b1: LcdBuffer, n: u8) -> bool {
    exists|dj: Device, dc: Device, dp: Device|
        #[trigger] joypad_post(d0, dj) && #[trigger] tick_post(dj.cpu, &dj.mmu, dc.cpu, &dc.mmu, n) && dc == (Device {
            cpu: dc.cpu,
            mmu: dc.mmu,
            ..dj
        }) && ppu_tick_post(dc.ppu, &dc.mmu, &b0, dp.ppu, &dp.mmu, &b1, n) && dp == (Device {
            ppu: dp.ppu,
            mmu: dp.mmu,
            ..dc
        }) && #[trigger] timers_post(dp, d1, n)
}

/// Each entry of `tr` follows from the one before by a frame step of `ns[i]` T-cycles.
pub open spec fn is_frame_run(tr: Seq<(Device, LcdBuffer)>, ns: Seq<u8>) -> bool {
    forall|i: int| 0 <= i < ns.len() ==> #[trigger] frame_step(tr[i].0, tr[i].1, tr[i + 1].0, tr[i + 1].1, ns[i])
}

/// The sum of `ns`.
pub open spec fn sum_cycles(ns: Seq<u8>) -> int
    decreases ns.len(),
{
    if ns.len() == 0 {
        0
    } else {
        sum_cycles(ns.drop_last()) + ns.last()
    }
}

proof fn lemma_sum_push(ns: Seq<u8>, n: u8)
    ensures
        sum_cycles(ns.push(n)) == sum_cycles(ns) + n,
{
    assert(ns.push(n).drop_last() =~= ns);
}

/// The emulated console: CPU, PPU and bus, stepped in lockstep.
pub struct Device {
    pub cpu: Cpu,
    pub ppu: Ppu,
    pub mmu: Mmu,
    /// A TIMA overflow whose interrupt is requested at the next timer update.
    pub tima_overflow: bool,
}

impl Device {
    pub open spec fn wf(&self) -> bool {
        self.mmu.wf() && self.ppu.wf()
    }

    /// Powers on with a ROM image and optional RAM and RTC saves; fails on a ROM
    /// the cartridge cannot use.
    pub fn new(rom: Vec<u8>, ram: Option<Vec<u8>>, rtc: Option<Vec<u8>>) -> (r: Result<Device, CartError>)
        ensures
            match cart_error(rom@) {
                Some(e) => r == Err::<Device, CartError>(e),
                None => r matches Ok(d) && d.wf() && d.mmu.cart.loaded_from(rom@, opt_view(ram), opt_view(rtc))
                    && !d.tima_overflow && d.cpu.reg == crate::registers::Registers::new_spec()
                    && d.ppu.state == crate::ppu::PpuState::OamSearch && d.mmu.io.lcd == crate::lcd::Lcd::new_spec()
                    && d.mmu.io.if_flag == 0xE1 && d.mmu.ie_flag == 0 && d.mmu.dma == 0
                    && d.mmu.io.timers == (Timers { sysclk: 0x00AB, tima: 0, tma: 0, tac: 0xF8 })
                    && d.cpu.ime == crate::cpu::Ime::Disabled && !d.cpu.halted,
            },
    {
        let mmu: Mmu = Mmu::new(rom, ram, rtc)?;
        Ok(Device { cpu: Cpu::new(), ppu: Ppu::new(), mmu, tima_overflow: false })
    }

    /// Runs one video frame with the given keys held: a run of steps (`frame_step`),
    /// each a CPU tick with the PPU and timers advanced by the same T-cycles, until
    /// 70224 T-cycles have been accounted for.
    pub fn frame(&mut self, buffer: &mut LcdBuffer, joypad_state: JoypadState)
        requires
            old(self).wf(),
            old(buffer).buffer@.len() == LCD_PIXELS,
        ensures
            exists|tr: Seq<(Device, LcdBuffer)>, ns: Seq<u8>| {
                &&& tr.len() == ns.len() + 1
                &&& tr[0] == (with_keys(*old(self), joypad_state), *old(buffer))
                &&& tr.last() == (*final(self), *final(buffer))
                &&& is_frame_run(tr, ns)
                &&& CYCLE_LIMIT <= sum_cycles(ns) < CYCLE_LIMIT + 44
                &&& forall|i: int| 0 <= i < ns.len() - 1 ==> sum_cycles(#[trigger] ns.take(i + 1)) < CYCLE_LIMIT
            },
            final(self).wf(),
            final(buffer).buffer@.len() == LCD_PIXELS,
            final(self).mmu.io.joypad.state == joypad_state,
            final(self).mmu.cart.rom == old(self).mmu.cart.rom,
            final(self).mmu.cart.header == old(self).mmu.cart.header,
            exists|k: int|
                CYCLE_LIMIT <= k < CYCLE_LIMIT + 44 && final(self).cpu.cycles == #[trigger] wrap64(
                    old(self).cpu.cycles + k,
                ),
    {
        let mut total_cycles: u32 = 0;
        self.mmu.io.joypad.set_state(joypad_state);
        let ghost mut tr: Seq<(Device, LcdBuffer)> = seq![(*self, *buffer)];
        let ghost mut ns: Seq<u8> = Seq::empty();
        assert(tr[0] == (with_keys(*old(self), joypad_state), *old(buffer)));
        while total_cycles < CYCLE_LIMIT
            invariant
                tr.len() == ns.len() + 1,
                tr[0] == (with_keys(*old(self), joypad_state), *old(buffer)),
                tr.last() == (*self, *buffer),
                is_frame_run(tr, ns),
                total_cycles == sum_cycles(ns),
                forall|i: int| 0 <= i < ns.len() ==> sum_cycles(#[trigger] ns.take(i + 1)) < CYCLE_LIMIT + 44,
                forall|i: int| 0 <= i < ns.len() - 1 ==> sum_cycles(#[trigger] ns.take(i + 1)) < CYCLE_LIMIT,
                self.wf(),
                buffer.buffer@.len() == LCD_PIXELS,
                total_cycles < CYCLE_LIMIT + 44,
                self.cpu.cycles == (old(self).cpu.cycles + total_cycles) % 0x1_0000_0000_0000_0000,
                self.mmu.io.joypad.state == joypad_state,
                self.mmu.cart.rom == old(self).mmu.cart.rom,
                self.mmu.cart.header == old(self).mmu.cart.header,
            decreases CYCLE_LIMIT + 44 - total_cycles,
        {
            let ghost d0 = *self;
            let ghost b0 = *buffer;
            if self.mmu.io.joypad.purge_interrupt() {
                self.mmu.io.request_joypad_interrupt();
            }
            let ghost dj = *self;
            let cycles: u8 = self.cpu.tick(&mut self.mmu);
            let ghost dc = *self;
            self.ppu.tick(&mut self.mmu, buffer, cycles);
            let ghost dp = *self;
            self.update_timers(cycles);
            proof {
                assert(joypad_post(d0, dj));
                assert(frame_step(d0, b0, *self, *buffer, cycles));
                let ghost tr0 = tr;
                let ghost ns0 = ns;
                tr = tr.push((*self, *buffer));
                ns = ns.push(cycles);
                lemma_sum_push(ns0, cycles);
                assert(tr[0] == tr0[0]);
                assert forall|i: int| 0 <= i < ns.len() implies #[trigger] frame_step(tr[i].0, tr[i].1, tr[i + 1].0, tr[i + 1].1, ns[i]) by {
                    if i < ns.len() - 1 {
                        assert(tr[i] == tr0[i] && tr[i + 1] == tr0[i + 1] && ns[i] == ns0[i]);
                    }
                }
                assert forall|i: int| 0 <= i < ns.len() implies sum_cycles(#[trigger] ns.take(i + 1)) < CYCLE_LIMIT + 44 by {
                    if i < ns.len() - 1 {
                        assert(ns.take(i + 1) =~= ns0.take(i + 1));
                    } else {
                        assert(ns.take(i + 1) =~= ns);
                    }
                }
                assert forall|i: int| 0 <= i < ns.len() - 1 implies sum_cycles(#[trigger] ns.take(i + 1)) < CYCLE_LIMIT by {
                    assert(ns.take(i + 1) =~= ns0.take(i + 1));
                    if i == ns0.len() - 1 {
                        assert(ns0.take(i + 1) =~= ns0);
                    }
                }
            }
            total_cycles = total_cycles + cycles as u32;
        }
        assert(self.cpu.cycles == wrap64(old(self).cpu.cycles + total_cycles));
    }

    /// Advances DIV and TIMA by `cycles` T-cycles; requests the timer interrupt
    /// latched by the previous call.
    pub fn update_timers(&mut self, cycles: u8)
        requires
            old(self).wf(),
        ensures
            final(self).wf(),
            timer_step(
                old(self).mmu.io.timers,
                old(self).mmu.io.if_flag,
                old(self).tima_overflow,
                cycles as nat,
                final(self).mmu.io.timers,
                final(self).mmu.io.if_flag,
                final(self).tima_overflow,
            ),
            final(self).mmu.io.timers.sysclk == (old(self).mmu.io.timers.sysclk + cycles) % 65536,
            final(self).cpu == old(self).cpu,
            final(self).mmu.io.joypad == old(self).mmu.io.joypad,
            final(self).mmu.cart == old(self).mmu.cart,
            timers_post(*old(self), *final(self), cycles),
    {
        let tima_enabled: bool = self.mmu.io.timers.get_tima_enabled();
        let tima_clock: u16 = self.mmu.io.timers.get_tima_clock();
        let ghost t0 = self.mmu.io.timers;
        if self.tima_overflow {
            self.mmu.io.request_timer_interrupt();
        }
        let ghost if1 = self.mmu.io.if_flag;
        let mut overflow: bool = false;
        let mut i: u8 = 0;
        while i < cycles
            invariant
                self.wf(),
                i <= cycles,
                (self.mmu.io.timers, overflow) == timer_run(t0, tima_enabled, tima_clock, i as nat),
                self.mmu.io.timers.tac == t0.tac,
                self.mmu.io.if_flag == if1,
                tima_clock == tima_period(t0.tac),
                tima_enabled == (t0.tac & 0x04 != 0),
                self.cpu == old(self).cpu,
                self.mmu.io.joypad == old(self).mmu.io.joypad,
                self.mmu.cart == old(self).mmu.cart,
                *self == (Device {
                    mmu: Mmu {
                        io: Io { timers: self.mmu.io.timers, if_flag: self.mmu.io.if_flag, ..old(self).mmu.io },
                        ..old(self).mmu
                    },
                    ..*old(self)
                }),
            decreases cycles - i,
        {
            self.mmu.io.timers.inc_sysclk();
            let sysclk: u16 = self.mmu.io.timers.get_sysclk();
            if tima_enabled && sysclk % tima_clock == 0 {
                if self.mmu.io.timers.inc_tima() {
                    overflow = true;
                }
            }
            i = i + 1;
        }
        self.tima_overflow = overflow;
        proof {
            lemma_timer_sysclk(t0, tima_enabled, tima_clock, cycles as nat);
        }
    }

    /// The battery-backed RAM, for saving.
    pub fn dump_ram(&self) -> (r: Option<Vec<u8>>)
        ensures
            r matches Some(v) ==> v@ == self.mmu.cart.ram@,
            r is Some <==> crate::header::battery_type(self.mmu.cart.header.cart_type) && self.mmu.cart.ram@.len() > 0,
    {
        self.mmu.cart.dump_ram()
    }

    /// The clock's save image, on cartridges with a clock.
    pub fn dump_rtc(&self) -> (r: Option<Vec<u8>>)
        ensures
            r matches Some(v) ==> self.mmu.cart.rtc matches Some(t) && v@ == serialize_spec(t),
            r is Some <==> self.mmu.cart.rtc is Some,
    {
        self.mmu.cart.dump_rtc()
    }

    /// Hands the host's current time (whole seconds) to the cartridge clock.
    pub fn update_rtc_now(&mut self, elapsed_secs: u64)
        requires
            old(self).wf(),
        ensures
            final(self).wf(),
            final(self).mmu.cart.rtc == match old(self).mmu.cart.rtc {
                Some(t) => Some(crate::rtc::Rtc { now: elapsed_secs, ..t }),
                None => None,
            },
    {
        self.mmu.cart.update_rtc_now(elapsed_secs);
    }

    /// Returns and clears the bytes sent over the serial port.
    pub fn serial_output(&mut self) -> (r: Vec<u8>)
        requires
            old(self).wf(),
        ensures
            final(self).wf(),
            r@ == old(self).mmu.io.test@,
            final(self).mmu.io.test@.len() == 0,
    {
        self.mmu.io.get_test()
    }
}

/// The system clock advances by exactly the number of T-cycles run, modulo 2^16.
pub proof fn lemma_timer_sysclk(t: Timers, enabled: bool, period: u16, n: nat)
    ensures
        timer_run(t, enabled, period, n).0.sysclk == (t.sysclk + n) % 65536,
        timer_run(t, enabled, period, n).0.tac == t.tac,
        timer_run(t, enabled, period, n).0.tma == t.tma,
    decreases n,
{
    if n > 0 {
        lemma_timer_sysclk(t, enabled, period, (n - 1) as nat);
    }
}

/// A TIMA overflow is not requested in the update where it happens, and is requested
/// (IF bit 2 set) by the next one.
pub proof fn lemma_timer_interrupt_delay(
    t0: Timers,
    if0: u8,
    n1: nat,
    t1: Timers,
    if1: u8,
    n2: nat,
    t2: Timers,
    if2: u8,
    ovf2: bool,
)
    requires
        timer_step(t0, if0, false, n1, t1, if1, true),
        timer_step(t1, if1, true, n2, t2, if2, ovf2),
    ensures
        if1 == if0,
        if2 & 0x04 != 0,
{
    let x = if1;
    assert((x | 0x04) & 0x04 != 0) by (bit_vector);
}

} // verus!
