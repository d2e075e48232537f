use vstd::prelude::*;
use crate::alu::lemma_one_bit;
use crate::alu::signed8;
use crate::fifo::Palette;
use crate::fifo::Pixel;
use crate::fifo::StandardPixelFifo;
use crate::lcd::Lcd;
use crate::mmu::Mmu;

verus! {

/// The four stages of a tile fetch.
#[derive(Clone, Copy, Debug, PartialEq, Eq, Structural)]
pub enum FetchState {
    FetchNo,
    FetchDataLow,
    FetchDataHigh,
    Push,
}

/// Colour number of pixel `bit` (7 = leftmost) of a tile row.
pub open spec fn color_at(low: u8, high: u8, bit: u8) -> u8 {
    (2 * ((high >> bit) & 1u8) + ((low >> bit) & 1u8)) as u8
}

/// A tile row as eight background pixels, leftmost first.
pub open spec fn bg_row(low: u8, high: u8) -> Seq<Pixel> {
    Seq::new(8, |j: int| Pixel { color: color_at(low, high, (7 - j) as u8), palette: Palette::BGP, priority: false, bg_priority: false })
}

/// Address in the tile map of the tile the fetcher reads next.
pub open spec fn map_address(lcd: Lcd, x_counter: u8, window: bool, wlc: u8) -> u16 {
    let offset: int = if window {
        (x_counter + 32 * (wlc / 8)) % 1024
    } else {
        ((x_counter + lcd.scx / 8) % 32 + 32 * (((lcd.ly + lcd.scy) % 256) / 8)) % 1024
    };
    let base: int = if window {
        if lcd.lcdc & 0x40 != 0 { 0x9C00 } else { 0x9800 }
    } else {
        if lcd.lcdc & 0x08 != 0 { 0x9C00 } else { 0x9800 }
    };
    (base + offset) as u16
}

/// Address of the low byte of the current row of tile `tile_no`.
pub open spec fn tile_row_address(lcd: Lcd, tile_no: u8, window: bool, wlc: u8) -> u16 {
    let row: int = if window { 2 * (wlc % 8) } else { 2 * ((lcd.ly + lcd.scy) % 8) };
    let base: int = if lcd.lcdc & 0x10 != 0 { 0x8000 + 16 * tile_no } else { 0x9000 + 16 * signed8(tile_no) };
    (base + row) as u16
}

/// Colour numbers are 2-bit.
pub proof fn lemma_color_at(low: u8, high: u8, bit: u8)
    ensures
        color_at(low, high, bit) <= 3,
{
    lemma_one_bit(high, bit);
    lemma_one_bit(low, bit);
}

/// Every pixel of a background row has a 2-bit colour.
pub proof fn lemma_row_colors(low: u8, high: u8)
    ensures
        forall|j: int| 0 <= j < 8 ==> #[trigger] bg_row(low, high)[j].color <= 3,
{
    assert forall|j: int| 0 <= j < 8 implies #[trigger] bg_row(low, high)[j].color <= 3 by {
        lemma_color_at(low, high, (7 - j) as u8);
    }
}

/// Fetches background or window tiles and feeds the background FIFO.
pub struct BgFetcher {
    pub fifo: StandardPixelFifo,
    pub state: FetchState,
    pub tile_no: u8,
    pub data_start_add: u16,
    pub data_low: u8,
    pub data_high: u8,
    pub x_counter: u8,
    pub window: bool,
    pub ready: bool,
}

impl BgFetcher {
    /// The FIFO holds at most 8 pixels, each with a 2-bit colour.
    pub open spec fn wf(&self) -> bool {
        &&& self.fifo.wf()
        &&& self.fifo.capacity == 8
        &&& forall|i: int| 0 <= i < self.fifo.view().len() ==> #[trigger] self.fifo.view()[i].color <= 3
    }

    /// Every field but the FIFO is as in `other`.
    pub open spec fn same_regs(&self, other: &BgFetcher) -> bool {
        &&& self.state == other.state
        &&& self.tile_no == other.tile_no
        &&& self.data_start_add == other.data_start_add
        &&& self.data_low == other.data_low
        &&& self.data_high == other.data_high
        &&& self.x_counter == other.x_counter
        &&& self.window == other.window
        &&& self.ready == other.ready
    }

    /// One T-cycle of the fetcher (see `BgFetcher::tick`).
    pub open spec fn tick_post(f0: BgFetcher, f1: BgFetcher, mmu: &Mmu, window_line_counter: u8) -> bool {
        &&& f1.wf()
        &&& f1.window == f0.window
        &&& !f0.ready ==> f1.ready && f1.same_regs(&BgFetcher { ready: true, ..f0 })
                    && f1.fifo.view() == f0.fifo.view()
        &&& f0.ready && f0.state == FetchState::FetchNo ==> f1.tile_no == mmu.read_spec(
                    map_address(mmu.io.lcd, f0.x_counter, f0.window, window_line_counter),
                ) && f1.state == FetchState::FetchDataLow && !f1.ready
        &&& f0.ready && f0.state == FetchState::FetchDataLow ==> ({
                    let a = tile_row_address(mmu.io.lcd, f0.tile_no, f0.window, window_line_counter);
                    f1.data_start_add == a && f1.data_low == mmu.read_spec(a)
                        && f1.state == FetchState::FetchDataHigh && !f1.ready
                })
        &&& f0.ready && f0.state == FetchState::FetchDataHigh ==> f1.data_high
                    == mmu.read_spec(((f0.data_start_add + 1) % 65536) as u16) && f1.state
                    == FetchState::Push && !f1.ready
        &&& f0.ready && f0.state == FetchState::Push && f0.fifo.view().len() == 0
                    ==> f1.fifo.view() == bg_row(f0.data_low, f0.data_high)
                    && f1.state == FetchState::FetchNo && !f1.ready
        &&& f0.ready && f0.state == FetchState::Push && f0.fifo.view().len() > 0
                    ==> f1.same_regs(&f0) && f1.fifo.view() == f0.fifo.view()
    }

    pub fn new() -> (r: BgFetcher)
        ensures
            r.wf(),
            r.fifo.view().len() == 0,
            r.state == FetchState::FetchNo,
            !r.window && !r.ready && r.x_counter == 0,
    {
        BgFetcher {
            fifo: StandardPixelFifo::with_capacity(8),
            state: FetchState::FetchNo,
            tile_no: 0,
            data_start_add: 0,
            data_low: 0,
            data_high: 0,
            x_counter: 0,
            window: false,
            ready: false,
        }
    }

    /// One T-cycle: a stage runs on every other call (the `ready` flip-flop);
    /// a push waits, ready, until the FIFO is empty.
    pub fn tick(&mut self, mmu: &Mmu, window_line_counter: u8)
        requires
            old(self).wf(),
            mmu.wf(),
        ensures
            BgFetcher::tick_post(*old(self), *final(self), mmu, window_line_counter),
    {
        if self.ready {
            match self.state {
                FetchState::FetchNo => self.fetch_no(mmu, window_line_counter),
                FetchState::FetchDataLow => self.fetch_data_low(mmu, window_line_counter),
                FetchState::FetchDataHigh => self.fetch_data_high(mmu),
                FetchState::Push => self.push(),
            }
        } else {
            self.ready = true;
        }
    }

    /// Starts fetching the window: everything reset, window mode on.
    pub fn switch_to_window_mode(&mut self)
        requires
            old(self).wf(),
        ensures
            final(self).wf(),
            final(self).window,
            final(self).fifo.view().len() == 0,
            final(self).state == FetchState::FetchNo,
            final(self).x_counter == 0,
    {
        self.reset();
        self.window = true;
    }

    fn fetch_no(&mut self, mmu: &Mmu, window_line_counter: u8)
        requires
            old(self).wf(),
            mmu.wf(),
        ensures
            final(self).wf(),
            *final(self) == (BgFetcher {
                tile_no: mmu.read_spec(map_address(mmu.io.lcd, old(self).x_counter, old(self).window, window_line_counter)),
                state: FetchState::FetchDataLow,
                ready: false,
                ..*old(self)
            }),
    {
        let lcd: &Lcd = &mmu.io.lcd;
        let offset: u16 = if self.window {
            (self.x_counter as u16 + 32 * (window_line_counter as u16 / 8)) % 1024
        } else {
            ((self.x_counter as u16 + lcd.scx as u16 / 8) % 32 + 32 * (((lcd.get_ly() as u16 + lcd.scy as u16) % 256) / 8)) % 1024
        };
        let base: u16 = if self.window {
            lcd.get_window_tile_map()
        } else {
            lcd.get_bg_tile_map()
        };
        self.tile_no = mmu.read(base + offset);
        self.change_state(FetchState::FetchDataLow);
    }

    fn get_tile_data_start_address(&self, mmu: &Mmu, window_line_counter: u8) -> (r: u16)
        requires
            mmu.wf(),
        ensures
            r == tile_row_address(mmu.io.lcd, self.tile_no, self.window, window_line_counter),
    {
        let lcd: &Lcd = &mmu.io.lcd;
        let row: u16 = if self.window {
            2 * (window_line_counter as u16 % 8)
        } else {
            2 * ((lcd.get_ly() as u16 + lcd.scy as u16) % 8)
        };
        let base: u16 = if lcd.get_tile_data() == 0x8000 {
            0x8000 + 16 * self.tile_no as u16
        } else if self.tile_no >= 128 {
            0x9000 - 16 * (256 - self.tile_no as u16)
        } else {
            0x9000 + 16 * self.tile_no as u16
        };
        base + row
    }

    fn fetch_data_low(&mut self, mmu: &Mmu, window_line_counter: u8)
        requires
            old(self).wf(),
            mmu.wf(),
        ensures
            final(self).wf(),
            ({
                let a = tile_row_address(mmu.io.lcd, old(self).tile_no, old(self).window, window_line_counter);
                *final(self) == (BgFetcher {
                    data_start_add: a,
                    data_low: mmu.read_spec(a),
                    state: FetchState::FetchDataHigh,
                    ready: false,
                    ..*old(self)
                })
            }),
    {
        self.data_start_add = self.get_tile_data_start_address(mmu, window_line_counter);
        self.data_low = mmu.read(self.data_start_add);
        self.change_state(FetchState::FetchDataHigh);
    }

    fn fetch_data_high(&mut self, mmu: &Mmu)
        requires
            old(self).wf(),
            mmu.wf(),
        ensures
            final(self).wf(),
            *final(self) == (BgFetcher {
                data_high: mmu.read_spec(((old(self).data_start_add + 1) % 65536) as u16),
                state: FetchState::Push,
                ready: false,
                ..*old(self)
            }),
    {
        self.data_high = mmu.read(self.data_start_add.wrapping_add(1));
        self.change_state(FetchState::Push);
    }

    fn push(&mut self)
        requires
            old(self).wf(),
            old(self).state == FetchState::Push,
        ensures
            final(self).wf(),
            final(self).window == old(self).window,
            old(self).fifo.view().len() == 0 ==> final(self).fifo.view() == bg_row(old(self).data_low, old(self).data_high)
                && final(self).same_regs(&BgFetcher {
                    x_counter: ((old(self).x_counter + 1) % 256) as u8,
                    state: FetchState::FetchNo,
                    ready: false,
                    ..*old(self)
                }),
            old(self).fifo.view().len() > 0 ==> final(self).same_regs(old(self)) && final(self).fifo.view()
                == old(self).fifo.view(),
    {
        if self.fifo.len() == 0 {
            let mut j: u8 = 0;
            while j < 8
                invariant
                    self.fifo.wf(),
                    self.fifo.capacity == 8,
                    j <= 8,
                    self.fifo.view() == bg_row(self.data_low, self.data_high).subrange(0, j as int),
                    self.same_regs(old(self)),
                decreases 8 - j,
            {
                let bit: u8 = 7 - j;
                proof {
                    lemma_one_bit(self.data_high, bit);
                    lemma_one_bit(self.data_low, bit);
                }
                let color: u8 = 2 * ((self.data_high >> bit) & 1u8) + ((self.data_low >> bit) & 1u8);
                self.fifo.push(Pixel { color, palette: Palette::BGP, priority: false, bg_priority: false });
                j = j + 1;
                assert(self.fifo.view() =~= bg_row(self.data_low, self.data_high).subrange(0, j as int));
            }
            assert(bg_row(self.data_low, self.data_high).subrange(0, 8) =~= bg_row(self.data_low, self.data_high));
            proof {
                lemma_row_colors(self.data_low, self.data_high);
            }
            self.x_counter = self.x_counter.wrapping_add(1);
            self.change_state(FetchState::FetchNo);
        }
    }

    fn change_state(&mut self, state: FetchState)
        ensures
            *final(self) == (BgFetcher { state, ready: false, ..*old(self) }),
    {
        self.state = state;
        self.ready = false;
    }

    /// Back to the start of a line: FIFO emptied, background mode.
    pub fn reset(&mut self)
        requires
            old(self).wf(),
        ensures
            final(self).wf(),
            final(self).fifo.view().len() == 0,
            final(self).state == FetchState::FetchNo,
            final(self).x_counter == 0,
            !final(self).window && !final(self).ready,
    {
        self.fifo.clear();
        self.state = FetchState::FetchNo;
        self.data_start_add = 0;
        self.tile_no = 0;
        self.data_low = 0;
        self.data_high = 0;
        self.x_counter = 0;
        self.window = false;
        self.ready = false;
    }

    /// Restarts the tile fetch (after a sprite fetch), keeping the FIFO.
    pub fn restart(&mut self)
        ensures
            *final(self) == (BgFetcher { state: FetchState::FetchNo, ready: false, ..*old(self) }),
    {
        self.state = FetchState::FetchNo;
        self.ready = false;
    }

    /// Takes the next background pixel, if any.
    pub fn shift(&mut self) -> (r: Option<Pixel>)
        requires
            old(self).wf(),
        ensures
            final(self).wf(),
            final(self).same_regs(old(self)),
            old(self).fifo.view().len() == 0 ==> r is None && final(self).fifo.view() == old(self).fifo.view(),
            old(self).fifo.view().len() > 0 ==> r == Some(old(self).fifo.view()[0])
                && final(self).fifo.view() == old(self).fifo.view().drop_first(),
    {
        self.fifo.shift()
    }
}

} // verus!
