use vstd::prelude::*;
use crate::alu::lemma_one_bit;
use crate::bg_fetcher::FetchState;
use crate::bg_fetcher::color_at;
use crate::fifo::MergePixelFifo;
use crate::fifo::Palette;
use crate::fifo::Pixel;
use crate::fifo::fold;
use crate::fifo::merged;
use crate::lcd::Lcd;
use crate::mmu::Mmu;
use crate::oam::Sprite;

verus! {

/// The sprite line LY falls on, counted from the sprite's top.
pub open spec fn sprite_line(lcd: Lcd, sprite: Sprite) -> int {
    (lcd.ly + 16 - sprite.y_position + 256) % 256
}

/// The tile holding the current line: for 8x16 sprites, the top or bottom tile of the pair.
pub open spec fn sprite_tile(lcd: Lcd, sprite: Sprite) -> u8 {
    if lcd.lcdc & 0x04 != 0 {
        let line = if sprite.y_flip { (15 - sprite_line(lcd, sprite) + 256) % 256 } else { sprite_line(lcd, sprite) };
        if line > 7 { sprite.tile_no | 0x01 } else { sprite.tile_no & 0xFE }
    } else {
        sprite.tile_no
    }
}

/// Address of the low byte of the current line of `tile`.
pub open spec fn sprite_row_address(lcd: Lcd, sprite: Sprite, tile: u8) -> u16 {
    let line = sprite_line(lcd, sprite) % 8;
    let idx = if sprite.y_flip { 7 - line } else { line };
    (0x8000 + 16 * tile + 2 * idx) as u16
}

/// Columns of the sprite hidden off the left edge.
pub open spec fn hidden_columns(sprite: Sprite) -> int {
    if sprite.x_position >= 8 { 0 } else { 8 - sprite.x_position }
}

/// The sprite's visible pixels of the fetched row, leftmost first.
pub open spec fn sprite_row(sprite: Sprite, low: u8, high: u8) -> Seq<Pixel> {
    let start = hidden_columns(sprite);
    Seq::new((8 - start) as nat, |k: int| {
        let j = start + k;
        Pixel {
            color: color_at(low, high, (if sprite.x_flip { j } else { 7 - j }) as u8),
            palette: if sprite.palette { Palette::OBP1 } else { Palette::OBP0 },
            priority: false,
            bg_priority: sprite.priority,
        }
    })
}

/// The sprite's visible row merged into the FIFO from its oldest slot on.
pub open spec fn sprite_pushed(f0: SpriteFetcher, f1: SpriteFetcher, sprite: Sprite) -> bool {
    ({
                let row = sprite_row(sprite, f0.data_low, f0.data_high);
                let p = f0.fifo.pop_i as int;
                &&& f1.fifo.len == row.len()
                &&& f1.fifo.pop_i == f0.fifo.pop_i
                &&& forall|k: int| 0 <= k < row.len() ==> #[trigger] f1.fifo.buffer@[fold(p + k, 8)]
                    == merged(f0.fifo.buffer@[fold(p + k, 8)], row[k])
                &&& forall|i: int| 0 <= i < 8 && fold(i + 8 - p, 8) >= row.len()
                    ==> #[trigger] f1.fifo.buffer@[i] == f0.fifo.buffer@[i]
            })
}

/// Fetches one sprite's row and merges it into the sprite FIFO.
pub struct SpriteFetcher {
    pub fifo: MergePixelFifo,
    pub state: FetchState,
    pub tile_no: u8,
    pub data_start_add: u16,
    pub data_low: u8,
    pub data_high: u8,
    pub ready: bool,
    /// No sprite fetch is in progress.
    pub done: bool,
}

impl SpriteFetcher {
    /// An 8-slot FIFO whose pixels have 2-bit colours.
    pub open spec fn wf(&self) -> bool {
        &&& self.fifo.wf()
        &&& self.fifo.capacity == 8
        &&& forall|i: int| 0 <= i < 8 ==> (#[trigger] self.fifo.buffer@[i] matches Some(p) ==> p.color <= 3)
    }

    /// One T-cycle of the fetcher (see `SpriteFetcher::tick`).
    pub open spec fn tick_post(f0: SpriteFetcher, f1: SpriteFetcher, mmu: &Mmu, sprite: Sprite) -> bool {
        &&& f1.wf()
        &&& f1.done == (f0.state == FetchState::Push)
        &&& f0.state == FetchState::Push ==> f1.state == FetchState::FetchNo
        &&& f0.state != FetchState::Push && !f0.ready ==> f1.ready && f1.state == f0.state
        &&& f0.state == FetchState::FetchNo && f0.ready ==> f1.tile_no == sprite_tile(mmu.io.lcd, sprite)
                    && f1.state == FetchState::FetchDataLow
        &&& f0.state == FetchState::FetchDataLow && f0.ready ==> f1.data_low == mmu.read_spec(
                    sprite_row_address(mmu.io.lcd, sprite, f0.tile_no),
                ) && f1.state == FetchState::FetchDataHigh
        &&& f0.state == FetchState::FetchDataHigh && f0.ready ==> f1.data_high == mmu.read_spec(
                    (sprite_row_address(mmu.io.lcd, sprite, f0.tile_no) + 1) as u16,
                ) && f1.state == FetchState::Push
        &&& f0.state == FetchState::Push ==> sprite_pushed(f0, f1, sprite)
        &&& f0.state != FetchState::Push ==> f1.fifo == f0.fifo
    }

    pub fn new() -> (r: SpriteFetcher)
        ensures
            r.wf(),
            r.done,
            r.fifo.len == 0,
            r.state == FetchState::FetchNo,
    {
        SpriteFetcher {
            fifo: MergePixelFifo::with_capacity(8),
            state: FetchState::FetchNo,
            tile_no: 0,
            data_start_add: 0,
            data_low: 0,
            data_high: 0,
            ready: false,
            done: true,
        }
    }

    /// One T-cycle of a sprite fetch; the fetch is done after the push stage.
    pub fn tick(&mut self, mmu: &Mmu, sprite: &Sprite)
        requires
            old(self).wf(),
            mmu.wf(),
        ensures
            SpriteFetcher::tick_post(*old(self), *final(self), mmu, *sprite),
    {
        self.done = false;
        match self.state {
            FetchState::Push => {
                self.push(sprite);
                self.done = true;
            },
            FetchState::FetchNo => if self.ready {
                self.fetch_no(mmu, sprite);
            } else {
                self.ready = true;
            },
            FetchState::FetchDataLow => if self.ready {
                self.fetch_data_low(mmu, sprite);
            } else {
                self.ready = true;
            },
            FetchState::FetchDataHigh => if self.ready {
                self.fetch_data_high(mmu, sprite);
            } else {
                self.ready = true;
            },
        }
    }

    fn fetch_no(&mut self, mmu: &Mmu, sprite: &Sprite)
        requires
            mmu.wf(),
        ensures
            *final(self) == (SpriteFetcher {
                tile_no: sprite_tile(mmu.io.lcd, *sprite),
                state: FetchState::FetchDataLow,
                ready: false,
                ..*old(self)
            }),
    {
        let lcd: &Lcd = &mmu.io.lcd;
        self.tile_no = if lcd.get_sprite_size() == 16 {
            let line0: u8 = lcd.get_ly().wrapping_add(16).wrapping_sub(sprite.y_position);
            let line: u8 = if sprite.y_flip { 15u8.wrapping_sub(line0) } else { line0 };
            if line > 7 {
                sprite.tile_no | 0x01
            } else {
                sprite.tile_no & 0xFE
            }
        } else {
            sprite.tile_no
        };
        self.change_state(FetchState::FetchDataLow);
    }

    fn get_tile_data_start_address(&self, mmu: &Mmu, sprite: &Sprite) -> (r: u16)
        requires
            mmu.wf(),
        ensures
            r == sprite_row_address(mmu.io.lcd, *sprite, self.tile_no),
    {
        let line: u8 = mmu.io.lcd.get_ly().wrapping_add(16).wrapping_sub(sprite.y_position) % 8;
        let idx: u16 = if sprite.y_flip { 7 - line as u16 } else { line as u16 };
        0x8000 + 16 * self.tile_no as u16 + 2 * idx
    }

    fn fetch_data_low(&mut self, mmu: &Mmu, sprite: &Sprite)
        requires
            mmu.wf(),
        ensures
            *final(self) == (SpriteFetcher {
                data_start_add: sprite_row_address(mmu.io.lcd, *sprite, old(self).tile_no),
                data_low: mmu.read_spec(sprite_row_address(mmu.io.lcd, *sprite, old(self).tile_no)),
                state: FetchState::FetchDataHigh,
                ready: false,
                ..*old(self)
            }),
    {
        self.data_start_add = self.get_tile_data_start_address(mmu, sprite);
        self.data_low = mmu.read(self.data_start_add);
        self.change_state(FetchState::FetchDataHigh);
    }

    fn fetch_data_high(&mut self, mmu: &Mmu, sprite: &Sprite)
        requires
            mmu.wf(),
        ensures
            *final(self) == (SpriteFetcher {
                data_high: mmu.read_spec((sprite_row_address(mmu.io.lcd, *sprite, old(self).tile_no) + 1) as u16),
                state: FetchState::Push,
                ready: false,
                ..*old(self)
            }),
    {
        let add: u16 = self.get_tile_data_start_address(mmu, sprite);
        self.data_high = mmu.read(add + 1);
        self.change_state(FetchState::Push);
    }

    /// Merges the sprite's visible pixels into the FIFO, starting at its oldest slot.
    fn push(&mut self, sprite: &Sprite)
        requires
            old(self).wf(),
        ensures
            final(self).wf(),
            sprite_pushed(*old(self), *final(self), *sprite),
            final(self).state == FetchState::FetchNo,
            !final(self).ready,
            final(self).data_low == old(self).data_low && final(self).data_high == old(self).data_high,
    {
        let ghost row = sprite_row(*sprite, self.data_low, self.data_high);
        let ghost p = self.fifo.pop_i as int;
        let ghost start = hidden_columns(*sprite);
        self.fifo.clear();
        let mut j: u8 = 0;
        while j < 8
            invariant
                self.fifo.wf(),
                self.fifo.capacity == 8,
                j <= 8,
                self.fifo.pop_i == p,
                self.data_low == old(self).data_low,
                self.data_high == old(self).data_high,
                row == sprite_row(*sprite, self.data_low, self.data_high),
                start == hidden_columns(*sprite),
                self.fifo.len == if j <= start { 0 } else { j - start },
                forall|k: int| 0 <= k < self.fifo.len ==> #[trigger] self.fifo.buffer@[fold(p + k, 8)]
                    == merged(old(self).fifo.buffer@[fold(p + k, 8)], row[k]),
                forall|i: int| 0 <= i < 8 && fold(i + 8 - p, 8) >= self.fifo.len
                    ==> #[trigger] self.fifo.buffer@[i] == old(self).fifo.buffer@[i],
                forall|i: int| 0 <= i < 8 ==> (#[trigger] self.fifo.buffer@[i] matches Some(q) ==> q.color <= 3),
            decreases 8 - j,
        {
            if sprite.x_position as u16 + j as u16 >= 8 {
                let bit: u8 = if sprite.x_flip { j } else { 7 - j };
                proof {
                    lemma_one_bit(self.data_high, bit);
                    lemma_one_bit(self.data_low, bit);
                }
                let color: u8 = 2 * ((self.data_high >> bit) & 1u8) + ((self.data_low >> bit) & 1u8);
                let palette: Palette = if sprite.palette { Palette::OBP1 } else { Palette::OBP0 };
                let ghost before = self.fifo.buffer@;
                let ghost n = self.fifo.len as int;
                self.fifo.push(Pixel { color, palette, priority: false, bg_priority: sprite.priority });
                proof {
                    assert(row[n] == Pixel { color, palette, priority: false, bg_priority: sprite.priority });
                    assert forall|k: int| 0 <= k < self.fifo.len implies #[trigger] self.fifo.buffer@[fold(p + k, 8)]
                        == merged(old(self).fifo.buffer@[fold(p + k, 8)], row[k]) by {
                        if k < n {
                            assert(fold(p + k, 8) != fold(p + n, 8));
                        }
                    }
                    assert forall|i: int| 0 <= i < 8 && fold(i + 8 - p, 8) >= self.fifo.len
                        implies #[trigger] self.fifo.buffer@[i] == old(self).fifo.buffer@[i] by {
                        assert(i != fold(p + n, 8));
                    }
                }
            }
            j = j + 1;
        }
        self.change_state(FetchState::FetchNo);
    }

    fn change_state(&mut self, state: FetchState)
        ensures
            *final(self) == (SpriteFetcher { state, ready: false, ..*old(self) }),
    {
        self.state = state;
        self.ready = false;
    }

    /// Back to the start of a line: FIFO and its slots emptied, no fetch in progress.
    pub fn reset(&mut self)
        requires
            old(self).wf(),
        ensures
            final(self).wf(),
            final(self).fifo.len == 0,
            forall|i: int| 0 <= i < 8 ==> final(self).fifo.buffer@[i] is None,
            final(self).state == FetchState::FetchNo,
            final(self).done && !final(self).ready,
    {
        self.fifo.full_clear();
        self.state = FetchState::FetchNo;
        self.tile_no = 0;
        self.data_start_add = 0;
        self.data_low = 0;
        self.data_high = 0;
        self.ready = false;
        self.done = true;
    }

    /// Takes the next sprite pixel slot (None where no sprite pixel is queued).
    pub fn shift(&mut self) -> (r: Option<Pixel>)
        requires
            old(self).wf(),
        ensures
            final(self).wf(),
            final(self).done == old(self).done,
            final(self).state == old(self).state,
            old(self).fifo.len > 0 ==> r == old(self).fifo.buffer@[old(self).fifo.pop_i as int],
            old(self).fifo.len == 0 ==> r is None,
    {
        self.fifo.shift()
    }
}

} // verus!
