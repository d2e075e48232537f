use vstd::prelude::*;
use crate::bg_fetcher::BgFetcher;
use crate::bg_fetcher::FetchState;
use crate::fifo::Palette;
use crate::fifo::Pixel;
use crate::lcd::Lcd;
use crate::lcd::palette_entry;
use crate::mmu::Mmu;
use crate::oam::Sprite;
use crate::sprite_fetcher::SpriteFetcher;

verus! {

pub const SCREEN_WIDTH: usize = 160;

pub const SCREEN_HEIGHT: usize = 144;

/// Pixels in one frame.
pub const LCD_PIXELS: usize = 23040;

/// The frame the PPU draws into: 160x144 RGB pixels, row by row.
pub struct LcdBuffer {
    pub buffer: Vec<u32>,
    /// Set while the LCD is off, so that the host paints the screen white.
    pub cleared: bool,
}

#[derive(Clone, Copy, Debug, PartialEq, Eq, Structural)]
pub enum PpuState {
    OamSearch,
    PixelTransfer,
    HBlank,
    VBlank,
    Quirk,
}

/// RGB value of DMG shade `i`.
pub open spec fn shade_spec(i: u8) -> u32 {
    if i == 0 {
        0xFFFFFF
    } else if i == 1 {
        0xAAAAAA
    } else if i == 2 {
        0x555555
    } else {
        0x000000
    }
}

/// The STAT interrupt line: the OR of the enabled sources.
pub open spec fn stat_signal(lcd: Lcd, state: PpuState) -> bool {
    (lcd.stat & 0x40 != 0 && lcd.ly == lcd.lyc) || (lcd.stat & 0x20 != 0 && state == PpuState::OamSearch)
        || (lcd.stat & 0x10 != 0 && state == PpuState::VBlank) || (lcd.stat & 0x08 != 0 && state
        == PpuState::HBlank)
}

/// The sprite's rows cover line `ly` and it is not parked at x = 0.
pub open spec fn on_line(s: Sprite, ly: u8, height: u8) -> bool {
    s.x_position > 0 && s.y_position <= ly + 16 < s.y_position + height
}

/// The colour shown for a background pixel and an optional sprite pixel. With the
/// background off, the background pixel counts as colour 0 (white), also for priority.
pub open spec fn mixed_color(lcd: Lcd, bg: Pixel, sprite: Option<Pixel>) -> u32 {
    let bg_color = if lcd.lcdc & 0x01 != 0 { shade_spec(palette_entry(lcd.bgp, bg.color)) } else { 0xFFFFFF };
    match sprite {
        Some(sp) => if lcd.lcdc & 0x02 == 0 || sp.color == 0 || (sp.bg_priority && lcd.lcdc & 0x01 != 0
            && bg.color > 0) {
            bg_color
        } else if sp.palette == Palette::OBP1 {
            shade_spec(palette_entry(lcd.obp1, sp.color))
        } else {
            shade_spec(palette_entry(lcd.obp0, sp.color))
        },
        None => bg_color,
    }
}

/// The STAT check at the start of a T-cycle (see `Ppu::handle_stat`).
pub open spec fn stat_post(p0: Ppu, m0: &Mmu, p1: Ppu, m1: &Mmu) -> bool {
    let sig = stat_signal(m0.io.lcd, p0.state);
    &&& video_only(m0, m1)
    &&& m1.io.lcd == m0.io.lcd
    &&& p1 == (Ppu { old_stat: sig, ..p0 })
    &&& m1.io.if_flag == if sig && !p0.old_stat { m0.io.if_flag | 0x02 } else { m0.io.if_flag }
}

/// The LCD registers after entering `state` (its STAT mode bits).
pub open spec fn lcd_after_state(lcd: Lcd, state: PpuState) -> Lcd {
    match state {
        PpuState::OamSearch => lcd.with_mode(2),
        PpuState::PixelTransfer => lcd.with_mode(3),
        PpuState::HBlank => lcd.with_mode(0),
        PpuState::VBlank => lcd.with_mode(1),
        PpuState::Quirk => lcd,
    }
}

/// One OAM-search T-cycle: on odd cycles below 80, OAM entry `ticks / 2` is kept if it
/// is on this line and fewer than ten are kept; at cycle 80 the pixel transfer starts,
/// latching whether LY == WY.
pub open spec fn oam_post(p0: Ppu, m0: &Mmu, p1: Ppu, m1: &Mmu) -> bool {
    let id = (p0.ticks / 2) as u8;
    let s = m0.oam.sprite_spec(id);
    let lcd = m0.io.lcd;
    let height: u8 = if lcd.lcdc & 0x04 != 0 { 16 } else { 8 };
    &&& video_only(m0, m1)
    &&& m1.io.if_flag == m0.io.if_flag
    &&& m1.io.lcd.ly == lcd.ly
    &&& p1.sprites@ == if p0.ticks % 2 == 1 && p0.ticks < 80 && p0.sprites@.len() < 10 && on_line(s, lcd.ly, height) {
        p0.sprites@.push(s)
    } else {
        p0.sprites@
    }
    &&& p0.ticks == 80 ==> m1.io.lcd == lcd.with_mode(3) && p1 == (Ppu {
        state: PpuState::PixelTransfer,
        sprites: p1.sprites,
        wy_equal_ly: p0.wy_equal_ly || lcd.ly == lcd.wy,
        ..p0
    })
    &&& p0.ticks != 80 ==> *m1 == *m0 && p1 == (Ppu { sprites: p1.sprites, ..p0 })
}

/// The background fetcher at the start of a line.
pub open spec fn bg_fresh(f: BgFetcher) -> bool {
    f.wf() && f.fifo.view().len() == 0 && f.state == FetchState::FetchNo && f.x_counter == 0 && !f.window
        && !f.ready
}

/// The sprite fetcher at the start of a line.
pub open spec fn sprite_fresh(f: SpriteFetcher) -> bool {
    &&& f.wf()
    &&& f.fifo.len == 0
    &&& forall|i: int| 0 <= i < 8 ==> f.fifo.buffer@[i] is None
    &&& f.state == FetchState::FetchNo
    &&& f.done && !f.ready
}

/// `q` is `p` with the per-line state cleared: no kept sprites, no sprite in fetch,
/// x and the discard count at 0, no window yet, both fetchers at their start.
pub open spec fn line_cleared(p: Ppu, q: Ppu) -> bool {
    &&& q == (Ppu {
        sprites: q.sprites,
        current_sprite: None,
        bg_fetcher: q.bg_fetcher,
        sprite_fetcher: q.sprite_fetcher,
        discarded_pixels: 0,
        window_line: false,
        x_position: 0,
        ..p
    })
    &&& q.sprites@.len() == 0
    &&& bg_fresh(q.bg_fetcher)
    &&& sprite_fresh(q.sprite_fetcher)
}

/// One HBlank T-cycle: at cycle 456 of the line, LY goes up and the next line (or VBlank
/// after line 143) starts.
pub open spec fn hblank_post(p0: Ppu, m0: &Mmu, p1: Ppu, m1: &Mmu) -> bool {
    &&& video_only(m0, m1)
    &&& m1.io.if_flag == m0.io.if_flag
    &&& p0.ticks < 456 ==> p1 == p0 && *m1 == *m0
    &&& p0.ticks >= 456 ==> m1.io.lcd.ly == (m0.io.lcd.ly + 1) % 256
    &&& p0.ticks >= 456 && m0.io.lcd.ly < 143 ==> line_cleared(Ppu { state: PpuState::OamSearch, ticks: 0, ..p0 }, p1)
    &&& p0.ticks >= 456 && m0.io.lcd.ly >= 143 ==> p1 == (Ppu { state: PpuState::VBlank, ticks: 0, ..p0 })
}

/// One VBlank T-cycle: VBlank is requested on its first cycle, LY goes up every 456,
/// and line 153 is handed to the quirk.
pub open spec fn vblank_post(p0: Ppu, m0: &Mmu, p1: Ppu, m1: &Mmu) -> bool {
    &&& video_only(m0, m1)
    &&& m1.io.if_flag == if p0.ticks == 1 { m0.io.if_flag | 0x01 } else { m0.io.if_flag }
    &&& m1.io.lcd.ly == if p0.ticks % 456 == 0 { (m0.io.lcd.ly + 1) % 256 } else { m0.io.lcd.ly as int }
    &&& p1 == if m1.io.lcd.ly == 153 {
        Ppu { state: PpuState::Quirk, ticks: 0, ..p0 }
    } else {
        Ppu { state: PpuState::VBlank, ..p0 }
    }
}

/// One T-cycle of line 153: LY reads 0 from its fourth cycle; at cycle 456 the frame
/// restarts with OAM search of line 0.
pub open spec fn quirk_post(p0: Ppu, m0: &Mmu, p1: Ppu, m1: &Mmu) -> bool {
    &&& video_only(m0, m1)
    &&& m1.io.if_flag == m0.io.if_flag
    &&& p0.ticks == 4 ==> p1 == p0 && m1.io.lcd.ly == 0
    &&& p0.ticks >= 456 ==> m1.io.lcd.ly == 0 && line_cleared(
        Ppu {
            state: PpuState::OamSearch,
            ticks: 0,
            wy_equal_ly: false,
            window_line_counter: 0,
            needs_reset: false,
            ..p0
        },
        p1,
    )
    &&& p0.ticks != 4 && p0.ticks < 456 ==> p1 == p0 && *m1 == *m0
}

/// Every field but the two fetchers is the same in `p0` and `p1`.
pub open spec fn same_but_fetchers(p0: Ppu, p1: Ppu) -> bool {
    p1 == (Ppu { bg_fetcher: p1.bg_fetcher, sprite_fetcher: p1.sprite_fetcher, ..p0 })
}

/// Whether kept sprite `i` starts at or before x + 8.
pub open spec fn sprite_due(p: Ppu, i: int) -> bool {
    p.sprites@[i].x_position <= p.x_position + 8
}

/// Sprite selection: with the sprite fetcher idle, the first due sprite is taken out
/// of the list and its fetch starts; the background fetch restarts.
pub open spec fn select_post(p0: Ppu, p1: Ppu) -> bool {
    if p0.sprite_fetcher.done && exists|i: int| 0 <= i < p0.sprites@.len() && sprite_due(p0, i) {
        exists|i: int|
            0 <= i < p0.sprites@.len() && sprite_due(p0, i) && (forall|j: int| 0 <= j < i ==> !sprite_due(p0, j))
                && p1.sprites@ == p0.sprites@.remove(i) && p1 == (Ppu {
                sprites: p1.sprites,
                current_sprite: Some(p0.sprites@[i]),
                sprite_fetcher: SpriteFetcher { done: false, ..p0.sprite_fetcher },
                bg_fetcher: BgFetcher { state: FetchState::FetchNo, ready: false, ..p0.bg_fetcher },
                ..p0
            })
    } else {
        p1 == (Ppu { sprites: p1.sprites, ..p0 }) && p1.sprites@ == p0.sprites@
    }
}

/// The window starts on this line at this pixel.
pub open spec fn window_opens(p: Ppu, lcd: Lcd) -> bool {
    lcd.lcdc & 0x20 != 0 && p.wy_equal_ly && p.x_position + 7 >= lcd.wx && !p.window_line
}

/// After sprite selection (`mid`), the background fetcher (restarted in window mode as
/// `w` when the window opens) or the sprite fetcher takes one tick.
pub open spec fn fetch_tail(mid: Ppu, m: &Mmu, p1: Ppu, w: BgFetcher) -> bool {
    let lcd = m.io.lcd;
    if mid.sprite_fetcher.done {
        &&& p1 == (Ppu { bg_fetcher: p1.bg_fetcher, window_line: mid.window_line || window_opens(mid, lcd), ..mid })
        &&& window_opens(mid, lcd) ==> w.wf() && w.window && w.fifo.view().len() == 0 && w.state == FetchState::FetchNo
            && w.x_counter == 0
        &&& !window_opens(mid, lcd) ==> w == mid.bg_fetcher
        &&& BgFetcher::tick_post(w, p1.bg_fetcher, m, mid.window_line_counter)
    } else {
        &&& p1 == (Ppu { sprite_fetcher: p1.sprite_fetcher, ..mid })
        &&& match mid.current_sprite {
            Some(s) => SpriteFetcher::tick_post(mid.sprite_fetcher, p1.sprite_fetcher, m, s),
            None => p1.sprite_fetcher == mid.sprite_fetcher,
        }
    }
}

/// The fetch half of a pixel-transfer T-cycle.
pub open spec fn fetch_post(p0: Ppu, m: &Mmu, p1: Ppu) -> bool {
    exists|mid: Ppu, w: BgFetcher| select_post(p0, mid) && #[trigger] fetch_tail(mid, m, p1, w)
}

/// The sprite pixel that leaves the sprite FIFO with the next background pixel.
pub open spec fn sprite_head(f: SpriteFetcher) -> Option<Pixel> {
    if f.fifo.len > 0 { f.fifo.buffer@[f.fifo.pop_i as int] } else { None }
}

/// The output half of a pixel-transfer T-cycle. When the sprite fetcher is idle and the
/// background FIFO has a pixel, that pixel leaves the FIFO; it is discarded while fewer
/// than SCX % 8 have been (outside the window), else it is mixed with the sprite FIFO's
/// head and drawn at x + 160 * LY, and x moves on.
pub open spec fn emit_post(p0: Ppu, m: &Mmu, b0: Seq<u32>, p1: Ppu, b1: Seq<u32>) -> bool {
    let lcd = m.io.lcd;
    let q = p0.bg_fetcher.fifo.view();
    if !p0.sprite_fetcher.done || q.len() == 0 {
        p1 == p0 && b1 == b0
    } else {
        let bg = q[0];
        let sp = sprite_head(p0.sprite_fetcher);
        let idx = p0.x_position + 160 * lcd.ly;
        &&& p1.bg_fetcher.same_regs(&p0.bg_fetcher)
        &&& p1.bg_fetcher.fifo.view() == q.drop_first()
        &&& p1 == (Ppu {
            bg_fetcher: p1.bg_fetcher,
            sprite_fetcher: p1.sprite_fetcher,
            x_position: p1.x_position,
            discarded_pixels: p1.discarded_pixels,
            ..p0
        })
        &&& if p0.window_line || p0.discarded_pixels >= lcd.scx % 8 {
            &&& p1.discarded_pixels == p0.discarded_pixels
            &&& p1.sprite_fetcher.done
            &&& if p0.x_position < 160 {
                &&& p1.x_position == p0.x_position + 1
                &&& b1 == if idx < LCD_PIXELS { b0.update(idx, mixed_color(lcd, bg, sp)) } else { b0 }
            } else {
                p1.x_position == p0.x_position && b1 == b0
            }
        } else {
            &&& p1.sprite_fetcher == p0.sprite_fetcher
            &&& p1.x_position == p0.x_position
            &&& b1 == b0
            &&& p1.discarded_pixels == if p0.discarded_pixels < 8 { p0.discarded_pixels + 1 } else { p0.discarded_pixels as int }
        }
    }
}

/// One pixel-transfer T-cycle: fetch, emit, and HBlank once the line's 160th pixel is out.
pub open spec fn transfer_post(p0: Ppu, m0: &Mmu, b0: Seq<u32>, p1: Ppu, m1: &Mmu, b1: Seq<u32>) -> bool {
    exists|a: Ppu, b: Ppu|
        fetch_post(p0, m0, a) && #[trigger] emit_post(a, m0, b0, b, b1) && (b.x_position == 160 ==> {
            &&& p1 == (Ppu {
                state: PpuState::HBlank,
                window_line_counter: if b.window_line { ((b.window_line_counter + 1) % 256) as u8 } else { b.window_line_counter },
                ..b
            })
            &&& m1.io.lcd == m0.io.lcd.with_mode(0)
            &&& video_only(m0, m1)
            &&& m1.io.if_flag == m0.io.if_flag
        }) && (b.x_position != 160 ==> p1 == b && *m1 == *m0)
}

/// The work of one T-cycle in the current mode.
pub open spec fn dispatch_post(p0: Ppu, m0: &Mmu, b0: Seq<u32>, p1: Ppu, m1: &Mmu, b1: Seq<u32>) -> bool {
    match p0.state {
        PpuState::OamSearch => oam_post(p0, m0, p1, m1) && b1 == b0,
        PpuState::PixelTransfer => transfer_post(p0, m0, b0, p1, m1, b1),
        PpuState::HBlank => hblank_post(p0, m0, p1, m1) && b1 == b0,
        PpuState::VBlank => vblank_post(p0, m0, p1, m1) && b1 == b0,
        PpuState::Quirk => quirk_post(p0, m0, p1, m1) && b1 == b0,
    }
}

/// One T-cycle with the LCD on: the line counter moves on, the STAT line is checked,
/// then the current mode does its work.
pub open spec fn cycle_post(p0: Ppu, m0: &Mmu, b0: Seq<u32>, p1: Ppu, m1: &Mmu, b1: Seq<u32>) -> bool {
    exists|pa: Ppu, ma: Mmu|
        stat_post(Ppu { ticks: ((p0.ticks + 1) % 65536) as u16, ..p0 }, m0, pa, &ma)
            && #[trigger] dispatch_post(pa, &ma, b0, p1, m1, b1)
}

/// `tr` is a run of T-cycles: each entry follows from the one before by `cycle_post`.
pub open spec fn is_run(tr: Seq<(Ppu, Mmu, Seq<u32>)>) -> bool {
    forall|i: int|
        0 <= i < tr.len() - 1 ==> #[trigger] cycle_post(tr[i].0, &tr[i].1, tr[i].2, tr[i + 1].0, &tr[i + 1].1, tr[i + 1].2)
}

/// `new_ticks` PPU T-cycles from `p0`, `m0`, `b0` to `p1`, `m1`, `b1` (see `Ppu::tick`).
pub open spec fn ppu_tick_post(p0: Ppu, m0: &Mmu, b0: &LcdBuffer, p1: Ppu, m1: &Mmu, b1: &LcdBuffer, new_ticks: u8) -> bool {
    &&& p1.wf()
    &&& video_only(m0, m1)
    &&& b1.buffer@.len() == LCD_PIXELS
    &&& m1.io.if_flag & 0xFC == m0.io.if_flag & 0xFC
    &&& m0.io.if_flag & m1.io.if_flag == m0.io.if_flag
    &&& m0.io.lcd.lcdc & 0x80 == 0 ==> b1.cleared && p1.needs_reset
        && *m1 == *m0 && b1.buffer == b0.buffer
    &&& m0.io.lcd.lcdc & 0x80 != 0 ==> exists|tr: Seq<(Ppu, Mmu, Seq<u32>)>| {
        &&& tr.len() == new_ticks + 1
        &&& is_run(tr)
        &&& tr.last() == (p1, *m1, b1.buffer@)
        &&& !p0.needs_reset ==> tr[0] == (p0, *m0, b0.buffer@)
        &&& p0.needs_reset ==> tr[0].0.state == PpuState::OamSearch && tr[0].0.ticks == 0
            && tr[0].1.io.lcd.ly == 0 && tr[0].2 == b0.buffer@
    }
}

/// The picture processing unit.
pub struct Ppu {
    pub state: PpuState,
    pub sprites: Vec<Sprite>,
    pub current_sprite: Option<Sprite>,
    pub window_line_counter: u8,
    pub wy_equal_ly: bool,
    pub x_position: u8,
    pub discarded_pixels: u8,
    pub window_line: bool,
    pub old_stat: bool,
    pub bg_fetcher: BgFetcher,
    pub sprite_fetcher: SpriteFetcher,
    pub needs_reset: bool,
    pub ticks: u16,
}

/// The LCD registers and IF may change; the rest of the bus may not.
pub open spec fn video_only(old: &Mmu, new: &Mmu) -> bool {
    &&& new.wf()
    &&& new.cart == old.cart && new.vram == old.vram && new.wram == old.wram && new.oam == old.oam
    &&& new.hram == old.hram && new.ie_flag == old.ie_flag && new.dma == old.dma
    &&& new.io.joypad == old.io.joypad && new.io.timers == old.io.timers && new.io.i1 == old.io.i1
    &&& new.io.i2 == old.io.i2 && new.io.i3 == old.io.i3 && new.io.test == old.io.test
}

fn shade(i: u8) -> (r: u32)
    ensures
        r == shade_spec(i),
{
    if i == 0 {
        0xFFFFFF
    } else if i == 1 {
        0xAAAAAA
    } else if i == 2 {
        0x555555
    } else {
        0x000000
    }
}

impl Ppu {
    pub open spec fn wf(&self) -> bool {
        &&& self.sprites@.len() <= 10
        &&& self.x_position <= 160
        &&& self.bg_fetcher.wf()
        &&& self.sprite_fetcher.wf()
    }

    pub fn new() -> (r: Ppu)
        ensures
            r.wf(),
            r.state == PpuState::OamSearch,
            r.sprites@.len() == 0,
            r.ticks == 0,
            !r.old_stat,
    {
        Ppu {
            state: PpuState::OamSearch,
            sprites: Vec::new(),
            current_sprite: None,
            window_line_counter: 0,
            wy_equal_ly: false,
            x_position: 0,
            discarded_pixels: 0,
            window_line: false,
            old_stat: false,
            bg_fetcher: BgFetcher::new(),
            sprite_fetcher: SpriteFetcher::new(),
            needs_reset: false,
            ticks: 0,
        }
    }

    /// Requests the STAT interrupt on a rising edge of the STAT line.
    pub fn handle_stat(&mut self, mmu: &mut Mmu)
        requires
            old(mmu).wf(),
        ensures
            stat_post(*old(self), old(mmu), *final(self), final(mmu)),
    {
        let lcd: &Lcd = &mmu.io.lcd;
        let stat: bool = (lcd.ly_equal_lyc_stat_enabled() && lcd.get_ly() == lcd.get_lyc())
            || (lcd.oam_stat_enabled() && self.state == PpuState::OamSearch)
            || (lcd.vblank_stat_enabled() && self.state == PpuState::VBlank)
            || (lcd.hblank_stat_enabled() && self.state == PpuState::HBlank);
        if stat && !self.old_stat {
            mmu.io.request_lcd_stat_interrupt();
        }
        self.old_stat = stat;
    }

    /// Advances the PPU by `new_ticks` T-cycles. With the LCD on, the result is a run
    /// of `new_ticks` T-cycles (`cycle_post`) from the current state, or from line 0 when
    /// the LCD was just switched back on. It may request the VBlank and STAT interrupts
    /// (IF bits 0 and 1) and touches no other IF bit.
    pub fn tick(&mut self, mmu: &mut Mmu, buffer: &mut LcdBuffer, new_ticks: u8)
        requires
            old(self).wf(),
            old(mmu).wf(),
            old(buffer).buffer@.len() == LCD_PIXELS,
        ensures
            final(self).wf(),
            video_only(old(mmu), final(mmu)),
            final(buffer).buffer@.len() == LCD_PIXELS,
            ppu_tick_post(*old(self), old(mmu), old(buffer), *final(self), final(mmu), final(buffer), new_ticks),
    {
        proof {
            lemma_if_keep(old(mmu).io.if_flag, old(mmu).io.if_flag, 0);
        }
        if !mmu.io.lcd.is_display_enabled() {
            self.needs_reset = true;
            buffer.cleared = true;
            return;
        } else if self.needs_reset {
            self.reset(mmu);
        }
        let ghost start = *mmu;
        let ghost mut tr: Seq<(Ppu, Mmu, Seq<u32>)> = seq![(*self, *mmu, buffer.buffer@)];
        let mut remaining: u8 = new_ticks;
        while remaining > 0
            invariant
                self.wf(),
                mmu.wf(),
                video_only(&start, mmu),
                video_only(old(mmu), &start),
                buffer.buffer@.len() == LCD_PIXELS,
                buffer.cleared == old(buffer).cleared,
                mmu.io.if_flag & 0xFC == old(mmu).io.if_flag & 0xFC,
                old(mmu).io.if_flag & mmu.io.if_flag == old(mmu).io.if_flag,
                remaining <= new_ticks,
                tr.len() == new_ticks - remaining + 1,
                is_run(tr),
                tr.last() == (*self, *mmu, buffer.buffer@),
                !old(self).needs_reset ==> tr[0] == (*old(self), *old(mmu), old(buffer).buffer@),
                old(self).needs_reset ==> tr[0].0.state == PpuState::OamSearch && tr[0].0.ticks == 0
                    && tr[0].1.io.lcd.ly == 0 && tr[0].2 == old(buffer).buffer@,
            decreases remaining,
        {
            let ghost p0 = *self;
            let ghost m0 = *mmu;
            let ghost b0 = buffer.buffer@;
            self.ticks = self.ticks.wrapping_add(1);
            let ghost if0 = mmu.io.if_flag;
            self.handle_stat(mmu);
            proof {
                lemma_if_keep(old(mmu).io.if_flag, if0, 0x02);
                lemma_if_keep(old(mmu).io.if_flag, if0, 0);
            }
            let ghost pa = *self;
            let ghost ma = *mmu;
            let ghost if1 = mmu.io.if_flag;
            remaining = remaining - 1;
            match self.state {
                PpuState::OamSearch => self.oam_search(mmu),
                PpuState::PixelTransfer => self.pixel_transfer(mmu, buffer),
                PpuState::HBlank => self.h_blank(mmu),
                PpuState::VBlank => self.v_blank(mmu),
                PpuState::Quirk => self.quirk(mmu),
            }
            proof {
                lemma_if_keep(old(mmu).io.if_flag, if1, 0x01);
                lemma_if_keep(old(mmu).io.if_flag, if1, 0);
                assert(dispatch_post(pa, &ma, b0, *self, mmu, buffer.buffer@));
                assert(cycle_post(p0, &m0, b0, *self, mmu, buffer.buffer@));
                let ghost tr0 = tr;
                tr = tr.push((*self, *mmu, buffer.buffer@));
                assert(tr[0] == tr0[0]);
                assert(tr.last() == (*self, *mmu, buffer.buffer@));
                assert forall|i: int| 0 <= i < tr.len() - 1 implies #[trigger] cycle_post(tr[i].0, &tr[i].1, tr[i].2, tr[i + 1].0, &tr[i + 1].1, tr[i + 1].2) by {
                    if i < tr.len() - 2 {
                        assert(tr[i] == tr0[i] && tr[i + 1] == tr0[i + 1]);
                    }
                }
            }
        }
        assert(tr.last() == (*self, *mmu, buffer.buffer@));
    }

    /// One OAM-search T-cycle (see `oam_post`).
    fn oam_search(&mut self, mmu: &mut Mmu)
        requires
            old(self).wf(),
            old(mmu).wf(),
        ensures
            final(self).wf(),
            oam_post(*old(self), old(mmu), *final(self), final(mmu)),
    {
        if self.ticks % 2 == 1 && self.ticks < 80 && self.sprites.len() < 10 {
            let sprite_id: u8 = (self.ticks / 2) as u8;
            let sprite: Sprite = mmu.oam.get_sprite(sprite_id);
            let sprite_height: u16 = mmu.io.lcd.get_sprite_size() as u16;
            let ly: u16 = mmu.io.lcd.get_ly() as u16 + 16;
            if sprite.x_position > 0 && ly >= sprite.y_position as u16 && ly < sprite.y_position as u16 + sprite_height {
                self.sprites.push(sprite);
            }
        }
        if self.ticks == 80 {
            self.change_state(mmu, PpuState::PixelTransfer, false);
            if mmu.io.lcd.get_ly() == mmu.io.lcd.wy {
                self.wy_equal_ly = true;
            }
        }
    }

    fn handle_scanline_end(&mut self)
        ensures
            *final(self) == (Ppu {
                window_line_counter: if old(self).window_line {
                    ((old(self).window_line_counter + 1) % 256) as u8
                } else {
                    old(self).window_line_counter
                },
                ..*old(self)
            }),
    {
        if self.window_line {
            self.window_line_counter = self.window_line_counter.wrapping_add(1);
        }
    }

    /// Removes and returns the first kept sprite that starts at or before x + 8.
    fn get_current_sprite(&mut self) -> (r: Option<Sprite>)
        requires
            old(self).wf(),
        ensures
            final(self).wf(),
            *final(self) == (Ppu { sprites: final(self).sprites, ..*old(self) }),
            match r {
                Some(s) => exists|i: int|
                    0 <= i < old(self).sprites@.len() && old(self).sprites@[i] == s && s.x_position
                        <= old(self).x_position + 8 && final(self).sprites@ == old(self).sprites@.remove(i)
                        && forall|j: int| 0 <= j < i ==> old(self).sprites@[j].x_position > old(self).x_position + 8,
                None => final(self).sprites@ == old(self).sprites@ && forall|j: int|
                    0 <= j < old(self).sprites@.len() ==> old(self).sprites@[j].x_position > old(self).x_position + 8,
            },
    {
        let target: u16 = self.x_position as u16 + 8;
        let mut i: usize = 0;
        while i < self.sprites.len()
            invariant
                i <= self.sprites@.len(),
                *self == *old(self),
                self.wf(),
                forall|j: int| 0 <= j < i ==> self.sprites@[j].x_position > target,
                target == old(self).x_position + 8,
            decreases self.sprites@.len() - i,
        {
            if self.sprites[i].x_position as u16 <= target {
                let s: Sprite = self.sprites.remove(i);
                return Some(s);
            }
            i = i + 1;
        }
        None
    }

    /// The colour shown for a background pixel and an optional sprite pixel.
    fn merge_pixels(&self, mmu: &Mmu, bg_pixel: Pixel, sprite_pixel: Option<Pixel>) -> (r: u32)
        requires
            mmu.wf(),
            bg_pixel.color <= 3,
            sprite_pixel matches Some(p) ==> p.color <= 3,
        ensures
            r == mixed_color(mmu.io.lcd, bg_pixel, sprite_pixel),
    {
        let lcd: &Lcd = &mmu.io.lcd;
        let bg_color: u32 = if lcd.is_bg_window_enabled() {
            shade(lcd.get_bgp_index(bg_pixel.color))
        } else {
            0xFFFFFF
        };
        match sprite_pixel {
            Some(sp) => if !lcd.is_sprite_enabled() || sp.color == 0 || (sp.bg_priority
                && lcd.is_bg_window_enabled() && bg_pixel.color > 0) {
                bg_color
            } else if sp.palette == Palette::OBP1 {
                shade(lcd.get_obp1_index(sp.color))
            } else {
                shade(lcd.get_obp0_index(sp.color))
            },
            None => bg_color,
        }
    }

    /// When the sprite fetcher is idle and a kept sprite is due, takes it and starts
    /// fetching it (the background fetch restarts afterwards).
    fn select_sprite(&mut self)
        requires
            old(self).wf(),
        ensures
            final(self).wf(),
            select_post(*old(self), *final(self)),
    {
        if self.sprite_fetcher.done {
            let ghost p0 = *self;
            let taken: Option<Sprite> = self.get_current_sprite();
            if let Some(sprite) = taken {
                let ghost i = choose|i: int|
                    0 <= i < p0.sprites@.len() && p0.sprites@[i] == sprite && sprite.x_position <= p0.x_position + 8
                        && self.sprites@ == p0.sprites@.remove(i) && forall|j: int|
                        0 <= j < i ==> p0.sprites@[j].x_position > p0.x_position + 8;
                assert(sprite_due(p0, i));
                self.bg_fetcher.restart();
                self.current_sprite = Some(sprite);
                self.sprite_fetcher.done = false;
                assert(self.sprites@ == p0.sprites@.remove(i) && (forall|j: int| 0 <= j < i ==> !sprite_due(p0, j)));
                assert(exists|k: int| 0 <= k < p0.sprites@.len() && sprite_due(p0, k));
            } else {
                assert(forall|j: int| 0 <= j < p0.sprites@.len() ==> !sprite_due(p0, j));
            }
        }
    }

    /// The fetch half of a pixel-transfer T-cycle: exactly one fetcher takes a tick.
    fn fetch_phase(&mut self, mmu: &Mmu)
        requires
            old(self).wf(),
            mmu.wf(),
        ensures
            final(self).wf(),
            fetch_post(*old(self), mmu, *final(self)),
    {
        self.select_sprite();
        let ghost mid = *self;
        if self.sprite_fetcher.done {
            let wx: u16 = mmu.io.lcd.wx as u16;
            if mmu.io.lcd.is_window_enabled() && self.wy_equal_ly && self.x_position as u16 + 7 >= wx
                && !self.window_line {
                self.window_line = true;
                self.bg_fetcher.switch_to_window_mode();
            }
            let ghost w = self.bg_fetcher;
            self.bg_fetcher.tick(mmu, self.window_line_counter);
            assert(fetch_tail(mid, mmu, *self, w));
        } else if let Some(sprite) = self.current_sprite {
            self.sprite_fetcher.tick(mmu, &sprite);
            assert(fetch_tail(mid, mmu, *self, mid.bg_fetcher));
        } else {
            assert(fetch_tail(mid, mmu, *self, mid.bg_fetcher));
        }
    }

    /// The output half of a pixel-transfer T-cycle: discard a fine-scroll pixel, or mix
    /// and draw one.
    fn emit_phase(&mut self, mmu: &Mmu, buffer: &mut LcdBuffer)
        requires
            old(self).wf(),
            mmu.wf(),
            old(buffer).buffer@.len() == LCD_PIXELS,
        ensures
            final(self).wf(),
            final(buffer).buffer@.len() == LCD_PIXELS,
            final(buffer).cleared == old(buffer).cleared,
            emit_post(*old(self), mmu, old(buffer).buffer@, *final(self), final(buffer).buffer@),
    {
        if self.sprite_fetcher.done && self.bg_fetcher.fifo.len() > 0 {
            let pixel: Option<Pixel> = self.bg_fetcher.shift();
            if let Some(bg_pixel) = pixel {
                if self.window_line || self.discarded_pixels >= mmu.io.lcd.scx % 8 {
                    let sprite_pixel: Option<Pixel> = self.sprite_fetcher.shift();
                    if self.x_position < 160 {
                        let index: usize = self.x_position as usize + mmu.io.lcd.get_ly() as usize * SCREEN_WIDTH;
                        let color: u32 = self.merge_pixels(mmu, bg_pixel, sprite_pixel);
                        if index < buffer.buffer.len() {
                            buffer.buffer.set(index, color);
                        }
                        self.x_position = self.x_position + 1;
                    }
                } else if self.discarded_pixels < 8 {
                    self.discarded_pixels = self.discarded_pixels + 1;
                }
            }
        }
    }

    /// One T-cycle of pixel transfer: fetch, then emit; after the 160th pixel, HBlank.
    fn pixel_transfer(&mut self, mmu: &mut Mmu, buffer: &mut LcdBuffer)
        requires
            old(self).wf(),
            old(mmu).wf(),
            old(buffer).buffer@.len() == LCD_PIXELS,
        ensures
            final(self).wf(),
            final(buffer).buffer@.len() == LCD_PIXELS,
            final(buffer).cleared == old(buffer).cleared,
            transfer_post(*old(self), old(mmu), old(buffer).buffer@, *final(self), final(mmu), final(buffer).buffer@),
    {
        self.fetch_phase(mmu);
        let ghost a = *self;
        self.emit_phase(mmu, buffer);
        let ghost b = *self;
        if self.x_position == 160 {
            self.handle_scanline_end();
            self.change_state(mmu, PpuState::HBlank, false);
        }
        assert(fetch_post(*old(self), old(mmu), a));
        assert(emit_post(a, old(mmu), old(buffer).buffer@, b, buffer.buffer@));
    }

    /// At 456 T-cycles into the line: next line, and OAM search or VBlank after line 143.
    fn h_blank(&mut self, mmu: &mut Mmu)
        requires
            old(self).wf(),
            old(mmu).wf(),
        ensures
            final(self).wf(),
            hblank_post(*old(self), old(mmu), *final(self), final(mmu)),
    {
        if self.ticks >= 456 {
            let new_state: PpuState = if mmu.io.lcd.get_ly() < 143 {
                PpuState::OamSearch
            } else {
                PpuState::VBlank
            };
            mmu.io.lcd.inc_ly(1);
            self.change_state(mmu, new_state, true);
        }
    }

    /// Requests VBlank on its first T-cycle; one line every 456; Quirk at line 153.
    fn v_blank(&mut self, mmu: &mut Mmu)
        requires
            old(self).wf(),
            old(mmu).wf(),
            old(self).state == PpuState::VBlank,
        ensures
            final(self).wf(),
            vblank_post(*old(self), old(mmu), *final(self), final(mmu)),
    {
        if self.ticks == 1 {
            mmu.io.request_vblank_interrupt();
        }
        if self.ticks % 456 == 0 {
            mmu.io.lcd.inc_ly(1);
        }
        if mmu.io.lcd.get_ly() == 153 {
            self.change_state(mmu, PpuState::Quirk, true);
        }
    }

    /// One T-cycle of line 153 (see `quirk_post`).
    fn quirk(&mut self, mmu: &mut Mmu)
        requires
            old(self).wf(),
            old(mmu).wf(),
            old(self).state == PpuState::Quirk,
        ensures
            final(self).wf(),
            quirk_post(*old(self), old(mmu), *final(self), final(mmu)),
    {
        if self.ticks == 4 {
            mmu.io.lcd.set_ly(0);
        } else if self.ticks >= 456 {
            self.reset(mmu);
        }
    }

    fn change_state(&mut self, mmu: &mut Mmu, state: PpuState, reset_ticks: bool)
        requires
            old(self).wf(),
            old(mmu).wf(),
        ensures
            final(self).wf(),
            final(self).state == state,
            final(self).ticks == if reset_ticks { 0 } else { old(self).ticks },
            ({
                let moved = Ppu { state, ticks: if reset_ticks { 0 } else { old(self).ticks }, ..*old(self) };
                &&& state == PpuState::OamSearch ==> line_cleared(moved, *final(self))
                &&& state != PpuState::OamSearch ==> *final(self) == moved
            }),
            final(mmu).io.lcd == lcd_after_state(old(mmu).io.lcd, state),
            video_only(old(mmu), final(mmu)),
            final(mmu).io.if_flag == old(mmu).io.if_flag,
    {
        self.state = state;
        if reset_ticks {
            self.ticks = 0;
        }
        match state {
            PpuState::OamSearch => {
                self.line_reset();
                mmu.io.lcd.set_oam_ppu_mode();
            },
            PpuState::PixelTransfer => mmu.io.lcd.set_draw_ppu_mode(),
            PpuState::HBlank => mmu.io.lcd.set_hblank_ppu_mode(),
            PpuState::VBlank => mmu.io.lcd.set_vblank_ppu_mode(),
            PpuState::Quirk => {},
        }
    }

    /// Clears the per-line state.
    fn line_reset(&mut self)
        requires
            old(self).wf(),
        ensures
            final(self).wf(),
            line_cleared(*old(self), *final(self)),
    {
        self.sprites.clear();
        self.current_sprite = None;
        self.bg_fetcher.reset();
        self.sprite_fetcher.reset();
        self.discarded_pixels = 0;
        self.window_line = false;
        self.x_position = 0;
    }

    /// Back to line 0 and OAM search (end of frame, or LCD switched back on).
    fn reset(&mut self, mmu: &mut Mmu)
        requires
            old(self).wf(),
            old(mmu).wf(),
        ensures
            final(self).wf(),
            final(self).state == PpuState::OamSearch,
            final(self).ticks == 0,
            final(self).sprites@.len() == 0 && final(self).x_position == 0,
            final(self).window_line_counter == 0,
            line_cleared(
                Ppu {
                    state: PpuState::OamSearch,
                    ticks: 0,
                    wy_equal_ly: false,
                    window_line_counter: 0,
                    needs_reset: false,
                    ..*old(self)
                },
                *final(self),
            ),
            final(mmu).io.lcd.ly == 0,
            final(mmu).io.if_flag == old(mmu).io.if_flag,
            video_only(old(mmu), final(mmu)),
    {
        self.change_state(mmu, PpuState::OamSearch, true);
        self.line_reset();
        self.wy_equal_ly = false;
        mmu.io.lcd.set_ly(0);
        self.window_line_counter = 0;
        self.needs_reset = false;
    }
}

/// Setting IF bit 0 or 1 leaves bits 2 to 7 alone and clears no bit.
proof fn lemma_if_keep(x: u8, y: u8, b: u8)
    requires
        b == 0 || b == 1 || b == 2,
    ensures
        (y | b) & 0xFC == y & 0xFC,
        x & y == x ==> x & (y | b) == x,
        y | 0 == y,
        x & x == x,
{
    assert((y | b) & 0xFC == y & 0xFC && (x & y == x ==> x & (y | b) == x) && y | 0 == y && x & x == x) by (bit_vector)
        requires
            b == 0 || b == 1 || b == 2,
    ;
}

/// The OAM scan never keeps more than ten sprites for a line.
pub proof fn lemma_oam_scan_bound(p: &Ppu)
    requires
        p.wf(),
    ensures
        p.sprites@.len() <= 10,
{
}

/// Along every run of PPU T-cycles that starts with at most ten kept sprites, no state
/// keeps more than ten.
pub proof fn lemma_run_sprite_bound(tr: Seq<(Ppu, Mmu, Seq<u32>)>)
    requires
        tr.len() > 0,
        is_run(tr),
        tr[0].0.sprites@.len() <= 10,
    ensures
        forall|i: int| 0 <= i < tr.len() ==> #[trigger] tr[i].0.sprites@.len() <= 10,
    decreases tr.len(),
{
    if tr.len() > 1 {
        let front = tr.drop_last();
        assert forall|i: int| 0 <= i < front.len() - 1 implies #[trigger] cycle_post(front[i].0, &front[i].1, front[i].2, front[i + 1].0, &front[i + 1].1, front[i + 1].2) by {
            assert(cycle_post(tr[i].0, &tr[i].1, tr[i].2, tr[i + 1].0, &tr[i + 1].1, tr[i + 1].2));
        }
        lemma_run_sprite_bound(front);
        let k = tr.len() - 2;
        assert(front[k] == tr[k]);
        assert(cycle_post(tr[k].0, &tr[k].1, tr[k].2, tr[k + 1].0, &tr[k + 1].1, tr[k + 1].2));
        lemma_cycle_sprite_bound(tr[k].0, &tr[k].1, tr[k].2, tr[k + 1].0, &tr[k + 1].1, tr[k + 1].2);
        assert forall|i: int| 0 <= i < tr.len() implies #[trigger] tr[i].0.sprites@.len() <= 10 by {
            if i < tr.len() - 1 {
                assert(tr[i] == front[i]);
            }
        }
    }
}

/// One T-cycle keeps the bound of ten sprites.
pub proof fn lemma_cycle_sprite_bound(p0: Ppu, m0: &Mmu, b0: Seq<u32>, p1: Ppu, m1: &Mmu, b1: Seq<u32>)
    requires
        cycle_post(p0, m0, b0, p1, m1, b1),
        p0.sprites@.len() <= 10,
    ensures
        p1.sprites@.len() <= 10,
{
    let (pa, ma) = choose|pa: Ppu, ma: Mmu|
        stat_post(Ppu { ticks: ((p0.ticks + 1) % 65536) as u16, ..p0 }, m0, pa, &ma)
            && #[trigger] dispatch_post(pa, &ma, b0, p1, m1, b1);
    if pa.state == PpuState::PixelTransfer {
        let (a, b) = choose|a: Ppu, b: Ppu|
            fetch_post(pa, &ma, a) && #[trigger] emit_post(a, &ma, b0, b, b1) && (b.x_position == 160 ==> {
                &&& p1 == (Ppu {
                    state: PpuState::HBlank,
                    window_line_counter: if b.window_line { ((b.window_line_counter + 1) % 256) as u8 } else { b.window_line_counter },
                    ..b
                })
                &&& m1.io.lcd == ma.io.lcd.with_mode(0)
                &&& video_only(&ma, m1)
                &&& m1.io.if_flag == ma.io.if_flag
            }) && (b.x_position != 160 ==> p1 == b && *m1 == ma);
        let (mid, w) = choose|mid: Ppu, w: BgFetcher| select_post(pa, mid) && #[trigger] fetch_tail(mid, &ma, a, w);
        if pa.sprite_fetcher.done && exists|i: int| 0 <= i < pa.sprites@.len() && sprite_due(pa, i) {
            let i = choose|i: int|
                0 <= i < pa.sprites@.len() && sprite_due(pa, i) && (forall|j: int| 0 <= j < i ==> !sprite_due(pa, j))
                    && mid.sprites@ == pa.sprites@.remove(i) && mid == (Ppu {
                    sprites: mid.sprites,
                    current_sprite: Some(pa.sprites@[i]),
                    sprite_fetcher: SpriteFetcher { done: false, ..pa.sprite_fetcher },
                    bg_fetcher: BgFetcher { state: FetchState::FetchNo, ready: false, ..pa.bg_fetcher },
                    ..pa
                });
            assert(mid.sprites@.len() < 10);
        }
    }
}

} // verus!
