use vstd::prelude::*;

verus! {

/// Which palette a pixel is drawn with.
#[derive(Clone, Copy, Debug, PartialEq, Eq, Structural)]
pub enum Palette {
    OBP0,
    OBP1,
    BGP,
}

/// A pixel as the fetchers produce it: a 2-bit colour number and its palette.
#[derive(Clone, Copy, Debug, PartialEq, Eq, Structural)]
pub struct Pixel {
    pub color: u8,
    pub palette: Palette,
    pub priority: bool,
    pub bg_priority: bool,
}

/// A bounded ring buffer of pixels.
pub struct StandardPixelFifo {
    pub buffer: Vec<Option<Pixel>>,
    pub capacity: u8,
    pub push_i: u8,
    pub pop_i: u8,
    pub len: u8,
}

/// A ring buffer for sprite pixels: a push keeps a pixel already in its slot unless
/// that pixel has colour 0, so earlier sprites win over later ones.
pub struct MergePixelFifo {
    pub buffer: Vec<Option<Pixel>>,
    pub capacity: u8,
    pub push_i: u8,
    pub pop_i: u8,
    pub len: u8,
}

pub open spec fn ring_wf(buffer: Seq<Option<Pixel>>, capacity: u8, push_i: u8, pop_i: u8, len: u8) -> bool {
    &&& capacity > 0
    &&& buffer.len() == capacity
    &&& push_i < capacity && pop_i < capacity && len <= capacity
    &&& push_i == fold(pop_i + len, capacity as int)
}

/// The pixel a push into a merge slot leaves there.
pub open spec fn merged(old: Option<Pixel>, pixel: Pixel) -> Option<Pixel> {
    match old {
        Some(p) => if p.color == 0 {
            Some(pixel)
        } else {
            old
        },
        None => Some(pixel),
    }
}

/// `x` folded into `0..cap`, for `x < 2 * cap`.
pub open spec fn fold(x: int, cap: int) -> int {
    if x < cap {
        x
    } else {
        x - cap
    }
}

fn next_index(i: u8, cap: u8) -> (r: u8)
    requires
        i < cap,
    ensures
        r == fold(i + 1, cap as int),
        r < cap,
{
    if i + 1 == cap {
        0
    } else {
        i + 1
    }
}

fn none_slots(capacity: u8) -> (r: Vec<Option<Pixel>>)
    ensures
        r@.len() == capacity,
        forall|i: int| 0 <= i < capacity ==> r@[i] is None,
{
    let mut v: Vec<Option<Pixel>> = Vec::new();
    let mut i: u8 = 0;
    while i < capacity
        invariant
            i <= capacity,
            v@.len() == i,
            forall|j: int| 0 <= j < i ==> v@[j] is None,
        decreases capacity - i,
    {
        v.push(None);
        i = i + 1;
    }
    v
}

impl StandardPixelFifo {
    pub open spec fn wf(&self) -> bool {
        &&& ring_wf(self.buffer@, self.capacity, self.push_i, self.pop_i, self.len)
        &&& forall|i: int| 0 <= i < self.len ==> (#[trigger] self.buffer@[fold(self.pop_i + i, self.capacity as int)]) is Some
    }

    /// The queued pixels, oldest first.
    pub open spec fn view(&self) -> Seq<Pixel> {
        Seq::new(self.len as nat, |i: int| self.buffer@[fold(self.pop_i + i, self.capacity as int)]->Some_0)
    }

    pub fn with_capacity(capacity: u8) -> (r: StandardPixelFifo)
        requires
            capacity > 0,
        ensures
            r.wf(),
            r.capacity == capacity,
            r.view().len() == 0,
    {
        StandardPixelFifo { buffer: none_slots(capacity), capacity, len: 0, push_i: 0, pop_i: 0 }
    }

    /// Appends `pixel`; does nothing when full.
    pub fn push(&mut self, pixel: Pixel)
        requires
            old(self).wf(),
        ensures
            final(self).wf(),
            final(self).capacity == old(self).capacity,
            final(self).view() == if old(self).len < old(self).capacity {
                old(self).view().push(pixel)
            } else {
                old(self).view()
            },
    {
        if self.len < self.capacity {
            let ghost old_view = self.view();
            let i: u8 = self.push_i;
            self.buffer.set(i as usize, Some(pixel));
            self.push_i = next_index(self.push_i, self.capacity);
            self.len = self.len + 1;
            proof {
                let cap = self.capacity as int;
                assert forall|k: int| 0 <= k < self.len implies (#[trigger] self.buffer@[fold(self.pop_i + k, cap)]) is Some by {
                    if k < self.len - 1 {
                        assert(old(self).buffer@[fold(self.pop_i + k, cap)] is Some);
                    }
                }
                assert(self.view() =~= old_view.push(pixel));
            }
        }
    }

    /// Removes and returns the oldest pixel, if any.
    pub fn shift(&mut self) -> (r: Option<Pixel>)
        requires
            old(self).wf(),
        ensures
            final(self).wf(),
            final(self).capacity == old(self).capacity,
            old(self).view().len() == 0 ==> r is None && final(self).view() == old(self).view(),
            old(self).view().len() > 0 ==> r == Some(old(self).view()[0]) && final(self).view()
                == old(self).view().drop_first(),
    {
        let mut res: Option<Pixel> = None;
        if self.len > 0 {
            let ghost old_view = self.view();
            let p: u8 = self.pop_i;
            res = self.buffer[p as usize];
            assert(res == self.buffer@[fold(self.pop_i + 0, self.capacity as int)]);
            self.buffer.set(p as usize, None);
            self.pop_i = next_index(self.pop_i, self.capacity);
            self.len = self.len - 1;
            proof {
                let cap = self.capacity as int;
                let p0 = p as int;
                assert forall|k: int| 0 <= k < self.len implies (#[trigger] self.buffer@[fold(self.pop_i + k, cap)]) == old(self).buffer@[fold(p0 + (k + 1), cap)] by {
                    assert(old(self).buffer@[fold(p0 + (k + 1), cap)] is Some);
                }
                assert(self.view() =~= old_view.drop_first());
            }
        }
        res
    }

    pub fn clear(&mut self)
        requires
            old(self).wf(),
        ensures
            final(self).wf(),
            final(self).capacity == old(self).capacity,
            final(self).view().len() == 0,
    {
        self.push_i = 0;
        self.pop_i = 0;
        self.len = 0;
    }

    pub fn len(&self) -> (r: u8)
        requires
            self.wf(),
        ensures
            r == self.view().len(),
    {
        self.len
    }
}

impl MergePixelFifo {
    pub open spec fn wf(&self) -> bool {
        ring_wf(self.buffer@, self.capacity, self.push_i, self.pop_i, self.len)
    }

    pub fn with_capacity(capacity: u8) -> (r: MergePixelFifo)
        requires
            capacity > 0,
        ensures
            r.wf(),
            r.capacity == capacity,
            r.len == 0,
            forall|i: int| 0 <= i < capacity ==> r.buffer@[i] is None,
    {
        MergePixelFifo { buffer: none_slots(capacity), capacity, len: 0, push_i: 0, pop_i: 0 }
    }

    /// Empties the queue and every slot.
    pub fn full_clear(&mut self)
        requires
            old(self).wf(),
        ensures
            final(self).wf(),
            final(self).capacity == old(self).capacity,
            final(self).len == 0,
            forall|i: int| 0 <= i < final(self).capacity ==> final(self).buffer@[i] is None,
    {
        self.clear();
        let mut i: u8 = 0;
        while i < self.capacity
            invariant
                self.wf(),
                self.capacity == old(self).capacity,
                self.len == 0,
                i <= self.capacity,
                forall|j: int| 0 <= j < i ==> self.buffer@[j] is None,
            decreases self.capacity - i,
        {
            self.buffer.set(i as usize, None);
            i = i + 1;
        }
    }

    /// Merges `pixel` into the next slot; does nothing when full.
    pub fn push(&mut self, pixel: Pixel)
        requires
            old(self).wf(),
        ensures
            final(self).wf(),
            final(self).capacity == old(self).capacity,
            final(self).pop_i == old(self).pop_i,
            old(self).len < old(self).capacity ==> final(self).len == old(self).len + 1
                && final(self).buffer@ == old(self).buffer@.update(
                old(self).push_i as int,
                merged(old(self).buffer@[old(self).push_i as int], pixel),
            ),
            old(self).len >= old(self).capacity ==> final(self).len == old(self).len
                && final(self).buffer@ == old(self).buffer@,
    {
        if self.len < self.capacity {
            let i: usize = self.push_i as usize;
            let new_pixel: Option<Pixel> = match self.buffer[i] {
                Some(old_pixel) => if old_pixel.color == 0 {
                    Some(pixel)
                } else {
                    Some(old_pixel)
                },
                None => Some(pixel),
            };
            self.buffer.set(i, new_pixel);
            self.push_i = next_index(self.push_i, self.capacity);
            self.len = self.len + 1;
        }
    }

    /// Removes and returns the pixel in the oldest slot, emptying that slot.
    pub fn shift(&mut self) -> (r: Option<Pixel>)
        requires
            old(self).wf(),
        ensures
            final(self).wf(),
            final(self).capacity == old(self).capacity,
            old(self).len == 0 ==> r is None && final(self).buffer@ == old(self).buffer@
                && final(self).len == 0,
            old(self).len > 0 ==> r == old(self).buffer@[old(self).pop_i as int] && final(self).len
                == old(self).len - 1 && final(self).buffer@ == old(self).buffer@.update(
                old(self).pop_i as int,
                None,
            ),
    {
        let mut res: Option<Pixel> = None;
        if self.len > 0 {
            let p: usize = self.pop_i as usize;
            res = self.buffer[p];
            self.buffer.set(p, None);
            self.pop_i = next_index(self.pop_i, self.capacity);
            self.len = self.len - 1;
        }
        res
    }

    /// Empties the queue but keeps the slots' pixels, rewinding to the oldest one
    /// so that new pushes merge over them.
    pub fn clear(&mut self)
        requires
            old(self).wf(),
        ensures
            final(self).wf(),
            final(self).capacity == old(self).capacity,
            final(self).buffer@ == old(self).buffer@,
            final(self).len == 0,
            final(self).push_i == old(self).pop_i,
            final(self).pop_i == old(self).pop_i,
    {
        self.push_i = if self.len > self.push_i {
            self.capacity - (self.len - self.push_i)
        } else {
            self.push_i - self.len
        };
        self.pop_i = self.push_i;
        self.len = 0;
    }

    pub fn len(&self) -> (r: u8)
        ensures
            r == self.len,
    {
        self.len
    }
}

} // verus!
