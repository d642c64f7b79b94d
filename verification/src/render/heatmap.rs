//! Gravitational field heatmap cache (terminal cells).
//!
//! The cache decides when the raster is stale and fills sample blocks; the
//! field strength of each sample is measured by the caller.

use vstd::prelude::*;

use crate::render::grid::{lemma_row_major, lemma_row_major_bounds, lemma_row_major_distinct};

verus! {

/// One heatmap cell: a shade character and its color.
#[derive(Debug, Clone, Copy, PartialEq, Eq)]
pub struct HeatmapCell {
    pub ch: char,
    pub rgb: [u8; 3],
}

/// Cached heatmap raster (terminal cells), row by row.
#[derive(Debug)]
pub struct HeatmapCache {
    cells: Vec<Option<HeatmapCell>>,
    width: u16,
    height: u16,
    frames_since_rebuild: u32,
}

/// What a frame does with the heatmap.
#[derive(Debug, Clone, Copy, PartialEq, Eq, Structural)]
pub enum RebuildDecision {
    /// Too many bodies at a low frame rate: no heatmap this frame.
    Skip,
    /// The cached raster is still good.
    Cached,
    /// The raster was cleared to the new size; the caller samples and fills it.
    Rebuild,
}

/// Frames between two rebuilds.
pub const REBUILD_INTERVAL: u32 = 4;

/// Above this many bodies a slow frame rate switches the heatmap off.
pub const AUTO_DISABLE_BODIES: usize = 64;

/// The cells a plot visits for the first `n` raster positions, row by row:
/// column, row, character and color of every filled cell.
pub open spec fn visible_prefix(cells: Seq<Option<HeatmapCell>>, width: nat, n: nat) -> Seq<(u16, u16, char, [u8; 3])>
    decreases n,
{
    if n == 0 {
        Seq::empty()
    } else {
        let rest = visible_prefix(cells, width, (n - 1) as nat);
        let k = n - 1;
        match cells[k] {
            Some(c) => rest.push((((k % width as int) as u16), ((k / width as int) as u16), c.ch, c.rgb)),
            None => rest,
        }
    }
}

/// Too many bodies at a low frame rate: the heatmap is skipped.
pub open spec fn skips(body_count: usize, fps_low: bool) -> bool {
    body_count > AUTO_DISABLE_BODIES && fps_low
}

/// The cached raster may be kept: same size, and younger than the interval
/// after this frame.
pub open spec fn still_fresh(old_width: u16, old_height: u16, age: u32, width: u16, height: u16) -> bool {
    old_width == width && old_height == height && age + 1 < REBUILD_INTERVAL
}

/// What a frame does with a raster of the given size and age.
pub open spec fn frame_decision(
    old_width: u16,
    old_height: u16,
    age: u32,
    width: u16,
    height: u16,
    body_count: usize,
    fps_low: bool,
) -> RebuildDecision {
    if skips(body_count, fps_low) {
        RebuildDecision::Skip
    } else if still_fresh(old_width, old_height, age, width, height) {
        RebuildDecision::Cached
    } else {
        RebuildDecision::Rebuild
    }
}

/// The raster's age after a frame.
pub open spec fn age_after(
    old_width: u16,
    old_height: u16,
    age: u32,
    width: u16,
    height: u16,
    body_count: usize,
    fps_low: bool,
) -> u32 {
    match frame_decision(old_width, old_height, age, width, height, body_count, fps_low) {
        RebuildDecision::Skip => age,
        RebuildDecision::Cached => (age + 1) as u32,
        RebuildDecision::Rebuild => 0,
    }
}

/// The heatmap sample step for a divisor: at least one cell, as a `u16`.
pub open spec fn sample_step_spec(divisor: u32) -> u16 {
    (if divisor == 0 {
        1
    } else {
        divisor
    }) as u16
}

/// The heatmap sample step for a divisor (`divisor.max(1) as u16`).
pub fn sample_step(divisor: u32) -> (step: u16)
    ensures
        step == sample_step_spec(divisor),
{
    let d = if divisor == 0 {
        1
    } else {
        divisor
    };
    d as u16
}

impl HeatmapCache {
    #[verifier::type_invariant]
    spec fn inv(self) -> bool {
        &&& self.cells.len() == self.width as int * self.height as int
        &&& self.frames_since_rebuild <= REBUILD_INTERVAL
    }

    /// The raster, row by row.
    pub closed spec fn view(&self) -> Seq<Option<HeatmapCell>> {
        self.cells@
    }

    pub closed spec fn width_spec(&self) -> u16 {
        self.width
    }

    pub closed spec fn height_spec(&self) -> u16 {
        self.height
    }

    /// Frames since the raster was last rebuilt.
    pub closed spec fn age(&self) -> u32 {
        self.frames_since_rebuild
    }

    /// Marks the raster stale so that the next frame rebuilds it.
    pub fn invalidate(&mut self)
        ensures
            final(self).age() == REBUILD_INTERVAL,
            final(self).view() == old(self).view(),
            final(self).width_spec() == old(self).width_spec(),
            final(self).height_spec() == old(self).height_spec(),
    {
        proof {
            use_type_invariant(&*self);
        }
        self.frames_since_rebuild = REBUILD_INTERVAL;
    }

    /// Decides what this frame does with the heatmap: skip it when more than
    /// 64 bodies run at a low frame rate; keep the raster while it is younger
    /// than four frames and the view keeps its size; otherwise clear it to the
    /// new size for the caller to fill.
    pub fn begin_frame(&mut self, width: u16, height: u16, body_count: usize, fps_low: bool) -> (d: RebuildDecision)
        ensures
            d == frame_decision(old(self).width_spec(), old(self).height_spec(), old(self).age(), width, height, body_count, fps_low),
            final(self).age() == age_after(old(self).width_spec(), old(self).height_spec(), old(self).age(), width, height, body_count, fps_low),
            body_count > AUTO_DISABLE_BODIES && fps_low ==> d == RebuildDecision::Skip && final(self).view()
                == old(self).view() && final(self).age() == old(self).age()
                && final(self).width_spec() == old(self).width_spec()
                && final(self).height_spec() == old(self).height_spec(),
            !(body_count > AUTO_DISABLE_BODIES && fps_low) ==> {
                let fresh = old(self).width_spec() == width && old(self).height_spec() == height
                    && old(self).age() + 1 < REBUILD_INTERVAL;
                if fresh {
                    &&& d == RebuildDecision::Cached
                    &&& final(self).view() == old(self).view()
                    &&& final(self).age() == old(self).age() + 1
                    &&& final(self).width_spec() == width
                    &&& final(self).height_spec() == height
                } else {
                    &&& d == RebuildDecision::Rebuild
                    &&& final(self).age() == 0
                    &&& final(self).width_spec() == width
                    &&& final(self).height_spec() == height
                    &&& final(self).view().len() == width as int * height as int
                    &&& forall|i: int| 0 <= i < final(self).view().len() ==> #[trigger] final(self).view()[i]
                        == if i < old(self).view().len() {
                        old(self).view()[i]
                    } else {
                        None
                    }
                }
            },
    {
        proof {
            use_type_invariant(&*self);
        }
        if body_count > AUTO_DISABLE_BODIES && fps_low {
            return RebuildDecision::Skip;
        }
        let frames = self.frames_since_rebuild + 1;
        let size_changed = self.width != width || self.height != height;
        assert(width as int * height as int <= 0xFFFF * 0xFFFF) by (nonlinear_arith)
            requires
                width <= 0xFFFF,
                height <= 0xFFFF,
        ;
        let len = width as usize * height as usize;
        if !size_changed && frames < REBUILD_INTERVAL && self.cells.len() == len {
            self.frames_since_rebuild = frames;
            return RebuildDecision::Cached;
        }
        let mut cells: Vec<Option<HeatmapCell>> = Vec::new();
        let mut k: usize = 0;
        while k < len
            invariant
                k <= len,
                cells.len() == k,
                forall|i: int| 0 <= i < k ==> #[trigger] cells@[i] == if i < self.cells@.len() {
                    self.cells@[i]
                } else {
                    None
                },
            decreases len - k,
        {
            if k < self.cells.len() {
                cells.push(self.cells[k]);
            } else {
                cells.push(None);
            }
            k += 1;
        }
        *self = HeatmapCache { cells, width, height, frames_since_rebuild: 0 };
        RebuildDecision::Rebuild
    }

    /// Fills the whole raster from one sample per `step` × `step` block: the
    /// blocks start every `step` cells from the top-left corner, `samples`
    /// lists them row of blocks by row of blocks, and every cell takes the
    /// sample of the block it lies in.
    pub fn fill_from_samples(&mut self, step: u16, samples: &Vec<HeatmapCell>)
        requires
            step >= 1,
            samples@.len() == block_count(old(self).width_spec() as int, step as int) * block_count(
                old(self).height_spec() as int,
                step as int,
            ),
            block_count(old(self).width_spec() as int, step as int) * step <= 0x1_0000,
            block_count(old(self).height_spec() as int, step as int) * step <= 0x1_0000,
        ensures
            final(self).width_spec() == old(self).width_spec(),
            final(self).height_spec() == old(self).height_spec(),
            final(self).age() == old(self).age(),
            final(self).view().len() == old(self).view().len(),
            forall|i: int|
                0 <= i < final(self).view().len() ==> #[trigger] final(self).view()[i] == Some(
                    block_sample(samples@, old(self).width_spec() as int, step as int, i),
                ),
    {
        proof {
            use_type_invariant(&*self);
        }
        let w = self.width;
        let h = self.height;
        let age = self.frames_since_rebuild;
        let n = self.cells.len();
        let bx: usize = (w as usize + step as usize - 1) / step as usize;
        let mut cells: Vec<Option<HeatmapCell>> = Vec::new();
        let mut i: usize = 0;
        while i < n
            invariant
                n == w as int * h as int,
                step >= 1,
                bx == block_count(w as int, step as int),
                samples@.len() == block_count(w as int, step as int) * block_count(h as int, step as int),
                i <= n,
                cells.len() == i,
                forall|k: int| 0 <= k < i ==> #[trigger] cells@[k] == Some(block_sample(samples@, w as int, step as int, k)),
            decreases n - i,
        {
            proof {
                lemma_row_major_bounds(i as int, w as int, h as int);
                lemma_block_index((i % w as usize) as int, (i / w as usize) as int, w as int, h as int, step as int);
            }
            let x = i % w as usize;
            let y = i / w as usize;
            let row = y / step as usize;
            proof {
                assert(x as int == (i % w as usize) as int);
                assert(row as int == (y as int) / (step as int));
                assert(row as int * bx as int + ((x / step as usize) as int) < samples@.len());
                assert(samples@.len() == samples.len());
                assert(0 <= row as int * bx as int <= row as int * bx as int + (x / step as usize) as int) by (nonlinear_arith)
                    requires
                        0 <= row,
                        0 <= bx,
                        0 <= x / step as usize,
                ;
            }
            let idx = row * bx + x / step as usize;
            cells.push(Some(samples[idx]));
            i += 1;
        }
        *self = HeatmapCache { cells, width: w, height: h, frames_since_rebuild: age };
    }

    /// Paints the `step` × `step` block whose top-left cell is (`sx`, `sy`),
    /// clipped to the raster.
    pub fn fill_block(&mut self, sx: u16, sy: u16, step: u16, cell: HeatmapCell)
        requires
            sx as int + step <= 0x1_0000,
            sy as int + step <= 0x1_0000,
        ensures
            final(self).width_spec() == old(self).width_spec(),
            final(self).height_spec() == old(self).height_spec(),
            final(self).age() == old(self).age(),
            final(self).view().len() == old(self).view().len(),
            forall|i: int| 0 <= i < final(self).view().len() ==> #[trigger] final(self).view()[i] == {
                let w = old(self).width_spec() as int;
                let x = i % w;
                let y = i / w;
                if sx <= x < sx + step && sy <= y < sy + step {
                    Some(cell)
                } else {
                    old(self).view()[i]
                }
            },
    {
        proof {
            use_type_invariant(&*self);
        }
        let mut whole = HeatmapCache { cells: Vec::new(), width: 0, height: 0, frames_since_rebuild: 0 };
        std::mem::swap(&mut whole, self);
        proof {
            use_type_invariant(&whole);
        }
        let HeatmapCache { cells, width: w, height: h, frames_since_rebuild: age } = whole;
        let mut cells = cells;
        let ghost before = cells@;
        assert(w as int * h as int <= 0xFFFF * 0xFFFF) by (nonlinear_arith)
            requires
                w <= 0xFFFF,
                h <= 0xFFFF,
        ;
        let mut dy: u16 = 0;
        while dy < step
            invariant
                cells.len() == before.len() == w as int * h as int,
                dy <= step,
                sx as int + step <= 0x1_0000,
                sy as int + step <= 0x1_0000,
                forall|i: int| 0 <= i < cells.len() ==> #[trigger] cells@[i] == {
                    let x = i % w as int;
                    let y = i / w as int;
                    if sx <= x < sx + step && sy <= y < sy + dy {
                        Some(cell)
                    } else {
                        before[i]
                    }
                },
            decreases step - dy,
        {
            let mut dx: u16 = 0;
            while dx < step
                invariant
                    cells.len() == before.len() == w as int * h as int,
                    dy < step,
                    dx <= step,
                    sx as int + step <= 0x1_0000,
                    sy as int + step <= 0x1_0000,
                    forall|i: int| 0 <= i < cells.len() ==> #[trigger] cells@[i] == {
                        let x = i % w as int;
                        let y = i / w as int;
                        if (sx <= x < sx + step && sy <= y < sy + dy) || (y == sy + dy && sx <= x < sx + dx) {
                            Some(cell)
                        } else {
                            before[i]
                        }
                    },
                decreases step - dx,
            {
                let x = sx + dx;
                let y = sy + dy;
                if x < w && y < h {
                    proof {
                        lemma_row_major(x as int, y as int, w as int, h as int);
                        assert(y as int * w as int <= y as int * w as int + x as int);
                    }
                    let idx = y as usize * w as usize + x as usize;
                    cells.set(idx, Some(cell));
                    proof {
                        assert forall|i: int| 0 <= i < cells.len() implies #[trigger] cells@[i] == {
                            let xi = i % w as int;
                            let yi = i / w as int;
                            if (sx <= xi < sx + step && sy <= yi < sy + dy) || (yi == sy + dy && sx <= xi < sx + dx + 1) {
                                Some(cell)
                            } else {
                                before[i]
                            }
                        } by {
                            if i != idx {
                                lemma_row_major_distinct(i, x as int, y as int, w as int, h as int);
                            }
                        }
                    }
                } else {
                    proof {
                        assert forall|i: int| #![trigger cells@[i]] 0 <= i < cells.len() implies !(i % w as int == x && i / w as int == y) by {
                            lemma_row_major_bounds(i, w as int, h as int);
                        }
                    }
                }
                dx += 1;
            }
            dy += 1;
        }
        *self = HeatmapCache { cells, width: w, height: h, frames_since_rebuild: age };
    }

    /// The filled cells, row by row, as (column, row, character, color).
    pub open spec fn visible(&self) -> Seq<(u16, u16, char, [u8; 3])> {
        visible_prefix(self.view(), self.width_spec() as nat, self.view().len())
    }

    /// The filled cells, row by row, as (column, row, character, color).
    pub fn visible_cells(&self) -> (out: Vec<(u16, u16, char, [u8; 3])>)
        ensures
            out@ == self.visible(),
    {
        proof {
            use_type_invariant(self);
        }
        let n = self.cells.len();
        let w = self.width;
        let mut out: Vec<(u16, u16, char, [u8; 3])> = Vec::new();
        let mut k: usize = 0;
        while k < n
            invariant
                n == self.cells.len() == w as int * self.height as int,
                w == self.width,
                k <= n,
                out@ == visible_prefix(self.cells@, w as nat, k as nat),
            decreases n - k,
        {
            proof {
                lemma_row_major_bounds(k as int, w as int, self.height as int);
            }
            match self.cells[k] {
                Some(c) => {
                    out.push(((k % w as usize) as u16, (k / w as usize) as u16, c.ch, c.rgb));
                },
                None => {},
            }
            k += 1;
        }
        out
    }

    /// Calls `plot` on every filled cell, row by row, with its column, row,
    /// character and color.
    pub fn plot_onto<F>(&self, mut plot: F)
        where
            F: FnMut(u16, u16, char, [u8; 3]),
        requires
            forall|x: u16, y: u16, c: char, rgb: [u8; 3]| #[trigger] call_requires(plot, (x, y, c, rgb)),
    {
        let cells = self.visible_cells();
        let mut k: usize = 0;
        while k < cells.len()
            invariant
                k <= cells.len(),
                forall|x: u16, y: u16, c: char, rgb: [u8; 3]| #[trigger] call_requires(plot, (x, y, c, rgb)),
            decreases cells.len() - k,
        {
            let (x, y, c, rgb) = cells[k];
            plot(x, y, c, rgb);
            k += 1;
        }
    }
}

/// Blocks along an axis of `len` cells when a sample covers `step` cells.
pub open spec fn block_count(len: int, step: int) -> int {
    (len + step - 1) / step
}

/// The sample of the block holding cell `i` of a `w`-wide raster, from
/// samples listed row of blocks by row of blocks.
pub open spec fn block_sample(samples: Seq<HeatmapCell>, w: int, step: int, i: int) -> HeatmapCell {
    samples[(i / w / step) * block_count(w, step) + (i % w) / step]
}

/// The block of a cell inside the raster is one of the listed blocks.
pub proof fn lemma_block_index(x: int, y: int, w: int, h: int, s: int)
    requires
        0 <= x < w,
        0 <= y < h,
        s >= 1,
    ensures
        0 <= x / s < block_count(w, s),
        0 <= y / s < block_count(h, s),
        0 <= (y / s) * block_count(w, s) + x / s < block_count(w, s) * block_count(h, s),
{
    let bx = block_count(w, s);
    let by = block_count(h, s);
    vstd::arithmetic::div_mod::lemma_fundamental_div_mod(x, s);
    vstd::arithmetic::div_mod::lemma_fundamental_div_mod(y, s);
    vstd::arithmetic::div_mod::lemma_mod_pos_bound(x, s);
    vstd::arithmetic::div_mod::lemma_mod_pos_bound(y, s);
    assert(x + s == (x / s + 1) * s + x % s) by (nonlinear_arith)
        requires
            x == s * (x / s) + x % s,
    ;
    assert(y + s == (y / s + 1) * s + y % s) by (nonlinear_arith)
        requires
            y == s * (y / s) + y % s,
    ;
    vstd::arithmetic::div_mod::lemma_fundamental_div_mod_converse(x + s, s, x / s + 1, x % s);
    vstd::arithmetic::div_mod::lemma_fundamental_div_mod_converse(y + s, s, y / s + 1, y % s);
    vstd::arithmetic::div_mod::lemma_div_is_ordered(x + s, w + s - 1, s);
    vstd::arithmetic::div_mod::lemma_div_is_ordered(y + s, h + s - 1, s);
    vstd::arithmetic::div_mod::lemma_div_pos_is_pos(x, s);
    vstd::arithmetic::div_mod::lemma_div_pos_is_pos(y, s);
    let qx = x / s;
    let qy = y / s;
    assert(qy * bx + qx < bx * by) by (nonlinear_arith)
        requires
            0 <= qx < bx,
            0 <= qy < by,
    ;
    assert(0 <= qy * bx) by (nonlinear_arith)
        requires
            0 <= qy,
            0 <= bx,
    ;
}

/// The raster is rebuilt every fourth frame: after a rebuild, three frames
/// of the same size reuse it and the fourth rebuilds it; a new size rebuilds
/// at once, and a skipped frame leaves the raster's age alone.
pub proof fn lemma_rebuild_every_interval(w: u16, h: u16, w2: u16, h2: u16, age: u32, body_count: usize, fps_low: bool)
    requires
        !skips(body_count, fps_low),
        age < REBUILD_INTERVAL,
    ensures
        age + 1 < REBUILD_INTERVAL ==> frame_decision(w, h, age, w, h, body_count, fps_low) == RebuildDecision::Cached
            && age_after(w, h, age, w, h, body_count, fps_low) == age + 1,
        age + 1 == REBUILD_INTERVAL ==> frame_decision(w, h, age, w, h, body_count, fps_low) == RebuildDecision::Rebuild
            && age_after(w, h, age, w, h, body_count, fps_low) == 0,
        (w, h) != (w2, h2) ==> frame_decision(w, h, age, w2, h2, body_count, fps_low) == RebuildDecision::Rebuild
            && age_after(w, h, age, w2, h2, body_count, fps_low) == 0,
        frame_decision(w, h, age, w2, h2, (AUTO_DISABLE_BODIES + 1) as usize, true) == RebuildDecision::Skip
            && age_after(w, h, age, w2, h2, (AUTO_DISABLE_BODIES + 1) as usize, true) == age,
{
}

impl Default for HeatmapCache {
    fn default() -> (c: Self)
        ensures
            c.view() == Seq::<Option<HeatmapCell>>::empty(),
            c.width_spec() == 0,
            c.height_spec() == 0,
            c.age() == 0,
    {
        HeatmapCache { cells: Vec::new(), width: 0, height: 0, frames_since_rebuild: 0 }
    }
}

} // verus!
