//! Terminal-cell drawing buffer for the simulation viewport.
//!
//! Positions arrive already projected to (rounded) screen cells; the canvas
//! clips them and keeps, in each cell, the glyph of highest priority.

use vstd::prelude::*;

use crate::physics::body::BodyClass;
use crate::render::grid::{lemma_row_major, lemma_row_major_bounds};

verus! {

/// One drawable cell in the simulation view.
#[derive(Debug, Clone, Copy, PartialEq, Eq)]
pub struct CanvasCell {
    pub ch: char,
    pub rgb: [u8; 3],
    pub priority: u8,
}

/// One projected trail sample: its screen cell and its faded color.
#[derive(Debug, Clone, Copy, PartialEq, Eq)]
pub struct TrailPoint {
    pub x: i32,
    pub y: i32,
    pub rgb: [u8; 3],
}

/// Priority of a trail glyph.
pub const TRAIL_PRIORITY: u8 = 1;

/// Priority of a body glyph.
pub const BODY_PRIORITY: u8 = 5;

/// Priority of the selected body's glyph.
pub const SELECTED_PRIORITY: u8 = 10;

/// Raster buffer for bodies and trails, row by row.
#[derive(Debug)]
pub struct SimulationCanvas {
    width: u16,
    height: u16,
    cells: Vec<Option<CanvasCell>>,
}

/// The index of screen cell (`x`, `y`) in a `w` × `h` raster, if it lies inside.
pub open spec fn cell_index(w: int, h: int, x: int, y: int) -> Option<int> {
    if 0 <= x < w && 0 <= y < h {
        Some(y * w + x)
    } else {
        None
    }
}

/// The raster after plotting `cell` at (`x`, `y`): outside the raster nothing
/// changes; an empty cell takes it; a drawn cell takes it when its priority is
/// at least the drawn one's.
pub open spec fn plotted(cells: Seq<Option<CanvasCell>>, w: int, h: int, x: int, y: int, cell: CanvasCell) -> Seq<Option<CanvasCell>> {
    match cell_index(w, h, x, y) {
        None => cells,
        Some(idx) => match cells[idx] {
            None => cells.update(idx, Some(cell)),
            Some(existing) => if cell.priority >= existing.priority {
                cells.update(idx, Some(cell))
            } else {
                cells
            },
        },
    }
}

/// The glyph of trail sample `i` of `n`: the newest fifth (age above 0.8, or a
/// lone sample) is a bullet, older samples a middle dot.
pub open spec fn trail_glyph_spec(i: int, n: int) -> char {
    if n <= 1 || 5 * i > 4 * (n - 1) {
        '\u{2022}'
    } else {
        '\u{00b7}'
    }
}

/// The glyph of trail sample `i` of `n`.
pub fn trail_glyph(i: usize, n: usize) -> (c: char)
    ensures
        c == trail_glyph_spec(i as int, n as int),
{
    if n <= 1 {
        '\u{2022}'
    } else if 5 * (i as u128) > 4 * ((n - 1) as u128) {
        '\u{2022}'
    } else {
        '\u{00b7}'
    }
}

/// The raster after plotting the first `k` trail samples of `points`, oldest first.
pub open spec fn trail_plotted(cells: Seq<Option<CanvasCell>>, w: int, h: int, points: Seq<TrailPoint>, k: nat) -> Seq<Option<CanvasCell>>
    decreases k,
{
    if k == 0 {
        cells
    } else {
        let before = trail_plotted(cells, w, h, points, (k - 1) as nat);
        let p = points[k - 1];
        plotted(before, w, h, p.x as int, p.y as int, CanvasCell {
            ch: trail_glyph_spec(k - 1, points.len() as int),
            rgb: p.rgb,
            priority: TRAIL_PRIORITY,
        })
    }
}

/// Glyph and priority of a body: the selected body is a full block above
/// everything else; a star is a fisheye, any other body a disc.
pub open spec fn body_glyph_spec(class: BodyClass, selected: bool) -> (char, u8) {
    if selected {
        ('\u{2588}', SELECTED_PRIORITY)
    } else if class == BodyClass::Star {
        ('\u{25c9}', BODY_PRIORITY)
    } else {
        ('\u{25cf}', BODY_PRIORITY)
    }
}

/// Glyph and priority of a body.
pub fn body_glyph(class: BodyClass, selected: bool) -> (g: (char, u8))
    ensures
        g == body_glyph_spec(class, selected),
{
    if selected {
        ('\u{2588}', SELECTED_PRIORITY)
    } else if matches!(class, BodyClass::Star) {
        ('\u{25c9}', BODY_PRIORITY)
    } else {
        ('\u{25cf}', BODY_PRIORITY)
    }
}

/// The drawn cells among the first `n` raster positions, row by row:
/// column, row, character and color.
pub open spec fn drawn_prefix(cells: Seq<Option<CanvasCell>>, width: nat, n: nat) -> Seq<(u16, u16, char, [u8; 3])>
    decreases n,
{
    if n == 0 {
        Seq::empty()
    } else {
        let rest = drawn_prefix(cells, width, (n - 1) as nat);
        let k = n - 1;
        match cells[k] {
            Some(c) => rest.push((((k % width as int) as u16), ((k / width as int) as u16), c.ch, c.rgb)),
            None => rest,
        }
    }
}

impl SimulationCanvas {
    #[verifier::type_invariant]
    spec fn inv(self) -> bool {
        self.cells.len() == self.width as int * self.height as int
    }

    /// The raster, row by row.
    pub closed spec fn view(&self) -> Seq<Option<CanvasCell>> {
        self.cells@
    }

    pub closed spec fn width_spec(&self) -> u16 {
        self.width
    }

    pub closed spec fn height_spec(&self) -> u16 {
        self.height
    }

    /// The drawn cells, row by row, as (column, row, character, color).
    pub open spec fn drawn(&self) -> Seq<(u16, u16, char, [u8; 3])> {
        drawn_prefix(self.view(), self.width_spec() as nat, self.view().len())
    }

    /// An empty `width` × `height` canvas.
    pub fn new(width: u16, height: u16) -> (c: Self)
        ensures
            c.width_spec() == width,
            c.height_spec() == height,
            c.view().len() == width as int * height as int,
            forall|i: int| 0 <= i < c.view().len() ==> #[trigger] c.view()[i] == None::<CanvasCell>,
    {
        assert(width as int * height as int <= 0xFFFF * 0xFFFF) by (nonlinear_arith)
            requires
                width <= 0xFFFF,
                height <= 0xFFFF,
        ;
        let len = width as usize * height as usize;
        let mut cells: Vec<Option<CanvasCell>> = Vec::new();
        let mut k: usize = 0;
        while k < len
            invariant
                k <= len,
                cells.len() == k,
                forall|i: int| 0 <= i < k ==> #[trigger] cells@[i] == None::<CanvasCell>,
            decreases len - k,
        {
            cells.push(None);
            k += 1;
        }
        SimulationCanvas { width, height, cells }
    }

    /// Plots `cell` at screen cell (`x`, `y`) by the priority rule of `plotted`.
    fn plot_screen(&mut self, x: i32, y: i32, cell: CanvasCell)
        ensures
            final(self).width_spec() == old(self).width_spec(),
            final(self).height_spec() == old(self).height_spec(),
            final(self).view() == plotted(
                old(self).view(),
                old(self).width_spec() as int,
                old(self).height_spec() as int,
                x as int,
                y as int,
                cell,
            ),
    {
        proof {
            use_type_invariant(&*self);
        }
        if x < 0 || y < 0 || x >= self.width as i32 || y >= self.height as i32 {
            return;
        }
        proof {
            lemma_row_major(x as int, y as int, self.width as int, self.height as int);
            assert(y as int * self.width as int <= y as int * self.width as int + x as int);
        }
        let idx = y as usize * self.width as usize + x as usize;
        let take = match self.cells[idx] {
            None => true,
            Some(existing) => cell.priority >= existing.priority,
        };
        if take {
            let mut whole = SimulationCanvas { width: 0, height: 0, cells: Vec::new() };
            std::mem::swap(&mut whole, self);
            proof {
                use_type_invariant(&whole);
            }
            let SimulationCanvas { width, height, cells } = whole;
            let mut cells = cells;
            cells.set(idx, Some(cell));
            *self = SimulationCanvas { width, height, cells };
        }
    }

    /// Plots a body's glyph at screen cell (`x`, `y`) in color `rgb`.
    pub fn plot_body(&mut self, x: i32, y: i32, rgb: [u8; 3], class: BodyClass, selected: bool)
        ensures
            final(self).width_spec() == old(self).width_spec(),
            final(self).height_spec() == old(self).height_spec(),
            final(self).view() == plotted(
                old(self).view(),
                old(self).width_spec() as int,
                old(self).height_spec() as int,
                x as int,
                y as int,
                CanvasCell { ch: body_glyph_spec(class, selected).0, rgb, priority: body_glyph_spec(class, selected).1 },
            ),
    {
        let (ch, priority) = body_glyph(class, selected);
        self.plot_screen(x, y, CanvasCell { ch, rgb, priority });
    }

    /// Plots a trail, oldest sample first, each with its trail glyph at trail priority.
    pub fn plot_trail(&mut self, points: &Vec<TrailPoint>)
        ensures
            final(self).width_spec() == old(self).width_spec(),
            final(self).height_spec() == old(self).height_spec(),
            final(self).view() == trail_plotted(
                old(self).view(),
                old(self).width_spec() as int,
                old(self).height_spec() as int,
                points@,
                points@.len(),
            ),
    {
        let n = points.len();
        let mut i: usize = 0;
        while i < n
            invariant
                n == points@.len(),
                i <= n,
                self.width_spec() == old(self).width_spec(),
                self.height_spec() == old(self).height_spec(),
                self.view() == trail_plotted(
                    old(self).view(),
                    old(self).width_spec() as int,
                    old(self).height_spec() as int,
                    points@,
                    i as nat,
                ),
            decreases n - i,
        {
            let p = points[i];
            let ch = trail_glyph(i, n);
            self.plot_screen(p.x, p.y, CanvasCell { ch, rgb: p.rgb, priority: TRAIL_PRIORITY });
            i += 1;
        }
    }

    /// The drawn cells, row by row, as (column, row, character, color).
    pub fn drawn_cells(&self) -> (out: Vec<(u16, u16, char, [u8; 3])>)
        ensures
            out@ == self.drawn(),
    {
        proof {
            use_type_invariant(self);
        }
        let n = self.cells.len();
        let w = self.width;
        let mut out: Vec<(u16, u16, char, [u8; 3])> = Vec::new();
        let mut k: usize = 0;
        while k < n
            invariant
                n == self.cells.len() == w as int * self.height as int,
                w == self.width,
                k <= n,
                out@ == drawn_prefix(self.cells@, w as nat, k as nat),
            decreases n - k,
        {
            proof {
                lemma_row_major_bounds(k as int, w as int, self.height as int);
            }
            match self.cells[k] {
                Some(c) => {
                    out.push(((k % w as usize) as u16, (k / w as usize) as u16, c.ch, c.rgb));
                },
                None => {},
            }
            k += 1;
        }
        out
    }

    /// Calls `put` on every drawn cell, row by row, with its column, row,
    /// character and color.
    pub fn draw_into<F>(&self, mut put: F)
        where
            F: FnMut(u16, u16, char, [u8; 3]),
        requires
            forall|x: u16, y: u16, c: char, rgb: [u8; 3]| #[trigger] call_requires(put, (x, y, c, rgb)),
    {
        let cells = self.drawn_cells();
        let mut k: usize = 0;
        while k < cells.len()
            invariant
                k <= cells.len(),
                forall|x: u16, y: u16, c: char, rgb: [u8; 3]| #[trigger] call_requires(put, (x, y, c, rgb)),
            decreases cells.len() - k,
        {
            let (x, y, c, rgb) = cells[k];
            put(x, y, c, rgb);
            k += 1;
        }
    }
}

/// Plotting never lowers the priority drawn in a cell, and never empties one:
/// a glyph is replaced only by one of at least its priority.
pub proof fn lemma_plot_keeps_priority(cells: Seq<Option<CanvasCell>>, w: int, h: int, x: int, y: int, cell: CanvasCell, i: int)
    requires
        0 <= w,
        0 <= h,
        cells.len() == w * h,
        0 <= i < cells.len(),
    ensures
        plotted(cells, w, h, x, y, cell).len() == cells.len(),
        cells[i] is Some ==> plotted(cells, w, h, x, y, cell)[i] is Some
            && plotted(cells, w, h, x, y, cell)[i]->0.priority >= cells[i]->0.priority,
{
    if 0 <= x < w && 0 <= y < h {
        lemma_row_major(x, y, w, h);
    }
}

/// A plot reaches exactly the one cell it names: every other cell keeps its glyph,
/// and a plot outside the raster changes nothing.
pub proof fn lemma_plot_is_local(cells: Seq<Option<CanvasCell>>, w: int, h: int, x: int, y: int, cell: CanvasCell, i: int)
    requires
        0 <= w,
        0 <= h,
        cells.len() == w * h,
        0 <= i < cells.len(),
        !(i % w == x && i / w == y),
    ensures
        plotted(cells, w, h, x, y, cell)[i] == cells[i],
{
    if 0 <= x < w && 0 <= y < h {
        lemma_row_major(x, y, w, h);
    }
}

/// Plotting a glyph of at least the priority of what a cell holds puts it there:
/// whatever was plotted before, the last glyph of the highest priority wins.
pub proof fn lemma_plot_wins(cells: Seq<Option<CanvasCell>>, w: int, h: int, x: int, y: int, cell: CanvasCell)
    requires
        0 <= x < w,
        0 <= y < h,
        cells.len() == w * h,
        cells[y * w + x] is Some ==> cell.priority >= cells[y * w + x]->0.priority,
    ensures
        plotted(cells, w, h, x, y, cell)[y * w + x] == Some(cell),
{
    lemma_row_major(x, y, w, h);
}

/// The selected body is drawn above every other body, and a body above every
/// trail; a star and any other body are told apart by their glyphs. The newest
/// trail sample is always a bullet, and in a trail of two or more the oldest
/// is a dot.
pub proof fn lemma_glyph_order(class: BodyClass, other: BodyClass, i: int, n: int)
    ensures
        body_glyph_spec(class, true).1 > body_glyph_spec(other, false).1,
        body_glyph_spec(other, false).1 > TRAIL_PRIORITY,
        body_glyph_spec(BodyClass::Star, false).0 != body_glyph_spec(BodyClass::Planet, false).0,
        body_glyph_spec(class, true).0 != body_glyph_spec(other, false).0,
        n >= 1 ==> trail_glyph_spec(n - 1, n) == '\u{2022}',
        n >= 2 ==> trail_glyph_spec(0, n) == '\u{00b7}',
        0 <= i < n && n >= 2 && trail_glyph_spec(i, n) == '\u{2022}' ==> i > 0,
{
}

} // verus!
