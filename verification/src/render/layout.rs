//! Screen geometry of the interactive view: the HUD regions, the simulation
//! viewport, popups and notices, and terminal cells relative to a region.
//!
//! Splitting an area by constraints is ratatui's layout solver; everything
//! around it is stated here.

use ratatui::layout::{Constraint as Tui, Direction, Layout, Rect as TuiRect};
use ratatui::widgets::{Block, Borders};
use vstd::prelude::*;

verus! {

/// A rectangle of terminal cells.
#[derive(Debug, Clone, Copy, PartialEq, Eq, Structural)]
pub struct Rect {
    pub x: u16,
    pub y: u16,
    pub width: u16,
    pub height: u16,
}

/// A size constraint of one region of a layout.
#[derive(Debug, Clone, Copy, PartialEq, Eq, Structural)]
pub enum Constraint {
    /// Exactly this many cells.
    Length(u16),
    /// At least this many cells.
    Min(u16),
    /// This percentage of the area.
    Percentage(u16),
}

/// A rectangle as `(x, y, width, height)`.
pub open spec fn rect_tuple(r: Rect) -> (u16, u16, u16, u16) {
    (r.x, r.y, r.width, r.height)
}

/// The regions ratatui's layout solver gives for `area` split vertically (or
/// horizontally) by `constraints`, one per constraint, as `(x, y, width, height)`.
pub uninterp spec fn layout_regions(area: (u16, u16, u16, u16), vertical: bool, constraints: Seq<Constraint>) -> Seq<(u16, u16, u16, u16)>;

/// Splits `area` by `constraints` with ratatui's `Layout::split` (default
/// margin, spacing and flex). The contract names the result and states that
/// there is one region per constraint, as the solver builds one segment per
/// constraint.
#[verifier::external_body]
pub fn layout_split(area: Rect, vertical: bool, constraints: &Vec<Constraint>) -> (regions: Vec<Rect>)
    ensures
        regions@.len() == constraints@.len(),
        regions@.map_values(|r: Rect| rect_tuple(r)) == layout_regions(rect_tuple(area), vertical, constraints@),
{
    let direction = if vertical { Direction::Vertical } else { Direction::Horizontal };
    let cs: Vec<Tui> = constraints.iter().map(|c| match *c {
        Constraint::Length(n) => Tui::Length(n),
        Constraint::Min(n) => Tui::Min(n),
        Constraint::Percentage(n) => Tui::Percentage(n),
    }).collect();
    let target = TuiRect { x: area.x, y: area.y, width: area.width, height: area.height };
    let split = Layout::default().direction(direction).constraints(cs).split(target);
    split.iter().map(|r| Rect { x: r.x, y: r.y, width: r.width, height: r.height }).collect()
}

/// The inside of a block with borders on all sides (`Block::inner` with
/// `Borders::ALL` and no padding): one cell in from each edge, and no wider or
/// taller than what is left.
#[verifier::external_body]
pub fn bordered_inner(area: Rect) -> (inner: Rect)
    ensures
        inner == bordered_inner_spec(area),
{
    let r = Block::default().borders(Borders::ALL).inner(TuiRect { x: area.x, y: area.y, width: area.width, height: area.height });
    Rect { x: r.x, y: r.y, width: r.width, height: r.height }
}

/// `a + b`, at most `u16::MAX`.
pub open spec fn sat_add(a: u16, b: u16) -> u16 {
    if a + b > u16::MAX {
        u16::MAX
    } else {
        (a + b) as u16
    }
}

/// `a - b`, at least zero.
pub open spec fn sat_sub(a: u16, b: u16) -> u16 {
    if a < b {
        0
    } else {
        (a - b) as u16
    }
}

pub open spec fn min_u16(a: u16, b: u16) -> u16 {
    if a <= b {
        a
    } else {
        b
    }
}

/// The inside of a block bordered on all sides, as ratatui computes it.
pub open spec fn bordered_inner_spec(area: Rect) -> Rect {
    let right = sat_add(area.x, area.width);
    let bottom = sat_add(area.y, area.height);
    Rect {
        x: min_u16(sat_add(area.x, 1), right),
        y: min_u16(sat_add(area.y, 1), bottom),
        width: sat_sub(sat_sub(area.width, 1), 1),
        height: sat_sub(sat_sub(area.height, 1), 1),
    }
}

impl Rect {
    /// A rectangle at (`x`, `y`), its size cut so that it ends within `u16`.
    pub fn new(x: u16, y: u16, width: u16, height: u16) -> (r: Self)
        ensures
            r.x == x && r.y == y,
            r.width == min_u16(width, (u16::MAX - x) as u16),
            r.height == min_u16(height, (u16::MAX - y) as u16),
    {
        let max_width = u16::MAX - x;
        let max_height = u16::MAX - y;
        Rect {
            x,
            y,
            width: if width > max_width {
                max_width
            } else {
                width
            },
            height: if height > max_height {
                max_height
            } else {
                height
            },
        }
    }

    /// The row just below the rectangle, at most `u16::MAX`.
    pub fn bottom(&self) -> (b: u16)
        ensures
            b == sat_add(self.y, self.height),
    {
        self.y.saturating_add(self.height)
    }
}

/// The view is too small to draw: narrower than 20 columns or lower than 8 rows.
pub fn terminal_too_small(area: Rect) -> (b: bool)
    ensures
        b == (area.width < 20 || area.height < 8),
{
    area.width < 20 || area.height < 8
}

/// The HUD rows: a status line, the main part, and a footer of one line (two
/// with the energy sparkline).
pub open spec fn hud_rows(footer_lines: u16) -> Seq<Constraint> {
    seq![Constraint::Length(1), Constraint::Min(3), Constraint::Length(footer_lines)]
}

/// The main part's columns: the viewport, and a 36-column body panel.
pub open spec fn hud_columns() -> Seq<Constraint> {
    seq![Constraint::Min(10), Constraint::Length(36)]
}

/// The regions of the HUD.
#[derive(Debug, Clone, Copy, PartialEq, Eq, Structural)]
pub struct HudRegions {
    pub status: Rect,
    pub viewport: Rect,
    pub panel: Rect,
    pub footer: Rect,
}

fn hud_row_constraints(footer_lines: u16) -> (v: Vec<Constraint>)
    ensures
        v@ == hud_rows(footer_lines),
{
    let v = vec![Constraint::Length(1), Constraint::Min(3), Constraint::Length(footer_lines)];
    assert(v@ =~= hud_rows(footer_lines));
    v
}

fn hud_column_constraints() -> (v: Vec<Constraint>)
    ensures
        v@ == hud_columns(),
{
    let v = vec![Constraint::Min(10), Constraint::Length(36)];
    assert(v@ =~= hud_columns());
    v
}

/// Splits the screen for the HUD: status line, viewport, body panel, footer.
/// The footer takes two lines when energy diagnostics are shown.
pub fn hud_regions(area: Rect, show_energy: bool) -> (h: HudRegions)
    ensures
        ({
            let rows = layout_regions(rect_tuple(area), true, hud_rows(if show_energy { 2 } else { 1 }));
            let cols = layout_regions(rows[1], false, hud_columns());
            &&& rect_tuple(h.status) == rows[0]
            &&& rect_tuple(h.footer) == rows[2]
            &&& rect_tuple(h.viewport) == cols[0]
            &&& rect_tuple(h.panel) == cols[1]
        }),
{
    let footer_lines: u16 = if show_energy {
        2
    } else {
        1
    };
    let rows = layout_split(area, true, &hud_row_constraints(footer_lines));
    let cols = layout_split(rows[1], false, &hud_column_constraints());
    proof {
        assert(rows@.map_values(|r: Rect| rect_tuple(r))[1] == rect_tuple(rows@[1]));
        assert(rows@.map_values(|r: Rect| rect_tuple(r))[0] == rect_tuple(rows@[0]));
        assert(rows@.map_values(|r: Rect| rect_tuple(r))[2] == rect_tuple(rows@[2]));
        assert(cols@.map_values(|r: Rect| rect_tuple(r))[0] == rect_tuple(cols@[0]));
        assert(cols@.map_values(|r: Rect| rect_tuple(r))[1] == rect_tuple(cols@[1]));
    }
    HudRegions { status: rows[0], viewport: cols[0], panel: cols[1], footer: rows[2] }
}

/// The area the simulation is drawn in: the whole screen without the HUD,
/// else the viewport of a HUD with a one-line footer.
pub fn simulation_area(area: Rect, hud_visible: bool) -> (r: Rect)
    ensures
        !hud_visible ==> r == area,
        hud_visible ==> rect_tuple(r) == layout_regions(
            layout_regions(rect_tuple(area), true, hud_rows(1))[1],
            false,
            hud_columns(),
        )[0],
{
    if !hud_visible {
        return area;
    }
    let h = hud_regions(area, false);
    h.viewport
}

/// A popup of `percent_x` by `percent_y` percent of `area`, centered.
pub fn centered_rect(percent_x: u16, percent_y: u16, area: Rect) -> (r: Rect)
    requires
        percent_x <= 100,
        percent_y <= 100,
    ensures
        ({
            let rows = layout_regions(
                rect_tuple(area),
                true,
                seq![
                    Constraint::Percentage(((100 - percent_y) / 2) as u16),
                    Constraint::Percentage(percent_y),
                    Constraint::Percentage(((100 - percent_y) / 2) as u16),
                ],
            );
            rect_tuple(r) == layout_regions(
                rows[1],
                false,
                seq![
                    Constraint::Percentage(((100 - percent_x) / 2) as u16),
                    Constraint::Percentage(percent_x),
                    Constraint::Percentage(((100 - percent_x) / 2) as u16),
                ],
            )[1]
        }),
{
    let side_y = (100 - percent_y) / 2;
    let rows_c = vec![Constraint::Percentage(side_y), Constraint::Percentage(percent_y), Constraint::Percentage(side_y)];
    let rows = layout_split(area, true, &rows_c);
    let side_x = (100 - percent_x) / 2;
    let cols_c = vec![Constraint::Percentage(side_x), Constraint::Percentage(percent_x), Constraint::Percentage(side_x)];
    let cols = layout_split(rows[1], false, &cols_c);
    proof {
        assert(rows_c@ =~= seq![
            Constraint::Percentage(((100 - percent_y) / 2) as u16),
            Constraint::Percentage(percent_y),
            Constraint::Percentage(((100 - percent_y) / 2) as u16),
        ]);
        assert(cols_c@ =~= seq![
            Constraint::Percentage(((100 - percent_x) / 2) as u16),
            Constraint::Percentage(percent_x),
            Constraint::Percentage(((100 - percent_x) / 2) as u16),
        ]);
        assert(rows@.map_values(|r: Rect| rect_tuple(r))[1] == rect_tuple(rows@[1]));
        assert(cols@.map_values(|r: Rect| rect_tuple(r))[1] == rect_tuple(cols@[1]));
    }
    cols[1]
}

/// Where a notice is shown: two cells in from the left, four rows above the
/// bottom edge, at most 80 columns wide (four fewer than the area) and three
/// rows high.
pub fn toast_rect(area: Rect) -> (r: Rect)
    requires
        area.x + 2 <= u16::MAX,
    ensures
        r == (Rect {
            x: (area.x + 2) as u16,
            y: sat_sub(sat_add(area.y, area.height), 4),
            width: min_u16(min_u16(sat_sub(area.width, 4), 80), (u16::MAX - (area.x + 2)) as u16),
            height: min_u16(3, (u16::MAX - sat_sub(sat_add(area.y, area.height), 4)) as u16),
        }),
{
    let w = area.width.saturating_sub(4);
    let w = if w < 80 {
        w
    } else {
        80
    };
    Rect::new(area.x + 2, area.bottom().saturating_sub(4), w, 3)
}

/// Where the overload warning goes: one row, two rows above the bottom edge,
/// as wide as the area.
pub fn overload_warning_rect(area: Rect) -> (r: Rect)
    ensures
        r == (Rect {
            x: area.x,
            y: sat_sub(sat_add(area.y, area.height), 2),
            width: min_u16(area.width, (u16::MAX - area.x) as u16),
            height: min_u16(1, (u16::MAX - sat_sub(sat_add(area.y, area.height), 2)) as u16),
        }),
{
    Rect::new(area.x, area.bottom().saturating_sub(2), area.width, 1)
}

/// The cell (`col`, `row`) of the screen relative to `area`, when it lies inside.
pub fn local_cell(col: u16, row: u16, area: Rect) -> (cell: Option<(u16, u16)>)
    ensures
        cell == (if area.x <= col && area.y <= row && col - area.x < area.width && row - area.y < area.height {
            Some(((col - area.x) as u16, (row - area.y) as u16))
        } else {
            None
        }),
{
    if col < area.x || row < area.y {
        return None;
    }
    let local_x = col - area.x;
    let local_y = row - area.y;
    if local_x >= area.width || local_y >= area.height {
        return None;
    }
    Some((local_x, local_y))
}

/// The cell (`col`, `row`) relative to the top-left corner of `area`, each
/// coordinate at least zero.
pub fn clamped_local(col: u16, row: u16, area: Rect) -> (cell: (u16, u16))
    ensures
        cell == (sat_sub(col, area.x), sat_sub(row, area.y)),
{
    (col.saturating_sub(area.x), row.saturating_sub(area.y))
}

} // verus!
