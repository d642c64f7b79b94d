use graviton::physics::barnes_hut::TreeStats;
use graviton::physics::body::BodyClass;
use graviton::render::camera::Projection;
use graviton::render::canvas::{body_glyph, trail_glyph, SimulationCanvas, TrailPoint};
use graviton::render::hud::{footer_text, menu_entry, projection_label, simulation_title, status_segments, StatusInputs};
use graviton::render::heatmap::{sample_step, HeatmapCache, HeatmapCell, RebuildDecision};
use graviton::render::kitty::{maybe_render_density_panel, KittySettings};
use graviton::render::layout::{
    bordered_inner, centered_rect, clamped_local, hud_regions, local_cell, overload_warning_rect,
    simulation_area, terminal_too_small, toast_rect, Rect,
};
use graviton::render::trails::Trail;

#[test]
fn trail_keeps_the_newest_points() {
    let mut t: Trail<u32> = Trail::new(3);
    for tick in 0..10u64 {
        t.maybe_push(tick as u32, tick, 2);
    }
    assert_eq!(t.len(), 3);
    let pts: Vec<u32> = t.points().iter().copied().collect();
    assert_eq!(pts, vec![4, 6, 8]);
    t.maybe_push(99, 5, 0);
    assert_eq!(t.len(), 3);
    t.clear();
    assert_eq!(t.len(), 0);
    let mut one: Trail<u8> = Trail::new(0);
    one.maybe_push(1, 0, 1);
    one.maybe_push(2, 1, 1);
    assert_eq!(one.points().iter().copied().collect::<Vec<_>>(), vec![2]);
}

#[test]
fn trail_glyphs_match_the_age_threshold() {
    for n in 0usize..200 {
        for i in 0..n.max(1) {
            let age = if n <= 1 { 1.0 } else { i as f64 / (n - 1) as f64 };
            let expected = if age > 0.8 { '\u{2022}' } else { '\u{00b7}' };
            assert_eq!(trail_glyph(i, n), expected, "sample {i} of {n}");
        }
    }
}

#[test]
fn body_glyphs() {
    assert_eq!(body_glyph(BodyClass::Planet, true), ('\u{2588}', 10));
    assert_eq!(body_glyph(BodyClass::Star, false), ('\u{25c9}', 5));
    assert_eq!(body_glyph(BodyClass::Moon, false), ('\u{25cf}', 5));
}

#[test]
fn canvas_keeps_the_highest_priority_glyph() {
    let mut c = SimulationCanvas::new(4, 3);
    assert!(c.drawn_cells().is_empty());
    c.plot_trail(&vec![
        TrailPoint { x: 1, y: 1, rgb: [1, 1, 1] },
        TrailPoint { x: 2, y: 1, rgb: [2, 2, 2] },
    ]);
    c.plot_body(1, 1, [9, 9, 9], BodyClass::Planet, false);
    c.plot_trail(&vec![TrailPoint { x: 1, y: 1, rgb: [3, 3, 3] }]);
    c.plot_body(-1, 0, [7, 7, 7], BodyClass::Planet, true);
    c.plot_body(4, 0, [7, 7, 7], BodyClass::Planet, true);
    c.plot_body(3, 2, [5, 5, 5], BodyClass::Star, false);
    c.plot_body(3, 2, [6, 6, 6], BodyClass::Moon, true);
    assert_eq!(
        c.drawn_cells(),
        vec![
            (1, 1, '\u{25cf}', [9, 9, 9]),
            (2, 1, '\u{2022}', [2, 2, 2]),
            (3, 2, '\u{2588}', [6, 6, 6]),
        ]
    );
    let mut seen = Vec::new();
    c.draw_into(|x, y, ch, _| seen.push((x, y, ch)));
    assert_eq!(seen.len(), 3);
}

#[test]
fn heatmap_cache_rebuilds_every_fourth_frame() {
    let mut h = HeatmapCache::default();
    assert_eq!(h.begin_frame(4, 2, 3, false), RebuildDecision::Rebuild);
    let cell = HeatmapCell { ch: '#', rgb: [1, 2, 3] };
    h.fill_block(0, 0, 2, cell);
    h.fill_block(2, 0, 2, HeatmapCell { ch: '+', rgb: [4, 5, 6] });
    assert_eq!(h.begin_frame(4, 2, 3, false), RebuildDecision::Cached);
    assert_eq!(h.begin_frame(4, 2, 3, false), RebuildDecision::Cached);
    assert_eq!(h.begin_frame(4, 2, 3, false), RebuildDecision::Cached);
    assert_eq!(h.begin_frame(4, 2, 3, false), RebuildDecision::Rebuild);
    assert_eq!(h.begin_frame(4, 2, 100, true), RebuildDecision::Skip);
    assert_eq!(h.begin_frame(4, 2, 100, false), RebuildDecision::Cached);
    assert_eq!(h.begin_frame(5, 2, 1, false), RebuildDecision::Rebuild);
    h.invalidate();
    assert_eq!(h.begin_frame(5, 2, 1, false), RebuildDecision::Rebuild);
}

#[test]
fn heatmap_blocks_are_clipped_and_listed_row_by_row() {
    let mut h = HeatmapCache::default();
    h.begin_frame(3, 2, 0, false);
    h.fill_block(2, 1, 2, HeatmapCell { ch: 'x', rgb: [0, 0, 0] });
    h.fill_block(0, 0, 1, HeatmapCell { ch: 'y', rgb: [1, 1, 1] });
    assert_eq!(
        h.visible_cells(),
        vec![(0, 0, 'y', [1, 1, 1]), (2, 1, 'x', [0, 0, 0])]
    );
    let mut plotted = 0;
    h.plot_onto(|_, _, _, _| plotted += 1);
    assert_eq!(plotted, 2);
    assert_eq!(sample_step(0), 1);
    assert_eq!(sample_step(3), 3);
}

#[test]
fn kitty_defaults_and_panel_decision() {
    let k = KittySettings::default();
    assert!(!k.enabled);
    assert_eq!(k.mode, "density-panel");
    assert!(maybe_render_density_panel(true, "density-panel", true));
    assert!(!maybe_render_density_panel(true, "density-panel", false));
    assert!(!maybe_render_density_panel(false, "density-panel", true));
}

#[test]
fn projection_axes() {
    assert_eq!(Projection::default(), Projection::Xy);
    assert_eq!(Projection::Xz.plane_axes(), (0, 2));
    assert_eq!(Projection::Yz.plane_axes(), (1, 2));
}

fn r(x: u16, y: u16, width: u16, height: u16) -> Rect {
    Rect { x, y, width, height }
}

#[test]
fn layout_regions_of_the_hud() {
    let area = r(0, 0, 100, 30);
    let h = hud_regions(area, true);
    assert_eq!(h.status, r(0, 0, 100, 1));
    assert_eq!(h.footer, r(0, 28, 100, 2));
    assert_eq!(h.viewport, r(0, 1, 64, 27));
    assert_eq!(h.panel, r(64, 1, 36, 27));
    assert_eq!(simulation_area(area, false), area);
    assert_eq!(simulation_area(area, true), r(0, 1, 64, 28));
}

#[test]
fn small_geometry_helpers() {
    assert!(terminal_too_small(r(0, 0, 19, 30)));
    assert!(terminal_too_small(r(0, 0, 80, 7)));
    assert!(!terminal_too_small(r(0, 0, 20, 8)));
    assert_eq!(bordered_inner(r(0, 0, 10, 5)), r(1, 1, 8, 3));
    assert_eq!(bordered_inner(r(3, 3, 1, 1)), r(4, 4, 0, 0));
    assert_eq!(toast_rect(r(0, 0, 200, 50)), r(2, 46, 80, 3));
    assert_eq!(toast_rect(r(0, 0, 3, 2)), r(2, 0, 0, 3));
    assert_eq!(overload_warning_rect(r(0, 0, 80, 24)), r(0, 22, 80, 1));
    assert_eq!(Rect::new(65530, 0, 10, 1), r(65530, 0, 5, 1));
    assert_eq!(r(0, 65530, 1, 10).bottom(), 65535);
    assert_eq!(local_cell(5, 5, r(2, 3, 4, 4)), Some((3, 2)));
    assert_eq!(local_cell(6, 5, r(2, 3, 4, 4)), None);
    assert_eq!(local_cell(1, 5, r(2, 3, 4, 4)), None);
    assert_eq!(clamped_local(1, 5, r(2, 3, 4, 4)), (0, 2));
    let popup = centered_rect(50, 60, r(0, 0, 100, 50));
    assert_eq!(popup, r(25, 10, 50, 30));
}

#[test]
fn hud_texts() {
    let segments = status_segments(&StatusInputs {
        scenario: "earth-moon.toml".into(),
        paused: true,
        warp: "1.5".into(),
        dt: "300".into(),
        barnes_hut: false,
        projection: Projection::Xz,
        heatmap: false,
    });
    assert_eq!(
        segments.join(" | "),
        "graviton | earth-moon.toml | paused | warp 1.5x | dt 300s | RK4/direct | XZ | no heatmap"
    );
    assert_eq!(projection_label(Projection::Yz), "YZ");
    assert_eq!(
        footer_text("1.0000e-9", None, 2, "60", None),
        "energy drift: 1.0000e-9 | bodies: 2 | fps: 60 | ? help"
    );
    assert_eq!(
        footer_text("0", Some("3.0e1"), 12, "30", Some(TreeStats { nodes: 17, max_depth: 4 })),
        "energy drift: 0 | |p|: 3.0e1 kg\u{b7}m/s | bodies: 12 | fps: 30 | ? help | octree: 17 nodes depth 4"
    );
    assert_eq!(menu_entry(true, "a.toml"), "\u{25b8} a.toml");
    assert_eq!(menu_entry(false, "b.toml"), "  b.toml");
    assert_eq!(simulation_title("Earth-Moon", true, true), "Earth-Moon | g: field | paused");
    assert_eq!(simulation_title("Earth-Moon", false, false), "Earth-Moon");
}

#[test]
fn heatmap_rebuild_fills_every_cell_from_its_block() {
    let mut h = HeatmapCache::default();
    assert_eq!(h.begin_frame(5, 3, 1, false), RebuildDecision::Rebuild);
    let cell = |c: char| HeatmapCell { ch: c, rgb: [0, 0, 0] };
    // 5 x 3 cells in 2 x 2 blocks: 3 blocks across, 2 down.
    h.fill_from_samples(2, &vec![cell('a'), cell('b'), cell('c'), cell('d'), cell('e'), cell('f')]);
    let chars: String = h.visible_cells().iter().map(|c| c.2).collect();
    assert_eq!(chars, "aabbcaabbcddeef");
    let mut one = HeatmapCache::default();
    one.begin_frame(2, 2, 0, false);
    one.fill_from_samples(1, &vec![cell('w'), cell('x'), cell('y'), cell('z')]);
    assert_eq!(one.visible_cells().iter().map(|c| c.2).collect::<String>(), "wxyz");
}
