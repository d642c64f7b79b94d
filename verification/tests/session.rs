use graviton::app::{
    apply_overlay_preset, build_render_settings, carry_over_view_choices, keep_overlay_preset,
    CommandOutcome, EnergyHistory, InteractionState, OverlayPreset, RenderConfig, RenderSettings,
    RunFlags, SimAction,
};
use graviton::bench::{bench_plan, BenchCase};
use graviton::cli::{BenchArgs, FetchArgs, IntegratorArg, ValidateArgs};
use graviton::input::keymap::{map_key, AppCommand, KeyInput, KeyPress};
use graviton::input::mouse::{map_mouse, MouseButtonInput, MouseCommand, MouseInput, MouseKind};
use graviton::physics::barnes_hut::{child_octant, insert_step, InsertStep, TreeStats, MAX_DEPTH};
use graviton::physics::integrator::Rk4Integrator;
use graviton::render::camera::Projection;
use graviton::time::scheduler::StepBudget;

fn config() -> RenderConfig {
    RenderConfig {
        trail_capacity: 512,
        trail_sample_every: 4,
        heatmap_enabled: true,
        heatmap_sample_divisor: 2,
        show_com_marker: true,
        follow_center_of_mass: false,
        kitty_enabled: false,
        kitty_mode: "density-panel".into(),
    }
}

fn settings() -> RenderSettings {
    build_render_settings(&config(), &RunFlags { no_heatmap: false, no_trails: false }, OverlayPreset::Standard)
}

fn key(c: char) -> KeyPress {
    KeyPress { code: KeyInput::Char(c), shift: false }
}

#[test]
fn initial_render_settings_follow_the_standard_preset() {
    let s = settings();
    assert!(s.trails_enabled);
    assert!(s.hud_visible);
    assert!(s.heatmap_enabled);
    assert!(!s.show_com_marker);
    assert!(s.show_energy_diagnostics);
    assert!(!s.show_momentum_diagnostics);
    assert_eq!(s.trail_sample_every, 4);
    let off = build_render_settings(&config(), &RunFlags { no_heatmap: true, no_trails: true }, OverlayPreset::Standard);
    assert!(!off.trails_enabled);
    assert!(!off.heatmap_enabled);
}

#[test]
fn overlay_presets() {
    let mut s = settings();
    s.overlay_preset = OverlayPreset::Minimal;
    apply_overlay_preset(&mut s);
    assert!(!s.heatmap_enabled && !s.show_com_marker && !s.show_energy_diagnostics && !s.show_momentum_diagnostics);
    s.overlay_preset = OverlayPreset::Science;
    apply_overlay_preset(&mut s);
    assert!(s.heatmap_enabled && s.show_com_marker && s.show_energy_diagnostics && s.show_momentum_diagnostics);
    let before = s.clone();
    apply_overlay_preset(&mut s);
    assert_eq!(format!("{s:?}"), format!("{before:?}"));
}

#[test]
fn reload_keeps_view_choices() {
    let mut previous = settings();
    previous.trails_enabled = false;
    previous.hud_visible = false;
    previous.overlay_preset = OverlayPreset::Minimal;
    let mut fresh = settings();
    carry_over_view_choices(&mut fresh, &previous, false);
    assert!(!fresh.trails_enabled);
    assert!(!fresh.hud_visible);
    assert_eq!(fresh.overlay_preset, OverlayPreset::Minimal);
    assert!(!fresh.heatmap_enabled);
    let mut other = settings();
    keep_overlay_preset(&mut other, OverlayPreset::Full);
    assert_eq!(other.overlay_preset, OverlayPreset::Full);
    assert!(other.show_momentum_diagnostics);
}

fn session(bodies: usize, scenarios: usize) -> InteractionState {
    InteractionState::new(settings(), bodies, scenarios, None)
}

#[test]
fn keys_map_to_commands() {
    assert_eq!(map_key(key('q')), AppCommand::Quit);
    assert_eq!(map_key(KeyPress { code: KeyInput::Esc, shift: false }), AppCommand::Quit);
    assert_eq!(map_key(key(' ')), AppCommand::TogglePause);
    assert_eq!(map_key(key('=')), AppCommand::ZoomIn);
    assert_eq!(map_key(key('k')), AppCommand::Pan { dx: 0, dy: 1 });
    assert_eq!(map_key(KeyPress { code: KeyInput::Left, shift: false }), AppCommand::Pan { dx: -1, dy: 0 });
    assert_eq!(map_key(KeyPress { code: KeyInput::Tab, shift: true }), AppCommand::SelectPrevious);
    assert_eq!(map_key(KeyPress { code: KeyInput::BackTab, shift: false }), AppCommand::SelectPrevious);
    assert_eq!(map_key(key('x')), AppCommand::NoAction);
}

#[test]
fn mouse_events_map_to_commands() {
    let at = |kind| MouseInput { kind, column: 3, row: 4 };
    assert_eq!(map_mouse(at(MouseKind::Down(MouseButtonInput::Left))), Some(MouseCommand::SelectAt { col: 3, row: 4 }));
    assert_eq!(map_mouse(at(MouseKind::Drag(MouseButtonInput::Left))), Some(MouseCommand::DragTo { col: 3, row: 4 }));
    assert_eq!(map_mouse(at(MouseKind::Up(MouseButtonInput::Left))), Some(MouseCommand::DragEnd));
    assert_eq!(map_mouse(at(MouseKind::ScrollUp)), Some(MouseCommand::ZoomAt { col: 3, row: 4, zoom_in: true }));
    assert_eq!(map_mouse(at(MouseKind::ScrollDown)), Some(MouseCommand::ZoomAt { col: 3, row: 4, zoom_in: false }));
    assert_eq!(map_mouse(at(MouseKind::Down(MouseButtonInput::Right))), None);
    assert_eq!(map_mouse(at(MouseKind::Moved)), None);
}

fn nothing() -> CommandOutcome {
    CommandOutcome { action: SimAction::Nothing, invalidate_heatmap: false, recenter_on: None }
}

#[test]
fn selection_cycles_around_the_bodies() {
    let mut s = session(3, 0);
    assert_eq!(s.selected_body, Some(0));
    s.handle_command(AppCommand::SelectPrevious);
    assert_eq!(s.selected_body, Some(2));
    s.handle_command(AppCommand::SelectNext);
    s.handle_command(AppCommand::SelectNext);
    assert_eq!(s.selected_body, Some(1));
    s.cycle_selection(-7);
    assert_eq!(s.selected_body, Some(0));
    let mut empty = session(0, 0);
    assert_eq!(empty.selected_body, None);
    empty.handle_command(AppCommand::SelectNext);
    assert_eq!(empty.selected_body, None);
}

#[test]
fn commands_report_what_the_simulation_must_do() {
    let mut s = session(2, 0);
    assert_eq!(
        s.handle_command(AppCommand::ZoomIn),
        CommandOutcome { action: SimAction::Zoom { zoom_in: true }, invalidate_heatmap: true, recenter_on: None }
    );
    assert_eq!(
        s.handle_command(AppCommand::Pan { dx: 1, dy: 0 }),
        CommandOutcome { action: SimAction::Pan { dx: 1, dy: 0 }, invalidate_heatmap: true, recenter_on: None }
    );
    assert_eq!(s.handle_command(AppCommand::TogglePause).action, SimAction::TogglePause);
    assert_eq!(s.handle_command(AppCommand::NoAction), nothing());
    let o = s.handle_command(AppCommand::ToggleHeatmap);
    assert!(o.invalidate_heatmap);
    assert!(!s.render_settings.heatmap_enabled);
    s.handle_command(AppCommand::ProjectionYz);
    assert_eq!(s.projection, Projection::Yz);
    s.handle_command(AppCommand::FollowSelected);
    assert_eq!(s.handle_command(AppCommand::NoAction).recenter_on, Some(0));
    s.handle_command(AppCommand::Quit);
    assert!(s.should_quit);
}

#[test]
fn toggling_twice_restores_the_settings() {
    let mut s = session(1, 0);
    let before = format!("{:?}", s.render_settings);
    s.handle_command(AppCommand::ToggleTrails);
    assert_ne!(format!("{:?}", s.render_settings), before);
    s.handle_command(AppCommand::ToggleTrails);
    assert_eq!(format!("{:?}", s.render_settings), before);
}

#[test]
fn overlay_cycle_has_four_presets() {
    let mut s = session(1, 0);
    let mut seen = Vec::new();
    for _ in 0..4 {
        s.handle_command(AppCommand::CycleOverlayPreset);
        seen.push(s.render_settings.overlay_preset);
    }
    assert_eq!(seen, vec![OverlayPreset::Science, OverlayPreset::Minimal, OverlayPreset::Full, OverlayPreset::Standard]);
}

#[test]
fn scenario_menu_takes_its_own_keys() {
    let mut s = session(1, 3);
    assert_eq!(s.handle_command(AppCommand::OpenScenarioMenu), nothing());
    assert!(s.show_scenario_menu);
    s.handle_command(AppCommand::Pan { dx: 0, dy: 1 });
    assert_eq!(s.scenario_menu_index, 2);
    s.handle_command(AppCommand::SelectNext);
    assert_eq!(s.scenario_menu_index, 0);
    s.handle_command(AppCommand::Pan { dx: 0, dy: -1 });
    assert_eq!(s.scenario_menu_index, 1);
    assert_eq!(s.selected_body, Some(0));
    assert_eq!(
        s.handle_command(AppCommand::ScenarioMenuConfirm).action,
        SimAction::LoadScenario { index: 1 }
    );
    assert!(!s.show_scenario_menu);
    s.handle_command(AppCommand::OpenScenarioMenu);
    s.handle_command(AppCommand::Quit);
    assert!(!s.show_scenario_menu);
    assert!(!s.should_quit);

    let mut none = session(1, 0);
    assert_eq!(none.handle_command(AppCommand::OpenScenarioMenu).action, SimAction::RediscoverScenarios);
    none.set_scenario_count(2);
    assert_eq!(none.scenario_count, 2);
}

#[test]
fn energy_history_keeps_forty_samples() {
    let mut h: EnergyHistory<f64> = EnergyHistory::default();
    for i in 0..45 {
        h.push(i as f64);
    }
    assert_eq!(h.samples.len(), 40);
    assert_eq!(h.samples.front().copied(), Some(5.0));
    assert_eq!(h.samples.back().copied(), Some(44.0));
}

#[test]
fn step_budget_caps_a_frame() {
    let mut b = StepBudget::new();
    assert_eq!(b.max_steps_per_frame, 8);
    b.begin_frame();
    let mut steps = 0;
    while b.should_step(true) {
        steps += 1;
        let keep = b.consume_step(true);
        if steps < 8 {
            assert_eq!(keep, None);
        } else {
            assert_eq!(keep, Some(7));
        }
    }
    assert_eq!(steps, 8);
    assert!(b.overloaded);
    b.begin_frame();
    assert!(!b.overloaded);
    assert!(b.should_step(true));
    assert!(!b.should_step(false));
    assert_eq!(b.consume_step(false), None);
    assert!(!b.overloaded);
    assert_eq!(StepBudget::default(), StepBudget::new());
}

#[test]
fn bench_filters() {
    let all = bench_plan(None);
    assert_eq!(all.len(), 4);
    assert!(all.iter().all(|c| c.direct && c.barnes_hut && c.compare));
    assert_eq!(
        bench_plan(Some("direct")),
        vec![10, 100, 500, 1000]
            .into_iter()
            .map(|size| BenchCase { size, direct: true, barnes_hut: false, compare: false })
            .collect::<Vec<_>>()
    );
    assert_eq!(
        bench_plan(Some("100")),
        vec![
            BenchCase { size: 10, direct: false, barnes_hut: false, compare: false },
            BenchCase { size: 100, direct: false, barnes_hut: false, compare: false },
        ]
    );
    assert!(bench_plan(Some("nothing")).is_empty());
    assert!(bench_plan(Some("all")).iter().all(|c| c.compare));
}

#[test]
fn octree_bookkeeping() {
    assert_eq!(child_octant(false, false, false), 0);
    assert_eq!(child_octant(true, false, false), 1);
    assert_eq!(child_octant(false, true, true), 6);
    assert_eq!(child_octant(true, true, true), 7);
    assert_eq!(insert_step(true, false, 0), InsertStep::Place);
    assert_eq!(insert_step(false, true, 3), InsertStep::SplitAndDescend);
    assert_eq!(insert_step(false, true, MAX_DEPTH), InsertStep::Merge);
    assert_eq!(insert_step(false, false, 40), InsertStep::Descend);
    let mut stats = TreeStats::default();
    stats.finish();
    assert_eq!(stats, TreeStats { nodes: 1, max_depth: 0 });
    stats.record_visit(3);
    stats.record_visit(1);
    assert_eq!(stats, TreeStats { nodes: 3, max_depth: 3 });
}

#[test]
fn command_line_values() {
    assert_eq!(IntegratorArg::default(), IntegratorArg::Rk4);
    let f = FetchArgs::defaults();
    assert_eq!(f.preset, "solar-system");
    assert_eq!(f.center, "500@0");
    assert!(f.date.is_none() && f.output.is_none() && !f.offline && !f.force);
    let v = ValidateArgs { paths: vec![std::path::PathBuf::from("a.toml")] };
    assert_eq!(v.paths.len(), 1);
    let b = BenchArgs { filter: Some("direct".into()) };
    assert_eq!(b.filter.as_deref(), Some("direct"));
    let _ = Rk4Integrator;
}
