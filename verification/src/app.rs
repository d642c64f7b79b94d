//! The decisions of the interactive session: view settings, overlay presets,
//! selection, the scenario menu, and what each command asks of the simulation.
//!
//! The session loop lives with the program; it hands every command to
//! [`InteractionState::handle_command`] and carries out the [`SimAction`] that
//! comes back (camera moves, clock and time-step changes, loading scenarios).

use vstd::prelude::*;

use std::collections::VecDeque;

use crate::input::keymap::AppCommand;
use crate::render::trails::pushed_bounded;
use crate::render::camera::Projection;

verus! {

/// CLI flags that affect the interactive session.
#[derive(Debug, Clone, Copy, PartialEq, Eq, Structural)]
pub struct RunFlags {
    pub no_heatmap: bool,
    pub no_trails: bool,
}

/// Overlay preset cycled with `o`.
#[derive(Debug, Clone, Copy, PartialEq, Eq, Structural)]
pub enum OverlayPreset {
    Standard,
    Science,
    Minimal,
    Full,
}

/// UI and simulation settings for rendering.
#[derive(Debug, Clone)]
pub struct RenderSettings {
    pub trails_enabled: bool,
    pub trail_sample_every: u64,
    pub hud_visible: bool,
    pub heatmap_enabled: bool,
    pub heatmap_sample_divisor: u32,
    pub show_com_marker: bool,
    pub show_energy_diagnostics: bool,
    pub show_momentum_diagnostics: bool,
    pub overlay_preset: OverlayPreset,
    pub kitty_enabled: bool,
    pub kitty_mode: String,
}

/// Render options a scenario supplies.
#[derive(Debug, Clone)]
pub struct RenderConfig {
    pub trail_capacity: usize,
    pub trail_sample_every: u64,
    pub heatmap_enabled: bool,
    pub heatmap_sample_divisor: u32,
    pub show_com_marker: bool,
    pub follow_center_of_mass: bool,
    pub kitty_enabled: bool,
    pub kitty_mode: String,
}

/// The preset after `p` in the `o` cycle.
pub open spec fn next_preset(p: OverlayPreset) -> OverlayPreset {
    match p {
        OverlayPreset::Standard => OverlayPreset::Science,
        OverlayPreset::Science => OverlayPreset::Minimal,
        OverlayPreset::Minimal => OverlayPreset::Full,
        OverlayPreset::Full => OverlayPreset::Standard,
    }
}

/// `s` with the overlays its preset fixes: Standard hides the center-of-mass
/// marker and momentum and shows energy (the heatmap stays as it is); Science
/// and Full show everything; Minimal hides everything.
pub open spec fn with_preset_overlays(s: RenderSettings) -> RenderSettings {
    match s.overlay_preset {
        OverlayPreset::Standard => RenderSettings {
            show_com_marker: false,
            show_energy_diagnostics: true,
            show_momentum_diagnostics: false,
            ..s
        },
        OverlayPreset::Science | OverlayPreset::Full => RenderSettings {
            heatmap_enabled: true,
            show_com_marker: true,
            show_energy_diagnostics: true,
            show_momentum_diagnostics: true,
            ..s
        },
        OverlayPreset::Minimal => RenderSettings {
            heatmap_enabled: false,
            show_com_marker: false,
            show_energy_diagnostics: false,
            show_momentum_diagnostics: false,
            ..s
        },
    }
}

/// Sets the overlays that the current preset fixes.
pub fn apply_overlay_preset(settings: &mut RenderSettings)
    ensures
        *final(settings) == with_preset_overlays(*old(settings)),
{
    match settings.overlay_preset {
        OverlayPreset::Standard => {
            settings.show_com_marker = false;
            settings.show_energy_diagnostics = true;
            settings.show_momentum_diagnostics = false;
        },
        OverlayPreset::Science => {
            settings.heatmap_enabled = true;
            settings.show_com_marker = true;
            settings.show_energy_diagnostics = true;
            settings.show_momentum_diagnostics = true;
        },
        OverlayPreset::Minimal => {
            settings.heatmap_enabled = false;
            settings.show_com_marker = false;
            settings.show_energy_diagnostics = false;
            settings.show_momentum_diagnostics = false;
        },
        OverlayPreset::Full => {
            settings.heatmap_enabled = true;
            settings.show_com_marker = true;
            settings.show_energy_diagnostics = true;
            settings.show_momentum_diagnostics = true;
        },
    }
}

/// The settings a session starts with, before the preset is applied.
pub open spec fn initial_settings(render: RenderConfig, flags: RunFlags, overlay_preset: OverlayPreset) -> RenderSettings {
    RenderSettings {
        trails_enabled: !flags.no_trails,
        trail_sample_every: render.trail_sample_every,
        hud_visible: true,
        heatmap_enabled: render.heatmap_enabled && !flags.no_heatmap,
        heatmap_sample_divisor: render.heatmap_sample_divisor,
        show_com_marker: render.show_com_marker,
        show_energy_diagnostics: true,
        show_momentum_diagnostics: false,
        overlay_preset,
        kitty_enabled: render.kitty_enabled,
        kitty_mode: render.kitty_mode,
    }
}

/// The render settings of a new session: the scenario's options, the CLI flags
/// that switch trails and heatmap off, and the overlays of the preset.
pub fn build_render_settings(render: &RenderConfig, flags: &RunFlags, overlay_preset: OverlayPreset) -> (s: RenderSettings)
    ensures
        s == with_preset_overlays(initial_settings(*render, *flags, overlay_preset)),
{
    let mut settings = RenderSettings {
        trails_enabled: !flags.no_trails,
        trail_sample_every: render.trail_sample_every,
        hud_visible: true,
        heatmap_enabled: render.heatmap_enabled && !flags.no_heatmap,
        heatmap_sample_divisor: render.heatmap_sample_divisor,
        show_com_marker: render.show_com_marker,
        show_energy_diagnostics: true,
        show_momentum_diagnostics: false,
        overlay_preset,
        kitty_enabled: render.kitty_enabled,
        kitty_mode: render.kitty_mode.clone(),
    };
    apply_overlay_preset(&mut settings);
    settings
}

/// The settings of a freshly reloaded scenario that keep the user's choices:
/// preset, trails, HUD and heatmap (unless the heatmap is switched off on the
/// command line), with the preset's overlays applied again.
pub open spec fn carried_over(fresh: RenderSettings, previous: RenderSettings, no_heatmap: bool) -> RenderSettings {
    with_preset_overlays(
        RenderSettings {
            overlay_preset: previous.overlay_preset,
            trails_enabled: previous.trails_enabled,
            hud_visible: previous.hud_visible,
            heatmap_enabled: previous.heatmap_enabled && !no_heatmap,
            ..fresh
        },
    )
}

/// Keeps the view choices of `previous` in the settings of a reloaded scenario.
pub fn carry_over_view_choices(fresh: &mut RenderSettings, previous: &RenderSettings, no_heatmap: bool)
    ensures
        *final(fresh) == carried_over(*old(fresh), *previous, no_heatmap),
{
    fresh.overlay_preset = previous.overlay_preset;
    fresh.trails_enabled = previous.trails_enabled;
    fresh.hud_visible = previous.hud_visible;
    fresh.heatmap_enabled = previous.heatmap_enabled && !no_heatmap;
    apply_overlay_preset(fresh);
}

/// The settings of a scenario picked from the menu: the previous preset, with
/// its overlays applied.
pub open spec fn with_previous_preset(fresh: RenderSettings, preset: OverlayPreset) -> RenderSettings {
    with_preset_overlays(RenderSettings { overlay_preset: preset, ..fresh })
}

/// Keeps the overlay preset when another scenario is picked from the menu.
pub fn keep_overlay_preset(fresh: &mut RenderSettings, preset: OverlayPreset)
    ensures
        *final(fresh) == with_previous_preset(*old(fresh), preset),
{
    fresh.overlay_preset = preset;
    apply_overlay_preset(fresh);
}

/// What the session loop has to do after a command.
#[derive(Debug, Clone, Copy, PartialEq, Eq, Structural)]
pub enum SimAction {
    Nothing,
    TogglePause,
    ResetSimulation,
    ReloadScenario,
    /// Zoom about the middle of the view.
    Zoom { zoom_in: bool },
    ResetZoom,
    /// Move the view by whole cells.
    Pan { dx: i32, dy: i32 },
    FrameAll,
    /// Look for scenario files again (the menu opened with none known).
    RediscoverScenarios,
    ValidateScenario,
    IncreaseTimeWarp,
    DecreaseTimeWarp,
    IncreaseDt,
    DecreaseDt,
    /// Load the scenario at this menu position.
    LoadScenario { index: usize },
}

/// The outcome of a command: an action, whether the heatmap must be rebuilt,
/// and the body the camera follows, if any.
#[derive(Debug, Clone, Copy, PartialEq, Eq, Structural)]
pub struct CommandOutcome {
    pub action: SimAction,
    pub invalidate_heatmap: bool,
    pub recenter_on: Option<usize>,
}

/// The state of an interactive session that commands change.
#[derive(Debug)]
pub struct InteractionState {
    pub render_settings: RenderSettings,
    pub selected_body: Option<usize>,
    pub body_count: usize,
    pub follow_selected: bool,
    pub show_help: bool,
    pub should_quit: bool,
    pub projection: Projection,
    pub show_scenario_menu: bool,
    pub scenario_menu_index: usize,
    pub scenario_count: usize,
}

/// Stepping forward by `delta` is stepping by `delta % n`.
proof fn lemma_wrap_forward(current: int, delta: int, n: int, d: int)
    requires
        0 <= current < n,
        0 <= delta,
        d == delta % n,
    ensures
        (current + d) % n == (current + delta) % n,
{
    vstd::arithmetic::div_mod::lemma_fundamental_div_mod(delta, n);
    vstd::arithmetic::div_mod::lemma_mod_multiples_vanish(delta / n, current + d, n);
    assert(n * (delta / n) + (current + d) == current + delta);
}

/// Stepping backward by `-delta` is stepping forward by `n - (-delta) % n`.
proof fn lemma_wrap_backward(current: int, delta: int, n: int, d: int)
    requires
        0 <= current < n,
        delta < 0,
        d == (-delta) % n,
    ensures
        (current + n - d) % n == (current + delta) % n,
{
    let k = -delta;
    vstd::arithmetic::div_mod::lemma_fundamental_div_mod(k, n);
    vstd::arithmetic::div_mod::lemma_mod_multiples_vanish(-(k / n + 1), current + n - d, n);
    assert(n * (-(k / n + 1)) + (current + n - d) == current + delta) by (nonlinear_arith)
        requires
            k == n * (k / n) + d,
            k == -delta,
    ;
}

impl InteractionState {
    /// The selection names a body and the menu position names a scenario
    /// (or there is none).
    pub open spec fn wf(&self) -> bool {
        &&& self.selected_body matches Some(i) ==> i < self.body_count
        &&& if self.scenario_count == 0 {
            self.scenario_menu_index == 0
        } else {
            self.scenario_menu_index < self.scenario_count
        }
    }

    /// A session on a scenario with `body_count` bodies: the first body is
    /// selected, the camera looks at the XY plane, and the menu points at the
    /// current scenario (`current_scenario`) or at the first one.
    pub fn new(
        render_settings: RenderSettings,
        body_count: usize,
        scenario_count: usize,
        current_scenario: Option<usize>,
    ) -> (s: Self)
        requires
            current_scenario matches Some(i) ==> i < scenario_count,
        ensures
            s.wf(),
            s.render_settings == render_settings,
            s.selected_body == (if body_count == 0 {
                None
            } else {
                Some(0usize)
            }),
            s.body_count == body_count,
            !s.follow_selected && !s.show_help && !s.should_quit && !s.show_scenario_menu,
            s.projection == Projection::Xy,
            s.scenario_count == scenario_count,
            s.scenario_menu_index == match current_scenario {
                Some(i) => i,
                None => 0,
            },
    {
        InteractionState {
            render_settings,
            selected_body: if body_count == 0 {
                None
            } else {
                Some(0)
            },
            body_count,
            follow_selected: false,
            show_help: false,
            should_quit: false,
            projection: Projection::Xy,
            show_scenario_menu: false,
            scenario_menu_index: match current_scenario {
                Some(i) => i,
                None => 0,
            },
            scenario_count,
        }
    }

    /// The selection moved by `delta` places around the bodies (from the first
    /// body when nothing is selected); no selection without bodies.
    pub open spec fn cycled_selection(self, delta: int) -> Option<usize> {
        if self.body_count == 0 {
            None
        } else {
            let current = match self.selected_body {
                Some(i) => i as int,
                None => 0,
            };
            Some(((current + delta) % (self.body_count as int)) as usize)
        }
    }

    /// Moves the selection by `delta` places, wrapping around.
    pub fn cycle_selection(&mut self, delta: isize)
        requires
            old(self).wf(),
        ensures
            final(self).wf(),
            *final(self) == (InteractionState { selected_body: old(self).cycled_selection(delta as int), ..*old(self) }),
    {
        let n = self.body_count;
        if n == 0 {
            self.selected_body = None;
            return;
        }
        let current: usize = match self.selected_body {
            Some(i) => i,
            None => 0,
        };
        let next: usize = if delta >= 0 {
            let d = ((delta as u128) % (n as u128)) as usize;
            proof {
                lemma_wrap_forward(current as int, delta as int, n as int, d as int);
            }
            ((current as u128 + d as u128) % (n as u128)) as usize
        } else {
            let k = (0 - (delta as i128)) as u128;
            let d = (k % (n as u128)) as usize;
            proof {
                lemma_wrap_backward(current as int, delta as int, n as int, d as int);
            }
            ((current as u128 + n as u128 - d as u128) % (n as u128)) as usize
        };
        self.selected_body = Some(next as usize);
    }
}


/// An outcome with no follow-up recentering.
pub open spec fn plain_outcome(action: SimAction, invalidate_heatmap: bool) -> CommandOutcome {
    CommandOutcome { action, invalidate_heatmap, recenter_on: None }
}

/// The commands that only ask something of the simulation or the camera, with
/// whether the heatmap must be rebuilt.
pub open spec fn simple_action(cmd: AppCommand) -> Option<(SimAction, bool)> {
    match cmd {
        AppCommand::TogglePause => Some((SimAction::TogglePause, false)),
        AppCommand::ResetSimulation => Some((SimAction::ResetSimulation, false)),
        AppCommand::ReloadScenario => Some((SimAction::ReloadScenario, false)),
        AppCommand::ZoomIn => Some((SimAction::Zoom { zoom_in: true }, true)),
        AppCommand::ZoomOut => Some((SimAction::Zoom { zoom_in: false }, true)),
        AppCommand::ResetZoom => Some((SimAction::ResetZoom, true)),
        AppCommand::Pan { dx, dy } => Some((SimAction::Pan { dx, dy }, true)),
        AppCommand::FrameAll => Some((SimAction::FrameAll, true)),
        AppCommand::ValidateScenario => Some((SimAction::ValidateScenario, false)),
        AppCommand::IncreaseTimeWarp => Some((SimAction::IncreaseTimeWarp, false)),
        AppCommand::DecreaseTimeWarp => Some((SimAction::DecreaseTimeWarp, false)),
        AppCommand::IncreaseDt => Some((SimAction::IncreaseDt, false)),
        AppCommand::DecreaseDt => Some((SimAction::DecreaseDt, false)),
        AppCommand::NoAction => Some((SimAction::Nothing, false)),
        _ => None,
    }
}

/// The commands that switch render settings, with the new settings and
/// whether the heatmap must be rebuilt.
pub open spec fn settings_after(rs: RenderSettings, cmd: AppCommand) -> Option<(RenderSettings, bool)> {
    match cmd {
        AppCommand::ToggleTrails => Some((RenderSettings { trails_enabled: !rs.trails_enabled, ..rs }, false)),
        AppCommand::ToggleHud => Some((RenderSettings { hud_visible: !rs.hud_visible, ..rs }, false)),
        AppCommand::ToggleHeatmap => Some((RenderSettings { heatmap_enabled: !rs.heatmap_enabled, ..rs }, true)),
        AppCommand::ToggleEnergyDiagnostics => Some((RenderSettings { show_energy_diagnostics: !rs.show_energy_diagnostics, ..rs }, false)),
        AppCommand::ToggleMomentumDiagnostics => Some((RenderSettings { show_momentum_diagnostics: !rs.show_momentum_diagnostics, ..rs }, false)),
        AppCommand::ToggleComMarker => Some((RenderSettings { show_com_marker: !rs.show_com_marker, ..rs }, false)),
        AppCommand::CycleOverlayPreset => Some((with_preset_overlays(RenderSettings { overlay_preset: next_preset(rs.overlay_preset), ..rs }), true)),
        _ => None,
    }
}

fn simple_action_exec(cmd: AppCommand) -> (r: Option<(SimAction, bool)>)
    ensures
        r == simple_action(cmd),
{
    match cmd {
        AppCommand::TogglePause => Some((SimAction::TogglePause, false)),
        AppCommand::ResetSimulation => Some((SimAction::ResetSimulation, false)),
        AppCommand::ReloadScenario => Some((SimAction::ReloadScenario, false)),
        AppCommand::ZoomIn => Some((SimAction::Zoom { zoom_in: true }, true)),
        AppCommand::ZoomOut => Some((SimAction::Zoom { zoom_in: false }, true)),
        AppCommand::ResetZoom => Some((SimAction::ResetZoom, true)),
        AppCommand::Pan { dx, dy } => Some((SimAction::Pan { dx, dy }, true)),
        AppCommand::FrameAll => Some((SimAction::FrameAll, true)),
        AppCommand::ValidateScenario => Some((SimAction::ValidateScenario, false)),
        AppCommand::IncreaseTimeWarp => Some((SimAction::IncreaseTimeWarp, false)),
        AppCommand::DecreaseTimeWarp => Some((SimAction::DecreaseTimeWarp, false)),
        AppCommand::IncreaseDt => Some((SimAction::IncreaseDt, false)),
        AppCommand::DecreaseDt => Some((SimAction::DecreaseDt, false)),
        AppCommand::NoAction => Some((SimAction::Nothing, false)),
        _ => None,
    }
}

fn cycle_overlay_preset(settings: &mut RenderSettings)
    ensures
        *final(settings) == with_preset_overlays(RenderSettings { overlay_preset: next_preset(old(settings).overlay_preset), ..*old(settings) }),
{
    settings.overlay_preset = match settings.overlay_preset {
        OverlayPreset::Standard => OverlayPreset::Science,
        OverlayPreset::Science => OverlayPreset::Minimal,
        OverlayPreset::Minimal => OverlayPreset::Full,
        OverlayPreset::Full => OverlayPreset::Standard,
    };
    apply_overlay_preset(settings);
}

fn settings_command(rs: &mut RenderSettings, cmd: AppCommand) -> (r: Option<bool>)
    ensures
        match settings_after(*old(rs), cmd) {
            Some((s, inv)) => r == Some(inv) && *final(rs) == s,
            None => r is None && *final(rs) == *old(rs),
        },
{
    match cmd {
        AppCommand::ToggleTrails => {
            rs.trails_enabled = !rs.trails_enabled;
            Some(false)
        },
        AppCommand::ToggleHud => {
            rs.hud_visible = !rs.hud_visible;
            Some(false)
        },
        AppCommand::ToggleHeatmap => {
            rs.heatmap_enabled = !rs.heatmap_enabled;
            Some(true)
        },
        AppCommand::ToggleEnergyDiagnostics => {
            rs.show_energy_diagnostics = !rs.show_energy_diagnostics;
            Some(false)
        },
        AppCommand::ToggleMomentumDiagnostics => {
            rs.show_momentum_diagnostics = !rs.show_momentum_diagnostics;
            Some(false)
        },
        AppCommand::ToggleComMarker => {
            rs.show_com_marker = !rs.show_com_marker;
            Some(false)
        },
        AppCommand::CycleOverlayPreset => {
            cycle_overlay_preset(rs);
            Some(true)
        },
        _ => None,
    }
}

impl InteractionState {
    /// The menu position one up, wrapping to the last scenario.
    pub open spec fn menu_up_index(self) -> usize {
        if self.scenario_count == 0 {
            self.scenario_menu_index
        } else if self.scenario_menu_index == 0 {
            (self.scenario_count - 1) as usize
        } else {
            (self.scenario_menu_index - 1) as usize
        }
    }

    /// The menu position one down, wrapping to the first scenario.
    pub open spec fn menu_down_index(self) -> usize {
        if self.scenario_count == 0 {
            self.scenario_menu_index
        } else {
            ((self.scenario_menu_index + 1) % (self.scenario_count as int)) as usize
        }
    }

    /// Moves the menu cursor up, wrapping around.
    pub fn scenario_menu_up(&mut self)
        requires
            old(self).wf(),
        ensures
            final(self).wf(),
            *final(self) == (InteractionState { scenario_menu_index: old(self).menu_up_index(), ..*old(self) }),
    {
        if self.scenario_count == 0 {
            return;
        }
        if self.scenario_menu_index == 0 {
            self.scenario_menu_index = self.scenario_count - 1;
        } else {
            self.scenario_menu_index -= 1;
        }
    }

    /// Moves the menu cursor down, wrapping around.
    pub fn scenario_menu_down(&mut self)
        requires
            old(self).wf(),
        ensures
            final(self).wf(),
            *final(self) == (InteractionState { scenario_menu_index: old(self).menu_down_index(), ..*old(self) }),
    {
        if self.scenario_count == 0 {
            return;
        }
        self.scenario_menu_index = (self.scenario_menu_index + 1) % self.scenario_count;
    }

    /// Closing the menu with Enter loads the scenario under the cursor, if any.
    pub open spec fn confirmed(self) -> (InteractionState, CommandOutcome) {
        let closed = InteractionState { show_scenario_menu: false, ..self };
        if self.scenario_menu_index < self.scenario_count {
            (closed, plain_outcome(SimAction::LoadScenario { index: self.scenario_menu_index }, false))
        } else {
            (closed, plain_outcome(SimAction::Nothing, false))
        }
    }

    /// The state and outcome of a command outside the menu's own keys, before
    /// the camera is pointed at a followed body.
    pub open spec fn command_effect(self, cmd: AppCommand) -> (InteractionState, CommandOutcome) {
        match simple_action(cmd) {
            Some((a, inv)) => (self, plain_outcome(a, inv)),
            None => match settings_after(self.render_settings, cmd) {
                Some((rs, inv)) => (InteractionState { render_settings: rs, ..self }, plain_outcome(SimAction::Nothing, inv)),
                None => self.state_effect(cmd),
            },
        }
    }

    /// The commands that change the session state itself.
    pub open spec fn state_effect(self, cmd: AppCommand) -> (InteractionState, CommandOutcome) {
        match cmd {
            AppCommand::Quit => (InteractionState { should_quit: true, ..self }, plain_outcome(SimAction::Nothing, false)),
            AppCommand::ToggleHelp => (InteractionState { show_help: !self.show_help, ..self }, plain_outcome(SimAction::Nothing, false)),
            AppCommand::FollowSelected => (InteractionState { follow_selected: !self.follow_selected, ..self }, plain_outcome(SimAction::Nothing, false)),
            AppCommand::ProjectionXy => (InteractionState { projection: Projection::Xy, ..self }, plain_outcome(SimAction::Nothing, true)),
            AppCommand::ProjectionXz => (InteractionState { projection: Projection::Xz, ..self }, plain_outcome(SimAction::Nothing, true)),
            AppCommand::ProjectionYz => (InteractionState { projection: Projection::Yz, ..self }, plain_outcome(SimAction::Nothing, true)),
            AppCommand::SelectNext => (InteractionState { selected_body: self.cycled_selection(1), ..self }, plain_outcome(SimAction::Nothing, false)),
            AppCommand::SelectPrevious => (InteractionState { selected_body: self.cycled_selection(-1), ..self }, plain_outcome(SimAction::Nothing, false)),
            AppCommand::OpenScenarioMenu => (InteractionState { show_scenario_menu: true, ..self }, plain_outcome(if self.scenario_count == 0 { SimAction::RediscoverScenarios } else { SimAction::Nothing }, false)),
            AppCommand::ScenarioMenuConfirm => if self.show_scenario_menu { self.confirmed() } else { (self, plain_outcome(SimAction::Nothing, false)) },
            _ => (self, plain_outcome(SimAction::Nothing, false)),
        }
    }

    /// A command outside the menu's own keys: its effect, then the camera
    /// follows the selected body when following is on.
    pub open spec fn after_command(self, cmd: AppCommand) -> (InteractionState, CommandOutcome) {
        let (s, o) = self.command_effect(cmd);
        let recenter_on = if s.follow_selected { s.selected_body } else { None };
        (s, CommandOutcome { recenter_on, ..o })
    }

    /// The keys the open scenario menu handles itself: up and previous move
    /// the cursor up, down and next move it down, Enter loads, quit and help
    /// close the menu.
    pub open spec fn menu_handles(self, cmd: AppCommand) -> bool {
        self.show_scenario_menu && match cmd {
            AppCommand::Pan { dx, dy } => dy == 1 || dy == -1,
            AppCommand::SelectPrevious | AppCommand::SelectNext | AppCommand::ScenarioMenuConfirm
            | AppCommand::Quit | AppCommand::ToggleHelp => true,
            _ => false,
        }
    }

    /// What a command does in the session.
    pub open spec fn after_key(self, cmd: AppCommand) -> (InteractionState, CommandOutcome) {
        if self.menu_handles(cmd) {
            match cmd {
                AppCommand::Pan { dx, dy } => if dy == 1 {
                    (InteractionState { scenario_menu_index: self.menu_up_index(), ..self }, plain_outcome(SimAction::Nothing, false))
                } else {
                    (InteractionState { scenario_menu_index: self.menu_down_index(), ..self }, plain_outcome(SimAction::Nothing, false))
                },
                AppCommand::SelectPrevious => (InteractionState { scenario_menu_index: self.menu_up_index(), ..self }, plain_outcome(SimAction::Nothing, false)),
                AppCommand::SelectNext => (InteractionState { scenario_menu_index: self.menu_down_index(), ..self }, plain_outcome(SimAction::Nothing, false)),
                AppCommand::ScenarioMenuConfirm => self.confirmed(),
                _ => (InteractionState { show_scenario_menu: false, ..self }, plain_outcome(SimAction::Nothing, false)),
            }
        } else {
            self.after_command(cmd)
        }
    }

    fn confirm_scenario_menu(&mut self) -> (o: CommandOutcome)
        requires
            old(self).wf(),
        ensures
            final(self).wf(),
            (*final(self), o) == old(self).confirmed(),
    {
        self.show_scenario_menu = false;
        if self.scenario_menu_index < self.scenario_count {
            CommandOutcome {
                action: SimAction::LoadScenario { index: self.scenario_menu_index },
                invalidate_heatmap: false,
                recenter_on: None,
            }
        } else {
            CommandOutcome { action: SimAction::Nothing, invalidate_heatmap: false, recenter_on: None }
        }
    }

    fn state_effect_exec(&mut self, cmd: AppCommand) -> (o: CommandOutcome)
        requires
            old(self).wf(),
        ensures
            final(self).wf(),
            (*final(self), o) == old(self).state_effect(cmd),
    {
        let nothing = CommandOutcome { action: SimAction::Nothing, invalidate_heatmap: false, recenter_on: None };
        let refresh = CommandOutcome { action: SimAction::Nothing, invalidate_heatmap: true, recenter_on: None };
        match cmd {
            AppCommand::Quit => {
                self.should_quit = true;
                nothing
            },
            AppCommand::ToggleHelp => {
                self.show_help = !self.show_help;
                nothing
            },
            AppCommand::FollowSelected => {
                self.follow_selected = !self.follow_selected;
                nothing
            },
            AppCommand::ProjectionXy => {
                self.projection = Projection::Xy;
                refresh
            },
            AppCommand::ProjectionXz => {
                self.projection = Projection::Xz;
                refresh
            },
            AppCommand::ProjectionYz => {
                self.projection = Projection::Yz;
                refresh
            },
            AppCommand::SelectNext => {
                self.cycle_selection(1);
                nothing
            },
            AppCommand::SelectPrevious => {
                self.cycle_selection(-1);
                nothing
            },
            AppCommand::OpenScenarioMenu => {
                self.show_scenario_menu = true;
                if self.scenario_count == 0 {
                    CommandOutcome { action: SimAction::RediscoverScenarios, ..nothing }
                } else {
                    nothing
                }
            },
            AppCommand::ScenarioMenuConfirm => {
                if self.show_scenario_menu {
                    self.confirm_scenario_menu()
                } else {
                    nothing
                }
            },
            _ => nothing,
        }
    }

    fn command_effect_exec(&mut self, cmd: AppCommand) -> (o: CommandOutcome)
        requires
            old(self).wf(),
        ensures
            final(self).wf(),
            (*final(self), o) == old(self).command_effect(cmd),
    {
        if let Some((action, invalidate_heatmap)) = simple_action_exec(cmd) {
            return CommandOutcome { action, invalidate_heatmap, recenter_on: None };
        }
        if let Some(invalidate_heatmap) = settings_command(&mut self.render_settings, cmd) {
            return CommandOutcome { action: SimAction::Nothing, invalidate_heatmap, recenter_on: None };
        }
        self.state_effect_exec(cmd)
    }

    fn apply_command(&mut self, cmd: AppCommand) -> (o: CommandOutcome)
        requires
            old(self).wf(),
        ensures
            final(self).wf(),
            (*final(self), o) == old(self).after_command(cmd),
    {
        let o = self.command_effect_exec(cmd);
        let recenter_on = if self.follow_selected {
            self.selected_body
        } else {
            None
        };
        CommandOutcome { recenter_on, ..o }
    }

    /// Handles one command of the session: the open scenario menu takes its own
    /// keys first; every other command changes the view state and says what
    /// the simulation has to do.
    pub fn handle_command(&mut self, cmd: AppCommand) -> (o: CommandOutcome)
        requires
            old(self).wf(),
        ensures
            final(self).wf(),
            (*final(self), o) == old(self).after_key(cmd),
    {
        if self.show_scenario_menu {
            match cmd {
                AppCommand::Pan { dx, dy } => {
                    if dy == 1 {
                        self.scenario_menu_up();
                        return CommandOutcome { action: SimAction::Nothing, invalidate_heatmap: false, recenter_on: None };
                    } else if dy == -1 {
                        self.scenario_menu_down();
                        return CommandOutcome { action: SimAction::Nothing, invalidate_heatmap: false, recenter_on: None };
                    }
                },
                AppCommand::SelectPrevious => {
                    self.scenario_menu_up();
                    return CommandOutcome { action: SimAction::Nothing, invalidate_heatmap: false, recenter_on: None };
                },
                AppCommand::SelectNext => {
                    self.scenario_menu_down();
                    return CommandOutcome { action: SimAction::Nothing, invalidate_heatmap: false, recenter_on: None };
                },
                AppCommand::ScenarioMenuConfirm => {
                    return self.confirm_scenario_menu();
                },
                AppCommand::Quit | AppCommand::ToggleHelp => {
                    self.show_scenario_menu = false;
                    return CommandOutcome { action: SimAction::Nothing, invalidate_heatmap: false, recenter_on: None };
                },
                _ => {},
            }
        }
        self.apply_command(cmd)
    }

    /// Records the scenario files found again after the menu opened with none.
    pub fn set_scenario_count(&mut self, count: usize)
        requires
            old(self).wf(),
            old(self).scenario_count == 0,
        ensures
            final(self).wf(),
            *final(self) == (InteractionState { scenario_count: count, ..*old(self) }),
    {
        self.scenario_count = count;
    }
}


/// Cycling the overlay preset four times comes back to the same preset.
pub proof fn lemma_preset_cycle_has_period_four(p: OverlayPreset)
    ensures
        next_preset(next_preset(next_preset(next_preset(p)))) == p,
        next_preset(p) != p,
{
}

/// Applying a preset's overlays a second time changes nothing.
pub proof fn lemma_preset_overlays_idempotent(s: RenderSettings)
    ensures
        with_preset_overlays(with_preset_overlays(s)) == with_preset_overlays(s),
{
}

/// Outside the scenario menu, selecting the next body and then the previous
/// one comes back to the body that was selected.
pub proof fn lemma_next_then_previous_selection(s: InteractionState)
    requires
        s.wf(),
        !s.show_scenario_menu,
        s.selected_body is Some,
    ensures
        s.after_key(AppCommand::SelectNext).0.after_key(AppCommand::SelectPrevious).0.selected_body
            == s.selected_body,
{
    let i = s.selected_body->0 as int;
    let n = s.body_count as int;
    lemma_step_forward_mod(i, n);
    let j = (i + 1) % n;
    if i + 1 < n {
        vstd::arithmetic::div_mod::lemma_small_mod(i as nat, n as nat);
    } else {
        vstd::arithmetic::div_mod::lemma_mod_add_multiples_vanish(-1, n);
        vstd::arithmetic::div_mod::lemma_small_mod((n - 1) as nat, n as nat);
    }
    assert((j + -1) % n == i);
}

/// One step forward around `n` places: the next place, or the first after the last.
proof fn lemma_step_forward_mod(i: int, n: int)
    requires
        0 <= i < n,
    ensures
        i + 1 < n ==> (i + 1) % n == i + 1,
        i + 1 == n ==> (i + 1) % n == 0,
{
    if i + 1 < n {
        vstd::arithmetic::div_mod::lemma_small_mod((i + 1) as nat, n as nat);
    } else {
        vstd::arithmetic::div_mod::lemma_mod_self_0(n);
    }
}

/// In the open scenario menu, moving down and then up comes back to the same
/// entry.
pub proof fn lemma_menu_down_then_up(s: InteractionState)
    requires
        s.wf(),
        s.show_scenario_menu,
        s.scenario_count > 0,
    ensures
        s.after_key(AppCommand::SelectNext).0.after_key(AppCommand::SelectPrevious).0.scenario_menu_index
            == s.scenario_menu_index,
{
    lemma_step_forward_mod(s.scenario_menu_index as int, s.scenario_count as int);
}

/// A switch of the view pressed twice leaves the session as it was.
pub proof fn lemma_toggle_twice_is_identity(s: InteractionState, cmd: AppCommand)
    requires
        s.wf(),
        !s.show_scenario_menu,
        !s.follow_selected,
        cmd == AppCommand::ToggleTrails || cmd == AppCommand::ToggleHud || cmd == AppCommand::ToggleHeatmap
            || cmd == AppCommand::ToggleEnergyDiagnostics || cmd == AppCommand::ToggleMomentumDiagnostics
            || cmd == AppCommand::ToggleComMarker || cmd == AppCommand::ToggleHelp || cmd == AppCommand::FollowSelected,
    ensures
        s.after_key(cmd).0.after_key(cmd).0 == s,
{
}

/// Quit ends the session, except that in the open scenario menu it only
/// closes the menu.
pub proof fn lemma_quit(s: InteractionState)
    requires
        s.wf(),
    ensures
        s.show_scenario_menu ==> !s.after_key(AppCommand::Quit).0.show_scenario_menu
            && s.after_key(AppCommand::Quit).0.should_quit == s.should_quit,
        !s.show_scenario_menu ==> s.after_key(AppCommand::Quit).0.should_quit,
{
}

/// Outside the scenario menu, every command that asks something of the
/// simulation or the camera is passed on as the action of the same name:
/// speeding time up never slows it down, zooming in never zooms out, and a pan
/// moves by the cells it names. Such commands leave the session state alone;
/// only the ones that move the view ask for a new heatmap.
pub proof fn lemma_simulation_commands_keep_their_meaning(s: InteractionState, dx: i32, dy: i32)
    requires
        !s.show_scenario_menu,
    ensures
        s.after_key(AppCommand::TogglePause).1.action == SimAction::TogglePause,
        s.after_key(AppCommand::ResetSimulation).1.action == SimAction::ResetSimulation,
        s.after_key(AppCommand::ReloadScenario).1.action == SimAction::ReloadScenario,
        s.after_key(AppCommand::ZoomIn).1.action == (SimAction::Zoom { zoom_in: true }),
        s.after_key(AppCommand::ZoomOut).1.action == (SimAction::Zoom { zoom_in: false }),
        s.after_key(AppCommand::ResetZoom).1.action == SimAction::ResetZoom,
        s.after_key(AppCommand::Pan { dx, dy }).1.action == (SimAction::Pan { dx, dy }),
        s.after_key(AppCommand::FrameAll).1.action == SimAction::FrameAll,
        s.after_key(AppCommand::ValidateScenario).1.action == SimAction::ValidateScenario,
        s.after_key(AppCommand::IncreaseTimeWarp).1.action == SimAction::IncreaseTimeWarp,
        s.after_key(AppCommand::DecreaseTimeWarp).1.action == SimAction::DecreaseTimeWarp,
        s.after_key(AppCommand::IncreaseDt).1.action == SimAction::IncreaseDt,
        s.after_key(AppCommand::DecreaseDt).1.action == SimAction::DecreaseDt,
        s.after_key(AppCommand::NoAction).1.action == SimAction::Nothing,
        s.after_key(AppCommand::TogglePause).0 == s,
        s.after_key(AppCommand::ZoomIn).0 == s,
        s.after_key(AppCommand::ZoomOut).0 == s,
        s.after_key(AppCommand::Pan { dx, dy }).0 == s,
        s.after_key(AppCommand::IncreaseTimeWarp).0 == s,
        s.after_key(AppCommand::DecreaseTimeWarp).0 == s,
        s.after_key(AppCommand::IncreaseDt).0 == s,
        s.after_key(AppCommand::DecreaseDt).0 == s,
        s.after_key(AppCommand::ZoomIn).1.invalidate_heatmap,
        s.after_key(AppCommand::ZoomOut).1.invalidate_heatmap,
        s.after_key(AppCommand::ResetZoom).1.invalidate_heatmap,
        s.after_key(AppCommand::Pan { dx, dy }).1.invalidate_heatmap,
        s.after_key(AppCommand::FrameAll).1.invalidate_heatmap,
        !s.after_key(AppCommand::TogglePause).1.invalidate_heatmap,
        !s.after_key(AppCommand::IncreaseTimeWarp).1.invalidate_heatmap,
        !s.after_key(AppCommand::DecreaseTimeWarp).1.invalidate_heatmap,
        !s.after_key(AppCommand::IncreaseDt).1.invalidate_heatmap,
        !s.after_key(AppCommand::DecreaseDt).1.invalidate_heatmap,
{
}

/// Outside the scenario menu, each switch flips its own setting and nothing
/// else, and each projection key selects its own plane.
pub proof fn lemma_switches_flip_their_own_setting(s: InteractionState)
    requires
        !s.show_scenario_menu,
    ensures
        ({
            let rs = s.render_settings;
            &&& s.after_key(AppCommand::ToggleTrails).0.render_settings == (RenderSettings { trails_enabled: !rs.trails_enabled, ..rs })
            &&& s.after_key(AppCommand::ToggleHud).0.render_settings == (RenderSettings { hud_visible: !rs.hud_visible, ..rs })
            &&& s.after_key(AppCommand::ToggleHeatmap).0.render_settings == (RenderSettings { heatmap_enabled: !rs.heatmap_enabled, ..rs })
            &&& s.after_key(AppCommand::ToggleEnergyDiagnostics).0.render_settings == (RenderSettings {
                show_energy_diagnostics: !rs.show_energy_diagnostics,
                ..rs
            })
            &&& s.after_key(AppCommand::ToggleMomentumDiagnostics).0.render_settings == (RenderSettings {
                show_momentum_diagnostics: !rs.show_momentum_diagnostics,
                ..rs
            })
            &&& s.after_key(AppCommand::ToggleComMarker).0.render_settings == (RenderSettings { show_com_marker: !rs.show_com_marker, ..rs })
        }),
        s.after_key(AppCommand::ToggleHelp).0.show_help == !s.show_help,
        s.after_key(AppCommand::FollowSelected).0.follow_selected == !s.follow_selected,
        s.after_key(AppCommand::ProjectionXy).0.projection == Projection::Xy,
        s.after_key(AppCommand::ProjectionXz).0.projection == Projection::Xz,
        s.after_key(AppCommand::ProjectionYz).0.projection == Projection::Yz,
{
}


/// Rolling energy drift samples for the HUD sparkline: the latest forty.
#[derive(Debug)]
pub struct EnergyHistory<S> {
    pub samples: VecDeque<S>,
}

impl<S> EnergyHistory<S> {
    /// How many samples the history keeps.
    pub const CAPACITY: usize = 40;

    /// Records a sample, dropping the oldest once forty are held.
    pub fn push(&mut self, drift_fraction: S)
        ensures
            final(self).samples@ == pushed_bounded(old(self).samples@, drift_fraction, 40),
    {
        if self.samples.len() >= Self::CAPACITY {
            let _ = self.samples.pop_front();
        }
        self.samples.push_back(drift_fraction);
    }
}

impl<S> Default for EnergyHistory<S> {
    fn default() -> (h: Self)
        ensures
            h.samples@ == Seq::<S>::empty(),
    {
        EnergyHistory { samples: VecDeque::new() }
    }
}

} // verus!
