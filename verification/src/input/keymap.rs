//! Keyboard event mapping to application commands.

use vstd::prelude::*;

verus! {

/// The key of a key press, as the terminal reports it.
#[derive(Debug, Clone, Copy, PartialEq, Eq, Structural)]
pub enum KeyInput {
    Char(char),
    Esc,
    Enter,
    Tab,
    BackTab,
    Up,
    Down,
    Left,
    Right,
    /// Any other key.
    Other,
}

/// A key press: the key and whether Shift was held.
#[derive(Debug, Clone, Copy, PartialEq, Eq, Structural)]
pub struct KeyPress {
    pub code: KeyInput,
    pub shift: bool,
}

/// Semantic commands produced by user input. A pan moves the view by whole
/// cells: `dx` to the right, `dy` upwards.
#[derive(Debug, Clone, Copy, PartialEq, Eq, Structural)]
pub enum AppCommand {
    Quit,
    TogglePause,
    ToggleHelp,
    ResetSimulation,
    ReloadScenario,
    ZoomIn,
    ZoomOut,
    ResetZoom,
    Pan { dx: i32, dy: i32 },
    FollowSelected,
    FrameAll,
    ProjectionXy,
    ProjectionXz,
    ProjectionYz,
    SelectNext,
    SelectPrevious,
    ToggleTrails,
    ToggleHud,
    ToggleHeatmap,
    ToggleEnergyDiagnostics,
    ToggleMomentumDiagnostics,
    ToggleComMarker,
    CycleOverlayPreset,
    OpenScenarioMenu,
    ValidateScenario,
    ScenarioMenuConfirm,
    IncreaseTimeWarp,
    DecreaseTimeWarp,
    IncreaseDt,
    DecreaseDt,
    NoAction,
}

/// The command bound to a character key.
pub open spec fn char_command(c: char) -> AppCommand {
    if c == 'q' {
        AppCommand::Quit
    } else if c == '?' {
        AppCommand::ToggleHelp
    } else if c == ' ' {
        AppCommand::TogglePause
    } else if c == 'r' {
        AppCommand::ResetSimulation
    } else if c == 'R' {
        AppCommand::ReloadScenario
    } else if c == '+' || c == '=' {
        AppCommand::ZoomIn
    } else if c == '-' {
        AppCommand::ZoomOut
    } else if c == '0' {
        AppCommand::ResetZoom
    } else if c == 'f' {
        AppCommand::FollowSelected
    } else if c == 'F' {
        AppCommand::FrameAll
    } else if c == '1' {
        AppCommand::ProjectionXy
    } else if c == '2' {
        AppCommand::ProjectionXz
    } else if c == '3' {
        AppCommand::ProjectionYz
    } else if c == 't' || c == 'T' {
        AppCommand::ToggleTrails
    } else if c == 'H' {
        AppCommand::ToggleHud
    } else if c == 'g' {
        AppCommand::ToggleHeatmap
    } else if c == 'e' {
        AppCommand::ToggleEnergyDiagnostics
    } else if c == 'p' {
        AppCommand::ToggleMomentumDiagnostics
    } else if c == 'c' {
        AppCommand::ToggleComMarker
    } else if c == 'o' {
        AppCommand::CycleOverlayPreset
    } else if c == 's' {
        AppCommand::OpenScenarioMenu
    } else if c == 'v' {
        AppCommand::ValidateScenario
    } else if c == '.' {
        AppCommand::IncreaseTimeWarp
    } else if c == ',' {
        AppCommand::DecreaseTimeWarp
    } else if c == ']' {
        AppCommand::IncreaseDt
    } else if c == '[' {
        AppCommand::DecreaseDt
    } else if c == 'k' {
        AppCommand::Pan { dx: 0, dy: 1 }
    } else if c == 'j' {
        AppCommand::Pan { dx: 0, dy: -1i32 }
    } else if c == 'h' {
        AppCommand::Pan { dx: -1i32, dy: 0 }
    } else if c == 'l' {
        AppCommand::Pan { dx: 1, dy: 0 }
    } else {
        AppCommand::NoAction
    }
}

/// The command bound to a key press.
pub open spec fn key_command(key: KeyPress) -> AppCommand {
    match key.code {
        KeyInput::Char(c) => char_command(c),
        KeyInput::Esc => AppCommand::Quit,
        KeyInput::Enter => AppCommand::ScenarioMenuConfirm,
        KeyInput::Up => AppCommand::Pan { dx: 0, dy: 1 },
        KeyInput::Down => AppCommand::Pan { dx: 0, dy: -1i32 },
        KeyInput::Left => AppCommand::Pan { dx: -1i32, dy: 0 },
        KeyInput::Right => AppCommand::Pan { dx: 1, dy: 0 },
        KeyInput::Tab => if key.shift {
            AppCommand::SelectPrevious
        } else {
            AppCommand::SelectNext
        },
        KeyInput::BackTab => AppCommand::SelectPrevious,
        KeyInput::Other => AppCommand::NoAction,
    }
}

fn map_char(c: char) -> (cmd: AppCommand)
    ensures
        cmd == char_command(c),
{
    match c {
        'q' => AppCommand::Quit,
        '?' => AppCommand::ToggleHelp,
        ' ' => AppCommand::TogglePause,
        'r' => AppCommand::ResetSimulation,
        'R' => AppCommand::ReloadScenario,
        '+' | '=' => AppCommand::ZoomIn,
        '-' => AppCommand::ZoomOut,
        '0' => AppCommand::ResetZoom,
        'f' => AppCommand::FollowSelected,
        'F' => AppCommand::FrameAll,
        '1' => AppCommand::ProjectionXy,
        '2' => AppCommand::ProjectionXz,
        '3' => AppCommand::ProjectionYz,
        't' | 'T' => AppCommand::ToggleTrails,
        'H' => AppCommand::ToggleHud,
        'g' => AppCommand::ToggleHeatmap,
        'e' => AppCommand::ToggleEnergyDiagnostics,
        'p' => AppCommand::ToggleMomentumDiagnostics,
        'c' => AppCommand::ToggleComMarker,
        'o' => AppCommand::CycleOverlayPreset,
        's' => AppCommand::OpenScenarioMenu,
        'v' => AppCommand::ValidateScenario,
        '.' => AppCommand::IncreaseTimeWarp,
        ',' => AppCommand::DecreaseTimeWarp,
        ']' => AppCommand::IncreaseDt,
        '[' => AppCommand::DecreaseDt,
        'k' => AppCommand::Pan { dx: 0, dy: 1 },
        'j' => AppCommand::Pan { dx: 0, dy: -1 },
        'h' => AppCommand::Pan { dx: -1, dy: 0 },
        'l' => AppCommand::Pan { dx: 1, dy: 0 },
        _ => AppCommand::NoAction,
    }
}

/// Maps a key press to the command it is bound to.
pub fn map_key(key: KeyPress) -> (cmd: AppCommand)
    ensures
        cmd == key_command(key),
{
    match key.code {
        KeyInput::Char(c) => map_char(c),
        KeyInput::Esc => AppCommand::Quit,
        KeyInput::Enter => AppCommand::ScenarioMenuConfirm,
        KeyInput::Up => AppCommand::Pan { dx: 0, dy: 1 },
        KeyInput::Down => AppCommand::Pan { dx: 0, dy: -1 },
        KeyInput::Left => AppCommand::Pan { dx: -1, dy: 0 },
        KeyInput::Right => AppCommand::Pan { dx: 1, dy: 0 },
        KeyInput::Tab => {
            if key.shift {
                AppCommand::SelectPrevious
            } else {
                AppCommand::SelectNext
            }
        },
        KeyInput::BackTab => AppCommand::SelectPrevious,
        KeyInput::Other => AppCommand::NoAction,
    }
}

/// The bindings of the controls table, over every key press: each command is
/// produced by exactly the keys the table gives it. `+` and `=` zoom in and
/// only `-` zooms out; Space pauses; `0` resets the zoom; arrows and `hjkl`
/// pan one cell their way; Tab selects the next body and Shift+Tab (or
/// BackTab) the previous one; `f` follows, `F` frames all; `1`/`2`/`3` pick
/// the XY/XZ/YZ plane; `t`/`T` toggle trails and `H` the HUD; `.`/`,` speed up
/// and slow down time; `]`/`[` raise and lower dt; `r` resets; `?` toggles
/// help; `q` and Esc quit.
pub proof fn lemma_controls_table(k: KeyPress)
    ensures
        key_command(k) == AppCommand::ZoomIn <==> (k.code == KeyInput::Char('+') || k.code == KeyInput::Char('=')),
        key_command(k) == AppCommand::ZoomOut <==> k.code == KeyInput::Char('-'),
        key_command(k) == AppCommand::TogglePause <==> k.code == KeyInput::Char(' '),
        key_command(k) == AppCommand::ResetZoom <==> k.code == KeyInput::Char('0'),
        key_command(k) == (AppCommand::Pan { dx: 0, dy: 1 }) <==> (k.code == KeyInput::Up || k.code == KeyInput::Char('k')),
        key_command(k) == (AppCommand::Pan { dx: 0, dy: -1i32 }) <==> (k.code == KeyInput::Down || k.code == KeyInput::Char('j')),
        key_command(k) == (AppCommand::Pan { dx: -1i32, dy: 0 }) <==> (k.code == KeyInput::Left || k.code == KeyInput::Char('h')),
        key_command(k) == (AppCommand::Pan { dx: 1, dy: 0 }) <==> (k.code == KeyInput::Right || k.code == KeyInput::Char('l')),
        key_command(k) == AppCommand::SelectNext <==> (k.code == KeyInput::Tab && !k.shift),
        key_command(k) == AppCommand::SelectPrevious <==> ((k.code == KeyInput::Tab && k.shift) || k.code == KeyInput::BackTab),
        key_command(k) == AppCommand::FollowSelected <==> k.code == KeyInput::Char('f'),
        key_command(k) == AppCommand::FrameAll <==> k.code == KeyInput::Char('F'),
        key_command(k) == AppCommand::ProjectionXy <==> k.code == KeyInput::Char('1'),
        key_command(k) == AppCommand::ProjectionXz <==> k.code == KeyInput::Char('2'),
        key_command(k) == AppCommand::ProjectionYz <==> k.code == KeyInput::Char('3'),
        key_command(k) == AppCommand::ToggleTrails <==> (k.code == KeyInput::Char('t') || k.code == KeyInput::Char('T')),
        key_command(k) == AppCommand::ToggleHud <==> k.code == KeyInput::Char('H'),
        key_command(k) == AppCommand::IncreaseTimeWarp <==> k.code == KeyInput::Char('.'),
        key_command(k) == AppCommand::DecreaseTimeWarp <==> k.code == KeyInput::Char(','),
        key_command(k) == AppCommand::IncreaseDt <==> k.code == KeyInput::Char(']'),
        key_command(k) == AppCommand::DecreaseDt <==> k.code == KeyInput::Char('['),
        key_command(k) == AppCommand::ResetSimulation <==> k.code == KeyInput::Char('r'),
        key_command(k) == AppCommand::ToggleHelp <==> k.code == KeyInput::Char('?'),
        key_command(k) == AppCommand::Quit <==> (k.code == KeyInput::Char('q') || k.code == KeyInput::Esc),
{
}

} // verus!
