//! Optional Kitty graphics protocol settings (the Unicode renderer stays the default).

use vstd::prelude::*;

use crate::text::string_of;

verus! {

/// Kitty-related settings from scenario TOML.
#[derive(Debug, Clone)]
pub struct KittySettings {
    pub enabled: bool,
    pub mode: String,
}

impl Default for KittySettings {
    /// Disabled, in `density-panel` mode.
    fn default() -> (s: Self)
        ensures
            !s.enabled,
            s.mode@ == "density-panel"@,
    {
        KittySettings { enabled: false, mode: string_of("density-panel") }
    }
}

/// Whether a density panel applies this frame: only when it is enabled and
/// the terminal looks like Kitty. No panel is drawn yet in any mode; the
/// Unicode cells remain the whole picture.
pub fn maybe_render_density_panel(enabled: bool, mode: &str, kitty_terminal: bool) -> (applies: bool)
    ensures
        applies == (enabled && kitty_terminal),
{
    let _ = mode;
    enabled && kitty_terminal
}

} // verus!
