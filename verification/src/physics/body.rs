//! Body classification.

use vstd::prelude::*;

verus! {

/// Body classification for rendering and HUD.
#[derive(Debug, Clone, Copy, PartialEq, Eq, Structural)]
pub enum BodyClass {
    Star,
    Planet,
    Moon,
    DwarfPlanet,
    Asteroid,
    Comet,
    Spacecraft,
    Custom,
}

} // verus!
