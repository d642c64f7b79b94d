//! The parts of a scenario file that its checks read.
//!
//! A scenario file is TOML; the program deserialises it and hands the library
//! what validation and unit resolution look at. Number fields enter as the
//! outcome of their own checks (`dt > 0` and finite, and so on), which the
//! program evaluates on the parsed values.

use vstd::prelude::*;

use crate::text::string_of;

verus! {

/// The schema version this program reads.
pub const CURRENT_SCHEMA_VERSION: u32 = 1;

/// The `[units]` table: the unit names and which custom scales are present.
#[derive(Debug, Clone)]
pub struct UnitsCheck {
    pub distance: String,
    pub has_distance_scale: bool,
    pub mass: String,
    pub has_mass_scale: bool,
    pub time: String,
    pub has_time_scale: bool,
}

/// One `[[bodies]]` entry: its id, its class name and the outcome of each
/// number check.
#[derive(Debug, Clone)]
pub struct BodyCheck {
    pub id: String,
    pub class: String,
    /// `mass > 0` and finite.
    pub mass_valid: bool,
    /// `radius >= 0` and finite.
    pub radius_valid: bool,
    /// All three position components are finite.
    pub position_finite: bool,
    /// All three velocity components are finite.
    pub velocity_finite: bool,
}

/// What validation reads of a scenario file.
#[derive(Debug, Clone)]
pub struct ScenarioCheck {
    pub schema_version: u32,
    /// `physics.dt > 0` and finite.
    pub dt_valid: bool,
    /// `physics.softening_m >= 0` and finite.
    pub softening_valid: bool,
    pub integrator: String,
    /// `physics.dt_unit`, when given.
    pub dt_unit: Option<String>,
    pub units: UnitsCheck,
    pub bodies: Vec<BodyCheck>,
}

/// Default `units.distance`: meters.
pub fn default_distance_unit() -> (s: String)
    ensures
        s@ == "m"@,
{
    string_of("m")
}

/// Default `units.mass`: kilograms.
pub fn default_mass_unit() -> (s: String)
    ensures
        s@ == "kg"@,
{
    string_of("kg")
}

/// Default `units.time`: seconds.
pub fn default_time_unit() -> (s: String)
    ensures
        s@ == "s"@,
{
    string_of("s")
}

/// Default `physics.integrator`: fourth-order Runge-Kutta.
pub fn default_integrator() -> (s: String)
    ensures
        s@ == "rk4"@,
{
    string_of("rk4")
}

} // verus!
