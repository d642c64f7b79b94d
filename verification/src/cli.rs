//! Arguments of the `fetch`, `validate` and `bench` subcommands and the
//! integrator choice, as plain values.

use std::path::PathBuf;

use vstd::prelude::*;

use crate::text::string_of;

verus! {

/// `graviton fetch`: preset, date, HORIZONS centre, output, cache policy.
#[derive(Debug)]
pub struct FetchArgs {
    /// Preset to fetch (currently only `solar-system`).
    pub preset: String,
    /// Ephemeris date (YYYY-MM-DD).
    pub date: Option<String>,
    /// HORIZONS reference centre (default: Solar System barycentre `500@0`).
    pub center: String,
    /// Output scenario path.
    pub output: Option<PathBuf>,
    /// Use the cache only; do not contact HORIZONS.
    pub offline: bool,
    /// Fetch again even if a cached response exists.
    pub force: bool,
}

/// `graviton validate`: the scenario files to check.
#[derive(Debug)]
pub struct ValidateArgs {
    pub paths: Vec<PathBuf>,
}

/// `graviton bench`: an optional benchmark filter.
#[derive(Debug, Clone)]
pub struct BenchArgs {
    pub filter: Option<String>,
}

/// The integrator selected on the command line.
#[derive(Debug, Clone, Copy, PartialEq, Eq, Structural)]
pub enum IntegratorArg {
    Rk4,
}

impl Default for IntegratorArg {
    fn default() -> (a: Self)
        ensures
            a == IntegratorArg::Rk4,
    {
        IntegratorArg::Rk4
    }
}

impl FetchArgs {
    /// The arguments of a bare `graviton fetch`: the `solar-system` preset, no
    /// date, centre `500@0`, no output path, online, not forced.
    pub fn defaults() -> (a: Self)
        ensures
            a.preset@ == "solar-system"@,
            a.date is None,
            a.center@ == "500@0"@,
            a.output is None,
            !a.offline && !a.force,
    {
        FetchArgs {
            preset: string_of("solar-system"),
            date: None,
            center: string_of("500@0"),
            output: None,
            offline: false,
            force: false,
        }
    }
}

} // verus!
