//! Scenario loading decisions: which unit each name means, which class each
//! body has, and which failure a scenario meets first.
//!
//! The program reads and parses the file and does the arithmetic in SI
//! units; the library decides, in the order the loader reports them, whether
//! the scenario loads and with which units.

use vstd::prelude::*;

use crate::error::{views_of, GravitonError, ScenarioError};
use crate::physics::body::BodyClass;
use crate::scenario::schema::{BodyCheck, ScenarioCheck, UnitsCheck};
use crate::scenario::validate::{validate, validation_messages};
use crate::text::string_of;

verus! {

/// What a scenario distance of 1 means.
#[derive(Debug, Clone, Copy, PartialEq, Eq, Structural)]
pub enum DistanceScale {
    Meters,
    AstronomicalUnits,
    /// `units.distance_scale_m` meters.
    Custom,
}

/// What a scenario mass of 1 means.
#[derive(Debug, Clone, Copy, PartialEq, Eq, Structural)]
pub enum MassScale {
    Kilograms,
    SolarMasses,
    EarthMasses,
    /// `units.mass_scale_kg` kilograms.
    Custom,
}

/// What a scenario time of 1 means.
#[derive(Debug, Clone, Copy, PartialEq, Eq, Structural)]
pub enum TimeScale {
    Seconds,
    Days,
    /// `units.time_scale_s` seconds.
    Custom,
}

/// The unit of `physics.dt`.
#[derive(Debug, Clone, Copy, PartialEq, Eq, Structural)]
pub enum DtUnit {
    Seconds,
    Days,
    /// The scenario's own time unit.
    ScenarioTime,
}

/// How a validated scenario converts to SI units.
#[derive(Debug, Clone)]
pub struct LoadPlan {
    pub distance: DistanceScale,
    pub mass: MassScale,
    pub time: TimeScale,
    /// The class of each body, in file order.
    pub classes: Vec<BodyClass>,
    pub dt_unit: DtUnit,
}

pub open spec fn distance_spec(u: UnitsCheck) -> Option<DistanceScale> {
    if u.distance@ == "m"@ {
        Some(DistanceScale::Meters)
    } else if u.distance@ == "au"@ {
        Some(DistanceScale::AstronomicalUnits)
    } else if u.distance@ == "custom"@ && u.has_distance_scale {
        Some(DistanceScale::Custom)
    } else {
        None
    }
}

pub open spec fn mass_spec(u: UnitsCheck) -> Option<MassScale> {
    if u.mass@ == "kg"@ {
        Some(MassScale::Kilograms)
    } else if u.mass@ == "solar_mass"@ {
        Some(MassScale::SolarMasses)
    } else if u.mass@ == "earth_mass"@ {
        Some(MassScale::EarthMasses)
    } else if u.mass@ == "custom"@ && u.has_mass_scale {
        Some(MassScale::Custom)
    } else {
        None
    }
}

pub open spec fn time_spec(u: UnitsCheck) -> Option<TimeScale> {
    if u.time@ == "s"@ {
        Some(TimeScale::Seconds)
    } else if u.time@ == "day"@ {
        Some(TimeScale::Days)
    } else if u.time@ == "custom"@ && u.has_time_scale {
        Some(TimeScale::Custom)
    } else {
        None
    }
}

/// The unit of `physics.dt`; when absent it is seconds.
pub open spec fn dt_unit_spec(unit: Option<String>) -> Option<DtUnit> {
    let name = match unit {
        Some(u) => u@,
        None => "s"@,
    };
    if name == "s"@ {
        Some(DtUnit::Seconds)
    } else if name == "day"@ {
        Some(DtUnit::Days)
    } else if name == "time"@ {
        Some(DtUnit::ScenarioTime)
    } else {
        None
    }
}

/// The body class a class name denotes.
pub open spec fn class_spec(s: Seq<char>) -> Option<BodyClass> {
    if s == "star"@ {
        Some(BodyClass::Star)
    } else if s == "planet"@ {
        Some(BodyClass::Planet)
    } else if s == "moon"@ {
        Some(BodyClass::Moon)
    } else if s == "dwarf_planet"@ {
        Some(BodyClass::DwarfPlanet)
    } else if s == "asteroid"@ {
        Some(BodyClass::Asteroid)
    } else if s == "comet"@ {
        Some(BodyClass::Comet)
    } else if s == "spacecraft"@ {
        Some(BodyClass::Spacecraft)
    } else if s == "custom"@ {
        Some(BodyClass::Custom)
    } else {
        None
    }
}

/// The error for a unit name that does not resolve: a missing scale for
/// `"custom"`, an unknown unit otherwise.
pub open spec fn is_unit_error(e: GravitonError, kind: Seq<char>, name: Seq<char>, field: Seq<char>) -> bool {
    if name == "custom"@ {
        e matches GravitonError::Scenario(ScenarioError::MissingUnitScale { field: f }) && f@ == field
    } else {
        e matches GravitonError::Scenario(ScenarioError::UnknownUnit { kind: k, value }) && k@ == kind && value@ == name
    }
}

/// The error for an unknown class name.
pub open spec fn is_class_error(e: GravitonError, name: Seq<char>) -> bool {
    e matches GravitonError::Scenario(ScenarioError::UnknownBodyClass { class }) && class@ == name
}

/// The error for an unknown unit `value` of the given kind.
fn unknown_unit(kind: &str, value: &String) -> (e: GravitonError)
    ensures
        e matches GravitonError::Scenario(ScenarioError::UnknownUnit { kind: k, value: v }) && k@ == kind@ && v@
            == value@,
{
    GravitonError::Scenario(ScenarioError::UnknownUnit { kind: string_of(kind), value: value.clone() })
}

/// The error for a custom unit without its scale field.
fn missing_scale(field: &str) -> (e: GravitonError)
    ensures
        e matches GravitonError::Scenario(ScenarioError::MissingUnitScale { field: f }) && f@ == field@,
{
    GravitonError::Scenario(ScenarioError::MissingUnitScale { field: string_of(field) })
}

/// Resolves `units.distance`: `m`, `au`, or `custom` with `distance_scale_m`.
pub fn distance_scale(u: &UnitsCheck) -> (r: Result<DistanceScale, GravitonError>)
    ensures
        match distance_spec(*u) {
            Some(d) => r == Ok::<DistanceScale, GravitonError>(d),
            None => r is Err && is_unit_error(r->Err_0, "distance"@, u.distance@, "distance_scale_m"@),
        },
{
    proof {
        reveal_strlit("m");
        reveal_strlit("au");
        reveal_strlit("custom");
    }
    if u.distance == string_of("m") {
        Ok(DistanceScale::Meters)
    } else if u.distance == string_of("au") {
        Ok(DistanceScale::AstronomicalUnits)
    } else if u.distance == string_of("custom") {
        if u.has_distance_scale {
            Ok(DistanceScale::Custom)
        } else {
            Err(missing_scale("distance_scale_m"))
        }
    } else {
        Err(unknown_unit("distance", &u.distance))
    }
}

/// Resolves `units.mass`: `kg`, `solar_mass`, `earth_mass`, or `custom` with
/// `mass_scale_kg`.
pub fn mass_scale(u: &UnitsCheck) -> (r: Result<MassScale, GravitonError>)
    ensures
        match mass_spec(*u) {
            Some(m) => r == Ok::<MassScale, GravitonError>(m),
            None => r is Err && is_unit_error(r->Err_0, "mass"@, u.mass@, "mass_scale_kg"@),
        },
{
    proof {
        reveal_strlit("kg");
        reveal_strlit("solar_mass");
        reveal_strlit("earth_mass");
        reveal_strlit("custom");
    }
    if u.mass == string_of("kg") {
        Ok(MassScale::Kilograms)
    } else if u.mass == string_of("solar_mass") {
        Ok(MassScale::SolarMasses)
    } else if u.mass == string_of("earth_mass") {
        Ok(MassScale::EarthMasses)
    } else if u.mass == string_of("custom") {
        if u.has_mass_scale {
            Ok(MassScale::Custom)
        } else {
            Err(missing_scale("mass_scale_kg"))
        }
    } else {
        Err(unknown_unit("mass", &u.mass))
    }
}

/// Resolves `units.time`: `s`, `day`, or `custom` with `time_scale_s`.
pub fn time_scale(u: &UnitsCheck) -> (r: Result<TimeScale, GravitonError>)
    ensures
        match time_spec(*u) {
            Some(t) => r == Ok::<TimeScale, GravitonError>(t),
            None => r is Err && is_unit_error(r->Err_0, "time"@, u.time@, "time_scale_s"@),
        },
{
    proof {
        reveal_strlit("s");
        reveal_strlit("day");
        reveal_strlit("custom");
    }
    if u.time == string_of("s") {
        Ok(TimeScale::Seconds)
    } else if u.time == string_of("day") {
        Ok(TimeScale::Days)
    } else if u.time == string_of("custom") {
        if u.has_time_scale {
            Ok(TimeScale::Custom)
        } else {
            Err(missing_scale("time_scale_s"))
        }
    } else {
        Err(unknown_unit("time", &u.time))
    }
}

/// Resolves `physics.dt_unit` (seconds when absent): `s`, `day`, or `time`.
pub fn dt_unit(unit: &Option<String>) -> (r: Result<DtUnit, GravitonError>)
    ensures
        match dt_unit_spec(*unit) {
            Some(d) => r == Ok::<DtUnit, GravitonError>(d),
            None => r is Err && (r->Err_0 matches GravitonError::Scenario(
                ScenarioError::UnknownUnit { kind, value },
            ) && kind@ == "dt_unit"@ && unit is Some && value@ == unit->0@),
        },
{
    proof {
        reveal_strlit("s");
        reveal_strlit("day");
        reveal_strlit("time");
    }
    match unit {
        None => Ok(DtUnit::Seconds),
        Some(name) => {
            if *name == string_of("s") {
                Ok(DtUnit::Seconds)
            } else if *name == string_of("day") {
                Ok(DtUnit::Days)
            } else if *name == string_of("time") {
                Ok(DtUnit::ScenarioTime)
            } else {
                Err(unknown_unit("dt_unit", name))
            }
        },
    }
}

/// The body class a class name denotes, or `UnknownBodyClass`.
pub fn parse_class(s: &str) -> (r: Result<BodyClass, GravitonError>)
    ensures
        match class_spec(s@) {
            Some(c) => r == Ok::<BodyClass, GravitonError>(c),
            None => r is Err && is_class_error(r->Err_0, s@),
        },
{
    proof {
        reveal_strlit("star");
        reveal_strlit("planet");
        reveal_strlit("moon");
        reveal_strlit("dwarf_planet");
        reveal_strlit("asteroid");
        reveal_strlit("comet");
        reveal_strlit("spacecraft");
        reveal_strlit("custom");
    }
    let t = string_of(s);
    if t == string_of("star") {
        Ok(BodyClass::Star)
    } else if t == string_of("planet") {
        Ok(BodyClass::Planet)
    } else if t == string_of("moon") {
        Ok(BodyClass::Moon)
    } else if t == string_of("dwarf_planet") {
        Ok(BodyClass::DwarfPlanet)
    } else if t == string_of("asteroid") {
        Ok(BodyClass::Asteroid)
    } else if t == string_of("comet") {
        Ok(BodyClass::Comet)
    } else if t == string_of("spacecraft") {
        Ok(BodyClass::Spacecraft)
    } else if t == string_of("custom") {
        Ok(BodyClass::Custom)
    } else {
        Err(GravitonError::Scenario(ScenarioError::UnknownBodyClass { class: t }))
    }
}

/// Every one of the first `n` bodies has a known class.
pub open spec fn classes_known(bodies: Seq<BodyCheck>, n: int) -> bool {
    forall|i: int| 0 <= i < n ==> #[trigger] class_spec(bodies[i].class@) is Some
}

/// The index of the first body whose class is unknown.
pub open spec fn first_unknown_class(bodies: Seq<BodyCheck>) -> int {
    choose|i: int| 0 <= i < bodies.len() && class_spec(bodies[i].class@) is None && classes_known(bodies, i)
}

/// The classes of the first `k` bodies.
fn resolve_classes(bodies: &Vec<BodyCheck>) -> (r: Result<Vec<BodyClass>, GravitonError>)
    ensures
        classes_known(bodies@, bodies@.len() as int) ==> r is Ok && r->Ok_0@.len() == bodies@.len() && forall|i: int|
            0 <= i < bodies@.len() ==> class_spec(bodies@[i].class@) == Some(#[trigger] r->Ok_0@[i]),
        !classes_known(bodies@, bodies@.len() as int) ==> r is Err && is_class_error(
            r->Err_0,
            bodies@[first_unknown_class(bodies@)].class@,
        ),
{
    let n = bodies.len();
    let mut out: Vec<BodyClass> = Vec::new();
    let mut i: usize = 0;
    while i < n
        invariant
            n == bodies@.len(),
            i <= n,
            classes_known(bodies@, i as int),
            out@.len() == i,
            forall|k: int| 0 <= k < i ==> class_spec(bodies@[k].class@) == Some(#[trigger] out@[k]),
        decreases n - i,
    {
        match parse_class(bodies[i].class.as_str()) {
            Ok(c) => {
                out.push(c);
            },
            Err(e) => {
                proof {
                    assert(class_spec(bodies@[i as int].class@) is None);
                    assert(0 <= i < bodies@.len() && class_spec(bodies@[i as int].class@) is None && classes_known(
                        bodies@,
                        i as int,
                    ));
                    let j = first_unknown_class(bodies@);
                    assert(0 <= j < bodies@.len() && class_spec(bodies@[j].class@) is None && classes_known(bodies@, j));
                    if j < i {
                        assert(class_spec(bodies@[j].class@) is Some);
                    }
                    if j > i {
                        assert(class_spec(bodies@[i as int].class@) is Some);
                    }
                }
                return Err(e);
            },
        }
        i += 1;
    }
    Ok(out)
}

/// Decides how a scenario loads, checking in the loader's order: validation,
/// then the distance, mass and time units, then each body's class, then the
/// unit of the time step. The first failure is the result; otherwise the
/// plan for the conversion to SI units.
pub fn plan_load(raw: &ScenarioCheck) -> (r: Result<LoadPlan, GravitonError>)
    ensures
        validation_messages(*raw).len() > 0 ==> r is Err && (r->Err_0 matches GravitonError::Scenario(
            ScenarioError::Validation(v),
        ) && views_of(v@) == validation_messages(*raw)),
        validation_messages(*raw).len() == 0 ==> {
            let u = raw.units;
            if distance_spec(u) is None {
                r is Err && is_unit_error(r->Err_0, "distance"@, u.distance@, "distance_scale_m"@)
            } else if mass_spec(u) is None {
                r is Err && is_unit_error(r->Err_0, "mass"@, u.mass@, "mass_scale_kg"@)
            } else if time_spec(u) is None {
                r is Err && is_unit_error(r->Err_0, "time"@, u.time@, "time_scale_s"@)
            } else if !classes_known(raw.bodies@, raw.bodies@.len() as int) {
                r is Err && is_class_error(r->Err_0, raw.bodies@[first_unknown_class(raw.bodies@)].class@)
            } else if dt_unit_spec(raw.dt_unit) is None {
                r is Err && (r->Err_0 matches GravitonError::Scenario(ScenarioError::UnknownUnit { kind, value })
                    && kind@ == "dt_unit"@ && value@ == raw.dt_unit->0@)
            } else {
                &&& r is Ok
                &&& r->Ok_0.distance == distance_spec(u)->0
                &&& r->Ok_0.mass == mass_spec(u)->0
                &&& r->Ok_0.time == time_spec(u)->0
                &&& r->Ok_0.dt_unit == dt_unit_spec(raw.dt_unit)->0
                &&& r->Ok_0.classes@.len() == raw.bodies@.len()
                &&& forall|i: int|
                    0 <= i < raw.bodies@.len() ==> class_spec(raw.bodies@[i].class@) == Some(
                        #[trigger] r->Ok_0.classes@[i],
                    )
            }
        },
{
    match validate(raw) {
        Err(e) => {
            return Err(e);
        },
        Ok(()) => {},
    }
    let distance = match distance_scale(&raw.units) {
        Ok(d) => d,
        Err(e) => {
            return Err(e);
        },
    };
    let mass = match mass_scale(&raw.units) {
        Ok(m) => m,
        Err(e) => {
            return Err(e);
        },
    };
    let time = match time_scale(&raw.units) {
        Ok(t) => t,
        Err(e) => {
            return Err(e);
        },
    };
    let classes = match resolve_classes(&raw.bodies) {
        Ok(c) => c,
        Err(e) => {
            return Err(e);
        },
    };
    let dt = match dt_unit(&raw.dt_unit) {
        Ok(d) => d,
        Err(e) => {
            return Err(e);
        },
    };
    Ok(LoadPlan { distance, mass, time, classes, dt_unit: dt })
}

} // verus!
