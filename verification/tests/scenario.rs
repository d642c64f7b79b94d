use graviton::error::{GravitonError, ScenarioError};
use graviton::physics::body::BodyClass;
use graviton::scenario::belt::{asteroid_id, asteroid_name, Rng};
use graviton::scenario::loader::{
    distance_scale, dt_unit, mass_scale, parse_class, plan_load, time_scale, DistanceScale, DtUnit,
    MassScale, TimeScale,
};
use graviton::scenario::schema::{
    default_distance_unit, default_integrator, default_mass_unit, default_time_unit, BodyCheck,
    ScenarioCheck, UnitsCheck, CURRENT_SCHEMA_VERSION,
};
use graviton::scenario::validate::validate;

fn units(distance: &str, mass: &str, time: &str) -> UnitsCheck {
    UnitsCheck {
        distance: distance.into(),
        has_distance_scale: false,
        mass: mass.into(),
        has_mass_scale: false,
        time: time.into(),
        has_time_scale: false,
    }
}

fn body(id: &str, class: &str) -> BodyCheck {
    BodyCheck {
        id: id.into(),
        class: class.into(),
        mass_valid: true,
        radius_valid: true,
        position_finite: true,
        velocity_finite: true,
    }
}

fn earth_moon() -> ScenarioCheck {
    ScenarioCheck {
        schema_version: 1,
        dt_valid: true,
        softening_valid: true,
        integrator: "rk4".into(),
        dt_unit: None,
        units: units("m", "kg", "s"),
        bodies: vec![body("earth", "planet"), body("moon", "moon")],
    }
}

fn validation_messages(raw: &ScenarioCheck) -> Vec<String> {
    match validate(raw) {
        Ok(()) => Vec::new(),
        Err(GravitonError::Scenario(ScenarioError::Validation(v))) => v,
        Err(other) => panic!("unexpected {other:?}"),
    }
}

#[test]
fn defaults_of_a_scenario_file() {
    assert_eq!(default_distance_unit(), "m");
    assert_eq!(default_mass_unit(), "kg");
    assert_eq!(default_time_unit(), "s");
    assert_eq!(default_integrator(), "rk4");
    assert_eq!(CURRENT_SCHEMA_VERSION, 1);
}

#[test]
fn a_valid_scenario_passes() {
    assert!(validate(&earth_moon()).is_ok());
}

#[test]
fn every_problem_is_reported_in_order() {
    let mut raw = earth_moon();
    raw.schema_version = 2;
    raw.dt_valid = false;
    raw.softening_valid = false;
    raw.integrator = "euler".into();
    raw.units = UnitsCheck {
        distance: "custom".into(),
        has_distance_scale: false,
        mass: "custom".into(),
        has_mass_scale: true,
        time: "custom".into(),
        has_time_scale: false,
    };
    raw.bodies = vec![body("a", "star"), body("b", "planet"), body("a", "moon")];
    raw.bodies[1].mass_valid = false;
    raw.bodies[1].radius_valid = false;
    raw.bodies[2].position_finite = false;
    raw.bodies[2].velocity_finite = false;
    assert_eq!(
        validation_messages(&raw),
        vec![
            "unsupported schema version: 2, expected 1".to_string(),
            "physics.dt must be greater than zero".to_string(),
            "physics.softening_m must be finite and non-negative".to_string(),
            "unsupported integrator `euler` (only rk4 is supported)".to_string(),
            "units.distance = \"custom\" requires units.distance_scale_m".to_string(),
            "units.time = \"custom\" requires units.time_scale_s".to_string(),
            "body `b` has non-positive mass".to_string(),
            "body `b` radius must be finite and non-negative".to_string(),
            "body `a` has duplicate id".to_string(),
            "body `a` position must be finite".to_string(),
            "body `a` velocity must be finite".to_string(),
        ]
    );
}

#[test]
fn an_empty_body_list_is_reported() {
    let mut raw = earth_moon();
    raw.bodies = Vec::new();
    assert_eq!(
        validation_messages(&raw),
        vec!["scenario must contain at least one body".to_string()]
    );
}

#[test]
fn duplicates_are_reported_once_per_repeat() {
    let mut raw = earth_moon();
    raw.bodies = vec![body("x", "planet"), body("x", "planet"), body("x", "planet")];
    assert_eq!(
        validation_messages(&raw),
        vec!["body `x` has duplicate id".to_string(), "body `x` has duplicate id".to_string()]
    );
}

#[test]
fn unit_names_resolve() {
    assert_eq!(distance_scale(&units("m", "kg", "s")).unwrap(), DistanceScale::Meters);
    assert_eq!(distance_scale(&units("au", "kg", "s")).unwrap(), DistanceScale::AstronomicalUnits);
    assert_eq!(mass_scale(&units("m", "solar_mass", "s")).unwrap(), MassScale::SolarMasses);
    assert_eq!(mass_scale(&units("m", "earth_mass", "s")).unwrap(), MassScale::EarthMasses);
    assert_eq!(mass_scale(&units("m", "kg", "s")).unwrap(), MassScale::Kilograms);
    assert_eq!(time_scale(&units("m", "kg", "day")).unwrap(), TimeScale::Days);
    assert_eq!(time_scale(&units("m", "kg", "s")).unwrap(), TimeScale::Seconds);
    let mut custom = units("custom", "custom", "custom");
    custom.has_distance_scale = true;
    custom.has_mass_scale = true;
    custom.has_time_scale = true;
    assert_eq!(distance_scale(&custom).unwrap(), DistanceScale::Custom);
    assert_eq!(mass_scale(&custom).unwrap(), MassScale::Custom);
    assert_eq!(time_scale(&custom).unwrap(), TimeScale::Custom);
}

#[test]
fn bad_unit_names_are_errors() {
    match distance_scale(&units("parsec", "kg", "s")) {
        Err(GravitonError::Scenario(ScenarioError::UnknownUnit { kind, value })) => {
            assert_eq!(kind, "distance");
            assert_eq!(value, "parsec");
        }
        other => panic!("unexpected {other:?}"),
    }
    match mass_scale(&units("m", "custom", "s")) {
        Err(GravitonError::Scenario(ScenarioError::MissingUnitScale { field })) => {
            assert_eq!(field, "mass_scale_kg")
        }
        other => panic!("unexpected {other:?}"),
    }
    match time_scale(&units("m", "kg", "hour")) {
        Err(GravitonError::Scenario(ScenarioError::UnknownUnit { kind, value })) => {
            assert_eq!(kind, "time");
            assert_eq!(value, "hour");
        }
        other => panic!("unexpected {other:?}"),
    }
}

#[test]
fn time_step_units() {
    assert_eq!(dt_unit(&None).unwrap(), DtUnit::Seconds);
    assert_eq!(dt_unit(&Some("s".into())).unwrap(), DtUnit::Seconds);
    assert_eq!(dt_unit(&Some("day".into())).unwrap(), DtUnit::Days);
    assert_eq!(dt_unit(&Some("time".into())).unwrap(), DtUnit::ScenarioTime);
    match dt_unit(&Some("hour".into())) {
        Err(GravitonError::Scenario(ScenarioError::UnknownUnit { kind, value })) => {
            assert_eq!(kind, "dt_unit");
            assert_eq!(value, "hour");
        }
        other => panic!("unexpected {other:?}"),
    }
}

#[test]
fn body_classes_parse() {
    assert_eq!(parse_class("star").unwrap(), BodyClass::Star);
    assert_eq!(parse_class("planet").unwrap(), BodyClass::Planet);
    assert_eq!(parse_class("moon").unwrap(), BodyClass::Moon);
    assert_eq!(parse_class("dwarf_planet").unwrap(), BodyClass::DwarfPlanet);
    assert_eq!(parse_class("asteroid").unwrap(), BodyClass::Asteroid);
    assert_eq!(parse_class("comet").unwrap(), BodyClass::Comet);
    assert_eq!(parse_class("spacecraft").unwrap(), BodyClass::Spacecraft);
    assert_eq!(parse_class("custom").unwrap(), BodyClass::Custom);
    match parse_class("Planet") {
        Err(GravitonError::Scenario(ScenarioError::UnknownBodyClass { class })) => assert_eq!(class, "Planet"),
        other => panic!("unexpected {other:?}"),
    }
}

#[test]
fn load_plan_for_a_valid_scenario() {
    let mut raw = earth_moon();
    raw.units = units("au", "solar_mass", "day");
    raw.dt_unit = Some("day".into());
    let plan = plan_load(&raw).unwrap();
    assert_eq!(plan.distance, DistanceScale::AstronomicalUnits);
    assert_eq!(plan.mass, MassScale::SolarMasses);
    assert_eq!(plan.time, TimeScale::Days);
    assert_eq!(plan.dt_unit, DtUnit::Days);
    assert_eq!(plan.classes, vec![BodyClass::Planet, BodyClass::Moon]);
}

#[test]
fn load_plan_reports_the_first_failure() {
    let mut raw = earth_moon();
    raw.dt_valid = false;
    raw.units = units("parsec", "kg", "s");
    assert!(matches!(
        plan_load(&raw),
        Err(GravitonError::Scenario(ScenarioError::Validation(_)))
    ));

    let mut raw = earth_moon();
    raw.units = units("parsec", "stone", "s");
    assert!(matches!(
        plan_load(&raw),
        Err(GravitonError::Scenario(ScenarioError::UnknownUnit { ref kind, .. })) if kind == "distance"
    ));

    let mut raw = earth_moon();
    raw.bodies = vec![body("a", "planet"), body("b", "nebula"), body("c", "blob")];
    raw.dt_unit = Some("fortnight".into());
    assert!(matches!(
        plan_load(&raw),
        Err(GravitonError::Scenario(ScenarioError::UnknownBodyClass { ref class })) if class == "nebula"
    ));

    let mut raw = earth_moon();
    raw.dt_unit = Some("fortnight".into());
    assert!(matches!(
        plan_load(&raw),
        Err(GravitonError::Scenario(ScenarioError::UnknownUnit { ref kind, .. })) if kind == "dt_unit"
    ));
}

fn lcg(state: u64) -> u64 {
    state.wrapping_mul(6364136223846793005).wrapping_add(1)
}

#[test]
fn belt_generator_is_the_documented_lcg() {
    let mut rng = Rng::new(42);
    let mut state = 42u64;
    for _ in 0..100 {
        state = lcg(state);
        assert_eq!(rng.next_bits(), (state >> 11) as u32);
    }
    let mut a = Rng::new(7);
    let mut b = Rng::new(7);
    assert_eq!(a.next_bits(), b.next_bits());
    assert_eq!(Rng::new(0).next_bits(), 0);
}

#[test]
fn asteroid_names() {
    assert_eq!(asteroid_id(0), "ast_0000");
    assert_eq!(asteroid_id(42), "ast_0042");
    assert_eq!(asteroid_id(12345), "ast_12345");
    assert_eq!(asteroid_name(0), "Asteroid 0");
    assert_eq!(asteroid_name(1234), "Asteroid 1234");
}
