use graviton::error::{
    format_validation_messages, not_implemented, GravitonError, HorizonsError, PhysicsError,
    RenderError, ScenarioError,
};

#[test]
fn error_variants_are_constructible() {
    let _ = ScenarioError::UnsupportedSchema {
        found: 0,
        expected: 1,
    };
    let _ = ScenarioError::NonPositiveMass { id: "x".into() };
    let _ = ScenarioError::DuplicateId { id: "x".into() };
    let _ = ScenarioError::InvalidTimeStep;
    let _ = ScenarioError::Validation(vec!["example".into()]);
    let _ = ScenarioError::MissingUnitScale {
        field: "distance_scale_m".into(),
    };
    let _ = ScenarioError::UnknownUnit {
        kind: "distance".into(),
        value: "foo".into(),
    };
    let _ = ScenarioError::UnknownBodyClass {
        class: "foo".into(),
    };
    let _ = PhysicsError::NonFiniteState;
    let _ = PhysicsError::NotImplemented("rk4".into());
    let _ = HorizonsError::Http("timeout".into());
    let _ = HorizonsError::MissingVectorTable;
    let _ = HorizonsError::UnknownUnits;
    let _ = GravitonError::StdIo(std::io::Error::from(std::io::ErrorKind::NotFound));
    let _ = RenderError::TerminalTooSmall {
        min_width: 80,
        min_height: 24,
        width: 10,
        height: 10,
    };
}

#[test]
fn scenario_error_messages() {
    assert_eq!(
        ScenarioError::UnsupportedSchema { found: 0, expected: 1 }.message(),
        "unsupported schema version: 0, expected 1"
    );
    assert_eq!(
        ScenarioError::NonPositiveMass { id: "x".into() }.message(),
        "body `x` has non-positive mass"
    );
    assert_eq!(ScenarioError::DuplicateId { id: "x".into() }.message(), "body `x` has duplicate id");
    assert_eq!(ScenarioError::InvalidTimeStep.message(), "physics.dt must be greater than zero");
    assert_eq!(
        ScenarioError::Validation(vec!["a".into(), "b".into()]).message(),
        "invalid scenario:\n  - a\n  - b"
    );
    assert_eq!(
        ScenarioError::MissingUnitScale { field: "distance_scale_m".into() }.message(),
        "missing required unit scale `distance_scale_m`"
    );
    assert_eq!(
        ScenarioError::UnknownUnit { kind: "distance".into(), value: "foo".into() }.message(),
        "unknown distance unit `foo`"
    );
    assert_eq!(
        ScenarioError::UnknownBodyClass { class: "foo".into() }.message(),
        "unknown body class `foo`"
    );
    let read = ScenarioError::Read(std::io::Error::from(std::io::ErrorKind::NotFound)).message();
    assert!(read.starts_with("failed to read scenario: "));
    assert!(read.len() > "failed to read scenario: ".len());
}

#[test]
fn other_error_messages() {
    assert_eq!(PhysicsError::NonFiniteState.message(), "simulation produced non-finite state");
    assert_eq!(
        PhysicsError::NotImplemented("verlet".into()).message(),
        "integrator `verlet` is not implemented yet"
    );
    assert_eq!(HorizonsError::Http("timeout".into()).message(), "HTTP request failed: timeout");
    assert_eq!(
        HorizonsError::MissingVectorTable.message(),
        "response did not contain vector table between $$SOE and $$EOE"
    );
    assert_eq!(HorizonsError::UnknownUnits.message(), "unknown units in HORIZONS response");
    assert_eq!(
        RenderError::TerminalTooSmall { min_width: 80, min_height: 24, width: 10, height: 10 }.message(),
        "terminal too small: need at least 80x24, got 10x10"
    );
    assert_eq!(
        GravitonError::Physics(PhysicsError::NonFiniteState).message(),
        "physics error: simulation produced non-finite state"
    );
    assert_eq!(
        GravitonError::Scenario(ScenarioError::InvalidTimeStep).message(),
        "scenario error: physics.dt must be greater than zero"
    );
    assert_eq!(
        GravitonError::Horizons(HorizonsError::UnknownUnits).message(),
        "HORIZONS error: unknown units in HORIZONS response"
    );
    assert_eq!(GravitonError::Other("plain".into()).message(), "plain");
    let io = GravitonError::Io {
        path: std::path::PathBuf::from("scenarios"),
        source: std::io::Error::from(std::io::ErrorKind::NotFound),
    };
    assert!(io.message().starts_with("I/O error at scenarios: "));
    let std_io = GravitonError::StdIo(std::io::Error::from(std::io::ErrorKind::NotFound));
    assert!(std_io.message().starts_with("I/O error: "));
}

#[test]
fn validation_report_is_a_bullet_list() {
    assert_eq!(format_validation_messages(&[]), "");
    assert_eq!(format_validation_messages(&["one".to_string()]), "  - one");
    assert_eq!(
        format_validation_messages(&["one".to_string(), "two".to_string()]),
        "  - one\n  - two"
    );
}

#[test]
fn not_implemented_names_feature_and_phase() {
    match not_implemented("Barnes-Hut integration", "Phase 5") {
        GravitonError::Other(m) => assert_eq!(m, "Barnes-Hut integration is not implemented yet (Phase 5)"),
        other => panic!("unexpected {other:?}"),
    }
}
