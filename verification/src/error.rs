//! Typed errors for graviton modules.
//!
//! Each error renders its message with `message()`, the text the program
//! reports for it.

use std::path::PathBuf;

use vstd::prelude::*;

use crate::text::{decimal_spec, push_decimal, push_str};

verus! {

#[verifier::external_type_specification]
#[verifier::external_body]
pub struct ExIoError(std::io::Error);

#[verifier::external_type_specification]
#[verifier::external_body]
pub struct ExPathBuf(PathBuf);

#[verifier::external_type_specification]
#[verifier::external_body]
pub struct ExTomlDeError(toml::de::Error);

/// Application-wide error type.
#[derive(Debug)]
pub enum GravitonError {
    Scenario(ScenarioError),
    Physics(PhysicsError),
    Horizons(HorizonsError),
    Render(RenderError),
    Io { path: PathBuf, source: std::io::Error },
    StdIo(std::io::Error),
    Other(String),
}

/// Scenario loading and validation failures.
#[derive(Debug)]
pub enum ScenarioError {
    UnsupportedSchema { found: u32, expected: u32 },
    NonPositiveMass { id: String },
    DuplicateId { id: String },
    InvalidTimeStep,
    Validation(Vec<String>),
    MissingUnitScale { field: String },
    UnknownUnit { kind: String, value: String },
    UnknownBodyClass { class: String },
    Read(std::io::Error),
    Parse(toml::de::Error),
}

/// Physics engine failures.
#[derive(Debug)]
pub enum PhysicsError {
    NonFiniteState,
    NotImplemented(String),
}

/// NASA JPL HORIZONS client and parser failures.
#[derive(Debug)]
pub enum HorizonsError {
    Http(String),
    MissingVectorTable,
    UnknownUnits,
}

/// Terminal rendering failures.
#[derive(Debug)]
pub enum RenderError {
    TerminalTooSmall { min_width: u16, min_height: u16, width: u16, height: u16 },
}

/// The text of a validation report: one `"  - "` line per message, joined by
/// newlines.
pub open spec fn validation_report(messages: Seq<Seq<char>>) -> Seq<char>
    decreases messages.len(),
{
    if messages.len() == 0 {
        Seq::empty()
    } else if messages.len() == 1 {
        "  - "@ + messages[0]
    } else {
        validation_report(messages.drop_last()) + "\n"@ + "  - "@ + messages.last()
    }
}

/// The views of a sequence of strings.
pub open spec fn views_of(v: Seq<String>) -> Seq<Seq<char>> {
    v.map_values(|s: String| s@)
}

/// Formats validation messages as an indented bullet list, one per line.
pub fn format_validation_messages(messages: &[String]) -> (out: String)
    ensures
        out@ == validation_report(views_of(messages@)),
{
    let mut out = String::new();
    let n = messages.len();
    let mut i: usize = 0;
    while i < n
        invariant
            n == messages@.len(),
            i <= n,
            out@ == validation_report(views_of(messages@).take(i as int)),
        decreases n - i,
    {
        let ghost before = out@;
        if i > 0 {
            push_str(&mut out, "\n");
        }
        push_str(&mut out, "  - ");
        push_str(&mut out, messages[i].as_str());
        proof {
            let ms = views_of(messages@);
            assert(ms.take(i + 1).drop_last() =~= ms.take(i as int));
            assert(ms.take(i + 1).last() == messages@[i as int]@);
            if i == 0 {
                assert(before =~= Seq::<char>::empty());
                assert(out@ =~= "  - "@ + messages@[i as int]@);
                assert(ms.take(1)[0] == messages@[0]@);
            } else {
                assert(out@ =~= before + "\n"@ + "  - "@ + messages@[i as int]@);
            }
        }
        i += 1;
    }
    proof {
        assert(views_of(messages@).take(n as int) =~= views_of(messages@));
    }
    out
}

/// The text of an I/O error (`ToString` through its `Display`). Nothing is
/// stated of the text: for an operating-system error it is the system's own
/// description, which depends on the platform.
#[verifier::external_body]
fn io_error_text(e: &std::io::Error) -> String {
    e.to_string()
}

/// The text of a TOML parse error (`ToString` through its `Display`). Nothing
/// is stated of the text, which is the parser's own report.
#[verifier::external_body]
fn toml_error_text(e: &toml::de::Error) -> String {
    e.to_string()
}

/// The text of a path (`Path::display`, then `ToString`). Nothing is stated
/// of the text, which replaces bytes that are not UTF-8.
#[verifier::external_body]
fn path_text(p: &PathBuf) -> String {
    p.display().to_string()
}

/// A message about a body: `"body `"`, its id, then `rest`.
pub open spec fn body_message(id: Seq<char>, rest: Seq<char>) -> Seq<char> {
    "body `"@ + id + rest
}

/// The message of a scenario error, for every variant that carries no
/// outside error.
pub open spec fn scenario_message(e: ScenarioError) -> Seq<char> {
    match e {
        ScenarioError::UnsupportedSchema { found, expected } => "unsupported schema version: "@
            + decimal_spec(found as nat) + ", expected "@ + decimal_spec(expected as nat),
        ScenarioError::NonPositiveMass { id } => body_message(id@, "` has non-positive mass"@),
        ScenarioError::DuplicateId { id } => body_message(id@, "` has duplicate id"@),
        ScenarioError::InvalidTimeStep => "physics.dt must be greater than zero"@,
        ScenarioError::Validation(v) => "invalid scenario:\n"@ + validation_report(views_of(v@)),
        ScenarioError::MissingUnitScale { field } => "missing required unit scale `"@ + field@ + "`"@,
        ScenarioError::UnknownUnit { kind, value } => "unknown "@ + kind@ + " unit `"@ + value@ + "`"@,
        ScenarioError::UnknownBodyClass { class } => "unknown body class `"@ + class@ + "`"@,
        ScenarioError::Read(_) => "failed to read scenario: "@,
        ScenarioError::Parse(_) => "failed to parse TOML: "@,
    }
}

/// The message of a physics error.
pub open spec fn physics_message(e: PhysicsError) -> Seq<char> {
    match e {
        PhysicsError::NonFiniteState => "simulation produced non-finite state"@,
        PhysicsError::NotImplemented(name) => "integrator `"@ + name@ + "` is not implemented yet"@,
    }
}

/// The message of a HORIZONS error.
pub open spec fn horizons_message(e: HorizonsError) -> Seq<char> {
    match e {
        HorizonsError::Http(m) => "HTTP request failed: "@ + m@,
        HorizonsError::MissingVectorTable => "response did not contain vector table between $$SOE and $$EOE"@,
        HorizonsError::UnknownUnits => "unknown units in HORIZONS response"@,
    }
}

/// The message of a render error.
pub open spec fn render_message(e: RenderError) -> Seq<char> {
    match e {
        RenderError::TerminalTooSmall { min_width, min_height, width, height } => "terminal too small: need at least "@
            + decimal_spec(min_width as nat) + "x"@ + decimal_spec(min_height as nat) + ", got "@
            + decimal_spec(width as nat) + "x"@ + decimal_spec(height as nat),
    }
}

impl ScenarioError {
    /// The message reported for this error. For a read or parse failure it is
    /// the prefix shown here followed by the outside error's own text.
    pub fn message(&self) -> (m: String)
        ensures
            (self is Read || self is Parse) ==> scenario_message(*self).is_prefix_of(m@),
            !(self is Read || self is Parse) ==> m@ == scenario_message(*self),
    {
        let mut m = String::new();
        match self {
            ScenarioError::UnsupportedSchema { found, expected } => {
                push_str(&mut m, "unsupported schema version: ");
                push_decimal(&mut m, *found as u64);
                push_str(&mut m, ", expected ");
                push_decimal(&mut m, *expected as u64);
                assert(m@ =~= scenario_message(*self));
            },
            ScenarioError::NonPositiveMass { id } => {
                push_str(&mut m, "body `");
                push_str(&mut m, id.as_str());
                push_str(&mut m, "` has non-positive mass");
                assert(m@ =~= scenario_message(*self));
            },
            ScenarioError::DuplicateId { id } => {
                push_str(&mut m, "body `");
                push_str(&mut m, id.as_str());
                push_str(&mut m, "` has duplicate id");
                assert(m@ =~= scenario_message(*self));
            },
            ScenarioError::InvalidTimeStep => {
                push_str(&mut m, "physics.dt must be greater than zero");
            },
            ScenarioError::Validation(v) => {
                push_str(&mut m, "invalid scenario:\n");
                let report = format_validation_messages(v.as_slice());
                push_str(&mut m, report.as_str());
                assert(m@ =~= scenario_message(*self));
            },
            ScenarioError::MissingUnitScale { field } => {
                push_str(&mut m, "missing required unit scale `");
                push_str(&mut m, field.as_str());
                push_str(&mut m, "`");
            },
            ScenarioError::UnknownUnit { kind, value } => {
                push_str(&mut m, "unknown ");
                push_str(&mut m, kind.as_str());
                push_str(&mut m, " unit `");
                push_str(&mut m, value.as_str());
                push_str(&mut m, "`");
                assert(m@ =~= scenario_message(*self));
            },
            ScenarioError::UnknownBodyClass { class } => {
                push_str(&mut m, "unknown body class `");
                push_str(&mut m, class.as_str());
                push_str(&mut m, "`");
            },
            ScenarioError::Read(e) => {
                push_str(&mut m, "failed to read scenario: ");
                let t = io_error_text(e);
                push_str(&mut m, t.as_str());
            },
            ScenarioError::Parse(e) => {
                push_str(&mut m, "failed to parse TOML: ");
                let t = toml_error_text(e);
                push_str(&mut m, t.as_str());
            },
        }
        m
    }
}

impl PhysicsError {
    /// The message reported for this error.
    pub fn message(&self) -> (m: String)
        ensures
            m@ == physics_message(*self),
    {
        let mut m = String::new();
        match self {
            PhysicsError::NonFiniteState => push_str(&mut m, "simulation produced non-finite state"),
            PhysicsError::NotImplemented(name) => {
                push_str(&mut m, "integrator `");
                push_str(&mut m, name.as_str());
                push_str(&mut m, "` is not implemented yet");
            },
        }
        m
    }
}

impl HorizonsError {
    /// The message reported for this error.
    pub fn message(&self) -> (m: String)
        ensures
            m@ == horizons_message(*self),
    {
        let mut m = String::new();
        match self {
            HorizonsError::Http(text) => {
                push_str(&mut m, "HTTP request failed: ");
                push_str(&mut m, text.as_str());
            },
            HorizonsError::MissingVectorTable => push_str(
                &mut m,
                "response did not contain vector table between $$SOE and $$EOE",
            ),
            HorizonsError::UnknownUnits => push_str(&mut m, "unknown units in HORIZONS response"),
        }
        m
    }
}

impl RenderError {
    /// The message reported for this error.
    pub fn message(&self) -> (m: String)
        ensures
            m@ == render_message(*self),
    {
        let mut m = String::new();
        match self {
            RenderError::TerminalTooSmall { min_width, min_height, width, height } => {
                push_str(&mut m, "terminal too small: need at least ");
                push_decimal(&mut m, *min_width as u64);
                push_str(&mut m, "x");
                push_decimal(&mut m, *min_height as u64);
                push_str(&mut m, ", got ");
                push_decimal(&mut m, *width as u64);
                push_str(&mut m, "x");
                push_decimal(&mut m, *height as u64);
            },
        }
        m
    }
}

impl GravitonError {
    /// The message reported for this error: the inner error's message behind
    /// the prefix of its kind. An I/O failure ends in the outside error's own
    /// text, which is not stated here.
    pub fn message(&self) -> (m: String)
        ensures
            self matches GravitonError::Scenario(e) ==> {
                &&& "scenario error: "@.is_prefix_of(m@)
                &&& !(e is Read || e is Parse) ==> m@ == "scenario error: "@ + scenario_message(*e)
            },
            self matches GravitonError::Physics(e) ==> m@ == "physics error: "@ + physics_message(*e),
            self matches GravitonError::Horizons(e) ==> m@ == "HORIZONS error: "@ + horizons_message(*e),
            self matches GravitonError::Render(e) ==> m@ == "render error: "@ + render_message(*e),
            self is Io ==> "I/O error at "@.is_prefix_of(m@),
            self is StdIo ==> "I/O error: "@.is_prefix_of(m@),
            self matches GravitonError::Other(text) ==> m@ == text@,
    {
        let mut m = String::new();
        match self {
            GravitonError::Scenario(e) => {
                push_str(&mut m, "scenario error: ");
                let t = e.message();
                push_str(&mut m, t.as_str());
            },
            GravitonError::Physics(e) => {
                push_str(&mut m, "physics error: ");
                let t = e.message();
                push_str(&mut m, t.as_str());
            },
            GravitonError::Horizons(e) => {
                push_str(&mut m, "HORIZONS error: ");
                let t = e.message();
                push_str(&mut m, t.as_str());
            },
            GravitonError::Render(e) => {
                push_str(&mut m, "render error: ");
                let t = e.message();
                push_str(&mut m, t.as_str());
            },
            GravitonError::Io { path, source } => {
                push_str(&mut m, "I/O error at ");
                let p = path_text(path);
                push_str(&mut m, p.as_str());
                push_str(&mut m, ": ");
                let t = io_error_text(source);
                push_str(&mut m, t.as_str());
            },
            GravitonError::StdIo(e) => {
                push_str(&mut m, "I/O error: ");
                let t = io_error_text(e);
                push_str(&mut m, t.as_str());
            },
            GravitonError::Other(text) => {
                push_str(&mut m, text.as_str());
            },
        }
        m
    }
}

/// Convenience for unimplemented subsystems during early phases.
pub fn not_implemented(feature: &str, phase: &str) -> (e: GravitonError)
    ensures
        e matches GravitonError::Other(m) && m@ == feature@ + " is not implemented yet ("@
            + phase@ + ")"@,
{
    let mut m = String::new();
    push_str(&mut m, feature);
    push_str(&mut m, " is not implemented yet (");
    push_str(&mut m, phase);
    push_str(&mut m, ")");
    GravitonError::Other(m)
}

} // verus!
