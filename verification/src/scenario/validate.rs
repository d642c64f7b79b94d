//! Scenario validation before conversion to simulation state.
//!
//! Every problem is reported, in a fixed order: schema version, time step,
//! softening, integrator, units, the body list, then each body in turn
//! (duplicate id, mass, radius, position, velocity).

use vstd::prelude::*;

use crate::error::{body_message, scenario_message, views_of, GravitonError, ScenarioError};
use crate::scenario::schema::{BodyCheck, ScenarioCheck, UnitsCheck, CURRENT_SCHEMA_VERSION};
use crate::text::{push_str, string_of};

verus! {

/// One message when `cond` holds, none otherwise.
pub open spec fn msg_if(cond: bool, m: Seq<char>) -> Seq<Seq<char>> {
    if cond {
        seq![m]
    } else {
        Seq::empty()
    }
}

/// Messages about custom units without their scale.
pub open spec fn unit_messages(u: UnitsCheck) -> Seq<Seq<char>> {
    msg_if(
        u.distance@ == "custom"@ && !u.has_distance_scale,
        "units.distance = \"custom\" requires units.distance_scale_m"@,
    ) + msg_if(
        u.mass@ == "custom"@ && !u.has_mass_scale,
        "units.mass = \"custom\" requires units.mass_scale_kg"@,
    ) + msg_if(u.time@ == "custom"@ && !u.has_time_scale, "units.time = \"custom\" requires units.time_scale_s"@)
}

/// Body `i` repeats the id of an earlier body.
pub open spec fn is_duplicate(bodies: Seq<BodyCheck>, i: int) -> bool {
    exists|j: int| 0 <= j < i && #[trigger] bodies[j].id@ == bodies[i].id@
}

/// The messages about body `i`.
pub open spec fn body_messages(bodies: Seq<BodyCheck>, i: int) -> Seq<Seq<char>> {
    let b = bodies[i];
    msg_if(is_duplicate(bodies, i), body_message(b.id@, "` has duplicate id"@)) + msg_if(
        !b.mass_valid,
        body_message(b.id@, "` has non-positive mass"@),
    ) + msg_if(!b.radius_valid, body_message(b.id@, "` radius must be finite and non-negative"@))
        + msg_if(!b.position_finite, body_message(b.id@, "` position must be finite"@)) + msg_if(
        !b.velocity_finite,
        body_message(b.id@, "` velocity must be finite"@),
    )
}

/// The messages about the first `n` bodies, body by body.
pub open spec fn bodies_messages(bodies: Seq<BodyCheck>, n: nat) -> Seq<Seq<char>>
    decreases n,
{
    if n == 0 {
        Seq::empty()
    } else {
        bodies_messages(bodies, (n - 1) as nat) + body_messages(bodies, n - 1)
    }
}

/// The messages about the settings that come before the units.
pub open spec fn settings_messages(raw: ScenarioCheck) -> Seq<Seq<char>> {
    msg_if(
        raw.schema_version != CURRENT_SCHEMA_VERSION,
        scenario_message(
            ScenarioError::UnsupportedSchema { found: raw.schema_version, expected: CURRENT_SCHEMA_VERSION },
        ),
    ) + msg_if(!raw.dt_valid, scenario_message(ScenarioError::InvalidTimeStep)) + msg_if(
        !raw.softening_valid,
        "physics.softening_m must be finite and non-negative"@,
    ) + msg_if(
        raw.integrator@ != "rk4"@,
        "unsupported integrator `"@ + raw.integrator@ + "` (only rk4 is supported)"@,
    )
}

/// Every validation message for a scenario, in reporting order.
pub open spec fn validation_messages(raw: ScenarioCheck) -> Seq<Seq<char>> {
    settings_messages(raw) + unit_messages(raw.units) + msg_if(
        raw.bodies@.len() == 0,
        "scenario must contain at least one body"@,
    ) + bodies_messages(raw.bodies@, raw.bodies@.len())
}

/// Appends a message to the list.
fn push_message(errors: &mut Vec<String>, m: String)
    ensures
        views_of(final(errors)@) == views_of(old(errors)@).push(m@),
{
    let ghost before = errors@;
    errors.push(m);
    proof {
        assert(views_of(errors@) =~= views_of(before).push(m@));
    }
}

/// `"body `"`, the id, then `rest`.
fn body_text(id: &String, rest: &str) -> (out: String)
    ensures
        out@ == body_message(id@, rest@),
{
    let mut out = string_of("body `");
    push_str(&mut out, id.as_str());
    push_str(&mut out, rest);
    out
}

/// Whether some body before `i` has the id of body `i`.
fn has_earlier_id(bodies: &Vec<BodyCheck>, i: usize) -> (b: bool)
    requires
        i < bodies.len(),
    ensures
        b == is_duplicate(bodies@, i as int),
{
    let mut j: usize = 0;
    while j < i
        invariant
            j <= i < bodies.len(),
            forall|k: int| 0 <= k < j ==> #[trigger] bodies@[k].id@ != bodies@[i as int].id@,
        decreases i - j,
    {
        if bodies[j].id == bodies[i].id {
            return true;
        }
        j += 1;
    }
    false
}

/// Appends the messages about custom units that lack their scale.
fn validate_units(raw: &ScenarioCheck, errors: &mut Vec<String>)
    ensures
        views_of(final(errors)@) == views_of(old(errors)@) + unit_messages(raw.units),
{
    let ghost start = views_of(errors@);
    let custom = string_of("custom");
    if raw.units.distance == custom && !raw.units.has_distance_scale {
        push_message(errors, string_of("units.distance = \"custom\" requires units.distance_scale_m"));
    }
    let ghost after_distance = views_of(errors@);
    if raw.units.mass == custom && !raw.units.has_mass_scale {
        push_message(errors, string_of("units.mass = \"custom\" requires units.mass_scale_kg"));
    }
    let ghost after_mass = views_of(errors@);
    if raw.units.time == custom && !raw.units.has_time_scale {
        push_message(errors, string_of("units.time = \"custom\" requires units.time_scale_s"));
    }
    proof {
        let u = raw.units;
        let a = msg_if(
            u.distance@ == "custom"@ && !u.has_distance_scale,
            "units.distance = \"custom\" requires units.distance_scale_m"@,
        );
        let b = msg_if(
            u.mass@ == "custom"@ && !u.has_mass_scale,
            "units.mass = \"custom\" requires units.mass_scale_kg"@,
        );
        let c = msg_if(
            u.time@ == "custom"@ && !u.has_time_scale,
            "units.time = \"custom\" requires units.time_scale_s"@,
        );
        assert(after_distance =~= start + a);
        assert(after_mass =~= start + a + b);
        assert(views_of(errors@) =~= start + a + b + c);
    }
}

/// Appends the messages about body `i`.
fn validate_body(bodies: &Vec<BodyCheck>, i: usize, errors: &mut Vec<String>)
    requires
        i < bodies.len(),
    ensures
        views_of(final(errors)@) == views_of(old(errors)@) + body_messages(bodies@, i as int),
{
    let ghost start = views_of(errors@);
    let b = &bodies[i];
    let ghost s0 = start;
    if has_earlier_id(bodies, i) {
        push_message(errors, body_text(&b.id, "` has duplicate id"));
    }
    let ghost s1 = views_of(errors@);
    if !b.mass_valid {
        push_message(errors, body_text(&b.id, "` has non-positive mass"));
    }
    let ghost s2 = views_of(errors@);
    if !b.radius_valid {
        push_message(errors, body_text(&b.id, "` radius must be finite and non-negative"));
    }
    let ghost s3 = views_of(errors@);
    if !b.position_finite {
        push_message(errors, body_text(&b.id, "` position must be finite"));
    }
    let ghost s4 = views_of(errors@);
    if !b.velocity_finite {
        push_message(errors, body_text(&b.id, "` velocity must be finite"));
    }
    proof {
        let bs = bodies@;
        let bb = bs[i as int];
        let m0 = msg_if(is_duplicate(bs, i as int), body_message(bb.id@, "` has duplicate id"@));
        let m1 = msg_if(!bb.mass_valid, body_message(bb.id@, "` has non-positive mass"@));
        let m2 = msg_if(!bb.radius_valid, body_message(bb.id@, "` radius must be finite and non-negative"@));
        let m3 = msg_if(!bb.position_finite, body_message(bb.id@, "` position must be finite"@));
        let m4 = msg_if(!bb.velocity_finite, body_message(bb.id@, "` velocity must be finite"@));
        assert(s1 =~= s0 + m0);
        assert(s2 =~= s0 + m0 + m1);
        assert(s3 =~= s0 + m0 + m1 + m2);
        assert(s4 =~= s0 + m0 + m1 + m2 + m3);
        assert(views_of(errors@) =~= s0 + m0 + m1 + m2 + m3 + m4);
        assert(body_messages(bs, i as int) =~= m0 + m1 + m2 + m3 + m4);
    }
}

/// Collects every validation issue of a scenario. It is accepted exactly when
/// there is none; otherwise the error lists all of them, in reporting order.
pub fn validate(raw: &ScenarioCheck) -> (r: Result<(), GravitonError>)
    ensures
        r is Ok <==> validation_messages(*raw).len() == 0,
        r is Err ==> (r->Err_0 matches GravitonError::Scenario(ScenarioError::Validation(v)) && views_of(v@)
            == validation_messages(*raw)),
{
    let mut errors: Vec<String> = Vec::new();
    proof {
        assert(views_of(errors@) =~= Seq::<Seq<char>>::empty());
    }
    if raw.schema_version != CURRENT_SCHEMA_VERSION {
        let e = ScenarioError::UnsupportedSchema { found: raw.schema_version, expected: CURRENT_SCHEMA_VERSION };
        push_message(&mut errors, e.message());
    }
    let ghost s1 = views_of(errors@);
    if !raw.dt_valid {
        push_message(&mut errors, ScenarioError::InvalidTimeStep.message());
    }
    let ghost s2 = views_of(errors@);
    if !raw.softening_valid {
        push_message(&mut errors, string_of("physics.softening_m must be finite and non-negative"));
    }
    let ghost s3 = views_of(errors@);
    if raw.integrator != string_of("rk4") {
        let mut m = string_of("unsupported integrator `");
        push_str(&mut m, raw.integrator.as_str());
        push_str(&mut m, "` (only rk4 is supported)");
        push_message(&mut errors, m);
    }
    proof {
        let a = msg_if(
            raw.schema_version != CURRENT_SCHEMA_VERSION,
            scenario_message(
                ScenarioError::UnsupportedSchema { found: raw.schema_version, expected: CURRENT_SCHEMA_VERSION },
            ),
        );
        let b = msg_if(!raw.dt_valid, scenario_message(ScenarioError::InvalidTimeStep));
        let c = msg_if(!raw.softening_valid, "physics.softening_m must be finite and non-negative"@);
        let d = msg_if(
            raw.integrator@ != "rk4"@,
            "unsupported integrator `"@ + raw.integrator@ + "` (only rk4 is supported)"@,
        );
        assert(s1 =~= a);
        assert(s2 =~= a + b);
        assert(s3 =~= a + b + c);
        assert(views_of(errors@) =~= a + b + c + d);
        assert(settings_messages(*raw) =~= a + b + c + d);
    }
    validate_units(raw, &mut errors);
    let ghost s5 = views_of(errors@);
    if raw.bodies.len() == 0 {
        push_message(&mut errors, string_of("scenario must contain at least one body"));
    }
    let ghost s6 = views_of(errors@);
    proof {
        assert(s6 =~= s5 + msg_if(raw.bodies@.len() == 0, "scenario must contain at least one body"@));
        assert(bodies_messages(raw.bodies@, 0) =~= Seq::<Seq<char>>::empty());
    }
    let n = raw.bodies.len();
    let mut i: usize = 0;
    while i < n
        invariant
            n == raw.bodies@.len(),
            i <= n,
            views_of(errors@) == s6 + bodies_messages(raw.bodies@, i as nat),
        decreases n - i,
    {
        validate_body(&raw.bodies, i, &mut errors);
        proof {
            assert(s6 + bodies_messages(raw.bodies@, (i + 1) as nat) =~= s6 + bodies_messages(raw.bodies@, i as nat)
                + body_messages(raw.bodies@, i as int));
        }
        i += 1;
    }
    proof {
        assert(views_of(errors@) =~= validation_messages(*raw));
        assert(views_of(errors@).len() == errors@.len());
    }
    if errors.len() > 0 {
        return Err(GravitonError::Scenario(ScenarioError::Validation(errors)));
    }
    Ok(())
}

} // verus!
