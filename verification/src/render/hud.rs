//! The text of the HUD: status line, footer, scenario menu entries and the
//! window title. Numbers arrive already formatted; the library decides what
//! is shown and in which order.

use vstd::prelude::*;

use crate::physics::barnes_hut::TreeStats;
use crate::render::camera::Projection;
use crate::text::{decimal_spec, push_decimal, push_str, string_of};

verus! {

/// The label of a projection plane.
pub open spec fn projection_label_spec(p: Projection) -> Seq<char> {
    match p {
        Projection::Xy => "XY"@,
        Projection::Xz => "XZ"@,
        Projection::Yz => "YZ"@,
    }
}

/// The label of a projection plane.
pub fn projection_label(p: Projection) -> (s: String)
    ensures
        s@ == projection_label_spec(p),
{
    match p {
        Projection::Xy => string_of("XY"),
        Projection::Xz => string_of("XZ"),
        Projection::Yz => string_of("YZ"),
    }
}

/// What the status line shows, besides the two numbers.
pub struct StatusInputs {
    /// The scenario file name (`scenario` when it has none).
    pub scenario: String,
    pub paused: bool,
    /// The time warp, formatted with one decimal.
    pub warp: String,
    /// The time step in seconds, formatted without decimals.
    pub dt: String,
    pub barnes_hut: bool,
    pub projection: Projection,
    pub heatmap: bool,
}

/// The segments of the status line, in order; they are shown separated by
/// `" | "`, the first one in bold.
pub open spec fn status_segments_spec(s: StatusInputs) -> Seq<Seq<char>> {
    seq![
        "graviton"@,
        s.scenario@,
        if s.paused { "paused"@ } else { "running"@ },
        "warp "@ + s.warp@ + "x"@,
        "dt "@ + s.dt@ + "s"@,
        if s.barnes_hut { "BH"@ } else { "RK4/direct"@ },
        projection_label_spec(s.projection),
        if s.heatmap { "heatmap"@ } else { "no heatmap"@ },
    ]
}

/// The segments of the status line.
pub fn status_segments(s: &StatusInputs) -> (out: Vec<String>)
    ensures
        out@.map_values(|t: String| t@) == status_segments_spec(*s),
{
    let mut warp = string_of("warp ");
    push_str(&mut warp, s.warp.as_str());
    push_str(&mut warp, "x");
    let mut dt = string_of("dt ");
    push_str(&mut dt, s.dt.as_str());
    push_str(&mut dt, "s");
    let out = vec![
        string_of("graviton"),
        s.scenario.clone(),
        if s.paused {
            string_of("paused")
        } else {
            string_of("running")
        },
        warp,
        dt,
        if s.barnes_hut {
            string_of("BH")
        } else {
            string_of("RK4/direct")
        },
        projection_label(s.projection),
        if s.heatmap {
            string_of("heatmap")
        } else {
            string_of("no heatmap")
        },
    ];
    assert(out@.map_values(|t: String| t@) =~= status_segments_spec(*s));
    out
}

/// The footer parts, in order: the energy drift, the momentum when shown,
/// the body count, the frame rate, the help hint, and the octree when one
/// was built.
pub open spec fn footer_parts_spec(
    drift: Seq<char>,
    momentum: Option<Seq<char>>,
    bodies: nat,
    fps: Seq<char>,
    tree: Option<TreeStats>,
) -> Seq<Seq<char>> {
    seq!["energy drift: "@ + drift] + match momentum {
        Some(p) => seq!["|p|: "@ + p + " kg\u{b7}m/s"@],
        None => Seq::empty(),
    } + seq!["bodies: "@ + decimal_spec(bodies), "fps: "@ + fps, "? help"@] + match tree {
        Some(t) => seq![
            "octree: "@ + decimal_spec(t.nodes as nat) + " nodes depth "@ + decimal_spec(t.max_depth as nat),
        ],
        None => Seq::empty(),
    }
}

/// `parts` joined by `" | "`.
pub open spec fn joined(parts: Seq<Seq<char>>) -> Seq<char>
    decreases parts.len(),
{
    if parts.len() == 0 {
        Seq::empty()
    } else if parts.len() == 1 {
        parts[0]
    } else {
        joined(parts.drop_last()) + " | "@ + parts.last()
    }
}

/// Joining one more part appends the separator and the part.
proof fn lemma_joined_step(parts: Seq<Seq<char>>, k: int)
    requires
        1 <= k < parts.len(),
    ensures
        joined(parts.take(k + 1)) == joined(parts.take(k)) + " | "@ + parts[k],
{
    assert(parts.take(k + 1).drop_last() =~= parts.take(k));
}

/// The footer line: its parts joined by `" | "`. `drift`, `momentum` and
/// `fps` are the formatted numbers.
pub fn footer_text(drift: &str, momentum: Option<&str>, bodies: usize, fps: &str, tree: Option<TreeStats>) -> (out: String)
    ensures
        out@ == joined(
            footer_parts_spec(
                drift@,
                match momentum {
                    Some(p) => Some(p@),
                    None => None,
                },
                bodies as nat,
                fps@,
                tree,
            ),
        ),
{
    let ghost mv: Option<Seq<char>> = match momentum {
        Some(p) => Some(p@),
        None => None,
    };
    let ghost parts = footer_parts_spec(drift@, mv, bodies as nat, fps@, tree);
    let mut out = string_of("energy drift: ");
    push_str(&mut out, drift);
    let ghost k: int = 1;
    proof {
        assert(parts.take(1) =~= seq![parts[0]]);
        assert(out@ =~= joined(parts.take(1)));
    }
    match momentum {
        Some(p) => {
            let ghost before = out@;
            push_str(&mut out, " | ");
            push_str(&mut out, "|p|: ");
            push_str(&mut out, p);
            push_str(&mut out, " kg\u{b7}m/s");
            proof {
                k = 2;
                assert(out@ =~= before + " | "@ + parts[1]);
                lemma_joined_step(parts, 1);
            }
        },
        None => {},
    }
    let ghost before = out@;
    push_str(&mut out, " | ");
            push_str(&mut out, "bodies: ");
    push_decimal(&mut out, bodies as u64);
    proof {
        assert(out@ =~= before + " | "@ + parts[k]);
        lemma_joined_step(parts, k);
        k = k + 1;
    }
    let ghost before = out@;
    push_str(&mut out, " | ");
            push_str(&mut out, "fps: ");
    push_str(&mut out, fps);
    proof {
        assert(out@ =~= before + " | "@ + parts[k]);
        lemma_joined_step(parts, k);
        k = k + 1;
    }
    let ghost before = out@;
    push_str(&mut out, " | ");
            push_str(&mut out, "? help");
    proof {
        assert(out@ =~= before + " | "@ + parts[k]);
        lemma_joined_step(parts, k);
        k = k + 1;
    }
    match tree {
        Some(t) => {
            let ghost before = out@;
            push_str(&mut out, " | ");
            push_str(&mut out, "octree: ");
            push_decimal(&mut out, t.nodes as u64);
            push_str(&mut out, " nodes depth ");
            push_decimal(&mut out, t.max_depth as u64);
            proof {
                assert(out@ =~= before + " | "@ + parts[k]);
                lemma_joined_step(parts, k);
                k = k + 1;
            }
        },
        None => {},
    }
    proof {
        assert(parts.take(k) =~= parts);
    }
    out
}

/// An entry of the scenario menu: a marker on the entry under the cursor,
/// then the file name.
pub fn menu_entry(under_cursor: bool, name: &str) -> (out: String)
    ensures
        out@ == (if under_cursor {
            "\u{25b8} "@
        } else {
            "  "@
        }) + name@,
{
    let mut out = if under_cursor {
        string_of("\u{25b8} ")
    } else {
        string_of("  ")
    };
    push_str(&mut out, name);
    out
}

/// The title of the simulation view: the scenario name, with `| g: field`
/// while the heatmap is on and `| paused` while paused.
pub fn simulation_title(scenario_name: &str, heatmap_enabled: bool, paused: bool) -> (title: String)
    ensures
        title@ == scenario_name@ + (if heatmap_enabled {
            " | g: field"@
        } else {
            Seq::empty()
        }) + (if paused {
            " | paused"@
        } else {
            Seq::empty()
        }),
{
    let mut title = string_of(scenario_name);
    if heatmap_enabled {
        push_str(&mut title, " | g: field");
    }
    if paused {
        push_str(&mut title, " | paused");
    }
    title
}

} // verus!
