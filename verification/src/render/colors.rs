//! 24-bit colors for bodies, markers and trails.

use vstd::prelude::*;

use vstd::string::StringSliceAdditionalSpecFns;

use crate::physics::body::BodyClass;
use crate::scenario::colors::parse_hex_color_spec;
use crate::text::{chars_of, eq_ignore_ascii_case, eq_ignore_ascii_case_spec};

verus! {

/// The value of an ASCII hex digit byte; any other byte counts as 0.
pub open spec fn hex_digit_spec(c: u8) -> u8 {
    if 48 <= c <= 57 {
        (c - 48) as u8
    } else if 97 <= c <= 102 {
        (c - 87) as u8
    } else if 65 <= c <= 70 {
        (c - 55) as u8
    } else {
        0
    }
}

/// The byte written by two hex digit bytes, high digit first.
pub open spec fn hex_pair_value(h: u8, l: u8) -> u8 {
    (16 * hex_digit_spec(h) + hex_digit_spec(l)) as u8
}

/// The value of an ASCII hex digit byte; any other byte counts as 0.
pub fn hex_digit(c: u8) -> (v: u8)
    ensures
        v == hex_digit_spec(c),
        v < 16,
{
    if 48 <= c && c <= 57 {
        c - 48
    } else if 97 <= c && c <= 102 {
        c - 87
    } else if 65 <= c && c <= 70 {
        c - 55
    } else {
        0
    }
}

/// The byte written by the hex digits `h` (high) and `l` (low).
pub fn from_hex_pair(h: u8, l: u8) -> (v: u8)
    ensures
        v == hex_pair_value(h, l),
{
    let hi = hex_digit(h);
    let lo = hex_digit(l);
    let v = (hi << 4) | lo;
    assert(v == 16 * hi + lo) by (bit_vector)
        requires
            hi < 16,
            lo < 16,
            v == (hi << 4) | lo,
    ;
    v
}

/// The color written by the first six bytes of `s` as three hex pairs.
pub fn hex(s: &str) -> (rgb: [u8; 3])
    requires
        s.spec_bytes().len() >= 6,
    ensures
        ({
            let b = s.spec_bytes();
            rgb == [hex_pair_value(b[0], b[1]), hex_pair_value(b[2], b[3]), hex_pair_value(b[4], b[5])]
        }),
{
    let bytes = s.as_bytes();
    [
        from_hex_pair(bytes[0], bytes[1]),
        from_hex_pair(bytes[2], bytes[3]),
        from_hex_pair(bytes[4], bytes[5]),
    ]
}

/// The color of an ASCII literal of six hex digits.
fn literal_rgb(s: &str) -> (rgb: [u8; 3])
    requires
        vstd::string::is_ascii(s),
        s@.len() >= 6,
    ensures
        rgb == [
            hex_pair_value(s@[0] as u8, s@[1] as u8),
            hex_pair_value(s@[2] as u8, s@[3] as u8),
            hex_pair_value(s@[4] as u8, s@[5] as u8),
        ],
{
    proof {
        vstd::string::is_ascii_spec_bytes(s);
    }
    hex(s)
}

/// The display color of the Solar System bodies, by name in any ASCII case.
pub open spec fn name_color_spec(name: Seq<char>) -> Option<[u8; 3]> {
    if eq_ignore_ascii_case_spec(name, "sun"@) {
        Some([0xffu8, 0xf4u8, 0xeau8])
    } else if eq_ignore_ascii_case_spec(name, "mercury"@) {
        Some([0x8cu8, 0x7fu8, 0x70u8])
    } else if eq_ignore_ascii_case_spec(name, "venus"@) {
        Some([0xd9u8, 0xc2u8, 0x7fu8])
    } else if eq_ignore_ascii_case_spec(name, "earth"@) {
        Some([0x3du8, 0x8bu8, 0xfdu8])
    } else if eq_ignore_ascii_case_spec(name, "moon"@) {
        Some([0xc0u8, 0xc0u8, 0xc0u8])
    } else if eq_ignore_ascii_case_spec(name, "mars"@) {
        Some([0xc1u8, 0x44u8, 0x0eu8])
    } else if eq_ignore_ascii_case_spec(name, "jupiter"@) {
        Some([0xd8u8, 0xa4u8, 0x5fu8])
    } else if eq_ignore_ascii_case_spec(name, "saturn"@) {
        Some([0xe3u8, 0xc1u8, 0x6fu8])
    } else if eq_ignore_ascii_case_spec(name, "uranus"@) {
        Some([0x7fu8, 0xdbu8, 0xffu8])
    } else if eq_ignore_ascii_case_spec(name, "neptune"@) {
        Some([0x41u8, 0x69u8, 0xe1u8])
    } else if eq_ignore_ascii_case_spec(name, "pluto"@) {
        Some([0xb8u8, 0x9bu8, 0x72u8])
    } else {
        None
    }
}

/// The display color of a known Solar System body, by name in any ASCII case.
pub fn color_by_name(name: &str) -> (c: Option<[u8; 3]>)
    ensures
        c == name_color_spec(name@),
{
    let n = chars_of(name);
    if eq_ignore_ascii_case(&n, &chars_of("sun")) {
        proof {
            reveal_strlit("fff4ea");
        }
        return Some(literal_rgb("fff4ea"));
    }
    if eq_ignore_ascii_case(&n, &chars_of("mercury")) {
        proof {
            reveal_strlit("8c7f70");
        }
        return Some(literal_rgb("8c7f70"));
    }
    if eq_ignore_ascii_case(&n, &chars_of("venus")) {
        proof {
            reveal_strlit("d9c27f");
        }
        return Some(literal_rgb("d9c27f"));
    }
    if eq_ignore_ascii_case(&n, &chars_of("earth")) {
        proof {
            reveal_strlit("3d8bfd");
        }
        return Some(literal_rgb("3d8bfd"));
    }
    if eq_ignore_ascii_case(&n, &chars_of("moon")) {
        proof {
            reveal_strlit("c0c0c0");
        }
        return Some(literal_rgb("c0c0c0"));
    }
    if eq_ignore_ascii_case(&n, &chars_of("mars")) {
        proof {
            reveal_strlit("c1440e");
        }
        return Some(literal_rgb("c1440e"));
    }
    if eq_ignore_ascii_case(&n, &chars_of("jupiter")) {
        proof {
            reveal_strlit("d8a45f");
        }
        return Some(literal_rgb("d8a45f"));
    }
    if eq_ignore_ascii_case(&n, &chars_of("saturn")) {
        proof {
            reveal_strlit("e3c16f");
        }
        return Some(literal_rgb("e3c16f"));
    }
    if eq_ignore_ascii_case(&n, &chars_of("uranus")) {
        proof {
            reveal_strlit("7fdbff");
        }
        return Some(literal_rgb("7fdbff"));
    }
    if eq_ignore_ascii_case(&n, &chars_of("neptune")) {
        proof {
            reveal_strlit("4169e1");
        }
        return Some(literal_rgb("4169e1"));
    }
    if eq_ignore_ascii_case(&n, &chars_of("pluto")) {
        proof {
            reveal_strlit("b89b72");
        }
        return Some(literal_rgb("b89b72"));
    }
    None
}

/// The default display color of each body class.
pub open spec fn class_color_spec(class: BodyClass) -> [u8; 3] {
    match class {
        BodyClass::Star => [0xffu8, 0xf4u8, 0xeau8],
        BodyClass::Planet => [0x3du8, 0x8bu8, 0xfdu8],
        BodyClass::Moon => [0xc0u8, 0xc0u8, 0xc0u8],
        BodyClass::DwarfPlanet => [0xb8u8, 0x9bu8, 0x72u8],
        BodyClass::Asteroid => [0x8cu8, 0x7fu8, 0x70u8],
        BodyClass::Comet => [0x7fu8, 0xdbu8, 0xffu8],
        BodyClass::Spacecraft => [0x51u8, 0xcfu8, 0x66u8],
        BodyClass::Custom => [0xffu8, 0x6bu8, 0x6bu8],
    }
}

/// The default display color of a body class.
pub fn color_by_class(class: BodyClass) -> (c: [u8; 3])
    ensures
        c == class_color_spec(class),
{
    match class {
        BodyClass::Star => {
            proof {
                reveal_strlit("fff4ea");
            }
            literal_rgb("fff4ea")
        },
        BodyClass::Planet => {
            proof {
                reveal_strlit("3d8bfd");
            }
            literal_rgb("3d8bfd")
        },
        BodyClass::Moon => {
            proof {
                reveal_strlit("c0c0c0");
            }
            literal_rgb("c0c0c0")
        },
        BodyClass::DwarfPlanet => {
            proof {
                reveal_strlit("b89b72");
            }
            literal_rgb("b89b72")
        },
        BodyClass::Asteroid => {
            proof {
                reveal_strlit("8c7f70");
            }
            literal_rgb("8c7f70")
        },
        BodyClass::Comet => {
            proof {
                reveal_strlit("7fdbff");
            }
            literal_rgb("7fdbff")
        },
        BodyClass::Spacecraft => {
            proof {
                reveal_strlit("51cf66");
            }
            literal_rgb("51cf66")
        },
        BodyClass::Custom => {
            proof {
                reveal_strlit("ff6b6b");
            }
            literal_rgb("ff6b6b")
        },
    }
}

/// The display color of a body: the scenario's color, else the color of its
/// name, else the color of its class.
pub open spec fn body_color_spec(color_rgb: Option<[u8; 3]>, name: Seq<char>, class: BodyClass) -> [u8; 3] {
    match color_rgb {
        Some(rgb) => rgb,
        None => match name_color_spec(name) {
            Some(rgb) => rgb,
            None => class_color_spec(class),
        },
    }
}

/// Resolve display color for a body (scenario override, then name, then class).
pub fn body_color(color_rgb: Option<[u8; 3]>, name: &str, class: BodyClass) -> (c: [u8; 3])
    ensures
        c == body_color_spec(color_rgb, name@, class),
{
    if let Some(rgb) = color_rgb {
        return rgb;
    }
    if let Some(rgb) = color_by_name(name) {
        return rgb;
    }
    color_by_class(class)
}

/// Parse `#rrggbb` or `rrggbb` into RGB bytes.
pub fn parse_hex_color(hex: &str) -> (r: Option<[u8; 3]>)
    requires
        crate::scenario::colors::hex_color_slices_on_boundaries(hex@),
    ensures
        r == parse_hex_color_spec(hex@),
{
    crate::scenario::colors::parse_hex_color(hex)
}

/// Dim warm halo around stars: 55% of red, 45% of green and 25% of blue, each
/// rounded down.
pub fn star_glow_color(base: [u8; 3]) -> (c: [u8; 3])
    ensures
        c[0] == base[0] * 55 / 100,
        c[1] == base[1] * 45 / 100,
        c[2] == base[2] / 4,
{
    let r = (base[0] as u32 * 55 / 100) as u8;
    let g = (base[1] as u32 * 45 / 100) as u8;
    let b = base[2] / 4;
    [r, g, b]
}

/// Selection ring / marker accent.
pub fn selection_accent() -> (c: [u8; 3])
    ensures
        c == [0xffu8, 0xffu8, 0x66u8],
{
    [0xff, 0xff, 0x66]
}

/// Center-of-mass marker.
pub fn com_marker_color() -> (c: [u8; 3])
    ensures
        c == [0x66u8, 0xffu8, 0xaau8],
{
    [0x66, 0xff, 0xaa]
}

} // verus!
