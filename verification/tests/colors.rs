use graviton::physics::body::BodyClass;
use graviton::render::colors::{
    body_color, color_by_class, color_by_name, com_marker_color, from_hex_pair, hex, hex_digit,
    parse_hex_color, selection_accent, star_glow_color,
};
use graviton::scenario::colors::parse_hex_color as parse_scenario_color;

#[test]
fn parses_hex_color() {
    assert_eq!(parse_hex_color("#3d8bfd"), Some([0x3d, 0x8b, 0xfd]));
}

#[test]
fn hex_color_edge_cases() {
    assert_eq!(parse_scenario_color("3D8BFD"), Some([0x3d, 0x8b, 0xfd]));
    assert_eq!(parse_scenario_color("  #ffffff  "), Some([0xff, 0xff, 0xff]));
    assert_eq!(parse_scenario_color("##000000"), Some([0, 0, 0]));
    assert_eq!(parse_scenario_color("#12345"), None);
    assert_eq!(parse_scenario_color("#1234567"), None);
    assert_eq!(parse_scenario_color("#12345g"), None);
    assert_eq!(parse_scenario_color(""), None);
    assert_eq!(parse_scenario_color("+f+f+f"), None);
    assert_eq!(parse_hex_color("#+f0000"), None);
    assert_eq!(parse_hex_color("-10000"), None);
}

#[test]
fn hex_digits_and_pairs() {
    assert_eq!(hex_digit(b'0'), 0);
    assert_eq!(hex_digit(b'9'), 9);
    assert_eq!(hex_digit(b'a'), 10);
    assert_eq!(hex_digit(b'F'), 15);
    assert_eq!(hex_digit(b'z'), 0);
    assert_eq!(from_hex_pair(b'f', b'e'), 0xfe);
    assert_eq!(hex("0a0e2a"), [0x0a, 0x0e, 0x2a]);
}

#[test]
fn star_glow_matches_the_float_scaling() {
    for v in 0u16..=255 {
        let b = v as u8;
        let expected = [
            (f64::from(b) * 0.55) as u8,
            (f64::from(b) * 0.45) as u8,
            (f64::from(b) * 0.25) as u8,
        ];
        assert_eq!(star_glow_color([b, b, b]), expected, "component {b}");
    }
    assert_eq!(star_glow_color([200, 100, 40]), [110, 45, 10]);
}

#[test]
fn fixed_accents() {
    assert_eq!(selection_accent(), [0xff, 0xff, 0x66]);
    assert_eq!(com_marker_color(), [0x66, 0xff, 0xaa]);
}

#[test]
fn body_colors_prefer_explicit_then_name_then_class() {
    assert_eq!(body_color(Some([1, 2, 3]), "Earth", BodyClass::Planet), [1, 2, 3]);
    let by_name = color_by_name("earth").unwrap();
    assert_eq!(body_color(None, "Earth", BodyClass::Planet), by_name);
    assert_eq!(color_by_name("EARTH"), Some(by_name));
    assert_eq!(color_by_name("vulcan"), None);
    assert_eq!(body_color(None, "vulcan", BodyClass::Star), color_by_class(BodyClass::Star));
    assert_eq!(color_by_class(BodyClass::Star), [0xff, 0xf4, 0xea]);
}
