use graviton::error::{GravitonError, HorizonsError};
use graviton::horizons::cache::raw_cache_path;
use graviton::horizons::client::{screen_reply_text, vector_query_url, HorizonsResponse};
use graviton::horizons::fetch::{
    add_one_day_iso, choose_vector_source, default_date_iso, iso_to_horizons_date, run_fetch,
    solar_system_toml_header, FetchOptions, VectorSource,
};
use graviton::horizons::parser::{detect_units, locate_first_vector, VectorUnits};

#[test]
fn add_one_day_iso_handles_month_boundary() {
    assert_eq!(add_one_day_iso("2026-06-01").unwrap(), "2026-06-02");
    assert_eq!(add_one_day_iso("2026-01-31").unwrap(), "2026-02-01");
}

#[test]
fn add_one_day_rolls_over_year_and_leap_days() {
    assert_eq!(add_one_day_iso("2026-12-31").unwrap(), "2027-01-01");
    assert_eq!(add_one_day_iso("2024-02-28").unwrap(), "2024-02-29");
    assert_eq!(add_one_day_iso("2024-02-29").unwrap(), "2024-03-01");
    assert_eq!(add_one_day_iso("2026-02-28").unwrap(), "2026-03-01");
    assert_eq!(add_one_day_iso("1900-02-28").unwrap(), "1900-03-01");
    assert_eq!(add_one_day_iso("2000-02-28").unwrap(), "2000-02-29");
    assert_eq!(add_one_day_iso("2026-04-30").unwrap(), "2026-05-01");
}

fn other_message(e: GravitonError) -> String {
    match e {
        GravitonError::Other(m) => m,
        other => panic!("unexpected error {other:?}"),
    }
}

#[test]
fn add_one_day_reports_each_bad_field() {
    assert_eq!(
        other_message(add_one_day_iso("2026-06").unwrap_err()),
        "invalid date `2026-06` (expected YYYY-MM-DD)"
    );
    assert_eq!(
        other_message(add_one_day_iso("year-06-01").unwrap_err()),
        "invalid year in date `year-06-01`"
    );
    assert_eq!(
        other_message(add_one_day_iso("2026-xx-01").unwrap_err()),
        "invalid month in date `2026-xx-01`"
    );
    assert_eq!(
        other_message(add_one_day_iso("2026-06-x").unwrap_err()),
        "invalid day in date `2026-06-x`"
    );
}

#[test]
fn horizons_dates_use_month_names() {
    assert_eq!(iso_to_horizons_date("2026-06-01").unwrap(), "2026-Jun-01");
    assert_eq!(iso_to_horizons_date("2026-12-31").unwrap(), "2026-Dec-31");
    assert!(iso_to_horizons_date("2026-13-01").is_err());
    assert!(iso_to_horizons_date("2026-06").is_err());
}

#[test]
fn default_date_is_fixed() {
    assert_eq!(default_date_iso(), "2026-06-01");
}

fn options(preset: &str, date: Option<&str>, output: Option<&str>) -> FetchOptions {
    FetchOptions {
        preset: preset.to_string(),
        date: date.map(|d| d.to_string()),
        center: "500@0".to_string(),
        output: output.map(|o| o.to_string()),
        offline: true,
        force: false,
    }
}

#[test]
fn run_fetch_plans_the_solar_system_preset() {
    let plan = run_fetch(options("solar-system", None, None)).unwrap();
    assert_eq!(plan.date_iso, "2026-06-01");
    assert_eq!(plan.horizons_start, "2026-Jun-01");
    assert_eq!(plan.horizons_stop, "2026-Jun-02");
    assert_eq!(plan.center, "500@0");
    assert_eq!(plan.output, "scenarios/solar-system.toml");
    assert!(plan.offline);
    assert!(!plan.force);

    let plan = run_fetch(options("solar-system", Some("2026-01-31"), Some("out.toml"))).unwrap();
    assert_eq!(plan.horizons_start, "2026-Jan-31");
    assert_eq!(plan.horizons_stop, "2026-Feb-01");
    assert_eq!(plan.output, "out.toml");
}

#[test]
fn run_fetch_rejects_unknown_presets_and_dates() {
    let e = run_fetch(options("galaxy", None, None)).err().unwrap();
    assert_eq!(
        other_message(e),
        "unknown fetch preset `galaxy` (only `solar-system` is supported)"
    );
    assert!(run_fetch(options("solar-system", Some("06/01/2026"), None)).is_err());
}

#[test]
fn vector_source_prefers_the_cache() {
    assert_eq!(choose_vector_source(true, true, false), VectorSource::Cache { announce: true });
    assert_eq!(choose_vector_source(true, false, false), VectorSource::Cache { announce: false });
    assert_eq!(choose_vector_source(true, true, true), VectorSource::Cache { announce: true });
    assert_eq!(choose_vector_source(true, false, true), VectorSource::Network);
    assert_eq!(choose_vector_source(false, true, false), VectorSource::Unavailable);
    assert_eq!(choose_vector_source(false, false, false), VectorSource::Network);
}

#[test]
fn query_url_names_command_center_and_times() {
    let url = vector_query_url("399", "500@0", "2026-Jun-01", "2026-Jun-02");
    assert_eq!(
        url,
        "https://ssd.jpl.nasa.gov/api/horizons.api?format=json&EPHEM_TYPE=VECTORS&COMMAND='399'&CENTER='500@0'&START_TIME='2026-Jun-01'&STOP_TIME='2026-Jun-02'&STEP_SIZE='1%20d'&VEC_TABLE='2'&CSV_FORMAT='YES'&OBJ_DATA='YES'"
    );
}

#[test]
fn cache_path_escapes_the_center() {
    assert_eq!(
        raw_cache_path("/home/u/.cache/graviton", "399", "2026-Jun-01", "500@0"),
        "/home/u/.cache/graviton/raw/399_2026-Jun-01_500_at_0.json"
    );
    assert_eq!(
        raw_cache_path("cache/", "10", "2026-Jun-01", "sun"),
        "cache/raw/10_2026-Jun-01_sun.json"
    );
}

#[test]
fn screened_replies() {
    assert!(screen_reply_text("399", "{\"result\": \"ok\"}").is_ok());
    match screen_reply_text("399", "No ephemeris for target") {
        Err(HorizonsError::Http(m)) => assert_eq!(m, "HORIZONS returned an error for command 399"),
        other => panic!("unexpected {other:?}"),
    }
    assert!(screen_reply_text("1", "ERROR: bad").is_err());
    assert!(screen_reply_text("1", "{\"result\": \"ERROR in line\"}").is_ok());
}

const KM_REPLY: &str = "*******\nOutput units    : KM-S\n*******\n$$SOE\n2461192.5, A.D. 2026-Jun-01, 1.0E+08, -2.0E+07, 3.0E+03, 1.0E+01, 2.0E+01, -3.0E-01,\n$$EOE\n";
const AU_REPLY: &str = "Output units    : AU-D\n$$SOE\n2461192.5, A.D. 2026-Jun-01, 0.5, 0.25, 0.0, 0.01, 0.02, 0.0,\n$$EOE\n";

#[test]
fn units_are_read_from_the_header() {
    assert_eq!(detect_units(KM_REPLY).unwrap(), VectorUnits::KmAndKmPerSecond);
    assert_eq!(detect_units(AU_REPLY).unwrap(), VectorUnits::AuAndAuPerDay);
    assert!(matches!(
        detect_units("no header here"),
        Err(GravitonError::Horizons(HorizonsError::UnknownUnits))
    ));
    assert!(matches!(
        detect_units("output units: parsecs"),
        Err(GravitonError::Horizons(HorizonsError::UnknownUnits))
    ));
}

#[test]
fn first_vector_row_is_located() {
    let (units, fields) = locate_first_vector(&HorizonsResponse { result: KM_REPLY.to_string() }).unwrap();
    assert_eq!(units, VectorUnits::KmAndKmPerSecond);
    assert!(fields.len() >= 8);
    assert_eq!(fields[2], "1.0E+08");
    assert_eq!(fields[7], "-3.0E-01");

    let missing = locate_first_vector(&HorizonsResponse { result: "Output units: AU-D\n".to_string() });
    assert!(missing.is_err());
    let empty = locate_first_vector(&HorizonsResponse {
        result: "Output units: AU-D\n$$SOE\n$$EOE\n".to_string(),
    });
    assert!(matches!(empty, Err(GravitonError::Horizons(HorizonsError::MissingVectorTable))));
}

#[test]
fn toml_header_names_date_and_center() {
    let h = solar_system_toml_header("2026-06-01", "500@0");
    assert!(h.starts_with("schema_version = 1\nname = \"Solar System (HORIZONS)\"\n"));
    assert!(h.contains("(2026-06-01, center 500@0)"));
    assert!(h.contains("[units]\ndistance = \"au\"\nmass = \"kg\"\ntime = \"day\"\n"));
    assert!(h.ends_with("follow_center_of_mass = true\n\n"));
}
