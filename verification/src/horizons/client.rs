//! HORIZONS query URLs and the screening of raw replies.

use vstd::prelude::*;

use crate::error::HorizonsError;
use crate::text::{chars_of, contains_range, contains_spec, push_str};

verus! {

/// The HORIZONS API endpoint.
pub const HORIZONS_API: &'static str = "https://ssd.jpl.nasa.gov/api/horizons.api";

/// JSON wrapper returned by `horizons.api` with `format=json`.
#[derive(Debug)]
pub struct HorizonsResponse {
    pub result: String,
}

/// The query string for barycentric state vectors at a single epoch.
pub open spec fn vector_query_spec(
    command_id: Seq<char>,
    center: Seq<char>,
    start_time: Seq<char>,
    stop_time: Seq<char>,
) -> Seq<char> {
    HORIZONS_API@ + "?format=json&EPHEM_TYPE=VECTORS&COMMAND='"@
        + command_id + "'&CENTER='"@ + center + "'&START_TIME='"@ + start_time
        + "'&STOP_TIME='"@ + stop_time
        + "'&STEP_SIZE='1%20d'&VEC_TABLE='2'&CSV_FORMAT='YES'&OBJ_DATA='YES'"@
}

/// Build a GET URL for barycentric state vectors at a single epoch.
pub fn vector_query_url(command_id: &str, center: &str, start_time: &str, stop_time: &str) -> (url: String)
    ensures
        url@ == vector_query_spec(command_id@, center@, start_time@, stop_time@),
{
    let mut url = String::new();
    push_str(&mut url, HORIZONS_API);
    push_str(&mut url, "?format=json&EPHEM_TYPE=VECTORS&COMMAND='");
    push_str(&mut url, command_id);
    push_str(&mut url, "'&CENTER='");
    push_str(&mut url, center);
    push_str(&mut url, "'&START_TIME='");
    push_str(&mut url, start_time);
    push_str(&mut url, "'&STOP_TIME='");
    push_str(&mut url, stop_time);
    push_str(&mut url, "'&STEP_SIZE='1%20d'&VEC_TABLE='2'&CSV_FORMAT='YES'&OBJ_DATA='YES'");
    url
}

/// A reply body that HORIZONS used to report a failure: it says `No ephemeris`,
/// or it says `ERROR` outside of a JSON `"result"` wrapper.
pub open spec fn reply_reports_error(text: Seq<char>) -> bool {
    contains_spec(text, "No ephemeris"@) || (contains_spec(text, "ERROR"@) && !contains_spec(
        text,
        "\"result\""@,
    ))
}

/// Screens the body of a successful HTTP reply before it is decoded: a reply
/// in which HORIZONS reports an error becomes an HTTP error naming the command.
pub fn screen_reply_text(command_id: &str, text: &str) -> (r: Result<(), HorizonsError>)
    ensures
        r is Ok <==> !reply_reports_error(text@),
        r matches Err(e) ==> e matches HorizonsError::Http(m) && m@
            == "HORIZONS returned an error for command "@ + command_id@,
{
    let t = chars_of(text);
    let n = t.len();
    proof {
        assert(t@.subrange(0, n as int) =~= text@);
    }
    let no_ephemeris = chars_of("No ephemeris");
    let error = chars_of("ERROR");
    let result_key = chars_of("\"result\"");
    if contains_range(&t, 0, n, &no_ephemeris) || (contains_range(&t, 0, n, &error)
        && !contains_range(&t, 0, n, &result_key)) {
        let mut m = String::new();
        push_str(&mut m, "HORIZONS returned an error for command ");
        push_str(&mut m, command_id);
        return Err(HorizonsError::Http(m));
    }
    Ok(())
}

} // verus!
