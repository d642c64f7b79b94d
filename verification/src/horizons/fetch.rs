//! Fetch presets: calendar arithmetic, HORIZONS date strings and the plan of a
//! `graviton fetch` run.

use vstd::prelude::*;

use crate::error::GravitonError;
use crate::text::{
    chars_of, fmt_padded, parse_i32, parse_i32_spec, parse_unsigned, parse_unsigned_spec, push_range,
    push_signed_zero_padded, push_str, split_range, split_spec, string_of, vec_eq,
};

verus! {

/// Options for `graviton fetch`.
pub struct FetchOptions {
    pub preset: String,
    pub date: Option<String>,
    pub center: String,
    pub output: Option<String>,
    pub offline: bool,
    pub force: bool,
}

/// What a `solar-system` fetch does, once the options have been checked: the
/// epoch, the HORIZONS start and stop times, and where the scenario goes.
pub struct FetchPlan {
    pub date_iso: String,
    pub horizons_start: String,
    pub horizons_stop: String,
    pub center: String,
    pub output: String,
    pub offline: bool,
    pub force: bool,
}

// ---------------------------------------------------------------------------
// Calendar
// ---------------------------------------------------------------------------

/// Gregorian leap year.
pub open spec fn is_leap_year(year: int) -> bool {
    (year % 4 == 0 && year % 100 != 0) || year % 400 == 0
}

/// Days in `month` of `year`; an out-of-range month counts as 30 days.
pub open spec fn days_in_month_spec(year: int, month: int) -> int {
    if month == 1 || month == 3 || month == 5 || month == 7 || month == 8 || month == 10 || month
        == 12 {
        31
    } else if month == 4 || month == 6 || month == 9 || month == 11 {
        30
    } else if month == 2 {
        if is_leap_year(year) {
            29
        } else {
            28
        }
    } else {
        30
    }
}

pub fn days_in_month(year: i32, month: u32) -> (d: u32)
    ensures
        d == days_in_month_spec(year as int, month as int),
{
    match month {
        1 | 3 | 5 | 7 | 8 | 10 | 12 => 31,
        4 | 6 | 9 | 11 => 30,
        2 => {
            let y = year as i64;
            let leap = (y % 4 == 0 && y % 100 != 0) || (y % 400 == 0);
            if leap {
                29
            } else {
                28
            }
        },
        _ => 30,
    }
}

/// The day after `(year, month, day)`: the day number goes up by one and rolls
/// into the next month, and December rolls into January of the next year.
pub open spec fn next_day(year: int, month: int, day: int) -> (int, int, int) {
    if day + 1 > days_in_month_spec(year, month) {
        if month + 1 > 12 {
            (year + 1, 1, 1)
        } else {
            (year, month + 1, 1)
        }
    } else {
        (year, month, day + 1)
    }
}

// ---------------------------------------------------------------------------
// ISO dates
// ---------------------------------------------------------------------------

pub open spec fn invalid_date_message(iso: Seq<char>) -> Seq<char> {
    "invalid date `"@ + iso + "` (expected YYYY-MM-DD)"@
}

/// The `YYYY-MM-DD` string of a date, zero padded like `{:04}-{:02}-{:02}`.
pub open spec fn iso_string(year: int, month: int, day: int) -> Seq<char> {
    fmt_padded(year, 4) + "-"@ + fmt_padded(month, 2) + "-"@ + fmt_padded(day, 2)
}

/// The year, month and day of `iso` when its three `-`-separated fields parse
/// as `i32`, `u32` and `u32`.
pub open spec fn iso_fields(iso: Seq<char>) -> Option<(int, int, int)> {
    let parts = split_spec(iso, '-');
    if parts.len() == 3 && parse_i32_spec(parts[0]) is Some && parse_unsigned_spec(
        parts[1],
        0xffff_ffff,
    ) is Some && parse_unsigned_spec(parts[2], 0xffff_ffff) is Some {
        Some(
            (
                parse_i32_spec(parts[0])->0,
                parse_unsigned_spec(parts[1], 0xffff_ffff)->0,
                parse_unsigned_spec(parts[2], 0xffff_ffff)->0,
            ),
        )
    } else {
        None
    }
}

/// The inputs on which `add_one_day_iso` stays within its integer types: the
/// day, a rolled-over month and a rolled-over year have room to grow by one.
pub open spec fn add_one_day_in_range(iso: Seq<char>) -> bool {
    match iso_fields(iso) {
        Some((y, m, d)) => d < 0xffff_ffff && (d + 1 > days_in_month_spec(y, m) ==> (m
            < 0xffff_ffff && (m + 1 > 12 ==> y < 0x7fff_ffff))),
        None => true,
    }
}

/// What `add_one_day_iso` gives for `iso`: the next date, or the message of the
/// first field that does not parse.
pub open spec fn add_one_day_result(iso: Seq<char>) -> Result<Seq<char>, Seq<char>> {
    let parts = split_spec(iso, '-');
    if parts.len() != 3 {
        Err(invalid_date_message(iso))
    } else if parse_i32_spec(parts[0]) is None {
        Err("invalid year in date `"@ + iso + "`"@)
    } else if parse_unsigned_spec(parts[1], 0xffff_ffff) is None {
        Err("invalid month in date `"@ + iso + "`"@)
    } else if parse_unsigned_spec(parts[2], 0xffff_ffff) is None {
        Err("invalid day in date `"@ + iso + "`"@)
    } else {
        let (y, m, d) = next_day(
            parse_i32_spec(parts[0])->0,
            parse_unsigned_spec(parts[1], 0xffff_ffff)->0,
            parse_unsigned_spec(parts[2], 0xffff_ffff)->0,
        );
        Ok(iso_string(y, m, d))
    }
}

/// The error `GravitonError::Other(message)`.
pub open spec fn is_other_error(e: GravitonError, message: Seq<char>) -> bool {
    e matches GravitonError::Other(m) && m@ == message
}

/// A `Result<String, GravitonError>` that matches an expected result.
pub open spec fn result_matches(r: Result<String, GravitonError>, expected: Result<Seq<char>, Seq<char>>) -> bool {
    match r {
        Ok(s) => expected == Ok::<Seq<char>, Seq<char>>(s@),
        Err(e) => expected is Err && is_other_error(e, expected->Err_0),
    }
}

fn other_error(prefix: &str, iso: &Vec<char>, suffix: &str) -> (e: GravitonError)
    ensures
        is_other_error(e, prefix@ + iso@ + suffix@),
{
    let mut m = String::new();
    push_str(&mut m, prefix);
    push_range(&mut m, iso, 0, iso.len());
    push_str(&mut m, suffix);
    proof {
        assert(iso@.subrange(0, iso.len() as int) =~= iso@);
    }
    GravitonError::Other(m)
}

/// The next calendar day of a `YYYY-MM-DD` date, as `YYYY-MM-DD`.
pub fn add_one_day_iso(iso: &str) -> (r: Result<String, GravitonError>)
    requires
        add_one_day_in_range(iso@),
    ensures
        result_matches(r, add_one_day_result(iso@)),
{
    let s = chars_of(iso);
    let parts = split_range(&s, 0, s.len(), '-');
    proof {
        assert(s@.subrange(0, s.len() as int) =~= iso@);
    }
    let ghost p = split_spec(iso@, '-');
    if parts.len() != 3 {
        return Err(other_error("invalid date `", &s, "` (expected YYYY-MM-DD)"));
    }
    proof {
        assert(parts@[0]@ == p[0] && parts@[1]@ == p[1] && parts@[2]@ == p[2]);
        assert(parts@[0]@.subrange(0, parts@[0].len() as int) =~= p[0]);
        assert(parts@[1]@.subrange(0, parts@[1].len() as int) =~= p[1]);
        assert(parts@[2]@.subrange(0, parts@[2].len() as int) =~= p[2]);
    }
    let year = match parse_i32(&parts[0], 0, parts[0].len()) {
        Some(y) => y,
        None => {
            return Err(other_error("invalid year in date `", &s, "`"));
        },
    };
    let month = match parse_unsigned(&parts[1], 0, parts[1].len(), 0xffff_ffff) {
        Some(m) => m as u32,
        None => {
            return Err(other_error("invalid month in date `", &s, "`"));
        },
    };
    let day = match parse_unsigned(&parts[2], 0, parts[2].len(), 0xffff_ffff) {
        Some(d) => d as u32,
        None => {
            return Err(other_error("invalid day in date `", &s, "`"));
        },
    };
    let mut year = year;
    let mut month = month;
    let mut day = day + 1;
    let dim = days_in_month(year, month);
    if day > dim {
        day = 1;
        month = month + 1;
        if month > 12 {
            month = 1;
            year = year + 1;
        }
    }
    let mut out = String::new();
    push_signed_zero_padded(&mut out, year as i64, 4);
    push_str(&mut out, "-");
    push_signed_zero_padded(&mut out, month as i64, 2);
    push_str(&mut out, "-");
    push_signed_zero_padded(&mut out, day as i64, 2);
    proof {
        assert(out@ =~= iso_string(year as int, month as int, day as int));
    }
    Ok(out)
}

/// The three-letter month name HORIZONS uses for a two-digit month field.
pub open spec fn month_abbrev(m: Seq<char>) -> Option<Seq<char>> {
    if m == seq!['0', '1'] {
        Some("Jan"@)
    } else if m == seq!['0', '2'] {
        Some("Feb"@)
    } else if m == seq!['0', '3'] {
        Some("Mar"@)
    } else if m == seq!['0', '4'] {
        Some("Apr"@)
    } else if m == seq!['0', '5'] {
        Some("May"@)
    } else if m == seq!['0', '6'] {
        Some("Jun"@)
    } else if m == seq!['0', '7'] {
        Some("Jul"@)
    } else if m == seq!['0', '8'] {
        Some("Aug"@)
    } else if m == seq!['0', '9'] {
        Some("Sep"@)
    } else if m == seq!['1', '0'] {
        Some("Oct"@)
    } else if m == seq!['1', '1'] {
        Some("Nov"@)
    } else if m == seq!['1', '2'] {
        Some("Dec"@)
    } else {
        None
    }
}

/// The two-digit field of month number `m` (`01` to `12`).
pub open spec fn two_digit_month(m: int) -> Seq<char> {
    seq![((48 + m / 10) as u32) as char, ((48 + m % 10) as u32) as char]
}

/// The month names in calendar order.
pub open spec fn month_names() -> Seq<Seq<char>> {
    seq!["Jan"@, "Feb"@, "Mar"@, "Apr"@, "May"@, "Jun"@, "Jul"@, "Aug"@, "Sep"@, "Oct"@, "Nov"@, "Dec"@]
}

/// HORIZONS dates name month `m` by the `m`-th name of the calendar: the
/// field `01` is January, `09` September, `12` December, and no other
/// two-character field names a month.
pub proof fn lemma_month_names_in_calendar_order(m: int, field: Seq<char>)
    ensures
        1 <= m <= 12 ==> month_abbrev(two_digit_month(m)) == Some(month_names()[m - 1]),
        month_abbrev(field) is Some ==> exists|k: int| 1 <= k <= 12 && field == #[trigger] two_digit_month(k),
{
    if month_abbrev(field) is Some {
        if field == seq!['0', '1'] { assert(field == two_digit_month(1)); }
        else if field == seq!['0', '2'] { assert(field == two_digit_month(2)); }
        else if field == seq!['0', '3'] { assert(field == two_digit_month(3)); }
        else if field == seq!['0', '4'] { assert(field == two_digit_month(4)); }
        else if field == seq!['0', '5'] { assert(field == two_digit_month(5)); }
        else if field == seq!['0', '6'] { assert(field == two_digit_month(6)); }
        else if field == seq!['0', '7'] { assert(field == two_digit_month(7)); }
        else if field == seq!['0', '8'] { assert(field == two_digit_month(8)); }
        else if field == seq!['0', '9'] { assert(field == two_digit_month(9)); }
        else if field == seq!['1', '0'] { assert(field == two_digit_month(10)); }
        else if field == seq!['1', '1'] { assert(field == two_digit_month(11)); }
        else { assert(field == two_digit_month(12)); }
    }
    if 1 <= m <= 12 {
        assert(two_digit_month(m) =~= seq![((48 + m / 10) as u32) as char, ((48 + m % 10) as u32) as char]);
        if m == 1 { assert(two_digit_month(m) =~= seq!['0', '1']); }
        else if m == 2 { assert(two_digit_month(m) =~= seq!['0', '2']); }
        else if m == 3 { assert(two_digit_month(m) =~= seq!['0', '3']); }
        else if m == 4 { assert(two_digit_month(m) =~= seq!['0', '4']); }
        else if m == 5 { assert(two_digit_month(m) =~= seq!['0', '5']); }
        else if m == 6 { assert(two_digit_month(m) =~= seq!['0', '6']); }
        else if m == 7 { assert(two_digit_month(m) =~= seq!['0', '7']); }
        else if m == 8 { assert(two_digit_month(m) =~= seq!['0', '8']); }
        else if m == 9 { assert(two_digit_month(m) =~= seq!['0', '9']); }
        else if m == 10 { assert(two_digit_month(m) =~= seq!['1', '0']); }
        else if m == 11 { assert(two_digit_month(m) =~= seq!['1', '1']); }
        else { assert(two_digit_month(m) =~= seq!['1', '2']); }
    }
}

/// What `iso_to_horizons_date` gives for `iso`: `YYYY-Mon-DD`, or the message
/// of the first field that is wrong.
pub open spec fn horizons_date_result(iso: Seq<char>) -> Result<Seq<char>, Seq<char>> {
    let parts = split_spec(iso, '-');
    if parts.len() != 3 {
        Err(invalid_date_message(iso))
    } else if month_abbrev(parts[1]) is None {
        Err("invalid month `"@ + parts[1] + "` in date `"@ + iso + "`"@)
    } else if parse_unsigned_spec(parts[2], 255) is None {
        Err("invalid day in date `"@ + iso + "`"@)
    } else {
        Ok(
            parts[0] + "-"@ + month_abbrev(parts[1])->0 + "-"@ + fmt_padded(
                parse_unsigned_spec(parts[2], 255)->0,
                2,
            ),
        )
    }
}

fn month_abbrev_exec(m: &Vec<char>) -> (r: Option<&'static str>)
    ensures
        match r {
            Some(a) => month_abbrev(m@) == Some(a@),
            None => month_abbrev(m@) is None,
        },
{
    if m.len() != 2 {
        proof {
            assert(m@ != seq!['0', '1'] && m@ != seq!['1', '0']);
        }
        return None;
    }
    let a = m[0];
    let b = m[1];
    proof {
        assert(m@ =~= seq![a, b]);
    }
    if a == '0' {
        if b == '1' {
            Some("Jan")
        } else if b == '2' {
            Some("Feb")
        } else if b == '3' {
            Some("Mar")
        } else if b == '4' {
            Some("Apr")
        } else if b == '5' {
            Some("May")
        } else if b == '6' {
            Some("Jun")
        } else if b == '7' {
            Some("Jul")
        } else if b == '8' {
            Some("Aug")
        } else if b == '9' {
            Some("Sep")
        } else {
            None
        }
    } else if a == '1' {
        if b == '0' {
            Some("Oct")
        } else if b == '1' {
            Some("Nov")
        } else if b == '2' {
            Some("Dec")
        } else {
            None
        }
    } else {
        None
    }
}

/// Converts `YYYY-MM-DD` to the `YYYY-Mon-DD` form that HORIZONS expects.
pub fn iso_to_horizons_date(iso: &str) -> (r: Result<String, GravitonError>)
    ensures
        result_matches(r, horizons_date_result(iso@)),
{
    let s = chars_of(iso);
    let parts = split_range(&s, 0, s.len(), '-');
    proof {
        assert(s@.subrange(0, s.len() as int) =~= iso@);
    }
    let ghost p = split_spec(iso@, '-');
    if parts.len() != 3 {
        return Err(other_error("invalid date `", &s, "` (expected YYYY-MM-DD)"));
    }
    proof {
        assert(parts@[0]@ == p[0] && parts@[1]@ == p[1] && parts@[2]@ == p[2]);
        assert(parts@[0]@.subrange(0, parts@[0].len() as int) =~= p[0]);
        assert(parts@[2]@.subrange(0, parts@[2].len() as int) =~= p[2]);
    }
    let month = match month_abbrev_exec(&parts[1]) {
        Some(m) => m,
        None => {
            let mut m = String::new();
            push_str(&mut m, "invalid month `");
            push_range(&mut m, &parts[1], 0, parts[1].len());
            push_str(&mut m, "` in date `");
            push_range(&mut m, &s, 0, s.len());
            push_str(&mut m, "`");
            proof {
                assert(parts@[1]@.subrange(0, parts@[1].len() as int) =~= p[1]);
                assert(m@ =~= "invalid month `"@ + p[1] + "` in date `"@ + iso@ + "`"@);
            }
            return Err(GravitonError::Other(m));
        },
    };
    let day = match parse_unsigned(&parts[2], 0, parts[2].len(), 255) {
        Some(d) => d,
        None => {
            return Err(other_error("invalid day in date `", &s, "`"));
        },
    };
    let mut out = String::new();
    push_range(&mut out, &parts[0], 0, parts[0].len());
    push_str(&mut out, "-");
    push_str(&mut out, month);
    push_str(&mut out, "-");
    push_signed_zero_padded(&mut out, day as i64, 2);
    proof {
        assert(out@ =~= p[0] + "-"@ + month@ + "-"@ + fmt_padded(day as int, 2));
    }
    Ok(out)
}

/// The epoch used when `--date` is not given.
pub fn default_date_iso() -> (s: String)
    ensures
        s@ == "2026-06-01"@,
{
    string_of("2026-06-01")
}


/// Month lengths are the Gregorian ones: thirty days have April, June,
/// September and November; February has 28, or 29 in a leap year (every
/// fourth year, except centuries not divisible by 400); all the rest have 31.
/// So a year has 365 days, or 366 in a leap year, and the day after the last
/// of a month is the first of the next (30 September is followed by 1 October).
pub proof fn lemma_gregorian_month_lengths(year: int, month: int)
    ensures
        (month == 4 || month == 6 || month == 9 || month == 11) ==> days_in_month_spec(year, month) == 30,
        (month == 1 || month == 3 || month == 5 || month == 7 || month == 8 || month == 10 || month == 12)
            ==> days_in_month_spec(year, month) == 31,
        month == 2 ==> days_in_month_spec(year, month) == if (year % 4 == 0 && year % 100 != 0) || year % 400 == 0 {
            29int
        } else {
            28int
        },
        days_in_month_spec(year, 1) + days_in_month_spec(year, 2) + days_in_month_spec(year, 3) + days_in_month_spec(
            year,
            4,
        ) + days_in_month_spec(year, 5) + days_in_month_spec(year, 6) + days_in_month_spec(year, 7)
            + days_in_month_spec(year, 8) + days_in_month_spec(year, 9) + days_in_month_spec(year, 10)
            + days_in_month_spec(year, 11) + days_in_month_spec(year, 12) == if (year % 4 == 0 && year % 100 != 0)
            || year % 400 == 0 {
            366int
        } else {
            365int
        },
        next_day(year, 9, 30) == (year, 10int, 1int),
        next_day(year, 4, 30) == (year, 5int, 1int),
        next_day(year, 8, 31) == (year, 9int, 1int),
        next_day(year, 12, 31) == (year + 1, 1int, 1int),
{
}

/// A calendar date: month in 1..=12 and day within the month.
pub open spec fn is_valid_date(year: int, month: int, day: int) -> bool {
    1 <= month <= 12 && 1 <= day <= days_in_month_spec(year, month)
}

/// The day after a valid date is a valid date, it comes later in calendar
/// order, and it stays in the same month unless the day was the month's last.
pub proof fn lemma_next_day_is_next_valid_date(year: int, month: int, day: int)
    requires
        is_valid_date(year, month, day),
    ensures
        is_valid_date(next_day(year, month, day).0, next_day(year, month, day).1, next_day(year, month, day).2),
        ({
            let (y, m, d) = next_day(year, month, day);
            y > year || (y == year && m > month) || (y == year && m == month && d == day + 1)
        }),
        day < days_in_month_spec(year, month) ==> next_day(year, month, day) == (year, month, day + 1),
        day == days_in_month_spec(year, month) && month < 12 ==> next_day(year, month, day) == (year, month + 1, 1int),
        day == days_in_month_spec(year, month) && month == 12 ==> next_day(year, month, day) == (year + 1, 1int, 1int),
{
}

/// Where the first HORIZONS request of a `solar-system` fetch would go:
/// `--output`, or `scenarios/solar-system.toml`.
pub open spec fn default_output_spec() -> Seq<char> {
    "scenarios/solar-system.toml"@
}

/// What `run_fetch` decides for the given options.
pub open spec fn fetch_plan_ok(options: FetchOptions, plan: FetchPlan) -> bool {
    let date = match options.date {
        Some(d) => d@,
        None => "2026-06-01"@,
    };
    &&& plan.date_iso@ == date
    &&& horizons_date_result(date) == Ok::<Seq<char>, Seq<char>>(plan.horizons_start@)
    &&& add_one_day_result(date) is Ok
    &&& horizons_date_result(add_one_day_result(date)->Ok_0) == Ok::<Seq<char>, Seq<char>>(plan.horizons_stop@)
    &&& plan.center@ == options.center@
    &&& plan.output@ == match options.output {
        Some(o) => o@,
        None => default_output_spec(),
    }
    &&& plan.offline == options.offline
    &&& plan.force == options.force
}

/// The date that a fetch with these options asks for.
pub open spec fn requested_date(options: FetchOptions) -> Seq<char> {
    match options.date {
        Some(d) => d@,
        None => "2026-06-01"@,
    }
}

/// The first error that `run_fetch` reports for these options, if any.
pub open spec fn fetch_plan_error(options: FetchOptions) -> Option<Seq<char>> {
    let date = requested_date(options);
    if options.preset@ != "solar-system"@ {
        Some("unknown fetch preset `"@ + options.preset@ + "` (only `solar-system` is supported)"@)
    } else if horizons_date_result(date) is Err {
        Some(horizons_date_result(date)->Err_0)
    } else if add_one_day_result(date) is Err {
        Some(add_one_day_result(date)->Err_0)
    } else if horizons_date_result(add_one_day_result(date)->Ok_0) is Err {
        Some(horizons_date_result(add_one_day_result(date)->Ok_0)->Err_0)
    } else {
        None
    }
}

/// Checks the options of `graviton fetch` and works out what to fetch: the
/// `solar-system` preset only, at the requested date (default `2026-06-01`),
/// from that date to the next day, written to `--output` or
/// `scenarios/solar-system.toml`. Downloading and writing are the caller's.
pub fn run_fetch(options: FetchOptions) -> (r: Result<FetchPlan, GravitonError>)
    requires
        options.preset@ == "solar-system"@ && horizons_date_result(requested_date(options)) is Ok
            ==> add_one_day_in_range(requested_date(options)),
    ensures
        match r {
            Ok(plan) => fetch_plan_error(options) is None && fetch_plan_ok(options, plan),
            Err(e) => fetch_plan_error(options) is Some && is_other_error(e, fetch_plan_error(options)->0),
        },
{
    let preset = chars_of(options.preset.as_str());
    let expected = chars_of("solar-system");
    if !vec_eq(&preset, &expected) {
        let mut m = String::new();
        push_str(&mut m, "unknown fetch preset `");
        push_str(&mut m, options.preset.as_str());
        push_str(&mut m, "` (only `solar-system` is supported)");
        return Err(GravitonError::Other(m));
    }
    let ghost opts = options;
    let date_iso = match options.date {
        Some(d) => d,
        None => default_date_iso(),
    };
    let horizons_start = iso_to_horizons_date(date_iso.as_str())?;
    let next = add_one_day_iso(date_iso.as_str())?;
    let horizons_stop = iso_to_horizons_date(next.as_str())?;
    let output = match options.output {
        Some(o) => o,
        None => string_of("scenarios/solar-system.toml"),
    };
    Ok(FetchPlan {
        date_iso,
        horizons_start,
        horizons_stop,
        center: options.center,
        output,
        offline: options.offline,
        force: options.force,
    })
}

/// Where the state vector of one body comes from.
#[derive(Debug, Clone, Copy, PartialEq, Eq)]
pub enum VectorSource {
    /// Read the cached response; `announce` asks for a note that offline mode
    /// uses cached data.
    Cache { announce: bool },
    /// Offline and nothing cached: the fetch fails.
    Unavailable,
    /// Ask HORIZONS and cache the answer.
    Network,
}

/// Where one body's vector comes from: the cache when it exists and the run
/// is offline or not forced; nothing when offline without a cache; otherwise
/// the network.
pub open spec fn vector_source_spec(cache_exists: bool, offline: bool, force: bool) -> VectorSource {
    if cache_exists && (offline || !force) {
        VectorSource::Cache { announce: offline }
    } else if offline {
        VectorSource::Unavailable
    } else {
        VectorSource::Network
    }
}

/// Chooses between the cache and the network for one body.
pub fn choose_vector_source(cache_exists: bool, offline: bool, force: bool) -> (v: VectorSource)
    ensures
        v == vector_source_spec(cache_exists, offline, force),
{
    if cache_exists && (offline || !force) {
        VectorSource::Cache { announce: offline }
    } else if offline {
        VectorSource::Unavailable
    } else {
        VectorSource::Network
    }
}

/// Offline mode never contacts HORIZONS: it reads the cache or fails. A
/// forced online fetch always asks the network, and an unforced one reuses a
/// cached reply.
pub proof fn lemma_offline_uses_only_the_cache(cache_exists: bool, offline: bool, force: bool)
    ensures
        offline ==> vector_source_spec(cache_exists, offline, force) != VectorSource::Network,
        offline && cache_exists ==> vector_source_spec(cache_exists, offline, force) == (VectorSource::Cache {
            announce: true,
        }),
        !offline && force ==> vector_source_spec(cache_exists, offline, force) == VectorSource::Network,
        !offline && !force && cache_exists ==> vector_source_spec(cache_exists, offline, force) == (VectorSource::Cache {
            announce: false,
        }),
{
}

/// The fixed header of a fetched Solar System scenario (everything before the
/// `[[bodies]]` sections).
pub open spec fn solar_system_header_spec(date_iso: Seq<char>, center: Seq<char>) -> Seq<char> {
    "schema_version = 1\n"@ + "name = \"Solar System (HORIZONS)\"\n"@
        + "description = \"Barycentric state vectors from NASA JPL HORIZONS ("@ + date_iso
        + ", center "@ + center + ").\"\n"@ + "author = \"graviton (graviton fetch)\"\n\n"@
        + "[units]\n"@ + "distance = \"au\"\n"@ + "mass = \"kg\"\n"@ + "time = \"day\"\n\n"@
        + "[physics]\n"@ + "integrator = \"rk4\"\n"@ + "dt = 3600.0\n"@ + "dt_unit = \"s\"\n"@
        + "softening_m = 1000000.0\n\n"@ + "[render]\n"@ + "meters_per_cell = 5000000000.0\n"@
        + "trail_points = 2048\n"@ + "follow_center_of_mass = true\n\n"@
}

/// The header of the scenario TOML written by `graviton fetch solar-system`.
pub fn solar_system_toml_header(date_iso: &str, center: &str) -> (out: String)
    ensures
        out@ == solar_system_header_spec(date_iso@, center@),
{
    let mut out = String::new();
    push_str(&mut out, "schema_version = 1\n");
    push_str(&mut out, "name = \"Solar System (HORIZONS)\"\n");
    push_str(&mut out, "description = \"Barycentric state vectors from NASA JPL HORIZONS (");
    push_str(&mut out, date_iso);
    push_str(&mut out, ", center ");
    push_str(&mut out, center);
    push_str(&mut out, ").\"\n");
    push_str(&mut out, "author = \"graviton (graviton fetch)\"\n\n");
    push_str(&mut out, "[units]\n");
    push_str(&mut out, "distance = \"au\"\n");
    push_str(&mut out, "mass = \"kg\"\n");
    push_str(&mut out, "time = \"day\"\n\n");
    push_str(&mut out, "[physics]\n");
    push_str(&mut out, "integrator = \"rk4\"\n");
    push_str(&mut out, "dt = 3600.0\n");
    push_str(&mut out, "dt_unit = \"s\"\n");
    push_str(&mut out, "softening_m = 1000000.0\n\n");
    push_str(&mut out, "[render]\n");
    push_str(&mut out, "meters_per_cell = 5000000000.0\n");
    push_str(&mut out, "trail_points = 2048\n");
    push_str(&mut out, "follow_center_of_mass = true\n\n");
    out
}

} // verus!
