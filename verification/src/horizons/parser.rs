//! Locate the vector table in the text of a HORIZONS response.
//!
//! The table sits between `$$SOE` and `$$EOE`; each row is comma separated
//! (`JD, calendar, X, Y, Z, VX, VY, VZ, ...`). This module finds the table, the
//! units it is written in and its rows; turning the number fields into values
//! is the caller's.

use vstd::prelude::*;

use crate::error::{GravitonError, HorizonsError};
use crate::horizons::client::HorizonsResponse;
use crate::text::{
    ascii_lower, ascii_upper, chars_of, contains_range, contains_spec, find_range, find_spec,
    is_float_literal, is_float_literal_range, lines_range, lines_spec, lower_range, push_range,
    push_str, seqs_of, split_range, split_spec, starts_with_range, starts_with_spec, trim,
    trim_range, upper_range, copy_range, string_of_range,
};

verus! {

/// Detected position/velocity units in a HORIZONS vector block.
#[derive(Debug, Clone, Copy, PartialEq, Eq, Structural)]
pub enum VectorUnits {
    AuAndAuPerDay,
    KmAndKmPerSecond,
}

pub open spec fn soe() -> Seq<char> {
    "$$SOE"@
}

pub open spec fn eoe() -> Seq<char> {
    "$$EOE"@
}

/// The last line that is not blank, trimmed.
pub open spec fn last_nonblank_line(lines: Seq<Seq<char>>) -> Option<Seq<char>>
    decreases lines.len(),
{
    if lines.len() == 0 {
        None
    } else if trim(lines.last()).len() > 0 {
        Some(trim(lines.last()))
    } else {
        last_nonblank_line(lines.drop_last())
    }
}

/// The text has both table markers.
pub open spec fn has_vector_table(result: Seq<char>) -> bool {
    contains_spec(result, soe()) && contains_spec(result, eoe())
}

/// The error `ensure_vector_table` reports for a text without table markers:
/// the last non-blank line as HORIZONS' own message, or a missing table.
pub open spec fn no_table_error(result: Seq<char>, e: HorizonsError) -> bool {
    match last_nonblank_line(lines_spec(result)) {
        Some(l) => e matches HorizonsError::Http(m) && m@ == "HORIZONS response has no vector table: "@ + l,
        None => e is MissingVectorTable,
    }
}

/// A response without a table usually ends with HORIZONS' explanation; report it.
fn ensure_vector_table(text: &Vec<char>) -> (r: Result<(), HorizonsError>)
    ensures
        r is Ok <==> has_vector_table(text@),
        r matches Err(e) ==> no_table_error(text@, e),
{
    let n = text.len();
    proof {
        assert(text@.subrange(0, n as int) =~= text@);
    }
    let soe_chars = chars_of("$$SOE");
    let eoe_chars = chars_of("$$EOE");
    if contains_range(text, 0, n, &soe_chars) && contains_range(text, 0, n, &eoe_chars) {
        return Ok(());
    }
    let lines = lines_range(text, 0, n);
    let ghost ls = lines_spec(text@);
    let mut i = lines.len();
    proof {
        assert(ls.take(i as int) =~= ls);
    }
    while i > 0
        invariant
            i <= lines.len(),
            seqs_of(lines@) == ls,
            ls == lines_spec(text@),
            !has_vector_table(text@),
            last_nonblank_line(ls) == last_nonblank_line(ls.take(i as int)),
        decreases i,
    {
        let line = &lines[i - 1];
        let (a, b) = trim_range(line, 0, line.len());
        proof {
            assert(line@ == ls[i - 1]);
            assert(line@.subrange(0, line.len() as int) =~= line@);
            assert(ls.take(i as int).last() == ls[i - 1]);
            assert(ls.take(i as int).drop_last() =~= ls.take(i - 1));
        }
        if a < b {
            let mut m = String::new();
            push_str(&mut m, "HORIZONS response has no vector table: ");
            push_range(&mut m, line, a, b);
            proof {
                assert(trim(ls.take(i as int).last()).len() > 0);
                assert(last_nonblank_line(ls.take(i as int)) == Some(trim(ls[i - 1])));
            }
            return Err(HorizonsError::Http(m));
        }
        i -= 1;
    }
    Err(HorizonsError::MissingVectorTable)
}

/// The line announces the units: it starts with `output units`, in any ASCII case.
pub open spec fn is_units_line(line: Seq<char>) -> bool {
    starts_with_spec(ascii_lower(trim(line)), "output units"@)
}

/// The units a units line names, if it names known ones.
pub open spec fn units_named(line: Seq<char>) -> Option<VectorUnits> {
    let upper = ascii_upper(trim(line));
    if contains_spec(upper, "KM-S"@) || contains_spec(upper, "KM/S"@) {
        Some(VectorUnits::KmAndKmPerSecond)
    } else if contains_spec(upper, "AU"@) {
        Some(VectorUnits::AuAndAuPerDay)
    } else {
        None
    }
}

/// The units named by the first units line, if it names known ones.
pub open spec fn units_in_lines(lines: Seq<Seq<char>>) -> Option<VectorUnits>
    decreases lines.len(),
{
    if lines.len() == 0 {
        None
    } else if is_units_line(lines[0]) {
        units_named(lines[0])
    } else {
        units_in_lines(lines.drop_first())
    }
}

/// The units of a HORIZONS text.
pub open spec fn detect_units_spec(result: Seq<char>) -> Option<VectorUnits> {
    units_in_lines(lines_spec(result))
}

fn detect_units_chars(text: &Vec<char>) -> (r: Result<VectorUnits, HorizonsError>)
    ensures
        match r {
            Ok(u) => detect_units_spec(text@) == Some(u),
            Err(e) => detect_units_spec(text@) is None && e is UnknownUnits,
        },
{
    let n = text.len();
    proof {
        assert(text@.subrange(0, n as int) =~= text@);
    }
    let lines = lines_range(text, 0, n);
    let ghost ls = lines_spec(text@);
    let marker = chars_of("output units");
    let km_s = chars_of("KM-S");
    let km_slash_s = chars_of("KM/S");
    let au = chars_of("AU");
    let mut i: usize = 0;
    proof {
        assert(ls.skip(0) =~= ls);
    }
    while i < lines.len()
        invariant
            i <= lines.len(),
            seqs_of(lines@) == ls,
            ls == lines_spec(text@),
            units_in_lines(ls) == units_in_lines(ls.skip(i as int)),
            marker@ == "output units"@,
            km_s@ == "KM-S"@,
            km_slash_s@ == "KM/S"@,
            au@ == "AU"@,
        decreases lines.len() - i,
    {
        let line = &lines[i];
        let (a, b) = trim_range(line, 0, line.len());
        let lower = lower_range(line, a, b);
        proof {
            assert(line@ == ls[i as int]);
            assert(line@.subrange(0, line.len() as int) =~= line@);
            assert(ls.skip(i as int)[0] == ls[i as int]);
            assert(ls.skip(i as int).drop_first() =~= ls.skip(i + 1));
            assert(lower@.subrange(0, lower.len() as int) =~= lower@);
        }
        proof {
            assert(lower@ == ascii_lower(trim(ls[i as int])));
            assert(units_in_lines(ls.skip(i as int)) == if is_units_line(ls[i as int]) {
                units_named(ls[i as int])
            } else {
                units_in_lines(ls.skip(i + 1))
            });
        }
        if starts_with_range(&lower, 0, lower.len(), &marker) {
            let upper = upper_range(line, a, b);
            proof {
                assert(upper@.subrange(0, upper.len() as int) =~= upper@);
            }
            if contains_range(&upper, 0, upper.len(), &km_s) || contains_range(
                &upper,
                0,
                upper.len(),
                &km_slash_s,
            ) {
                return Ok(VectorUnits::KmAndKmPerSecond);
            }
            if contains_range(&upper, 0, upper.len(), &au) {
                return Ok(VectorUnits::AuAndAuPerDay);
            }
            return Err(HorizonsError::UnknownUnits);
        }
        i += 1;
    }
    Err(HorizonsError::UnknownUnits)
}

/// Detect units from the HORIZONS text header (do not assume silently): the
/// first line that starts with `output units` decides; `KM-S` or `KM/S` there
/// means kilometres and km/s, otherwise `AU` means AU and AU/day.
pub fn detect_units(result: &str) -> (r: Result<VectorUnits, GravitonError>)
    ensures
        match r {
            Ok(u) => detect_units_spec(result@) == Some(u),
            Err(e) => detect_units_spec(result@) is None && e matches GravitonError::Horizons(
                HorizonsError::UnknownUnits,
            ),
        },
{
    let text = chars_of(result);
    match detect_units_chars(&text) {
        Ok(u) => Ok(u),
        Err(e) => Err(GravitonError::Horizons(e)),
    }
}

/// The text between the end of the first `$$SOE` and the first `$$EOE`, when
/// both occur in that order.
pub open spec fn table_text(result: Seq<char>) -> Option<Seq<char>> {
    match (find_spec(result, soe()), find_spec(result, eoe())) {
        (Some(a), Some(e)) => if e <= a + soe().len() {
            None
        } else {
            Some(result.subrange(a + soe().len(), e))
        },
        _ => None,
    }
}

/// The trimmed comma-separated fields of a line.
pub open spec fn fields_of(line: Seq<char>) -> Seq<Seq<char>> {
    split_spec(trim(line), ',').map_values(|f: Seq<char>| trim(f))
}

/// A data row: at least eight fields, the first a number.
pub open spec fn is_data_row(fields: Seq<Seq<char>>) -> bool {
    fields.len() >= 8 && is_float_literal(fields[0])
}

/// The data rows among `lines`, in order, as their fields.
pub open spec fn rows_of(lines: Seq<Seq<char>>) -> Seq<Seq<Seq<char>>>
    decreases lines.len(),
{
    if lines.len() == 0 {
        Seq::empty()
    } else {
        let rest = rows_of(lines.drop_last());
        if trim(lines.last()).len() > 0 && is_data_row(fields_of(lines.last())) {
            rest.push(fields_of(lines.last()))
        } else {
            rest
        }
    }
}

/// Every row found is a data row.
pub proof fn lemma_rows_are_data_rows(lines: Seq<Seq<char>>)
    ensures
        forall|k: int| 0 <= k < rows_of(lines).len() ==> is_data_row(#[trigger] rows_of(lines)[k]),
    decreases lines.len(),
{
    if lines.len() > 0 {
        lemma_rows_are_data_rows(lines.drop_last());
        let rest = rows_of(lines.drop_last());
        assert forall|k: int| 0 <= k < rows_of(lines).len() implies is_data_row(
            #[trigger] rows_of(lines)[k],
        ) by {
            if k < rest.len() {
                assert(rows_of(lines)[k] == rest[k]);
            }
        }
    }
}

/// The rows of the vector table, when there is a table with at least one row.
pub open spec fn table_rows_spec(result: Seq<char>) -> Option<Seq<Seq<Seq<char>>>> {
    match table_text(result) {
        None => None,
        Some(t) => if rows_of(lines_spec(t)).len() == 0 {
            None
        } else {
            Some(rows_of(lines_spec(t)))
        },
    }
}

/// The views of a vector of rows of fields.
pub open spec fn rows_view(rows: Seq<Vec<Vec<char>>>) -> Seq<Seq<Seq<char>>> {
    rows.map_values(|r: Vec<Vec<char>>| seqs_of(r@))
}

/// The trimmed fields of `line[a..b]`, split at commas.
fn fields_range(line: &Vec<char>, a: usize, b: usize) -> (out: Vec<Vec<char>>)
    requires
        a <= b <= line.len(),
        line@.subrange(a as int, b as int) == trim(line@),
    ensures
        seqs_of(out@) == fields_of(line@),
{
    let pieces = split_range(line, a, b, ',');
    let ghost p = split_spec(trim(line@), ',');
    let mut out: Vec<Vec<char>>= Vec::new();
    let mut k: usize = 0;
    while k < pieces.len()
        invariant
            k <= pieces.len(),
            seqs_of(pieces@) == p,
            seqs_of(out@) == p.take(k as int).map_values(|f: Seq<char>| trim(f)),
        decreases pieces.len() - k,
    {
        let piece = &pieces[k];
        let (x, y) = trim_range(piece, 0, piece.len());
        let f = copy_range(piece, x, y);
        proof {
            assert(piece@ == p[k as int]);
            assert(piece@.subrange(0, piece.len() as int) =~= piece@);
        }
        let ghost before = seqs_of(out@);
        out.push(f);
        proof {
            assert(seqs_of(out@) =~= before.push(f@));
            assert(p.take(k + 1) =~= p.take(k as int).push(p[k as int]));
        }
        k += 1;
    }
    proof {
        assert(p.take(pieces.len() as int) =~= p);
    }
    out
}

fn extract_table(text: &Vec<char>) -> (r: Result<Vec<Vec<Vec<char>>>, HorizonsError>)
    ensures
        match r {
            Ok(rows) => table_rows_spec(text@) == Some(rows_view(rows@)),
            Err(e) => table_rows_spec(text@) is None && e is MissingVectorTable,
        },
{
    let n = text.len();
    proof {
        assert(text@.subrange(0, n as int) =~= text@);
        reveal_strlit("$$SOE");
    }
    let soe_chars = chars_of("$$SOE");
    let eoe_chars = chars_of("$$EOE");
    proof {
        crate::text::lemma_contains_find(text@, soe());
        crate::text::lemma_contains_find(text@, eoe());
    }
    let start = match find_range(text, 0, n, &soe_chars) {
        Some(a) => {
            assert(a + 5 <= n);
            a + 5
        },
        None => {
            return Err(HorizonsError::MissingVectorTable);
        },
    };
    let end = match find_range(text, 0, n, &eoe_chars) {
        Some(e) => e,
        None => {
            return Err(HorizonsError::MissingVectorTable);
        },
    };
    if end <= start {
        return Err(HorizonsError::MissingVectorTable);
    }
    proof {
        crate::text::lemma_contains_find(text@, soe());
        crate::text::lemma_contains_find(text@, eoe());
        assert(end <= n);
    }
    let lines = lines_range(text, start, end);
    let ghost ls = lines_spec(text@.subrange(start as int, end as int));
    let mut rows: Vec<Vec<Vec<char>>> = Vec::new();
    let mut i: usize = 0;
    while i < lines.len()
        invariant
            i <= lines.len(),
            seqs_of(lines@) == ls,
            rows_view(rows@) == rows_of(ls.take(i as int)),
        decreases lines.len() - i,
    {
        let line = &lines[i];
        let (a, b) = trim_range(line, 0, line.len());
        proof {
            assert(line@ == ls[i as int]);
            assert(line@.subrange(0, line.len() as int) =~= line@);
            assert(ls.take(i + 1).drop_last() =~= ls.take(i as int));
            assert(ls.take(i + 1).last() == ls[i as int]);
        }
        if a < b {
            let fields = fields_range(line, a, b);
            if fields.len() >= 8 {
                let first = &fields[0];
                proof {
                    assert(first@ == fields_of(line@)[0]);
                    assert(first@.subrange(0, first.len() as int) =~= first@);
                }
                if is_float_literal_range(first, 0, first.len()) {
                    let ghost before = rows_view(rows@);
                    let ghost fv = seqs_of(fields@);
                    rows.push(fields);
                    proof {
                        assert(rows_view(rows@) =~= before.push(fv));
                    }
                }
            }
        }
        i += 1;
    }
    proof {
        assert(ls.take(lines.len() as int) =~= ls);
    }
    if rows.len() == 0 {
        return Err(HorizonsError::MissingVectorTable);
    }
    Ok(rows)
}

/// A line of the table that holds a state vector: not blank, at least eight
/// comma-separated fields, the first a number.
pub open spec fn is_table_data_line(line: Seq<char>) -> bool {
    trim(line).len() > 0 && is_data_row(fields_of(line))
}

/// The rows found among `lines` start at the earliest data line, and some row
/// is found exactly when there is a data line.
proof fn lemma_rows_start_at_earliest_line(lines: Seq<Seq<char>>)
    ensures
        rows_of(lines).len() > 0 <==> exists|k: int| 0 <= k < lines.len() && #[trigger] is_table_data_line(lines[k]),
        rows_of(lines).len() > 0 ==> exists|k: int|
            0 <= k < lines.len() && #[trigger] is_table_data_line(lines[k]) && rows_of(lines)[0] == fields_of(lines[k])
                && forall|j: int| 0 <= j < k ==> !is_table_data_line(#[trigger] lines[j]),
    decreases lines.len(),
{
    if lines.len() > 0 {
        let init = lines.drop_last();
        lemma_rows_start_at_earliest_line(init);
        assert forall|j: int| 0 <= j < init.len() implies init[j] == lines[j] by {}
        if rows_of(init).len() > 0 {
            let k = choose|k: int|
                0 <= k < init.len() && #[trigger] is_table_data_line(init[k]) && rows_of(init)[0] == fields_of(init[k])
                    && forall|j: int| 0 <= j < k ==> !is_table_data_line(#[trigger] init[j]);
            assert(is_table_data_line(lines[k]));
            assert(rows_of(lines)[0] == rows_of(init)[0]);
            assert forall|j: int| 0 <= j < k implies !is_table_data_line(#[trigger] lines[j]) by {
                assert(init[j] == lines[j]);
            }
        } else {
            assert forall|j: int| 0 <= j < init.len() implies !is_table_data_line(#[trigger] lines[j]) by {
                assert(init[j] == lines[j]);
                if is_table_data_line(init[j]) {
                    assert(exists|k: int| 0 <= k < init.len() && #[trigger] is_table_data_line(init[k]));
                }
            }
            if is_table_data_line(lines.last()) {
                let k = lines.len() - 1;
                assert(is_table_data_line(lines[k]));
                assert(rows_of(lines)[0] == fields_of(lines[k]));
            } else {
                assert(rows_of(lines).len() == 0);
                assert forall|k: int| 0 <= k < lines.len() implies !#[trigger] is_table_data_line(lines[k]) by {
                    if k < init.len() {
                        assert(init[k] == lines[k]);
                    }
                }
            }
        }
    }
}

/// The vector returned is the earliest state vector of the table: it is the
/// fields of a data line between `$$SOE` and `$$EOE`, and no data line comes
/// before it. With both markers, named units and at least one data line in the
/// table, a vector is returned.
pub proof fn lemma_first_vector_is_earliest(result: Seq<char>)
    ensures
        first_row_spec(result) matches Some((u, row)) ==> {
            let lines = lines_spec(table_text(result)->0);
            &&& table_text(result) is Some
            &&& detect_units_spec(result) == Some(u)
            &&& exists|k: int|
                0 <= k < lines.len() && #[trigger] is_table_data_line(lines[k]) && row == fields_of(lines[k])
                    && forall|j: int| 0 <= j < k ==> !is_table_data_line(#[trigger] lines[j])
        },
        has_vector_table(result) && detect_units_spec(result) is Some && table_text(result) is Some && (exists|k: int|
            0 <= k < lines_spec(table_text(result)->0).len() && #[trigger] is_table_data_line(
                lines_spec(table_text(result)->0)[k],
            )) ==> first_row_spec(result) is Some,
{
    if table_text(result) is Some {
        lemma_rows_start_at_earliest_line(lines_spec(table_text(result)->0));
    }
}

/// The first data row of a response, with the units it is written in.
pub open spec fn first_row_spec(result: Seq<char>) -> Option<(VectorUnits, Seq<Seq<char>>)> {
    if has_vector_table(result) && detect_units_spec(result) is Some && table_rows_spec(result) is Some {
        Some((detect_units_spec(result)->0, table_rows_spec(result)->0[0]))
    } else {
        None
    }
}

/// The first data row of the vector table, with its units: checks in turn that
/// the table markers are there, that the units are named and that the table
/// has a row, and reports the first check that fails.
pub fn locate_first_vector(response: &HorizonsResponse) -> (r: Result<(VectorUnits, Vec<String>), GravitonError>)
    ensures
        match r {
            Ok((u, fields)) => first_row_spec(response.result@) == Some((u, fields@.map_values(|f: String| f@))) && fields.len() >= 8,
            Err(e) => first_row_spec(response.result@) is None && (
                if !has_vector_table(response.result@) {
                    e matches GravitonError::Horizons(h) && no_table_error(response.result@, h)
                } else if detect_units_spec(response.result@) is None {
                    e matches GravitonError::Horizons(HorizonsError::UnknownUnits)
                } else {
                    e matches GravitonError::Horizons(HorizonsError::MissingVectorTable)
                }),
        },
{
    let text = chars_of(response.result.as_str());
    match ensure_vector_table(&text) {
        Ok(()) => {},
        Err(e) => {
            return Err(GravitonError::Horizons(e));
        },
    }
    let units = match detect_units_chars(&text) {
        Ok(u) => u,
        Err(e) => {
            return Err(GravitonError::Horizons(e));
        },
    };
    let rows = match extract_table(&text) {
        Ok(rows) => rows,
        Err(e) => {
            return Err(GravitonError::Horizons(e));
        },
    };
    let row = &rows[0];
    let mut fields: Vec<String> = Vec::new();
    let mut k: usize = 0;
    while k < row.len()
        invariant
            rows.len() > 0,
            row == &rows@[0],
            k <= row.len(),
            fields@.map_values(|f: String| f@) == seqs_of(row@).take(k as int),
        decreases row.len() - k,
    {
        let f = string_of_range(&row[k], 0, row[k].len());
        proof {
            assert(row@[k as int]@.subrange(0, row@[k as int].len() as int) =~= row@[k as int]@);
        }
        let ghost before = fields@.map_values(|f: String| f@);
        fields.push(f);
        proof {
            assert(fields@.map_values(|f: String| f@) =~= before.push(f@));
            assert(seqs_of(row@).take(k + 1) =~= seqs_of(row@).take(k as int).push(row@[k as int]@));
        }
        k += 1;
    }
    proof {
        assert(seqs_of(row@).take(row.len() as int) =~= seqs_of(row@));
        assert(rows_view(rows@)[0] == seqs_of(row@));
        let t = table_text(text@)->0;
        lemma_rows_are_data_rows(lines_spec(t));
        assert(is_data_row(rows_of(lines_spec(t))[0]));
        assert(fields@.map_values(|f: String| f@).len() == fields.len());
    }
    Ok((units, fields))
}

} // verus!
