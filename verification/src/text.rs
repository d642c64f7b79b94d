//! Character-level helpers shared by the parsers and formatters.
//!
//! Text is handled as a `Vec<char>` together with a half-open range, and every
//! helper is specified over the matching `Seq<char>` of the range.

use vstd::prelude::*;

verus! {

// ---------------------------------------------------------------------------
// Building strings
// ---------------------------------------------------------------------------

/// Appends one character to a string (`String::push`).
#[verifier::external_body]
pub(crate) fn push_char(s: &mut String, c: char)
    ensures
        final(s)@ == old(s)@.push(c),
{
    s.push(c);
}

/// Appends a string slice to a string.
pub(crate) fn push_str(s: &mut String, t: &str)
    ensures
        final(s)@ == old(s)@ + t@,
{
    s.append(t);
}

/// A fresh string holding exactly the characters of `t`.
pub fn string_of(t: &str) -> (out: String)
    ensures
        out@ == t@,
{
    let mut out = String::new();
    push_str(&mut out, t);
    out
}

/// Appends the characters `s[lo..hi]` to `out`.
pub fn push_range(out: &mut String, s: &Vec<char>, lo: usize, hi: usize)
    requires
        lo <= hi <= s.len(),
    ensures
        final(out)@ == old(out)@ + s@.subrange(lo as int, hi as int),
{
    let mut i = lo;
    while i < hi
        invariant
            lo <= i <= hi <= s.len(),
            out@ == old(out)@ + s@.subrange(lo as int, i as int),
        decreases hi - i,
    {
        push_char(out, s[i]);
        i += 1;
        assert(s@.subrange(lo as int, i as int) =~= s@.subrange(lo as int, (i - 1) as int).push(
            s@[i - 1],
        ));
    }
}

/// A string made of the characters `s[lo..hi]`.
pub fn string_of_range(s: &Vec<char>, lo: usize, hi: usize) -> (out: String)
    requires
        lo <= hi <= s.len(),
    ensures
        out@ == s@.subrange(lo as int, hi as int),
{
    let mut out = String::new();
    push_range(&mut out, s, lo, hi);
    out
}

/// The characters of a string slice, in order.
pub fn chars_of(s: &str) -> (out: Vec<char>)
    ensures
        out@ == s@,
{
    let mut out: Vec<char> = Vec::new();
    for c in it: s.chars()
        invariant
            out@ == it.seq().take(it.index() as int),
    {
        out.push(c);
    }
    out
}

/// A copy of `s[lo..hi]` as a vector of characters.
pub fn copy_range(s: &Vec<char>, lo: usize, hi: usize) -> (out: Vec<char>)
    requires
        lo <= hi <= s.len(),
    ensures
        out@ == s@.subrange(lo as int, hi as int),
{
    let mut out: Vec<char> = Vec::new();
    let mut i = lo;
    while i < hi
        invariant
            lo <= i <= hi <= s.len(),
            out@ == s@.subrange(lo as int, i as int),
        decreases hi - i,
    {
        out.push(s[i]);
        i += 1;
        assert(out@ =~= s@.subrange(lo as int, i as int));
    }
    out
}

// ---------------------------------------------------------------------------
// Whitespace and trimming (`char::is_whitespace`, `str::trim`)
// ---------------------------------------------------------------------------

/// Unicode `White_Space`, the property that `char::is_whitespace` tests.
pub open spec fn is_whitespace_spec(c: char) -> bool {
    let u = c as u32;
    ||| 0x09 <= u <= 0x0D
    ||| u == 0x20
    ||| u == 0x85
    ||| u == 0xA0
    ||| u == 0x1680
    ||| 0x2000 <= u <= 0x200A
    ||| u == 0x2028
    ||| u == 0x2029
    ||| u == 0x202F
    ||| u == 0x205F
    ||| u == 0x3000
}

/// `char::is_whitespace`.
pub fn is_whitespace(c: char) -> (b: bool)
    ensures
        b == is_whitespace_spec(c),
{
    let u = c as u32;
    (0x09 <= u && u <= 0x0D) || u == 0x20 || u == 0x85 || u == 0xA0 || u == 0x1680 || (0x2000
        <= u && u <= 0x200A) || u == 0x2028 || u == 0x2029 || u == 0x202F || u == 0x205F || u
        == 0x3000
}

/// `s` without its leading whitespace.
pub open spec fn trim_start(s: Seq<char>) -> Seq<char>
    decreases s.len(),
{
    if s.len() > 0 && is_whitespace_spec(s[0]) {
        trim_start(s.drop_first())
    } else {
        s
    }
}

/// `s` without its trailing whitespace.
pub open spec fn trim_end(s: Seq<char>) -> Seq<char>
    decreases s.len(),
{
    if s.len() > 0 && is_whitespace_spec(s.last()) {
        trim_end(s.drop_last())
    } else {
        s
    }
}

/// `str::trim`: `s` without leading and trailing whitespace.
pub open spec fn trim(s: Seq<char>) -> Seq<char> {
    trim_end(trim_start(s))
}

/// The bounds of `trim(s[lo..hi])` inside `s`.
pub fn trim_range(s: &Vec<char>, lo: usize, hi: usize) -> (r: (usize, usize))
    requires
        lo <= hi <= s.len(),
    ensures
        lo <= r.0 <= r.1 <= hi,
        s@.subrange(r.0 as int, r.1 as int) == trim(s@.subrange(lo as int, hi as int)),
{
    let mut i = lo;
    while i < hi && is_whitespace(s[i])
        invariant
            lo <= i <= hi <= s.len(),
            trim_start(s@.subrange(lo as int, hi as int)) == trim_start(
                s@.subrange(i as int, hi as int),
            ),
        decreases hi - i,
    {
        assert(s@.subrange(i as int, hi as int).drop_first() =~= s@.subrange(
            i + 1,
            hi as int,
        ));
        i += 1;
    }
    assert(trim_start(s@.subrange(i as int, hi as int)) == s@.subrange(i as int, hi as int));
    let mut j = hi;
    while j > i && is_whitespace(s[j - 1])
        invariant
            lo <= i <= j <= hi <= s.len(),
            trim(s@.subrange(lo as int, hi as int)) == trim_end(s@.subrange(i as int, j as int)),
        decreases j - i,
    {
        assert(s@.subrange(i as int, j as int).drop_last() =~= s@.subrange(
            i as int,
            j - 1,
        ));
        j -= 1;
    }
    (i, j)
}

// ---------------------------------------------------------------------------
// Splitting (`str::split` on one character, `str::lines`)
// ---------------------------------------------------------------------------

/// `str::split(sep)` on one character: the pieces between separators, always at
/// least one.
pub open spec fn split_spec(s: Seq<char>, sep: char) -> Seq<Seq<char>>
    decreases s.len(),
{
    if s.len() == 0 {
        seq![Seq::<char>::empty()]
    } else {
        let p = split_spec(s.drop_last(), sep);
        if s.last() == sep {
            p.push(Seq::<char>::empty())
        } else {
            p.update(p.len() - 1, p.last().push(s.last()))
        }
    }
}

pub proof fn lemma_split_nonempty(s: Seq<char>, sep: char)
    ensures
        split_spec(s, sep).len() >= 1,
    decreases s.len(),
{
    if s.len() > 0 {
        lemma_split_nonempty(s.drop_last(), sep);
    }
}

/// The views of a vector of character vectors.
pub open spec fn seqs_of(v: Seq<Vec<char>>) -> Seq<Seq<char>> {
    v.map_values(|x: Vec<char>| x@)
}

/// The pieces of `s[lo..hi]` between occurrences of `sep`.
pub fn split_range(s: &Vec<char>, lo: usize, hi: usize, sep: char) -> (out: Vec<Vec<char>>)
    requires
        lo <= hi <= s.len(),
    ensures
        seqs_of(out@) == split_spec(s@.subrange(lo as int, hi as int), sep),
{
    let mut done: Vec<Vec<char>> = Vec::new();
    let mut cur: Vec<char> = Vec::new();
    let mut i = lo;
    proof {
        assert(s@.subrange(lo as int, lo as int) =~= Seq::<char>::empty());
        assert(seqs_of(done@).push(cur@) =~= seq![Seq::<char>::empty()]);
    }
    while i < hi
        invariant
            lo <= i <= hi <= s.len(),
            seqs_of(done@).push(cur@) == split_spec(s@.subrange(lo as int, i as int), sep),
        decreases hi - i,
    {
        let c = s[i];
        let ghost prev = s@.subrange(lo as int, i as int);
        let ghost next = s@.subrange(lo as int, i + 1);
        proof {
            assert(next.drop_last() =~= prev);
            assert(next.last() == c);
            lemma_split_nonempty(prev, sep);
        }
        if c == sep {
            let ghost before = seqs_of(done@);
            let finished = cur;
            done.push(finished);
            cur = Vec::new();
            proof {
                assert(seqs_of(done@) =~= before.push(finished@));
                assert(seqs_of(done@).push(cur@) =~= split_spec(next, sep));
            }
        } else {
            let ghost before = seqs_of(done@).push(cur@);
            cur.push(c);
            proof {
                assert(seqs_of(done@).push(cur@) =~= before.update(
                    before.len() - 1,
                    before.last().push(c),
                ));
            }
        }
        i += 1;
    }
    let ghost before = seqs_of(done@);
    done.push(cur);
    proof {
        assert(seqs_of(done@) =~= before.push(done@.last()@));
    }
    done
}

/// A line without the `'\r'` of a `"\r\n"` ending.
pub open spec fn strip_cr(line: Seq<char>) -> Seq<char> {
    if line.len() > 0 && line.last() == '\r' {
        line.drop_last()
    } else {
        line
    }
}

/// `str::lines`: split at `'\n'`, a `"\r\n"` ending counts as one line ending,
/// and a final empty piece (after a last line ending, or of an empty string)
/// is not a line.
pub open spec fn lines_spec(s: Seq<char>) -> Seq<Seq<char>> {
    let p = split_spec(s, '\n');
    let ended = p.drop_last().map_values(|x: Seq<char>| strip_cr(x));
    if p.last().len() == 0 {
        ended
    } else {
        ended.push(p.last())
    }
}

/// The lines of `s[lo..hi]`, as `str::lines` gives them.
pub fn lines_range(s: &Vec<char>, lo: usize, hi: usize) -> (out: Vec<Vec<char>>)
    requires
        lo <= hi <= s.len(),
    ensures
        seqs_of(out@) == lines_spec(s@.subrange(lo as int, hi as int)),
{
    let pieces = split_range(s, lo, hi, '\n');
    let ghost p = split_spec(s@.subrange(lo as int, hi as int), '\n');
    proof {
        lemma_split_nonempty(s@.subrange(lo as int, hi as int), '\n');
    }
    let n = pieces.len();
    let mut out: Vec<Vec<char>> = Vec::new();
    let mut k: usize = 0;
    while k + 1 < n
        invariant
            n == pieces.len() == p.len() >= 1,
            seqs_of(pieces@) == p,
            k + 1 <= n,
            seqs_of(out@) == p.take(k as int).map_values(|x: Seq<char>| strip_cr(x)),
        decreases n - k,
    {
        let piece = &pieces[k];
        let len = piece.len();
        let line = if len > 0 && piece[len - 1] == '\r' {
            copy_range(piece, 0, len - 1)
        } else {
            copy_range(piece, 0, len)
        };
        proof {
            assert(piece@ == p[k as int]);
            assert(piece@.drop_last() =~= piece@.subrange(0, len - 1));
            assert(piece@ =~= piece@.subrange(0, len as int));
            assert(line@ == strip_cr(p[k as int]));
        }
        let ghost before = seqs_of(out@);
        out.push(line);
        proof {
            assert(seqs_of(out@) =~= before.push(line@));
            assert(p.take(k + 1) =~= p.take(k as int).push(p[k as int]));
        }
        k += 1;
    }
    proof {
        assert(p.take(k as int) =~= p.drop_last());
    }
    let last = &pieces[n - 1];
    if last.len() > 0 {
        let ghost before = seqs_of(out@);
        let copy = copy_range(last, 0, last.len());
        proof {
            assert(last@ =~= last@.subrange(0, last.len() as int));
            assert(last@ == p.last());
        }
        out.push(copy);
        proof {
            assert(seqs_of(out@) =~= before.push(copy@));
        }
    } else {
        proof {
            assert(last@ == p.last());
        }
    }
    out
}


// ---------------------------------------------------------------------------
// Searching (`str::contains`, `str::find`, `str::starts_with`)
// ---------------------------------------------------------------------------

/// `pat` occurs in `s` at index `i`.
pub open spec fn matches_at(s: Seq<char>, pat: Seq<char>, i: int) -> bool {
    0 <= i && i + pat.len() <= s.len() && s.subrange(i, i + pat.len()) == pat
}

/// `str::contains`.
pub open spec fn contains_spec(s: Seq<char>, pat: Seq<char>) -> bool {
    exists|i: int| #[trigger] matches_at(s, pat, i)
}

/// The first index at or after `i` where `pat` occurs.
pub open spec fn find_from(s: Seq<char>, pat: Seq<char>, i: int) -> Option<int>
    decreases s.len() - i,
{
    if i < 0 || i + pat.len() > s.len() {
        None
    } else if pat.len() == 0 || s.subrange(i, i + pat.len()) == pat {
        Some(i)
    } else {
        find_from(s, pat, i + 1)
    }
}

/// `str::find`: the first index where `pat` occurs (in characters).
pub open spec fn find_spec(s: Seq<char>, pat: Seq<char>) -> Option<int> {
    find_from(s, pat, 0)
}

pub proof fn lemma_find_from(s: Seq<char>, pat: Seq<char>, i: int)
    requires
        0 <= i,
    ensures
        find_from(s, pat, i) matches Some(k) ==> i <= k && matches_at(s, pat, k) && forall|j: int|
            i <= j < k ==> !matches_at(s, pat, j),
        find_from(s, pat, i) is None ==> forall|j: int| i <= j ==> !matches_at(s, pat, j),
    decreases s.len() - i,
{
    if i + pat.len() > s.len() {
    } else if pat.len() == 0 || s.subrange(i, i + pat.len()) == pat {
        if pat.len() == 0 {
            assert(s.subrange(i, i + pat.len()) =~= pat);
        }
    } else {
        lemma_find_from(s, pat, i + 1);
    }
}

/// `contains` agrees with `find`.
pub proof fn lemma_contains_find(s: Seq<char>, pat: Seq<char>)
    ensures
        contains_spec(s, pat) <==> find_spec(s, pat) is Some,
        find_spec(s, pat) matches Some(k) ==> matches_at(s, pat, k),
{
    lemma_find_from(s, pat, 0);
}

/// Whether `pat` occurs in `s[lo..hi]` at `lo + i`.
fn matches_at_exec(s: &Vec<char>, lo: usize, hi: usize, pat: &Vec<char>, i: usize) -> (b: bool)
    requires
        lo <= hi <= s.len(),
        i + pat.len() <= hi - lo,
    ensures
        b == (s@.subrange(lo as int, hi as int).subrange(i as int, i + pat.len()) == pat@),
{
    let ghost t = s@.subrange(lo as int, hi as int);
    let m = pat.len();
    let mut k: usize = 0;
    while k < m
        invariant
            lo <= hi <= s.len(),
            i + m <= hi - lo,
            m == pat.len(),
            k <= m,
            t == s@.subrange(lo as int, hi as int),
            forall|j: int| 0 <= j < k ==> t[i + j] == pat@[j],
        decreases m - k,
    {
        if s[lo + i + k] != pat[k] {
            assert(t.subrange(i as int, i + m)[k as int] != pat@[k as int]);
            return false;
        }
        k += 1;
    }
    assert(t.subrange(i as int, i + m) =~= pat@);
    true
}

/// `str::find` on `s[lo..hi]`: the first index (relative to `lo`) where `pat` occurs.
pub fn find_range(s: &Vec<char>, lo: usize, hi: usize, pat: &Vec<char>) -> (r: Option<usize>)
    requires
        lo <= hi <= s.len(),
    ensures
        r matches Some(k) ==> find_spec(s@.subrange(lo as int, hi as int), pat@) == Some(k as int),
        r is None ==> find_spec(s@.subrange(lo as int, hi as int), pat@) is None,
{
    let ghost t = s@.subrange(lo as int, hi as int);
    let n = hi - lo;
    let m = pat.len();
    if m > n {
        return None;
    }
    let mut i: usize = 0;
    while i <= n - m
        invariant
            lo <= hi <= s.len(),
            n == hi - lo,
            m == pat.len(),
            m <= n,
            i <= n - m + 1,
            t == s@.subrange(lo as int, hi as int),
            find_spec(t, pat@) == find_from(t, pat@, i as int),
        decreases n - i,
    {
        if m == 0 || matches_at_exec(s, lo, hi, pat, i) {
            return Some(i);
        }
        i += 1;
    }
    None
}

/// `str::contains` on `s[lo..hi]`.
pub fn contains_range(s: &Vec<char>, lo: usize, hi: usize, pat: &Vec<char>) -> (b: bool)
    requires
        lo <= hi <= s.len(),
    ensures
        b == contains_spec(s@.subrange(lo as int, hi as int), pat@),
{
    proof {
        lemma_contains_find(s@.subrange(lo as int, hi as int), pat@);
    }
    find_range(s, lo, hi, pat).is_some()
}

/// `str::starts_with`.
pub open spec fn starts_with_spec(s: Seq<char>, pat: Seq<char>) -> bool {
    pat.len() <= s.len() && s.subrange(0, pat.len() as int) == pat
}

// ---------------------------------------------------------------------------
// ASCII case (`to_ascii_lowercase`, `to_ascii_uppercase`, `eq_ignore_ascii_case`)
// ---------------------------------------------------------------------------

pub open spec fn ascii_lower_char(c: char) -> char {
    if 'A' <= c <= 'Z' {
        ((c as u32) + 32) as char
    } else {
        c
    }
}

pub open spec fn ascii_upper_char(c: char) -> char {
    if 'a' <= c <= 'z' {
        ((c as u32) - 32) as char
    } else {
        c
    }
}

/// `char::to_ascii_lowercase`.
pub fn to_ascii_lower(c: char) -> (r: char)
    ensures
        r == ascii_lower_char(c),
{
    if 'A' <= c && c <= 'Z' {
        let u = (c as u32) + 32;
        assert(0x61 <= u <= 0x7a);
        let r = char_of_ascii(u as u8);
        r
    } else {
        c
    }
}

/// `char::to_ascii_uppercase`.
pub fn to_ascii_upper(c: char) -> (r: char)
    ensures
        r == ascii_upper_char(c),
{
    if 'a' <= c && c <= 'z' {
        let u = (c as u32) - 32;
        let r = char_of_ascii(u as u8);
        r
    } else {
        c
    }
}

/// The character with the given ASCII code.
pub fn char_of_ascii(b: u8) -> (c: char)
    requires
        b < 128,
    ensures
        c as u32 == b as u32,
        c == (b as u32) as char,
{
    b as char
}

/// `to_ascii_lowercase` of a sequence.
pub open spec fn ascii_lower(s: Seq<char>) -> Seq<char> {
    s.map_values(|c: char| ascii_lower_char(c))
}

/// `to_ascii_uppercase` of a sequence.
pub open spec fn ascii_upper(s: Seq<char>) -> Seq<char> {
    s.map_values(|c: char| ascii_upper_char(c))
}

/// `str::eq_ignore_ascii_case`.
pub open spec fn eq_ignore_ascii_case_spec(a: Seq<char>, b: Seq<char>) -> bool {
    ascii_lower(a) == ascii_lower(b)
}

/// `to_ascii_uppercase` of `s[lo..hi]`.
pub fn upper_range(s: &Vec<char>, lo: usize, hi: usize) -> (out: Vec<char>)
    requires
        lo <= hi <= s.len(),
    ensures
        out@ == ascii_upper(s@.subrange(lo as int, hi as int)),
{
    let mut out: Vec<char> = Vec::new();
    let mut i = lo;
    while i < hi
        invariant
            lo <= i <= hi <= s.len(),
            out@ == ascii_upper(s@.subrange(lo as int, i as int)),
        decreases hi - i,
    {
        let c = to_ascii_upper(s[i]);
        out.push(c);
        i += 1;
        assert(out@ =~= ascii_upper(s@.subrange(lo as int, i as int)));
    }
    out
}

/// `to_ascii_lowercase` of `s[lo..hi]`.
pub fn lower_range(s: &Vec<char>, lo: usize, hi: usize) -> (out: Vec<char>)
    requires
        lo <= hi <= s.len(),
    ensures
        out@ == ascii_lower(s@.subrange(lo as int, hi as int)),
{
    let mut out: Vec<char> = Vec::new();
    let mut i = lo;
    while i < hi
        invariant
            lo <= i <= hi <= s.len(),
            out@ == ascii_lower(s@.subrange(lo as int, i as int)),
        decreases hi - i,
    {
        let c = to_ascii_lower(s[i]);
        out.push(c);
        i += 1;
        assert(out@ =~= ascii_lower(s@.subrange(lo as int, i as int)));
    }
    out
}

/// `str::eq_ignore_ascii_case` of `s` against `lit`.
pub fn eq_ignore_ascii_case(s: &Vec<char>, lit: &Vec<char>) -> (b: bool)
    ensures
        b == eq_ignore_ascii_case_spec(s@, lit@),
{
    let a = lower_range(s, 0, s.len());
    let b = lower_range(lit, 0, lit.len());
    proof {
        assert(s@ =~= s@.subrange(0, s.len() as int));
        assert(lit@ =~= lit@.subrange(0, lit.len() as int));
    }
    vec_eq(&a, &b)
}

/// Equality of two character vectors.
pub fn vec_eq(a: &Vec<char>, b: &Vec<char>) -> (r: bool)
    ensures
        r == (a@ == b@),
{
    if a.len() != b.len() {
        return false;
    }
    let mut i: usize = 0;
    while i < a.len()
        invariant
            a.len() == b.len(),
            i <= a.len(),
            forall|j: int| 0 <= j < i ==> a@[j] == b@[j],
        decreases a.len() - i,
    {
        if a[i] != b[i] {
            return false;
        }
        i += 1;
    }
    assert(a@ =~= b@);
    true
}


// ---------------------------------------------------------------------------
// Decimal numbers (`FromStr` for integers, `{}` / `{:0w}` formatting)
// ---------------------------------------------------------------------------

pub open spec fn is_digit_spec(c: char) -> bool {
    '0' <= c <= '9'
}

pub open spec fn digit_value(c: char) -> int {
    (c as u32) as int - 48
}

pub open spec fn all_digits(s: Seq<char>) -> bool {
    forall|i: int| 0 <= i < s.len() ==> is_digit_spec(#[trigger] s[i])
}

/// The value of a string of decimal digits.
pub open spec fn digits_value(s: Seq<char>) -> int
    decreases s.len(),
{
    if s.len() == 0 {
        0
    } else {
        digits_value(s.drop_last()) * 10 + digit_value(s.last())
    }
}

/// `FromStr` of an unsigned integer type whose largest value is `max`: an
/// optional `+`, then at least one ASCII digit, and a value that fits.
pub open spec fn parse_unsigned_spec(s: Seq<char>, max: int) -> Option<int> {
    let body = if s.len() > 0 && s[0] == '+' {
        s.drop_first()
    } else {
        s
    };
    if body.len() > 0 && all_digits(body) && digits_value(body) <= max {
        Some(digits_value(body))
    } else {
        None
    }
}

/// `i32::from_str`: an optional sign, then at least one ASCII digit, and a
/// value in range.
pub open spec fn parse_i32_spec(s: Seq<char>) -> Option<int> {
    if s.len() > 0 && s[0] == '-' {
        let body = s.drop_first();
        if body.len() > 0 && all_digits(body) && digits_value(body) <= 0x8000_0000 {
            Some(-digits_value(body))
        } else {
            None
        }
    } else {
        parse_unsigned_spec(s, 0x7fff_ffff)
    }
}

pub proof fn lemma_digits_value_nonneg(s: Seq<char>)
    requires
        all_digits(s),
    ensures
        digits_value(s) >= 0,
    decreases s.len(),
{
    if s.len() > 0 {
        assert(all_digits(s.drop_last()));
        lemma_digits_value_nonneg(s.drop_last());
        assert(is_digit_spec(s[s.len() - 1]));
    }
}

/// A string of digits is worth at least any of its prefixes.
pub proof fn lemma_digits_value_prefix(s: Seq<char>, k: int)
    requires
        all_digits(s),
        0 <= k <= s.len(),
    ensures
        digits_value(s.take(k)) <= digits_value(s),
    decreases s.len(),
{
    if k < s.len() {
        assert(all_digits(s.drop_last()));
        lemma_digits_value_prefix(s.drop_last(), k);
        assert(s.drop_last().take(k) =~= s.take(k));
        lemma_digits_value_nonneg(s.drop_last());
        assert(is_digit_spec(s[s.len() - 1]));
    } else {
        assert(s.take(k) =~= s);
    }
}

/// The value of `s[lo..hi]` when it is a non-empty run of digits worth at most
/// `max`; `None` otherwise.
pub fn parse_digits(s: &Vec<char>, lo: usize, hi: usize, max: u64) -> (r: Option<u64>)
    requires
        lo <= hi <= s.len(),
        max <= 0x1_0000_0000,
    ensures
        ({
            let t = s@.subrange(lo as int, hi as int);
            match r {
                Some(v) => t.len() > 0 && all_digits(t) && digits_value(t) <= max && v
                    == digits_value(t),
                None => !(t.len() > 0 && all_digits(t) && digits_value(t) <= max),
            }
        }),
{
    let ghost t = s@.subrange(lo as int, hi as int);
    if lo == hi {
        return None;
    }
    let mut acc: u64 = 0;
    let mut i = lo;
    while i < hi
        invariant
            lo <= i <= hi <= s.len(),
            max <= 0x1_0000_0000,
            t == s@.subrange(lo as int, hi as int),
            all_digits(s@.subrange(lo as int, i as int)),
            acc == digits_value(s@.subrange(lo as int, i as int)),
            acc <= max,
        decreases hi - i,
    {
        let c = s[i];
        let ghost prefix = s@.subrange(lo as int, i + 1);
        proof {
            assert(prefix.drop_last() =~= s@.subrange(lo as int, i as int));
            assert(t.take(i + 1 - lo) =~= prefix);
        }
        if !('0' <= c && c <= '9') {
            proof {
                assert(t[i - lo] == c);
            }
            return None;
        }
        let d = (c as u32 - 48) as u64;
        let next = acc * 10 + d;
        if next > max {
            proof {
                if all_digits(t) {
                    lemma_digits_value_prefix(t, i + 1 - lo);
                }
            }
            return None;
        }
        acc = next;
        i += 1;
        proof {
            assert forall|j: int| 0 <= j < prefix.len() implies is_digit_spec(#[trigger] prefix[j]) by {
                if j < prefix.len() - 1 {
                    assert(prefix[j] == s@.subrange(lo as int, (i - 1) as int)[j]);
                }
            }
        }
    }
    proof {
        assert(t =~= s@.subrange(lo as int, i as int));
    }
    Some(acc)
}

/// `FromStr` of an unsigned integer type with largest value `max` on `s[lo..hi]`.
pub fn parse_unsigned(s: &Vec<char>, lo: usize, hi: usize, max: u64) -> (r: Option<u64>)
    requires
        lo <= hi <= s.len(),
        max <= 0x1_0000_0000,
    ensures
        match r {
            Some(v) => parse_unsigned_spec(s@.subrange(lo as int, hi as int), max as int) == Some(
                v as int,
            ),
            None => parse_unsigned_spec(s@.subrange(lo as int, hi as int), max as int) is None,
        },
{
    let ghost t = s@.subrange(lo as int, hi as int);
    if lo < hi && s[lo] == '+' {
        proof {
            assert(t.drop_first() =~= s@.subrange(lo + 1, hi as int));
        }
        parse_digits(s, lo + 1, hi, max)
    } else {
        parse_digits(s, lo, hi, max)
    }
}

/// `i32::from_str` on `s[lo..hi]`.
pub fn parse_i32(s: &Vec<char>, lo: usize, hi: usize) -> (r: Option<i32>)
    requires
        lo <= hi <= s.len(),
    ensures
        match r {
            Some(v) => parse_i32_spec(s@.subrange(lo as int, hi as int)) == Some(v as int),
            None => parse_i32_spec(s@.subrange(lo as int, hi as int)) is None,
        },
{
    let ghost t = s@.subrange(lo as int, hi as int);
    if lo < hi && s[lo] == '-' {
        proof {
            assert(t.drop_first() =~= s@.subrange(lo + 1, hi as int));
        }
        match parse_digits(s, lo + 1, hi, 0x8000_0000) {
            Some(v) => {
                let r = (0 - (v as i64)) as i32;
                Some(r)
            },
            None => None,
        }
    } else {
        match parse_unsigned(s, lo, hi, 0x7fff_ffff) {
            Some(v) => Some(v as i32),
            None => None,
        }
    }
}

/// The decimal digits of `n`, most significant first (`{}` formatting).
pub open spec fn decimal_spec(n: nat) -> Seq<char>
    decreases n,
{
    if n < 10 {
        seq![((48 + n) as u32) as char]
    } else {
        decimal_spec(n / 10).push(((48 + n % 10) as u32) as char)
    }
}

/// `s` padded on the left with `'0'` to at least `width` characters.
pub open spec fn zero_pad(s: Seq<char>, width: int) -> Seq<char> {
    if s.len() < width {
        Seq::new((width - s.len()) as nat, |i: int| '0') + s
    } else {
        s
    }
}

/// `{:0w}` formatting of an integer: the sign counts toward the width and the
/// zeros go after it.
pub open spec fn fmt_padded(n: int, width: int) -> Seq<char> {
    if n < 0 {
        seq!['-'] + zero_pad(decimal_spec((-n) as nat), width - 1)
    } else {
        zero_pad(decimal_spec(n as nat), width)
    }
}

/// Appends the decimal digits of `n`.
pub fn push_decimal(out: &mut String, n: u64)
    ensures
        final(out)@ == old(out)@ + decimal_spec(n as nat),
    decreases n,
{
    if n >= 10 {
        push_decimal(out, n / 10);
    }
    let d = (n % 10) as u8;
    let c = char_of_ascii(48 + d);
    push_char(out, c);
    proof {
        if n >= 10 {
            assert(decimal_spec(n as nat) == decimal_spec((n / 10) as nat).push(c));
        } else {
            assert(decimal_spec(n as nat) == seq![c]);
        }
    }
}

pub open spec fn pow10(k: nat) -> int
    decreases k,
{
    if k == 0 {
        1
    } else {
        10 * pow10((k - 1) as nat)
    }
}

/// The number of decimal digits of `n`.
pub fn decimal_len(n: u64) -> (len: usize)
    ensures
        len == decimal_spec(n as nat).len(),
        forall|b: nat| 1 <= b && n < #[trigger] pow10(b) ==> len <= b,
    decreases n,
{
    if n < 10 {
        proof {
            assert forall|b: nat| 1 <= b && n < #[trigger] pow10(b) implies 1 <= b by {}
        }
        1
    } else {
        let l = decimal_len(n / 10);
        proof {
            assert(n / 10 < pow10(19)) by {
                reveal_with_fuel(pow10, 20);
            }
            assert forall|b: nat| 1 <= b && n < #[trigger] pow10(b) implies l + 1 <= b by {
                if b == 1 {
                    reveal_with_fuel(pow10, 2);
                } else {
                    assert(pow10(b) == 10 * pow10((b - 1) as nat));
                    assert(n / 10 < pow10((b - 1) as nat));
                }
            }
        }
        l + 1
    }
}

/// Appends `n` formatted as `{:0width$}`.
pub fn push_zero_padded(out: &mut String, n: u64, width: usize)
    ensures
        final(out)@ == old(out)@ + zero_pad(decimal_spec(n as nat), width as int),
{
    let len = decimal_len(n);
    let ghost before = out@;
    if len < width {
        let mut k: usize = 0;
        while k < width - len
            invariant
                len < width,
                k <= width - len,
                out@ == before + Seq::new(k as nat, |i: int| '0'),
            decreases width - len - k,
        {
            push_char(out, '0');
            k += 1;
            assert(out@ =~= before + Seq::new(k as nat, |i: int| '0'));
        }
    }
    let ghost mid = out@;
    push_decimal(out, n);
    proof {
        if len < width {
            assert(out@ =~= before + (Seq::new((width - len) as nat, |i: int| '0') + decimal_spec(
                n as nat,
            )));
        }
    }
}

/// Appends `n` formatted as `{:0width$}` (`width >= 1`).
pub fn push_signed_zero_padded(out: &mut String, n: i64, width: usize)
    requires
        width >= 1,
        n > i64::MIN,
    ensures
        final(out)@ == old(out)@ + fmt_padded(n as int, width as int),
{
    if n < 0 {
        let ghost before = out@;
        push_char(out, '-');
        push_zero_padded(out, (0 - n) as u64, width - 1);
        assert(out@ =~= before + fmt_padded(n as int, width as int));
    } else {
        push_zero_padded(out, n as u64, width);
    }
}


/// `str::starts_with` on `s[lo..hi]`.
pub fn starts_with_range(s: &Vec<char>, lo: usize, hi: usize, pat: &Vec<char>) -> (b: bool)
    requires
        lo <= hi <= s.len(),
    ensures
        b == starts_with_spec(s@.subrange(lo as int, hi as int), pat@),
{
    let ghost t = s@.subrange(lo as int, hi as int);
    if pat.len() > hi - lo {
        return false;
    }
    let mut k: usize = 0;
    while k < pat.len()
        invariant
            lo <= hi <= s.len(),
            pat.len() <= hi - lo,
            k <= pat.len(),
            t == s@.subrange(lo as int, hi as int),
            forall|j: int| 0 <= j < k ==> t[j] == pat@[j],
        decreases pat.len() - k,
    {
        if s[lo + k] != pat[k] {
            assert(t.subrange(0, pat.len() as int)[k as int] != pat@[k as int]);
            return false;
        }
        k += 1;
    }
    assert(t.subrange(0, pat.len() as int) =~= pat@);
    true
}

// ---------------------------------------------------------------------------
// Floating-point literals (`f64::from_str` succeeds)
// ---------------------------------------------------------------------------

/// `s` without one leading `+` or `-`.
pub open spec fn strip_sign(s: Seq<char>) -> Seq<char> {
    if s.len() > 0 && (s[0] == '+' || s[0] == '-') {
        s.drop_first()
    } else {
        s
    }
}

/// `inf`, `infinity` or `nan`, in any ASCII case.
pub open spec fn is_float_word(b: Seq<char>) -> bool {
    let l = ascii_lower(b);
    l == seq!['i', 'n', 'f'] || l == seq!['i', 'n', 'f', 'i', 'n', 'i', 't', 'y'] || l == seq![
        'n',
        'a',
        'n',
    ]
}

/// The number of `'.'` in `s`.
pub open spec fn count_dots(s: Seq<char>) -> nat
    decreases s.len(),
{
    if s.len() == 0 {
        0
    } else {
        count_dots(s.drop_last()) + if s.last() == '.' {
            1nat
        } else {
            0nat
        }
    }
}

/// The number of ASCII digits in `s`.
pub open spec fn count_digits(s: Seq<char>) -> nat
    decreases s.len(),
{
    if s.len() == 0 {
        0
    } else {
        count_digits(s.drop_last()) + if is_digit_spec(s.last()) {
            1nat
        } else {
            0nat
        }
    }
}

/// Digits with at most one decimal point and at least one digit.
pub open spec fn is_mantissa(m: Seq<char>) -> bool {
    &&& forall|i: int| 0 <= i < m.len() ==> is_digit_spec(#[trigger] m[i]) || m[i] == '.'
    &&& count_dots(m) <= 1
    &&& count_digits(m) >= 1
}

/// The digits of an exponent, with an optional sign.
pub open spec fn is_exponent_digits(x: Seq<char>) -> bool {
    let y = strip_sign(x);
    y.len() >= 1 && all_digits(y)
}

/// The first `e` or `E` at or after index `i`.
pub open spec fn exp_index_from(s: Seq<char>, i: int) -> Option<int>
    decreases s.len() - i,
{
    if i < 0 || i >= s.len() {
        None
    } else if s[i] == 'e' || s[i] == 'E' {
        Some(i)
    } else {
        exp_index_from(s, i + 1)
    }
}

/// A decimal number: mantissa, then optionally `e`/`E` and an exponent.
pub open spec fn is_decimal_number(b: Seq<char>) -> bool {
    match exp_index_from(b, 0) {
        None => is_mantissa(b),
        Some(k) => is_mantissa(b.subrange(0, k)) && is_exponent_digits(b.subrange(k + 1, b.len() as int)),
    }
}

/// The strings on which `f64::from_str` succeeds, as its documentation gives
/// the grammar: an optional sign, then `inf`, `infinity` or `nan` (any ASCII
/// case), or a decimal number; no surrounding whitespace.
pub open spec fn is_float_literal(s: Seq<char>) -> bool {
    let b = strip_sign(s);
    is_float_word(b) || is_decimal_number(b)
}

fn is_mantissa_range(s: &Vec<char>, lo: usize, hi: usize) -> (b: bool)
    requires
        lo <= hi <= s.len(),
    ensures
        b == is_mantissa(s@.subrange(lo as int, hi as int)),
{
    let ghost t = s@.subrange(lo as int, hi as int);
    let mut dots: usize = 0;
    let mut digits: usize = 0;
    let mut i = lo;
    while i < hi
        invariant
            lo <= i <= hi <= s.len(),
            t == s@.subrange(lo as int, hi as int),
            forall|j: int| 0 <= j < i - lo ==> is_digit_spec(#[trigger] t[j]) || t[j] == '.',
            dots == count_dots(t.take(i - lo)),
            digits == count_digits(t.take(i - lo)),
            dots <= 1,
            digits <= i - lo,
        decreases hi - i,
    {
        let c = s[i];
        proof {
            assert(t.take(i + 1 - lo).drop_last() =~= t.take(i - lo));
            assert(t.take(i + 1 - lo).last() == c);
        }
        if c == '.' {
            if dots == 1 {
                proof {
                    assert(count_dots(t.take(i + 1 - lo)) == 2);
                    lemma_count_dots_prefix(t, i + 1 - lo);
                }
                return false;
            }
            dots += 1;
        } else if '0' <= c && c <= '9' {
            digits += 1;
        } else {
            assert(!(is_digit_spec(t[i - lo]) || t[i - lo] == '.'));
            return false;
        }
        i += 1;
    }
    assert(t.take(hi - lo) =~= t);
    digits >= 1
}

proof fn lemma_count_dots_prefix(s: Seq<char>, k: int)
    requires
        0 <= k <= s.len(),
    ensures
        count_dots(s.take(k)) <= count_dots(s),
    decreases s.len(),
{
    if k < s.len() {
        lemma_count_dots_prefix(s.drop_last(), k);
        assert(s.drop_last().take(k) =~= s.take(k));
    } else {
        assert(s.take(k) =~= s);
    }
}

fn all_digits_range(s: &Vec<char>, lo: usize, hi: usize) -> (b: bool)
    requires
        lo <= hi <= s.len(),
    ensures
        b == all_digits(s@.subrange(lo as int, hi as int)),
{
    let ghost t = s@.subrange(lo as int, hi as int);
    let mut i = lo;
    while i < hi
        invariant
            lo <= i <= hi <= s.len(),
            t == s@.subrange(lo as int, hi as int),
            forall|j: int| 0 <= j < i - lo ==> is_digit_spec(#[trigger] t[j]),
        decreases hi - i,
    {
        if !('0' <= s[i] && s[i] <= '9') {
            assert(!is_digit_spec(t[i - lo]));
            return false;
        }
        i += 1;
    }
    true
}

/// Whether `f64::from_str` succeeds on `s[lo..hi]`.
pub fn is_float_literal_range(s: &Vec<char>, lo: usize, hi: usize) -> (b: bool)
    requires
        lo <= hi <= s.len(),
    ensures
        b == is_float_literal(s@.subrange(lo as int, hi as int)),
{
    let ghost t = s@.subrange(lo as int, hi as int);
    let start = if lo < hi && (s[lo] == '+' || s[lo] == '-') {
        lo + 1
    } else {
        lo
    };
    let ghost b = s@.subrange(start as int, hi as int);
    proof {
        if start == lo + 1 {
            assert(t.drop_first() =~= b);
        } else {
            assert(t =~= b);
        }
        assert(strip_sign(t) == b);
    }
    let lower = lower_range(s, start, hi);
    let inf = chars_of("inf");
    let infinity = chars_of("infinity");
    let nan = chars_of("nan");
    proof {
        reveal_strlit("inf");
        reveal_strlit("infinity");
        reveal_strlit("nan");
        assert(inf@ =~= seq!['i', 'n', 'f']);
        assert(infinity@ =~= seq!['i', 'n', 'f', 'i', 'n', 'i', 't', 'y']);
        assert(nan@ =~= seq!['n', 'a', 'n']);
    }
    if vec_eq(&lower, &inf) || vec_eq(&lower, &infinity) || vec_eq(&lower, &nan) {
        return true;
    }
    // Look for the exponent marker.
    let mut k = start;
    while k < hi && s[k] != 'e' && s[k] != 'E'
        invariant
            start <= k <= hi <= s.len(),
            b == s@.subrange(start as int, hi as int),
            exp_index_from(b, 0) == exp_index_from(b, k - start),
        decreases hi - k,
    {
        k += 1;
    }
    if k == hi {
        is_mantissa_range(s, start, hi)
    } else {
        proof {
            assert(exp_index_from(b, k - start) == Some(k - start));
            assert(b.subrange(0, k - start) =~= s@.subrange(start as int, k as int));
            assert(b.subrange(k - start + 1, b.len() as int) =~= s@.subrange(k + 1, hi as int));
        }
        if !is_mantissa_range(s, start, k) {
            return false;
        }
        let ghost x = s@.subrange(k + 1, hi as int);
        let estart = if k + 1 < hi && (s[k + 1] == '+' || s[k + 1] == '-') {
            k + 2
        } else {
            k + 1
        };
        proof {
            if estart == k + 2 {
                assert(x.drop_first() =~= s@.subrange(estart as int, hi as int));
            } else {
                assert(x =~= s@.subrange(estart as int, hi as int));
            }
        }
        estart < hi && all_digits_range(s, estart, hi)
    }
}

} // verus!
