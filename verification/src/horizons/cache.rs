//! File names for the on-disk cache of raw HORIZONS replies.

use vstd::prelude::*;

use crate::text::{chars_of, push_char, push_range, push_str};

verus! {

/// `center` with every `@` spelled `_at_`, as `str::replace('@', "_at_")` gives.
pub open spec fn escape_at(s: Seq<char>) -> Seq<char>
    decreases s.len(),
{
    if s.len() == 0 {
        Seq::empty()
    } else {
        escape_at(s.drop_last()) + if s.last() == '@' {
            "_at_"@
        } else {
            seq![s.last()]
        }
    }
}

/// `PathBuf::push` on `/`-separated paths: an absolute component replaces the
/// path; otherwise a separator goes between a non-empty path that does not
/// already end in one and the component.
pub open spec fn path_join(base: Seq<char>, component: Seq<char>) -> Seq<char> {
    if component.len() > 0 && component[0] == '/' {
        component
    } else if base.len() > 0 && base.last() != '/' {
        base + seq!['/'] + component
    } else {
        base + component
    }
}

/// The cache file name for one body, date and center.
pub open spec fn raw_cache_file_spec(command_id: Seq<char>, date: Seq<char>, center: Seq<char>) -> Seq<char> {
    command_id + "_"@ + date + "_"@ + escape_at(center) + ".json"@
}

/// Appends `s` with `@` spelled `_at_`.
fn push_escaped(out: &mut String, s: &Vec<char>)
    ensures
        final(out)@ == old(out)@ + escape_at(s@),
{
    let ghost start = out@;
    let mut i: usize = 0;
    while i < s.len()
        invariant
            i <= s.len(),
            out@ == start + escape_at(s@.take(i as int)),
        decreases s.len() - i,
    {
        let c = s[i];
        proof {
            assert(s@.take(i + 1).drop_last() =~= s@.take(i as int));
            assert(s@.take(i + 1).last() == c);
        }
        if c == '@' {
            push_str(out, "_at_");
        } else {
            push_char(out, c);
        }
        proof {
            assert(out@ =~= start + escape_at(s@.take(i + 1)));
        }
        i += 1;
    }
    proof {
        assert(s@.take(s.len() as int) =~= s@);
    }
}

/// Appends `component` to the path `out` as `PathBuf::push` does.
fn push_component(out: &mut String, component: &Vec<char>)
    ensures
        final(out)@ == path_join(old(out)@, component@),
{
    let n = component.len();
    proof {
        assert(component@.subrange(0, n as int) =~= component@);
    }
    if n > 0 && component[0] == '/' {
        let mut fresh = String::new();
        push_range(&mut fresh, component, 0, n);
        *out = fresh;
        return;
    }
    let text = chars_of(out.as_str());
    let m = text.len();
    if m > 0 && text[m - 1] != '/' {
        push_char(out, '/');
    }
    push_range(out, component, 0, n);
}

/// Where the raw reply for `command_id` at `date` seen from `center` is cached,
/// under `cache_root`: `<root>/raw/<command_id>_<date>_<center>.json`, with `@`
/// in the center spelled `_at_`.
pub fn raw_cache_path(cache_root: &str, command_id: &str, date: &str, center: &str) -> (p: String)
    ensures
        p@ == path_join(path_join(cache_root@, "raw"@), raw_cache_file_spec(command_id@, date@, center@)),
{
    let mut file = String::new();
    push_str(&mut file, command_id);
    push_str(&mut file, "_");
    push_str(&mut file, date);
    push_str(&mut file, "_");
    let center_chars = chars_of(center);
    push_escaped(&mut file, &center_chars);
    push_str(&mut file, ".json");
    let mut path = String::new();
    push_str(&mut path, cache_root);
    let raw = chars_of("raw");
    push_component(&mut path, &raw);
    let file_chars = chars_of(file.as_str());
    push_component(&mut path, &file_chars);
    path
}

} // verus!
