//! Which acceleration benchmarks `graviton bench` runs for a filter.
//!
//! The timings themselves are the program's; the selection of system sizes
//! and sections is decided here.

use vstd::prelude::*;

use crate::text::{chars_of, contains_range, contains_spec, decimal_spec, push_decimal, string_of};

verus! {

/// The benchmarked system sizes, in order.
pub open spec fn bench_sizes() -> Seq<usize> {
    seq![10usize, 100usize, 500usize, 1000usize]
}

/// The sections run for one system size.
#[derive(Debug, Clone, Copy, PartialEq, Eq, Structural)]
pub struct BenchCase {
    pub size: usize,
    /// Time direct O(n²) gravity.
    pub direct: bool,
    /// Time the Barnes-Hut approximation.
    pub barnes_hut: bool,
    /// Time both through the dispatcher and report the speed-up.
    pub compare: bool,
}

/// A size is benchmarked without a filter, or when the filter is `all`,
/// `direct`, `barnes_hut`, or contains the size's decimal digits.
pub open spec fn size_selected(filter: Option<Seq<char>>, n: nat) -> bool {
    match filter {
        None => true,
        Some(f) => f == "all"@ || contains_spec(f, decimal_spec(n)) || f == "direct"@ || f == "barnes_hut"@,
    }
}

/// The sections run for size `n` under a filter.
pub open spec fn bench_case(filter: Option<Seq<char>>, n: usize) -> BenchCase {
    BenchCase {
        size: n,
        direct: filter is None || filter == Some("direct"@) || filter == Some("all"@),
        barnes_hut: filter is None || filter == Some("barnes_hut"@) || filter == Some("all"@),
        compare: filter is None || filter == Some("all"@),
    }
}

/// The cases for the first `k` sizes, skipping the sizes the filter excludes.
pub open spec fn bench_cases(filter: Option<Seq<char>>, k: nat) -> Seq<BenchCase>
    decreases k,
{
    if k == 0 {
        Seq::empty()
    } else {
        let rest = bench_cases(filter, (k - 1) as nat);
        let n = bench_sizes()[k - 1];
        if size_selected(filter, n as nat) {
            rest.push(bench_case(filter, n))
        } else {
            rest
        }
    }
}

/// The filter's text, if any.
pub open spec fn filter_view(filter: Option<&str>) -> Option<Seq<char>> {
    match filter {
        Some(f) => Some(f@),
        None => None,
    }
}

/// The benchmarks to run for a filter, size by size.
pub fn bench_plan(filter: Option<&str>) -> (cases: Vec<BenchCase>)
    ensures
        cases@ == bench_cases(filter_view(filter), 4),
{
    let sizes: Vec<usize> = vec![10, 100, 500, 1000];
    let ghost fv = filter_view(filter);
    let is_all = match filter {
        Some(f) => string_of(f) == string_of("all"),
        None => false,
    };
    let is_direct = match filter {
        Some(f) => string_of(f) == string_of("direct"),
        None => false,
    };
    let is_bh = match filter {
        Some(f) => string_of(f) == string_of("barnes_hut"),
        None => false,
    };
    let none = filter.is_none();
    let mut cases: Vec<BenchCase> = Vec::new();
    let mut k: usize = 0;
    while k < 4
        invariant
            sizes@ == bench_sizes(),
            k <= 4,
            fv == filter_view(filter),
            none == (filter is None),
            is_all == (fv == Some("all"@)),
            is_direct == (fv == Some("direct"@)),
            is_bh == (fv == Some("barnes_hut"@)),
            cases@ == bench_cases(fv, k as nat),
        decreases 4 - k,
    {
        let n = sizes[k];
        let selected = match filter {
            None => true,
            Some(f) => {
                let mut digits = String::new();
                push_decimal(&mut digits, n as u64);
                let fc = chars_of(f);
                let dc = chars_of(digits.as_str());
                let has = contains_range(&fc, 0, fc.len(), &dc);
                proof {
                    assert(fc@.subrange(0, fc@.len() as int) =~= fc@);
                }
                is_all || has || is_direct || is_bh
            },
        };
        if selected {
            cases.push(BenchCase {
                size: n,
                direct: none || is_direct || is_all,
                barnes_hut: none || is_bh || is_all,
                compare: none || is_all,
            });
        }
        k += 1;
    }
    cases
}

} // verus!
