//! Block-range bounds and query options.
//!
//! A bound serializes as a decimal block height, `latest`, `latest-N`, or
//! `none`, and parses back from the same forms (with optional blanks around
//! the `-` of `latest-N`, as the service accepts them).

use vstd::prelude::*;

verus! {

use vstd::slice::{slice_subrange, slice_index_get};
use crate::text::{
    spec_dec_u64, spec_dec_i64, dec_u64, dec_i64, all_digits, spec_dec_value, parse_u64,
    spec_i64_accepts, spec_signed_value, parse_i64,
};

/// One end of a block range.
#[derive(Clone, Copy, Debug, Default, PartialEq, Eq, Hash, Structural)]
pub enum Bound {
    /// The range starts/ends at this block height (inclusive)
    Exact(i64),
    /// The range should start/end at the latest block height
    #[default]
    Latest,
    /// The bound is defined backwards from the latest block height
    FromLatest(u64),
    /// No bound: subscribe to real-time results
    Subscribe,
}

impl Bound {
    /// The open bound: subscribe to real-time results.
    pub fn none() -> (r: Self)
        ensures
            r == Bound::Subscribe,
    {
        Self::Subscribe
    }

    /// The bound a numeric value stands for: a negative number counts
    /// backwards from the latest block.
    pub fn from_i64(v: i64) -> (r: Self)
        ensures
            v < 0 ==> r == Bound::FromLatest((-(v as int)) as u64),
            v >= 0 ==> r == Bound::Exact(v),
    {
        if v < 0 {
            Bound::FromLatest((-(v as i128)) as u64)
        } else {
            Bound::Exact(v)
        }
    }
}

impl vstd::std_specs::cmp::PartialOrdSpecImpl for Bound {
    open spec fn obeys_partial_cmp_spec() -> bool {
        true
    }

    /// Exact and from-latest bounds compare within their own kind; any
    /// closed bound comes before the open one; nothing else is ordered.
    open spec fn partial_cmp_spec(&self, other: &Bound) -> Option<core::cmp::Ordering> {
        match (*self, *other) {
            (Bound::Exact(l), Bound::Exact(r)) => if l < r {
                Some(core::cmp::Ordering::Less)
            } else if l == r {
                Some(core::cmp::Ordering::Equal)
            } else {
                Some(core::cmp::Ordering::Greater)
            },
            (Bound::FromLatest(l), Bound::FromLatest(r)) => if l < r {
                Some(core::cmp::Ordering::Less)
            } else if l == r {
                Some(core::cmp::Ordering::Equal)
            } else {
                Some(core::cmp::Ordering::Greater)
            },
            (Bound::Latest, Bound::Latest) => Some(core::cmp::Ordering::Equal),
            (Bound::Subscribe, Bound::Subscribe) => Option::None,
            (_, Bound::Subscribe) => Some(core::cmp::Ordering::Less),
            _ => Option::None,
        }
    }
}

impl PartialOrd for Bound {
    fn partial_cmp(&self, other: &Self) -> (r: Option<core::cmp::Ordering>) {
        match (self, other) {
            (Bound::Exact(l), Bound::Exact(r)) => if l < r {
                Some(core::cmp::Ordering::Less)
            } else if l == r {
                Some(core::cmp::Ordering::Equal)
            } else {
                Some(core::cmp::Ordering::Greater)
            },
            (Bound::FromLatest(l), Bound::FromLatest(r)) => if l < r {
                Some(core::cmp::Ordering::Less)
            } else if l == r {
                Some(core::cmp::Ordering::Equal)
            } else {
                Some(core::cmp::Ordering::Greater)
            },
            (Bound::Latest, Bound::Latest) => Some(core::cmp::Ordering::Equal),
            (Bound::Subscribe, Bound::Subscribe) => None,
            (_, Bound::Subscribe) => Some(core::cmp::Ordering::Less),
            _ => None,
        }
    }
}

/// The bytes `latest`.
pub open spec fn latest_text() -> Seq<u8> {
    seq![108u8, 97u8, 116u8, 101u8, 115u8, 116u8]
}

/// The bytes `none`.
pub open spec fn none_text() -> Seq<u8> {
    seq![110u8, 111u8, 110u8, 101u8]
}

/// Query-string rendering of a bound.
pub open spec fn spec_bound_text(b: Bound) -> Seq<u8> {
    match b {
        Bound::Exact(n) => spec_dec_i64(n),
        Bound::Latest => latest_text(),
        Bound::FromLatest(n) => latest_text() + seq![45u8] + spec_dec_u64(n),
        Bound::Subscribe => none_text(),
    }
}

/// Renders a bound for a query string or a request payload.
pub fn render_bound(b: &Bound) -> (r: Vec<u8>)
    ensures
        r@ == spec_bound_text(*b),
{
    match b {
        Bound::Exact(n) => dec_i64(*n),
        Bound::Latest => {
            let mut v: Vec<u8> = Vec::new();
            v.push(108);
            v.push(97);
            v.push(116);
            v.push(101);
            v.push(115);
            v.push(116);
            proof {
                assert(v@ =~= latest_text());
            }
            v
        },
        Bound::FromLatest(n) => {
            let mut v: Vec<u8> = Vec::new();
            v.push(108);
            v.push(97);
            v.push(116);
            v.push(101);
            v.push(115);
            v.push(116);
            v.push(45);
            let mut digits = dec_u64(*n);
            v.append(&mut digits);
            proof {
                assert(v@ =~= latest_text() + seq![45u8] + spec_dec_u64(*n));
            }
            v
        },
        Bound::Subscribe => {
            let mut v: Vec<u8> = Vec::new();
            v.push(110);
            v.push(111);
            v.push(110);
            v.push(101);
            proof {
                assert(v@ =~= none_text());
            }
            v
        },
    }
}

/// Blank bytes the service tolerates around the `-` of `latest-N`.
pub open spec fn is_blank(b: u8) -> bool {
    b == 32 || b == 9 || b == 10 || b == 13 || b == 11 || b == 12
}

/// Index right after the run of blanks starting at `i`.
pub open spec fn blank_end(s: Seq<u8>, i: int) -> int
    decreases s.len() - i when 0 <= i <= s.len()
{
    if i < s.len() && is_blank(s[i]) {
        blank_end(s, i + 1)
    } else {
        i
    }
}

/// Whether bytes spell `latest-N`: the word `latest`, blanks, a minus,
/// blanks, then digits to the end whose value fits in a `u64` and is not
/// zero.
pub open spec fn from_latest_accepts(s: Seq<u8>) -> bool {
    let a = blank_end(s, 6);
    let b = blank_end(s, a + 1);
    &&& s.len() >= 6
    &&& s.subrange(0, 6) == latest_text()
    &&& a < s.len()
    &&& s[a] == 45
    &&& b < s.len()
    &&& all_digits(s.subrange(b, s.len() as int))
    &&& spec_dec_value(s.subrange(b, s.len() as int)) <= u64::MAX
    &&& spec_dec_value(s.subrange(b, s.len() as int)) > 0
}

/// The `N` of a `latest-N` rendering.
pub open spec fn from_latest_value(s: Seq<u8>) -> int {
    let a = blank_end(s, 6);
    let b = blank_end(s, a + 1);
    spec_dec_value(s.subrange(b, s.len() as int))
}

/// The bound a byte string spells, if any: `latest`, `none`, `latest-N`,
/// or a signed decimal height.
pub open spec fn spec_parse_bound(s: Seq<u8>) -> Option<Bound> {
    if s == latest_text() {
        Some(Bound::Latest)
    } else if s == none_text() {
        Some(Bound::Subscribe)
    } else if from_latest_accepts(s) {
        Some(Bound::FromLatest(from_latest_value(s) as u64))
    } else if spec_i64_accepts(s) {
        Some(Bound::Exact(spec_signed_value(s) as i64))
    } else {
        None
    }
}

/// Index right after the run of blanks starting at `start`.
fn scan_blanks(s: &[u8], start: usize) -> (r: usize)
    requires
        start <= s@.len(),
    ensures
        r == blank_end(s@, start as int),
        start <= r <= s@.len(),
{
    let n = s.len();
    let mut i = start;
    loop
        invariant
            start <= i <= n == s@.len(),
            blank_end(s@, start as int) == blank_end(s@, i as int),
        decreases n - i,
    {
        if i >= n {
            return i;
        }
        let b = *slice_index_get(s, i);
        if !(b == 32 || b == 9 || b == 10 || b == 13 || b == 11 || b == 12) {
            return i;
        }
        i = i + 1;
    }
}

/// Whether the bytes equal `text` exactly.
fn bytes_equal(s: &[u8], text: &[u8]) -> (r: bool)
    ensures
        r == (s@ == text@),
{
    let n = s.len();
    if n != text.len() {
        proof {
            assert(s@ != text@);
        }
        return false;
    }
    let mut i: usize = 0;
    while i < n
        invariant
            0 <= i <= n,
            n == s@.len() == text@.len(),
            forall|k: int| 0 <= k < i ==> s@[k] == #[trigger] text@[k],
        decreases n - i,
    {
        if *slice_index_get(s, i) != *slice_index_get(text, i) {
            return false;
        }
        i = i + 1;
    }
    proof {
        assert(s@ =~= text@);
    }
    true
}

/// The bytes `latest`.
fn latest_text_exec() -> (r: Vec<u8>)
    ensures
        r@ == latest_text(),
{
    let mut v: Vec<u8> = Vec::new();
    v.push(108);
    v.push(97);
    v.push(116);
    v.push(101);
    v.push(115);
    v.push(116);
    proof {
        assert(v@ =~= latest_text());
    }
    v
}

/// The bytes `none`.
fn none_text_exec() -> (r: Vec<u8>)
    ensures
        r@ == none_text(),
{
    let mut v: Vec<u8> = Vec::new();
    v.push(110);
    v.push(111);
    v.push(110);
    v.push(101);
    proof {
        assert(v@ =~= none_text());
    }
    v
}

impl Bound {
    /// Parses a bound from its query-string rendering. Succeeds exactly on
    /// `latest`, `none`, `latest-N` (blanks allowed around the minus, `N`
    /// a positive `u64`), or a decimal block height that fits in an `i64`.
    pub fn parse(s: &[u8]) -> (r: Option<Bound>)
        ensures
            r == spec_parse_bound(s@),
    {
        let n = s.len();
        let latest = latest_text_exec();
        let none = none_text_exec();
        if bytes_equal(s, latest.as_slice()) {
            return Some(Bound::Latest);
        }
        if bytes_equal(s, none.as_slice()) {
            return Some(Bound::Subscribe);
        }
        if n >= 6 && bytes_equal(slice_subrange(s, 0, 6), latest.as_slice()) {
            let a = scan_blanks(s, 6);
            if a < n && *slice_index_get(s, a) == 45 {
                let b = scan_blanks(s, a + 1);
                if b < n {
                    let digits = slice_subrange(s, b, n);
                    if let Some(v) = parse_u64(digits) {
                        if v > 0 {
                            return Some(Bound::FromLatest(v));
                        }
                    }
                }
            }
        }
        proof {
            if s@.len() >= 6 && s@.subrange(0, 6) != latest_text() {
                assert(!from_latest_accepts(s@));
            }
        }
        match parse_i64(s) {
            Some(v) => Some(Bound::Exact(v)),
            None => None,
        }
    }
}

/// A block range for a paginated or streamed query.
#[derive(Clone, Copy, Debug, Default, PartialEq, Eq, Hash, Structural)]
pub struct QueryOptions {
    /// Lower end of the range.
    pub start: Bound,
    /// Upper end of the range.
    pub end: Bound,
}

impl QueryOptions {
    /// Replaces the lower end of the range.
    pub fn start(self, value: Bound) -> (r: Self)
        ensures
            r.start == value,
            r.end == self.end,
    {
        Self { start: value, ..self }
    }

    /// Replaces the upper end of the range.
    pub fn end(self, value: Bound) -> (r: Self)
        ensures
            r.end == value,
            r.start == self.start,
    {
        Self { end: value, ..self }
    }
}

} // verus!
