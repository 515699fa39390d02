//! Small byte-level text utilities: decimal rendering and parsing for the
//! query serializer, and UTF-8 decoding for inbound error payloads.

use vstd::prelude::*;

verus! {

use vstd::utf8::{valid_utf8, decode_utf8};
use vstd::slice::{slice_subrange, slice_index_get};

/// Decimal digits of `n`, most significant first, as ASCII bytes.
pub open spec fn spec_dec_u64(n: u64) -> Seq<u8>
    decreases n,
{
    if n < 10 {
        seq![(48 + n) as u8]
    } else {
        spec_dec_u64(n / 10).push((48 + n % 10) as u8)
    }
}

/// Decimal rendering of a signed value: a leading minus sign when negative.
pub open spec fn spec_dec_i64(n: i64) -> Seq<u8> {
    if n < 0 {
        seq![45u8] + spec_dec_u64((-(n as int)) as u64)
    } else {
        spec_dec_u64(n as u64)
    }
}

/// Renders `x` in decimal ASCII.
pub fn dec_u64(x: u64) -> (r: Vec<u8>)
    ensures
        r@ == spec_dec_u64(x),
{
    if x == 0 {
        let mut buf: Vec<u8> = Vec::new();
        buf.push(48);
        return buf;
    }
    let mut n = x;
    let mut buf: Vec<u8> = Vec::new();
    while n > 0
        invariant
            if n > 0 {
                spec_dec_u64(x) =~= spec_dec_u64(n) + buf@
            } else {
                spec_dec_u64(x) =~= buf@
            },
        decreases n,
    {
        let d: u8 = 48 + (n % 10) as u8;
        buf.insert(0, d);
        proof {
            if n >= 10 {
                assert(spec_dec_u64(n) =~= spec_dec_u64(n / 10) + seq![(48 + n % 10) as u8]);
            }
        }
        n = n / 10;
    }
    buf
}

/// Renders `x` in decimal ASCII, with a minus sign when negative.
pub fn dec_i64(x: i64) -> (r: Vec<u8>)
    ensures
        r@ == spec_dec_i64(x),
{
    if x < 0 {
        let magnitude: u64 = (-(x as i128)) as u64;
        let mut buf: Vec<u8> = Vec::new();
        buf.push(45);
        let mut digits = dec_u64(magnitude);
        buf.append(&mut digits);
        buf
    } else {
        dec_u64(x as u64)
    }
}

/// Every byte of `s` is an ASCII decimal digit.
pub open spec fn all_digits(s: Seq<u8>) -> bool {
    forall|i: int| 0 <= i < s.len() ==> 48 <= #[trigger] s[i] <= 57
}

/// Numeric value of a digit string, most significant first.
pub open spec fn spec_dec_value(s: Seq<u8>) -> int
    decreases s.len(),
{
    if s.len() == 0 {
        0
    } else {
        spec_dec_value(s.drop_last()) * 10 + (s.last() - 48)
    }
}

/// Parses an unsigned decimal number; `None` when `s` is empty, holds a
/// non-digit byte, or the value does not fit in a `u64`.
pub fn parse_u64(s: &[u8]) -> (r: Option<u64>)
    ensures
        r is Some <==> s@.len() > 0 && all_digits(s@) && spec_dec_value(s@) <= u64::MAX,
        r matches Some(v) ==> v == spec_dec_value(s@),
{
    if s.len() == 0 {
        return None;
    }
    let mut acc: u64 = 0;
    let mut i: usize = 0;
    while i < s.len()
        invariant
            0 <= i <= s@.len(),
            all_digits(s@.subrange(0, i as int)),
            acc == spec_dec_value(s@.subrange(0, i as int)),
        decreases s@.len() - i,
    {
        let b = s[i];
        if b < 48 || b > 57 {
            proof {
                assert(!all_digits(s@)) by {
                    assert(s@[i as int] == b);
                }
            }
            return None;
        }
        let d: u64 = (b - 48) as u64;
        if acc > (u64::MAX - d) / 10 {
            proof {
                assert(s@.subrange(0, i as int + 1).drop_last() =~= s@.subrange(0, i as int));
                lemma_dec_value_extend_exceeds(s@, i as int);
            }
            return None;
        }
        acc = acc * 10 + d;
        proof {
            assert(s@.subrange(0, i as int + 1).drop_last() =~= s@.subrange(0, i as int));
        }
        i = i + 1;
    }
    proof {
        assert(s@.subrange(0, s@.len() as int) =~= s@);
    }
    Some(acc)
}

/// When a prefix already exceeds what one more digit keeps below `u64::MAX`,
/// every extension of that prefix exceeds `u64::MAX` as well.
proof fn lemma_dec_value_extend_exceeds(s: Seq<u8>, i: int)
    requires
        0 <= i < s.len(),
        all_digits(s.subrange(0, i)),
        48 <= s[i] <= 57,
        spec_dec_value(s.subrange(0, i)) * 10 + (s[i] - 48) > u64::MAX,
    ensures
        all_digits(s) ==> spec_dec_value(s) > u64::MAX,
    decreases s.len() - i,
{
    if all_digits(s) {
        assert(s.subrange(0, i + 1).drop_last() =~= s.subrange(0, i));
        assert(spec_dec_value(s.subrange(0, i + 1)) > u64::MAX);
        lemma_dec_value_prefix_grows(s, i + 1);
    }
}

/// A digit string is at least as large as the value of any of its prefixes.
proof fn lemma_dec_value_prefix_grows(s: Seq<u8>, i: int)
    requires
        0 <= i <= s.len(),
        all_digits(s),
        spec_dec_value(s.subrange(0, i)) >= 0,
    ensures
        spec_dec_value(s) >= spec_dec_value(s.subrange(0, i)),
        spec_dec_value(s) >= 0,
    decreases s.len() - i,
{
    if i == s.len() {
        assert(s.subrange(0, i) =~= s);
    } else {
        assert(s.subrange(0, i + 1).drop_last() =~= s.subrange(0, i));
        assert(spec_dec_value(s.subrange(0, i + 1)) == spec_dec_value(s.subrange(0, i)) * 10 + (s[i]
            - 48));
        lemma_dec_value_prefix_grows(s, i + 1);
    }
}

/// The digits of a signed decimal literal, after the optional sign.
pub open spec fn signed_body(s: Seq<u8>) -> Seq<u8> {
    if s.len() > 0 && (s[0] == 43 || s[0] == 45) {
        s.drop_first()
    } else {
        s
    }
}

/// Whether a signed decimal literal is negative.
pub open spec fn signed_negative(s: Seq<u8>) -> bool {
    s.len() > 0 && s[0] == 45
}

/// Whether bytes spell a signed decimal literal whose value fits in `i64`:
/// an optional `+` or `-` sign, then at least one digit.
pub open spec fn spec_i64_accepts(s: Seq<u8>) -> bool {
    &&& signed_body(s).len() > 0
    &&& all_digits(signed_body(s))
    &&& spec_signed_value(s) >= i64::MIN
    &&& spec_signed_value(s) <= i64::MAX
}

/// Value of a signed decimal literal.
pub open spec fn spec_signed_value(s: Seq<u8>) -> int {
    if signed_negative(s) {
        -spec_dec_value(signed_body(s))
    } else {
        spec_dec_value(signed_body(s))
    }
}

/// Parses a signed decimal number; `None` exactly when the bytes are not a
/// signed decimal literal whose value fits in `i64`.
pub fn parse_i64(s: &[u8]) -> (r: Option<i64>)
    ensures
        r is Some <==> spec_i64_accepts(s@),
        r matches Some(v) ==> v == spec_signed_value(s@),
{
    let n = s.len();
    if n == 0 {
        return None;
    }
    let first = *slice_index_get(s, 0);
    let (negative, body) = if first == 43 || first == 45 {
        (first == 45, slice_subrange(s, 1, n))
    } else {
        (false, slice_subrange(s, 0, n))
    };
    proof {
        if !(first == 43 || first == 45) {
            assert(s@.subrange(0, n as int) =~= s@);
        }
        assert(body@ =~= signed_body(s@));
    }
    match parse_u64(body) {
        Some(v) => {
            if negative {
                if v > 9223372036854775808u64 {
                    None
                } else {
                    Some((-(v as i128)) as i64)
                }
            } else {
                if v > 9223372036854775807u64 {
                    None
                } else {
                    Some(v as i64)
                }
            }
        },
        None => {
            proof {
                if signed_body(s@).len() > 0 && all_digits(signed_body(s@)) {
                    assert(spec_dec_value(signed_body(s@)) > u64::MAX);
                }
            }
            None
        },
    }
}

/// Relies on `String::from_utf8` from std: it succeeds exactly on valid
/// UTF-8 input and decodes it; `vstd::utf8` supplies the byte-level meaning.
#[verifier::external_body]
pub fn bytes_to_string(v: Vec<u8>) -> (r: Option<String>)
    ensures
        r is Some <==> valid_utf8(v@),
        r matches Some(s) ==> s@ == decode_utf8(v@),
{
    String::from_utf8(v).ok()
}

} // verus!
