//! Error taxonomy of the client, and the parser for structured error bodies
//! the server embeds in `ContinueWithError` frames and HTTP responses.
//!
//! The body parser accepts the compact form the server emits: a JSON object
//! `{"status":<number>,"error":"<text>"}` with the two members in either
//! order, no whitespace between tokens, and only `\"` and `\\` escapes in the
//! text. Anything else is treated as malformed and surfaces as a generic
//! message instead.

use vstd::prelude::*;

verus! {

use vstd::utf8::{valid_utf8, decode_utf8};
use vstd::slice::{slice_subrange, slice_index_get};
use crate::text::{spec_dec_value, all_digits, parse_u64, bytes_to_string};

/// An error that is returned by the server if something goes wrong.
#[derive(Clone, Debug, PartialEq, Eq)]
pub struct ResponseError {
    /// The HTTP status code of the error
    pub status: u16,
    /// The error message provided by the server
    pub error: String,
}

/// A collection of errors that can occur when using this crate.
#[derive(Clone, Debug, PartialEq, Eq)]
pub enum Error {
    /// The connection was closed unexpectedly
    UnexpectedClose,
    /// The server sent an unexpected message
    UnexpectedMessage,
    /// The server sent a malformed message
    UnexpectedMessageFormat,
    /// The server sent a response for a request without a listener
    UnknownResponseId,
    /// The backend service shut down or the session gave up reconnecting
    BackendShutDown,
    /// The connection was closed by the server
    ConnectionClosed,
    /// The server sent an error message as part of the response
    ErrorMsg(String),
    /// The server sent a structured error as part of the response
    ErrorResponse(ResponseError),
    /// An unexpected error with its description
    Custom(String),
    /// A reserve event code that names no known event
    UnknownReserveEvent(i32),
    /// A transaction type code that names no known type
    UnknownTransactionType(i32),
}

/// What the session delivers into a subscription's channel: a payload chunk
/// or an error value.
pub type WsResult = Result<Vec<u8>, Error>;

/// The bytes `"status":` that open the status member.
pub open spec fn status_key() -> Seq<u8> {
    seq![34u8, 115u8, 116u8, 97u8, 116u8, 117u8, 115u8, 34u8, 58u8]
}

/// The bytes `"error":"` that open the error member up to its opening quote.
pub open spec fn error_key() -> Seq<u8> {
    seq![34u8, 101u8, 114u8, 114u8, 111u8, 114u8, 34u8, 58u8, 34u8]
}

/// Whether `key` occurs in `s` starting at `i`.
pub open spec fn key_at(s: Seq<u8>, i: int, key: Seq<u8>) -> bool {
    i + key.len() <= s.len() && s.subrange(i, i + key.len()) == key
}

/// Index right after the last byte of a digit run starting at `i`.
pub open spec fn digits_end(s: Seq<u8>, i: int) -> int
    decreases s.len() - i when 0 <= i <= s.len()
{
    if i < s.len() && 48 <= s[i] <= 57 {
        digits_end(s, i + 1)
    } else {
        i
    }
}

/// Index of the closing quote of a string body starting at `i`, or -1 when
/// the body is unterminated, holds a control byte, or uses an escape other
/// than `\"` or `\\`.
pub open spec fn string_end(s: Seq<u8>, i: int) -> int
    decreases s.len() - i when 0 <= i <= s.len()
{
    if i >= s.len() {
        -1
    } else if s[i] == 34 {
        i
    } else if s[i] == 92 {
        if i + 1 < s.len() && (s[i + 1] == 34 || s[i + 1] == 92) {
            string_end(s, i + 2)
        } else {
            -1
        }
    } else if s[i] < 32 {
        -1
    } else {
        string_end(s, i + 1)
    }
}

/// The bytes of a string body between `i` and its closing quote `j`, with
/// escapes replaced by the byte they stand for.
pub open spec fn unescaped(s: Seq<u8>, i: int, j: int) -> Seq<u8>
    decreases j - i when 0 <= i && i <= j <= s.len()
{
    if i >= j {
        Seq::empty()
    } else if s[i] == 92 && i + 1 < j {
        seq![s[i + 1]] + unescaped(s, i + 2, j)
    } else {
        seq![s[i]] + unescaped(s, i + 1, j)
    }
}

/// The status member `"status":<digits>` read at `i`: the value and the
/// index after the digits, or `None` when it does not parse or the value
/// exceeds `u16::MAX`.
pub open spec fn status_member(s: Seq<u8>, i: int) -> Option<(int, int)> {
    if !key_at(s, i, status_key()) {
        None
    } else {
        let d0 = i + status_key().len();
        let d1 = digits_end(s, d0);
        if d1 == d0 || spec_dec_value(s.subrange(d0, d1)) > u16::MAX {
            None
        } else {
            Some((spec_dec_value(s.subrange(d0, d1)), d1))
        }
    }
}

/// The error member `"error":"<text>"` read at `i`: the unescaped text and
/// the index after the closing quote, or `None` when it does not parse.
pub open spec fn error_member(s: Seq<u8>, i: int) -> Option<(Seq<u8>, int)> {
    if !key_at(s, i, error_key()) {
        None
    } else {
        let c0 = i + error_key().len();
        let c1 = string_end(s, c0);
        if c1 < 0 {
            None
        } else {
            Some((unescaped(s, c0, c1), c1 + 1))
        }
    }
}

/// The structured error body a byte sequence spells, if any: the status
/// value and the unescaped error text of
/// `{"status":<number>,"error":"<text>"}`, members in either order.
pub open spec fn spec_error_body(s: Seq<u8>) -> Option<(int, Seq<u8>)> {
    if s.len() < 1 || s[0] != 123 {
        None
    } else if status_member(s, 1) is Some {
        let (status, i) = status_member(s, 1)->Some_0;
        if i < s.len() && s[i] == 44 && error_member(s, i + 1) is Some {
            let (text, j) = error_member(s, i + 1)->Some_0;
            if j + 1 == s.len() && s[j] == 125 {
                Some((status, text))
            } else {
                None
            }
        } else {
            None
        }
    } else if error_member(s, 1) is Some {
        let (text, i) = error_member(s, 1)->Some_0;
        if i < s.len() && s[i] == 44 && status_member(s, i + 1) is Some {
            let (status, j) = status_member(s, i + 1)->Some_0;
            if j + 1 == s.len() && s[j] == 125 {
                Some((status, text))
            } else {
                None
            }
        } else {
            None
        }
    } else {
        None
    }
}

/// Every byte of a digit run up to `digits_end` is a digit, and the run
/// stays inside the sequence.
proof fn lemma_digits_end_props(s: Seq<u8>, i: int)
    requires
        0 <= i <= s.len(),
    ensures
        i <= digits_end(s, i) <= s.len(),
        all_digits(s.subrange(i, digits_end(s, i))),
    decreases s.len() - i,
{
    if i < s.len() && 48 <= s[i] <= 57 {
        lemma_digits_end_props(s, i + 1);
        let j = digits_end(s, i);
        assert forall|k: int| 0 <= k < j - i implies 48 <= #[trigger] s.subrange(i, j)[k]
            <= 57 by {
            if k > 0 {
                assert(s.subrange(i + 1, j)[k - 1] == s[i + k]);
            }
        }
    }
}

/// A non-negative `string_end` points at an unescaped closing quote inside
/// the sequence.
proof fn lemma_string_end_props(s: Seq<u8>, i: int)
    requires
        0 <= i <= s.len(),
        string_end(s, i) >= 0,
    ensures
        i <= string_end(s, i) < s.len(),
        s[string_end(s, i)] == 34,
    decreases s.len() - i,
{
    if i < s.len() && s[i] != 34 {
        if s[i] == 92 {
            lemma_string_end_props(s, i + 2);
        } else if s[i] >= 32 {
            lemma_string_end_props(s, i + 1);
        }
    }
}

/// Index right after the digit run starting at `start`.
fn scan_digits(s: &[u8], start: usize) -> (r: usize)
    requires
        start <= s@.len(),
    ensures
        r == digits_end(s@, start as int),
        start <= r <= s@.len(),
{
    let n = s.len();
    let mut i = start;
    while i < n && 48 <= *slice_index_get(s, i) && *slice_index_get(s, i) <= 57
        invariant
            start <= i <= n == s@.len(),
            digits_end(s@, start as int) == digits_end(s@, i as int),
        decreases n - i,
    {
        i = i + 1;
    }
    i
}

/// Index of the closing quote of a string body starting at `start`, or
/// `None` when the body is malformed.
fn scan_string(s: &[u8], start: usize) -> (r: Option<usize>)
    requires
        start <= s@.len(),
    ensures
        r is Some <==> string_end(s@, start as int) >= 0,
        r matches Some(j) ==> j == string_end(s@, start as int) && start <= j < s@.len(),
    decreases s@.len() - start,
{
    let n = s.len();
    let mut i = start;
    loop
        invariant
            start <= i <= n == s@.len(),
            string_end(s@, start as int) == string_end(s@, i as int),
        decreases n - i,
    {
        if i >= n {
            return None;
        }
        let b = *slice_index_get(s, i);
        if b == 34 {
            return Some(i);
        } else if b == 92 {
            if i + 1 < n && (*slice_index_get(s, i + 1) == 34 || *slice_index_get(s, i + 1) == 92) {
                i = i + 2;
            } else {
                return None;
            }
        } else if b < 32 {
            return None;
        } else {
            i = i + 1;
        }
    }
}

/// The bytes of a string body with its escapes resolved.
fn unescape_range(s: &[u8], start: usize, end: usize) -> (r: Vec<u8>)
    requires
        start <= end <= s@.len(),
    ensures
        r@ == unescaped(s@, start as int, end as int),
{
    let mut out: Vec<u8> = Vec::new();
    let mut i = start;
    while i < end
        invariant
            start <= i <= end <= s@.len(),
            unescaped(s@, start as int, end as int) =~= out@ + unescaped(s@, i as int, end as int),
        decreases end - i,
    {
        let b = *slice_index_get(s, i);
        if b == 92 && i + 1 < end {
            out.push(*slice_index_get(s, i + 1));
            i = i + 2;
        } else {
            out.push(b);
            i = i + 1;
        }
    }
    proof {
        assert(out@ =~= out@ + unescaped(s@, i as int, end as int));
    }
    out
}

/// Whether `key` occurs in `s` at `i`.
fn key_at_exec(s: &[u8], i: usize, key: &[u8]) -> (r: bool)
    requires
        i <= s@.len(),
    ensures
        r == key_at(s@, i as int, key@),
{
    let n = s.len();
    let klen = key.len();
    if klen > n - i {
        return false;
    }
    let mut j: usize = 0;
    while j < klen
        invariant
            0 <= j <= klen,
            klen == key@.len(),
            i + klen <= n == s@.len(),
            forall|k: int| 0 <= k < j ==> s@[i + k] == #[trigger] key@[k],
        decreases klen - j,
    {
        if *slice_index_get(s, i + j) != *slice_index_get(key, j) {
            proof {
                let sub = s@.subrange(i as int, i + key@.len());
                assert(sub[j as int] == s@[i + j]);
                assert(sub != key@);
            }
            return false;
        }
        j = j + 1;
    }
    proof {
        assert(s@.subrange(i as int, i + klen) =~= key@);
    }
    true
}

/// The key bytes `"status":`.
fn status_key_exec() -> (r: Vec<u8>)
    ensures
        r@ == status_key(),
{
    let mut k: Vec<u8> = Vec::new();
    k.push(34);
    k.push(115);
    k.push(116);
    k.push(97);
    k.push(116);
    k.push(117);
    k.push(115);
    k.push(34);
    k.push(58);
    proof {
        assert(k@ =~= status_key());
    }
    k
}

/// The key bytes `"error":"`.
fn error_key_exec() -> (r: Vec<u8>)
    ensures
        r@ == error_key(),
{
    let mut k: Vec<u8> = Vec::new();
    k.push(34);
    k.push(101);
    k.push(114);
    k.push(114);
    k.push(111);
    k.push(114);
    k.push(34);
    k.push(58);
    k.push(34);
    proof {
        assert(k@ =~= error_key());
    }
    k
}

/// Reads the status member at `i`.
fn parse_status_member(s: &[u8], i: usize) -> (r: Option<(u16, usize)>)
    requires
        i <= s@.len(),
    ensures
        r is Some <==> status_member(s@, i as int) is Some,
        r matches Some((v, j)) ==> status_member(s@, i as int) == Some((v as int, j as int))
            && j <= s@.len(),
{
    let n = s.len();
    let key = status_key_exec();
    if !key_at_exec(s, i, key.as_slice()) {
        return None;
    }
    proof {
        assert(status_key().len() == 9);
        assert(i + 9 <= n);
    }
    let d0 = i + 9;
    let d1 = scan_digits(s, d0);
    proof {
        lemma_digits_end_props(s@, d0 as int);
    }
    if d1 == d0 {
        return None;
    }
    let digits = slice_subrange(s, d0, d1);
    match parse_u64(digits) {
        Some(v) => {
            if v > 65535 {
                None
            } else {
                Some((v as u16, d1))
            }
        },
        None => None,
    }
}

/// Reads the error member at `i`.
fn parse_error_member(s: &[u8], i: usize) -> (r: Option<(Vec<u8>, usize)>)
    requires
        i <= s@.len(),
    ensures
        r is Some <==> error_member(s@, i as int) is Some,
        r matches Some((t, j)) ==> error_member(s@, i as int) is Some
            && error_member(s@, i as int)->Some_0.0 == t@
            && error_member(s@, i as int)->Some_0.1 == j as int
            && j <= s@.len(),
{
    let n = s.len();
    let key = error_key_exec();
    if !key_at_exec(s, i, key.as_slice()) {
        return None;
    }
    proof {
        assert(error_key().len() == 9);
        assert(i + 9 <= n);
    }
    let c0 = i + 9;
    match scan_string(s, c0) {
        Some(c1) => {
            let text = unescape_range(s, c0, c1);
            Some((text, c1 + 1))
        },
        None => None,
    }
}

/// Reads a whole structured error body: status value and unescaped error
/// text, exactly when the bytes spell `spec_error_body`.
fn parse_error_body(s: &[u8]) -> (r: Option<(u16, Vec<u8>)>)
    ensures
        r is Some <==> spec_error_body(s@) is Some,
        r matches Some((v, t)) ==> spec_error_body(s@) == Some((v as int, t@)),
{
    let n = s.len();
    if n < 1 || *slice_index_get(s, 0) != 123 {
        return None;
    }
    if let Some((status, i)) = parse_status_member(s, 1) {
        if i < n && *slice_index_get(s, i) == 44 {
            if let Some((text, j)) = parse_error_member(s, i + 1) {
                if j == n - 1 && *slice_index_get(s, j) == 125 {
                    return Some((status, text));
                }
            }
        }
        return None;
    }
    if let Some((text, i)) = parse_error_member(s, 1) {
        if i < n && *slice_index_get(s, i) == 44 {
            if let Some((status, j)) = parse_status_member(s, i + 1) {
                if j == n - 1 && *slice_index_get(s, j) == 125 {
                    return Some((status, text));
                }
            }
        }
        return None;
    }
    None
}

impl ResponseError {
    /// Parses a structured server error body. Succeeds exactly when the
    /// bytes spell a compact `{"status":<number>,"error":"<text>"}` object
    /// (members in either order) whose text is valid UTF-8.
    pub fn parse(data: &[u8]) -> (r: Option<ResponseError>)
        ensures
            r is Some <==> spec_error_body(data@) is Some && valid_utf8(
                spec_error_body(data@)->Some_0.1,
            ),
            r matches Some(re) ==> spec_error_body(data@) is Some && re.status as int
                == spec_error_body(data@)->Some_0.0 && re.error@ == decode_utf8(
                spec_error_body(data@)->Some_0.1,
            ),
    {
        match parse_error_body(data) {
            Some((status, text)) => match bytes_to_string(text) {
                Some(message) => Some(ResponseError { status, error: message }),
                None => None,
            },
            None => None,
        }
    }
}

} // verus!
