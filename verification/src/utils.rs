//! Small serialization utilities shared by the query builders.

use vstd::prelude::*;

verus! {

use vstd::string::StringExecFns;
use crate::error::{Error, ResponseError, spec_error_body};
use vstd::utf8::{valid_utf8, decode_utf8};
use crate::text::bytes_to_string;

/// The comma-joined rendering of a list of values.
pub open spec fn spec_comma_joined(items: Seq<Seq<char>>) -> Seq<char>
    decreases items.len(),
{
    if items.len() == 0 {
        Seq::empty()
    } else if items.len() == 1 {
        items[0]
    } else {
        spec_comma_joined(items.drop_last()) + ","@ + items.last()
    }
}

/// Joins the rendered members of a set-valued filter field with commas;
/// an empty field serializes to nothing at all.
pub fn serialize_comma_separated(items: &Vec<String>) -> (r: Option<String>)
    ensures
        r is Some <==> items@.len() > 0,
        r matches Some(s) ==> s@ == spec_comma_joined(items@.map_values(|it: String| it@)),
{
    if items.len() == 0 {
        return None;
    }
    let mut out = String::new();
    let n = items.len();
    let mut i: usize = 0;
    while i < n
        invariant
            0 <= i <= n == items@.len(),
            out@ == spec_comma_joined(items@.map_values(|it: String| it@).subrange(0, i as int)),
        decreases n - i,
    {
        if i > 0 {
            out.append(",");
        }
        out.append(items[i].as_str());
        proof {
            let rendered = items@.map_values(|it: String| it@);
            let pre = rendered.subrange(0, i as int);
            let post = rendered.subrange(0, i + 1);
            assert(post.drop_last() =~= pre);
            assert(post.last() == rendered[i as int]);
            if i == 0 {
                assert(out@ =~= post[0]);
            }
        }
        i = i + 1;
    }
    proof {
        let rendered = items@.map_values(|it: String| it@);
        assert(rendered.subrange(0, n as int) =~= rendered);
    }
    Some(out)
}

impl ResponseError {
    /// Screens one chunk of a response stream: a chunk that opens with a
    /// brace and parses as a structured `{status, error}` body surfaces
    /// as a typed server error; every other chunk passes through
    /// unchanged.
    pub fn screen(bytes: Vec<u8>) -> (r: Result<Vec<u8>, Error>)
        ensures
            bytes@.len() > 0 && bytes@[0] == 123 && spec_error_body(bytes@) is Some && valid_utf8(
                spec_error_body(bytes@)->Some_0.1,
            ) ==> (r matches Err(Error::ErrorResponse(re)) && re.status as int == spec_error_body(
                bytes@,
            )->Some_0.0 && re.error@ == decode_utf8(spec_error_body(bytes@)->Some_0.1)),
            !(bytes@.len() > 0 && bytes@[0] == 123 && spec_error_body(bytes@) is Some
                && valid_utf8(spec_error_body(bytes@)->Some_0.1)) ==> (r matches Ok(b) && b@
                == bytes@),
    {
        let starts_object = bytes.len() > 0 && bytes[0] == 123;
        if starts_object {
            match ResponseError::parse(bytes.as_slice()) {
                Some(re) => Err(Error::ErrorResponse(re)),
                None => Ok(bytes),
            }
        } else {
            Ok(bytes)
        }
    }
}

} // verus!
