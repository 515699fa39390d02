//! Credential header construction.
//!
//! The service authenticates with a single `Basic` authorization header
//! built from an endpoint-scoped username and password.

use vstd::prelude::*;

verus! {

use vstd::slice::slice_to_vec;
use vstd::string::StringSliceAdditionalSpecFns;

/// The base64 character of one six-bit group, standard alphabet.
pub open spec fn b64_char(s: u8) -> u8 {
    if s < 26 {
        (65 + s) as u8
    } else if s < 52 {
        (97 + (s - 26)) as u8
    } else if s < 62 {
        (48 + (s - 52)) as u8
    } else if s == 62 {
        43
    } else {
        47
    }
}

/// The four characters of one full three-byte group.
pub open spec fn b64_group(a: u8, b: u8, c: u8) -> Seq<u8> {
    seq![
        b64_char(a >> 2),
        b64_char(((a & 3) << 4) | (b >> 4)),
        b64_char(((b & 15) << 2) | (c >> 6)),
        b64_char(c & 63),
    ]
}

/// The padded characters of a trailing single byte.
pub open spec fn b64_tail1(a: u8) -> Seq<u8> {
    seq![b64_char(a >> 2), b64_char((a & 3) << 4), 61u8, 61u8]
}

/// The padded characters of a trailing byte pair.
pub open spec fn b64_tail2(a: u8, b: u8) -> Seq<u8> {
    seq![b64_char(a >> 2), b64_char(((a & 3) << 4) | (b >> 4)), b64_char((b & 15) << 2), 61u8]
}

/// Standard base64 with padding, as RFC 4648 defines it.
pub open spec fn spec_base64(data: Seq<u8>) -> Seq<u8>
    decreases data.len(),
{
    if data.len() == 0 {
        Seq::empty()
    } else if data.len() == 1 {
        b64_tail1(data[0])
    } else if data.len() == 2 {
        b64_tail2(data[0], data[1])
    } else {
        b64_group(data[0], data[1], data[2]) + spec_base64(data.subrange(3, data.len() as int))
    }
}

/// Relies on the base64 crate's `STANDARD` engine: standard alphabet with
/// padding, exactly the RFC 4648 encoding written out in `spec_base64`.
#[verifier::external_body]
fn b64_encode(data: &[u8]) -> (r: Vec<u8>)
    ensures
        r@ == spec_base64(data@),
{
    base64::Engine::encode(&base64::engine::general_purpose::STANDARD, data).into_bytes()
}

/// The bytes `Basic ` that open the header value.
pub open spec fn basic_prefix() -> Seq<u8> {
    seq![66u8, 97u8, 115u8, 105u8, 99u8, 32u8]
}

/// The value of the authorization header for a username and password:
/// `Basic ` followed by the base64 of `username:password`.
pub open spec fn spec_basic_auth(username: Seq<u8>, password: Seq<u8>) -> Seq<u8> {
    basic_prefix() + spec_base64(username + seq![58u8] + password)
}

/// Builds the `Basic` authorization header value for a credential.
pub fn basic_auth_value(username: &str, password: &str) -> (r: Vec<u8>)
    ensures
        r@ == spec_basic_auth(username.spec_bytes(), password.spec_bytes()),
{
    let mut creds: Vec<u8> = slice_to_vec(username.as_bytes());
    creds.push(58);
    let mut pass: Vec<u8> = slice_to_vec(password.as_bytes());
    creds.append(&mut pass);
    let mut encoded = b64_encode(creds.as_slice());
    let mut out: Vec<u8> = Vec::new();
    out.push(66);
    out.push(97);
    out.push(115);
    out.push(105);
    out.push(99);
    out.push(32);
    out.append(&mut encoded);
    proof {
        assert(creds@ =~= username.spec_bytes() + seq![58u8] + password.spec_bytes());
        assert(out@ =~= spec_basic_auth(username.spec_bytes(), password.spec_bytes()));
    }
    out
}

} // verus!
