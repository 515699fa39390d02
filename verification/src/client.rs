//! The client-facing handle, and the small decoders a caller's stream
//! runs through.

use vstd::prelude::*;

verus! {

use vstd::bytes::{spec_u64_from_le_bytes, u64_from_le_bytes};
use crate::error::{Error, WsResult};

/// Typed access to the service through some provider.
pub struct Client<T> {
    inner: T,
}

impl<T> Client<T> {
    /// The provider the client wraps.
    pub closed spec fn spec_provider(&self) -> T {
        self.inner
    }

    /// Wraps a provider.
    pub fn new(inner: T) -> (r: Self)
        ensures
            r.spec_provider() == inner,
    {
        Self { inner }
    }

    /// The provider the client wraps.
    pub fn provider(&self) -> (r: &T)
        ensures
            *r == self.spec_provider(),
    {
        &self.inner
    }
}

/// Whether a caller's stream keeps a delivered item: empty payload chunks
/// are dropped silently, everything else passes through.
pub fn keep_chunk(item: &WsResult) -> (r: bool)
    ensures
        r == match item {
            Result::Ok(d) => d@.len() > 0,
            Result::Err(_) => true,
        },
{
    match item {
        Ok(d) => d.len() > 0,
        Err(_) => true,
    }
}

/// Decodes the single chunk of a height query: exactly eight bytes,
/// little-endian. Anything else is a malformed response.
pub fn decode_height(data: &[u8]) -> (r: Result<u64, Error>)
    ensures
        r is Ok <==> data@.len() == 8,
        r matches Ok(v) ==> v == spec_u64_from_le_bytes(data@),
        r matches Err(e) ==> e == Error::UnexpectedMessageFormat,
{
    if data.len() == 8 {
        Ok(u64_from_le_bytes(data))
    } else {
        Err(Error::UnexpectedMessageFormat)
    }
}

} // verus!
