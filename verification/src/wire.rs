//! Wire codec for the multiplexed socket.
//!
//! Every frame is `payload ++ cursor ++ trailer`. The trailer is a fixed
//! 25-byte block read from the end of the frame: a marker byte naming the
//! message kind, the 16-byte logical id, a 4-byte sequence counter, a format
//! byte, a deltas flag, and the 2-byte length of the cursor that precedes the
//! trailer. Integers are little-endian. An empty cursor means "no cursor".

use vstd::prelude::*;

verus! {

use vstd::bytes::{
    spec_u16_to_le_bytes, spec_u16_from_le_bytes, spec_u32_to_le_bytes, spec_u32_from_le_bytes,
    spec_u128_to_le_bytes, spec_u128_from_le_bytes, u16_to_le_bytes, u16_from_le_bytes,
    u32_to_le_bytes, u32_from_le_bytes, u128_to_le_bytes, u128_from_le_bytes,
    lemma_auto_spec_u16_to_from_le_bytes, lemma_auto_spec_u32_to_from_le_bytes,
    lemma_auto_spec_u128_to_from_le_bytes,
};
use vstd::slice::{slice_subrange, slice_to_vec, slice_index_get};
use crate::MsgId;
use crate::format::{Format, spec_format_code, spec_format_of_code, format_code_valid};

/// Total size of the fixed trailer block.
pub const TRAILER_LEN: usize = 25;

/// What a frame says it carries.
#[derive(Clone, Copy, Debug, PartialEq, Eq, Structural)]
pub enum Kind {
    /// Acknowledges that a subscription was created.
    Start,
    /// A chunk of the result stream, possibly bearing a new cursor.
    Continue,
    /// A chunk that carries a structured server error.
    ContinueWithError,
    /// The stream is complete; the subscription is over.
    End,
    /// A server-reported error that does not end the stream.
    Error,
    /// An outgoing request that opens a subscription.
    Subscription,
}

/// Marker byte of a kind.
pub open spec fn spec_marker_of(k: Kind) -> u8 {
    match k {
        Kind::Start => 0x01,
        Kind::Continue => 0x02,
        Kind::ContinueWithError => 0x82,
        Kind::End => 0x04,
        Kind::Error => 0x80,
        Kind::Subscription => 0x40,
    }
}

/// Whether a byte is the marker of some kind.
pub open spec fn marker_valid(m: u8) -> bool {
    m == 0x01 || m == 0x02 || m == 0x82 || m == 0x04 || m == 0x80 || m == 0x40
}

/// The kind a marker byte names; meaningful only when `marker_valid(m)`.
pub open spec fn spec_kind_of_marker(m: u8) -> Kind {
    if m == 0x01 {
        Kind::Start
    } else if m == 0x02 {
        Kind::Continue
    } else if m == 0x82 {
        Kind::ContinueWithError
    } else if m == 0x04 {
        Kind::End
    } else if m == 0x80 {
        Kind::Error
    } else {
        Kind::Subscription
    }
}

impl Kind {
    /// Marker byte of this kind.
    pub fn marker(&self) -> (r: u8)
        ensures
            r == spec_marker_of(*self),
            marker_valid(r),
            spec_kind_of_marker(r) == *self,
    {
        match self {
            Kind::Start => 0x01,
            Kind::Continue => 0x02,
            Kind::ContinueWithError => 0x82,
            Kind::End => 0x04,
            Kind::Error => 0x80,
            Kind::Subscription => 0x40,
        }
    }

    /// The kind a marker byte names, if any.
    pub fn from_marker(m: u8) -> (r: Option<Kind>)
        ensures
            r is Some <==> marker_valid(m),
            r matches Some(k) ==> k == spec_kind_of_marker(m) && spec_marker_of(k) == m,
    {
        match m {
            0x01 => Some(Kind::Start),
            0x02 => Some(Kind::Continue),
            0x82 => Some(Kind::ContinueWithError),
            0x04 => Some(Kind::End),
            0x80 => Some(Kind::Error),
            0x40 => Some(Kind::Subscription),
            _ => None,
        }
    }
}

/// The decoded trailer of a frame: everything but the payload.
#[derive(Debug, Clone)]
pub struct Header {
    /// Message kind named by the marker byte.
    pub kind: Kind,
    /// Logical id the frame belongs to.
    pub id: MsgId,
    /// Monotonic sequence counter; informational, not used for ordering.
    pub counter: u32,
    /// Requested output format (meaningful on outgoing frames).
    pub format: Format,
    /// Whether delta records were requested (meaningful on outgoing frames).
    pub deltas: bool,
    /// Resume cursor; empty means none.
    pub cursor: Vec<u8>,
}

/// A header whose cursor fits the 2-byte length field.
pub open spec fn header_valid(h: Header) -> bool {
    h.cursor@.len() <= u16::MAX
}

/// Bytes of a whole frame, given its header fields one by one: payload,
/// then cursor, then trailer.
pub open spec fn spec_frame_parts(
    kind: Kind,
    id: MsgId,
    counter: u32,
    format: Format,
    deltas: bool,
    cursor: Seq<u8>,
    payload: Seq<u8>,
) -> Seq<u8> {
    payload + cursor + seq![spec_marker_of(kind)] + spec_u128_to_le_bytes(id.0)
        + spec_u32_to_le_bytes(counter) + seq![
        spec_format_code(format),
        if deltas {
            1u8
        } else {
            0u8
        },
    ] + spec_u16_to_le_bytes(cursor.len() as u16)
}

/// Bytes of the fixed trailer block for a header.
pub open spec fn spec_trailer(h: Header) -> Seq<u8> {
    seq![spec_marker_of(h.kind)] + spec_u128_to_le_bytes(h.id.0) + spec_u32_to_le_bytes(h.counter)
        + seq![spec_format_code(h.format), if h.deltas { 1u8 } else { 0u8 }]
        + spec_u16_to_le_bytes(h.cursor@.len() as u16)
}

/// Bytes of a whole frame: payload, then cursor, then trailer.
pub open spec fn spec_frame(h: Header, payload: Seq<u8>) -> Seq<u8> {
    payload + h.cursor@ + spec_trailer(h)
}

/// The two frame renderings agree: a header's frame is the frame of its
/// fields.
pub proof fn lemma_frame_parts_agree(h: Header, payload: Seq<u8>)
    ensures
        spec_frame(h, payload) =~= spec_frame_parts(
            h.kind,
            h.id,
            h.counter,
            h.format,
            h.deltas,
            h.cursor@,
            payload,
        ),
{
}

/// Whether raw bytes parse as a frame: long enough for the trailer, a known
/// marker and format code, a boolean deltas byte, and a cursor length that
/// fits in what precedes the trailer.
pub open spec fn frame_wellformed(data: Seq<u8>) -> bool {
    let n = data.len() as int;
    &&& n >= 25
    &&& marker_valid(data[n - 25])
    &&& format_code_valid(data[n - 4])
    &&& (data[n - 3] == 0 || data[n - 3] == 1)
    &&& spec_u16_from_le_bytes(data.subrange(n - 2, n)) <= n - 25
}

/// Cursor length field of a well-formed frame.
pub open spec fn spec_frame_cursor_len(data: Seq<u8>) -> int {
    spec_u16_from_le_bytes(data.subrange(data.len() - 2, data.len() as int)) as int
}

/// Kind of a well-formed frame.
pub open spec fn spec_frame_kind(data: Seq<u8>) -> Kind {
    spec_kind_of_marker(data[data.len() - 25])
}

/// Logical id of a well-formed frame.
pub open spec fn spec_frame_id(data: Seq<u8>) -> MsgId {
    MsgId(spec_u128_from_le_bytes(data.subrange(data.len() - 24, data.len() - 8)))
}

/// Sequence counter of a well-formed frame.
pub open spec fn spec_frame_counter(data: Seq<u8>) -> u32 {
    spec_u32_from_le_bytes(data.subrange(data.len() - 8, data.len() - 4))
}

/// Format of a well-formed frame.
pub open spec fn spec_frame_format(data: Seq<u8>) -> Format {
    spec_format_of_code(data[data.len() - 4])
}

/// Deltas flag of a well-formed frame.
pub open spec fn spec_frame_deltas(data: Seq<u8>) -> bool {
    data[data.len() - 3] == 1
}

/// Cursor bytes of a well-formed frame.
pub open spec fn spec_frame_cursor(data: Seq<u8>) -> Seq<u8> {
    data.subrange(data.len() - 25 - spec_frame_cursor_len(data), data.len() - 25)
}

/// Payload bytes of a well-formed frame.
pub open spec fn spec_frame_payload(data: Seq<u8>) -> Seq<u8> {
    data.subrange(0, data.len() - 25 - spec_frame_cursor_len(data))
}

/// The header fields and payload of a decoded frame match the raw bytes.
pub open spec fn decodes_to(data: Seq<u8>, h: Header, payload: Seq<u8>) -> bool {
    &&& h.kind == spec_frame_kind(data)
    &&& h.id == spec_frame_id(data)
    &&& h.counter == spec_frame_counter(data)
    &&& h.format == spec_frame_format(data)
    &&& h.deltas == spec_frame_deltas(data)
    &&& h.cursor@ == spec_frame_cursor(data)
    &&& payload == spec_frame_payload(data)
}

/// Encodes a header and payload into frame bytes. Deterministic and free of
/// side effects; `decode_frame` inverts it exactly.
pub fn encode_frame(h: &Header, payload: &[u8]) -> (r: Vec<u8>)
    requires
        h.cursor@.len() <= u16::MAX,
        payload@.len() + h.cursor@.len() + 25 <= usize::MAX,
    ensures
        r@ == spec_frame(*h, payload@),
{
    let mut out: Vec<u8> = slice_to_vec(payload);
    let mut cursor_bytes: Vec<u8> = slice_to_vec(h.cursor.as_slice());
    out.append(&mut cursor_bytes);
    out.push(h.kind.marker());
    let mut id_bytes = u128_to_le_bytes(h.id.0);
    out.append(&mut id_bytes);
    let mut counter_bytes = u32_to_le_bytes(h.counter);
    out.append(&mut counter_bytes);
    out.push(h.format.code());
    out.push(if h.deltas { 1 } else { 0 });
    let mut len_bytes = u16_to_le_bytes(h.cursor.len() as u16);
    out.append(&mut len_bytes);
    proof {
        assert(out@ =~= spec_frame(*h, payload@));
    }
    out
}

/// Splits raw bytes into a header and the remaining payload. Returns `None`
/// exactly when the bytes are not a well-formed frame; on success the input
/// is exactly the frame of the returned header and payload.
pub fn decode_frame(data: &[u8]) -> (r: Option<(Header, Vec<u8>)>)
    ensures
        r is Some <==> frame_wellformed(data@),
        r matches Some((h, p)) ==> {
            &&& decodes_to(data@, h, p@)
            &&& data@ == spec_frame(h, p@)
            &&& header_valid(h)
        },
{
    let n = data.len();
    if n < TRAILER_LEN {
        return None;
    }
    let marker = *slice_index_get(data, n - 25);
    let kind = match Kind::from_marker(marker) {
        Some(k) => k,
        None => {
            return None;
        },
    };
    let id = u128_from_le_bytes(slice_subrange(data, n - 24, n - 8));
    let counter = u32_from_le_bytes(slice_subrange(data, n - 8, n - 4));
    let format = match Format::from_code(*slice_index_get(data, n - 4)) {
        Some(f) => f,
        None => {
            return None;
        },
    };
    let deltas_byte = *slice_index_get(data, n - 3);
    if deltas_byte > 1 {
        return None;
    }
    let clen = u16_from_le_bytes(slice_subrange(data, n - 2, n)) as usize;
    if clen > n - 25 {
        return None;
    }
    let cursor = slice_to_vec(slice_subrange(data, n - 25 - clen, n - 25));
    let payload = slice_to_vec(slice_subrange(data, 0, n - 25 - clen));
    let header = Header { kind, id: MsgId(id), counter, format, deltas: deltas_byte == 1, cursor };
    proof {
        lemma_auto_spec_u16_to_from_le_bytes();
        lemma_auto_spec_u32_to_from_le_bytes();
        lemma_auto_spec_u128_to_from_le_bytes();
        assert(data@ =~= spec_frame(header, payload@));
    }
    Some((header, payload))
}

/// Round trip: decoding an encoded frame gives back the header and payload
/// that went in, field for field, with the payload bytes unchanged.
pub proof fn lemma_frame_round_trip(h: Header, payload: Seq<u8>)
    requires
        header_valid(h),
    ensures
        frame_wellformed(spec_frame(h, payload)),
        spec_frame_kind(spec_frame(h, payload)) == h.kind,
        spec_frame_id(spec_frame(h, payload)) == h.id,
        spec_frame_counter(spec_frame(h, payload)) == h.counter,
        spec_frame_format(spec_frame(h, payload)) == h.format,
        spec_frame_deltas(spec_frame(h, payload)) == h.deltas,
        spec_frame_cursor(spec_frame(h, payload)) == h.cursor@,
        spec_frame_payload(spec_frame(h, payload)) == payload,
{
    lemma_auto_spec_u16_to_from_le_bytes();
    lemma_auto_spec_u32_to_from_le_bytes();
    lemma_auto_spec_u128_to_from_le_bytes();
    let data = spec_frame(h, payload);
    let n = data.len() as int;
    assert(data.subrange(n - 2, n) =~= spec_u16_to_le_bytes(h.cursor@.len() as u16));
    assert(data.subrange(n - 24, n - 8) =~= spec_u128_to_le_bytes(h.id.0));
    assert(data.subrange(n - 8, n - 4) =~= spec_u32_to_le_bytes(h.counter));
    assert(data.subrange(n - 25 - h.cursor@.len(), n - 25) =~= h.cursor@);
    assert(data.subrange(0, payload.len() as int) =~= payload);
}

} // verus!
