//! Output formats a caller can request for streamed records.

use vstd::prelude::*;

verus! {

/// The encoding the server uses for the records of a response stream.
#[derive(Clone, Copy, Debug, PartialEq, Eq, Hash, Structural)]
pub enum Format {
    /// Plain JSON
    Json,
    /// JSON Lines: one record per line
    JsonStream,
    /// Arrow IPC format
    Arrow,
    /// Arrow IPC stream format
    ArrowStream,
}

impl Default for Format {
    fn default() -> (r: Self)
        ensures
            r == Format::JsonStream,
    {
        Format::JsonStream
    }
}

/// Wire code of a format, one byte per variant.
pub open spec fn spec_format_code(f: Format) -> u8 {
    match f {
        Format::Json => 0,
        Format::JsonStream => 1,
        Format::Arrow => 2,
        Format::ArrowStream => 3,
    }
}

/// Whether a byte names a format.
pub open spec fn format_code_valid(b: u8) -> bool {
    b == 0 || b == 1 || b == 2 || b == 3
}

/// The format named by a byte; meaningful only when `format_code_valid(b)`.
pub open spec fn spec_format_of_code(b: u8) -> Format {
    if b == 0 {
        Format::Json
    } else if b == 1 {
        Format::JsonStream
    } else if b == 2 {
        Format::Arrow
    } else {
        Format::ArrowStream
    }
}

impl Format {
    /// Wire code of this format.
    pub fn code(&self) -> (r: u8)
        ensures
            r == spec_format_code(*self),
            format_code_valid(r),
            spec_format_of_code(r) == *self,
    {
        match self {
            Format::Json => 0,
            Format::JsonStream => 1,
            Format::Arrow => 2,
            Format::ArrowStream => 3,
        }
    }

    /// The format a wire byte names, if any.
    pub fn from_code(b: u8) -> (r: Option<Format>)
        ensures
            r is Some <==> format_code_valid(b),
            r matches Some(f) ==> f == spec_format_of_code(b) && spec_format_code(f) == b,
    {
        match b {
            0 => Some(Format::Json),
            1 => Some(Format::JsonStream),
            2 => Some(Format::Arrow),
            3 => Some(Format::ArrowStream),
            _ => None,
        }
    }

    /// Name of the format as it appears in request query strings.
    pub fn as_str(&self) -> (r: &'static str)
        ensures
            r@ == spec_format_name(*self),
    {
        match self {
            Format::Json => "json",
            Format::JsonStream => "json_stream",
            Format::Arrow => "arrow",
            Format::ArrowStream => "arrow_stream",
        }
    }
}

/// Query-string name of a format.
pub open spec fn spec_format_name(f: Format) -> Seq<char> {
    match f {
        Format::Json => "json"@,
        Format::JsonStream => "json_stream"@,
        Format::Arrow => "arrow"@,
        Format::ArrowStream => "arrow_stream"@,
    }
}

} // verus!
