//! The errors a TEX decode can end in. Every failure aborts the whole decode:
//! no partial container is ever returned.

use vstd::prelude::*;

verus! {

/// Why a decode failed. `UnrecognizedVersion` and `UnknownColorFormat` carry
/// the offending on-disk tag.
#[derive(Debug, Clone, Copy, PartialEq, Eq, Structural)]
pub enum TexError {
    /// The leading 32-bit tag matches no known container variant.
    UnrecognizedVersion(u32),
    /// A per-sub-image color format tag is outside the recognized set.
    UnknownColorFormat(u32),
    /// A required read asked for more bytes than the stream still holds.
    TruncatedOrMalformedStream,
    /// The compressed payload could not be decompressed, or its decompressed
    /// size differs from the size the header promised.
    DecompressionFailure,
}

impl TexError {
    /// A human-readable cause, for reporting at the process boundary.
    pub fn describe(&self) -> (s: &'static str)
        ensures
            s@ == describe_error(*self),
    {
        match self {
            TexError::UnrecognizedVersion(_) => "unrecognized container version",
            TexError::UnknownColorFormat(_) => "unknown color format",
            TexError::TruncatedOrMalformedStream => "truncated or malformed stream",
            TexError::DecompressionFailure => "decompression failed or size mismatch",
        }
    }
}

/// The wording `describe` answers with for each error.
pub open spec fn describe_error(e: TexError) -> Seq<char> {
    match e {
        TexError::UnrecognizedVersion(_) => "unrecognized container version"@,
        TexError::UnknownColorFormat(_) => "unknown color format"@,
        TexError::TruncatedOrMalformedStream => "truncated or malformed stream"@,
        TexError::DecompressionFailure => "decompression failed or size mismatch"@,
    }
}

} // verus!
