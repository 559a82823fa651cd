//! The compression adapter. LZ4 block decompression itself is done by
//! `lz4_flex`; this module states what that call returns and proves the
//! exact-size check on top of it: a payload either decompresses to precisely
//! the expected number of bytes or the decode fails, never a silently
//! truncated or padded buffer.

use vstd::prelude::*;

use crate::error::TexError;

verus! {

/// The error type of `lz4_flex`'s block codec, carried through opaquely.
#[verifier::external_type_specification]
#[verifier::external_body]
pub struct ExDecompressError(lz4_flex::block::DecompressError);

/// What an LZ4 block payload holds: the decompressed bytes, or `None` where
/// the payload is not a well-formed block. The content is a function of the
/// payload bytes alone.
pub uninterp spec fn lz4_block_content(input: Seq<u8>) -> Option<Seq<u8>>;

/// Relies on lz4_flex::block::decompress: with an output buffer of
/// `min_uncompressed_size` bytes it returns the full decompressed content
/// when that content fits, and an error when the payload is malformed or its
/// content is larger than the buffer; the checked decoder never panics.
pub assume_specification [ lz4_flex::block::decompress ](
    input: &[u8],
    min_uncompressed_size: usize,
) -> (r: Result<Vec<u8>, lz4_flex::block::DecompressError>)
    ensures
        match r {
            Ok(v) => lz4_block_content(input@) == Some(v@) && v@.len()
                <= min_uncompressed_size,
            Err(_) => match lz4_block_content(input@) {
                Some(s) => s.len() > min_uncompressed_size,
                None => true,
            },
        },
;

/// Decompresses an LZ4 block payload to exactly `expected` bytes. Any
/// mismatch between the payload's true content size and `expected` is a
/// `DecompressionFailure`; the result is never truncated or padded.
pub fn decompress_exact(input: &[u8], expected: usize) -> (r: Result<Vec<u8>, TexError>)
    ensures
        match r {
            Ok(v) => v@.len() == expected && lz4_block_content(input@) == Some(v@),
            Err(e) => e == TexError::DecompressionFailure && match lz4_block_content(input@) {
                Some(s) => s.len() != expected,
                None => true,
            },
        },
{
    match lz4_flex::block::decompress(input, expected) {
        Ok(v) => {
            if v.len() == expected {
                Ok(v)
            } else {
                Err(TexError::DecompressionFailure)
            }
        },
        Err(_) => Err(TexError::DecompressionFailure),
    }
}

} // verus!
