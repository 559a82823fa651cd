//! The byte layout of a TEX container, written down as specification
//! functions, and the verified decoder for one sub-image entry. Both format
//! variants share the entry shape and differ only in how many reserved bytes
//! they skip and whether the entry repeats.
//!
//! Entry layout, all integers little-endian: width (4 bytes), height (4),
//! color format tag (4), a reserved region that is skipped verbatim, the
//! compressed payload length (4), then that many payload bytes. The payload
//! must decompress to exactly `width * height * bytes_per_pixel` bytes.

use vstd::bytes::spec_u32_from_le_bytes;
use vstd::prelude::*;

use crate::color::{format_of_tag, ColorFormat};
use crate::error::TexError;
use crate::lz4::{decompress_exact, lz4_block_content};
use crate::reader::TexReader;
use crate::subimage::{size_of_image, sub_image_sized, SubImageView, TexSubImage};

verus! {

/// Reserved bytes inside a single-image (version 1002) entry.
pub const RESERVED_SINGLE: usize = 40;

/// Reserved bytes inside a multi-image (version 1005) entry.
pub const RESERVED_MULTI: usize = 52;

/// The payload length field of the entry at the front of `b`.
pub open spec fn entry_payload_len(b: Seq<u8>, reserved: int) -> u32 {
    spec_u32_from_le_bytes(b.subrange(12 + reserved, 16 + reserved))
}

/// How many bytes of `b` the entry at its front occupies.
pub open spec fn entry_len(b: Seq<u8>, reserved: int) -> int {
    16 + reserved + entry_payload_len(b, reserved) as int
}

/// What decoding one entry from the front of `b` yields: the sub-image, with
/// `index` as its position, or the error that aborts the decode. Reads fail
/// in stream order: dimensions and tag first, then the tag is resolved, then
/// the reserved region and the payload, and last the payload is decompressed
/// and held to the exact expected size.
pub open spec fn parse_entry(b: Seq<u8>, reserved: int, index: nat) -> Result<
    SubImageView,
    TexError,
> {
    if b.len() < 12 {
        Err(TexError::TruncatedOrMalformedStream)
    } else {
        let width = spec_u32_from_le_bytes(b.subrange(0, 4));
        let height = spec_u32_from_le_bytes(b.subrange(4, 8));
        let tag = spec_u32_from_le_bytes(b.subrange(8, 12));
        match format_of_tag(tag) {
            None => Err(TexError::UnknownColorFormat(tag)),
            Some(color_format) => {
                if b.len() < 16 + reserved {
                    Err(TexError::TruncatedOrMalformedStream)
                } else {
                    let plen = entry_payload_len(b, reserved) as int;
                    if b.len() < 16 + reserved + plen {
                        Err(TexError::TruncatedOrMalformedStream)
                    } else {
                        let payload = b.subrange(16 + reserved, 16 + reserved + plen);
                        let expected = size_of_image(width, height, color_format);
                        if expected > usize::MAX as nat {
                            Err(TexError::DecompressionFailure)
                        } else {
                            match lz4_block_content(payload) {
                                Some(pixels) => if pixels.len() == expected {
                                    Ok(
                                        SubImageView {
                                            index,
                                            width,
                                            height,
                                            color_format,
                                            pixels,
                                        },
                                    )
                                } else {
                                    Err(TexError::DecompressionFailure)
                                },
                                None => Err(TexError::DecompressionFailure),
                            }
                        }
                    }
                }
            },
        }
    }
}

/// What decoding `n` consecutive entries from the front of `b` yields, the
/// first one carrying `start` as its index. The first failing entry aborts
/// the whole sequence with its error.
pub open spec fn parse_entries(b: Seq<u8>, n: nat, start: nat, reserved: int) -> Result<
    Seq<SubImageView>,
    TexError,
>
    decreases n,
{
    if n == 0 {
        Ok(Seq::empty())
    } else {
        match parse_entry(b, reserved, start) {
            Err(e) => Err(e),
            Ok(img) => match parse_entries(
                b.skip(entry_len(b, reserved)),
                (n - 1) as nat,
                start + 1,
                reserved,
            ) {
                Err(e) => Err(e),
                Ok(rest) => Ok(seq![img] + rest),
            },
        }
    }
}

/// `rest` with `prefix` put in front of its success value.
pub open spec fn with_prefix(prefix: Seq<SubImageView>, rest: Result<Seq<SubImageView>, TexError>)
    -> Result<Seq<SubImageView>, TexError> {
    match rest {
        Ok(s) => Ok(prefix + s),
        Err(e) => Err(e),
    }
}

/// Law: a successfully parsed entry carries exactly the index it was asked
/// for, and its pixel buffer length equals width * height * bytes per pixel.
pub proof fn lemma_entry_shape(b: Seq<u8>, reserved: int, index: nat)
    ensures
        parse_entry(b, reserved, index) matches Ok(img) ==> img.index == index
            && sub_image_sized(img),
{
}

/// Law: a successful parse of `n` entries yields exactly `n` sub-images, in
/// stream order with indices `start`, `start + 1`, ..., each with a pixel
/// buffer of exactly its expected size.
pub proof fn lemma_entries_shape(b: Seq<u8>, n: nat, start: nat, reserved: int)
    ensures
        parse_entries(b, n, start, reserved) matches Ok(s) ==> {
            &&& s.len() == n
            &&& forall|j: int|
                0 <= j < n ==> (#[trigger] s[j]).index == start + j && sub_image_sized(s[j])
        },
    decreases n,
{
    if n > 0 {
        match parse_entry(b, reserved, start) {
            Ok(img) => {
                lemma_entry_shape(b, reserved, start);
                lemma_entries_shape(
                    b.skip(entry_len(b, reserved)),
                    (n - 1) as nat,
                    start + 1,
                    reserved,
                );
            },
            Err(_) => {},
        }
    }
}

/// Law: the first failing entry aborts a whole multi-entry parse with its
/// own error; later entries are never consulted.
pub proof fn lemma_entries_abort_on_first_error(
    b: Seq<u8>,
    n: nat,
    start: nat,
    reserved: int,
    e: TexError,
)
    requires
        n > 0,
        parse_entry(b, reserved, start) == Err::<SubImageView, TexError>(e),
    ensures
        parse_entries(b, n, start, reserved) == Err::<Seq<SubImageView>, TexError>(e),
{
}

/// Decodes one entry from the reader, giving the produced sub-image the
/// position `index`. On success the reader stands right behind the entry; on
/// failure the decode is aborted with exactly the error `parse_entry` names.
pub fn decode_entry(r: &mut TexReader, reserved: usize, index: usize) -> (res: Result<
    TexSubImage,
    TexError,
>)
    requires
        old(r).wf(),
    ensures
        final(r).wf(),
        match res {
            Ok(img) => parse_entry(old(r).remaining(), reserved as int, index as nat)
                == Ok::<SubImageView, TexError>(img@) && final(r).remaining() == old(
                r,
            ).remaining().skip(entry_len(old(r).remaining(), reserved as int)),
            Err(e) => parse_entry(old(r).remaining(), reserved as int, index as nat)
                == Err::<SubImageView, TexError>(e),
        },
{
    let ghost b = old(r).remaining();

    let width: u32 = match r.read_u32_le() {
        Ok(v) => v,
        Err(e) => {
            return Err(e);
        },
    };
    proof {
        assert(b.take(4) =~= b.subrange(0, 4));
    }

    let height: u32 = match r.read_u32_le() {
        Ok(v) => v,
        Err(e) => {
            return Err(e);
        },
    };
    proof {
        assert(b.skip(4).take(4) =~= b.subrange(4, 8));
        assert(b.skip(4).skip(4) =~= b.skip(8));
    }

    let tag: u32 = match r.read_u32_le() {
        Ok(v) => v,
        Err(e) => {
            return Err(e);
        },
    };
    proof {
        assert(b.skip(8).take(4) =~= b.subrange(8, 12));
        assert(b.skip(8).skip(4) =~= b.skip(12));
    }

    let color_format: ColorFormat = match ColorFormat::from_tag(tag) {
        Ok(f) => f,
        Err(e) => {
            return Err(e);
        },
    };

    match r.skip_bytes(reserved) {
        Ok(_) => (),
        Err(e) => {
            return Err(e);
        },
    };
    proof {
        assert(b.skip(12).skip(reserved as int) =~= b.skip(12 + reserved as int));
    }

    let plen: u32 = match r.read_u32_le() {
        Ok(v) => v,
        Err(e) => {
            return Err(e);
        },
    };
    proof {
        assert(b.skip(12 + reserved as int).take(4) =~= b.subrange(
            12 + reserved as int,
            16 + reserved as int,
        ));
        assert(b.skip(12 + reserved as int).skip(4) =~= b.skip(16 + reserved as int));
    }

    let payload: Vec<u8> = match r.read_bytes(plen as usize) {
        Ok(v) => v,
        Err(e) => {
            return Err(e);
        },
    };
    proof {
        assert(b.skip(16 + reserved as int).take(plen as int) =~= b.subrange(
            16 + reserved as int,
            16 + reserved as int + plen as int,
        ));
        assert(b.skip(16 + reserved as int).skip(plen as int) =~= b.skip(
            entry_len(b, reserved as int),
        ));
    }

    let bpp: u32 = color_format.bytes_per_pixel();
    proof {
        assert((width as u128) * (height as u128) <= 0xffff_ffffu128 * 0xffff_ffffu128)
            by (nonlinear_arith)
            requires
                width as u128 <= 0xffff_ffffu128,
                height as u128 <= 0xffff_ffffu128,
        ;
        assert((width as u128) * (height as u128) * (bpp as u128) <= 0xffff_ffffu128
            * 0xffff_ffffu128 * 4) by (nonlinear_arith)
            requires
                (width as u128) * (height as u128) <= 0xffff_ffffu128 * 0xffff_ffffu128,
                bpp as u128 <= 4,
        ;
    }
    let total: u128 = (width as u128) * (height as u128) * (bpp as u128);
    proof {
        assert(total as nat == size_of_image(width, height, color_format));
    }
    if total > usize::MAX as u128 {
        return Err(TexError::DecompressionFailure);
    }
    let expected: usize = total as usize;

    let pixels: Vec<u8> = match decompress_exact(payload.as_slice(), expected) {
        Ok(v) => v,
        Err(e) => {
            return Err(e);
        },
    };

    Ok(TexSubImage { index, width, height, color_format, raw_image: pixels })
}

} // verus!
