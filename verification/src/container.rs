//! The container decoder dispatch: one 32-bit little-endian version tag is
//! read from the front of the stream and routed to the matching variant
//! decoder. The dispatch table is closed: 1002 is the single-image variant,
//! 1005 the multi-image variant, and anything else is rejected after that
//! one read, with no further bytes consumed.

use vstd::bytes::spec_u32_from_le_bytes;
use vstd::prelude::*;

use crate::error::TexError;
use crate::reader::TexReader;
use crate::subimage::{sub_image_sized, views_of, SubImageView, TexSubImage};
use crate::tex_1002::{lemma_single_shape, parse_single, Tex1002};
use crate::tex_1005::{lemma_multi_shape, parse_multi, Tex1005};

verus! {

/// The version tag of the single-image variant.
pub const VERSION_SINGLE: u32 = 1002;

/// The version tag of the multi-image variant.
pub const VERSION_MULTI: u32 = 1005;

/// Whether a version tag names a variant this decoder knows.
pub open spec fn recognized_version(v: u32) -> bool {
    v == VERSION_SINGLE || v == VERSION_MULTI
}

/// What decoding a whole TEX stream yields: the ordered sub-images of the
/// variant the leading version tag names, or the aborting error.
pub open spec fn parse_container(b: Seq<u8>) -> Result<Seq<SubImageView>, TexError> {
    if b.len() < 4 {
        Err(TexError::TruncatedOrMalformedStream)
    } else {
        let version = spec_u32_from_le_bytes(b.subrange(0, 4));
        if version == VERSION_SINGLE {
            parse_single(b.skip(4))
        } else if version == VERSION_MULTI {
            parse_multi(b.skip(4))
        } else {
            Err(TexError::UnrecognizedVersion(version))
        }
    }
}

/// Law: every sub-image of a successfully decoded container carries its
/// stream position as its index and a pixel buffer of exactly its expected
/// size, and a single-image container holds exactly one sub-image.
pub proof fn lemma_container_shape(b: Seq<u8>)
    ensures
        parse_container(b) matches Ok(s) ==> {
            &&& forall|j: int|
                0 <= j < s.len() ==> (#[trigger] s[j]).index == j && sub_image_sized(s[j])
            &&& spec_u32_from_le_bytes(b.subrange(0, 4)) == VERSION_SINGLE ==> s.len() == 1
        },
{
    if b.len() >= 4 {
        let version = spec_u32_from_le_bytes(b.subrange(0, 4));
        if version == VERSION_SINGLE {
            lemma_single_shape(b.skip(4));
        } else if version == VERSION_MULTI {
            lemma_multi_shape(b.skip(4));
        }
    }
}

/// A fully decoded TEX container of either variant.
#[derive(Debug)]
pub enum TexFile {
    /// A version-1002 container.
    Single(Tex1002),
    /// A version-1005 container.
    Multi(Tex1005),
}

impl View for TexFile {
    type V = Seq<SubImageView>;

    open spec fn view(&self) -> Seq<SubImageView> {
        match self {
            TexFile::Single(t) => t@,
            TexFile::Multi(t) => t@,
        }
    }
}

impl TexFile {
    /// The held variant's own invariant holds.
    pub open spec fn wf(self) -> bool {
        match self {
            TexFile::Single(_) => true,
            TexFile::Multi(t) => t.wf(),
        }
    }

    /// Decodes one TEX stream from the reader. On success the result holds
    /// exactly the sub-images `parse_container` names; on failure the decode
    /// aborts with exactly the error it names, and an unrecognized version
    /// tag is rejected after the 4 tag bytes with nothing further consumed.
    pub fn decode(r: &mut TexReader) -> (res: Result<TexFile, TexError>)
        requires
            old(r).wf(),
        ensures
            final(r).wf(),
            match res {
                Ok(t) => t.wf() && parse_container(old(r).remaining()) == Ok::<
                    Seq<SubImageView>,
                    TexError,
                >(t@),
                Err(e) => parse_container(old(r).remaining()) == Err::<
                    Seq<SubImageView>,
                    TexError,
                >(e) && (old(r).remaining().len() >= 4 && !recognized_version(
                    spec_u32_from_le_bytes(old(r).remaining().subrange(0, 4)),
                ) ==> final(r).remaining() == old(r).remaining().skip(4)),
            },
    {
        let ghost b = old(r).remaining();

        let version: u32 = match r.read_u32_le() {
            Ok(v) => v,
            Err(e) => {
                return Err(e);
            },
        };
        proof {
            assert(b.take(4) =~= b.subrange(0, 4));
        }

        if version == VERSION_SINGLE {
            match Tex1002::decode(r) {
                Ok(t) => Ok(TexFile::Single(t)),
                Err(e) => Err(e),
            }
        } else if version == VERSION_MULTI {
            match Tex1005::decode(r) {
                Ok(t) => Ok(TexFile::Multi(t)),
                Err(e) => Err(e),
            }
        } else {
            Err(TexError::UnrecognizedVersion(version))
        }
    }

    /// The container's sub-images, in stream order.
    pub fn images(&self) -> (v: Vec<TexSubImage>)
        ensures
            views_of(v@) == self@,
    {
        match self {
            TexFile::Single(t) => t.images(),
            TexFile::Multi(t) => t.images(),
        }
    }

    /// How many sub-images the container declares; equals how many it holds.
    pub fn count(&self) -> (n: usize)
        requires
            self.wf(),
        ensures
            n == self@.len(),
    {
        match self {
            TexFile::Single(t) => t.count(),
            TexFile::Multi(t) => t.count(),
        }
    }
}

} // verus!
