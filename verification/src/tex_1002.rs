//! The single-image container variant (version tag 1002): one entry with a
//! 40-byte reserved region, yielding exactly one sub-image with index 0.

use vstd::prelude::*;

use crate::error::TexError;
use crate::reader::TexReader;
use crate::subimage::{sub_image_sized, views_of, SubImageView, TexSubImage};
use crate::wire::{decode_entry, lemma_entry_shape, parse_entry, RESERVED_SINGLE};

verus! {

/// What decoding a single-image body (the stream behind the version tag)
/// yields: one sub-image with index 0, or the aborting error.
pub open spec fn parse_single(b: Seq<u8>) -> Result<Seq<SubImageView>, TexError> {
    match parse_entry(b, RESERVED_SINGLE as int, 0) {
        Ok(img) => Ok(seq![img]),
        Err(e) => Err(e),
    }
}

/// Law: a successfully decoded single-image body holds exactly one
/// sub-image, with index 0 and a pixel buffer of exactly
/// `width * height * bytes_per_pixel` bytes.
pub proof fn lemma_single_shape(b: Seq<u8>)
    ensures
        parse_single(b) matches Ok(s) ==> s.len() == 1 && s[0].index == 0 && sub_image_sized(
            s[0],
        ),
{
    lemma_entry_shape(b, RESERVED_SINGLE as int, 0);
}

/// A decoded single-image container.
#[derive(Debug)]
pub struct Tex1002 {
    image: TexSubImage,
}

impl View for Tex1002 {
    type V = Seq<SubImageView>;

    closed spec fn view(&self) -> Seq<SubImageView> {
        seq![self.image@]
    }
}

impl Tex1002 {
    /// Decodes the body of a version-1002 container from the reader. The
    /// result holds exactly the sub-images `parse_single` names, and any
    /// failure aborts the decode with exactly the error it names.
    pub fn decode(r: &mut TexReader) -> (res: Result<Tex1002, TexError>)
        requires
            old(r).wf(),
        ensures
            final(r).wf(),
            match res {
                Ok(t) => parse_single(old(r).remaining()) == Ok::<Seq<SubImageView>, TexError>(
                    t@,
                ),
                Err(e) => parse_single(old(r).remaining()) == Err::<Seq<SubImageView>, TexError>(
                    e,
                ),
            },
    {
        match decode_entry(r, RESERVED_SINGLE, 0) {
            Ok(img) => Ok(Tex1002 { image: img }),
            Err(e) => Err(e),
        }
    }

    /// The container's sub-images in order: exactly one, with index 0.
    pub fn images(&self) -> (v: Vec<TexSubImage>)
        ensures
            views_of(v@) == self@,
    {
        let mut v: Vec<TexSubImage> = Vec::new();
        v.push(self.image.duplicate());
        proof {
            assert(views_of(v@) =~= self@);
        }
        v
    }

    /// How many sub-images the container declares: always 1.
    pub fn count(&self) -> (n: usize)
        ensures
            n == self@.len(),
    {
        1
    }
}

} // verus!
