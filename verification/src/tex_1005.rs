//! The multi-image container variant (version tag 1005): a leading count,
//! then that many entries, each with a 52-byte reserved region. Sub-images
//! carry their position in stream order; the first failing entry aborts the
//! whole decode.

use vstd::bytes::spec_u32_from_le_bytes;
use vstd::prelude::*;

use crate::error::TexError;
use crate::reader::TexReader;
use crate::subimage::{sub_image_sized, views_of, SubImageView, TexSubImage};
use crate::wire::{
    decode_entry, entry_len, lemma_entries_shape, parse_entries, with_prefix, RESERVED_MULTI,
};

verus! {

/// What decoding a multi-image body (the stream behind the version tag)
/// yields: as many sub-images as the leading count declares, in stream
/// order, or the aborting error.
pub open spec fn parse_multi(b: Seq<u8>) -> Result<Seq<SubImageView>, TexError> {
    if b.len() < 4 {
        Err(TexError::TruncatedOrMalformedStream)
    } else {
        parse_entries(
            b.skip(4),
            spec_u32_from_le_bytes(b.subrange(0, 4)) as nat,
            0,
            RESERVED_MULTI as int,
        )
    }
}

/// Law: a successfully decoded multi-image body holds exactly as many
/// sub-images as its leading count declares, with indices 0, 1, ... in
/// stream order, each with a pixel buffer of exactly
/// `width * height * bytes_per_pixel` bytes.
pub proof fn lemma_multi_shape(b: Seq<u8>)
    ensures
        parse_multi(b) matches Ok(s) ==> {
            &&& b.len() >= 4
            &&& s.len() == spec_u32_from_le_bytes(b.subrange(0, 4))
            &&& forall|j: int|
                0 <= j < s.len() ==> (#[trigger] s[j]).index == j && sub_image_sized(s[j])
        },
{
    if b.len() >= 4 {
        lemma_entries_shape(
            b.skip(4),
            spec_u32_from_le_bytes(b.subrange(0, 4)) as nat,
            0,
            RESERVED_MULTI as int,
        );
    }
}

/// A decoded multi-image container: the declared count and the sub-images.
#[derive(Debug)]
pub struct Tex1005 {
    count: usize,
    images: Vec<TexSubImage>,
}

impl View for Tex1005 {
    type V = Seq<SubImageView>;

    closed spec fn view(&self) -> Seq<SubImageView> {
        views_of(self.images@)
    }
}

impl Tex1005 {
    /// The declared count matches how many sub-images are actually held.
    pub closed spec fn wf(self) -> bool {
        self.count == self.images@.len()
    }

    /// Decodes the body of a version-1005 container from the reader. The
    /// result holds exactly the sub-images `parse_multi` names, and any
    /// failure aborts the whole decode with exactly the error it names: no
    /// partial container is returned.
    #[verifier::loop_isolation(false)]
    pub fn decode(r: &mut TexReader) -> (res: Result<Tex1005, TexError>)
        requires
            old(r).wf(),
        ensures
            final(r).wf(),
            match res {
                Ok(t) => t.wf() && parse_multi(old(r).remaining()) == Ok::<
                    Seq<SubImageView>,
                    TexError,
                >(t@),
                Err(e) => parse_multi(old(r).remaining()) == Err::<Seq<SubImageView>, TexError>(
                    e,
                ),
            },
    {
        let ghost b = old(r).remaining();

        let count_u32: u32 = match r.read_u32_le() {
            Ok(v) => v,
            Err(e) => {
                return Err(e);
            },
        };
        proof {
            assert(b.take(4) =~= b.subrange(0, 4));
        }
        let count: usize = count_u32 as usize;
        let ghost b0 = r.remaining();

        let mut images: Vec<TexSubImage> = Vec::new();
        let mut i: usize = 0;
        proof {
            assert(views_of(images@) =~= Seq::<SubImageView>::empty());
            match parse_entries(b0, count as nat, 0, RESERVED_MULTI as int) {
                Ok(s) => {
                    assert(Seq::<SubImageView>::empty() + s =~= s);
                },
                Err(_) => {},
            }
        }
        while i < count
            invariant
                r.wf(),
                i <= count,
                images@.len() == i as int,
                with_prefix(
                    views_of(images@),
                    parse_entries(
                        r.remaining(),
                        (count - i) as nat,
                        i as nat,
                        RESERVED_MULTI as int,
                    ),
                ) == parse_entries(b0, count as nat, 0, RESERVED_MULTI as int),
            decreases count - i,
        {
            let ghost rem = r.remaining();
            let img: TexSubImage = match decode_entry(r, RESERVED_MULTI, i) {
                Ok(im) => im,
                Err(e) => {
                    return Err(e);
                },
            };
            proof {
                let reserved = RESERVED_MULTI as int;
                let rest = parse_entries(
                    rem.skip(entry_len(rem, reserved)),
                    (count - i - 1) as nat,
                    (i + 1) as nat,
                    reserved,
                );
                let prefix = views_of(images@);
                assert(views_of(images@.push(img)) =~= prefix + seq![img@]);
                match rest {
                    Ok(s) => {
                        assert((prefix + seq![img@]) + s =~= prefix + (seq![img@] + s));
                    },
                    Err(_) => {},
                }
            }
            images.push(img);
            i = i + 1;
        }
        proof {
            assert(views_of(images@) + Seq::<SubImageView>::empty() =~= views_of(images@));
        }
        Ok(Tex1005 { count, images })
    }

    /// The container's sub-images, in stream order.
    pub fn images(&self) -> (v: Vec<TexSubImage>)
        ensures
            views_of(v@) == self@,
    {
        let mut v: Vec<TexSubImage> = Vec::new();
        let mut i: usize = 0;
        let n: usize = self.images.len();
        while i < n
            invariant
                i <= n,
                n == self.images@.len(),
                v@.len() == i as int,
                forall|j: int| 0 <= j < i ==> (#[trigger] v@[j])@ == self.images@[j]@,
            decreases n - i,
        {
            v.push(self.images[i].duplicate());
            i = i + 1;
        }
        proof {
            assert(views_of(v@) =~= self@);
        }
        v
    }

    /// How many sub-images the container declares; equals how many it holds.
    pub fn count(&self) -> (n: usize)
        requires
            self.wf(),
        ensures
            n == self@.len(),
    {
        self.count
    }
}

} // verus!
