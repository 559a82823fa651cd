//! One raster image inside a TEX container: dimensions, color format, the
//! decompressed pixel bytes, and the image's position within its container.

use vstd::prelude::*;

use crate::color::{spec_bytes_per_pixel, ColorFormat};

verus! {

/// A decoded sub-image. `raw_image` holds exactly
/// `width * height * bytes_per_pixel(color_format)` bytes; the decode path
/// enforces that, it is not merely assumed.
#[derive(Debug)]
pub struct TexSubImage {
    /// Position within the parent container; 0 in a single-image container.
    pub index: usize,
    /// Width in pixels.
    pub width: u32,
    /// Height in pixels.
    pub height: u32,
    /// Channel layout of `raw_image`.
    pub color_format: ColorFormat,
    /// The decompressed pixel bytes, rows stored bottom-to-top.
    pub raw_image: Vec<u8>,
}

/// The mathematical content of a `TexSubImage`.
pub ghost struct SubImageView {
    pub index: nat,
    pub width: u32,
    pub height: u32,
    pub color_format: ColorFormat,
    pub pixels: Seq<u8>,
}

impl View for TexSubImage {
    type V = SubImageView;

    open spec fn view(&self) -> SubImageView {
        SubImageView {
            index: self.index as nat,
            width: self.width,
            height: self.height,
            color_format: self.color_format,
            pixels: self.raw_image@,
        }
    }
}

/// The exact pixel buffer size a `width` by `height` image of format `f`
/// must decompress to.
pub open spec fn size_of_image(width: u32, height: u32, f: ColorFormat) -> nat {
    width as nat * height as nat * spec_bytes_per_pixel(f)
}

/// A sub-image whose buffer length matches its declared dimensions.
pub open spec fn sub_image_sized(img: SubImageView) -> bool {
    img.pixels.len() == size_of_image(img.width, img.height, img.color_format)
}

/// The views of a sequence of sub-images, in order.
pub open spec fn views_of(s: Seq<TexSubImage>) -> Seq<SubImageView> {
    s.map_values(|img: TexSubImage| img@)
}

impl TexSubImage {
    /// A copy of this sub-image with the same content.
    pub fn duplicate(&self) -> (r: TexSubImage)
        ensures
            r@ == self@,
    {
        let pixels = clone_bytes(&self.raw_image);
        TexSubImage {
            index: self.index,
            width: self.width,
            height: self.height,
            color_format: self.color_format,
            raw_image: pixels,
        }
    }
}

/// A copy of a byte vector, element for element.
fn clone_bytes(v: &Vec<u8>) -> (r: Vec<u8>)
    ensures
        r@ == v@,
{
    let r = v.clone();
    proof {
        assert(r@ =~= v@);
    }
    r
}

} // verus!
