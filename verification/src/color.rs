//! The color formats a TEX sub-image can use, and the resolver from the
//! on-disk tag. The wire tag for `Rgba8` is 2 even though its pixel width is
//! 4 bytes: the tag space and the byte multiplier are distinct on purpose.

use vstd::prelude::*;

use crate::error::TexError;

verus! {

/// Per-pixel channel layout of a sub-image.
#[derive(Debug, Clone, Copy, PartialEq, Eq, Structural)]
pub enum ColorFormat {
    /// One gray channel, 1 byte per pixel. Wire tag 1.
    Gray8,
    /// Red, green, blue, alpha, 4 bytes per pixel. Wire tag 2.
    Rgba8,
}

/// How many bytes one pixel of format `f` occupies.
pub open spec fn spec_bytes_per_pixel(f: ColorFormat) -> nat {
    match f {
        ColorFormat::Gray8 => 1,
        ColorFormat::Rgba8 => 4,
    }
}

/// The format a wire tag stands for, or `None` outside the recognized set
/// {1, 2}.
pub open spec fn format_of_tag(tag: u32) -> Option<ColorFormat> {
    if tag == 1 {
        Some(ColorFormat::Gray8)
    } else if tag == 2 {
        Some(ColorFormat::Rgba8)
    } else {
        None
    }
}

impl ColorFormat {
    /// Resolves an on-disk color format tag, or reports the offending value.
    pub fn from_tag(tag: u32) -> (r: Result<ColorFormat, TexError>)
        ensures
            match r {
                Ok(f) => format_of_tag(tag) == Some(f),
                Err(e) => format_of_tag(tag) is None && e == TexError::UnknownColorFormat(tag),
            },
    {
        match tag {
            1u32 => Ok(ColorFormat::Gray8),
            2u32 => Ok(ColorFormat::Rgba8),
            _ => Err(TexError::UnknownColorFormat(tag)),
        }
    }

    /// How many bytes one pixel occupies.
    pub fn bytes_per_pixel(self) -> (n: u32)
        ensures
            n as nat == spec_bytes_per_pixel(self),
    {
        match self {
            ColorFormat::Gray8 => 1,
            ColorFormat::Rgba8 => 4,
        }
    }

    /// The format's display label.
    pub fn label(self) -> (s: &'static str)
        ensures
            s@ == format_label(self),
    {
        match self {
            ColorFormat::Gray8 => "GRAY 8",
            ColorFormat::Rgba8 => "RGBA 8",
        }
    }
}

/// The label `label` answers with for each format.
pub open spec fn format_label(f: ColorFormat) -> Seq<char> {
    match f {
        ColorFormat::Gray8 => "GRAY 8"@,
        ColorFormat::Rgba8 => "RGBA 8"@,
    }
}

} // verus!
