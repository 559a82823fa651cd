//! Decoder for the TEX container format: one or more LZ4-compressed raster
//! images behind a 32-bit version tag, reconstructed into raw pixel buffers.

pub mod color;
pub mod container;
pub mod error;
pub mod lz4;
pub mod reader;
pub mod subimage;
pub mod tex_1002;
pub mod tex_1005;
pub mod wire;

pub use color::ColorFormat;
pub use container::TexFile;
pub use error::TexError;
pub use reader::TexReader;
pub use subimage::TexSubImage;
pub use tex_1002::Tex1002;
pub use tex_1005::Tex1005;
