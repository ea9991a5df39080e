use vstd::prelude::*;

pub mod alpha;
pub mod avif;
pub mod bitmap;
pub mod color;
pub mod endian;
pub mod error;
pub mod exif;
pub mod format;
pub mod image;
pub mod jpeg;
pub mod jpegdec;
pub mod lcms;
pub mod mozjpeg;
pub mod loader;
pub mod palette;
pub mod pixel;
pub mod png;
pub mod pngdec;
pub mod profiles;
pub mod rotate;
pub mod webp;

pub use crate::pixel::{CMYK, Gray, GrayAlpha, RGB, RGBA, RGB8, RGBA8, RGB16, RGBA16, GRAY8, GRAY16, GRAYA8, GRAYA16};
pub use crate::rotate::Rotate;
pub use crate::alpha::{is_opaque, HasAlphaChannel};
pub use crate::bitmap::{Bitmap, BitmapRef};
pub use crate::format::Format;
pub use crate::endian::NativeEndian;
pub use crate::error::Error;
pub use crate::loader::{Loader, Profiles};
pub use crate::color::{ColorProfile, CopyAlpha, LcmsPixelConversion, LcmsPixelFormat};
pub use crate::image::{ChunkType, JpegMarker, Image, ImageData, ImageMeta, ImageMetaChunks, ImgRefKind, ImgVecKind, Pixels, PixelKind};

verus! {

/// Load image from file data in memory, with the default settings of [`Loader::new`]:
/// what [`Loader::load_data`] gives. `exif` is what rexif read from the EXIF data of a JPEG
/// file (see [`jpeg::jpeg_exif_of`]).
pub fn load_data(data: &[u8], exif: Option<Vec<exif::ExifField>>) -> (r: Result<Image, Error>)
    ensures
        loader::data_loaded(data@, exif, false, Profiles::NonsRGB, 256_000_000usize, r),
{
    Loader::new().load_data(data, exif)
}

/// Load image from file data in memory, discarding the alpha channel where `opaque` is set
/// and otherwise with the default settings of [`Loader::new`]: what [`Loader::load_data`]
/// gives. `exif` is as for [`load_data`].
pub fn load_image_data(data: &[u8], opaque: bool, exif: Option<Vec<exif::ExifField>>) -> (r: Result<Image, Error>)
    ensures
        loader::data_loaded(data@, exif, opaque, Profiles::NonsRGB, 256_000_000usize, r),
{
    let mut loader = Loader::new();
    loader.opaque(opaque).load_data(data, exif)
}

} // verus!
