use vstd::prelude::*;

use crate::bitmap::{Bitmap, BitmapRef};
use crate::format::Format;
use crate::pixel::{
    pixels_into_rgba8, IntoRgba8, GRAY16, GRAY8, GRAYA16, GRAYA8, RGB16, RGB8, RGBA16, RGBA8,
};
use crate::rotate::{
    can_rotate, inverse_rotation, lemma_rotation_commutes_with_map, lemma_rotation_inverse, rotate_pixels, rotated_height, rotated_pixels, rotated_width,
    Rotate,
};

verus! {

/// A kind of JPEG marker segment that the decoder can keep: a comment, or an application
/// marker `APPn` with its number `n`.
#[allow(non_camel_case_types)]
#[derive(Debug, Clone, Copy, PartialEq, Eq, Structural)]
pub enum JpegMarker {
    COM,
    APP(u8),
}

/// Additional non-image metadata fetched from source files
#[derive(Debug, Clone, PartialEq, Eq)]
pub enum ChunkType {
    /// PNG chunks: name + data
    PNG([u8; 4]),
    /// App marker
    JPEG(JpegMarker),
}

pub type ImageMetaChunks = Vec<(ChunkType, Vec<u8>)>;

#[derive(Debug, Clone)]
pub struct ImageMeta {
    pub format: Format,
    pub chunks: Vec<(ChunkType, Vec<u8>)>,
}

impl ImageMeta {
    pub fn new(format: Format, chunks: ImageMetaChunks) -> (m: Self)
        ensures
            m.format == format,
            m.chunks@ == chunks@,
    {
        ImageMeta { format, chunks }
    }
}

impl Default for ImageMeta {
    fn default() -> (m: Self)
        ensures
            m.format == Format::Unknown,
            m.chunks@.len() == 0,
    {
        ImageMeta { format: Format::Unknown, chunks: Vec::new() }
    }
}

/// Pixels of the image
///
/// The dimensions are in the [`Image`] object owning these. Pixels are in sRGB color space.
#[derive(Debug, Clone, PartialEq, Eq)]
pub enum ImageData {
    RGB8(Vec<RGB8>),
    RGBA8(Vec<RGBA8>),
    RGB16(Vec<RGB16>),
    RGBA16(Vec<RGBA16>),
    GRAY8(Vec<GRAY8>),
    GRAY16(Vec<GRAY16>),
    GRAYA8(Vec<GRAYA8>),
    GRAYA16(Vec<GRAYA16>),
}

/// The pixel sequence that an [`ImageData`] holds, tagged with its pixel format.
pub enum Pixels {
    RGB8(Seq<RGB8>),
    RGBA8(Seq<RGBA8>),
    RGB16(Seq<RGB16>),
    RGBA16(Seq<RGBA16>),
    GRAY8(Seq<GRAY8>),
    GRAY16(Seq<GRAY16>),
    GRAYA8(Seq<GRAYA8>),
    GRAYA16(Seq<GRAYA16>),
}

impl View for ImageData {
    type V = Pixels;

    open spec fn view(&self) -> Pixels {
        match self {
            ImageData::RGB8(v) => Pixels::RGB8(v@),
            ImageData::RGBA8(v) => Pixels::RGBA8(v@),
            ImageData::RGB16(v) => Pixels::RGB16(v@),
            ImageData::RGBA16(v) => Pixels::RGBA16(v@),
            ImageData::GRAY8(v) => Pixels::GRAY8(v@),
            ImageData::GRAY16(v) => Pixels::GRAY16(v@),
            ImageData::GRAYA8(v) => Pixels::GRAYA8(v@),
            ImageData::GRAYA16(v) => Pixels::GRAYA16(v@),
        }
    }
}

impl ImageData {
    /// Number of pixels held.
    pub fn len(&self) -> (n: usize)
        ensures
            n == self@.len(),
    {
        match self {
            ImageData::RGB8(v) => v.len(),
            ImageData::RGBA8(v) => v.len(),
            ImageData::RGB16(v) => v.len(),
            ImageData::RGBA16(v) => v.len(),
            ImageData::GRAY8(v) => v.len(),
            ImageData::GRAY16(v) => v.len(),
            ImageData::GRAYA8(v) => v.len(),
            ImageData::GRAYA16(v) => v.len(),
        }
    }
}

/// What [`Image::into_rgba`] gives for each pixel, channel by channel: 8-bit channels are
/// kept, 16-bit ones keep their high byte (`c / 256`); formats without alpha get alpha 255,
/// formats with alpha keep theirs; grey is copied into red, green and blue.
pub proof fn law_rgba8_channels(p: Pixels, i: int)
    requires
        0 <= i < p.len(),
    ensures
        p.rgba8().len() == p.len(),
        match p {
            Pixels::RGB8(s) => p.rgba8()[i] == (RGBA8 { r: s[i].r, g: s[i].g, b: s[i].b, a: 255u8 }),
            Pixels::RGBA8(s) => p.rgba8()[i] == (RGBA8 { r: s[i].r, g: s[i].g, b: s[i].b, a: s[i].a }),
            Pixels::RGB16(s) => p.rgba8()[i] == (RGBA8 {
                r: (s[i].r / 256) as u8,
                g: (s[i].g / 256) as u8,
                b: (s[i].b / 256) as u8,
                a: 255u8,
            }),
            Pixels::RGBA16(s) => p.rgba8()[i] == (RGBA8 {
                r: (s[i].r / 256) as u8,
                g: (s[i].g / 256) as u8,
                b: (s[i].b / 256) as u8,
                a: (s[i].a / 256) as u8,
            }),
            Pixels::GRAY8(s) => p.rgba8()[i] == (RGBA8 { r: s[i].0, g: s[i].0, b: s[i].0, a: 255u8 }),
            Pixels::GRAY16(s) => p.rgba8()[i] == (RGBA8 {
                r: (s[i].0 / 256) as u8,
                g: (s[i].0 / 256) as u8,
                b: (s[i].0 / 256) as u8,
                a: 255u8,
            }),
            Pixels::GRAYA8(s) => p.rgba8()[i] == (RGBA8 { r: s[i].0, g: s[i].0, b: s[i].0, a: s[i].1 }),
            Pixels::GRAYA16(s) => p.rgba8()[i] == (RGBA8 {
                r: (s[i].0 / 256) as u8,
                g: (s[i].0 / 256) as u8,
                b: (s[i].0 / 256) as u8,
                a: (s[i].1 / 256) as u8,
            }),
        },
{
}

impl Pixels {
    /// Number of pixels held.
    pub open spec fn len(self) -> nat {
        match self {
            Pixels::RGB8(s) => s.len(),
            Pixels::RGBA8(s) => s.len(),
            Pixels::RGB16(s) => s.len(),
            Pixels::RGBA16(s) => s.len(),
            Pixels::GRAY8(s) => s.len(),
            Pixels::GRAY16(s) => s.len(),
            Pixels::GRAYA8(s) => s.len(),
            Pixels::GRAYA16(s) => s.len(),
        }
    }

    /// True of the pixel formats that carry an alpha channel.
    pub open spec fn has_alpha(self) -> bool {
        match self {
            Pixels::RGBA8(_) | Pixels::RGBA16(_) | Pixels::GRAYA8(_) | Pixels::GRAYA16(_) => true,
            _ => false,
        }
    }

    /// Every pixel converted to 8-bit RGBA.
    pub open spec fn rgba8(self) -> Seq<RGBA8> {
        match self {
            Pixels::RGB8(s) => s.map_values(|p: RGB8| p.rgba8_of()),
            Pixels::RGBA8(s) => s.map_values(|p: RGBA8| p.rgba8_of()),
            Pixels::RGB16(s) => s.map_values(|p: RGB16| p.rgba8_of()),
            Pixels::RGBA16(s) => s.map_values(|p: RGBA16| p.rgba8_of()),
            Pixels::GRAY8(s) => s.map_values(|p: GRAY8| p.rgba8_of()),
            Pixels::GRAY16(s) => s.map_values(|p: GRAY16| p.rgba8_of()),
            Pixels::GRAYA8(s) => s.map_values(|p: GRAYA8| p.rgba8_of()),
            Pixels::GRAYA16(s) => s.map_values(|p: GRAYA16| p.rgba8_of()),
        }
    }

    /// The pixels of a `w`×`h` image after the rotation, in the same format.
    pub open spec fn rotated(self, w: int, h: int, r: Rotate) -> Pixels {
        match self {
            Pixels::RGB8(s) => Pixels::RGB8(rotated_pixels(s, w, h, r)),
            Pixels::RGBA8(s) => Pixels::RGBA8(rotated_pixels(s, w, h, r)),
            Pixels::RGB16(s) => Pixels::RGB16(rotated_pixels(s, w, h, r)),
            Pixels::RGBA16(s) => Pixels::RGBA16(rotated_pixels(s, w, h, r)),
            Pixels::GRAY8(s) => Pixels::GRAY8(rotated_pixels(s, w, h, r)),
            Pixels::GRAY16(s) => Pixels::GRAY16(rotated_pixels(s, w, h, r)),
            Pixels::GRAYA8(s) => Pixels::GRAYA8(rotated_pixels(s, w, h, r)),
            Pixels::GRAYA16(s) => Pixels::GRAYA16(rotated_pixels(s, w, h, r)),
        }
    }
}

/// Converting an image of `w`×`h` packed pixels to 8-bit RGBA and turning it by `r` give
/// the same pixels in either order.
pub proof fn lemma_rgba_of_rotated(p: Pixels, w: int, h: int, r: Rotate)
    requires
        w > 0,
        h > 0,
        p.len() == w * h,
    ensures
        p.rotated(w, h, r).rgba8() == rotated_pixels(p.rgba8(), w, h, r),
{
    match p {
        Pixels::RGB8(s) => lemma_rotation_commutes_with_map(s, |q: RGB8| q.rgba8_of(), w, h, r),
        Pixels::RGBA8(s) => lemma_rotation_commutes_with_map(s, |q: RGBA8| q.rgba8_of(), w, h, r),
        Pixels::RGB16(s) => lemma_rotation_commutes_with_map(s, |q: RGB16| q.rgba8_of(), w, h, r),
        Pixels::RGBA16(s) => lemma_rotation_commutes_with_map(s, |q: RGBA16| q.rgba8_of(), w, h, r),
        Pixels::GRAY8(s) => lemma_rotation_commutes_with_map(s, |q: GRAY8| q.rgba8_of(), w, h, r),
        Pixels::GRAY16(s) => lemma_rotation_commutes_with_map(s, |q: GRAY16| q.rgba8_of(), w, h, r),
        Pixels::GRAYA8(s) => lemma_rotation_commutes_with_map(s, |q: GRAYA8| q.rgba8_of(), w, h, r),
        Pixels::GRAYA16(s) => lemma_rotation_commutes_with_map(s, |q: GRAYA16| q.rgba8_of(), w, h, r),
    }
}

/// Turning an image of `w`×`h` packed pixels by `r` and then by `inverse_rotation(r)`
/// gives back its pixels, and the second turn is always allowed after the first.
pub proof fn lemma_image_rotation_inverse(p: Pixels, w: int, h: int, r: Rotate)
    requires
        w > 0,
        h > 0,
        p.len() == w * h,
        can_rotate(p.len() as int, w, h, r),
    ensures
        can_rotate(
            p.rotated(w, h, r).len() as int,
            rotated_width(r, w, h),
            rotated_height(r, w, h),
            inverse_rotation(r),
        ),
        p.rotated(w, h, r).rotated(rotated_width(r, w, h), rotated_height(r, w, h), inverse_rotation(r)) == p,
{
    let ow = rotated_width(r, w, h);
    let oh = rotated_height(r, w, h);
    assert(ow * oh == w * h) by (nonlinear_arith)
        requires
            (ow == w && oh == h) || (ow == h && oh == w),
    ;
    match p {
        Pixels::RGB8(s) => lemma_rotation_inverse(s, w, h, r),
        Pixels::RGBA8(s) => lemma_rotation_inverse(s, w, h, r),
        Pixels::RGB16(s) => lemma_rotation_inverse(s, w, h, r),
        Pixels::RGBA16(s) => lemma_rotation_inverse(s, w, h, r),
        Pixels::GRAY8(s) => lemma_rotation_inverse(s, w, h, r),
        Pixels::GRAY16(s) => lemma_rotation_inverse(s, w, h, r),
        Pixels::GRAYA8(s) => lemma_rotation_inverse(s, w, h, r),
        Pixels::GRAYA16(s) => lemma_rotation_inverse(s, w, h, r),
    }
}

/// Pixel types that an [`Image`] can hold.
pub trait PixelKind: Copy + Sized {
    /// The tagged pixel sequence of an image of this pixel type.
    spec fn tagged(s: Seq<Self>) -> Pixels;

    /// Wraps the pixels in the matching [`ImageData`] variant.
    fn into_data(v: Vec<Self>) -> (d: ImageData)
        ensures
            d@ == Self::tagged(v@),
            d@.len() == v@.len(),
    ;
}

impl PixelKind for RGB8 {
    open spec fn tagged(s: Seq<Self>) -> Pixels {
        Pixels::RGB8(s)
    }

    fn into_data(v: Vec<Self>) -> (d: ImageData) {
        ImageData::RGB8(v)
    }
}

impl PixelKind for RGBA8 {
    open spec fn tagged(s: Seq<Self>) -> Pixels {
        Pixels::RGBA8(s)
    }

    fn into_data(v: Vec<Self>) -> (d: ImageData) {
        ImageData::RGBA8(v)
    }
}

impl PixelKind for RGB16 {
    open spec fn tagged(s: Seq<Self>) -> Pixels {
        Pixels::RGB16(s)
    }

    fn into_data(v: Vec<Self>) -> (d: ImageData) {
        ImageData::RGB16(v)
    }
}

impl PixelKind for RGBA16 {
    open spec fn tagged(s: Seq<Self>) -> Pixels {
        Pixels::RGBA16(s)
    }

    fn into_data(v: Vec<Self>) -> (d: ImageData) {
        ImageData::RGBA16(v)
    }
}

impl PixelKind for GRAY8 {
    open spec fn tagged(s: Seq<Self>) -> Pixels {
        Pixels::GRAY8(s)
    }

    fn into_data(v: Vec<Self>) -> (d: ImageData) {
        ImageData::GRAY8(v)
    }
}

impl PixelKind for GRAY16 {
    open spec fn tagged(s: Seq<Self>) -> Pixels {
        Pixels::GRAY16(s)
    }

    fn into_data(v: Vec<Self>) -> (d: ImageData) {
        ImageData::GRAY16(v)
    }
}

impl PixelKind for GRAYA8 {
    open spec fn tagged(s: Seq<Self>) -> Pixels {
        Pixels::GRAYA8(s)
    }

    fn into_data(v: Vec<Self>) -> (d: ImageData) {
        ImageData::GRAYA8(v)
    }
}

impl PixelKind for GRAYA16 {
    open spec fn tagged(s: Seq<Self>) -> Pixels {
        Pixels::GRAYA16(s)
    }

    fn into_data(v: Vec<Self>) -> (d: ImageData) {
        ImageData::GRAYA16(v)
    }
}

/// The pixels are in the [`Image::bitmap`] field
///
/// Use [`Image::into_rgba`] if you don't want to deal with multiple pixel formats.
///
/// Pixels will be in sRGB color space.
#[derive(Debug, Clone)]
pub struct Image {
    pub width: usize,
    pub height: usize,
    pub meta: ImageMeta,
    pub bitmap: ImageData,
}

/// Dimensions that a 2D view of a pixel buffer accepts: a non-zero width,
/// and width and height that fit in 32 bits.
pub open spec fn dims_ok(w: int, h: int) -> bool {
    0 < w <= u32::MAX && 0 <= h <= u32::MAX
}

/// An image's pixels borrowed as a 2D buffer, by pixel format.
#[derive(Debug, Clone, PartialEq, Eq)]
pub enum ImgRefKind<'data> {
    RGB8(BitmapRef<'data, RGB8>),
    RGBA8(BitmapRef<'data, RGBA8>),
    RGB16(BitmapRef<'data, RGB16>),
    RGBA16(BitmapRef<'data, RGBA16>),
    GRAY8(BitmapRef<'data, GRAY8>),
    GRAY16(BitmapRef<'data, GRAY16>),
    GRAYA8(BitmapRef<'data, GRAYA8>),
    GRAYA16(BitmapRef<'data, GRAYA16>),
}

/// An image's pixels owned as a 2D buffer, by pixel format.
#[derive(Debug, Clone, PartialEq, Eq)]
pub enum ImgVecKind {
    RGB8(Bitmap<RGB8>),
    RGBA8(Bitmap<RGBA8>),
    RGB16(Bitmap<RGB16>),
    RGBA16(Bitmap<RGBA16>),
    GRAY8(Bitmap<GRAY8>),
    GRAY16(Bitmap<GRAY16>),
    GRAYA8(Bitmap<GRAYA8>),
    GRAYA16(Bitmap<GRAYA16>),
}

impl<'data> ImgRefKind<'data> {
    /// Width, height and tagged pixels of the view.
    pub open spec fn parts(self) -> (usize, usize, Pixels) {
        match self {
            ImgRefKind::RGB8(b) => (b.width, b.height, Pixels::RGB8(b.bitmap@)),
            ImgRefKind::RGBA8(b) => (b.width, b.height, Pixels::RGBA8(b.bitmap@)),
            ImgRefKind::RGB16(b) => (b.width, b.height, Pixels::RGB16(b.bitmap@)),
            ImgRefKind::RGBA16(b) => (b.width, b.height, Pixels::RGBA16(b.bitmap@)),
            ImgRefKind::GRAY8(b) => (b.width, b.height, Pixels::GRAY8(b.bitmap@)),
            ImgRefKind::GRAY16(b) => (b.width, b.height, Pixels::GRAY16(b.bitmap@)),
            ImgRefKind::GRAYA8(b) => (b.width, b.height, Pixels::GRAYA8(b.bitmap@)),
            ImgRefKind::GRAYA16(b) => (b.width, b.height, Pixels::GRAYA16(b.bitmap@)),
        }
    }
}

impl ImgVecKind {
    /// Width, height and tagged pixels of the buffer.
    pub open spec fn parts(self) -> (usize, usize, Pixels) {
        match self {
            ImgVecKind::RGB8(b) => (b.width, b.height, Pixels::RGB8(b.bitmap@)),
            ImgVecKind::RGBA8(b) => (b.width, b.height, Pixels::RGBA8(b.bitmap@)),
            ImgVecKind::RGB16(b) => (b.width, b.height, Pixels::RGB16(b.bitmap@)),
            ImgVecKind::RGBA16(b) => (b.width, b.height, Pixels::RGBA16(b.bitmap@)),
            ImgVecKind::GRAY8(b) => (b.width, b.height, Pixels::GRAY8(b.bitmap@)),
            ImgVecKind::GRAY16(b) => (b.width, b.height, Pixels::GRAY16(b.bitmap@)),
            ImgVecKind::GRAYA8(b) => (b.width, b.height, Pixels::GRAYA8(b.bitmap@)),
            ImgVecKind::GRAYA16(b) => (b.width, b.height, Pixels::GRAYA16(b.bitmap@)),
        }
    }
}

impl Rotate {
    /// The rotation that displays upright an image stored with the given EXIF
    /// orientation tag (1 to 8); any other tag value gives no rotation.
    pub fn from_exif_orientation(orientation: u16) -> (r: Self)
        ensures
            r == crate::rotate::exif_rotation(orientation),
    {
        match orientation {
            2 => Rotate::FlipX,
            3 => Rotate::D180,
            4 => Rotate::D180FlipX,
            5 => Rotate::D270FlipX,
            6 => Rotate::D270,
            7 => Rotate::D90FlipX,
            8 => Rotate::D90,
            _ => Rotate::D0,
        }
    }
}

impl Image {
    /// The pixel buffer turned by `rotation`.
    fn rotated_bitmap<P: Copy>(bitmap: Bitmap<P>, rotation: Rotate) -> (d: Bitmap<P>)
        requires
            can_rotate(bitmap.bitmap@.len() as int, bitmap.width as int, bitmap.height as int, rotation),
        ensures
            d.bitmap@ == rotated_pixels(bitmap.bitmap@, bitmap.width as int, bitmap.height as int, rotation),
            d.width == rotated_width(rotation, bitmap.width as int, bitmap.height as int),
            d.height == rotated_height(rotation, bitmap.width as int, bitmap.height as int),
    {
        let w = bitmap.width;
        let h = bitmap.height;
        let pixels = rotate_pixels(&bitmap.bitmap, w, h, rotation);
        let swaps = rotation == Rotate::D90 || rotation == Rotate::D90FlipX || rotation == Rotate::D270
            || rotation == Rotate::D270FlipX;
        if swaps {
            Bitmap::new(pixels, h, w)
        } else {
            Bitmap::new(pixels, w, h)
        }
    }

    /// An image of the given pixels and metadata.
    pub fn from_opts<P: PixelKind>(img: Bitmap<P>, meta: ImageMeta) -> (i: Image)
        ensures
            i.width == img.width,
            i.height == img.height,
            i.meta == meta,
            i.bitmap@ == P::tagged(img.bitmap@),
            i.bitmap@.len() == img.bitmap@.len(),
    {
        Image { width: img.width, height: img.height, meta, bitmap: P::into_data(img.bitmap) }
    }

    /// Convert pixels to RGBA format. The second returned element is the [`ImageMeta`] object.
    pub fn into_rgba(self) -> (r: (Bitmap<RGBA8>, ImageMeta))
        requires
            dims_ok(self.width as int, self.height as int),
        ensures
            r.0.bitmap@ == self.bitmap@.rgba8(),
            !self.bitmap@.has_alpha() ==> forall|i: int| 0 <= i < r.0.bitmap@.len() ==> (#[trigger] r.0.bitmap@[i]).a == 255,
            r.0.width == self.width,
            r.0.height == self.height,
            r.1 == self.meta,
    {
        let pixels = match &self.bitmap {
            ImageData::RGB8(v) => pixels_into_rgba8(v),
            ImageData::RGBA8(v) => pixels_into_rgba8(v),
            ImageData::RGB16(v) => pixels_into_rgba8(v),
            ImageData::RGBA16(v) => pixels_into_rgba8(v),
            ImageData::GRAY8(v) => pixels_into_rgba8(v),
            ImageData::GRAY16(v) => pixels_into_rgba8(v),
            ImageData::GRAYA8(v) => pixels_into_rgba8(v),
            ImageData::GRAYA16(v) => pixels_into_rgba8(v),
        };
        (Bitmap::new(pixels, self.width, self.height), self.meta)
    }

    /// True if pixel format doesn't support alpha. This function doesn't check pixels.
    pub fn is_opaque(&self) -> (r: bool)
        ensures
            r == !self.bitmap@.has_alpha(),
    {
        match self.bitmap {
            ImageData::RGB8(_) => true,
            ImageData::RGBA8(_) => false,
            ImageData::RGB16(_) => true,
            ImageData::RGBA16(_) => false,
            ImageData::GRAY8(_) => true,
            ImageData::GRAY16(_) => true,
            ImageData::GRAYA8(_) => false,
            ImageData::GRAYA16(_) => false,
        }
    }

    /// Returns an enum with a borrowed 2D view of the pixels.
    pub fn as_imgref(&self) -> (r: ImgRefKind<'_>)
        requires
            dims_ok(self.width as int, self.height as int),
        ensures
            r.parts() == (self.width, self.height, self.bitmap@),
    {
        match &self.bitmap {
            ImageData::RGB8(b) => ImgRefKind::RGB8(BitmapRef::new(b.as_slice(), self.width, self.height)),
            ImageData::RGBA8(b) => ImgRefKind::RGBA8(BitmapRef::new(b.as_slice(), self.width, self.height)),
            ImageData::RGB16(b) => ImgRefKind::RGB16(BitmapRef::new(b.as_slice(), self.width, self.height)),
            ImageData::RGBA16(b) => ImgRefKind::RGBA16(BitmapRef::new(b.as_slice(), self.width, self.height)),
            ImageData::GRAY8(b) => ImgRefKind::GRAY8(BitmapRef::new(b.as_slice(), self.width, self.height)),
            ImageData::GRAY16(b) => ImgRefKind::GRAY16(BitmapRef::new(b.as_slice(), self.width, self.height)),
            ImageData::GRAYA8(b) => ImgRefKind::GRAYA8(BitmapRef::new(b.as_slice(), self.width, self.height)),
            ImageData::GRAYA16(b) => ImgRefKind::GRAYA16(BitmapRef::new(b.as_slice(), self.width, self.height)),
        }
    }

    /// Returns an enum with an owned 2D buffer of the pixels.
    pub fn into_imgvec(self) -> (r: ImgVecKind)
        requires
            dims_ok(self.width as int, self.height as int),
        ensures
            r.parts() == (self.width, self.height, self.bitmap@),
    {
        let w = self.width;
        let h = self.height;
        match self.bitmap {
            ImageData::RGB8(b) => ImgVecKind::RGB8(Bitmap::new(b, w, h)),
            ImageData::RGBA8(b) => ImgVecKind::RGBA8(Bitmap::new(b, w, h)),
            ImageData::RGB16(b) => ImgVecKind::RGB16(Bitmap::new(b, w, h)),
            ImageData::RGBA16(b) => ImgVecKind::RGBA16(Bitmap::new(b, w, h)),
            ImageData::GRAY8(b) => ImgVecKind::GRAY8(Bitmap::new(b, w, h)),
            ImageData::GRAY16(b) => ImgVecKind::GRAY16(Bitmap::new(b, w, h)),
            ImageData::GRAYA8(b) => ImgVecKind::GRAYA8(Bitmap::new(b, w, h)),
            ImageData::GRAYA16(b) => ImgVecKind::GRAYA16(Bitmap::new(b, w, h)),
        }
    }

    /// The image turned by the rotation `r`; the metadata is kept.
    pub fn rotated(self, r: Rotate) -> (i: Self)
        requires
            can_rotate(self.bitmap@.len() as int, self.width as int, self.height as int, r),
        ensures
            i.width == rotated_width(r, self.width as int, self.height as int),
            i.height == rotated_height(r, self.width as int, self.height as int),
            i.meta == self.meta,
            i.bitmap@ == self.bitmap@.rotated(self.width as int, self.height as int, r),
            self.bitmap@.len() == self.width * self.height ==> i.bitmap@.len() == i.width * i.height,
    {
        proof {
            let rw = rotated_width(r, self.width as int, self.height as int);
            let rh = rotated_height(r, self.width as int, self.height as int);
            assert(rw * rh == self.width * self.height) by (nonlinear_arith)
                requires
                    (rw == self.width && rh == self.height) || (rw == self.height && rh == self.width),
            ;
        }
        let meta = self.meta;
        let w = self.width;
        let h = self.height;
        match self.bitmap {
            ImageData::RGB8(b) => Self::from_opts(Self::rotated_bitmap(Bitmap::new(b, w, h), r), meta),
            ImageData::RGBA8(b) => Self::from_opts(Self::rotated_bitmap(Bitmap::new(b, w, h), r), meta),
            ImageData::RGB16(b) => Self::from_opts(Self::rotated_bitmap(Bitmap::new(b, w, h), r), meta),
            ImageData::RGBA16(b) => Self::from_opts(Self::rotated_bitmap(Bitmap::new(b, w, h), r), meta),
            ImageData::GRAY8(b) => Self::from_opts(Self::rotated_bitmap(Bitmap::new(b, w, h), r), meta),
            ImageData::GRAY16(b) => Self::from_opts(Self::rotated_bitmap(Bitmap::new(b, w, h), r), meta),
            ImageData::GRAYA8(b) => Self::from_opts(Self::rotated_bitmap(Bitmap::new(b, w, h), r), meta),
            ImageData::GRAYA16(b) => Self::from_opts(Self::rotated_bitmap(Bitmap::new(b, w, h), r), meta),
        }
    }
}

} // verus!
