use vstd::prelude::*;

use crate::bitmap::Bitmap;
use crate::endian::{stored_pixels, NativeEndian};
use crate::error::Error;
use crate::format::Format;
use crate::image::{Image, ImageMeta, Pixels};
use crate::loader::Loader;
use crate::pixel::{RGB, RGBA};

verus! {

/// What `libwebp::WebPDecodeRGB` gives for the file data: width, height and RGB bytes,
/// `None` where libwebp refuses the data.
pub uninterp spec fn webp_rgb_decoded(data: Seq<u8>) -> Option<(u32, u32, Seq<u8>)>;

/// What `libwebp::WebPDecodeRGBA` gives for the file data: width, height and RGBA bytes,
/// `None` where libwebp refuses the data.
pub uninterp spec fn webp_rgba_decoded(data: Seq<u8>) -> Option<(u32, u32, Seq<u8>)>;

/// Decodes a WebP file into RGB bytes with `libwebp::WebPDecodeRGB`, named
/// [`webp_rgb_decoded`]. The source sizes the buffer at width × height × 3 bytes; the
/// pixels are not stated.
#[verifier::external_body]
pub(crate) fn webp_decode_rgb(data: &[u8]) -> (r: Option<(u32, u32, Vec<u8>)>)
    ensures
        r is None <==> webp_rgb_decoded(data@) is None,
        r matches Some(d) ==> webp_rgb_decoded(data@) == Some((d.0, d.1, d.2@)),
        r matches Some(d) ==> d.2@.len() == d.0 * d.1 * 3,
{
    libwebp::WebPDecodeRGB(data).ok().map(|(w, h, b)| (w, h, b.to_vec()))
}

/// Decodes a WebP file into RGBA bytes with `libwebp::WebPDecodeRGBA`, named
/// [`webp_rgba_decoded`]. The source sizes the buffer at width × height × 4 bytes; the
/// pixels are not stated.
#[verifier::external_body]
pub(crate) fn webp_decode_rgba(data: &[u8]) -> (r: Option<(u32, u32, Vec<u8>)>)
    ensures
        r is None <==> webp_rgba_decoded(data@) is None,
        r matches Some(d) ==> webp_rgba_decoded(data@) == Some((d.0, d.1, d.2@)),
        r matches Some(d) ==> d.2@.len() == d.0 * d.1 * 4,
{
    libwebp::WebPDecodeRGBA(data).ok().map(|(w, h, b)| (w, h, b.to_vec()))
}

/// The image of decoded WebP pixels: RGB where `discard_alpha`, RGBA otherwise.
///
/// `Err(ImageTooLarge)` where the loader's size limit refuses it, `Err(WebP)` where the
/// width is zero.
pub fn webp_to_image(loader: &Loader, width: u32, height: u32, bytes: Vec<u8>, discard_alpha: bool) -> (r: Result<Image, Error>)
    ensures
        (width as int) * (height as int) > loader.max_area() ==> r matches Err(Error::ImageTooLarge),
        (width as int) * (height as int) <= loader.max_area() && width == 0 ==> r matches Err(Error::WebP),
        (width as int) * (height as int) <= loader.max_area() && width > 0 ==> r is Ok,
        r matches Ok(img) ==> {
            &&& img.width == width
            &&& img.height == height
            &&& img.meta.format == Format::WebP
            &&& img.meta.chunks@.len() == 0
            &&& discard_alpha ==> img.bitmap@ == Pixels::RGB8(stored_pixels(bytes@))
            &&& !discard_alpha ==> img.bitmap@ == Pixels::RGBA8(stored_pixels(bytes@))
        },
{
    let w = width as usize;
    let h = height as usize;
    loader.check_dimensions(w, h)?;
    if w == 0 {
        return Err(Error::WebP);
    }
    let meta = ImageMeta::new(Format::WebP, Vec::new());
    if discard_alpha {
        let px: Vec<RGB<u8>> = RGB::<u8>::to_native(bytes.as_slice());
        assert(px@ =~= stored_pixels::<RGB<u8>>(bytes@));
        Ok(Image::from_opts(Bitmap::new(px, w, h), meta))
    } else {
        let px: Vec<RGBA<u8>> = RGBA::<u8>::to_native(bytes.as_slice());
        assert(px@ =~= stored_pixels::<RGBA<u8>>(bytes@));
        Ok(Image::from_opts(Bitmap::new(px, w, h), meta))
    }
}

impl Loader {
    /// Loads a WebP file from memory: RGB pixels where the alpha channel is discarded,
    /// RGBA pixels otherwise.
    ///
    /// `Err(WebP)` where libwebp refuses the file or its width is zero, `Err(ImageTooLarge)`
    /// where the loader's size limit refuses it.
    pub fn load_webp(&self, data: &[u8]) -> (r: Result<Image, Error>)
        ensures
            match (if self.discards_alpha() { webp_rgb_decoded(data@) } else { webp_rgba_decoded(data@) }) {
                None => r matches Err(Error::WebP),
                Some(d) => {
                    &&& (d.0 as int) * (d.1 as int) > self.max_area() ==> (r matches Err(Error::ImageTooLarge))
                    &&& (d.0 as int) * (d.1 as int) <= self.max_area() && d.0 == 0 ==> (r matches Err(Error::WebP))
                    &&& (d.0 as int) * (d.1 as int) <= self.max_area() && d.0 > 0 ==> (r matches Ok(img) && {
                        &&& img.width == d.0
                        &&& img.height == d.1
                        &&& self.discards_alpha() ==> img.bitmap@ == Pixels::RGB8(stored_pixels(d.2))
                        &&& !self.discards_alpha() ==> img.bitmap@ == Pixels::RGBA8(stored_pixels(d.2))
                    })
                },
            },
            r matches Ok(img) ==> img.meta.format == Format::WebP && img.meta.chunks@.len() == 0
                && img.bitmap@.len() == img.width * img.height,
            r matches Err(e) ==> (e is WebP || e is ImageTooLarge),
    {
        proof {
            self.lemma_settings();
        }
        let decoded = if self.discard_alpha { webp_decode_rgb(data) } else { webp_decode_rgba(data) };
        match decoded {
            Some((w, h, bytes)) => {
                proof {
                    assert((bytes@.len() as int) / (if self.discard_alpha { 3int } else { 4int }) == (w as int) * (h as int)) by (nonlinear_arith)
                        requires
                            (bytes@.len() as int) == (w as int) * (h as int) * (if self.discard_alpha { 3int } else { 4int }),
                    ;
                }
                webp_to_image(self, w, h, bytes, self.discard_alpha)
            },
            None => Err(Error::WebP),
        }
    }
}

} // verus!
