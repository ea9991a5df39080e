use vstd::prelude::*;

use crate::color::{description_names_srgb, names_srgb, ColorProfile};
use crate::error::Error;
use crate::format::Format;
use crate::image::{Image, JpegMarker};
use crate::endian::stored_pixels;
use crate::exif::{exif_reading, ExifField};
use crate::image::Pixels;
use crate::jpeg::{jpeg_loaded, jpeg_loads, jpeg_pixel_count};
use crate::jpegdec::{jpeg_decoding, jpeg_frame};
use crate::mozjpeg::kept_markers;
use crate::png::{png_file_image, png_file_pixels, png_profile_applied};
use crate::pngdec::png_decoding;
use crate::webp::{webp_rgb_decoded, webp_rgba_decoded};

verus! {

/// Strategy for converting color profiles
#[derive(Clone, Copy, Debug, PartialEq, Eq, Structural)]
pub enum Profiles {
    /// Apply all profiles
    All,
    /// Do not support profiles (gives incorrectly-looking images, but doesn't change pixel values)
    Skip,
    /// Apply profiles only if they don't appear to be sRGB
    NonsRGB,
}

/// Settings for loading images.
pub struct Loader {
    /// Maximum allowed `width*height` of the image (in pixels).
    pub max_image_area: usize,
    pub(crate) discard_alpha: bool,
    pub(crate) metadata: bool,
    pub(crate) profiles: Profiles,
}

/// Whether an embedded profile is kept under the strategy: never with `Skip`, and with
/// `NonsRGB` not when its description names it sRGB.
pub open spec fn keeps_profile(profiles: Profiles, description: Option<Seq<char>>) -> bool {
    &&& profiles != Profiles::Skip
    &&& !(profiles == Profiles::NonsRGB && names_srgb(description))
}

/// The format that the first bytes of a file announce: the PNG signature, a RIFF
/// container (WebP), or a JPEG marker.
pub open spec fn sniffed_format(data: Seq<u8>) -> Format {
    if data.len() >= 4 && data[0] == 0x89 && data[1] == 0x50 && data[2] == 0x4e && data[3] == 0x47 {
        Format::Png
    } else if data.len() >= 4 && data[0] == 0x52 && data[1] == 0x49 && data[2] == 0x46 && data[3] == 0x46 {
        Format::WebP
    } else if data.len() >= 1 && data[0] == 0xff {
        Format::Jpeg
    } else {
        Format::Unknown
    }
}

pub fn sniff_format(data: &[u8]) -> (f: Format)
    ensures
        f == sniffed_format(data@),
{
    if data.len() >= 4 && data[0] == 0x89 && data[1] == 0x50 && data[2] == 0x4e && data[3] == 0x47 {
        Format::Png
    } else if data.len() >= 4 && data[0] == 0x52 && data[1] == 0x49 && data[2] == 0x46 && data[3] == 0x46 {
        Format::WebP
    } else if data.len() >= 1 && data[0] == 0xff {
        Format::Jpeg
    } else {
        Format::Unknown
    }
}

/// An image of at most `max_area` pixels whose bitmap is packed: `width * height` pixels.
pub open spec fn fits_loader(img: Image, max_area: usize) -> bool {
    &&& img.width * img.height <= max_area
    &&& img.bitmap@.len() == img.width * img.height
}

/// What [`Loader::load_data`] gives for the file data under the settings `opaque` (alpha
/// discarded), `strategy` (colour profiles) and `max_area`, where `exif` is what rexif read
/// from the EXIF data of a JPEG file:
/// - `Err(UnsupportedFileFormat)` exactly for data of no known format;
/// - every image has the sniffed format, at most `max_area` pixels and a packed bitmap, and
///   a file that decodes to more pixels than `max_area` gives `Err(ImageTooLarge)`;
/// - PNG: the pixels of [`png_file_pixels`] where no profile applies, what
///   [`png_file_image`] says (the pixels converted by a kept profile), and success wherever
///   the file decodes to a packed bitmap of at most `max_area` pixels;
/// - JPEG: what [`jpeg_loaded`] says, and success wherever the JPEG loader succeeds (see
///   [`jpeg_loads`]; CMYK pixels included where a profile converts them) and the frame
///   fills its size within `max_area` pixels;
/// - WebP: the decoded pixels (RGB where alpha is discarded, RGBA otherwise) wherever the
///   file decodes to a non-empty image within `max_area` pixels.
pub open spec fn data_loaded(
    data: Seq<u8>,
    exif: Option<Vec<ExifField>>,
    opaque: bool,
    strategy: Profiles,
    max_area: usize,
    r: Result<Image, Error>,
) -> bool {
    let format = sniffed_format(data);
    &&& (r matches Err(e) && e is UnsupportedFileFormat) == (format == Format::Unknown)
    &&& r matches Ok(img) ==> img.meta.format == format && fits_loader(img, max_area)
    &&& format == Format::Png ==> {
        &&& r matches Err(e) ==> (e is Png || e is ImageTooLarge)
        &&& r is Ok ==> png_file_pixels(data) is Ok
        &&& (png_file_pixels(data) matches Ok(px) && png_decoding(data) matches Ok(d)
            && d.0 * d.1 <= max_area && px.len() == d.0 * d.1) ==> r is Ok
        &&& png_file_pixels(data) is Ok ==> match png_decoding(data) {
            Ok(d) => d.0 * d.1 > max_area ==> (r matches Err(e) && e is ImageTooLarge),
            Err(_) => true,
        }
        &&& !png_profile_applied(data, strategy) ==> (r matches Ok(img) ==> img.bitmap@ == png_file_pixels(data)->Ok_0)
        &&& r matches Ok(img) ==> png_file_image(data, opaque, strategy, img.bitmap@)
    }
    &&& format == Format::Jpeg ==> {
        &&& r matches Err(e) ==> (e is Jpeg || e is UnsupportedJpeg || e is ImageTooLarge)
        &&& r matches Ok(img) ==> jpeg_loaded(data, exif_reading(exif), strategy, img.width, img.height, img.bitmap@)
        &&& jpeg_loads(data, exif_reading(exif), strategy) ==> match (jpeg_decoding(data), jpeg_frame(data)) {
            (Some(px), Some(info)) => {
                &&& info.width * info.height > max_area ==> (r matches Err(e) && e is ImageTooLarge)
                &&& (info.width * info.height <= max_area && jpeg_pixel_count(px, info.pixel_format) == info.width * info.height)
                    ==> r is Ok
            },
            _ => true,
        }
    }
    &&& format == Format::WebP ==> {
        &&& r matches Err(e) ==> (e is WebP || e is ImageTooLarge)
        &&& match (if opaque { webp_rgb_decoded(data) } else { webp_rgba_decoded(data) }) {
            Some(d) => {
                &&& (d.0 as int) * (d.1 as int) > max_area ==> (r matches Err(e) && e is ImageTooLarge)
                &&& ((d.0 as int) * (d.1 as int) <= max_area && d.0 > 0) ==> (r matches Ok(img)
                && img.width == d.0 && img.height == d.1 && img.bitmap@ == (if opaque {
                Pixels::RGB8(stored_pixels(d.2))
            } else {
                Pixels::RGBA8(stored_pixels(d.2))
            }))
            },
            None => true,
        }
    }
}

impl Loader {
    /// True when the alpha channel is to be discarded.
    pub closed spec fn discards_alpha(&self) -> bool {
        self.discard_alpha
    }

    /// True when all metadata is to be kept.
    pub closed spec fn keeps_metadata(&self) -> bool {
        self.metadata
    }

    /// The largest number of pixels an image may have.
    pub closed spec fn max_area(&self) -> usize {
        self.max_image_area
    }

    /// The strategy for colour profiles.
    pub closed spec fn profile_strategy(&self) -> Profiles {
        self.profiles
    }

    /// The settings that the spec functions above name are the loader's fields.
    pub(crate) proof fn lemma_settings(&self)
        ensures
            self.discard_alpha == self.discards_alpha(),
            self.metadata == self.keeps_metadata(),
            self.profiles == self.profile_strategy(),
            self.max_image_area == self.max_area(),
    {
    }

    /// Default settings: transparency kept, metadata dropped, profiles applied unless
    /// they are sRGB, and images of at most 16000×16000 pixels.
    pub fn new() -> (l: Self)
        ensures
            !l.discards_alpha(),
            !l.keeps_metadata(),
            l.profile_strategy() == Profiles::NonsRGB,
            l.max_area() == 16000 * 16000,
    {
        Loader { discard_alpha: false, metadata: false, profiles: Profiles::NonsRGB, max_image_area: 16000 * 16000 }
    }

    /// If true, alpha channel will be discarded.
    /// Default is false, which supports transparency.
    pub fn opaque(&mut self, discard_alpha: bool) -> (r: &mut Self)
        ensures
            r.discards_alpha() == discard_alpha,
            r.keeps_metadata() == old(self).keeps_metadata(),
            r.profile_strategy() == old(self).profile_strategy(),
            r.max_area() == old(self).max_area(),
            *final(self) == *final(r),
    {
        self.discard_alpha = discard_alpha;
        self
    }

    /// If true, will keep all image metadata.
    /// If false, it will apply color profiles, EXIF rotation, and discard everything else.
    pub fn metadata(&mut self, keep_metadata: bool) -> (r: &mut Self)
        ensures
            r.keeps_metadata() == keep_metadata,
            r.discards_alpha() == old(self).discards_alpha(),
            r.profile_strategy() == old(self).profile_strategy(),
            r.max_area() == old(self).max_area(),
            *final(self) == *final(r),
    {
        self.metadata = keep_metadata;
        self
    }

    /// Strategy for converting color profiles
    pub fn profiles(&mut self, convert_profiles: Profiles) -> (r: &mut Self)
        ensures
            r.profile_strategy() == convert_profiles,
            r.discards_alpha() == old(self).discards_alpha(),
            r.keeps_metadata() == old(self).keeps_metadata(),
            r.max_area() == old(self).max_area(),
            *final(self) == *final(r),
    {
        self.profiles = convert_profiles;
        self
    }

    /// The embedded profile that is to be applied, if any (see [`keeps_profile`]).
    pub fn process_profile(&self, profile: Option<ColorProfile>) -> (r: Option<ColorProfile>)
        ensures
            r.is_some() == (profile.is_some() && keeps_profile(self.profile_strategy(), profile.unwrap().description())),
            r.is_some() ==> r == profile,
    {
        match profile {
            None => None,
            Some(profile) => {
                if self.profiles == Profiles::NonsRGB {
                    if profile.describes_srgb() {
                        return None;
                    }
                }
                if self.profiles == Profiles::Skip {
                    return None;
                }
                Some(profile)
            },
        }
    }

    /// Loads an image from file data in memory, in the format that its first bytes announce
    /// (see [`sniffed_format`]); `exif` is what rexif read from the EXIF data of a JPEG file
    /// (see [`jpeg_exif_of`](crate::jpeg::jpeg_exif_of)), and is not looked at for other
    /// formats. The result is what [`data_loaded`] says of the loader's settings.
    ///
    /// Every image that comes back has at most `max_image_area` pixels (else
    /// `Err(ImageTooLarge)`) and a packed bitmap, `width * height` pixels in rows.
    pub fn load_data(&self, data: &[u8], exif: Option<Vec<ExifField>>) -> (r: Result<Image, Error>)
        ensures
            data_loaded(data@, exif, self.discards_alpha(), self.profile_strategy(), self.max_area(), r),
    {
        let format = sniff_format(data);
        let loaded = match format {
            Format::Png => self.load_png(data),
            Format::WebP => self.load_webp(data),
            Format::Jpeg => self.load_jpeg(data, exif),
            _ => Err(Error::UnsupportedFileFormat),
        };
        proof {
            reveal(jpeg_loaded);
        }
        match loaded {
            Ok(img) => {
                if self.check_dimensions(img.width, img.height).is_err() {
                    return Err(Error::ImageTooLarge);
                }
                if img.bitmap.len() != img.width * img.height {
                    return Err(match format {
                        Format::Png => Error::Png(93),
                        Format::WebP => Error::WebP,
                        _ => Error::UnsupportedJpeg,
                    });
                }
                Ok(img)
            },
            Err(e) => Err(e),
        }
    }

    /// The marker kinds that the decoder is to keep (see [`kept_markers`](crate::mozjpeg::kept_markers)).
    pub fn markers_to_keep(&self) -> (v: Vec<JpegMarker>)
        ensures
            v@ == kept_markers(self.keeps_metadata()),
    {
        let mut v: Vec<JpegMarker> = Vec::new();
        if self.metadata {
            let mut n: u8 = 0;
            while n < 15
                invariant
                    n <= 15,
                    v@ == Seq::new(n as nat, |i: int| JpegMarker::APP(i as u8)),
                decreases 15 - n,
            {
                v.push(JpegMarker::APP(n));
                n = n + 1;
                assert(v@ =~= Seq::new(n as nat, |i: int| JpegMarker::APP(i as u8)));
            }
            v.push(JpegMarker::COM);
        } else {
            v.push(JpegMarker::APP(1));
            v.push(JpegMarker::APP(2));
        }
        assert(v@ =~= kept_markers(self.keeps_metadata()));
        v
    }

    /// `Err(ImageTooLarge)` exactly when the image has more than `max_image_area` pixels.
    pub fn check_dimensions(&self, width: usize, height: usize) -> (r: Result<(), Error>)
        ensures
            r.is_ok() == (width * height <= self.max_area()),
            r matches Err(e) ==> e is ImageTooLarge,
    {
        match width.checked_mul(height) {
            Some(area) => {
                if area > self.max_image_area {
                    Err(Error::ImageTooLarge)
                } else {
                    Ok(())
                }
            },
            None => Err(Error::ImageTooLarge),
        }
    }
}

} // verus!
