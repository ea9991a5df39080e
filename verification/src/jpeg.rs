use vstd::prelude::*;

use crate::bitmap::Bitmap;
use crate::color::{apply_profile, icc_of, lcms_converted, profile_applies, profile_converts, profile_image, to_image, ColorProfile};
use crate::endian::{ne_u16, stored_pixels, u16_from_ne_bytes, NativeEndian};
use crate::error::Error;
use crate::exif::{exif_reading, parse_exif, ExifField};
use crate::format::Format;
use crate::image::{dims_ok, Image, ImageMeta, Pixels};
use crate::jpegdec::{
    jpeg_decoding, jpeg_exif, jpeg_exif_data, jpeg_frame, jpeg_icc, jpeg_icc_profile, jpeg_info, JpegDecoder, JpegInfo,
    JpegPixelFormat,
};
use crate::lcms::{icc_accepted, icc_color_space, icc_description, ColorSpace, LcmsFormat};
use crate::loader::{keeps_profile, sniff_format, sniffed_format, Loader, Profiles};
use crate::profiles::{adobe1998_icc, cmyk_icc};
use crate::pixel::{Gray, CMYK, RGB, RGB16};
use crate::rotate::{can_rotate, can_rotate_exec, exif_rotation, rotated_height, rotated_width, Rotate};

verus! {

/// Whether [`apply_profile`] converts `n` CMYK pixels into 16-bit RGB by the profile opened
/// from the bytes `icc` (see [`profile_converts`]).
pub open spec fn cmyk_converts(icc: Seq<u8>, n: nat) -> bool {
    profile_converts(ColorSpace::Cmyk, LcmsFormat::Cmyk8Rev, LcmsFormat::Rgb16, icc, n)
}

/// The ICC bytes that [`cmyk_to_image`] converts `n` CMYK pixels by: those of the given profile
/// where it converts them, the built-in CMYK profile's otherwise.
pub open spec fn cmyk_icc_used(icc: Option<Seq<u8>>, n: nat) -> Seq<u8> {
    if icc is Some && cmyk_converts(icc->0, n) {
        icc->0
    } else {
        cmyk_icc()
    }
}

/// CMYK pixels converted into 16-bit RGB by `profile`, or, where that profile is absent or
/// does not convert them, by the built-in CMYK profile (see [`cmyk_icc_used`]); `None`
/// where neither converts.
pub fn cmyk_to_image(pixels: Vec<CMYK>, profile: Option<ColorProfile>, width: usize, height: usize, meta: ImageMeta) -> (r: Option<Image>)
    requires
        dims_ok(width as int, height as int),
    ensures
        r is Some <==> (profile matches Some(p) && cmyk_converts(p.icc_data(), pixels@.len()))
            || (icc_accepted(cmyk_icc()) && cmyk_converts(cmyk_icc(), pixels@.len())),
        r matches Some(img) ==> (img.bitmap@ matches Pixels::RGB16(v)
            && (pixels@.len() <= u32::MAX ==> lcms_converted(cmyk_icc_used(icc_of(profile), pixels@.len()), pixels@, v))),
        r matches Some(img) ==> {
            &&& img.width == width
            &&& img.height == height
            &&& img.meta == meta
            &&& img.bitmap@ is RGB16
            &&& img.bitmap@.len() == pixels@.len()
        },
{
    let mut converted: Option<Vec<RGB16>> = None;
    if let Some(p) = profile {
        converted = apply_profile(pixels.as_slice(), &p);
    }
    if converted.is_none() {
        if let Some(fallback) = ColorProfile::from_icc(crate::profiles::cmyk().as_slice()) {
            converted = apply_profile(pixels.as_slice(), &fallback);
        }
    }
    match converted {
        Some(v) => Some(Image::from_opts(Bitmap::new(v, width, height), meta)),
        None => None,
    }
}

/// Each grey level of `px` is the 16-bit value stored in two bytes of `b`, in the machine's
/// byte order (see [`ne_u16`]); trailing bytes that make no whole level are ignored.
pub open spec fn ne_gray16(b: Seq<u8>, px: Seq<Gray<u16>>) -> bool {
    &&& px.len() == b.len() / 2
    &&& forall|i: int| 0 <= i < px.len() ==> ne_u16(b[2 * i], b[2 * i + 1], #[trigger] px[i].0)
}

/// 16-bit grey levels stored in the machine's byte order.
fn gray16_from_ne_bytes(b: &Vec<u8>) -> (v: Vec<Gray<u16>>)
    ensures
        ne_gray16(b@, v@),
{
    let len = b.len();
    let n = len / 2;
    let mut v: Vec<Gray<u16>> = Vec::new();
    let mut i: usize = 0;
    while i < n
        invariant
            len == b@.len(),
            n == len / 2,
            i <= n,
            v@.len() == i,
            forall|j: int| 0 <= j < i ==> ne_u16(b@[2 * j], b@[2 * j + 1], #[trigger] v@[j].0),
        decreases n - i,
    {
        v.push(Gray(u16_from_ne_bytes([b[2 * i], b[2 * i + 1]])));
        i = i + 1;
    }
    v
}

/// The colour space of decoded JPEG pixels of the given layout.
pub open spec fn jpeg_pixel_space(format: JpegPixelFormat) -> ColorSpace {
    match format {
        JpegPixelFormat::L8 | JpegPixelFormat::L16 => ColorSpace::Gray,
        JpegPixelFormat::RGB24 => ColorSpace::Rgb,
        JpegPixelFormat::CMYK32 => ColorSpace::Cmyk,
    }
}

/// Whether the profile applies to decoded JPEG pixels of the given layout (see
/// [`profile_applies`]).
#[verifier::opaque]
pub open spec fn jpeg_profile_applies(profile: Option<ColorProfile>, format: JpegPixelFormat) -> bool {
    profile matches Some(p) && profile_applies(jpeg_pixel_space(format), p.space(), p.description())
}

/// What the decoded JPEG pixel bytes `px` of the frame `info` become with the profile opened
/// from the ICC bytes `icc`, if any: grey and RGB pixels (16-bit grey read in the machine's
/// byte order) as [`profile_image`] says, without alpha; CMYK pixels converted into 16-bit
/// RGB by the profile that [`cmyk_icc_used`] picks.
pub open spec fn jpeg_frame_image(px: Seq<u8>, info: JpegInfo, icc: Option<Seq<u8>>, frame: Pixels) -> bool {
    match info.pixel_format {
        JpegPixelFormat::L8 => profile_image::<Gray<u8>>(icc, true, stored_pixels(px), frame),
        JpegPixelFormat::RGB24 => profile_image::<RGB<u8>>(icc, true, stored_pixels(px), frame),
        JpegPixelFormat::L16 => exists|g: Seq<Gray<u16>>|
            ne_gray16(px, g) && #[trigger] profile_image::<Gray<u16>>(icc, true, g, frame),
        JpegPixelFormat::CMYK32 => frame matches Pixels::RGB16(v) && (px.len() / 4 <= u32::MAX
            ==> lcms_converted(cmyk_icc_used(icc, px.len() / 4), stored_pixels::<CMYK>(px), v)),
    }
}

/// Whether decoded JPEG pixels of the frame `info`, `n` of them, convert with the kept profile
/// opened from `icc`, if any: grey and RGB pixels always; CMYK pixels where that profile
/// converts them, or else the built-in CMYK profile opens and converts them (see
/// [`cmyk_to_image`]).
pub open spec fn jpeg_frame_converts(info: JpegInfo, icc: Option<Seq<u8>>, n: nat) -> bool {
    ||| info.pixel_format != JpegPixelFormat::CMYK32
    ||| (icc matches Some(b) && cmyk_converts(b, n))
    ||| (icc_accepted(cmyk_icc()) && cmyk_converts(cmyk_icc(), n))
}

/// The image of decoded JPEG pixels, converted by `profile` where it applies; alpha never
/// occurs, so converted pixels are opaque 16-bit ones. CMYK pixels are always converted.
///
/// `Err(UnsupportedJpeg)` where the width is zero, and where no profile converts CMYK pixels
/// (see [`jpeg_frame_converts`]).
pub fn jpeg_to_image(pixels: Vec<u8>, info: JpegInfo, profile: Option<ColorProfile>, meta: ImageMeta) -> (r: Result<Image, Error>)
    ensures
        r matches Err(e) ==> e is UnsupportedJpeg,
        info.width > 0 && jpeg_frame_converts(info, icc_of(profile), jpeg_pixel_count(pixels@, info.pixel_format) as nat)
            ==> r is Ok,
        r matches Ok(img) ==> {
            &&& img.width == info.width
            &&& img.height == info.height
            &&& img.meta == meta
            &&& !img.bitmap@.has_alpha()
            &&& info.pixel_format == JpegPixelFormat::L8 ==> img.bitmap@.len() == pixels@.len()
            &&& info.pixel_format == JpegPixelFormat::L16 ==> img.bitmap@.len() == pixels@.len() / 2
            &&& info.pixel_format == JpegPixelFormat::RGB24 ==> img.bitmap@.len() == pixels@.len() / 3
            &&& info.pixel_format == JpegPixelFormat::CMYK32 ==> img.bitmap@.len() == pixels@.len() / 4
                && img.bitmap@ is RGB16
            &&& !jpeg_profile_applies(profile, info.pixel_format) && info.pixel_format == JpegPixelFormat::L8
                ==> img.bitmap@ == Pixels::GRAY8(stored_pixels(pixels@))
            &&& !jpeg_profile_applies(profile, info.pixel_format) && info.pixel_format == JpegPixelFormat::RGB24
                ==> img.bitmap@ == Pixels::RGB8(stored_pixels(pixels@))
            &&& !jpeg_profile_applies(profile, info.pixel_format) && info.pixel_format == JpegPixelFormat::L16
                ==> (img.bitmap@ matches Pixels::GRAY16(g) && ne_gray16(pixels@, g))
            &&& jpeg_frame_image(pixels@, info, icc_of(profile), img.bitmap@)
        },
{
    reveal(jpeg_profile_applies);
    let width = info.width as usize;
    let height = info.height as usize;
    if width == 0 {
        return Err(Error::UnsupportedJpeg);
    }
    match info.pixel_format {
        JpegPixelFormat::L8 => {
            let px: Vec<Gray<u8>> = Gray::<u8>::to_native(pixels.as_slice());
            assert(px@ =~= stored_pixels::<Gray<u8>>(pixels@));
            Ok(to_image(px, profile, width, height, true, meta))
        },
        JpegPixelFormat::L16 => {
            let px = gray16_from_ne_bytes(&pixels);
            let img = to_image(px, profile, width, height, true, meta);
            assert(ne_gray16(pixels@, px@) && profile_image::<Gray<u16>>(icc_of(profile), true, px@, img.bitmap@));
            Ok(img)
        },
        JpegPixelFormat::RGB24 => {
            let px: Vec<RGB<u8>> = RGB::<u8>::to_native(pixels.as_slice());
            assert(px@ =~= stored_pixels::<RGB<u8>>(pixels@));
            Ok(to_image(px, profile, width, height, true, meta))
        },
        JpegPixelFormat::CMYK32 => {
            let px: Vec<CMYK> = CMYK::to_native(pixels.as_slice());
            assert(px@ =~= stored_pixels::<CMYK>(pixels@));
            match cmyk_to_image(px, profile, width, height, meta) {
                Some(img) => Ok(img),
                None => Err(Error::UnsupportedJpeg),
            }
        },
    }
}

/// The number of pixels that decoded bytes of the given layout hold.
pub open spec fn jpeg_pixel_count(bytes: Seq<u8>, format: JpegPixelFormat) -> int {
    match format {
        JpegPixelFormat::L8 => bytes.len() as int,
        JpegPixelFormat::L16 => bytes.len() as int / 2,
        JpegPixelFormat::RGB24 => bytes.len() as int / 3,
        JpegPixelFormat::CMYK32 => bytes.len() as int / 4,
    }
}

/// The ICC profile that the loader considers for the JPEG file `data`: the embedded one, or,
/// where there is none, Adobe RGB (1998) where the EXIF primaries name it (`adobe`).
pub open spec fn jpeg_profile_source(data: Seq<u8>, adobe: bool) -> Option<Seq<u8>> {
    match jpeg_icc(data) {
        Some(icc) => Some(icc),
        None => if adobe {
            Some(adobe1998_icc())
        } else {
            None
        },
    }
}

/// Whether the loader applies a colour profile to the JPEG file `data` under the strategy:
/// where the profile it considers opens in Little CMS and the strategy keeps it (see
/// [`keeps_profile`]).
pub open spec fn jpeg_profile_kept(data: Seq<u8>, adobe: bool, strategy: Profiles) -> bool {
    &&& jpeg_profile_source(data, adobe) matches Some(icc)
    &&& icc_accepted(icc)
    &&& keeps_profile(strategy, icc_description(icc))
}

/// Whether a kept profile (see [`jpeg_profile_kept`]) applies to the decoded pixels of the
/// JPEG file `data`: it describes their colour space and, for RGB, does not name itself sRGB.
#[verifier::opaque]
pub open spec fn jpeg_profile_applied(data: Seq<u8>, adobe: bool, strategy: Profiles) -> bool {
    &&& jpeg_profile_kept(data, adobe, strategy)
    &&& jpeg_frame(data) matches Some(info)
    &&& profile_applies(
        jpeg_pixel_space(info.pixel_format),
        icc_color_space(jpeg_profile_source(data, adobe)->0),
        icc_description(jpeg_profile_source(data, adobe)->0),
    )
}

/// Where no kept profile applies to a decoded JPEG file, the profile that the loader opened
/// for it does not apply to its pixels.
proof fn lemma_profile_not_applied(data: Seq<u8>, adobe: bool, strategy: Profiles, profile: Option<ColorProfile>, info: JpegInfo)
    requires
        jpeg_frame(data) == Some(info),
        profile is Some ==> jpeg_profile_kept(data, adobe, strategy),
        profile matches Some(p) ==> p.icc_data() == jpeg_profile_source(data, adobe)->0,
        !jpeg_profile_applied(data, adobe, strategy),
    ensures
        !jpeg_profile_applies(profile, info.pixel_format),
{
    reveal(jpeg_profile_applied);
    reveal(jpeg_profile_applies);
    if profile is Some {
        profile->0.lemma_read_from_icc();
    }
}

/// The ICC bytes of the profile that the loader opens for the JPEG file `data`, where it
/// keeps one (see [`jpeg_profile_kept`]).
pub open spec fn jpeg_kept_icc(data: Seq<u8>, adobe: bool, strategy: Profiles) -> Option<Seq<u8>> {
    if jpeg_profile_kept(data, adobe, strategy) {
        jpeg_profile_source(data, adobe)
    } else {
        None
    }
}

/// What a loaded JPEG file holds, where `reading` is what the loader read from its EXIF
/// data (see [`exif_reading`]): the decoded frame turned upright by the orientation,
/// without alpha. The frame is what [`jpeg_frame_image`] says with the kept profile (see
/// [`jpeg_kept_icc`]); in particular, where no colour profile applies (see
/// [`jpeg_profile_applied`]), grey and RGB pixels are those decoded, 16-bit grey ones read
/// in the machine's byte order, and CMYK pixels become 16-bit RGB.
#[verifier::opaque]
pub open spec fn jpeg_loaded(data: Seq<u8>, reading: (u16, bool), strategy: Profiles, width: usize, height: usize, pixels: Pixels) -> bool {
    match (jpeg_decoding(data), jpeg_frame(data)) {
        (Some(px), Some(info)) => {
            let rot = exif_rotation(reading.0);
            let w = info.width as int;
            let h = info.height as int;
            &&& width == rotated_width(rot, w, h)
            &&& height == rotated_height(rot, w, h)
            &&& width * height == w * h
            &&& !pixels.has_alpha()
            &&& jpeg_pixel_count(px, info.pixel_format) == w * h ==> pixels.len() == width * height
            &&& info.pixel_format == JpegPixelFormat::CMYK32 ==> pixels is RGB16
            &&& !jpeg_profile_applied(data, reading.1, strategy) ==> {
                &&& info.pixel_format == JpegPixelFormat::L8 ==> pixels == Pixels::GRAY8(stored_pixels(px)).rotated(w, h, rot)
                &&& info.pixel_format == JpegPixelFormat::RGB24 ==> pixels == Pixels::RGB8(stored_pixels(px)).rotated(w, h, rot)
                &&& info.pixel_format == JpegPixelFormat::L16 ==> exists|g: Seq<Gray<u16>>|
                    ne_gray16(px, g) && pixels == #[trigger] Pixels::GRAY16(g).rotated(w, h, rot)
            }
            &&& exists|frame: Pixels| jpeg_frame_image(px, info, jpeg_kept_icc(data, reading.1, strategy), frame)
                && pixels == #[trigger] frame.rotated(w, h, rot)
        },
        _ => false,
    }
}

/// What [`jpeg_to_image`] makes of a decoded frame, turned upright, is what
/// [`jpeg_loaded`] says.
proof fn lemma_jpeg_loaded(data: Seq<u8>, reading: (u16, bool), strategy: Profiles, px: Seq<u8>, info: JpegInfo, frame: Image, img: Image)
    requires
        jpeg_decoding(data) == Some(px),
        jpeg_frame(data) == Some(info),
        frame.width == info.width,
        frame.height == info.height,
        frame.bitmap@.len() == jpeg_pixel_count(px, info.pixel_format),
        !frame.bitmap@.has_alpha(),
        frame.bitmap@.len() == frame.width * frame.height ==> img.bitmap@.len() == img.width * img.height,
        jpeg_frame_image(px, info, jpeg_kept_icc(data, reading.1, strategy), frame.bitmap@),
        info.pixel_format == JpegPixelFormat::CMYK32 ==> frame.bitmap@ is RGB16,
        !jpeg_profile_applied(data, reading.1, strategy) && info.pixel_format == JpegPixelFormat::L8
            ==> frame.bitmap@ == Pixels::GRAY8(stored_pixels(px)),
        !jpeg_profile_applied(data, reading.1, strategy) && info.pixel_format == JpegPixelFormat::RGB24
            ==> frame.bitmap@ == Pixels::RGB8(stored_pixels(px)),
        !jpeg_profile_applied(data, reading.1, strategy) && info.pixel_format == JpegPixelFormat::L16
            ==> (frame.bitmap@ matches Pixels::GRAY16(g) && ne_gray16(px, g)),
        img.width == rotated_width(exif_rotation(reading.0), frame.width as int, frame.height as int),
        img.height == rotated_height(exif_rotation(reading.0), frame.width as int, frame.height as int),
        img.bitmap@ == frame.bitmap@.rotated(frame.width as int, frame.height as int, exif_rotation(reading.0)),
    ensures
        jpeg_loaded(data, reading, strategy, img.width, img.height, img.bitmap@),
{
    reveal(jpeg_loaded);
    let rot = exif_rotation(reading.0);
    let rw = rotated_width(rot, info.width as int, info.height as int);
    let rh = rotated_height(rot, info.width as int, info.height as int);
    assert(rw * rh == info.width * info.height) by (nonlinear_arith)
        requires
            (rw == info.width && rh == info.height) || (rw == info.height && rh == info.width),
    ;
    assert(jpeg_frame_image(px, info, jpeg_kept_icc(data, reading.1, strategy), frame.bitmap@)
        && img.bitmap@ == frame.bitmap@.rotated(info.width as int, info.height as int, rot));
    if !jpeg_profile_applied(data, reading.1, strategy) && info.pixel_format == JpegPixelFormat::L16 {
        let g = frame.bitmap@->GRAY16_0;
        assert(ne_gray16(px, g) && img.bitmap@ == Pixels::GRAY16(g).rotated(info.width as int, info.height as int, exif_rotation(reading.0)));
    }
}

/// Whether the JPEG loader succeeds on the file `data`, where `reading` is what it read from
/// the EXIF data: jpeg-decoder decodes it to a frame of non-zero width whose pixels convert
/// (see [`jpeg_frame_converts`]) and fill the frame as far as the rotation needs (see
/// [`can_rotate`]).
pub open spec fn jpeg_loads(data: Seq<u8>, reading: (u16, bool), strategy: Profiles) -> bool {
    &&& jpeg_decoding(data) matches Some(px)
    &&& jpeg_frame(data) matches Some(info)
    &&& info.width > 0
    &&& jpeg_frame_converts(info, jpeg_kept_icc(data, reading.1, strategy), jpeg_pixel_count(px, info.pixel_format) as nat)
    &&& can_rotate(jpeg_pixel_count(px, info.pixel_format), info.width as int, info.height as int, exif_rotation(reading.0))
}

/// The EXIF data of a JPEG file, for rexif to read: what `jpeg_decoder` reports after
/// decoding it (see [`jpeg_exif`]); `None` for data of another format (see
/// [`sniffed_format`]), data that does not decode, and files that carry none.
pub fn jpeg_exif_of(data: &[u8]) -> (r: Option<Vec<u8>>)
    ensures
        sniffed_format(data@) != Format::Jpeg || jpeg_decoding(data@) is None ==> r is None,
        sniffed_format(data@) == Format::Jpeg && jpeg_decoding(data@) is Some ==> match r {
            Some(v) => jpeg_exif(data@) == Some(v@),
            None => jpeg_exif(data@) is None,
        },
{
    if sniff_format(data) != Format::Jpeg {
        return None;
    }
    let mut dec = JpegDecoder::new(data);
    match dec.decode() {
        Ok(_) => jpeg_exif_data(&dec),
        Err(_) => None,
    }
}

impl Loader {
    /// The colour profile to apply to a decoded JPEG file: the embedded one, or Adobe RGB
    /// (1998) where there is none and the EXIF primaries name it, as far as
    /// [`Loader::process_profile`] keeps it.
    fn jpeg_profile(&self, dec: &JpegDecoder, is_adobe_1998: bool) -> (profile: Option<ColorProfile>)
        requires
            dec@.1 == Some(true),
        ensures
            profile is Some <==> jpeg_profile_kept(dec@.0, is_adobe_1998, self.profile_strategy()),
            profile matches Some(p) ==> p.icc_data() == jpeg_profile_source(dec@.0, is_adobe_1998)->0,
    {
        let icc = match jpeg_icc_profile(dec) {
            Some(icc) => Some(icc),
            None => if is_adobe_1998 { Some(crate::profiles::adobe1998()) } else { None },
        };
        match icc {
            Some(icc) => self.process_profile(ColorProfile::from_icc(icc.as_slice())),
            None => None,
        }
    }

    /// Loads a JPEG file from memory, applies its colour profile (embedded, or Adobe RGB
    /// (1998) where the EXIF primaries name it) and turns it upright by its EXIF orientation.
    /// `exif` is what rexif read from the file's EXIF data (see [`jpeg_exif_of`]).
    ///
    /// `Err(Jpeg)` where the decoder fails; `Err(UnsupportedJpeg)` where it reports no frame,
    /// the width is zero, no profile converts CMYK pixels, or the pixels do not fill the frame.
    pub fn load_jpeg(&self, data: &[u8], exif: Option<Vec<ExifField>>) -> (r: Result<Image, Error>)
        ensures
            jpeg_decoding(data@) is None ==> (r matches Err(e) && e is Jpeg),
            r matches Err(e) ==> (e is Jpeg || e is UnsupportedJpeg),
            r matches Ok(img) ==> img.meta.format == Format::Jpeg && img.meta.chunks@.len() == 0
                && jpeg_loaded(data@, exif_reading(exif), self.profile_strategy(), img.width, img.height, img.bitmap@),
            jpeg_loads(data@, exif_reading(exif), self.profile_strategy()) ==> r is Ok,
    {
        let mut dec = JpegDecoder::new(data);
        let pixels = match dec.decode() {
            Ok(p) => p,
            Err(e) => return Err(Error::Jpeg(e)),
        };
        let info = match jpeg_info(&dec) {
            Some(i) => i,
            None => return Err(Error::UnsupportedJpeg),
        };
        let (orientation, is_adobe_1998) = parse_exif(&exif);
        let profile = self.jpeg_profile(&dec, is_adobe_1998);
        proof {
            if !jpeg_profile_applied(data@, is_adobe_1998, self.profile_strategy()) {
                lemma_profile_not_applied(data@, is_adobe_1998, self.profile_strategy(), profile, info);
            }
        }
        let meta = ImageMeta::new(Format::Jpeg, Vec::new());
        let ghost px = pixels@;
        let frame = jpeg_to_image(pixels, info, profile, meta)?;
        let rotation = Rotate::from_exif_orientation(orientation);
        if !can_rotate_exec(frame.bitmap.len(), frame.width, frame.height, rotation) {
            return Err(Error::UnsupportedJpeg);
        }
        let ghost before = frame;
        let img = frame.rotated(rotation);
        proof {
            lemma_jpeg_loaded(data@, exif_reading(exif), self.profile_strategy(), px, info, before, img);
        }
        Ok(img)
    }
}

} // verus!
