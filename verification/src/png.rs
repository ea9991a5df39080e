use vstd::prelude::*;

use crate::alpha::{all_opaque, is_opaque};
use crate::color::{icc_of, profile_applies, profile_image, to_image, ColorProfile};
use crate::endian::{stored_pixels, NativeEndian};
use crate::error::Error;
use crate::format::Format;
use crate::image::{dims_ok, Image, ImageData, ImageMeta, Pixels};
use crate::lcms::{icc_accepted, icc_color_space, icc_description, ColorSpace};
use crate::loader::{keeps_profile, Loader, Profiles};
use crate::palette::{
    from_palette, gray_level, gray_palette, indices_fit, indices_in_palette, palette_lookup, supported_depth,
};
use crate::pixel::{Gray, GrayAlpha, RGB, RGBA, RGBA8};
use crate::pngdec::{
    be32, png_bit_depth, png_chunk_present, png_color_type, png_decoding, png_get_icc, png_has_chunk, png_icc_data,
    png_buffer_kind, png_buffer_kind_exec, png_inspection, png_palette, png_raw_bit_depth, png_raw_color_type, png_raw_palette, PngColorType, PngDecoder,
    PngKind,
};

verus! {

/// What the PNG decoder hands back: the layout and size of the decoded buffer, its bytes,
/// and the colour type, bit depth and palette of the file.
pub struct PngDecoded {
    pub kind: PngKind,
    pub width: usize,
    pub height: usize,
    pub bytes: Vec<u8>,
    pub color_type: PngColorType,
    pub bit_depth: u32,
    pub palette: Vec<RGBA8>,
}

/// The `2^depth` greys of [`gray_palette`].
pub open spec fn gray_palette_seq(depth: u8) -> Seq<Gray<u8>> {
    Seq::new(vstd::arithmetic::power2::pow2(depth as nat), |c: int| Gray(gray_level(c, depth)))
}

/// The pixels that a decoded PNG buffer gives when no colour profile is applied, or the
/// decoder error code that refuses it: 93 for a size that no 2D buffer takes, 59 for a
/// packed buffer of a colour type or bit depth that cannot be expanded, 46 for a palette
/// index past the end of the palette.
pub open spec fn png_pixels(
    kind: PngKind,
    width: usize,
    height: usize,
    b: Seq<u8>,
    color_type: PngColorType,
    bit_depth: u32,
    palette: Seq<RGBA8>,
) -> Result<Pixels, u32> {
    let w = width as int;
    let h = height as int;
    let depth = bit_depth as u8;
    if !(dims_ok(w, h) && w * h <= usize::MAX) {
        Err(93)
    } else {
        match kind {
            PngKind::Rgba8 => Ok(Pixels::RGBA8(stored_pixels(b))),
            PngKind::Rgb8 => Ok(Pixels::RGB8(stored_pixels(b))),
            PngKind::Rgba16 => Ok(Pixels::RGBA16(stored_pixels(b))),
            PngKind::Rgb16 => Ok(Pixels::RGB16(stored_pixels(b))),
            PngKind::Grey8 => Ok(Pixels::GRAY8(stored_pixels(b))),
            PngKind::Grey16 => Ok(Pixels::GRAY16(stored_pixels(b))),
            PngKind::GreyAlpha8 => Ok(Pixels::GRAYA8(stored_pixels(b))),
            PngKind::GreyAlpha16 => Ok(Pixels::GRAYA16(stored_pixels(b))),
            PngKind::Raw => {
                if color_type == PngColorType::Palette {
                    if !supported_depth(depth) {
                        Err(59)
                    } else if !indices_in_palette(b, palette.len() as int, depth, w * h) {
                        Err(46)
                    } else {
                        Ok(Pixels::RGBA8(palette_lookup(b, palette, depth, w * h)))
                    }
                } else if color_type == PngColorType::Grey {
                    if !supported_depth(depth) {
                        Err(59)
                    } else if !indices_in_palette(b, vstd::arithmetic::power2::pow2(depth as nat) as int, depth, w * h) {
                        Err(46)
                    } else {
                        Ok(Pixels::GRAY8(palette_lookup(b, gray_palette_seq(depth), depth, w * h)))
                    }
                } else {
                    Err(59)
                }
            },
        }
    }
}

/// The colour space of a decoded PNG's pixels, which a profile must describe to apply.
pub open spec fn png_pixel_space(kind: PngKind, color_type: PngColorType) -> ColorSpace {
    match kind {
        PngKind::Rgba8 | PngKind::Rgb8 | PngKind::Rgba16 | PngKind::Rgb16 => ColorSpace::Rgb,
        PngKind::Grey8 | PngKind::Grey16 | PngKind::GreyAlpha8 | PngKind::GreyAlpha16 => ColorSpace::Gray,
        PngKind::Raw => if color_type == PngColorType::Palette {
            ColorSpace::Rgb
        } else if color_type == PngColorType::Grey {
            ColorSpace::Gray
        } else {
            ColorSpace::Other
        },
    }
}

/// [`png_pixels`] of a decoded PNG.
pub open spec fn png_outcome(d: PngDecoded) -> Result<Pixels, u32> {
    png_pixels(d.kind, d.width, d.height, d.bytes@, d.color_type, d.bit_depth, d.palette@)
}

/// The pixels that the PNG file `data` gives when no colour profile is applied, or the error
/// code that refuses it: the header's, 92 for more than 10000×10000 pixels, the decoder's,
/// or that of [`png_pixels`].
pub open spec fn png_file_pixels(data: Seq<u8>) -> Result<Pixels, u32> {
    match png_inspection(data) {
        Err(c) => Err(c),
        Ok(size) => if size.0 * size.1 > 10000 * 10000 {
            Err(92)
        } else {
            match png_decoding(data) {
                Err(c) => Err(c),
                Ok(d) => {
                    let ct = png_raw_color_type(data);
                    let depth = png_raw_bit_depth(data);
                    png_pixels(png_buffer_kind(ct, depth), d.0, d.1, d.2, ct, depth, png_raw_palette(data))
                },
            }
        },
    }
}

/// The packed samples of `buf` looked up in the pixels of `pal`, which keep their format
/// (see [`palette_lookup`]).
pub open spec fn looked_up(pal: Pixels, buf: Seq<u8>, depth: u8, area: int) -> Pixels {
    match pal {
        Pixels::RGB8(p) => Pixels::RGB8(palette_lookup(buf, p, depth, area)),
        Pixels::RGBA8(p) => Pixels::RGBA8(palette_lookup(buf, p, depth, area)),
        Pixels::RGB16(p) => Pixels::RGB16(palette_lookup(buf, p, depth, area)),
        Pixels::RGBA16(p) => Pixels::RGBA16(palette_lookup(buf, p, depth, area)),
        Pixels::GRAY8(p) => Pixels::GRAY8(palette_lookup(buf, p, depth, area)),
        Pixels::GRAY16(p) => Pixels::GRAY16(palette_lookup(buf, p, depth, area)),
        Pixels::GRAYA8(p) => Pixels::GRAYA8(palette_lookup(buf, p, depth, area)),
        Pixels::GRAYA16(p) => Pixels::GRAYA16(palette_lookup(buf, p, depth, area)),
    }
}

/// What [`png_to_image`] makes of a decoded buffer with the profile opened from the ICC
/// bytes `icc`, if any. Unpacked layouts: the stored pixels as [`profile_image`] says,
/// where pixels with alpha convert without it when `opaque` is set or every pixel is fully
/// opaque. Packed palette indices: the palette as [`profile_image`] says (without alpha on
/// the same terms), then looked up by the indices; packed grey levels: the evenly spaced
/// greys as [`profile_image`] says, without alpha, then looked up by the levels.
pub open spec fn png_converted_image(
    kind: PngKind,
    bytes: Seq<u8>,
    color_type: PngColorType,
    bit_depth: u32,
    palette: Seq<RGBA8>,
    area: int,
    icc: Option<Seq<u8>>,
    opaque: bool,
    bitmap: Pixels,
) -> bool {
    let depth = bit_depth as u8;
    match kind {
        PngKind::Rgba8 => profile_image::<RGBA<u8>>(
            icc, opaque || all_opaque(stored_pixels::<RGBA<u8>>(bytes)), stored_pixels(bytes), bitmap),
        PngKind::Rgb8 => profile_image::<RGB<u8>>(icc, opaque, stored_pixels(bytes), bitmap),
        PngKind::Rgba16 => profile_image::<RGBA<u16>>(
            icc, opaque || all_opaque(stored_pixels::<RGBA<u16>>(bytes)), stored_pixels(bytes), bitmap),
        PngKind::Rgb16 => profile_image::<RGB<u16>>(icc, opaque, stored_pixels(bytes), bitmap),
        PngKind::Grey8 => profile_image::<Gray<u8>>(icc, opaque, stored_pixels(bytes), bitmap),
        PngKind::Grey16 => profile_image::<Gray<u16>>(icc, opaque, stored_pixels(bytes), bitmap),
        PngKind::GreyAlpha8 => profile_image::<GrayAlpha<u8>>(
            icc, opaque || all_opaque(stored_pixels::<GrayAlpha<u8>>(bytes)), stored_pixels(bytes), bitmap),
        PngKind::GreyAlpha16 => profile_image::<GrayAlpha<u16>>(
            icc, opaque || all_opaque(stored_pixels::<GrayAlpha<u16>>(bytes)), stored_pixels(bytes), bitmap),
        PngKind::Raw => if color_type == PngColorType::Palette {
            exists|pal: Pixels|
                profile_image::<RGBA<u8>>(icc, opaque || all_opaque(palette), palette, pal)
                    && bitmap == #[trigger] looked_up(pal, bytes, depth, area)
        } else {
            exists|pal: Pixels|
                profile_image::<Gray<u8>>(icc, true, gray_palette_seq(depth), pal)
                    && bitmap == #[trigger] looked_up(pal, bytes, depth, area)
        },
    }
}

/// Decodes the stored bytes as pixels of type `P`.
fn stored<P: NativeEndian>(bytes: &Vec<u8>) -> (v: Vec<P>)
    ensures
        v@ == stored_pixels::<P>(bytes@),
{
    let v = P::to_native(bytes.as_slice());
    assert(v@ =~= stored_pixels::<P>(bytes@));
    v
}

/// A fresh metadata record of a PNG file.
fn png_meta() -> (m: ImageMeta)
    ensures
        m.format == Format::Png,
        m.chunks@.len() == 0,
{
    ImageMeta::new(Format::Png, Vec::new())
}

/// The image of a decoded PNG, converted by `profile` where it applies.
///
/// Pixels that carry alpha keep it unless `opaque` is set or every pixel is fully opaque,
/// in which case a conversion drops it. Packed palette indices and grey levels are expanded
/// through the palette (or the evenly spaced greys), which is converted first.
pub fn png_to_image(d: PngDecoded, profile: Option<ColorProfile>, opaque: bool, meta: ImageMeta) -> (r: Result<Image, Error>)
    requires
        d.palette@.len() <= u32::MAX,
    ensures
        r.is_ok() == png_outcome(d) is Ok,
        r matches Err(e) ==> (e matches Error::Png(c) && png_outcome(d) == Err::<Pixels, u32>(c)),
        r matches Ok(img) ==> {
            &&& img.width == d.width
            &&& img.height == d.height
            &&& img.meta == meta
            &&& img.bitmap@.len() == png_outcome(d)->Ok_0.len()
            &&& profile.is_none() ==> img.bitmap@ == png_outcome(d)->Ok_0
            &&& (profile matches Some(p) && !profile_applies(png_pixel_space(d.kind, d.color_type), p.space(), p.description()))
                ==> img.bitmap@ == png_outcome(d)->Ok_0
            &&& png_converted_image(d.kind, d.bytes@, d.color_type, d.bit_depth, d.palette@, d.width * d.height,
                icc_of(profile), opaque, img.bitmap@)
        },
{
    let ghost outcome = png_outcome(d);
    let w = d.width;
    let h = d.height;
    if !(w > 0 && w <= 0xffff_ffff && h <= 0xffff_ffff) {
        return Err(Error::Png(93));
    }
    let area = match w.checked_mul(h) {
        Some(a) => a,
        None => return Err(Error::Png(93)),
    };
    match d.kind {
        PngKind::Rgba8 => {
            let px: Vec<RGBA<u8>> = stored(&d.bytes);
            let op = opaque || is_opaque(px.as_slice());
            Ok(to_image(px, profile, w, h, op, meta))
        },
        PngKind::Rgb8 => {
            let px: Vec<RGB<u8>> = stored(&d.bytes);
            Ok(to_image(px, profile, w, h, opaque, meta))
        },
        PngKind::Rgba16 => {
            let px: Vec<RGBA<u16>> = stored(&d.bytes);
            let op = opaque || is_opaque(px.as_slice());
            Ok(to_image(px, profile, w, h, op, meta))
        },
        PngKind::Rgb16 => {
            let px: Vec<RGB<u16>> = stored(&d.bytes);
            Ok(to_image(px, profile, w, h, opaque, meta))
        },
        PngKind::Grey8 => {
            let px: Vec<Gray<u8>> = stored(&d.bytes);
            Ok(to_image(px, profile, w, h, opaque, meta))
        },
        PngKind::Grey16 => {
            let px: Vec<Gray<u16>> = stored(&d.bytes);
            Ok(to_image(px, profile, w, h, opaque, meta))
        },
        PngKind::GreyAlpha8 => {
            let px: Vec<GrayAlpha<u8>> = stored(&d.bytes);
            let op = opaque || is_opaque(px.as_slice());
            Ok(to_image(px, profile, w, h, op, meta))
        },
        PngKind::GreyAlpha16 => {
            let px: Vec<GrayAlpha<u16>> = stored(&d.bytes);
            let op = opaque || is_opaque(px.as_slice());
            Ok(to_image(px, profile, w, h, op, meta))
        },
        PngKind::Raw => {
            let depth = #[verifier::truncate] (d.bit_depth as u8);
            if d.color_type == PngColorType::Palette {
                if !(depth == 1 || depth == 2 || depth == 4 || depth == 8) {
                    return Err(Error::Png(59));
                }
                if !indices_fit(d.bytes.as_slice(), d.palette.len(), depth, area) {
                    return Err(Error::Png(46));
                }
                let ncolors = d.palette.len();
                let op = opaque || is_opaque(d.palette.as_slice());
                let pal = to_image(d.palette, profile, 1, ncolors, op, png_meta());
                let ghost pal_px = pal.bitmap@;
                let b = d.bytes.as_slice();
                let expanded = match pal.bitmap {
                    ImageData::RGBA8(p) => Image::from_opts(from_palette(b, p.as_slice(), depth, w, h).unwrap(), meta),
                    ImageData::RGB16(p) => Image::from_opts(from_palette(b, p.as_slice(), depth, w, h).unwrap(), meta),
                    ImageData::RGBA16(p) => Image::from_opts(from_palette(b, p.as_slice(), depth, w, h).unwrap(), meta),
                    _ => return Err(Error::Png(59)),
                };
                assert(expanded.bitmap@ == looked_up(pal_px, d.bytes@, depth, d.width * d.height));
                Ok(expanded)
            } else if d.color_type == PngColorType::Grey {
                if !(depth == 1 || depth == 2 || depth == 4 || depth == 8) {
                    return Err(Error::Png(59));
                }
                let gp = gray_palette(depth);
                proof {
                    vstd::arithmetic::power2::lemma2_to64();
                }
                let ncolors = gp.len();
                if !indices_fit(d.bytes.as_slice(), ncolors, depth, area) {
                    return Err(Error::Png(46));
                }
                proof {
                    assert(gp@ =~= gray_palette_seq(depth));
                }
                let pal = to_image(gp, profile, 1, ncolors, true, png_meta());
                let ghost pal_px = pal.bitmap@;
                let b = d.bytes.as_slice();
                let expanded = match pal.bitmap {
                    ImageData::GRAY8(p) => Image::from_opts(from_palette(b, p.as_slice(), depth, w, h).unwrap(), meta),
                    ImageData::GRAY16(p) => Image::from_opts(from_palette(b, p.as_slice(), depth, w, h).unwrap(), meta),
                    _ => return Err(Error::Png(59)),
                };
                assert(expanded.bitmap@ == looked_up(pal_px, d.bytes@, depth, d.width * d.height));
                Ok(expanded)
            } else {
                Err(Error::Png(59))
            }
        },
    }
}

/// Whether the loader applies the embedded ICC profile of the PNG file `data` under the
/// strategy: never where the file has an `sRGB` chunk; otherwise where it has a profile
/// that Little CMS opens and the strategy keeps (see [`keeps_profile`]).
pub open spec fn png_profile_kept(data: Seq<u8>, strategy: Profiles) -> bool {
    &&& !png_chunk_present(data, "sRGB"@)
    &&& png_icc_data(data) matches Some(icc)
    &&& icc_accepted(icc)
    &&& keeps_profile(strategy, icc_description(icc))
}

/// Whether a kept profile (see [`png_profile_kept`]) applies to the decoded pixels of the
/// PNG file `data`: it describes their colour space and, for RGB, does not name itself sRGB.
pub open spec fn png_profile_applied(data: Seq<u8>, strategy: Profiles) -> bool {
    &&& png_profile_kept(data, strategy)
    &&& png_decoding(data) is Ok
    &&& profile_applies(
        png_pixel_space(png_buffer_kind(png_raw_color_type(data), png_raw_bit_depth(data)), png_raw_color_type(data)),
        icc_color_space(png_icc_data(data)->0),
        icc_description(png_icc_data(data)->0),
    )
}

/// The ICC bytes of the profile that the loader opens for the PNG file `data`, where it
/// keeps one (see [`png_profile_kept`]).
pub open spec fn png_kept_icc(data: Seq<u8>, strategy: Profiles) -> Option<Seq<u8>> {
    if png_profile_kept(data, strategy) {
        png_icc_data(data)
    } else {
        None
    }
}

/// What the PNG loader makes of the decoded file `data` with the settings `opaque` and
/// `strategy` (see [`png_converted_image`]).
pub open spec fn png_file_image(data: Seq<u8>, opaque: bool, strategy: Profiles, bitmap: Pixels) -> bool {
    png_converted_image(
        png_buffer_kind(png_raw_color_type(data), png_raw_bit_depth(data)),
        png_decoding(data)->Ok_0.2,
        png_raw_color_type(data),
        png_raw_bit_depth(data),
        png_raw_palette(data),
        png_decoding(data)->Ok_0.0 * png_decoding(data)->Ok_0.1,
        png_kept_icc(data, strategy),
        opaque,
        bitmap,
    )
}

/// True when the PNG header of `data` declares more than 10000×10000 pixels, the most
/// the PNG loader accepts.
pub open spec fn png_too_large(data: Seq<u8>) -> bool {
    data.len() >= 33 && be32(data, 16) * be32(data, 20) > 10000 * 10000
}

impl Loader {
    /// Loads a PNG file from memory.
    ///
    /// Headers declaring more than 10000×10000 pixels are refused with error 92 before
    /// decoding. Unless the file has an `sRGB` chunk or profiles are skipped, an embedded
    /// ICC profile that [`Loader::process_profile`] keeps is applied (see
    /// [`png_profile_applied`]); without one the pixels are those of [`png_file_pixels`].
    pub fn load_png(&self, data: &[u8]) -> (r: Result<Image, Error>)
        ensures
            r is Ok <==> png_file_pixels(data@) is Ok,
            r matches Err(e) ==> e matches Error::Png(c) && png_file_pixels(data@) == Err::<Pixels, u32>(c),
            r matches Ok(img) ==> {
                &&& png_decoding(data@) matches Ok(d) && img.width == d.0 && img.height == d.1
                &&& img.meta.format == Format::Png
                &&& img.meta.chunks@.len() == 0
                &&& img.bitmap@.len() == png_file_pixels(data@)->Ok_0.len()
                &&& !png_profile_applied(data@, self.profile_strategy()) ==> img.bitmap@ == png_file_pixels(data@)->Ok_0
                &&& png_file_image(data@, self.discards_alpha(), self.profile_strategy(), img.bitmap@)
            },
            png_too_large(data@) ==> r is Err,
    {
        proof {
            self.lemma_settings();
        }
        let opaque = self.discard_alpha;
        let mut dec = PngDecoder::new();
        let (width, height) = match dec.inspect(data) {
            Ok(dims) => dims,
            Err(c) => return Err(Error::Png(c)),
        };
        match width.checked_mul(height) {
            Some(area) => {
                if area > 10000 * 10000 {
                    return Err(Error::Png(92));
                }
            },
            None => return Err(Error::Png(92)),
        }
        let raw = match dec.decode(data) {
            Ok(raw) => raw,
            Err(c) => return Err(Error::Png(c)),
        };
        let has_srgb = png_has_chunk(&dec, "sRGB");
        let profile = if has_srgb || self.profiles == Profiles::Skip {
            None
        } else {
            match png_get_icc(&dec) {
                Some(icc) => self.process_profile(ColorProfile::from_icc(icc.as_slice())),
                None => None,
            }
        };
        let (width, height, bytes) = raw;
        let color_type = png_color_type(&dec);
        let bit_depth = png_bit_depth(&dec);
        let decoded = PngDecoded {
            kind: png_buffer_kind_exec(color_type, bit_depth),
            width,
            height,
            bytes,
            color_type,
            bit_depth,
            palette: png_palette(&dec),
        };
        png_to_image(decoded, profile, opaque, png_meta())
    }
}

} // verus!
