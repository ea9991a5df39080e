use vstd::prelude::*;
use vstd::string::StrSliceExecFns;

use crate::endian::{ne_u16, u16_to_ne_bytes};
use crate::image::{dims_ok, Image, ImageMeta, PixelKind, Pixels};
use crate::lcms::{
    format_bytes, format_bytes_exec, icc_accepted, icc_color_space, icc_description, lcms_color_space, lcms_description,
    lcms_transform_built, lcms_transform_pixels, lcms_transformed, DestProfile, IccHandle, LcmsDest, LcmsTransform,
    ColorSpace, LcmsFormat,
};
use crate::profiles::gray_icc;
use crate::pixel::{widen, widen_exec, Gray, GrayAlpha, CMYK, RGB, RGBA, RGB16};

verus! {

/// An ICC colour profile opened by Little CMS, with the header's colour space and the
/// description that the conversion logic reads from it.
pub struct ColorProfile {
    icc: IccHandle,
    space: ColorSpace,
    description: Option<String>,
}

impl ColorProfile {
    /// The space and the description are those that Little CMS reads from the ICC data.
    #[verifier::type_invariant]
    spec fn read_from_icc(&self) -> bool {
        &&& self.space == icc_color_space(self.icc@)
        &&& match &self.description {
            Some(s) => icc_description(self.icc@) == Some(s@),
            None => icc_description(self.icc@) is None,
        }
    }

    /// The colour space that the profile describes.
    pub closed spec fn space(&self) -> ColorSpace {
        icc_color_space(self.icc@)
    }

    /// The profile's `en_US` description, if it has one.
    pub closed spec fn description(&self) -> Option<Seq<char>> {
        icc_description(self.icc@)
    }

    /// The ICC data that the profile was opened from.
    pub closed spec fn icc_data(&self) -> Seq<u8> {
        self.icc@
    }

    /// The space and the description of a profile are those of its ICC data.
    pub proof fn lemma_read_from_icc(&self)
        ensures
            self.space() == icc_color_space(self.icc_data()),
            self.description() == icc_description(self.icc_data()),
    {
    }

    /// True when the description starts with `"sRGB "`.
    pub fn describes_srgb(&self) -> (r: bool)
        ensures
            r == names_srgb(self.description()),
    {
        proof {
            use_type_invariant(self);
        }
        description_names_srgb(&self.description)
    }

    /// Opens ICC profile data; `None` when the colour management engine refuses it.
    pub fn from_icc(data: &[u8]) -> (p: Option<ColorProfile>)
        ensures
            p.is_some() == icc_accepted(data@),
            data@.len() == 0 ==> p.is_none(),
            p matches Some(q) ==> q.icc_data() == data@ && q.space() == icc_color_space(data@)
                && q.description() == icc_description(data@),
    {
        match IccHandle::open(data) {
            Some(icc) => {
                let space = lcms_color_space(&icc);
                let description = lcms_description(&icc);
                Some(ColorProfile { icc, space, description })
            },
            None => None,
        }
    }
}

/// True of a description that starts with `"sRGB "`, the mark of profiles that are sRGB already.
pub open spec fn names_srgb(d: Option<Seq<char>>) -> bool {
    match d {
        Some(s) => s.len() >= 5 && s.subrange(0, 5) == seq!['s', 'R', 'G', 'B', ' '],
        None => false,
    }
}

pub fn description_names_srgb(d: &Option<String>) -> (r: bool)
    ensures
        r == names_srgb(
            match d {
                Some(s) => Some(s@),
                None => None,
            },
        ),
{
    match d {
        Some(s) => {
            let t = s.as_str();
            let n = t.unicode_len();
            if n < 5 {
                return false;
            }
            let ok = t.get_char(0) == 's' && t.get_char(1) == 'R' && t.get_char(2) == 'G'
                && t.get_char(3) == 'B' && t.get_char(4) == ' ';
            assert(ok == (s@.subrange(0, 5) =~= seq!['s', 'R', 'G', 'B', ' ']));
            ok
        },
        None => false,
    }
}

/// A profile is applied to pixels of its own colour space, except an RGB profile that
/// names itself sRGB, whose pixels need no conversion.
pub open spec fn profile_applies(pixel_space: ColorSpace, profile_space: ColorSpace, description: Option<Seq<char>>) -> bool {
    &&& profile_space == pixel_space
    &&& !(pixel_space == ColorSpace::Rgb && names_srgb(description))
}

/// Pixel types that the colour management engine reads and writes.
pub trait LcmsPixelFormat: Copy + Sized {
    spec fn lcms_format() -> LcmsFormat;

    spec fn lcms_space() -> ColorSpace;

    fn pixel_format() -> (r: (LcmsFormat, ColorSpace))
        ensures
            r.0 == Self::lcms_format(),
            r.1 == Self::lcms_space(),
    ;

    /// Whether `b` is exactly the bytes of `px` in the engine's layout: 8-bit channels as
    /// they are, 16-bit ones each in two bytes in the machine's byte order (see [`ne_u16`]).
    spec fn stored(b: Seq<u8>, px: Self) -> bool;

    /// Whether `b` is exactly the bytes of `px` in the engine's layout, 16-bit channels each
    /// in two bytes, low byte first where `le` is set, high byte first otherwise (see
    /// [`u16_in`]).
    spec fn stored_in(b: Seq<u8>, px: Self, le: bool) -> bool;

    /// Bytes in either fixed byte order are in one of the machine's two.
    proof fn lemma_stored_in(b: Seq<u8>, px: Self, le: bool)
        requires
            Self::stored_in(b, px, le),
        ensures
            Self::stored(b, px),
    ;

    /// Appends the pixel's bytes in the engine's layout, 16-bit channels in the byte order
    /// `le` (see [`LcmsPixelFormat::stored_in`]).
    fn push_bytes(&self, out: &mut Vec<u8>, le: bool)
        ensures
            final(out)@.len() == old(out)@.len() + format_bytes(Self::lcms_format()),
            final(out)@.subrange(0, old(out)@.len() as int) == old(out)@,
            Self::stored_in(final(out)@.subrange(old(out)@.len() as int, final(out)@.len() as int), *self, le),
            Self::stored(final(out)@.subrange(old(out)@.len() as int, final(out)@.len() as int), *self),
    ;
}

/// Pixel types that the colour management engine converts into.
pub trait LcmsOutput: LcmsPixelFormat + PixelKind {
    /// Reads the pixel stored in the engine's layout at byte offset `at`: each 16-bit
    /// channel, in order, from two bytes in the machine's byte order.
    fn read_bytes(b: &[u8], at: usize) -> (px: Self)
        requires
            at + format_bytes(Self::lcms_format()) <= b@.len(),
        ensures
            Self::stored(b@.subrange(at as int, at + format_bytes(Self::lcms_format())), px),
    ;

    /// Reads the pixel stored in the engine's layout at byte offset `at`, 16-bit channels in
    /// the byte order `le` (see [`LcmsPixelFormat::stored_in`]).
    fn read_bytes_in(b: &[u8], at: usize, le: bool) -> (px: Self)
        requires
            at + format_bytes(Self::lcms_format()) <= b@.len(),
        ensures
            Self::stored_in(b@.subrange(at as int, at + format_bytes(Self::lcms_format())), px, le),
    ;
}

/// The pixel types that converted pixels take: `Converted` keeps an alpha channel,
/// `ConvertedOpaque` drops it. Both are 16 bits per channel.
pub trait LcmsPixelConversion: LcmsPixelFormat + PixelKind {
    type Converted: LcmsOutput;
    type ConvertedOpaque: LcmsOutput;
}

/// Copying the alpha channel of source pixels onto converted ones, which the colour
/// management engine does not carry over.
pub trait CopyAlpha<Converted: Copy>: Copy + Sized {
    /// `d` with the alpha of `s`, widened to 16 bits where `s` has 8; `d` itself where the
    /// pixel types have no alpha.
    spec fn alpha_copied(d: Converted, s: Self) -> Converted;

    fn copy_one(s: Self, d: Converted) -> (r: Converted)
        ensures
            r == Self::alpha_copied(d, s),
    ;

    /// Copying the same alpha twice changes nothing more.
    proof fn lemma_alpha_copied_twice(d: Converted, s: Self)
        ensures
            Self::alpha_copied(Self::alpha_copied(d, s), s) == Self::alpha_copied(d, s),
    ;

    /// Copies alpha pixel by pixel, as far as both slices go.
    fn copy_alpha(src: &[Self], dst: &mut Vec<Converted>)
        ensures
            final(dst)@.len() == old(dst)@.len(),
            forall|i: int|
                0 <= i < old(dst)@.len() ==> #[trigger] final(dst)@[i] == (if i < src@.len() {
                    Self::alpha_copied(old(dst)@[i], src@[i])
                } else {
                    old(dst)@[i]
                }),
    {
        let n = if src.len() < dst.len() { src.len() } else { dst.len() };
        let mut i: usize = 0;
        while i < n
            invariant
                n <= src@.len(),
                n <= old(dst)@.len(),
                n == src@.len() || n == old(dst)@.len(),
                i <= n,
                dst@.len() == old(dst)@.len(),
                forall|j: int|
                    0 <= j < old(dst)@.len() ==> #[trigger] dst@[j] == (if j < i {
                        Self::alpha_copied(old(dst)@[j], src@[j])
                    } else {
                        old(dst)@[j]
                    }),
            decreases n - i,
        {
            let px = Self::copy_one(src[i], dst[i]);
            dst.set(i, px);
            i = i + 1;
        }
    }
}

/// The 16-bit value of the bytes `b0`, `b1`: `b0` is the low byte where `le` is set, the
/// high byte otherwise.
pub open spec fn u16_in(b0: u8, b1: u8, le: bool) -> int {
    if le {
        b0 + b1 * 256
    } else {
        b0 * 256 + b1
    }
}

/// A value stored in either fixed byte order is stored in one of the machine's two.
proof fn lemma_u16_in_ne(b0: u8, b1: u8, le: bool, x: u16)
    requires
        x == u16_in(b0, b1, le),
    ensures
        ne_u16(b0, b1, x),
{
}

/// Whether the machine stores 16-bit values low byte first: the first byte of
/// `u16::to_ne_bytes(1)`. Little CMS reads and writes 16-bit samples in that order.
fn native_little_endian() -> bool {
    let b = u16_to_ne_bytes(1);
    b[0] == 1
}

fn push_u16(out: &mut Vec<u8>, x: u16, le: bool)
    ensures
        final(out)@.len() == old(out)@.len() + 2,
        final(out)@.subrange(0, old(out)@.len() as int) == old(out)@,
        x == u16_in(final(out)@[old(out)@.len() as int], final(out)@[old(out)@.len() as int + 1], le),
{
    let lo = (x % 256) as u8;
    let hi = (x / 256) as u8;
    if le {
        out.push(lo);
        out.push(hi);
    } else {
        out.push(hi);
        out.push(lo);
    }
}

fn read_u16(b: &[u8], at: usize, le: bool) -> (x: u16)
    requires
        at + 2 <= b@.len(),
    ensures
        x == u16_in(b@[at as int], b@[at + 1], le),
{
    let b0 = b[at] as u16;
    let b1 = b[at + 1] as u16;
    if le {
        b0 + b1 * 256
    } else {
        b0 * 256 + b1
    }
}

impl LcmsPixelFormat for CMYK {
    open spec fn stored_in(b: Seq<u8>, px: Self, le: bool) -> bool {
        Self::stored(b, px)
    }

    proof fn lemma_stored_in(b: Seq<u8>, px: Self, le: bool) {
    }

    open spec fn stored(b: Seq<u8>, px: Self) -> bool {
        b.len() == 4 && b[0] == px.c && b[1] == px.m && b[2] == px.y && b[3] == px.k
    }

    open spec fn lcms_format() -> LcmsFormat {
        LcmsFormat::Cmyk8Rev
    }

    open spec fn lcms_space() -> ColorSpace {
        ColorSpace::Cmyk
    }

    fn pixel_format() -> (r: (LcmsFormat, ColorSpace)) {
        (LcmsFormat::Cmyk8Rev, ColorSpace::Cmyk)
    }

    fn push_bytes(&self, out: &mut Vec<u8>, le: bool) {
        out.push(self.c);
        out.push(self.m);
        out.push(self.y);
        out.push(self.k);
    }
}

impl LcmsPixelFormat for RGB<u8> {
    open spec fn stored_in(b: Seq<u8>, px: Self, le: bool) -> bool {
        Self::stored(b, px)
    }

    proof fn lemma_stored_in(b: Seq<u8>, px: Self, le: bool) {
    }

    open spec fn stored(b: Seq<u8>, px: Self) -> bool {
        b.len() == 3 && b[0] == px.r && b[1] == px.g && b[2] == px.b
    }

    open spec fn lcms_format() -> LcmsFormat {
        LcmsFormat::Rgb8
    }

    open spec fn lcms_space() -> ColorSpace {
        ColorSpace::Rgb
    }

    fn pixel_format() -> (r: (LcmsFormat, ColorSpace)) {
        (LcmsFormat::Rgb8, ColorSpace::Rgb)
    }

    fn push_bytes(&self, out: &mut Vec<u8>, le: bool) {
        out.push(self.r);
        out.push(self.g);
        out.push(self.b);
    }
}

impl LcmsPixelFormat for RGBA<u8> {
    open spec fn stored_in(b: Seq<u8>, px: Self, le: bool) -> bool {
        Self::stored(b, px)
    }

    proof fn lemma_stored_in(b: Seq<u8>, px: Self, le: bool) {
    }

    open spec fn stored(b: Seq<u8>, px: Self) -> bool {
        b.len() == 4 && b[0] == px.r && b[1] == px.g && b[2] == px.b && b[3] == px.a
    }

    open spec fn lcms_format() -> LcmsFormat {
        LcmsFormat::Rgba8
    }

    open spec fn lcms_space() -> ColorSpace {
        ColorSpace::Rgb
    }

    fn pixel_format() -> (r: (LcmsFormat, ColorSpace)) {
        (LcmsFormat::Rgba8, ColorSpace::Rgb)
    }

    fn push_bytes(&self, out: &mut Vec<u8>, le: bool) {
        out.push(self.r);
        out.push(self.g);
        out.push(self.b);
        out.push(self.a);
    }
}

impl LcmsPixelFormat for Gray<u8> {
    open spec fn stored_in(b: Seq<u8>, px: Self, le: bool) -> bool {
        Self::stored(b, px)
    }

    proof fn lemma_stored_in(b: Seq<u8>, px: Self, le: bool) {
    }

    open spec fn stored(b: Seq<u8>, px: Self) -> bool {
        b.len() == 1 && b[0] == px.0
    }

    open spec fn lcms_format() -> LcmsFormat {
        LcmsFormat::Gray8
    }

    open spec fn lcms_space() -> ColorSpace {
        ColorSpace::Gray
    }

    fn pixel_format() -> (r: (LcmsFormat, ColorSpace)) {
        (LcmsFormat::Gray8, ColorSpace::Gray)
    }

    fn push_bytes(&self, out: &mut Vec<u8>, le: bool) {
        out.push(self.0);
    }
}

impl LcmsPixelFormat for GrayAlpha<u8> {
    open spec fn stored_in(b: Seq<u8>, px: Self, le: bool) -> bool {
        Self::stored(b, px)
    }

    proof fn lemma_stored_in(b: Seq<u8>, px: Self, le: bool) {
    }

    open spec fn stored(b: Seq<u8>, px: Self) -> bool {
        b.len() == 2 && b[0] == px.0 && b[1] == px.1
    }

    open spec fn lcms_format() -> LcmsFormat {
        LcmsFormat::GrayA8
    }

    open spec fn lcms_space() -> ColorSpace {
        ColorSpace::Gray
    }

    fn pixel_format() -> (r: (LcmsFormat, ColorSpace)) {
        (LcmsFormat::GrayA8, ColorSpace::Gray)
    }

    fn push_bytes(&self, out: &mut Vec<u8>, le: bool) {
        out.push(self.0);
        out.push(self.1);
    }
}

impl LcmsPixelFormat for RGB<u16> {
    open spec fn stored_in(b: Seq<u8>, px: Self, le: bool) -> bool {
        b.len() == 6 && px.r == u16_in(b[0], b[1], le) && px.g == u16_in(b[2], b[3], le) && px.b == u16_in(b[4], b[5], le)
    }

    proof fn lemma_stored_in(b: Seq<u8>, px: Self, le: bool) {
    }

    open spec fn stored(b: Seq<u8>, px: Self) -> bool {
        b.len() == 6 && ne_u16(b[0], b[1], px.r) && ne_u16(b[2], b[3], px.g) && ne_u16(b[4], b[5], px.b)
    }

    open spec fn lcms_format() -> LcmsFormat {
        LcmsFormat::Rgb16
    }

    open spec fn lcms_space() -> ColorSpace {
        ColorSpace::Rgb
    }

    fn pixel_format() -> (r: (LcmsFormat, ColorSpace)) {
        (LcmsFormat::Rgb16, ColorSpace::Rgb)
    }

    fn push_bytes(&self, out: &mut Vec<u8>, le: bool) {
        push_u16(out, self.r, le);
        push_u16(out, self.g, le);
        push_u16(out, self.b, le);
    }
}

impl LcmsPixelFormat for RGBA<u16> {
    open spec fn stored_in(b: Seq<u8>, px: Self, le: bool) -> bool {
        b.len() == 8 && px.r == u16_in(b[0], b[1], le) && px.g == u16_in(b[2], b[3], le) && px.b == u16_in(b[4], b[5], le) && px.a == u16_in(b[6], b[7], le)
    }

    proof fn lemma_stored_in(b: Seq<u8>, px: Self, le: bool) {
    }

    open spec fn stored(b: Seq<u8>, px: Self) -> bool {
        b.len() == 8 && ne_u16(b[0], b[1], px.r) && ne_u16(b[2], b[3], px.g) && ne_u16(b[4], b[5], px.b)
            && ne_u16(b[6], b[7], px.a)
    }

    open spec fn lcms_format() -> LcmsFormat {
        LcmsFormat::Rgba16
    }

    open spec fn lcms_space() -> ColorSpace {
        ColorSpace::Rgb
    }

    fn pixel_format() -> (r: (LcmsFormat, ColorSpace)) {
        (LcmsFormat::Rgba16, ColorSpace::Rgb)
    }

    fn push_bytes(&self, out: &mut Vec<u8>, le: bool) {
        push_u16(out, self.r, le);
        push_u16(out, self.g, le);
        push_u16(out, self.b, le);
        push_u16(out, self.a, le);
    }
}

impl LcmsPixelFormat for Gray<u16> {
    open spec fn stored_in(b: Seq<u8>, px: Self, le: bool) -> bool {
        b.len() == 2 && px.0 == u16_in(b[0], b[1], le)
    }

    proof fn lemma_stored_in(b: Seq<u8>, px: Self, le: bool) {
    }

    open spec fn stored(b: Seq<u8>, px: Self) -> bool {
        b.len() == 2 && ne_u16(b[0], b[1], px.0)
    }

    open spec fn lcms_format() -> LcmsFormat {
        LcmsFormat::Gray16
    }

    open spec fn lcms_space() -> ColorSpace {
        ColorSpace::Gray
    }

    fn pixel_format() -> (r: (LcmsFormat, ColorSpace)) {
        (LcmsFormat::Gray16, ColorSpace::Gray)
    }

    fn push_bytes(&self, out: &mut Vec<u8>, le: bool) {
        push_u16(out, self.0, le);
    }
}

impl LcmsPixelFormat for GrayAlpha<u16> {
    open spec fn stored_in(b: Seq<u8>, px: Self, le: bool) -> bool {
        b.len() == 4 && px.0 == u16_in(b[0], b[1], le) && px.1 == u16_in(b[2], b[3], le)
    }

    proof fn lemma_stored_in(b: Seq<u8>, px: Self, le: bool) {
    }

    open spec fn stored(b: Seq<u8>, px: Self) -> bool {
        b.len() == 4 && ne_u16(b[0], b[1], px.0) && ne_u16(b[2], b[3], px.1)
    }

    open spec fn lcms_format() -> LcmsFormat {
        LcmsFormat::GrayA16
    }

    open spec fn lcms_space() -> ColorSpace {
        ColorSpace::Gray
    }

    fn pixel_format() -> (r: (LcmsFormat, ColorSpace)) {
        (LcmsFormat::GrayA16, ColorSpace::Gray)
    }

    fn push_bytes(&self, out: &mut Vec<u8>, le: bool) {
        push_u16(out, self.0, le);
        push_u16(out, self.1, le);
    }
}

impl LcmsOutput for RGB<u16> {
    fn read_bytes(b: &[u8], at: usize) -> (px: Self) {
        let le = native_little_endian();
        let px = Self::read_bytes_in(b, at, le);
        proof {
            Self::lemma_stored_in(b@.subrange(at as int, at + format_bytes(Self::lcms_format())), px, le);
        }
        px
    }

    fn read_bytes_in(b: &[u8], at: usize, le: bool) -> (px: Self) {
        assert(format_bytes(Self::lcms_format()) == 6);
        let n = b.len();
        RGB { r: read_u16(b, at, le), g: read_u16(b, at + 2, le), b: read_u16(b, at + 4, le) }
    }
}

impl LcmsOutput for RGBA<u16> {
    fn read_bytes(b: &[u8], at: usize) -> (px: Self) {
        let le = native_little_endian();
        let px = Self::read_bytes_in(b, at, le);
        proof {
            Self::lemma_stored_in(b@.subrange(at as int, at + format_bytes(Self::lcms_format())), px, le);
        }
        px
    }

    fn read_bytes_in(b: &[u8], at: usize, le: bool) -> (px: Self) {
        assert(format_bytes(Self::lcms_format()) == 8);
        let n = b.len();
        RGBA { r: read_u16(b, at, le), g: read_u16(b, at + 2, le), b: read_u16(b, at + 4, le), a: read_u16(b, at + 6, le) }
    }
}

impl LcmsOutput for Gray<u16> {
    fn read_bytes(b: &[u8], at: usize) -> (px: Self) {
        let le = native_little_endian();
        let px = Self::read_bytes_in(b, at, le);
        proof {
            Self::lemma_stored_in(b@.subrange(at as int, at + format_bytes(Self::lcms_format())), px, le);
        }
        px
    }

    fn read_bytes_in(b: &[u8], at: usize, le: bool) -> (px: Self) {
        assert(format_bytes(Self::lcms_format()) == 2);
        let n = b.len();
        Gray(read_u16(b, at, le))
    }
}

impl LcmsOutput for GrayAlpha<u16> {
    fn read_bytes(b: &[u8], at: usize) -> (px: Self) {
        let le = native_little_endian();
        let px = Self::read_bytes_in(b, at, le);
        proof {
            Self::lemma_stored_in(b@.subrange(at as int, at + format_bytes(Self::lcms_format())), px, le);
        }
        px
    }

    fn read_bytes_in(b: &[u8], at: usize, le: bool) -> (px: Self) {
        assert(format_bytes(Self::lcms_format()) == 4);
        let n = b.len();
        GrayAlpha(read_u16(b, at, le), read_u16(b, at + 2, le))
    }
}

/// Bytes that hold a 16-bit value in a fixed byte order: the low byte `x % 256` and the
/// high byte `x / 256`, low first where `le` is set.
proof fn lemma_u16_in_bytes(b0: u8, b1: u8, x: u16, le: bool)
    ensures
        (x == u16_in(b0, b1, le)) <==> (if le {
            b0 == (x % 256) as u8 && b1 == (x / 256) as u8
        } else {
            b0 == (x / 256) as u8 && b1 == (x % 256) as u8
        }),
{
    if le {
        assert((x == b0 + b1 * 256) <==> (b0 == (x % 256) as u8 && b1 == (x / 256) as u8)) by (nonlinear_arith)
            requires
                0 <= b0 < 256,
                0 <= b1 < 256,
                0 <= x < 65536,
        ;
    } else {
        assert((x == b0 * 256 + b1) <==> (b0 == (x / 256) as u8 && b1 == (x % 256) as u8)) by (nonlinear_arith)
            requires
                0 <= b0 < 256,
                0 <= b1 < 256,
                0 <= x < 65536,
        ;
    }
}

/// The bytes handed to Little CMS for an 8-bit pixel are its channels, each in its own
/// byte, in the order of the engine's layout: CMYK as `c, m, y, k`, RGB(A) as `r, g, b(, a)`,
/// grey(+alpha) as `v(, a)`; the byte order of 16-bit values does not enter.
pub proof fn law_8bit_pixel_bytes(b: Seq<u8>, cmyk: CMYK, rgb: RGB<u8>, rgba: RGBA<u8>, g: Gray<u8>, ga: GrayAlpha<u8>, le: bool)
    ensures
        CMYK::stored_in(b, cmyk, le) <==> b == seq![cmyk.c, cmyk.m, cmyk.y, cmyk.k],
        CMYK::stored(b, cmyk) <==> b == seq![cmyk.c, cmyk.m, cmyk.y, cmyk.k],
        RGB::<u8>::stored_in(b, rgb, le) <==> b == seq![rgb.r, rgb.g, rgb.b],
        RGBA::<u8>::stored_in(b, rgba, le) <==> b == seq![rgba.r, rgba.g, rgba.b, rgba.a],
        Gray::<u8>::stored_in(b, g, le) <==> b == seq![g.0],
        GrayAlpha::<u8>::stored_in(b, ga, le) <==> b == seq![ga.0, ga.1],
{
    assert(CMYK::stored(b, cmyk) ==> b =~= seq![cmyk.c, cmyk.m, cmyk.y, cmyk.k]);
    assert(RGB::<u8>::stored(b, rgb) ==> b =~= seq![rgb.r, rgb.g, rgb.b]);
    assert(RGBA::<u8>::stored(b, rgba) ==> b =~= seq![rgba.r, rgba.g, rgba.b, rgba.a]);
    assert(Gray::<u8>::stored(b, g) ==> b =~= seq![g.0]);
    assert(GrayAlpha::<u8>::stored(b, ga) ==> b =~= seq![ga.0, ga.1]);
}

/// The bytes handed to Little CMS for a 16-bit pixel (RGB<u16>), and read back from it, in the
/// byte order `le`: each channel as its low byte `x % 256` and high byte `x / 256`, low first
/// where `le` is set, channels in layout order. So a pixel written and read back in one
/// order is the same pixel.
pub proof fn law_rgb16_bytes(b: Seq<u8>, px: RGB<u16>, q: RGB<u16>, le: bool)
    ensures
        RGB::<u16>::stored_in(b, px, le) <==> b == (if le {
            seq![(px.r % 256) as u8, (px.r / 256) as u8, (px.g % 256) as u8, (px.g / 256) as u8, (px.b % 256) as u8, (px.b / 256) as u8]
        } else {
            seq![(px.r / 256) as u8, (px.r % 256) as u8, (px.g / 256) as u8, (px.g % 256) as u8, (px.b / 256) as u8, (px.b % 256) as u8]
        }),
        RGB::<u16>::stored_in(b, px, le) && RGB::<u16>::stored_in(b, q, le) ==> px == q,
{
    if b.len() == 6 {
        lemma_u16_in_bytes(b[0], b[1], px.r, le);
        lemma_u16_in_bytes(b[0], b[1], q.r, le);
        lemma_u16_in_bytes(b[2], b[3], px.g, le);
        lemma_u16_in_bytes(b[2], b[3], q.g, le);
        lemma_u16_in_bytes(b[4], b[5], px.b, le);
        lemma_u16_in_bytes(b[4], b[5], q.b, le);
        if le {
            assert(RGB::<u16>::stored_in(b, px, le) ==> b =~= seq![(px.r % 256) as u8, (px.r / 256) as u8, (px.g % 256) as u8, (px.g / 256) as u8, (px.b % 256) as u8, (px.b / 256) as u8]);
        } else {
            assert(RGB::<u16>::stored_in(b, px, le) ==> b =~= seq![(px.r / 256) as u8, (px.r % 256) as u8, (px.g / 256) as u8, (px.g % 256) as u8, (px.b / 256) as u8, (px.b % 256) as u8]);
        }
    }
}

/// The bytes handed to Little CMS for a 16-bit pixel (RGBA<u16>), and read back from it, in the
/// byte order `le`: each channel as its low byte `x % 256` and high byte `x / 256`, low first
/// where `le` is set, channels in layout order. So a pixel written and read back in one
/// order is the same pixel.
pub proof fn law_rgba16_bytes(b: Seq<u8>, px: RGBA<u16>, q: RGBA<u16>, le: bool)
    ensures
        RGBA::<u16>::stored_in(b, px, le) <==> b == (if le {
            seq![(px.r % 256) as u8, (px.r / 256) as u8, (px.g % 256) as u8, (px.g / 256) as u8, (px.b % 256) as u8, (px.b / 256) as u8, (px.a % 256) as u8, (px.a / 256) as u8]
        } else {
            seq![(px.r / 256) as u8, (px.r % 256) as u8, (px.g / 256) as u8, (px.g % 256) as u8, (px.b / 256) as u8, (px.b % 256) as u8, (px.a / 256) as u8, (px.a % 256) as u8]
        }),
        RGBA::<u16>::stored_in(b, px, le) && RGBA::<u16>::stored_in(b, q, le) ==> px == q,
{
    if b.len() == 8 {
        lemma_u16_in_bytes(b[0], b[1], px.r, le);
        lemma_u16_in_bytes(b[0], b[1], q.r, le);
        lemma_u16_in_bytes(b[2], b[3], px.g, le);
        lemma_u16_in_bytes(b[2], b[3], q.g, le);
        lemma_u16_in_bytes(b[4], b[5], px.b, le);
        lemma_u16_in_bytes(b[4], b[5], q.b, le);
        lemma_u16_in_bytes(b[6], b[7], px.a, le);
        lemma_u16_in_bytes(b[6], b[7], q.a, le);
        if le {
            assert(RGBA::<u16>::stored_in(b, px, le) ==> b =~= seq![(px.r % 256) as u8, (px.r / 256) as u8, (px.g % 256) as u8, (px.g / 256) as u8, (px.b % 256) as u8, (px.b / 256) as u8, (px.a % 256) as u8, (px.a / 256) as u8]);
        } else {
            assert(RGBA::<u16>::stored_in(b, px, le) ==> b =~= seq![(px.r / 256) as u8, (px.r % 256) as u8, (px.g / 256) as u8, (px.g % 256) as u8, (px.b / 256) as u8, (px.b % 256) as u8, (px.a / 256) as u8, (px.a % 256) as u8]);
        }
    }
}

/// The bytes handed to Little CMS for a 16-bit pixel (Gray<u16>), and read back from it, in the
/// byte order `le`: each channel as its low byte `x % 256` and high byte `x / 256`, low first
/// where `le` is set, channels in layout order. So a pixel written and read back in one
/// order is the same pixel.
pub proof fn law_gray16_bytes(b: Seq<u8>, px: Gray<u16>, q: Gray<u16>, le: bool)
    ensures
        Gray::<u16>::stored_in(b, px, le) <==> b == (if le {
            seq![(px.0 % 256) as u8, (px.0 / 256) as u8]
        } else {
            seq![(px.0 / 256) as u8, (px.0 % 256) as u8]
        }),
        Gray::<u16>::stored_in(b, px, le) && Gray::<u16>::stored_in(b, q, le) ==> px == q,
{
    if b.len() == 2 {
        lemma_u16_in_bytes(b[0], b[1], px.0, le);
        lemma_u16_in_bytes(b[0], b[1], q.0, le);
        if le {
            assert(Gray::<u16>::stored_in(b, px, le) ==> b =~= seq![(px.0 % 256) as u8, (px.0 / 256) as u8]);
        } else {
            assert(Gray::<u16>::stored_in(b, px, le) ==> b =~= seq![(px.0 / 256) as u8, (px.0 % 256) as u8]);
        }
    }
}

/// The bytes handed to Little CMS for a 16-bit pixel (GrayAlpha<u16>), and read back from it, in the
/// byte order `le`: each channel as its low byte `x % 256` and high byte `x / 256`, low first
/// where `le` is set, channels in layout order. So a pixel written and read back in one
/// order is the same pixel.
pub proof fn law_graya16_bytes(b: Seq<u8>, px: GrayAlpha<u16>, q: GrayAlpha<u16>, le: bool)
    ensures
        GrayAlpha::<u16>::stored_in(b, px, le) <==> b == (if le {
            seq![(px.0 % 256) as u8, (px.0 / 256) as u8, (px.1 % 256) as u8, (px.1 / 256) as u8]
        } else {
            seq![(px.0 / 256) as u8, (px.0 % 256) as u8, (px.1 / 256) as u8, (px.1 % 256) as u8]
        }),
        GrayAlpha::<u16>::stored_in(b, px, le) && GrayAlpha::<u16>::stored_in(b, q, le) ==> px == q,
{
    if b.len() == 4 {
        lemma_u16_in_bytes(b[0], b[1], px.0, le);
        lemma_u16_in_bytes(b[0], b[1], q.0, le);
        lemma_u16_in_bytes(b[2], b[3], px.1, le);
        lemma_u16_in_bytes(b[2], b[3], q.1, le);
        if le {
            assert(GrayAlpha::<u16>::stored_in(b, px, le) ==> b =~= seq![(px.0 % 256) as u8, (px.0 / 256) as u8, (px.1 % 256) as u8, (px.1 / 256) as u8]);
        } else {
            assert(GrayAlpha::<u16>::stored_in(b, px, le) ==> b =~= seq![(px.0 / 256) as u8, (px.0 % 256) as u8, (px.1 / 256) as u8, (px.1 % 256) as u8]);
        }
    }
}

/// Converted pixels that keep alpha take it from their source pixels: an 8-bit alpha `a`
/// widened to `a * 257`, a 16-bit one as it is; their colour channels are the converted
/// ones. Pixel types without alpha keep the converted pixel as it is.
pub proof fn law_alpha_copied(
    d: RGBA<u16>,
    s8: RGBA<u8>,
    s16: RGBA<u16>,
    dg: GrayAlpha<u16>,
    g8: GrayAlpha<u8>,
    g16: GrayAlpha<u16>,
    drgb: RGB<u16>,
    rgb8: RGB<u8>,
    dgray: Gray<u16>,
    gray8: Gray<u8>,
)
    ensures
        <RGBA<u8> as CopyAlpha<RGBA<u16>>>::alpha_copied(d, s8) == (RGBA { r: d.r, g: d.g, b: d.b, a: (s8.a * 257) as u16 }),
        <RGBA<u16> as CopyAlpha<RGBA<u16>>>::alpha_copied(d, s16) == (RGBA { r: d.r, g: d.g, b: d.b, a: s16.a }),
        <GrayAlpha<u8> as CopyAlpha<GrayAlpha<u16>>>::alpha_copied(dg, g8) == GrayAlpha(dg.0, (g8.1 * 257) as u16),
        <GrayAlpha<u16> as CopyAlpha<GrayAlpha<u16>>>::alpha_copied(dg, g16) == GrayAlpha(dg.0, g16.1),
        <RGB<u8> as CopyAlpha<RGB<u16>>>::alpha_copied(drgb, rgb8) == drgb,
        <Gray<u8> as CopyAlpha<Gray<u16>>>::alpha_copied(dgray, gray8) == dgray,
{
}

impl LcmsPixelConversion for RGB<u8> {
    type Converted = RGB<u16>;
    type ConvertedOpaque = RGB<u16>;
}

impl LcmsPixelConversion for RGBA<u8> {
    type Converted = RGBA<u16>;
    type ConvertedOpaque = RGB<u16>;
}

impl LcmsPixelConversion for Gray<u8> {
    type Converted = Gray<u16>;
    type ConvertedOpaque = Gray<u16>;
}

impl LcmsPixelConversion for GrayAlpha<u8> {
    type Converted = GrayAlpha<u16>;
    type ConvertedOpaque = Gray<u16>;
}

impl LcmsPixelConversion for RGB<u16> {
    type Converted = RGB<u16>;
    type ConvertedOpaque = RGB<u16>;
}

impl LcmsPixelConversion for RGBA<u16> {
    type Converted = RGBA<u16>;
    type ConvertedOpaque = RGB<u16>;
}

impl LcmsPixelConversion for Gray<u16> {
    type Converted = Gray<u16>;
    type ConvertedOpaque = Gray<u16>;
}

impl LcmsPixelConversion for GrayAlpha<u16> {
    type Converted = GrayAlpha<u16>;
    type ConvertedOpaque = Gray<u16>;
}

impl CopyAlpha<RGB<u16>> for RGB<u8> {
    open spec fn alpha_copied(d: RGB<u16>, s: Self) -> RGB<u16> {
        d
    }

    fn copy_one(s: Self, d: RGB<u16>) -> (r: RGB<u16>) {
        d
    }

    proof fn lemma_alpha_copied_twice(d: RGB<u16>, s: Self) {
    }
}

impl CopyAlpha<RGB<u16>> for RGB<u16> {
    open spec fn alpha_copied(d: RGB<u16>, s: Self) -> RGB<u16> {
        d
    }

    fn copy_one(s: Self, d: RGB<u16>) -> (r: RGB<u16>) {
        d
    }

    proof fn lemma_alpha_copied_twice(d: RGB<u16>, s: Self) {
    }
}

impl CopyAlpha<RGBA<u16>> for RGBA<u8> {
    open spec fn alpha_copied(d: RGBA<u16>, s: Self) -> RGBA<u16> {
        RGBA { a: widen(s.a), ..d }
    }

    fn copy_one(s: Self, d: RGBA<u16>) -> (r: RGBA<u16>) {
        RGBA { r: d.r, g: d.g, b: d.b, a: widen_exec(s.a) }
    }

    proof fn lemma_alpha_copied_twice(d: RGBA<u16>, s: Self) {
    }
}

impl CopyAlpha<RGBA<u16>> for RGBA<u16> {
    open spec fn alpha_copied(d: RGBA<u16>, s: Self) -> RGBA<u16> {
        RGBA { a: s.a, ..d }
    }

    fn copy_one(s: Self, d: RGBA<u16>) -> (r: RGBA<u16>) {
        RGBA { r: d.r, g: d.g, b: d.b, a: s.a }
    }

    proof fn lemma_alpha_copied_twice(d: RGBA<u16>, s: Self) {
    }
}

impl CopyAlpha<Gray<u16>> for Gray<u8> {
    open spec fn alpha_copied(d: Gray<u16>, s: Self) -> Gray<u16> {
        d
    }

    fn copy_one(s: Self, d: Gray<u16>) -> (r: Gray<u16>) {
        d
    }

    proof fn lemma_alpha_copied_twice(d: Gray<u16>, s: Self) {
    }
}

impl CopyAlpha<Gray<u16>> for Gray<u16> {
    open spec fn alpha_copied(d: Gray<u16>, s: Self) -> Gray<u16> {
        d
    }

    fn copy_one(s: Self, d: Gray<u16>) -> (r: Gray<u16>) {
        d
    }

    proof fn lemma_alpha_copied_twice(d: Gray<u16>, s: Self) {
    }
}

impl CopyAlpha<GrayAlpha<u16>> for GrayAlpha<u8> {
    open spec fn alpha_copied(d: GrayAlpha<u16>, s: Self) -> GrayAlpha<u16> {
        GrayAlpha(d.0, widen(s.1))
    }

    fn copy_one(s: Self, d: GrayAlpha<u16>) -> (r: GrayAlpha<u16>) {
        GrayAlpha(d.0, widen_exec(s.1))
    }

    proof fn lemma_alpha_copied_twice(d: GrayAlpha<u16>, s: Self) {
    }
}

impl CopyAlpha<GrayAlpha<u16>> for GrayAlpha<u16> {
    open spec fn alpha_copied(d: GrayAlpha<u16>, s: Self) -> GrayAlpha<u16> {
        GrayAlpha(d.0, s.1)
    }

    fn copy_one(s: Self, d: GrayAlpha<u16>) -> (r: GrayAlpha<u16>) {
        GrayAlpha(d.0, s.1)
    }

    proof fn lemma_alpha_copied_twice(d: GrayAlpha<u16>, s: Self) {
    }
}

/// Whether `b` holds exactly the pixels `px`, one after another, in the engine's byte
/// layout with 16-bit channels in the byte order `le` (see [`LcmsPixelFormat::stored_in`]).
pub open spec fn stored_all<T: LcmsPixelFormat>(b: Seq<u8>, px: Seq<T>, le: bool) -> bool {
    let size = format_bytes(T::lcms_format()) as int;
    &&& b.len() == px.len() * size
    &&& forall|i: int| 0 <= i < px.len() ==> T::stored_in(b.subrange(i * size, i * size + size), #[trigger] px[i], le)
}

/// Bytes that extend `old` keep its pixel bytes.
proof fn lemma_prefix_kept(old: Seq<u8>, new: Seq<u8>, a: int, c: int)
    requires
        0 <= a <= c <= old.len(),
        old.len() <= new.len(),
        new.subrange(0, old.len() as int) == old,
    ensures
        new.subrange(a, c) == old.subrange(a, c),
{
    assert forall|k: int| 0 <= k < c - a implies new.subrange(a, c)[k] == old.subrange(a, c)[k] by {
        assert(new.subrange(0, old.len() as int)[a + k] == new[a + k]);
    }
    assert(new.subrange(a, c) =~= old.subrange(a, c));
}

/// The pixels in the engine's byte layout, 16-bit channels in the byte order `le`.
fn pixels_to_bytes<T: LcmsPixelFormat>(pixels: &[T], le: bool) -> (b: Vec<u8>)
    ensures
        stored_all(b@, pixels@, le),
{
    let ghost size = format_bytes(T::lcms_format()) as int;
    let mut b: Vec<u8> = Vec::new();
    let mut i: usize = 0;
    while i < pixels.len()
        invariant
            size == format_bytes(T::lcms_format()) as int,
            i <= pixels@.len(),
            b@.len() == i * size,
            forall|j: int| 0 <= j < i ==> T::stored_in(b@.subrange(j * size, j * size + size), #[trigger] pixels@[j], le),
        decreases pixels.len() - i,
    {
        let ghost before = b@;
        pixels[i].push_bytes(&mut b, le);
        proof {
            assert(i * size + size == (i + 1) * size) by (nonlinear_arith);
            assert forall|j: int| 0 <= j < i + 1 implies T::stored_in(b@.subrange(j * size, j * size + size), #[trigger] pixels@[j], le) by {
                if j < i {
                    assert(j * size + size <= i * size) by (nonlinear_arith)
                        requires
                            j < i,
                            size >= 0,
                    ;
                    assert(0 <= j * size) by (nonlinear_arith)
                        requires
                            j >= 0,
                            size >= 0,
                    ;
                    lemma_prefix_kept(before, b@, j * size, j * size + size);
                }
            }
        }
        i = i + 1;
    }
    b
}

/// The whole pixels held in the engine's byte layout, 16-bit channels in the byte order
/// `le`.
fn pixels_from_bytes<C: LcmsOutput>(b: &[u8], n: usize, le: bool) -> (v: Vec<C>)
    requires
        b@.len() == n * format_bytes(C::lcms_format()),
    ensures
        v@.len() == n,
        stored_all(b@, v@, le),
{
    let size = format_bytes_exec(C::pixel_format().0);
    let blen = b.len();
    let mut v: Vec<C> = Vec::new();
    let mut i: usize = 0;
    while i < n
        invariant
            blen == b@.len(),
            size == format_bytes(C::lcms_format()),
            b@.len() == n * size,
            i <= n,
            v@.len() == i,
            forall|j: int| 0 <= j < i ==> C::stored_in(b@.subrange(j * size, j * size + size), #[trigger] v@[j], le),
        decreases n - i,
    {
        proof {
            assert(i * size + size <= n * size) by (nonlinear_arith)
                requires
                    i < n,
            ;
        }
        v.push(C::read_bytes_in(b, i * size, le));
        i = i + 1;
    }
    v
}

/// The profile that pixels of the given colour space are converted into: the built-in grey
/// profile for grey pixels, sRGB otherwise.
pub open spec fn destination(space: ColorSpace) -> LcmsDest {
    if space == ColorSpace::Gray {
        LcmsDest::Icc(gray_icc())
    } else {
        LcmsDest::Srgb
    }
}

/// Whether [`apply_profile`] converts `n` pixels of layout `format` in colour space `space`
/// into pixels of layout `out_format`, by the profile opened from the bytes `icc`: where the
/// profile applies (see [`profile_applies`]), the destination profile opens, Little CMS
/// builds the transform, and the buffers' sizes fit in memory.
pub open spec fn profile_converts(space: ColorSpace, format: LcmsFormat, out_format: LcmsFormat, icc: Seq<u8>, n: nat) -> bool {
    &&& profile_applies(space, icc_color_space(icc), icc_description(icc))
    &&& space == ColorSpace::Gray ==> icc_accepted(gray_icc())
    &&& lcms_transform_built(icc, format, destination(space), out_format)
    &&& n <= usize::MAX / 8
}

/// Whether `out` are the pixels that Little CMS gives for `pixels` converted from the
/// profile opened from the ICC bytes `icc` into the destination that [`destination`]
/// picks for their colour space: the pixels' bytes (see [`stored_all`]) transformed (see
/// [`lcms_transformed`]) and read back, 16-bit channels in one byte order both ways (the
/// machine's, which no contract can name).
pub open spec fn lcms_converted<T: LcmsPixelFormat, C: LcmsPixelFormat>(icc: Seq<u8>, pixels: Seq<T>, out: Seq<C>) -> bool {
    exists|src: Seq<u8>, le: bool|
        #![trigger lcms_transformed(icc, T::lcms_format(), destination(T::lcms_space()), C::lcms_format(), src), stored_all(src, pixels, le)]
        stored_all(src, pixels, le)
            && stored_all(lcms_transformed(icc, T::lcms_format(), destination(T::lcms_space()), C::lcms_format(), src), out, le)
}

/// Converts pixels from the profile's colour space into sRGB (or, for grey pixels, into the
/// built-in grey space), as pixels of type `C` (see [`lcms_converted`]; Little CMS converts
/// at most `u32::MAX` pixels in one call); `None` where it does not convert them (see
/// [`profile_converts`]).
pub fn apply_profile<T: LcmsPixelFormat, C: LcmsOutput>(pixels: &[T], profile: &ColorProfile) -> (r: Option<Vec<C>>)
    ensures
        r.is_some() == profile_converts(T::lcms_space(), T::lcms_format(), C::lcms_format(), profile.icc_data(), pixels@.len()),
        r.is_some() ==> profile_applies(T::lcms_space(), profile.space(), profile.description()),
        r matches Some(v) ==> v@.len() == pixels@.len(),
        r matches Some(v) ==> (pixels@.len() <= u32::MAX ==> lcms_converted(profile.icc_data(), pixels@, v@)),
{
    proof {
        use_type_invariant(profile);
    }
    let (format, space) = T::pixel_format();
    let (dest_format, _) = C::pixel_format();
    if profile.space != space {
        return None;
    }
    if space == ColorSpace::Rgb {
        if description_names_srgb(&profile.description) {
            return None;
        }
    }
    let dest = if space == ColorSpace::Gray {
        match IccHandle::open(crate::profiles::gray().as_slice()) {
            Some(p) => DestProfile::icc(p),
            None => return None,
        }
    } else {
        DestProfile::srgb()
    };
    let in_bytes = format_bytes_exec(format);
    let out_bytes = format_bytes_exec(dest_format);
    if pixels.len() > usize::MAX / 8 {
        return None;
    }
    match LcmsTransform::new(&profile.icc, format, &dest, dest_format) {
        Some(t) => {
            let le = native_little_endian();
            let src = pixels_to_bytes(pixels, le);
            assert(in_bytes > 0 && out_bytes > 0);
            assert(pixels.len() * out_bytes <= usize::MAX) by (nonlinear_arith)
                requires
                    pixels.len() <= usize::MAX / 8,
                    out_bytes <= 8,
            ;
            proof {
                vstd::arithmetic::div_mod::lemma_mod_multiples_basic(pixels@.len() as int, in_bytes as int);
                vstd::arithmetic::div_mod::lemma_mod_multiples_basic(pixels@.len() as int, out_bytes as int);
                assert(src@.len() == in_bytes * pixels@.len()) by (nonlinear_arith)
                    requires
                        src@.len() == pixels@.len() * in_bytes,
                ;
                assert(pixels@.len() * out_bytes == out_bytes * pixels@.len()) by (nonlinear_arith);
                vstd::arithmetic::div_mod::lemma_div_multiples_vanish(pixels@.len() as int, in_bytes as int);
                vstd::arithmetic::div_mod::lemma_div_multiples_vanish(pixels@.len() as int, out_bytes as int);
            }
            let dst = lcms_transform_pixels(&t, &src, pixels.len() * out_bytes);
            let v: Vec<C> = pixels_from_bytes(&dst, pixels.len(), le);
            proof {
                if pixels@.len() <= u32::MAX {
                    assert(stored_all(src@, pixels@, le) && stored_all(
                        lcms_transformed(profile.icc_data(), T::lcms_format(), destination(T::lcms_space()), C::lcms_format(), src@),
                        v@,
                        le,
                    ));
                }
            }
            Some(v)
        },
        None => None,
    }
}

/// Whether [`to_image`] converts `n` pixels of type `T` by the profile opened from the ICC
/// bytes `icc`: into opaque pixels where `opaque` is set, into pixels with alpha otherwise
/// (see [`profile_converts`]).
pub open spec fn icc_converts<T: LcmsPixelConversion>(icc: Seq<u8>, opaque: bool, n: nat) -> bool {
    profile_converts(
        T::lcms_space(),
        T::lcms_format(),
        if opaque {
            <T::ConvertedOpaque as LcmsPixelFormat>::lcms_format()
        } else {
            <T::Converted as LcmsPixelFormat>::lcms_format()
        },
        icc,
        n,
    )
}

/// Whether [`to_image`] converts `n` pixels of type `T` by the profile (see [`icc_converts`]).
pub open spec fn image_converts<T: LcmsPixelConversion>(profile: Option<ColorProfile>, opaque: bool, n: nat) -> bool {
    match profile {
        None => false,
        Some(p) => icc_converts::<T>(p.icc_data(), opaque, n),
    }
}

/// The ICC bytes that the profile, if any, was opened from.
pub open spec fn icc_of(profile: Option<ColorProfile>) -> Option<Seq<u8>> {
    match profile {
        Some(p) => Some(p.icc_data()),
        None => None,
    }
}

/// Whether `bitmap` holds `pixels` converted by Little CMS from the profile opened from the
/// ICC bytes `icc` (see [`lcms_converted`]): with `opaque`, the converted pixels, which
/// carry no alpha; otherwise the converted pixels with the alpha of the source pixels
/// copied onto them. Little CMS converts at most `u32::MAX` pixels in one call, so which
/// pixels come out is stated up to that many.
pub open spec fn converted_pixels<T>(icc: Seq<u8>, opaque: bool, pixels: Seq<T>, bitmap: Pixels) -> bool
    where
        T: LcmsPixelConversion + CopyAlpha<<T as LcmsPixelConversion>::Converted>,
{
    if opaque {
        exists|s: Seq<T::ConvertedOpaque>| {
            &&& bitmap == #[trigger] T::ConvertedOpaque::tagged(s)
            &&& s.len() == pixels.len()
            &&& pixels.len() <= u32::MAX ==> lcms_converted(icc, pixels, s)
        }
    } else {
        exists|s: Seq<T::Converted>, c: Seq<T::Converted>| {
            &&& bitmap == #[trigger] T::Converted::tagged(s)
            &&& s.len() == pixels.len()
            &&& #[trigger] c.len() == pixels.len()
            &&& forall|i: int| 0 <= i < s.len() ==> #[trigger] s[i] == T::alpha_copied(c[i], pixels[i])
            &&& pixels.len() <= u32::MAX ==> lcms_converted(icc, pixels, c)
        }
    }
}

/// What [`to_image`] makes of `pixels` with the profile opened from the ICC bytes `icc`, if
/// any: the converted pixels where it converts them (see [`icc_converts`] and
/// [`converted_pixels`]), the pixels as they are otherwise.
pub open spec fn profile_image<T>(icc: Option<Seq<u8>>, opaque: bool, pixels: Seq<T>, bitmap: Pixels) -> bool
    where
        T: LcmsPixelConversion + CopyAlpha<<T as LcmsPixelConversion>::Converted>,
{
    match icc {
        Some(b) => if icc_converts::<T>(b, opaque, pixels.len()) {
            converted_pixels::<T>(b, opaque, pixels, bitmap)
        } else {
            bitmap == T::tagged(pixels)
        },
        None => bitmap == T::tagged(pixels),
    }
}

/// The image of `pixels`, converted into sRGB by `profile` where the profile applies.
///
/// With `opaque`, converted pixels drop their alpha channel; otherwise they keep it,
/// copied from the source. Where no conversion happens the pixels stay as they are.
pub fn to_image<T>(pixels: Vec<T>, profile: Option<ColorProfile>, width: usize, height: usize, opaque: bool, meta: ImageMeta) -> (img: Image)
    where
        T: LcmsPixelConversion + CopyAlpha<<T as LcmsPixelConversion>::Converted>,
    requires
        dims_ok(width as int, height as int),
    ensures
        img.width == width,
        img.height == height,
        img.meta == meta,
        img.bitmap@.len() == pixels@.len(),
        profile.is_none() ==> img.bitmap@ == T::tagged(pixels@),
        profile matches Some(p) && !profile_applies(T::lcms_space(), p.space(), p.description()) ==> img.bitmap@ == T::tagged(pixels@),
        !image_converts::<T>(profile, opaque, pixels@.len()) ==> img.bitmap@ == T::tagged(pixels@),
        profile matches Some(p) ==> (image_converts::<T>(profile, opaque, pixels@.len())
            ==> converted_pixels::<T>(p.icc_data(), opaque, pixels@, img.bitmap@)),
        profile_image::<T>(icc_of(profile), opaque, pixels@, img.bitmap@),
{
    if let Some(p) = profile {
        if opaque {
            let converted: Option<Vec<T::ConvertedOpaque>> = apply_profile(pixels.as_slice(), &p);
            if let Some(px) = converted {
                return Image::from_opts(crate::bitmap::Bitmap::new(px, width, height), meta);
            }
        } else {
            let converted: Option<Vec<T::Converted>> = apply_profile(pixels.as_slice(), &p);
            if let Some(mut px) = converted {
                let ghost old_px = px@;
                T::copy_alpha(pixels.as_slice(), &mut px);
                let img = Image::from_opts(crate::bitmap::Bitmap::new(px, width, height), meta);
                proof {
                    assert(img.bitmap@ == T::Converted::tagged(px@) && px@.len() == pixels@.len() && old_px.len() == pixels@.len()
                        && (forall|i: int| 0 <= i < px@.len() ==> #[trigger] px@[i] == T::alpha_copied(old_px[i], pixels@[i]))
                        && (pixels@.len() <= u32::MAX ==> lcms_converted(p.icc_data(), pixels@, old_px)));
                }
                return img;
            }
        }
    }
    Image::from_opts(crate::bitmap::Bitmap::new(pixels, width, height), meta)
}

} // verus!
