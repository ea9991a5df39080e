use vstd::prelude::*;

verus! {

#[verifier::external_type_specification]
#[verifier::external_body]
#[verifier::reject_recursive_types(Context)]
pub struct ExLcmsProfile<Context>(lcms2::Profile<Context>);

#[verifier::external_type_specification]
#[verifier::external_body]
#[verifier::reject_recursive_types(InputPixelFormat)]
#[verifier::reject_recursive_types(OutputPixelFormat)]
#[verifier::reject_recursive_types(Context)]
#[verifier::reject_recursive_types(Flags)]
pub struct ExLcmsTransform<InputPixelFormat, OutputPixelFormat, Context, Flags>(
    lcms2::Transform<InputPixelFormat, OutputPixelFormat, Context, Flags>,
);

#[verifier::external_type_specification]
#[verifier::external_body]
pub struct ExLcmsGlobalContext(lcms2::GlobalContext);

#[verifier::external_type_specification]
#[verifier::external_body]
pub struct ExLcmsAllowCache(lcms2::AllowCache);

/// The colour spaces that the conversion logic tells apart.
#[derive(Clone, Copy, Debug, PartialEq, Eq, Structural)]
pub enum ColorSpace {
    Rgb,
    Gray,
    Cmyk,
    Other,
}

/// Pixel layouts handed to the colour management engine.
#[derive(Clone, Copy, Debug, PartialEq, Eq, Structural)]
pub enum LcmsFormat {
    Rgb8,
    Rgba8,
    Gray8,
    GrayA8,
    Rgb16,
    Rgba16,
    Gray16,
    GrayA16,
    /// CMYK, 8 bits per channel, stored inverted (0 is full ink).
    Cmyk8Rev,
}

/// Bytes that one pixel of the layout takes.
pub open spec fn format_bytes(f: LcmsFormat) -> nat {
    match f {
        LcmsFormat::Rgb8 => 3,
        LcmsFormat::Rgba8 => 4,
        LcmsFormat::Gray8 => 1,
        LcmsFormat::GrayA8 => 2,
        LcmsFormat::Rgb16 => 6,
        LcmsFormat::Rgba16 => 8,
        LcmsFormat::Gray16 => 2,
        LcmsFormat::GrayA16 => 4,
        LcmsFormat::Cmyk8Rev => 4,
    }
}

pub fn format_bytes_exec(f: LcmsFormat) -> (n: usize)
    ensures
        n == format_bytes(f),
{
    match f {
        LcmsFormat::Rgb8 => 3,
        LcmsFormat::Rgba8 => 4,
        LcmsFormat::Gray8 => 1,
        LcmsFormat::GrayA8 => 2,
        LcmsFormat::Rgb16 => 6,
        LcmsFormat::Rgba16 => 8,
        LcmsFormat::Gray16 => 2,
        LcmsFormat::GrayA16 => 4,
        LcmsFormat::Cmyk8Rev => 4,
    }
}

/// Whether Little CMS opens the given bytes as an ICC profile.
pub uninterp spec fn icc_accepted(data: Seq<u8>) -> bool;

/// The colour space in the header of the ICC profile that Little CMS opens from the bytes,
/// sorted into the spaces the conversion tells apart.
pub uninterp spec fn icc_color_space(data: Seq<u8>) -> ColorSpace;

/// The `en_US` description of the ICC profile that Little CMS opens from the bytes.
pub uninterp spec fn icc_description(data: Seq<u8>) -> Option<Seq<char>>;

/// An ICC profile opened by Little CMS. Its view is the bytes it was opened from.
pub struct IccHandle {
    profile: lcms2::Profile,
    icc: Ghost<Seq<u8>>,
}

impl View for IccHandle {
    type V = Seq<u8>;

    closed spec fn view(&self) -> Seq<u8> {
        self.icc@
    }
}

/// Opens an ICC profile with `lcms2::Profile::new_icc`. Whether it opens is named
/// [`icc_accepted`] of the bytes; the ICC parser of Little CMS is not stated, and the
/// source shows only that empty data is refused.
#[verifier::external_body]
fn lcms_profile_from_icc(data: &[u8]) -> (p: Option<lcms2::Profile>)
    ensures
        p.is_some() == icc_accepted(data@),
        data@.len() == 0 ==> p.is_none(),
{
    lcms2::Profile::new_icc(data).ok()
}

impl IccHandle {
    /// Opens the bytes as an ICC profile; `None` where Little CMS refuses them.
    pub fn open(data: &[u8]) -> (p: Option<IccHandle>)
        ensures
            p.is_some() == icc_accepted(data@),
            data@.len() == 0 ==> p.is_none(),
            p matches Some(h) ==> h@ == data@,
    {
        match lcms_profile_from_icc(data) {
            Some(profile) => Some(IccHandle { profile, icc: Ghost(data@) }),
            None => None,
        }
    }
}

/// The built-in sRGB profile of Little CMS, `lcms2::Profile::new_srgb`.
#[verifier::external_body]
fn lcms_srgb_profile() -> lcms2::Profile {
    lcms2::Profile::new_srgb()
}

/// Which profile converted pixels go into: the built-in sRGB profile of Little CMS, or the
/// profile opened from the given ICC bytes.
pub enum LcmsDest {
    Srgb,
    Icc(Seq<u8>),
}

/// A profile that converted pixels go into. Its view says which.
pub struct DestProfile {
    profile: lcms2::Profile,
    dest: Ghost<LcmsDest>,
}

impl View for DestProfile {
    type V = LcmsDest;

    closed spec fn view(&self) -> LcmsDest {
        self.dest@
    }
}

impl DestProfile {
    /// The built-in sRGB profile.
    pub fn srgb() -> (d: DestProfile)
        ensures
            d@ == LcmsDest::Srgb,
    {
        DestProfile { profile: lcms_srgb_profile(), dest: Ghost(LcmsDest::Srgb) }
    }

    /// An opened ICC profile.
    pub fn icc(h: IccHandle) -> (d: DestProfile)
        ensures
            d@ == LcmsDest::Icc(h@),
    {
        let ghost bytes = h@;
        DestProfile { profile: h.profile, dest: Ghost(LcmsDest::Icc(bytes)) }
    }
}

/// The colour space of the profile's header, `lcms2::Profile::color_space`, sorted into
/// the spaces the conversion tells apart; named [`icc_color_space`] of the profile's bytes.
#[verifier::external_body]
pub(crate) fn lcms_color_space(p: &IccHandle) -> (s: ColorSpace)
    ensures
        s == icc_color_space(p@),
{
    match p.profile.color_space() {
        lcms2::ColorSpaceSignature::RgbData => ColorSpace::Rgb,
        lcms2::ColorSpaceSignature::GrayData => ColorSpace::Gray,
        lcms2::ColorSpaceSignature::CmykData => ColorSpace::Cmyk,
        _ => ColorSpace::Other,
    }
}

/// The profile's description in the `en_US` locale, `lcms2::Profile::info` with
/// `InfoType::Description`; named [`icc_description`] of the profile's bytes.
#[verifier::external_body]
pub(crate) fn lcms_description(p: &IccHandle) -> (d: Option<String>)
    ensures
        d is None <==> icc_description(p@) is None,
        d matches Some(t) ==> icc_description(p@) == Some(t@),
{
    p.profile.info(lcms2::InfoType::Description, lcms2::Locale::new("en_US"))
}

/// A colour transform made by Little CMS. Its view is what it was made from: the ICC bytes
/// of the source profile, the input layout, the destination profile and the output layout.
pub struct LcmsTransform {
    t: lcms2::Transform<u8, u8>,
    made_from: Ghost<(Seq<u8>, LcmsFormat, LcmsDest, LcmsFormat)>,
}

impl View for LcmsTransform {
    type V = (Seq<u8>, LcmsFormat, LcmsDest, LcmsFormat);

    closed spec fn view(&self) -> (Seq<u8>, LcmsFormat, LcmsDest, LcmsFormat) {
        self.made_from@
    }
}

/// The bytes that Little CMS writes when it converts the pixel bytes `src`, of layout
/// `in_format` in the profile opened from the ICC bytes `icc`, into pixels of layout
/// `out_format` in the destination profile, with the relative colorimetric intent.
pub uninterp spec fn lcms_transformed(icc: Seq<u8>, in_format: LcmsFormat, dest: LcmsDest, out_format: LcmsFormat, src: Seq<u8>) -> Seq<u8>;

/// Whether Little CMS builds a transform, with the relative colorimetric intent, from pixels
/// of the first layout in the profile opened from the ICC bytes to pixels of the second
/// layout in the destination profile.
pub uninterp spec fn lcms_transform_built(input: Seq<u8>, in_format: LcmsFormat, output: LcmsDest, out_format: LcmsFormat) -> bool;

/// A colour transform between two pixel layouts, made with `lcms2::Transform::new` and the
/// relative colorimetric intent. Whether Little CMS can build it is named
/// [`lcms_transform_built`] of the profiles' views and the layouts.
#[verifier::external_body]
fn lcms_transform(
    input: &IccHandle,
    in_format: LcmsFormat,
    output: &DestProfile,
    out_format: LcmsFormat,
) -> (t: Option<lcms2::Transform<u8, u8>>)
    ensures
        t.is_some() == lcms_transform_built(input@, in_format, output@, out_format),
{
    let f = |x: LcmsFormat| match x {
        LcmsFormat::Rgb8 => lcms2::PixelFormat::RGB_8,
        LcmsFormat::Rgba8 => lcms2::PixelFormat::RGBA_8,
        LcmsFormat::Gray8 => lcms2::PixelFormat::GRAY_8,
        LcmsFormat::GrayA8 => lcms2::PixelFormat::GRAYA_8,
        LcmsFormat::Rgb16 => lcms2::PixelFormat::RGB_16,
        LcmsFormat::Rgba16 => lcms2::PixelFormat::RGBA_16,
        LcmsFormat::Gray16 => lcms2::PixelFormat::GRAY_16,
        LcmsFormat::GrayA16 => lcms2::PixelFormat::GRAYA_16,
        LcmsFormat::Cmyk8Rev => lcms2::PixelFormat::CMYK_8_REV,
    };
    lcms2::Transform::new(&input.profile, f(in_format), &output.profile, f(out_format), lcms2::Intent::RelativeColorimetric).ok()
}

impl LcmsTransform {
    /// A transform from pixels of `in_format` in the profile's space to pixels of
    /// `out_format` in the space of `output`; `None` where Little CMS cannot build it.
    pub(crate) fn new(input: &IccHandle, in_format: LcmsFormat, output: &DestProfile, out_format: LcmsFormat) -> (r: Option<
        LcmsTransform,
    >)
        ensures
            r.is_some() == lcms_transform_built(input@, in_format, output@, out_format),
            r matches Some(t) ==> t@ == (input@, in_format, output@, out_format),
    {
        match lcms_transform(input, in_format, output, out_format) {
            Some(t) => Some(LcmsTransform { t, made_from: Ghost((input@, in_format, output@, out_format)) }),
            None => None,
        }
    }
}

/// Runs the transform over `src` into a buffer of `dst_len` bytes with
/// `lcms2::Transform::transform_pixels`, for as many pixels as `src` holds. The source
/// shows that it panics unless both byte slices hold whole pixels of the transform's
/// layouts, and that it converts at most `u32::MAX` pixels; the bytes written for up to
/// that many pixels are named [`lcms_transformed`] of what the transform was made from and
/// of `src`.
#[verifier::external_body]
pub(crate) fn lcms_transform_pixels(t: &LcmsTransform, src: &[u8], dst_len: usize) -> (dst: Vec<u8>)
    requires
        src@.len() % format_bytes(t@.1) == 0,
        (dst_len as nat) % format_bytes(t@.3) == 0,
        src@.len() / format_bytes(t@.1) == (dst_len as nat) / format_bytes(t@.3),
    ensures
        dst@.len() == dst_len,
        src@.len() / format_bytes(t@.1) <= u32::MAX ==> dst@ == lcms_transformed(t@.0, t@.1, t@.2, t@.3, src@),
{
    let mut dst = vec![0u8; dst_len];
    t.t.transform_pixels(src, &mut dst);
    dst
}

} // verus!
