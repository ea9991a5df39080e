use vstd::prelude::*;

use crate::pixel::RGBA8;

verus! {

#[verifier::external_type_specification]
#[verifier::external_body]
pub struct ExPngState(lodepng::State);

/// The pixel layout of a decoded PNG buffer (the variant of `lodepng::Image`).
#[derive(Clone, Copy, Debug, PartialEq, Eq, Structural)]
pub enum PngKind {
    /// Packed palette indices or low-depth grey levels, to be expanded.
    Raw,
    Grey8,
    Grey16,
    GreyAlpha8,
    GreyAlpha16,
    Rgba8,
    Rgb8,
    Rgba16,
    Rgb16,
}

/// The colour type that the PNG header declares.
#[derive(Clone, Copy, Debug, PartialEq, Eq, Structural)]
pub enum PngColorType {
    Grey,
    Rgb,
    Palette,
    GreyAlpha,
    Rgba,
    Other,
}

/// The layout of the buffer that lodepng decodes pixels of the given colour type and bit
/// depth into, with the colour type kept: 8- and 16-bit grey, grey with alpha, RGB and
/// RGBA pixels, and packed samples (palette indices, low-depth grey levels) otherwise.
pub open spec fn png_buffer_kind(color_type: PngColorType, bit_depth: u32) -> PngKind {
    match (color_type, bit_depth) {
        (PngColorType::Rgba, 8) => PngKind::Rgba8,
        (PngColorType::Rgb, 8) => PngKind::Rgb8,
        (PngColorType::Rgba, 16) => PngKind::Rgba16,
        (PngColorType::Rgb, 16) => PngKind::Rgb16,
        (PngColorType::Grey, 8) => PngKind::Grey8,
        (PngColorType::Grey, 16) => PngKind::Grey16,
        (PngColorType::GreyAlpha, 8) => PngKind::GreyAlpha8,
        (PngColorType::GreyAlpha, 16) => PngKind::GreyAlpha16,
        _ => PngKind::Raw,
    }
}

pub fn png_buffer_kind_exec(color_type: PngColorType, bit_depth: u32) -> (k: PngKind)
    ensures
        k == png_buffer_kind(color_type, bit_depth),
{
    match (color_type, bit_depth) {
        (PngColorType::Rgba, 8) => PngKind::Rgba8,
        (PngColorType::Rgb, 8) => PngKind::Rgb8,
        (PngColorType::Rgba, 16) => PngKind::Rgba16,
        (PngColorType::Rgb, 16) => PngKind::Rgb16,
        (PngColorType::Grey, 8) => PngKind::Grey8,
        (PngColorType::Grey, 16) => PngKind::Grey16,
        (PngColorType::GreyAlpha, 8) => PngKind::GreyAlpha8,
        (PngColorType::GreyAlpha, 16) => PngKind::GreyAlpha16,
        _ => PngKind::Raw,
    }
}

/// The big-endian 32-bit number stored at `data[at..at + 4]`.
pub open spec fn be32(data: Seq<u8>, at: int) -> int {
    data[at] * 0x100_0000 + data[at + 1] * 0x1_0000 + data[at + 2] * 0x100 + data[at + 3]
}

// What lodepng gives for a file, read by a decoder that keeps the file's colour type,
// skips text chunks and keeps the chunks that it does not interpret (see `PngDecoder`).

/// The width and height that `lodepng::State::inspect` reads, or its error code.
pub uninterp spec fn png_inspection(data: Seq<u8>) -> Result<(usize, usize), u32>;

/// The width, height and bytes that `lodepng::State::decode` gives, or its error code.
pub uninterp spec fn png_decoding(data: Seq<u8>) -> Result<(usize, usize, Seq<u8>), u32>;

/// Whether a decoded file kept a chunk of the given name (`lodepng::Info::get`).
pub uninterp spec fn png_chunk_present(data: Seq<u8>, name: Seq<char>) -> bool;

/// The decompressed ICC profile of a decoded file's `iCCP` chunk (`lodepng::State::get_icc`),
/// `None` where it has none or it does not decompress.
pub uninterp spec fn png_icc_data(data: Seq<u8>) -> Option<Seq<u8>>;

/// The colour type of a decoded file's pixels (`lodepng::ColorMode::colortype`).
pub uninterp spec fn png_raw_color_type(data: Seq<u8>) -> PngColorType;

/// The bits per sample of a decoded file's pixels (`lodepng::ColorMode::bitdepth`).
pub uninterp spec fn png_raw_bit_depth(data: Seq<u8>) -> u32;

/// The palette of a decoded file (`lodepng::ColorMode::palette`).
pub uninterp spec fn png_raw_palette(data: Seq<u8>) -> Seq<RGBA8>;

/// A lodepng decoder set up as the loader uses it: pixels keep the file's colour type, text
/// chunks are skipped, and chunks that it does not interpret (such as `iCCP`) are kept.
/// Its view is the file it last decoded, where its state holds that file's information.
pub struct PngDecoder {
    state: lodepng::State,
    /// The file that `state` last decoded. Only the verified methods of this module set it,
    /// each right after the call into lodepng that changes `state`.
    decoded: Ghost<Option<Seq<u8>>>,
}

impl View for PngDecoder {
    type V = Option<Seq<u8>>;

    closed spec fn view(&self) -> Option<Seq<u8>> {
        self.decoded@
    }
}

/// A fresh decoder state, `lodepng::State::new`.
#[verifier::external_body]
#[allow(deprecated)]
fn png_state_new() -> lodepng::State {
    lodepng::State::new()
}

/// Sets whether the decoder converts pixels to RGBA, `lodepng::State::color_convert`.
#[verifier::external_body]
fn png_color_convert(state: &mut lodepng::State, on: bool) {
    state.color_convert(on)
}

/// Sets whether the decoder reads text chunks, `lodepng::State::read_text_chunks`.
#[verifier::external_body]
fn png_read_text_chunks(state: &mut lodepng::State, on: bool) {
    state.read_text_chunks(on)
}

/// Sets whether the decoder keeps chunks it does not interpret,
/// `lodepng::State::remember_unknown_chunks`.
#[verifier::external_body]
fn png_remember_unknown_chunks(state: &mut lodepng::State, on: bool) {
    state.remember_unknown_chunks(on)
}

/// Reads the PNG header, `lodepng::State::inspect`, named [`png_inspection`]; the error is
/// given by its code. The source refuses files under 33 bytes and zero sizes, and reads the
/// width and height big-endian at byte offsets 16 and 20 (in the `IHDR` chunk). What the
/// state holds afterwards is not stated.
#[verifier::external_body]
#[allow(deprecated)]
fn png_inspect(d: &mut PngDecoder, data: &[u8]) -> (r: Result<(usize, usize), u32>)
    ensures
        r == png_inspection(data@),
        r matches Ok(s) ==> data@.len() >= 33 && s.0 == be32(data@, 16) && s.1 == be32(data@, 20) && s.0 > 0
            && s.1 > 0,
        r matches Err(c) ==> c != 0,
{
    d.state.inspect(data).map_err(|e| lodepng::ErrorCode::from(e).0)
}

/// Decodes the PNG, `lodepng::State::decode`, named [`png_decoding`]: the buffer's width,
/// height and bytes (`lodepng::Image::bytes`: samples as the file stores them, 16-bit ones
/// big-endian), or the error's code. What the state holds afterwards is not stated.
#[verifier::external_body]
#[allow(deprecated)]
fn png_decode(d: &mut PngDecoder, data: &[u8]) -> (r: Result<(usize, usize, Vec<u8>), u32>)
    ensures
        r matches Ok(p) ==> (png_decoding(data@) matches Ok(t) && t == (p.0, p.1, p.2@)),
        r matches Err(c) ==> (png_decoding(data@) matches Err(e) && e == c) && c != 0,
{
    match d.state.decode(data) {
        Ok(image) => Ok((image.width(), image.height(), image.bytes().to_vec())),
        Err(e) => Err(lodepng::ErrorCode::from(e).0),
    }
}

/// True when the last decoded file kept a chunk of the given name,
/// `lodepng::Info::get` on `lodepng::State::info_png`; named [`png_chunk_present`].
#[verifier::external_body]
pub(crate) fn png_has_chunk(d: &PngDecoder, name: &str) -> (b: bool)
    requires
        d@ is Some,
    ensures
        b == png_chunk_present(d@->0, name@),
{
    d.state.info_png().get(name).is_some()
}

/// The decompressed ICC profile of the last decoded file, `lodepng::State::get_icc`
/// (`None` for its error); named [`png_icc_data`].
#[verifier::external_body]
pub(crate) fn png_get_icc(d: &PngDecoder) -> (r: Option<Vec<u8>>)
    requires
        d@ is Some,
    ensures
        r is None <==> png_icc_data(d@->0) is None,
        r matches Some(v) ==> png_icc_data(d@->0) == Some(v@),
{
    d.state.get_icc().ok()
}

/// The colour type of the last decoded file's pixels, `lodepng::ColorMode::colortype` on
/// `lodepng::State::info_raw`, sorted into the types the loader tells apart; named
/// [`png_raw_color_type`].
#[verifier::external_body]
pub(crate) fn png_color_type(d: &PngDecoder) -> (t: PngColorType)
    requires
        d@ is Some,
    ensures
        t == png_raw_color_type(d@->0),
{
    match d.state.info_raw().colortype() {
        lodepng::ColorType::GREY => PngColorType::Grey,
        lodepng::ColorType::RGB => PngColorType::Rgb,
        lodepng::ColorType::PALETTE => PngColorType::Palette,
        lodepng::ColorType::GREY_ALPHA => PngColorType::GreyAlpha,
        lodepng::ColorType::RGBA => PngColorType::Rgba,
        _ => PngColorType::Other,
    }
}

/// The bits per sample of the last decoded file's pixels, `lodepng::ColorMode::bitdepth` on
/// `lodepng::State::info_raw`; named [`png_raw_bit_depth`].
#[verifier::external_body]
pub(crate) fn png_bit_depth(d: &PngDecoder) -> (n: u32)
    requires
        d@ is Some,
    ensures
        n == png_raw_bit_depth(d@->0),
{
    d.state.info_raw().bitdepth()
}

/// The palette of the last decoded file, `lodepng::ColorMode::palette` on
/// `lodepng::State::info_raw`; named [`png_raw_palette`]. The source keeps at most 256
/// colours.
#[verifier::external_body]
pub(crate) fn png_palette(d: &PngDecoder) -> (pal: Vec<RGBA8>)
    requires
        d@ is Some,
    ensures
        pal@ == png_raw_palette(d@->0),
        pal@.len() <= 256,
{
    d.state.info_raw().palette().iter().map(|p| RGBA8 { r: p.r, g: p.g, b: p.b, a: p.a }).collect()
}

impl PngDecoder {
    /// A decoder set up as the loader uses it; it has decoded nothing yet.
    pub fn new() -> (d: Self)
        ensures
            d@ is None,
    {
        let mut state = png_state_new();
        png_color_convert(&mut state, false);
        png_read_text_chunks(&mut state, false);
        png_remember_unknown_chunks(&mut state, true);
        PngDecoder { state, decoded: Ghost(None) }
    }

    /// The width and height in the file's header (see [`png_inspection`]).
    pub fn inspect(&mut self, data: &[u8]) -> (r: Result<(usize, usize), u32>)
        ensures
            r == png_inspection(data@),
            r matches Ok(s) ==> data@.len() >= 33 && s.0 == be32(data@, 16) && s.1 == be32(data@, 20) && s.0 > 0
                && s.1 > 0,
            r matches Err(c) ==> c != 0,
            final(self)@ is None,
    {
        let r = png_inspect(self, data);
        self.decoded = Ghost(None);
        r
    }

    /// Decodes the file (see [`png_decoding`]); afterwards the decoder holds its information.
    pub fn decode(&mut self, data: &[u8]) -> (r: Result<(usize, usize, Vec<u8>), u32>)
        ensures
            r matches Ok(p) ==> (png_decoding(data@) matches Ok(t) && t == (p.0, p.1, p.2@))
                && final(self)@ == Some(data@),
            r matches Err(c) ==> (png_decoding(data@) matches Err(e) && e == c) && c != 0,
    {
        let r = png_decode(self, data);
        if r.is_ok() {
            self.decoded = Ghost(Some(data@));
        } else {
            self.decoded = Ghost(None);
        }
        r
    }
}

} // verus!
