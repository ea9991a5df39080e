use vstd::prelude::*;

use jpeg_decoder::Error as JpegDecodeError;

verus! {

#[verifier::external_type_specification]
#[verifier::external_body]
#[verifier::reject_recursive_types(R)]
pub struct ExJpegDecoder<R>(jpeg_decoder::Decoder<R>);

/// The layout of decoded JPEG pixels.
#[derive(Clone, Copy, Debug, PartialEq, Eq, Structural)]
pub enum JpegPixelFormat {
    /// Grey, 8 bits.
    L8,
    /// Grey, 16 bits in the machine's byte order.
    L16,
    /// RGB, 8 bits per channel.
    RGB24,
    /// CMYK, 8 bits per channel.
    CMYK32,
}

/// The size and pixel layout of a decoded JPEG.
#[derive(Clone, Copy, Debug, PartialEq, Eq, Structural)]
pub struct JpegInfo {
    pub width: u16,
    pub height: u16,
    pub pixel_format: JpegPixelFormat,
}

// What jpeg-decoder gives for a file: a fresh decoder reading the file's bytes decodes it,
// and after a successful decode it reports the frame, the EXIF data and the ICC profile.

/// The pixel bytes that `jpeg_decoder::Decoder::decode` gives, `None` where it fails.
pub uninterp spec fn jpeg_decoding(data: Seq<u8>) -> Option<Seq<u8>>;

/// The size and layout that `jpeg_decoder::Decoder::info` reports after decoding.
pub uninterp spec fn jpeg_frame(data: Seq<u8>) -> Option<JpegInfo>;

/// The raw EXIF data that `jpeg_decoder::Decoder::exif_data` reports after decoding.
pub uninterp spec fn jpeg_exif(data: Seq<u8>) -> Option<Seq<u8>>;

/// The ICC profile that `jpeg_decoder::Decoder::icc_profile` puts together after decoding.
pub uninterp spec fn jpeg_icc(data: Seq<u8>) -> Option<Seq<u8>>;

/// A jpeg-decoder reading file data from memory. Its view is the data and how decoding
/// went: `None` before, `Some(true)` after a successful and `Some(false)` after a failed one.
pub struct JpegDecoder<'a> {
    dec: jpeg_decoder::Decoder<&'a [u8]>,
    /// The data that `dec` reads, and how its decoding went. Only the verified methods of
    /// this module set them: `new` with the decoder, `decode` right after the call into
    /// jpeg-decoder.
    data: Ghost<Seq<u8>>,
    outcome: Ghost<Option<bool>>,
}

impl<'a> View for JpegDecoder<'a> {
    type V = (Seq<u8>, Option<bool>);

    closed spec fn view(&self) -> (Seq<u8>, Option<bool>) {
        (self.data@, self.outcome@)
    }
}

/// A decoder reading from memory, `jpeg_decoder::Decoder::new`.
#[verifier::external_body]
fn jpeg_decoder_new<'a>(data: &'a [u8]) -> jpeg_decoder::Decoder<&'a [u8]> {
    jpeg_decoder::Decoder::new(data)
}

/// Decodes the image, `jpeg_decoder::Decoder::decode`: the pixel bytes, named
/// [`jpeg_decoding`] of the data that a fresh decoder reads, or the decoder's error.
/// What the decoder holds afterwards is not stated. The decoder reports malformed data as
/// errors; its source still holds `unwrap`s and `panic!`s on states that its own checks
/// are meant to rule out, and whether some data reaches one of them is not stated.
#[verifier::external_body]
fn jpeg_decode(d: &mut JpegDecoder) -> (r: Result<Vec<u8>, JpegDecodeError>)
    requires
        old(d)@.1 is None,
    ensures
        r is Ok <==> jpeg_decoding(old(d)@.0) is Some,
        r matches Ok(v) ==> jpeg_decoding(old(d)@.0) == Some(v@),
{
    d.dec.decode()
}

/// Size and layout of the decoded image, `jpeg_decoder::Decoder::info`, with the layout
/// told apart by the variant of `jpeg_decoder::PixelFormat`; named [`jpeg_frame`].
#[verifier::external_body]
pub(crate) fn jpeg_info(d: &JpegDecoder) -> (i: Option<JpegInfo>)
    requires
        d@.1 == Some(true),
    ensures
        i == jpeg_frame(d@.0),
{
    d.dec.info().map(|i| JpegInfo {
        width: i.width,
        height: i.height,
        pixel_format: match i.pixel_format {
            jpeg_decoder::PixelFormat::L8 => JpegPixelFormat::L8,
            jpeg_decoder::PixelFormat::L16 => JpegPixelFormat::L16,
            jpeg_decoder::PixelFormat::RGB24 => JpegPixelFormat::RGB24,
            jpeg_decoder::PixelFormat::CMYK32 => JpegPixelFormat::CMYK32,
        },
    })
}

/// The raw EXIF data of the decoded file, `jpeg_decoder::Decoder::exif_data`; named
/// [`jpeg_exif`].
#[verifier::external_body]
pub(crate) fn jpeg_exif_data(d: &JpegDecoder) -> (r: Option<Vec<u8>>)
    requires
        d@.1 == Some(true),
    ensures
        r is None <==> jpeg_exif(d@.0) is None,
        r matches Some(v) ==> jpeg_exif(d@.0) == Some(v@),
{
    d.dec.exif_data().map(|e| e.to_vec())
}

/// The embedded ICC profile reassembled from its markers,
/// `jpeg_decoder::Decoder::icc_profile`; named [`jpeg_icc`].
#[verifier::external_body]
pub(crate) fn jpeg_icc_profile(d: &JpegDecoder) -> (r: Option<Vec<u8>>)
    requires
        d@.1 == Some(true),
    ensures
        r is None <==> jpeg_icc(d@.0) is None,
        r matches Some(v) ==> jpeg_icc(d@.0) == Some(v@),
{
    d.dec.icc_profile()
}

impl<'a> JpegDecoder<'a> {
    /// A decoder that will read `data`.
    pub fn new(data: &'a [u8]) -> (d: Self)
        ensures
            d@ == (data@, None::<bool>),
    {
        JpegDecoder { dec: jpeg_decoder_new(data), data: Ghost(data@), outcome: Ghost(None) }
    }

    /// Decodes the image (see [`jpeg_decoding`]); a decoder decodes once.
    pub fn decode(&mut self) -> (r: Result<Vec<u8>, JpegDecodeError>)
        requires
            old(self)@.1 is None,
        ensures
            final(self)@ == (old(self)@.0, Some(r is Ok)),
            r is Ok <==> jpeg_decoding(old(self)@.0) is Some,
            r matches Ok(v) ==> jpeg_decoding(old(self)@.0) == Some(v@),
    {
        let ghost data = self.data@;
        let r = jpeg_decode(self);
        self.data = Ghost(data);
        self.outcome = Ghost(Some(r.is_ok()));
        r
    }
}

} // verus!
