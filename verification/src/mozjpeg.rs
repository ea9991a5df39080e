use vstd::prelude::*;
use vstd::slice::slice_subrange;

use crate::bitmap::Bitmap;
use crate::color::{icc_of, lcms_converted, profile_image, to_image, ColorProfile};
use crate::error::Error;
use crate::exif::{exif_reading, parse_exif, ExifField};
use crate::format::Format;
use crate::image::{ChunkType, Image, ImageMeta, JpegMarker, Pixels};
use crate::jpeg::{cmyk_converts, cmyk_icc_used, cmyk_to_image};
use crate::lcms::{icc_accepted, icc_description};
use crate::loader::{keeps_profile, Loader, Profiles};
use crate::profiles::{adobe1998_icc, cmyk_icc};
use crate::pixel::{Gray, CMYK, RGB};
use crate::rotate::{can_rotate_exec, exif_rotation, rotated_height, rotated_width, Rotate};

verus! {

/// The marker kinds that the decoder is asked to keep: every application marker and
/// comments where all metadata is kept, else only EXIF (`APP1`) and ICC (`APP2`) data.
pub open spec fn kept_markers(keep_metadata: bool) -> Seq<JpegMarker> {
    if keep_metadata {
        Seq::new(15, |i: int| JpegMarker::APP(i as u8)).push(JpegMarker::COM)
    } else {
        seq![JpegMarker::APP(1), JpegMarker::APP(2)]
    }
}

/// `"ICC_PROFILE\0"`, the tag that opens each chunk of an embedded ICC profile.
pub open spec fn icc_tag() -> Seq<u8> {
    seq![0x49u8, 0x43u8, 0x43u8, 0x5fu8, 0x50u8, 0x52u8, 0x4fu8, 0x46u8, 0x49u8, 0x4cu8, 0x45u8, 0x00u8]
}

/// An `APP2` segment that carries a chunk of an ICC profile: the tag, the chunk's sequence
/// number, the number of chunks (not below the sequence number), and at least one byte.
pub open spec fn is_icc_chunk(m: JpegMarker, d: Seq<u8>) -> bool {
    &&& m == JpegMarker::APP(2)
    &&& d.len() > 14
    &&& d[12] <= d[13]
    &&& d.subrange(0, 12) == icc_tag()
}

/// What an ICC chunk carries of the profile: everything after its 14-byte header.
pub open spec fn icc_chunk_payload(d: Seq<u8>) -> Seq<u8> {
    d.subrange(14, d.len() as int)
}

/// The payloads of the ICC chunks among the first `i` segments whose sequence number is
/// `n`, in the order of the segments.
pub open spec fn icc_payloads_numbered(segs: Seq<(JpegMarker, Vec<u8>)>, n: int, i: int) -> Seq<u8>
    decreases i,
{
    if i <= 0 {
        Seq::empty()
    } else {
        let before = icc_payloads_numbered(segs, n, i - 1);
        let d = segs[i - 1].1@;
        if is_icc_chunk(segs[i - 1].0, d) && d[12] == n {
            before + icc_chunk_payload(d)
        } else {
            before
        }
    }
}

/// The payloads of all ICC chunks with a sequence number below `n`: ordered by sequence
/// number, and chunks with equal numbers in the order of the segments.
pub open spec fn icc_payloads_below(segs: Seq<(JpegMarker, Vec<u8>)>, n: int) -> Seq<u8>
    decreases n,
{
    if n <= 0 {
        Seq::empty()
    } else {
        icc_payloads_below(segs, n - 1) + icc_payloads_numbered(segs, n - 1, segs.len() as int)
    }
}

/// Some segment carries an ICC chunk.
pub open spec fn has_icc_chunk(segs: Seq<(JpegMarker, Vec<u8>)>) -> bool {
    exists|i: int| 0 <= i < segs.len() && #[trigger] is_icc_chunk(segs[i].0, segs[i].1@)
}

/// The embedded ICC profile: the chunks' payloads put together in the order of their
/// sequence numbers; `None` where no segment carries a chunk.
pub open spec fn embedded_icc(segs: Seq<(JpegMarker, Vec<u8>)>) -> Option<Seq<u8>> {
    if has_icc_chunk(segs) {
        Some(icc_payloads_below(segs, 256))
    } else {
        None
    }
}

/// An `APP1` segment that carries EXIF data: at least 12 bytes, opening with `"Exif\0\0"`.
pub open spec fn is_exif_segment(m: JpegMarker, d: Seq<u8>) -> bool {
    &&& m == JpegMarker::APP(1)
    &&& d.len() >= 12
    &&& d.subrange(0, 6) == seq![0x45u8, 0x78u8, 0x69u8, 0x66u8, 0x00u8, 0x00u8]
}

/// The EXIF data (after its 6-byte header) of the first EXIF segment from index `i` on.
pub open spec fn exif_payload_from(segs: Seq<(JpegMarker, Vec<u8>)>, i: int) -> Option<Seq<u8>>
    decreases segs.len() - i,
{
    if i < 0 || i >= segs.len() {
        None
    } else if is_exif_segment(segs[i].0, segs[i].1@) {
        Some(segs[i].1@.subrange(6, segs[i].1@.len() as int))
    } else {
        exif_payload_from(segs, i + 1)
    }
}

fn is_icc_chunk_exec(m: JpegMarker, d: &Vec<u8>) -> (r: bool)
    ensures
        r == is_icc_chunk(m, d@),
{
    match m {
        JpegMarker::APP(2) => {},
        _ => return false,
    }
    if d.len() <= 14 || d[12] > d[13] {
        return false;
    }
    let tagged = d[0] == 0x49 && d[1] == 0x43 && d[2] == 0x43 && d[3] == 0x5f && d[4] == 0x50 && d[5] == 0x52
        && d[6] == 0x4f && d[7] == 0x46 && d[8] == 0x49 && d[9] == 0x4c && d[10] == 0x45 && d[11] == 0x00;
    proof {
        if tagged {
            assert(d@.subrange(0, 12) =~= icc_tag());
        } else {
            assert(d@.subrange(0, 12) != icc_tag()) by {
                if d@.subrange(0, 12) == icc_tag() {
                    assert(d@[0] == d@.subrange(0, 12)[0]);
                    assert(d@[1] == d@.subrange(0, 12)[1]);
                    assert(d@[2] == d@.subrange(0, 12)[2]);
                    assert(d@[3] == d@.subrange(0, 12)[3]);
                    assert(d@[4] == d@.subrange(0, 12)[4]);
                    assert(d@[5] == d@.subrange(0, 12)[5]);
                    assert(d@[6] == d@.subrange(0, 12)[6]);
                    assert(d@[7] == d@.subrange(0, 12)[7]);
                    assert(d@[8] == d@.subrange(0, 12)[8]);
                    assert(d@[9] == d@.subrange(0, 12)[9]);
                    assert(d@[10] == d@.subrange(0, 12)[10]);
                    assert(d@[11] == d@.subrange(0, 12)[11]);
                }
            }
        }
    }
    tagged
}

fn is_exif_segment_exec(m: JpegMarker, d: &Vec<u8>) -> (r: bool)
    ensures
        r == is_exif_segment(m, d@),
{
    match m {
        JpegMarker::APP(1) => {},
        _ => return false,
    }
    if d.len() < 12 {
        return false;
    }
    let tagged = d[0] == 0x45 && d[1] == 0x78 && d[2] == 0x69 && d[3] == 0x66 && d[4] == 0x00 && d[5] == 0x00;
    proof {
        let head = seq![0x45u8, 0x78u8, 0x69u8, 0x66u8, 0x00u8, 0x00u8];
        if tagged {
            assert(d@.subrange(0, 6) =~= head);
        } else {
            assert(d@.subrange(0, 6) != head) by {
                if d@.subrange(0, 6) == head {
                    assert(d@[0] == d@.subrange(0, 6)[0]);
                    assert(d@[1] == d@.subrange(0, 6)[1]);
                    assert(d@[2] == d@.subrange(0, 6)[2]);
                    assert(d@[3] == d@.subrange(0, 6)[3]);
                    assert(d@[4] == d@.subrange(0, 6)[4]);
                    assert(d@[5] == d@.subrange(0, 6)[5]);
                }
            }
        }
    }
    tagged
}

fn any_icc_chunk(segs: &Vec<(JpegMarker, Vec<u8>)>) -> (r: bool)
    ensures
        r == has_icc_chunk(segs@),
{
    let mut i: usize = 0;
    while i < segs.len()
        invariant
            i <= segs@.len(),
            forall|j: int| 0 <= j < i ==> !#[trigger] is_icc_chunk(segs@[j].0, segs@[j].1@),
        decreases segs.len() - i,
    {
        if is_icc_chunk_exec(segs[i].0, &segs[i].1) {
            return true;
        }
        i = i + 1;
    }
    false
}

/// The ICC profile that the `APP2` segments carry, put together from its chunks in the
/// order of their sequence numbers (see [`embedded_icc`]).
pub fn assemble_icc(segs: &Vec<(JpegMarker, Vec<u8>)>) -> (r: Option<Vec<u8>>)
    ensures
        match r {
            Some(v) => embedded_icc(segs@) == Some(v@),
            None => embedded_icc(segs@) is None,
        },
{
    if !any_icc_chunk(segs) {
        return None;
    }
    let mut icc: Vec<u8> = Vec::new();
    let mut n: u16 = 0;
    while n < 256
        invariant
            n <= 256,
            icc@ == icc_payloads_below(segs@, n as int),
        decreases 256 - n,
    {
        let mut i: usize = 0;
        while i < segs.len()
            invariant
                n < 256,
                i <= segs@.len(),
                icc@ == icc_payloads_below(segs@, n as int) + icc_payloads_numbered(segs@, n as int, i as int),
            decreases segs.len() - i,
        {
            let d = &segs[i].1;
            if is_icc_chunk_exec(segs[i].0, d) && d[12] as u16 == n {
                let ghost before = icc@;
                let payload = slice_subrange(d.as_slice(), 14, d.len());
                let mut k: usize = 0;
                while k < payload.len()
                    invariant
                        k <= payload@.len(),
                        icc@ == before + payload@.subrange(0, k as int),
                    decreases payload.len() - k,
                {
                    icc.push(payload[k]);
                    assert(icc@ =~= before + payload@.subrange(0, k + 1));
                    k = k + 1;
                }
                assert(payload@.subrange(0, payload@.len() as int) =~= icc_chunk_payload(d@));
            }
            i = i + 1;
        }
        n = n + 1;
    }
    Some(icc)
}


/// The metadata chunks that stand for the marker segments, one for one and in order.
pub open spec fn chunks_of_segments(segs: Seq<(JpegMarker, Vec<u8>)>, chunks: Seq<(ChunkType, Vec<u8>)>) -> bool {
    &&& chunks.len() == segs.len()
    &&& forall|i: int| 0 <= i < segs.len() ==> #[trigger] chunks[i].0 == ChunkType::JPEG(segs[i].0)
        && chunks[i].1@ == segs[i].1@
}

fn segment_chunks(segs: &Vec<(JpegMarker, Vec<u8>)>) -> (chunks: Vec<(ChunkType, Vec<u8>)>)
    ensures
        chunks_of_segments(segs@, chunks@),
{
    let mut chunks: Vec<(ChunkType, Vec<u8>)> = Vec::new();
    let mut i: usize = 0;
    while i < segs.len()
        invariant
            i <= segs@.len(),
            chunks@.len() == i,
            forall|j: int| 0 <= j < i ==> #[trigger] chunks@[j].0 == ChunkType::JPEG(segs@[j].0)
                && chunks@[j].1@ == segs@[j].1@,
        decreases segs.len() - i,
    {
        let data = segs[i].1.clone();
        assert(data@ =~= segs@[i as int].1@);
        chunks.push((ChunkType::JPEG(segs[i].0), data));
        i = i + 1;
    }
    chunks
}

/// What the loader takes from a JPEG file's marker segments before it decodes the pixels.
pub struct JpegHeader {
    /// The colour profile to apply.
    pub profile: Option<ColorProfile>,
    /// The EXIF orientation tag, 1 where there is none.
    pub orientation: u16,
    /// The format and the kept marker segments.
    pub meta: ImageMeta,
}

/// Pixels as the JPEG decoder gives them, by colour model.
pub enum JpegPixels {
    RGB(Vec<RGB<u8>>),
    CMYK(Vec<CMYK>),
    Gray(Vec<Gray<u8>>),
}

impl JpegPixels {
    /// The number of pixels.
    pub open spec fn len(&self) -> nat {
        match self {
            JpegPixels::RGB(v) => v@.len(),
            JpegPixels::CMYK(v) => v@.len(),
            JpegPixels::Gray(v) => v@.len(),
        }
    }
}

/// Whether the loader applies the embedded ICC profile under the strategy: where the
/// segments carry one that Little CMS opens and the strategy keeps (see [`keeps_profile`]).
pub open spec fn embedded_profile_kept(segs: Seq<(JpegMarker, Vec<u8>)>, strategy: Profiles) -> bool {
    &&& embedded_icc(segs) matches Some(icc)
    &&& icc_accepted(icc)
    &&& keeps_profile(strategy, icc_description(icc))
}

impl Loader {
    /// The embedded ICC profile (see [`embedded_icc`]), where Little CMS opens it and the
    /// loader's strategy applies it.
    pub fn get_jpeg_profile(&self, segs: &Vec<(JpegMarker, Vec<u8>)>) -> (r: Option<ColorProfile>)
        ensures
            r is Some <==> embedded_profile_kept(segs@, self.profile_strategy()),
            r matches Some(p) ==> embedded_icc(segs@) == Some(p.icc_data()),
    {
        match assemble_icc(segs) {
            Some(icc) => self.process_profile(ColorProfile::from_icc(icc.as_slice())),
            None => None,
        }
    }

    /// The EXIF data (after its `"Exif\0\0"` header) of the first EXIF segment, for rexif to
    /// read (see [`exif_payload_from`]); `None` where there is none.
    pub fn get_exif_data(segs: &Vec<(JpegMarker, Vec<u8>)>) -> (r: Option<Vec<u8>>)
        ensures
            match r {
                Some(v) => exif_payload_from(segs@, 0) == Some(v@),
                None => exif_payload_from(segs@, 0) is None,
            },
    {
        let mut i: usize = 0;
        while i < segs.len()
            invariant
                i <= segs@.len(),
                exif_payload_from(segs@, 0) == exif_payload_from(segs@, i as int),
            decreases segs.len() - i,
        {
            let d = &segs[i].1;
            if is_exif_segment_exec(segs[i].0, d) {
                let payload = slice_subrange(d.as_slice(), 6, d.len());
                return Some(vstd::slice::slice_to_vec(payload));
            }
            i = i + 1;
        }
        None
    }

    /// Reads the marker segments of a JPEG file of the given size: the colour profile to
    /// apply and its metadata, with the EXIF orientation and primaries from `exif`, the
    /// entries that rexif read from the EXIF data (see [`Loader::get_exif_data`]).
    ///
    /// `Err(ImageTooLarge)` exactly when the image has more than 10000×10000 pixels, or more
    /// than the loader's `max_image_area`. The
    /// profile is none with `Profiles::Skip`; else the embedded one where it is kept, else
    /// Adobe RGB (1998) where the EXIF primaries name it.
    pub fn read_jpeg_markers(&self, width: usize, height: usize, segs: &Vec<(JpegMarker, Vec<u8>)>, exif: Option<Vec<ExifField>>) -> (r: Result<JpegHeader, Error>)
        ensures
            r is Err <==> (width * height > 10000 * 10000 || width * height > self.max_area()),
            r matches Err(e) ==> e is ImageTooLarge,
            r matches Ok(h) ==> {
                &&& h.orientation == exif_reading(exif).0
                &&& h.meta.format == Format::Jpeg
                &&& chunks_of_segments(segs@, h.meta.chunks@)
                &&& self.profile_strategy() == Profiles::Skip ==> h.profile is None
                &&& self.profile_strategy() != Profiles::Skip ==> (h.profile is Some <==> (
                    embedded_profile_kept(segs@, self.profile_strategy())
                        || (exif_reading(exif).1 && icc_accepted(adobe1998_icc()))))
                &&& h.profile matches Some(p) ==> p.icc_data() == if embedded_profile_kept(segs@, self.profile_strategy()) {
                    embedded_icc(segs@)->0
                } else {
                    adobe1998_icc()
                }
            },
    {
        let too_large = match width.checked_mul(height) {
            Some(area) => area > 10000 * 10000,
            None => true,
        };
        if too_large || self.check_dimensions(width, height).is_err() {
            return Err(Error::ImageTooLarge);
        }
        let (orientation, is_adobe_1998) = parse_exif(&exif);
        proof {
            self.lemma_settings();
        }
        let profile = if self.profiles == Profiles::Skip {
            None
        } else {
            match self.get_jpeg_profile(segs) {
                Some(embedded) => Some(embedded),
                None => if is_adobe_1998 {
                    ColorProfile::from_icc(crate::profiles::adobe1998().as_slice())
                } else {
                    None
                },
            }
        };
        let meta = ImageMeta::new(Format::Jpeg, segment_chunks(segs));
        Ok(JpegHeader { profile, orientation, meta })
    }
}

/// What the decoded pixels become with the profile opened from the ICC bytes `icc`, if any:
/// grey and RGB pixels as [`profile_image`] says, without alpha; CMYK pixels converted into
/// 16-bit RGB by the profile that [`cmyk_icc_used`] picks.
pub open spec fn decoded_frame_image(pixels: JpegPixels, icc: Option<Seq<u8>>, frame: Pixels) -> bool {
    match pixels {
        JpegPixels::RGB(v) => profile_image::<RGB<u8>>(icc, true, v@, frame),
        JpegPixels::Gray(v) => profile_image::<Gray<u8>>(icc, true, v@, frame),
        JpegPixels::CMYK(v) => frame matches Pixels::RGB16(o) && (v@.len() <= u32::MAX
            ==> lcms_converted(cmyk_icc_used(icc, v@.len()), v@, o)),
    }
}

/// The image of the pixels that the decoder gave for a file with the given header:
/// converted by the header's profile (CMYK pixels always, by the built-in CMYK profile
/// where the header's does not convert them), then turned upright by the EXIF orientation.
///
/// `Err(UnsupportedJpeg)` where the size does not fit the pixels or the width is zero,
/// and where no profile converts CMYK pixels.
pub fn jpeg_pixels_to_image(pixels: JpegPixels, width: usize, height: usize, header: JpegHeader) -> (r: Result<Image, Error>)
    ensures
        r matches Err(e) ==> e is UnsupportedJpeg,
        !(pixels is CMYK) && 0 < width <= u32::MAX && 0 < height <= u32::MAX && pixels.len() == width * height
            ==> r is Ok,
        (pixels is CMYK && 0 < width <= u32::MAX && 0 < height <= u32::MAX && pixels.len() == width * height
            && ((header.profile matches Some(p) && cmyk_converts(p.icc_data(), pixels.len()))
                || (icc_accepted(cmyk_icc()) && cmyk_converts(cmyk_icc(), pixels.len())))) ==> r is Ok,
        r matches Ok(img) ==> {
            let rot = exif_rotation(header.orientation);
            &&& img.meta == header.meta
            &&& !img.bitmap@.has_alpha()
            &&& pixels.len() == width * height ==> img.bitmap@.len() == img.width * img.height
            &&& img.width == rotated_width(rot, width as int, height as int)
            &&& img.height == rotated_height(rot, width as int, height as int)
            &&& pixels is CMYK ==> img.bitmap@ is RGB16
            &&& (pixels matches JpegPixels::RGB(v) ==> (header.profile is None
                ==> img.bitmap@ == Pixels::RGB8(v@).rotated(width as int, height as int, rot)))
            &&& (pixels matches JpegPixels::Gray(v) ==> (header.profile is None
                ==> img.bitmap@ == Pixels::GRAY8(v@).rotated(width as int, height as int, rot)))
            &&& exists|frame: Pixels| decoded_frame_image(pixels, icc_of(header.profile), frame)
                && img.bitmap@ == #[trigger] frame.rotated(width as int, height as int, rot)
        },
{
    if !(width > 0 && width <= 0xffff_ffff && height <= 0xffff_ffff) {
        return Err(Error::UnsupportedJpeg);
    }
    let meta = header.meta;
    let ghost icc = icc_of(header.profile);
    let ghost decoded = pixels;
    let img = match pixels {
        JpegPixels::RGB(v) => to_image(v, header.profile, width, height, true, meta),
        JpegPixels::Gray(v) => to_image(v, header.profile, width, height, true, meta),
        JpegPixels::CMYK(v) => match cmyk_to_image(v, header.profile, width, height, meta) {
            Some(img) => img,
            None => return Err(Error::UnsupportedJpeg),
        },
    };
    let rotation = Rotate::from_exif_orientation(header.orientation);
    if !can_rotate_exec(img.bitmap.len(), img.width, img.height, rotation) {
        return Err(Error::UnsupportedJpeg);
    }
    let ghost frame = img.bitmap@;
    assert(decoded_frame_image(decoded, icc, frame));
    Ok(img.rotated(rotation))
}

} // verus!
