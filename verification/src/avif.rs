use vstd::prelude::*;

use crate::bitmap::Bitmap;
use crate::format::Format;
use crate::image::{Image, ImageMeta, Pixels};
use crate::pixel::{Gray, RGB16, RGB8, RGBA16, RGBA8};

verus! {

/// `"ftypavif"`, the file type box that opens an AVIF file after its 4-byte size.
pub open spec fn avif_brand() -> Seq<u8> {
    seq![0x66u8, 0x74u8, 0x79u8, 0x70u8, 0x61u8, 0x76u8, 0x69u8, 0x66u8]
}

/// The data is an AVIF file: bytes 4 to 12 are `"ftypavif"`.
pub open spec fn is_avif_data(data: Seq<u8>) -> bool {
    data.len() >= 12 && data.subrange(4, 12) == avif_brand()
}

/// True when the data is an AVIF file (see [`is_avif_data`]).
pub fn is_avif(data: &[u8]) -> (r: bool)
    ensures
        r == is_avif_data(data@),
{
    if data.len() < 12 {
        return false;
    }
    let branded = data[4] == 0x66 && data[5] == 0x74 && data[6] == 0x79 && data[7] == 0x70 && data[8] == 0x61
        && data[9] == 0x76 && data[10] == 0x69 && data[11] == 0x66;
    proof {
        if branded {
            assert(data@.subrange(4, 12) =~= avif_brand());
        } else if data@.subrange(4, 12) == avif_brand() {
            assert(data@[4] == data@.subrange(4, 12)[0]);
            assert(data@[5] == data@.subrange(4, 12)[1]);
            assert(data@[6] == data@.subrange(4, 12)[2]);
            assert(data@[7] == data@.subrange(4, 12)[3]);
            assert(data@[8] == data@.subrange(4, 12)[4]);
            assert(data@[9] == data@.subrange(4, 12)[5]);
            assert(data@[10] == data@.subrange(4, 12)[6]);
            assert(data@[11] == data@.subrange(4, 12)[7]);
        }
    }
    branded
}

/// Pixels as the AVIF decoder gives them, by layout; grey levels come bare.
pub enum AvifPixels {
    RGB8(Vec<RGB8>),
    RGBA8(Vec<RGBA8>),
    RGB16(Vec<RGB16>),
    RGBA16(Vec<RGBA16>),
    Gray8(Vec<u8>),
    Gray16(Vec<u16>),
}

/// The grey pixels of the given levels.
fn grays<T: Copy>(levels: Vec<T>) -> (v: Vec<Gray<T>>)
    ensures
        v@.len() == levels@.len(),
        forall|i: int| 0 <= i < v@.len() ==> #[trigger] v@[i] == Gray(levels@[i]),
{
    let mut v: Vec<Gray<T>> = Vec::new();
    let mut i: usize = 0;
    while i < levels.len()
        invariant
            i <= levels@.len(),
            v@.len() == i,
            forall|j: int| 0 <= j < i ==> #[trigger] v@[j] == Gray(levels@[j]),
        decreases levels.len() - i,
    {
        v.push(Gray(levels[i]));
        i = i + 1;
    }
    v
}

/// The image of decoded AVIF pixels, as they are, with AVIF metadata.
pub fn avif_to_image(pixels: AvifPixels, width: usize, height: usize) -> (img: Image)
    ensures
        img.width == width,
        img.height == height,
        img.meta.format == Format::Avif,
        img.meta.chunks@.len() == 0,
        match pixels {
            AvifPixels::RGB8(v) => img.bitmap@ == Pixels::RGB8(v@),
            AvifPixels::RGBA8(v) => img.bitmap@ == Pixels::RGBA8(v@),
            AvifPixels::RGB16(v) => img.bitmap@ == Pixels::RGB16(v@),
            AvifPixels::RGBA16(v) => img.bitmap@ == Pixels::RGBA16(v@),
            AvifPixels::Gray8(v) => img.bitmap@ == Pixels::GRAY8(v@.map_values(|l: u8| Gray(l))),
            AvifPixels::Gray16(v) => img.bitmap@ == Pixels::GRAY16(v@.map_values(|l: u16| Gray(l))),
        },
{
    let meta = ImageMeta::new(Format::Avif, Vec::new());
    match pixels {
        AvifPixels::RGB8(v) => Image::from_opts(Bitmap::new(v, width, height), meta),
        AvifPixels::RGBA8(v) => Image::from_opts(Bitmap::new(v, width, height), meta),
        AvifPixels::RGB16(v) => Image::from_opts(Bitmap::new(v, width, height), meta),
        AvifPixels::RGBA16(v) => Image::from_opts(Bitmap::new(v, width, height), meta),
        AvifPixels::Gray8(v) => {
            let g = grays(v);
            assert(g@ =~= v@.map_values(|l: u8| Gray(l)));
            Image::from_opts(Bitmap::new(g, width, height), meta)
        },
        AvifPixels::Gray16(v) => {
            let g = grays(v);
            assert(g@ =~= v@.map_values(|l: u16| Gray(l)));
            Image::from_opts(Bitmap::new(g, width, height), meta)
        },
    }
}

} // verus!
