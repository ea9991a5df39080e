use load_image::color::{ColorProfile, LcmsOutput};
use load_image::CopyAlpha;
use load_image::exif::{parse_exif, read_exif_fields, ExifField, ExifValue, ORIENTATION_TAG, PRIMARY_CHROMATICITIES_TAG};
use load_image::jpeg::{cmyk_to_image, jpeg_to_image};
use load_image::jpegdec::{JpegInfo, JpegPixelFormat};
use load_image::loader::sniff_format;
use load_image::mozjpeg::{assemble_icc, jpeg_pixels_to_image, JpegHeader, JpegPixels};
use load_image::palette::{from_palette, gray_palette};
use load_image::pixel::{high_byte_exec, widen_exec};
use load_image::png::{png_to_image, PngDecoded};
use load_image::pngdec::{PngColorType, PngKind};
use load_image::rotate::{can_rotate_exec, rotate_pixels};
use load_image::webp::webp_to_image;
use load_image::{
    Bitmap, ChunkType, Error, Format, Gray, GrayAlpha, Image, ImageData, ImageMeta, JpegMarker, Loader, NativeEndian,
    Profiles, Rotate, CMYK, RGB, RGB16, RGBA, RGBA16,
};

/// Big-endian TIFF with one `Orientation` entry.
fn exif_orientation(o: u16) -> Vec<u8> {
    let mut t = b"MM\0\x2a\0\0\0\x08\0\x01".to_vec();
    t.extend_from_slice(&[0x01, 0x12, 0, 3, 0, 0, 0, 1]);
    t.extend_from_slice(&o.to_be_bytes());
    t.extend_from_slice(&[0, 0, 0, 0, 0, 0]);
    t
}

fn exif_segment(o: u16) -> (JpegMarker, Vec<u8>) {
    let mut d = b"Exif\0\0".to_vec();
    d.extend_from_slice(&exif_orientation(o));
    (JpegMarker::APP(1), d)
}

fn icc_chunk(seq: u8, count: u8, payload: &[u8]) -> (JpegMarker, Vec<u8>) {
    let mut d = b"ICC_PROFILE\0".to_vec();
    d.push(seq);
    d.push(count);
    d.extend_from_slice(payload);
    (JpegMarker::APP(2), d)
}

fn header(orientation: u16) -> JpegHeader {
    JpegHeader { profile: None, orientation, meta: ImageMeta::new(Format::Jpeg, Vec::new()) }
}

const ALL_ROTATIONS: [Rotate; 8] = [
    Rotate::D0,
    Rotate::FlipX,
    Rotate::D90,
    Rotate::D90FlipX,
    Rotate::D180,
    Rotate::D180FlipX,
    Rotate::D270,
    Rotate::D270FlipX,
];

fn inverse(r: Rotate) -> Rotate {
    match r {
        Rotate::D90 => Rotate::D270,
        Rotate::D270 => Rotate::D90,
        other => other,
    }
}

#[test]
fn from_exif_orientation_table() {
    let expected = [
        (1, Rotate::D0),
        (2, Rotate::FlipX),
        (3, Rotate::D180),
        (4, Rotate::D180FlipX),
        (5, Rotate::D270FlipX),
        (6, Rotate::D270),
        (7, Rotate::D90FlipX),
        (8, Rotate::D90),
        (0, Rotate::D0),
        (9, Rotate::D0),
    ];
    for (o, r) in expected {
        assert_eq!(Rotate::from_exif_orientation(o), r);
    }
}

#[test]
fn rotate_pixels_values() {
    // 3×2 image: 0 1 2 / 3 4 5
    let src: Vec<u8> = vec![0, 1, 2, 3, 4, 5];
    assert_eq!(rotate_pixels(&src, 3, 2, Rotate::D0), src);
    assert_eq!(rotate_pixels(&src, 3, 2, Rotate::FlipX), vec![2, 1, 0, 5, 4, 3]);
    assert_eq!(rotate_pixels(&src, 3, 2, Rotate::D180), vec![5, 4, 3, 2, 1, 0]);
    assert_eq!(rotate_pixels(&src, 3, 2, Rotate::D180FlipX), vec![3, 4, 5, 0, 1, 2]);
    // 90° clockwise: 2×3 image 3 0 / 4 1 / 5 2
    assert_eq!(rotate_pixels(&src, 3, 2, Rotate::D270), vec![3, 0, 4, 1, 5, 2]);
    assert_eq!(rotate_pixels(&src, 3, 2, Rotate::D90), vec![2, 5, 1, 4, 0, 3]);
    assert_eq!(rotate_pixels(&src, 3, 2, Rotate::D270FlipX), vec![0, 3, 1, 4, 2, 5]);
    assert_eq!(rotate_pixels(&src, 3, 2, Rotate::D90FlipX), vec![5, 2, 4, 1, 3, 0]);
}

#[test]
fn rotation_round_trip() {
    let (w, h) = (5usize, 3usize);
    let src: Vec<u16> = (0..(w * h) as u16).map(|i| i * 7 + 1).collect();
    for r in ALL_ROTATIONS {
        let img = Image::from_opts(Bitmap::new(src.iter().map(|&v| Gray(v)).collect(), w, h), ImageMeta::default());
        let turned = img.rotated(r);
        let back = turned.rotated(inverse(r));
        assert_eq!((back.width, back.height), (w, h));
        match back.bitmap {
            ImageData::GRAY16(px) => assert_eq!(px.iter().map(|p| p.0).collect::<Vec<_>>(), src),
            _ => panic!("pixel format changed"),
        }
    }
}

#[test]
fn exif_orientations_upright() {
    let (w, h) = (4usize, 3usize);
    let up: Vec<u8> = (0..(w * h) as u8).collect();
    for o in 1u16..=8 {
        let swapped = o >= 5;
        let (sw, sh) = if swapped { (h, w) } else { (w, h) };
        let mut stored = Vec::new();
        for sy in 0..sh {
            for sx in 0..sw {
                let (x, y) = match o {
                    1 => (sx, sy),
                    2 => (w - 1 - sx, sy),
                    3 => (w - 1 - sx, h - 1 - sy),
                    4 => (sx, h - 1 - sy),
                    5 => (sy, sx),
                    6 => (w - 1 - sy, sx),
                    7 => (w - 1 - sy, h - 1 - sx),
                    _ => (sy, h - 1 - sx),
                };
                stored.push(Gray(up[y * w + x]));
            }
        }
        let img = Image::from_opts(Bitmap::new(stored, sw, sh), ImageMeta::default());
        let upright = img.rotated(Rotate::from_exif_orientation(o));
        assert_eq!((upright.width, upright.height), (w, h), "orientation {o}");
        match upright.bitmap {
            ImageData::GRAY8(px) => assert_eq!(px.iter().map(|p| p.0).collect::<Vec<_>>(), up, "orientation {o}"),
            _ => panic!("pixel format changed"),
        }
    }
}

#[test]
fn can_rotate_limits() {
    assert!(can_rotate_exec(6, 3, 2, Rotate::D90));
    assert!(!can_rotate_exec(5, 3, 2, Rotate::D90));
    assert!(can_rotate_exec(5, 3, 2, Rotate::D0));
    assert!(!can_rotate_exec(0, 0, 0, Rotate::D0));
    assert!(!can_rotate_exec(0, 3, 0, Rotate::D270));
    assert!(can_rotate_exec(0, 3, 0, Rotate::D180));
}

#[test]
fn widen_and_high_byte() {
    for c in [0u8, 1, 127, 128, 254, 255] {
        assert_eq!(widen_exec(c), c as u16 * 257);
        assert_eq!(high_byte_exec(widen_exec(c)), c);
    }
    assert_eq!(high_byte_exec(0x12ff), 0x12);
}

#[test]
fn into_rgba_values() {
    let meta = ImageMeta::default();
    let img = Image::from_opts(Bitmap::new(vec![RGB::new(1u16 << 8 | 0xff, 0x8000, 0x00ff)], 1, 1), meta);
    let (b, _) = img.into_rgba();
    assert_eq!(b.bitmap, vec![RGBA::new(1, 0x80, 0, 255)]);

    let img = Image::from_opts(Bitmap::new(vec![GrayAlpha(0x1234u16, 0xabcd)], 1, 1), ImageMeta::default());
    let (b, _) = img.into_rgba();
    assert_eq!(b.bitmap, vec![RGBA::new(0x12, 0x12, 0x12, 0xab)]);

    let img = Image::from_opts(Bitmap::new(vec![Gray(7u8), Gray(9u8)], 2, 1), ImageMeta::default());
    let (b, _) = img.into_rgba();
    assert_eq!((b.width, b.height), (2, 1));
    assert_eq!(b.bitmap, vec![RGBA::new(7, 7, 7, 255), RGBA::new(9, 9, 9, 255)]);

    let img = Image::from_opts(Bitmap::new(vec![RGBA::new(10u8, 20, 30, 40)], 1, 1), ImageMeta::default());
    let (b, _) = img.into_rgba();
    assert_eq!(b.bitmap, vec![RGBA::new(10, 20, 30, 40)]);
}

#[test]
fn cmyk_jpeg_frame_converts_without_profile() {
    let meta = ImageMeta::new(Format::Jpeg, Vec::new());
    let info = JpegInfo { width: 2, height: 1, pixel_format: JpegPixelFormat::CMYK32 };
    let img = jpeg_to_image(vec![255, 255, 255, 255, 0, 0, 0, 0], info, None, meta).unwrap();
    match img.bitmap {
        ImageData::RGB16(v) => {
            assert_eq!(v.len(), 2);
            assert!(v[0].r > 60000 && v[0].g > 60000 && v[0].b > 60000);
            assert!(v[1].r < 10000 && v[1].g < 10000 && v[1].b < 10000);
        }
        _ => panic!("CMYK pixels convert into 16-bit RGB"),
    }
}

#[test]
fn sixteen_bit_grey_jpeg_in_machine_byte_order() {
    let meta = ImageMeta::new(Format::Jpeg, Vec::new());
    let info = JpegInfo { width: 2, height: 1, pixel_format: JpegPixelFormat::L16 };
    let img = jpeg_to_image(vec![1, 2, 0xff, 0], info, None, meta).unwrap();
    assert_eq!(img.bitmap, ImageData::GRAY16(vec![Gray(u16::from_ne_bytes([1, 2])), Gray(u16::from_ne_bytes([0xff, 0]))]));
}

#[test]
fn big_endian_samples() {
    let px = RGB16::to_native(&[0x01, 0x02, 0x03, 0x04, 0x05, 0x06, 0xff]);
    assert_eq!(px, vec![RGB::new(0x0102, 0x0304, 0x0506)]);
    let px = RGBA16::to_native(&[0, 1, 0, 2, 0, 3, 0xff, 0xfe]);
    assert_eq!(px, vec![RGBA::new(1, 2, 3, 0xfffe)]);
    let px = CMYK::to_native(&[1, 2, 3, 4, 5]);
    assert_eq!(px, vec![CMYK { c: 1, m: 2, y: 3, k: 4 }]);
}

#[test]
fn palette_unpacking() {
    let pal = [10u8, 20, 30, 40];
    // 2-bit indices 3 2 1 0 in one byte, then 0 1 (rest ignored past width×height)
    let b = from_palette(&[0b1110_0100, 0b0001_1111], &pal, 2, 3, 2).unwrap();
    assert_eq!(b.bitmap, vec![40, 30, 20, 10, 10, 20]);
    assert_eq!((b.width, b.height), (3, 2));
    let b = from_palette(&[1, 0, 3], &pal, 8, 3, 1).unwrap();
    assert_eq!(b.bitmap, vec![20, 10, 40]);
    assert!(from_palette(&[0], &pal, 3, 1, 1).is_none());
}

#[test]
fn gray_palette_levels() {
    assert_eq!(gray_palette(1), vec![Gray(0), Gray(255)]);
    assert_eq!(gray_palette(2), vec![Gray(0), Gray(85), Gray(170), Gray(255)]);
    let p4 = gray_palette(4);
    assert_eq!(p4.len(), 16);
    assert_eq!(p4[1], Gray(17));
    assert_eq!(gray_palette(8).len(), 256);
}

fn decoded(kind: PngKind, w: usize, h: usize, bytes: Vec<u8>, ct: PngColorType, depth: u32, palette: Vec<load_image::RGBA8>) -> PngDecoded {
    PngDecoded { kind, width: w, height: h, bytes, color_type: ct, bit_depth: depth, palette }
}

#[test]
fn png_to_image_outcomes() {
    let meta = ImageMeta::default();
    let d = decoded(PngKind::Rgb16, 1, 1, vec![1, 2, 3, 4, 5, 6], PngColorType::Rgb, 16, vec![]);
    let img = png_to_image(d, None, false, meta.clone()).unwrap();
    assert_eq!(img.bitmap, ImageData::RGB16(vec![RGB::new(0x0102, 0x0304, 0x0506)]));

    let pal = vec![RGBA::new(1, 2, 3, 255), RGBA::new(4, 5, 6, 255)];
    let d = decoded(PngKind::Raw, 4, 1, vec![0b1000_0000], PngColorType::Palette, 2, pal.clone());
    assert!(matches!(png_to_image(d, None, false, meta.clone()), Err(Error::Png(46))));
    let d = decoded(PngKind::Raw, 4, 1, vec![0b0001_0001], PngColorType::Palette, 2, pal.clone());
    let img = png_to_image(d, None, false, meta.clone()).unwrap();
    assert_eq!(img.bitmap, ImageData::RGBA8(vec![pal[0], pal[1], pal[0], pal[1]]));
    let d = decoded(PngKind::Raw, 4, 1, vec![0], PngColorType::Palette, 3, pal.clone());
    assert!(matches!(png_to_image(d, None, false, meta.clone()), Err(Error::Png(59))));
    let d = decoded(PngKind::Raw, 4, 1, vec![0], PngColorType::Rgb, 8, vec![]);
    assert!(matches!(png_to_image(d, None, false, meta.clone()), Err(Error::Png(59))));
    let d = decoded(PngKind::Rgb8, 0, 1, vec![], PngColorType::Rgb, 8, vec![]);
    assert!(matches!(png_to_image(d, None, false, meta.clone()), Err(Error::Png(93))));
    let d = decoded(PngKind::Raw, 8, 1, vec![0b1000_0001], PngColorType::Grey, 1, vec![]);
    let img = png_to_image(d, None, true, meta).unwrap();
    assert_eq!(img.bitmap, ImageData::GRAY8([255, 0, 0, 0, 0, 0, 0, 255].iter().map(|&v| Gray(v)).collect()));
}

#[test]
fn jpeg_to_image_outcomes() {
    let meta = ImageMeta::new(Format::Jpeg, Vec::new());
    let info = JpegInfo { width: 2, height: 1, pixel_format: JpegPixelFormat::RGB24 };
    let img = jpeg_to_image(vec![1, 2, 3, 4, 5, 6], info, None, meta.clone()).unwrap();
    assert_eq!(img.bitmap, ImageData::RGB8(vec![RGB::new(1, 2, 3), RGB::new(4, 5, 6)]));
    let info = JpegInfo { width: 0, height: 1, pixel_format: JpegPixelFormat::L8 };
    assert!(matches!(jpeg_to_image(vec![], info, None, meta.clone()), Err(Error::UnsupportedJpeg)));
    let info = JpegInfo { width: 1, height: 1, pixel_format: JpegPixelFormat::CMYK32 };
    let img = jpeg_to_image(vec![0, 0, 0, 0], info, None, meta).unwrap();
    assert!(matches!(img.bitmap, ImageData::RGB16(ref v) if v.len() == 1));
}

#[test]
fn webp_to_image_outcomes() {
    let mut loader = Loader::new();
    let img = webp_to_image(&loader, 1, 1, vec![1, 2, 3, 4], false).unwrap();
    assert_eq!(img.bitmap, ImageData::RGBA8(vec![RGBA::new(1, 2, 3, 4)]));
    let img = webp_to_image(&loader, 1, 1, vec![1, 2, 3], true).unwrap();
    assert_eq!(img.bitmap, ImageData::RGB8(vec![RGB::new(1, 2, 3)]));
    assert!(matches!(webp_to_image(&loader, 0, 1, vec![], true), Err(Error::WebP)));
    loader.max_image_area = 3;
    assert!(matches!(webp_to_image(&loader, 2, 2, vec![0; 16], false), Err(Error::ImageTooLarge)));
}

#[test]
fn loader_settings() {
    let mut loader = Loader::new();
    assert_eq!(loader.max_image_area, 16000 * 16000);
    assert_eq!(loader.markers_to_keep(), vec![JpegMarker::APP(1), JpegMarker::APP(2)]);
    loader.opaque(true).metadata(true).profiles(Profiles::Skip);
    let mut all: Vec<JpegMarker> = (0..15).map(JpegMarker::APP).collect();
    all.push(JpegMarker::COM);
    assert_eq!(loader.markers_to_keep(), all);
    assert!(loader.process_profile(ColorProfile::from_icc(&load_image::profiles::adobe1998())).is_none());
}

#[test]
fn check_dimensions_limit() {
    let mut loader = Loader::new();
    loader.max_image_area = 100;
    assert!(loader.check_dimensions(10, 10).is_ok());
    assert!(matches!(loader.check_dimensions(10, 11), Err(Error::ImageTooLarge)));
    assert!(matches!(loader.check_dimensions(usize::MAX, 2), Err(Error::ImageTooLarge)));
}

#[test]
fn sniff_format_cases() {
    assert_eq!(sniff_format(b"\x89PNG\r\n"), Format::Png);
    assert_eq!(sniff_format(b"RIFF...."), Format::WebP);
    assert_eq!(sniff_format(&[0xff, 0xd8]), Format::Jpeg);
    assert_eq!(sniff_format(b"\x89PN"), Format::Unknown);
    assert_eq!(sniff_format(&[]), Format::Unknown);
    assert!(matches!(load_image::load_data(b"GIF89a", None), Err(Error::UnsupportedFileFormat)));
}

#[test]
fn profiles_open_and_describe() {
    assert!(ColorProfile::from_icc(&[]).is_none());
    assert!(ColorProfile::from_icc(b"not an ICC profile at all").is_none());
    let adobe = ColorProfile::from_icc(&load_image::profiles::adobe1998()).unwrap();
    assert!(!adobe.describes_srgb());
    assert!(ColorProfile::from_icc(&load_image::profiles::cmyk()).is_some());
    assert!(ColorProfile::from_icc(&load_image::profiles::gray()).is_some());
    let loader = Loader::new();
    assert!(loader.process_profile(Some(adobe)).is_some());
}

#[test]
fn builtin_cmyk_profile_bytes() {
    let icc = load_image::profiles::cmyk();
    assert_eq!(icc.len(), 4192);
    assert_eq!(&icc[0..4], &4192u32.to_be_bytes());
    assert_eq!(&icc[12..24], b"prtrCMYKLab ");
    assert_eq!(&icc[36..40], b"acsp");
}

#[test]
fn cmyk_without_profile_uses_builtin() {
    let px = vec![CMYK { c: 255, m: 255, y: 255, k: 255 }, CMYK { c: 0, m: 0, y: 0, k: 0 }];
    let meta = ImageMeta::new(Format::Jpeg, Vec::new());
    let img = cmyk_to_image(px, None, 2, 1, meta).unwrap();
    assert_eq!((img.width, img.height), (2, 1));
    match img.bitmap {
        ImageData::RGB16(v) => {
            assert_eq!(v.len(), 2);
            assert!(v[0].r > 60000 && v[0].g > 60000 && v[0].b > 60000);
            assert!(v[1].r < 10000 && v[1].g < 10000 && v[1].b < 10000);
        }
        _ => panic!("CMYK pixels convert into 16-bit RGB"),
    }
}

#[test]
fn converted_pixels_read_in_machine_byte_order() {
    let b = [1u8, 2, 3, 4, 5, 6, 7, 8, 9];
    let ne = |i: usize| u16::from_ne_bytes([b[i], b[i + 1]]);
    let px = <RGB16 as LcmsOutput>::read_bytes(&b, 1);
    assert_eq!(px, RGB::new(ne(1), ne(3), ne(5)));
    assert!(px.r == 0x0302 || px.r == 0x0203);
    let px = <RGBA16 as LcmsOutput>::read_bytes(&b, 0);
    assert_eq!(px, RGBA::new(ne(0), ne(2), ne(4), ne(6)));
    assert_eq!(<Gray<u16> as LcmsOutput>::read_bytes(&b, 7), Gray(ne(7)));
    assert_eq!(<GrayAlpha<u16> as LcmsOutput>::read_bytes(&b, 4), GrayAlpha(ne(4), ne(6)));
}

fn field(tag: u32, value: ExifValue) -> ExifField {
    ExifField { tag, value }
}

fn primaries(n: [(u32, u32); 6]) -> ExifValue {
    ExifValue::URational(n.to_vec())
}

#[test]
fn exif_fields_reading() {
    let adobe = [(64, 100), (33, 100), (21, 100), (71, 100), (15, 100), (6, 100)];
    let fields = vec![
        field(0x0110, ExifValue::Other),
        field(ORIENTATION_TAG, ExifValue::U16(vec![6])),
        field(PRIMARY_CHROMATICITIES_TAG, primaries(adobe)),
    ];
    assert_eq!(read_exif_fields(&fields), (6, true));
    let off = vec![field(PRIMARY_CHROMATICITIES_TAG, primaries([(64, 100), (33, 100), (21, 100), (71, 100), (15, 100), (7, 100)]))];
    assert_eq!(read_exif_fields(&off), (1, false));
    let close = vec![field(PRIMARY_CHROMATICITIES_TAG, primaries([(6405, 10000), (33, 100), (21, 100), (71, 100), (15, 100), (6, 100)]))];
    assert_eq!(read_exif_fields(&close), (1, true));
    let wrong_tag = vec![field(0x0111, primaries(adobe)), field(0x0113, ExifValue::U16(vec![3]))];
    assert_eq!(read_exif_fields(&wrong_tag), (1, false));
    assert_eq!(read_exif_fields(&vec![field(ORIENTATION_TAG, ExifValue::U16(vec![]))]), (1, false));
    assert_eq!(read_exif_fields(&vec![field(ORIENTATION_TAG, ExifValue::U16(vec![3])), field(ORIENTATION_TAG, ExifValue::U16(vec![8]))]), (8, false));
    assert_eq!(parse_exif(&Some(vec![field(ORIENTATION_TAG, ExifValue::U16(vec![8]))])), (8, false));
    assert_eq!(parse_exif(&None), (1, false));
}

#[test]
fn icc_chunks_assembled_in_order() {
    let segs = vec![
        (JpegMarker::COM, b"comment".to_vec()),
        icc_chunk(2, 2, b"world"),
        (JpegMarker::APP(2), b"ICC_PROFILE\0\x01\x02x".to_vec()[..14].to_vec()),
        icc_chunk(3, 2, b"ignored"),
        icc_chunk(1, 2, b"hello "),
        (JpegMarker::APP(3), icc_chunk(1, 2, b"other marker").1),
    ];
    assert_eq!(assemble_icc(&segs), Some(b"hello world".to_vec()));
    assert_eq!(assemble_icc(&vec![(JpegMarker::COM, vec![1, 2, 3])]), None);
}

#[test]
fn embedded_profile_from_chunks() {
    let icc = load_image::profiles::adobe1998();
    let (a, b) = icc.split_at(100);
    let segs = vec![icc_chunk(2, 2, b), icc_chunk(1, 2, a)];
    assert_eq!(assemble_icc(&segs), Some(icc.clone()));
    let mut loader = Loader::new();
    loader.profiles(Profiles::All);
    assert!(loader.get_jpeg_profile(&segs).is_some());
    loader.profiles(Profiles::Skip);
    assert!(loader.get_jpeg_profile(&segs).is_none());
}

#[test]
fn first_exif_segment_wins() {
    let segs = vec![(JpegMarker::APP(1), b"http://ns.adobe.com/".to_vec()), exif_segment(6), exif_segment(3)];
    assert_eq!(Loader::get_exif_data(&segs), Some(exif_orientation(6)));
    assert_eq!(Loader::get_exif_data(&vec![]), None);
}

#[test]
fn jpeg_markers_header() {
    let loader = Loader::new();
    let segs = vec![exif_segment(6), (JpegMarker::COM, b"hi".to_vec())];
    let h = loader.read_jpeg_markers(10000, 10000, &segs, Some(vec![field(ORIENTATION_TAG, ExifValue::U16(vec![6]))])).unwrap();
    assert_eq!(h.orientation, 6);
    assert!(h.profile.is_none());
    assert_eq!(h.meta.format, Format::Jpeg);
    assert_eq!(h.meta.chunks, vec![(ChunkType::JPEG(JpegMarker::APP(1)), segs[0].1.clone()), (ChunkType::JPEG(JpegMarker::COM), b"hi".to_vec())]);
    assert!(matches!(loader.read_jpeg_markers(10001, 10000, &segs, None), Err(Error::ImageTooLarge)));

    let mut with_adobe = exif_segment(1);
    with_adobe.1 = b"Exif\0\0".to_vec();
    let mut prim = b"MM\0\x2a\0\0\0\x08\0\x01\x01\x3f\0\x05\0\0\0\x06\0\0\0\x1a\0\0\0\0".to_vec();
    for (n, d) in [(64u32, 100u32), (33, 100), (21, 100), (71, 100), (15, 100), (6, 100)] {
        prim.extend_from_slice(&n.to_be_bytes());
        prim.extend_from_slice(&d.to_be_bytes());
    }
    with_adobe.1.extend_from_slice(&prim);
    let adobe_fields = Some(vec![field(PRIMARY_CHROMATICITIES_TAG, ExifValue::URational(vec![(64, 100), (33, 100), (21, 100), (71, 100), (15, 100), (6, 100)]))]);
    let h = loader.read_jpeg_markers(4, 4, &vec![with_adobe.clone()], adobe_fields.clone()).unwrap();
    assert!(h.profile.is_some());
    let mut skipping = Loader::new();
    skipping.profiles(Profiles::Skip);
    assert!(skipping.read_jpeg_markers(4, 4, &vec![with_adobe], adobe_fields).unwrap().profile.is_none());
}

#[test]
fn jpeg_pixels_upright() {
    let px = vec![RGB::new(1u8, 1, 1), RGB::new(2, 2, 2), RGB::new(3, 3, 3), RGB::new(4, 4, 4), RGB::new(5, 5, 5), RGB::new(6, 6, 6)];
    let img = jpeg_pixels_to_image(JpegPixels::RGB(px.clone()), 3, 2, header(1)).unwrap();
    assert_eq!((img.width, img.height), (3, 2));
    assert_eq!(img.bitmap, ImageData::RGB8(px.clone()));
    let img = jpeg_pixels_to_image(JpegPixels::RGB(px.clone()), 3, 2, header(6)).unwrap();
    assert_eq!((img.width, img.height), (2, 3));
    assert_eq!(img.bitmap, ImageData::RGB8(vec![px[3], px[0], px[4], px[1], px[5], px[2]]));
    let img = jpeg_pixels_to_image(JpegPixels::Gray(vec![Gray(9), Gray(8)]), 2, 1, header(2)).unwrap();
    assert_eq!(img.bitmap, ImageData::GRAY8(vec![Gray(8), Gray(9)]));
    let img = jpeg_pixels_to_image(JpegPixels::CMYK(vec![CMYK { c: 255, m: 255, y: 255, k: 255 }]), 1, 1, header(1)).unwrap();
    match img.bitmap {
        ImageData::RGB16(v) => assert!(v[0].r > 60000 && v[0].g > 60000 && v[0].b > 60000),
        _ => panic!("CMYK is converted to 16-bit RGB"),
    }
    assert!(matches!(jpeg_pixels_to_image(JpegPixels::RGB(px.clone()), 4, 2, header(6)), Err(Error::UnsupportedJpeg)));
    assert!(matches!(jpeg_pixels_to_image(JpegPixels::RGB(px), 0, 2, header(1)), Err(Error::UnsupportedJpeg)));
}

#[test]
fn pixels_view_of_image() {
    let img = Image::from_opts(Bitmap::new(vec![RGB::new(1u8, 2, 3)], 1, 1), ImageMeta::default());
    assert_eq!(img.bitmap.len(), 1);
    assert!(img.is_opaque());
    let r = img.as_imgref();
    assert!(matches!(r, load_image::ImgRefKind::RGB8(b) if b.width == 1 && b.height == 1 && b.bitmap.len() == 1));
}

#[test]
fn avif_recognised_and_wrapped() {
    assert!(load_image::avif::is_avif(b"\0\0\0\x1cftypavif\0\0\0\0"));
    assert!(!load_image::avif::is_avif(b"\0\0\0\x1cftypheic\0\0\0\0"));
    assert!(!load_image::avif::is_avif(b"\0\0\0\x1cftypavi"));
    let img = load_image::avif::avif_to_image(load_image::avif::AvifPixels::Gray16(vec![1, 2, 3]), 3, 1);
    assert_eq!(img.meta.format, Format::Avif);
    assert_eq!(img.bitmap, ImageData::GRAY16(vec![Gray(1), Gray(2), Gray(3)]));
    let img = load_image::avif::avif_to_image(load_image::avif::AvifPixels::RGBA8(vec![RGBA::new(1, 2, 3, 4)]), 1, 1);
    assert_eq!((img.width, img.height), (1, 1));
    assert_eq!(img.bitmap, ImageData::RGBA8(vec![RGBA::new(1, 2, 3, 4)]));
}

fn crc32(data: &[u8]) -> u32 {
    let mut crc = 0xffff_ffffu32;
    for &b in data {
        crc ^= b as u32;
        for _ in 0..8 {
            crc = if crc & 1 != 0 { (crc >> 1) ^ 0xedb8_8320 } else { crc >> 1 };
        }
    }
    !crc
}

/// A PNG signature and header chunk declaring a `w`×`h` RGB image, with no pixel data.
fn png_header_only(w: u32, h: u32) -> Vec<u8> {
    let mut png = b"\x89PNG\r\n\x1a\n\0\0\0\x0d".to_vec();
    let mut chunk = b"IHDR".to_vec();
    chunk.extend_from_slice(&w.to_be_bytes());
    chunk.extend_from_slice(&h.to_be_bytes());
    chunk.extend_from_slice(&[8, 2, 0, 0, 0]);
    png.extend_from_slice(&chunk);
    png.extend_from_slice(&crc32(&chunk).to_be_bytes());
    png.extend_from_slice(b"\0\0\0\0IEND\xae\x42\x60\x82");
    png
}

#[test]
fn png_header_size_limit() {
    assert!(matches!(load_image::load_data(&png_header_only(10001, 10000), None), Err(Error::Png(92))));
    assert!(matches!(load_image::load_data(&png_header_only(10000, 10000), None), Err(Error::Png(c)) if c != 92));
}

#[test]
fn rgba_and_rotation_commute() {
    let px = vec![RGB::new(0x1000u16, 0x2000, 0x3000), RGB::new(0x4000, 0x5000, 0x6000), RGB::new(0xff00, 0, 0x0100)];
    for r in ALL_ROTATIONS {
        let turned_first = Image::from_opts(Bitmap::new(px.clone(), 3, 1), ImageMeta::default()).rotated(r).into_rgba().0;
        let (converted, _) = Image::from_opts(Bitmap::new(px.clone(), 3, 1), ImageMeta::default()).into_rgba();
        let converted_first = Image::from_opts(converted, ImageMeta::default()).rotated(r);
        assert_eq!((turned_first.width, turned_first.height), (converted_first.width, converted_first.height));
        assert_eq!(ImageData::RGBA8(turned_first.bitmap), converted_first.bitmap);
    }
}

#[test]
fn alpha_copied_once_or_twice() {
    let src = vec![RGBA::new(1u8, 2, 3, 0x80), RGBA::new(4, 5, 6, 0xff)];
    let mut dst = vec![RGBA::new(10u16, 20, 30, 0), RGBA::new(40, 50, 60, 0), RGBA::new(70, 80, 90, 7)];
    <RGBA<u8> as CopyAlpha<RGBA16>>::copy_alpha(&src, &mut dst);
    assert_eq!(dst, vec![RGBA::new(10, 20, 30, 0x8080), RGBA::new(40, 50, 60, 0xffff), RGBA::new(70, 80, 90, 7)]);
    let once = dst.clone();
    <RGBA<u8> as CopyAlpha<RGBA16>>::copy_alpha(&src, &mut dst);
    assert_eq!(dst, once);
    let gsrc = vec![GrayAlpha(9u16, 0x1234)];
    let mut gdst = vec![GrayAlpha(1u16, 2)];
    <GrayAlpha<u16> as CopyAlpha<GrayAlpha<u16>>>::copy_alpha(&gsrc, &mut gdst);
    assert_eq!(gdst, vec![GrayAlpha(1, 0x1234)]);
}

#[test]
fn apply_profile_outcomes() {
    let adobe = ColorProfile::from_icc(&load_image::profiles::adobe1998()).unwrap();
    let px = vec![RGB::new(255u8, 0, 0), RGB::new(0, 255, 0)];
    let converted: Option<Vec<RGB16>> = load_image::color::apply_profile(&px, &adobe);
    let converted = converted.unwrap();
    assert_eq!(converted.len(), 2);
    assert!(converted[0].r > converted[0].g && converted[1].g > converted[1].r);
    let grey = vec![Gray(10u8)];
    let wrong_space: Option<Vec<Gray<u16>>> = load_image::color::apply_profile(&grey, &adobe);
    assert!(wrong_space.is_none());
    let gray_profile = ColorProfile::from_icc(&load_image::profiles::gray()).unwrap();
    let grey_converted: Option<Vec<Gray<u16>>> = load_image::color::apply_profile(&grey, &gray_profile);
    assert_eq!(grey_converted.map(|v| v.len()), Some(1));
}
