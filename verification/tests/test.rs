use load_image::{
    is_opaque, Format, GrayAlpha, Image, ImageData, Loader, Profiles, RGBA, RGBA16, RGBA8,
};

use load_image::exif::{ExifField, ExifValue};

/// What rexif reads from the EXIF data of a JPEG file, in the form the library takes.
fn exif_of(data: &[u8]) -> Option<Vec<ExifField>> {
    let e = load_image::jpeg::jpeg_exif_of(data)?;
    let parsed = rexif::parse_buffer(&e).ok()?;
    Some(parsed.entries.into_iter().map(|f| ExifField {
        tag: f.tag as u32,
        value: match f.value {
            rexif::TagValue::U16(n) => ExifValue::U16(n),
            rexif::TagValue::URational(n) => ExifValue::URational(n.iter().map(|r| (r.numerator, r.denominator)).collect()),
            _ => ExifValue::Other,
        },
    }).collect())
}

fn load_data(data: &[u8]) -> Result<Image, load_image::Error> {
    load_image::load_data(data, exif_of(data))
}

fn load_image_data(data: &[u8], opaque: bool) -> Result<Image, load_image::Error> {
    load_image::load_image_data(data, opaque, exif_of(data))
}

/// Loading with a loader's settings, the EXIF data read as above.
trait LoadWithExif {
    fn load(&self, data: &[u8]) -> Result<Image, load_image::Error>;
}

impl LoadWithExif for Loader {
    fn load(&self, data: &[u8]) -> Result<Image, load_image::Error> {
        self.load_data(data, exif_of(data))
    }
}

fn tou16(v: u8) -> u16 {
    let v = v as u16;
    (v << 8) | v
}

fn convert(img: &Image) -> Vec<RGBA16> {
    match img.bitmap {
        ImageData::RGB8(ref bitmap) => bitmap.iter().map(|c| RGBA::new(tou16(c.r), tou16(c.g), tou16(c.b), 65535)).collect(),
        ImageData::RGBA8(ref bitmap) => bitmap.iter().map(|c| RGBA::new(tou16(c.r), tou16(c.g), tou16(c.b), tou16(c.a))).collect(),
        ImageData::RGB16(ref bitmap) => bitmap.iter().map(|c| RGBA::new(c.r, c.g, c.b, 65535)).collect(),
        ImageData::RGBA16(ref bitmap) => bitmap.clone(),
        ImageData::GRAY8(ref bitmap) => bitmap
            .iter()
            .map(|c| {
                let c = tou16(c.0);
                RGBA::new(c, c, c, 65535)
            })
            .collect(),
        ImageData::GRAYA8(ref bitmap) => bitmap
            .iter()
            .map(|p| {
                let c = tou16(p.0);
                RGBA::new(c, c, c, tou16(p.1))
            })
            .collect(),
        ImageData::GRAY16(ref bitmap) => bitmap.iter().map(|c| RGBA::new(c.0, c.0, c.0, 65535)).collect(),
        ImageData::GRAYA16(ref bitmap) => bitmap.iter().map(|p| RGBA::new(p.0, p.0, p.0, p.1)).collect(),
    }
}

fn compare(left: &Image, right: &Image) -> f64 {
    assert_eq!(left.width, right.width);
    assert_eq!(left.height, right.height);
    let lp = convert(left);
    let rp = convert(right);
    let n = left.width * left.height;
    let ppx = lp[..n]
        .iter()
        .zip(rp[..n].iter())
        .map(|(a, b)| {
            let (ar, ag, ab, aa) = (a.r as i64, a.g as i64, a.b as i64, a.a as i64);
            let (br, bg, bb, ba) = (b.r as i64, b.g as i64, b.b as i64, b.a as i64);
            let dr = ar * aa - br * ba;
            let dg = ag * aa - bg * ba;
            let db = ab * aa - bb * ba;
            let da = aa * 65536 - ba * 65536;
            (dr.saturating_mul(dr)
                .saturating_add(dg.saturating_mul(dg))
                .saturating_add(db.saturating_mul(db))
                .saturating_add(da.saturating_mul(da))) as u64
                >> 16
        })
        .sum::<u64>()
        / ((left.width as u64 * left.height as u64) << 24);
    ppx as f64 / (1 << 24) as f64
}

// ---------------------------------------------------------------------------
// Test inputs: images made from known pixels with the PNG, JPEG and WebP encoders.

fn crc32(data: &[u8]) -> u32 {
    let mut crc: u32 = 0xffff_ffff;
    for &b in data {
        crc ^= b as u32;
        for _ in 0..8 {
            crc = if crc & 1 != 0 { (crc >> 1) ^ 0xedb8_8320 } else { crc >> 1 };
        }
    }
    !crc
}

/// zlib stream of stored (uncompressed) deflate blocks.
fn zlib_stored(data: &[u8]) -> Vec<u8> {
    let mut out = vec![0x78, 0x01];
    let chunks: Vec<&[u8]> = if data.is_empty() { vec![&data[..]] } else { data.chunks(65535).collect() };
    for (i, c) in chunks.iter().enumerate() {
        out.push(if i + 1 == chunks.len() { 1 } else { 0 });
        let len = c.len() as u16;
        out.extend_from_slice(&len.to_le_bytes());
        out.extend_from_slice(&(!len).to_le_bytes());
        out.extend_from_slice(c);
    }
    let (mut a, mut b) = (1u32, 0u32);
    for &x in data {
        a = (a + x as u32) % 65521;
        b = (b + a) % 65521;
    }
    out.extend_from_slice(&((b << 16) | a).to_be_bytes());
    out
}

/// The PNG with a chunk inserted right after IHDR.
fn png_with_chunk(png: &[u8], name: &[u8; 4], data: &[u8]) -> Vec<u8> {
    let ihdr_end = 8 + 4 + 4 + 13 + 4;
    let mut out = png[..ihdr_end].to_vec();
    out.extend_from_slice(&(data.len() as u32).to_be_bytes());
    let mut body = name.to_vec();
    body.extend_from_slice(data);
    out.extend_from_slice(&body);
    out.extend_from_slice(&crc32(&body).to_be_bytes());
    out.extend_from_slice(&png[ihdr_end..]);
    out
}

fn png_with_icc(png: &[u8], icc: &[u8]) -> Vec<u8> {
    let mut data = b"ICC profile\0\0".to_vec();
    data.extend_from_slice(&zlib_stored(icc));
    png_with_chunk(png, b"iCCP", &data)
}

fn s15(x: f64) -> [u8; 4] {
    ((x * 65536.0).round() as i32).to_be_bytes()
}

/// A display RGB profile with the sRGB primaries and tone curve, named `name`.
fn rgb_icc(name: &str) -> Vec<u8> {
    let mut desc = b"desc\0\0\0\0".to_vec();
    desc.extend_from_slice(&((name.len() + 1) as u32).to_be_bytes());
    desc.extend_from_slice(name.as_bytes());
    desc.push(0);
    desc.extend_from_slice(&[0u8; 8 + 3 + 67]);
    let xyz = |x: f64, y: f64, z: f64| {
        let mut t = b"XYZ \0\0\0\0".to_vec();
        t.extend_from_slice(&s15(x));
        t.extend_from_slice(&s15(y));
        t.extend_from_slice(&s15(z));
        t
    };
    let mut curv = b"curv\0\0\0\0".to_vec();
    curv.extend_from_slice(&256u32.to_be_bytes());
    for i in 0..256 {
        let c = i as f64 / 255.0;
        let l = if c <= 0.04045 { c / 12.92 } else { ((c + 0.055) / 1.055).powf(2.4) };
        curv.extend_from_slice(&((l * 65535.0).round() as u16).to_be_bytes());
    }
    let tags: Vec<(&[u8; 4], Vec<u8>)> = vec![
        (b"desc", desc),
        (b"wtpt", xyz(0.9642, 1.0, 0.8249)),
        (b"rXYZ", xyz(0.4361, 0.2225, 0.0139)),
        (b"gXYZ", xyz(0.3851, 0.7169, 0.0971)),
        (b"bXYZ", xyz(0.1431, 0.0606, 0.7141)),
        (b"rTRC", curv.clone()),
        (b"gTRC", curv.clone()),
        (b"bTRC", curv),
    ];
    let mut table = Vec::new();
    let mut body = Vec::new();
    let base = 128 + 4 + 12 * tags.len();
    for (sig, data) in &tags {
        while (base + body.len()) % 4 != 0 {
            body.push(0);
        }
        table.extend_from_slice(&sig[..]);
        table.extend_from_slice(&((base + body.len()) as u32).to_be_bytes());
        table.extend_from_slice(&(data.len() as u32).to_be_bytes());
        body.extend_from_slice(data);
    }
    let size = base + body.len();
    let mut h = Vec::new();
    h.extend_from_slice(&(size as u32).to_be_bytes());
    h.extend_from_slice(&[0; 4]);
    h.extend_from_slice(&0x0210_0000u32.to_be_bytes());
    h.extend_from_slice(b"mntrRGB XYZ ");
    h.extend_from_slice(&[0x07, 0xe8, 0, 1, 0, 1, 0, 0, 0, 0, 0, 0]);
    h.extend_from_slice(b"acsp");
    h.resize(68, 0);
    h.extend_from_slice(&s15(0.9642));
    h.extend_from_slice(&s15(1.0));
    h.extend_from_slice(&s15(0.8249));
    h.resize(128, 0);
    h.extend_from_slice(&(tags.len() as u32).to_be_bytes());
    h.extend_from_slice(&table);
    h.extend_from_slice(&body);
    h
}

/// `adobe1998` profile renamed so that its description starts with "sRGB ".
fn adobe_named_srgb() -> Vec<u8> {
    let mut icc = load_image::profiles::adobe1998();
    let from = b"Adobe RGB (1998) compatible";
    let to = b"sRGB IEC61966-2.1 (approx.)";
    let at = icc.windows(from.len()).position(|w| w == &from[..]).unwrap();
    icc[at..at + to.len()].copy_from_slice(to);
    icc
}

/// A PNG stored with exactly the given colour type and bit depth.
fn png_exact(bytes: &[u8], w: usize, h: usize, ct: lodepng::ColorType, depth: u32) -> Vec<u8> {
    let mut enc = lodepng::Encoder::new();
    enc.set_auto_convert(false);
    enc.info_raw_mut().colortype = ct;
    enc.info_raw_mut().set_bitdepth(depth);
    enc.info_png_mut().color.colortype = ct;
    enc.info_png_mut().color.set_bitdepth(depth);
    let png = enc.encode(bytes, w, h).unwrap();
    assert_eq!(png[24] as u32, depth);
    png
}

fn png_rgba8(px: &[[u8; 4]], w: usize, h: usize) -> Vec<u8> {
    let bytes: Vec<u8> = px.iter().flatten().copied().collect();
    png_exact(&bytes, w, h, lodepng::ColorType::RGBA, 8)
}

fn png_rgb8(px: &[[u8; 3]], w: usize, h: usize) -> Vec<u8> {
    let bytes: Vec<u8> = px.iter().flatten().copied().collect();
    png_exact(&bytes, w, h, lodepng::ColorType::RGB, 8)
}

fn png_rgba16(px: &[[u8; 4]], w: usize, h: usize) -> Vec<u8> {
    let bytes: Vec<u8> = px.iter().flatten().flat_map(|&c| tou16(c).to_be_bytes()).collect();
    png_exact(&bytes, w, h, lodepng::ColorType::RGBA, 16)
}

fn png_gray8(px: &[u8], w: usize, h: usize) -> Vec<u8> {
    png_exact(px, w, h, lodepng::ColorType::GREY, 8)
}

/// A PNG that the encoder may store with a smaller colour type (palette, low bit depth).
fn png_auto(px: &[[u8; 4]], w: usize, h: usize) -> Vec<u8> {
    let bytes: Vec<u8> = px.iter().flatten().copied().collect();
    let mut enc = lodepng::Encoder::new();
    enc.set_auto_convert(true);
    enc.encode(&bytes, w, h).unwrap()
}

fn png_color_type(png: &[u8]) -> (u8, u8) {
    (png[24], png[25])
}

fn jpeg(data: &[u8], w: u16, h: u16, ct: jpeg_encoder::ColorType, exif: Option<&[u8]>, icc: Option<&[u8]>) -> Vec<u8> {
    let mut out = Vec::new();
    let mut enc = jpeg_encoder::Encoder::new(&mut out, 100);
    enc.set_sampling_factor(jpeg_encoder::SamplingFactor::R_4_4_4);
    if let Some(e) = exif {
        let mut seg = b"Exif\0\0".to_vec();
        seg.extend_from_slice(e);
        enc.add_app_segment(1, &seg).unwrap();
    }
    if let Some(p) = icc {
        enc.add_icc_profile(p).unwrap();
    }
    enc.encode(data, w, h, ct).unwrap();
    out
}

/// Big-endian TIFF holding the given IFD entries (tag, type, count, value bytes).
fn tiff(entries: &[(u16, u16, u32, Vec<u8>)]) -> Vec<u8> {
    let mut out = b"MM\0\x2a\0\0\0\x08".to_vec();
    let ifd_len = 2 + 12 * entries.len() + 4;
    let mut extra = Vec::new();
    out.extend_from_slice(&(entries.len() as u16).to_be_bytes());
    for (tag, typ, count, value) in entries {
        out.extend_from_slice(&tag.to_be_bytes());
        out.extend_from_slice(&typ.to_be_bytes());
        out.extend_from_slice(&count.to_be_bytes());
        if value.len() <= 4 {
            let mut v = value.clone();
            v.resize(4, 0);
            out.extend_from_slice(&v);
        } else {
            let off = 8 + ifd_len + extra.len();
            out.extend_from_slice(&(off as u32).to_be_bytes());
            extra.extend_from_slice(value);
        }
    }
    out.extend_from_slice(&[0, 0, 0, 0]);
    out.extend_from_slice(&extra);
    out
}

fn exif_orientation(o: u16) -> Vec<u8> {
    tiff(&[(0x0112, 3, 1, o.to_be_bytes().to_vec())])
}

fn exif_adobe_primaries() -> Vec<u8> {
    let mut v = Vec::new();
    for (n, d) in [(64u32, 100u32), (33, 100), (21, 100), (71, 100), (15, 100), (6, 100)] {
        v.extend_from_slice(&n.to_be_bytes());
        v.extend_from_slice(&d.to_be_bytes());
    }
    tiff(&[(0x013f, 5, 6, v)])
}

/// An image of flat 8×8 blocks, so that JPEG keeps it almost exactly.
fn blocks(w: usize, h: usize, colors: &[[u8; 3]]) -> Vec<[u8; 3]> {
    let bw = (w + 7) / 8;
    (0..w * h).map(|i| colors[((i / w) / 8 * bw + (i % w) / 8) % colors.len()]).collect()
}

fn gray_ramp(w: usize, h: usize) -> Vec<u8> {
    blocks(w, h, &[[0, 0, 0], [40, 0, 0], [90, 0, 0], [128, 0, 0], [170, 0, 0], [200, 0, 0], [230, 0, 0], [255, 0, 0]])
        .iter()
        .map(|c| c[0])
        .collect()
}

const MIDTONES: [[u8; 3]; 6] = [[60, 180, 60], [200, 80, 40], [40, 160, 200], [150, 150, 40], [30, 120, 110], [170, 60, 150]];

const VIVID: [[u8; 3]; 6] = [[0, 255, 0], [255, 0, 0], [0, 0, 255], [255, 255, 0], [0, 200, 255], [255, 0, 200]];

// ---------------------------------------------------------------------------

#[test]
fn alphapx() {
    let a = vec![RGBA8::new(0, 0, 0, 255)];
    assert!(is_opaque(&a));

    let a = vec![GrayAlpha(0u8, 255)];
    assert!(is_opaque(&a));
    let a = vec![GrayAlpha(0u8, 254)];
    assert!(!is_opaque(&a));

    let a = vec![RGBA16::new(0, 0, 0, 255)];
    assert!(!is_opaque(&a));
    let a = vec![RGBA16::new(0, 0, 0, 65535)];
    assert!(is_opaque(&a));
}

#[test]
fn nonsense() {
    assert!(load_data(&[0u8]).is_err());
    assert!(load_data(&vec![0xFEu8; 1000]).is_err());
    assert!(load_data(&vec![0xFFu8; 1000]).is_err());
}

#[test]
fn image_bw() {
    let px: Vec<[u8; 4]> = (0..64 * 16).map(|i| if (i / 3) % 2 == 0 { [0, 0, 0, 255] } else { [255, 255, 255, 255] }).collect();
    let png = png_auto(&px, 64, 16);
    assert_eq!(png_color_type(&png), (1, 0), "a 1-bit grey file");
    let res = load_data(&png).unwrap();
    assert_eq!(Format::Png, res.meta.format);
    assert!(res.is_opaque());
}

#[test]
fn image_4bit() {
    let colors: [[u8; 4]; 5] = [[255, 0, 0, 255], [0, 128, 0, 128], [0, 0, 255, 0], [20, 30, 40, 255], [200, 200, 200, 60]];
    let px: Vec<[u8; 4]> = (0..40 * 24).map(|i| colors[(i * 7 / 5) % colors.len()]).collect();
    let tile1 = png_auto(&px, 40, 24);
    assert_eq!(png_color_type(&tile1), (4, 3), "a 4-bit palette file");
    let tile2 = png_rgba8(&px, 40, 24);
    let im1 = load_data(&tile1).unwrap();
    let im2 = load_data(&tile2).unwrap();
    assert!(!im1.is_opaque());
    assert!(!im2.is_opaque());
    let diff = compare(&im1, &im2);
    assert!(diff <= 0.00002);
}

#[test]
fn poke_webp_test() {
    let px: Vec<u8> = (0..20 * 20 * 4).map(|i| (i * 13 % 251) as u8).collect();
    let webp = libwebp::WebPEncodeLosslessRGBA(&px, 20, 20, 20 * 4).unwrap();
    let a = load_data(&webp).unwrap();
    assert_eq!(20, a.width);
    assert_eq!(20, a.height);
}

#[test]
fn image_gray() {
    let (w, h) = (32, 16);
    let levels = gray_ramp(w, h);
    let mut rgba: Vec<[u8; 4]> = levels.iter().map(|&v| [v, v, v, 255]).collect();
    let opaque_rgba = rgba.clone();
    rgba[5][3] = 254;
    let icc = rgb_icc("Display profile");
    let g0 = load_data(&png_with_icc(&png_rgba16(&opaque_rgba, w, h), &icc)).unwrap();
    let g1 = load_data(&png_with_icc(&png_rgba8(&rgba, w, h), &icc)).unwrap();
    let pal_png = png_auto(&rgba, w, h);
    assert_eq!(png_color_type(&pal_png).1, 3, "a palette file");
    let g2 = load_data(&png_with_icc(&pal_png, &icc)).unwrap();
    let g3 = load_data(&png_gray8(&levels, w, h)).unwrap();
    let g4 = load_data(&jpeg(&levels, w as u16, h as u16, jpeg_encoder::ColorType::Luma, None, None)).unwrap();
    let g5 = load_image_data(&png_with_icc(&png_rgba8(&rgba, w, h), &icc), true).unwrap();

    assert!(g0.is_opaque());
    assert!(g3.is_opaque());
    assert!(g4.is_opaque());

    let diff = compare(&g0, &g1);
    assert!(diff < 0.00001, "{}", diff);

    let diff = compare(&g1, &g2);
    assert!(diff < 0.00001, "{}", diff);

    let diff = compare(&g1, &g3);
    assert!(diff < 0.00001, "{}", diff);

    let diff = compare(&g1, &g4);
    assert!(diff < 0.00006, "{}", diff);

    let diff = compare(&g4, &g5);
    assert!(diff < 0.00006, "{}", diff);

    let diff = compare(&g1, &g5);
    assert!(diff < 0.00001, "{}", diff);

    match (g1.bitmap, g5.bitmap) {
        (ImageData::RGBA16(_), ImageData::RGB16(_)) => {},
        (ImageData::RGBA8(_), ImageData::RGBA8(_)) => {},
        _ => panic!("opaque flag is supposed to return non-alpha type"),
    }
}

#[test]
fn image_implied1998_profile() {
    let (w, h) = (24, 16);
    let px: Vec<u8> = blocks(w, h, &VIVID).iter().flatten().copied().collect();
    let adobe98 = load_image_data(&jpeg(&px, w as u16, h as u16, jpeg_encoder::ColorType::Rgb, Some(&exif_adobe_primaries()), None), true).unwrap();
    let expected = load_image_data(&jpeg(&px, w as u16, h as u16, jpeg_encoder::ColorType::Rgb, None, Some(&load_image::profiles::adobe1998())), true).unwrap();

    let diff = compare(&adobe98, &expected);
    assert!(diff < 0.0008, "98 {}", diff);
}

#[test]
fn image_gray_profile() {
    let (w, h) = (32, 16);
    let levels = gray_ramp(w, h);
    let gray_icc = load_image::profiles::gray();
    let gp1_png = png_with_icc(&png_gray8(&levels, w, h), &gray_icc);
    let gp1 = load_data(&gp1_png).expect("gray-profile.png");
    let gp1o = load_image_data(&gp1_png, true).expect("gray-profile.png");
    let gp2 = load_data(&png_with_icc(&png_auto(&levels.iter().map(|&v| [v, v, v, 255]).collect::<Vec<_>>(), w, h), &gray_icc)).expect("gray-profile2.png");
    let gp3 = load_data(&jpeg(&levels, w as u16, h as u16, jpeg_encoder::ColorType::Luma, None, Some(&gray_icc))).expect("gray-profile.jpg");

    let diff = compare(&gp1, &gp2);
    assert!(diff < 0.0003, "{}", diff);

    let diff = compare(&gp1, &gp3);
    assert!(diff < 0.0003, "{}", diff);

    match gp1o.bitmap {
        ImageData::GRAY16(_) => {},
        _ => panic!("opaque flag"),
    };

    match gp1.bitmap {
        ImageData::GRAY16(_) => {},
        _ => panic!("opaque auto-detect"),
    };
}

fn vivid_pixels(w: usize, h: usize) -> Vec<u8> {
    blocks(w, h, &VIVID).iter().flatten().copied().collect()
}

#[test]
fn image_load1() {
    let (w, h) = (24, 16);
    let px = blocks(w, h, &MIDTONES).iter().flatten().copied().collect::<Vec<u8>>();
    let rgb: Vec<[u8; 3]> = blocks(w, h, &MIDTONES);
    let adobe = load_image::profiles::adobe1998();
    let prof_jpg = load_data(&jpeg(&px, w as u16, h as u16, jpeg_encoder::ColorType::Rgb, None, Some(&adobe))).unwrap();
    let prof_png = load_data(&png_with_icc(&png_rgb8(&rgb, w, h), &adobe)).unwrap();
    let diff = compare(&prof_jpg, &prof_png);
    assert!(diff <= 0.002);

    let strip_jpg = load_data(&jpeg(&px, w as u16, h as u16, jpeg_encoder::ColorType::Rgb, None, None)).unwrap();
    let diff = compare(&strip_jpg, &prof_jpg);
    assert!(diff > 0.002, "{}", diff);

    // The stripped PNG holds the colours already converted into sRGB.
    let converted: Vec<[u8; 3]> = match &prof_png.bitmap {
        ImageData::RGB16(v) => v.iter().map(|p| [(p.r >> 8) as u8, (p.g >> 8) as u8, (p.b >> 8) as u8]).collect(),
        _ => panic!("Expected widening due to profile"),
    };
    let strip_png = load_data(&png_rgb8(&converted, w, h)).unwrap();
    let diff = compare(&strip_jpg, &strip_png);
    assert!(diff > 0.002, "{}", diff);
}

#[test]
fn image_load_no_profiles() {
    let (w, h) = (24, 16);
    let px = vivid_pixels(w, h);
    let adobe = load_image::profiles::adobe1998();
    let prof_jpg = Loader::new()
        .profiles(Profiles::Skip)
        .load(&jpeg(&px, w as u16, h as u16, jpeg_encoder::ColorType::Rgb, None, Some(&adobe)))
        .unwrap();

    let strip_jpg = load_data(&jpeg(&px, w as u16, h as u16, jpeg_encoder::ColorType::Rgb, None, None)).unwrap();
    let diff = compare(&strip_jpg, &prof_jpg);
    assert!(diff < 0.002, "{} jpg", diff);

    match prof_jpg.bitmap {
        ImageData::RGB8(_) => {},
        _ => panic!("Expected plain RGB"),
    }
}

#[test]
fn image_load_all_profiles() {
    let (w, h) = (24, 16);
    let prof_png = Loader::new()
        .profiles(Profiles::All)
        .load(&png_with_icc(&png_rgb8(&blocks(w, h, &VIVID), w, h), &load_image::profiles::adobe1998()))
        .unwrap();

    match prof_png.bitmap {
        ImageData::RGB16(_) => {},
        _ => panic!("Expected widening due to profile"),
    }
}

#[test]
fn image_load_some_profiles() {
    let (w, h) = (24, 16);
    let prof_png = Loader::new()
        .profiles(Profiles::NonsRGB)
        .load(&png_with_icc(&png_rgb8(&blocks(w, h, &VIVID), w, h), &adobe_named_srgb()))
        .unwrap();
    assert!(prof_png.is_opaque());
    match prof_png.bitmap {
        ImageData::RGB8(_) => {},
        _ => panic!("Expected no widening due to skipped sRGB embedded profile"),
    }

    let px = vivid_pixels(w, h);
    let prof_jpg = Loader::new()
        .profiles(Profiles::NonsRGB)
        .load(&jpeg(&px, w as u16, h as u16, jpeg_encoder::ColorType::Rgb, None, Some(&load_image::profiles::adobe1998())))
        .unwrap();
    match prof_jpg.bitmap {
        ImageData::RGB16(_) => {},
        _ => panic!("Expected widening due to profile"),
    }
}

#[test]
fn image_cmyk() {
    let (w, h) = (24, 16);
    let inks: [[u8; 4]; 4] = [[0, 0, 0, 0], [255, 0, 0, 0], [0, 128, 255, 0], [0, 0, 0, 200]];
    let cmyk: Vec<u8> = (0..w * h).flat_map(|i| inks[((i / w) / 8 * 3 + (i % w) / 8) % inks.len()]).collect();
    let stored: Vec<u8> = cmyk.iter().map(|&c| 255 - c).collect();
    let jpg = jpeg(&stored, w as u16, h as u16, jpeg_encoder::ColorType::Cmyk, None, None);
    let im2 = load_image_data(&jpg, true).unwrap();
    let with_profile = jpeg(&stored, w as u16, h as u16, jpeg_encoder::ColorType::Cmyk, None, Some(&load_image::profiles::cmyk()));
    let expected = load_image_data(&with_profile, true).unwrap();
    let rgb: Vec<[u8; 3]> = match &expected.bitmap {
        ImageData::RGB16(v) => v.iter().map(|p| [(p.r >> 8) as u8, (p.g >> 8) as u8, (p.b >> 8) as u8]).collect(),
        _ => panic!("CMYK converts to RGB"),
    };
    let im1 = load_image_data(&png_rgb8(&rgb, w, h), true).unwrap();
    assert!(im1.is_opaque());
    assert!(im2.is_opaque());

    let diff = compare(&im1, &im2);
    assert!(diff <= 0.002);
    assert_eq!(Format::Jpeg, im2.meta.format);
}

/// The pixels as stored in a file whose EXIF orientation tag is `o`, for an upright
/// `w`×`h` image (from the definition of the tag).
fn stored_for_orientation(up: &[[u8; 3]], w: usize, h: usize, o: u16) -> (Vec<[u8; 3]>, usize, usize) {
    let at = |x: usize, y: usize| up[y * w + x];
    let swapped = o >= 5;
    let (sw, sh) = if swapped { (h, w) } else { (w, h) };
    let mut out = Vec::new();
    for sy in 0..sh {
        for sx in 0..sw {
            let (x, y) = match o {
                1 => (sx, sy),
                2 => (w - 1 - sx, sy),
                3 => (w - 1 - sx, h - 1 - sy),
                4 => (sx, h - 1 - sy),
                5 => (sy, sx),
                6 => (w - 1 - sy, sx),
                7 => (w - 1 - sy, h - 1 - sx),
                _ => (sy, h - 1 - sx),
            };
            out.push(at(x, y));
        }
    }
    (out, sw, sh)
}

#[test]
fn exif_test() {
    let (w, h) = (24, 16);
    let up = blocks(w, h, &VIVID);
    for (o, orient) in ["top-left", "top-right", "bottom-right", "bottom-left", "left-top", "right-top", "right-bottom", "left-bottom"].iter().enumerate() {
        let o = o as u16 + 1;
        let expected = load_image_data(&png_rgb8(&up, w, h), true).expect(orient);
        let (stored, sw, sh) = stored_for_orientation(&up, w, h, o);
        let bytes: Vec<u8> = stored.iter().flatten().copied().collect();
        let actual = load_image_data(&jpeg(&bytes, sw as u16, sh as u16, jpeg_encoder::ColorType::Rgb, Some(&exif_orientation(o)), None), true).expect(orient);
        let diff = compare(&expected, &actual);

        assert!(actual.is_opaque());

        assert!(diff <= 0.0002, "orient {orient} = {diff}");
        assert_eq!(Format::Jpeg, actual.meta.format);
        assert_eq!(Format::Png, expected.meta.format);
    }
}

#[test]
fn srgb_chunk_overrides_profile() {
    let (w, h) = (16, 8);
    let px = blocks(w, h, &VIVID);
    let png = png_rgb8(&px, w, h);
    let with_icc = png_with_icc(&png, &load_image::profiles::adobe1998());
    let with_both = png_with_chunk(&with_icc, b"sRGB", &[0]);
    let plain = load_data(&png).unwrap();
    let converted = load_data(&with_icc).unwrap();
    let kept = load_data(&with_both).unwrap();
    assert_eq!(plain.bitmap, kept.bitmap);
    assert!(matches!(converted.bitmap, ImageData::RGB16(_)));
    let mut skipping = Loader::new();
    skipping.profiles(Profiles::Skip);
    assert_eq!(skipping.load(&with_icc).unwrap().bitmap, plain.bitmap);
}

#[test]
fn error_variants() {
    assert!(matches!(load_data(&vec![0xFFu8; 1000]), Err(load_image::Error::Jpeg(_))));
    assert!(matches!(load_data(b"\x89PNG\r\n\x1a\nnot really"), Err(load_image::Error::Png(_))));
    assert!(matches!(load_data(b"RIFF\0\0\0\0WEBPVP8 "), Err(load_image::Error::WebP)));
    assert!(matches!(load_data(b"BM"), Err(load_image::Error::UnsupportedFileFormat)));
    let px: Vec<u8> = vec![7; 8 * 8 * 4];
    let webp = libwebp::WebPEncodeLosslessRGBA(&px, 8, 8, 8 * 4).unwrap();
    let mut small = Loader::new();
    small.max_image_area = 63;
    assert!(matches!(small.load(&webp), Err(load_image::Error::ImageTooLarge)));
    small.max_image_area = 64;
    assert_eq!(small.load(&webp).unwrap().bitmap, ImageData::RGBA8(vec![RGBA8::new(7, 7, 7, 7); 64]));
}

#[test]
fn max_area_bounds_every_format() {
    let png = png_rgb8(&blocks(4, 4, &VIVID), 4, 4);
    let jpg = jpeg(&vec![128u8; 48], 4, 4, jpeg_encoder::ColorType::Rgb, None, None);
    let mut small = Loader::new();
    small.max_image_area = 15;
    assert!(matches!(small.load(&png), Err(load_image::Error::ImageTooLarge)));
    assert!(matches!(small.load(&jpg), Err(load_image::Error::ImageTooLarge)));
    small.max_image_area = 16;
    let img = small.load(&png).unwrap();
    assert_eq!((img.width, img.height, img.bitmap.len()), (4, 4, 16));
    let img = small.load(&jpg).unwrap();
    assert_eq!((img.width, img.height, img.bitmap.len()), (4, 4, 16));
}
