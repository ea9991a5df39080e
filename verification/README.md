# load_image

Loads a JPEG, PNG, WebP (or, around the library, AVIF) image into memory as sRGB pixels,
taking into account colour profiles in PNG chunks and JPEG markers, EXIF orientation and
EXIF primaries, and converting CMYK to RGB. The bitmap is packed, so `x + y * width` gives
the pixel at `x,y`.

The library in `src/` is written in Verus: its logic is proved against the contracts that
its functions state, and the decoders and the colour engine it calls (lodepng,
jpeg-decoder, libwebp, Little CMS) are reached through small trusted wrappers whose
contracts say what their sources show. rexif, which panics on some malformed EXIF data,
is called from `app/` under `catch_unwind`; the library takes the entries it read.

## Layout

- `src/loader.rs`: the `Loader` settings, format sniffing and dispatch, profile strategy,
  size limits.
- `src/png.rs`, `src/palette.rs`, `src/endian.rs`: PNG decoding results to pixels (palette and
  low-depth grey expansion, big-endian samples); `src/pngdec.rs` wraps lodepng.
- `src/jpeg.rs`, `src/jpegdec.rs`: the jpeg-decoder path; `src/mozjpeg.rs`: the marker logic
  of the mozjpeg path (ICC chunks, EXIF segment, kept markers, header and pixels).
- `src/exif.rs`: EXIF orientation and Adobe RGB (1998) primaries from the entries rexif
  read; `src/webp.rs`, `src/avif.rs`.
- `src/color.rs`, `src/lcms.rs`, `src/profiles.rs`: colour profiles and conversion with Little
  CMS, alpha copying, the built-in ICC profiles.
- `src/image.rs`, `src/rotate.rs`, `src/pixel.rs`, `src/alpha.rs`, `src/bitmap.rs`: the image,
  its pixel formats, RGBA conversion and EXIF rotations, with their laws.
- `app/`: reading files and standard input, the mozjpeg and AVIF decoders and rexif (which
  report broken files by unwinding, or need native libraries), the error type with
  `Display`, and `imgref`/`rgb` buffers.
- `extras/icc_profiles.py` writes `src/profiles.rs`.
