use vstd::prelude::*;
use jpeg_decoder::Error as JpegDecodeError;
use std::io::Error as IoError;

verus! {

#[verifier::external_type_specification]
#[verifier::external_body]
pub struct ExJpegError(JpegDecodeError);

#[verifier::external_type_specification]
#[verifier::external_body]
pub struct ExIoError(IoError);

/// Why an image could not be loaded.
#[derive(Debug)]
#[non_exhaustive]
pub enum Error {
    /// The PNG decoder's error code.
    Png(u32),
    /// The JPEG decoder failed.
    Jpeg(JpegDecodeError),
    /// Reading the file failed.
    Io(IoError),
    /// WebP decoding failed.
    WebP,
    /// Image is larger than the allowed maximum dimension.
    ImageTooLarge,
    /// Reading of JPEG header failed.
    UnsupportedJpeg,
    /// This file doesn't look like any of the supported image formats.
    UnsupportedFileFormat,
}

} // verus!
