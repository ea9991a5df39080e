use vstd::prelude::*;

verus! {

/// ICC profile of the grey space that grey pixels are converted into: D50 white, gamma 2.2.
pub const GRAY_ICC: [u8; 360] = [
    0x00, 0x00, 0x01, 0x68, 0x00, 0x00, 0x00, 0x00, 0x02, 0x10, 0x00, 0x00, 0x6d, 0x6e, 0x74, 0x72,
    0x47, 0x52, 0x41, 0x59, 0x58, 0x59, 0x5a, 0x20, 0x07, 0xe8, 0x00, 0x01, 0x00, 0x01, 0x00, 0x00,
    0x00, 0x00, 0x00, 0x00, 0x61, 0x63, 0x73, 0x70, 0x00, 0x00, 0x00, 0x00, 0x00, 0x00, 0x00, 0x00,
    0x00, 0x00, 0x00, 0x00, 0x00, 0x00, 0x00, 0x00, 0x00, 0x00, 0x00, 0x00, 0x00, 0x00, 0x00, 0x00,
    0x00, 0x00, 0x00, 0x00, 0x00, 0x00, 0xf6, 0xd6, 0x00, 0x01, 0x00, 0x00, 0x00, 0x00, 0xd3, 0x2d,
    0x00, 0x00, 0x00, 0x00, 0x00, 0x00, 0x00, 0x00, 0x00, 0x00, 0x00, 0x00, 0x00, 0x00, 0x00, 0x00,
    0x00, 0x00, 0x00, 0x00, 0x00, 0x00, 0x00, 0x00, 0x00, 0x00, 0x00, 0x00, 0x00, 0x00, 0x00, 0x00,
    0x00, 0x00, 0x00, 0x00, 0x00, 0x00, 0x00, 0x00, 0x00, 0x00, 0x00, 0x00, 0x00, 0x00, 0x00, 0x00,
    0x00, 0x00, 0x00, 0x04, 0x64, 0x65, 0x73, 0x63, 0x00, 0x00, 0x00, 0xb4, 0x00, 0x00, 0x00, 0x69,
    0x77, 0x74, 0x70, 0x74, 0x00, 0x00, 0x01, 0x20, 0x00, 0x00, 0x00, 0x14, 0x6b, 0x54, 0x52, 0x43,
    0x00, 0x00, 0x01, 0x34, 0x00, 0x00, 0x00, 0x0e, 0x63, 0x70, 0x72, 0x74, 0x00, 0x00, 0x01, 0x44,
    0x00, 0x00, 0x00, 0x21, 0x64, 0x65, 0x73, 0x63, 0x00, 0x00, 0x00, 0x00, 0x00, 0x00, 0x00, 0x0f,
    0x47, 0x72, 0x61, 0x79, 0x20, 0x67, 0x61, 0x6d, 0x6d, 0x61, 0x20, 0x32, 0x2e, 0x32, 0x00, 0x00,
    0x00, 0x00, 0x00, 0x00, 0x00, 0x00, 0x00, 0x00, 0x00, 0x00, 0x00, 0x00, 0x00, 0x00, 0x00, 0x00,
    0x00, 0x00, 0x00, 0x00, 0x00, 0x00, 0x00, 0x00, 0x00, 0x00, 0x00, 0x00, 0x00, 0x00, 0x00, 0x00,
    0x00, 0x00, 0x00, 0x00, 0x00, 0x00, 0x00, 0x00, 0x00, 0x00, 0x00, 0x00, 0x00, 0x00, 0x00, 0x00,
    0x00, 0x00, 0x00, 0x00, 0x00, 0x00, 0x00, 0x00, 0x00, 0x00, 0x00, 0x00, 0x00, 0x00, 0x00, 0x00,
    0x00, 0x00, 0x00, 0x00, 0x00, 0x00, 0x00, 0x00, 0x00, 0x00, 0x00, 0x00, 0x00, 0x00, 0x00, 0x00,
    0x58, 0x59, 0x5a, 0x20, 0x00, 0x00, 0x00, 0x00, 0x00, 0x00, 0xf6, 0xd6, 0x00, 0x01, 0x00, 0x00,
    0x00, 0x00, 0xd3, 0x2d, 0x63, 0x75, 0x72, 0x76, 0x00, 0x00, 0x00, 0x00, 0x00, 0x00, 0x00, 0x01,
    0x02, 0x33, 0x00, 0x00, 0x74, 0x65, 0x78, 0x74, 0x00, 0x00, 0x00, 0x00, 0x4e, 0x6f, 0x20, 0x63,
    0x6f, 0x70, 0x79, 0x72, 0x69, 0x67, 0x68, 0x74, 0x2c, 0x20, 0x75, 0x73, 0x65, 0x20, 0x66, 0x72,
    0x65, 0x65, 0x6c, 0x79, 0x00, 0x00, 0x00, 0x00,
];

/// The bytes of [`GRAY_ICC`], kept from the solver until revealed.
#[verifier::opaque]
pub open spec fn gray_icc() -> Seq<u8> {
    GRAY_ICC@
}

/// ICC profile of the grey space that grey pixels are converted into: D50 white, gamma 2.2.
pub fn gray() -> (icc: Vec<u8>)
    ensures
        icc@ == gray_icc(),
{
    reveal(gray_icc);
    vstd::slice::slice_to_vec(GRAY_ICC.as_slice())
}

/// Part 1 of 8 of the bytes of the profile that [`cmyk`] returns.
pub const CMYK_ICC_0: [u8; 524] = [
    0x00, 0x00, 0x10, 0x60, 0x00, 0x00, 0x00, 0x00, 0x02, 0x10, 0x00, 0x00, 0x70, 0x72, 0x74, 0x72,
    0x43, 0x4d, 0x59, 0x4b, 0x4c, 0x61, 0x62, 0x20, 0x07, 0xe8, 0x00, 0x01, 0x00, 0x01, 0x00, 0x00,
    0x00, 0x00, 0x00, 0x00, 0x61, 0x63, 0x73, 0x70, 0x00, 0x00, 0x00, 0x00, 0x00, 0x00, 0x00, 0x00,
    0x00, 0x00, 0x00, 0x00, 0x00, 0x00, 0x00, 0x00, 0x00, 0x00, 0x00, 0x00, 0x00, 0x00, 0x00, 0x00,
    0x00, 0x00, 0x00, 0x00, 0x00, 0x00, 0xf6, 0xd6, 0x00, 0x01, 0x00, 0x00, 0x00, 0x00, 0xd3, 0x2d,
    0x00, 0x00, 0x00, 0x00, 0x00, 0x00, 0x00, 0x00, 0x00, 0x00, 0x00, 0x00, 0x00, 0x00, 0x00, 0x00,
    0x00, 0x00, 0x00, 0x00, 0x00, 0x00, 0x00, 0x00, 0x00, 0x00, 0x00, 0x00, 0x00, 0x00, 0x00, 0x00,
    0x00, 0x00, 0x00, 0x00, 0x00, 0x00, 0x00, 0x00, 0x00, 0x00, 0x00, 0x00, 0x00, 0x00, 0x00, 0x00,
    0x00, 0x00, 0x00, 0x04, 0x64, 0x65, 0x73, 0x63, 0x00, 0x00, 0x00, 0xb4, 0x00, 0x00, 0x00, 0x7a,
    0x77, 0x74, 0x70, 0x74, 0x00, 0x00, 0x01, 0x30, 0x00, 0x00, 0x00, 0x14, 0x41, 0x32, 0x42, 0x30,
    0x00, 0x00, 0x01, 0x44, 0x00, 0x00, 0x0e, 0xf6, 0x63, 0x70, 0x72, 0x74, 0x00, 0x00, 0x10, 0x3c,
    0x00, 0x00, 0x00, 0x21, 0x64, 0x65, 0x73, 0x63, 0x00, 0x00, 0x00, 0x00, 0x00, 0x00, 0x00, 0x20,
    0x55, 0x6e, 0x63, 0x6f, 0x61, 0x74, 0x65, 0x64, 0x20, 0x69, 0x6e, 0x6b, 0x20, 0x43, 0x4d, 0x59,
    0x4b, 0x20, 0x61, 0x70, 0x70, 0x72, 0x6f, 0x78, 0x69, 0x6d, 0x61, 0x74, 0x69, 0x6f, 0x6e, 0x00,
    0x00, 0x00, 0x00, 0x00, 0x00, 0x00, 0x00, 0x00, 0x00, 0x00, 0x00, 0x00, 0x00, 0x00, 0x00, 0x00,
    0x00, 0x00, 0x00, 0x00, 0x00, 0x00, 0x00, 0x00, 0x00, 0x00, 0x00, 0x00, 0x00, 0x00, 0x00, 0x00,
    0x00, 0x00, 0x00, 0x00, 0x00, 0x00, 0x00, 0x00, 0x00, 0x00, 0x00, 0x00, 0x00, 0x00, 0x00, 0x00,
    0x00, 0x00, 0x00, 0x00, 0x00, 0x00, 0x00, 0x00, 0x00, 0x00, 0x00, 0x00, 0x00, 0x00, 0x00, 0x00,
    0x00, 0x00, 0x00, 0x00, 0x00, 0x00, 0x00, 0x00, 0x00, 0x00, 0x00, 0x00, 0x00, 0x00, 0x00, 0x00,
    0x58, 0x59, 0x5a, 0x20, 0x00, 0x00, 0x00, 0x00, 0x00, 0x00, 0xf6, 0xd6, 0x00, 0x01, 0x00, 0x00,
    0x00, 0x00, 0xd3, 0x2d, 0x6d, 0x66, 0x74, 0x32, 0x00, 0x00, 0x00, 0x00, 0x04, 0x03, 0x05, 0x00,
    0x00, 0x01, 0x00, 0x00, 0x00, 0x00, 0x00, 0x00, 0x00, 0x00, 0x00, 0x00, 0x00, 0x00, 0x00, 0x00,
    0x00, 0x01, 0x00, 0x00, 0x00, 0x00, 0x00, 0x00, 0x00, 0x00, 0x00, 0x00, 0x00, 0x00, 0x00, 0x00,
    0x00, 0x01, 0x00, 0x00, 0x00, 0x02, 0x00, 0x02, 0x00, 0x00, 0xff, 0xff, 0x00, 0x00, 0xff, 0xff,
    0x00, 0x00, 0xff, 0xff, 0x00, 0x00, 0xff, 0xff, 0xff, 0x00, 0x80, 0x01, 0x7f, 0xfa, 0xc5, 0x73,
    0x80, 0x01, 0x7f, 0xfb, 0x88, 0x24, 0x80, 0x01, 0x7f, 0xfc, 0x44, 0xce, 0x80, 0x00, 0x7f, 0xfe,
    0x00, 0x00, 0x80, 0x00, 0x80, 0x00, 0xfc, 0x1e, 0x78, 0xc6, 0x9e, 0x98, 0xc3, 0x29, 0x7a, 0x44,
    0x98, 0x39, 0x86, 0x7d, 0x7b, 0xdc, 0x91, 0x66, 0x43, 0xdc, 0x7d, 0xa3, 0x89, 0xcf, 0x00, 0x00,
    0x80, 0x00, 0x80, 0x00, 0xfa, 0x3a, 0x73, 0xd4, 0xbb, 0xfc, 0xc1, 0xa5, 0x76, 0x4d, 0xaf, 0x8e,
    0x85, 0x60, 0x78, 0xf3, 0xa2, 0x3b, 0x43, 0x31, 0x7b, 0xe7, 0x93, 0x65, 0x00, 0x00, 0x80, 0x00,
    0x80, 0x00, 0xf9, 0x37, 0x71, 0x1d, 0xd3, 0x72, 0xc0, 0xd1, 0x74, 0x14, 0xc2, 0x76, 0x84, 0xbe,
    0x77, 0x42, 0xb0, 0x3e, 0x42, 0xc7, 0x7a, 0xcc, 0x9b, 0xd7, 0x00, 0x00, 0x80, 0x00, 0x80, 0x00,
    0xf8, 0xe6, 0x70, 0x40, 0xdd, 0x60, 0xc0, 0x89, 0x73, 0x51, 0xcb, 0x35,
];

/// Part 2 of 8 of the bytes of the profile that [`cmyk`] returns.
pub const CMYK_ICC_1: [u8; 524] = [
    0x84, 0x7e, 0x76, 0x94, 0xb7, 0xdb, 0x42, 0x8c, 0x7a, 0x2a, 0xa2, 0x54, 0x00, 0x00, 0x80, 0x00,
    0x80, 0x00, 0xd8, 0x71, 0x9f, 0x22, 0x69, 0xb9, 0xa6, 0xe5, 0x98, 0xa4, 0x6e, 0x5a, 0x72, 0x29,
    0x91, 0xaf, 0x73, 0x50, 0x38, 0x5d, 0x89, 0xf3, 0x78, 0xd4, 0x00, 0x00, 0x80, 0x00, 0x80, 0x00,
    0xd4, 0x9d, 0x97, 0x98, 0x89, 0x68, 0xa3, 0xde, 0x92, 0xa8, 0x87, 0x6b, 0x6f, 0xff, 0x8d, 0x5e,
    0x85, 0x4b, 0x37, 0x27, 0x87, 0x7d, 0x82, 0xee, 0x00, 0x00, 0x80, 0x00, 0x80, 0x00, 0xd2, 0x13,
    0x92, 0x58, 0xa9, 0x5f, 0xa1, 0xd8, 0x8e, 0x74, 0xa0, 0xb8, 0x6e, 0x86, 0x8a, 0x49, 0x97, 0x72,
    0x36, 0x4b, 0x85, 0xa8, 0x8d, 0x23, 0x00, 0x00, 0x80, 0x00, 0x80, 0x00, 0xd0, 0xb6, 0x8f, 0x6e,
    0xc5, 0x63, 0xa0, 0xbc, 0x8c, 0x13, 0xb7, 0x1f, 0x6d, 0xaf, 0x88, 0x79, 0xa7, 0xd0, 0x35, 0xc2,
    0x84, 0x7b, 0x96, 0xae, 0x00, 0x00, 0x80, 0x00, 0x80, 0x00, 0xd0, 0x49, 0x8e, 0x81, 0xd2, 0xd1,
    0xa0, 0x5b, 0x8b, 0x40, 0xc2, 0xd6, 0x6d, 0x5a, 0x87, 0xbe, 0xb1, 0xd3, 0x35, 0x75, 0x83, 0xce,
    0x9d, 0x6d, 0x00, 0x00, 0x80, 0x00, 0x80, 0x00, 0xb7, 0x98, 0xbd, 0xb3, 0x56, 0x10, 0x8c, 0xba,
    0xb0, 0xea, 0x5e, 0xb3, 0x5f, 0x25, 0xa3, 0x36, 0x67, 0xf5, 0x2d, 0x56, 0x93, 0xf1, 0x72, 0x45,
    0x00, 0x00, 0x80, 0x00, 0x80, 0x00, 0xb2, 0x86, 0xb6, 0x8a, 0x76, 0x23, 0x88, 0xbc, 0xab, 0x36,
    0x78, 0x14, 0x5c, 0x50, 0x9f, 0x13, 0x7a, 0x29, 0x2b, 0xca, 0x91, 0x8c, 0x7c, 0x7f, 0x00, 0x00,
    0x80, 0x00, 0x80, 0x00, 0xaf, 0x1e, 0xb1, 0x7a, 0x97, 0xea, 0x86, 0x07, 0xa7, 0x26, 0x92, 0xc4,
    0x5a, 0x5c, 0x9c, 0x13, 0x8d, 0x40, 0x2a, 0xae, 0x8f, 0xbe, 0x87, 0x26, 0x00, 0x00, 0x80, 0x00,
    0x80, 0x00, 0xad, 0x45, 0xae, 0xa4, 0xb8, 0x6a, 0x84, 0x89, 0xa4, 0xd2, 0xac, 0x92, 0x59, 0x3e,
    0x9a, 0x4b, 0x9f, 0xdc, 0x29, 0xfc, 0x8e, 0x92, 0x91, 0x77, 0x00, 0x00, 0x80, 0x00, 0x80, 0x00,
    0xac, 0xb0, 0xad, 0xbb, 0xca, 0xc7, 0x84, 0x05, 0xa4, 0x03, 0xbc, 0x67, 0x58, 0xcc, 0x99, 0x93,
    0xad, 0x1d, 0x29, 0x97, 0x8d, 0xe5, 0x98, 0x26, 0x00, 0x00, 0x80, 0x00, 0x80, 0x00, 0xa1, 0x70,
    0xd4, 0xb9, 0x48, 0x75, 0x7a, 0xbb, 0xc3, 0x8c, 0x53, 0xa9, 0x51, 0x9f, 0xb1, 0x1f, 0x5f, 0xac,
    0x24, 0xdd, 0x9c, 0x7a, 0x6d, 0x1b, 0x00, 0x00, 0x80, 0x00, 0x80, 0x00, 0x9b, 0x24, 0xce, 0x7d,
    0x68, 0x67, 0x75, 0xc6, 0xbe, 0x90, 0x6c, 0xf1, 0x4e, 0x19, 0xad, 0x78, 0x71, 0xd1, 0x22, 0xf4,
    0x9a, 0x50, 0x77, 0x50, 0x00, 0x00, 0x80, 0x00, 0x80, 0x00, 0x96, 0xd8, 0xca, 0x0e, 0x8b, 0x0a,
    0x72, 0x5d, 0xba, 0xfc, 0x88, 0x4c, 0x4b, 0xa4, 0xaa, 0xd0, 0x85, 0x5e, 0x21, 0x8f, 0x98, 0xac,
    0x82, 0x33, 0x00, 0x00, 0x80, 0x00, 0x80, 0x00, 0x94, 0x7e, 0xc7, 0x8f, 0xae, 0xc9, 0x70, 0x75,
    0xb8, 0xee, 0xa4, 0x92, 0x4a, 0x36, 0xa9, 0x39, 0x99, 0x9d, 0x20, 0xae, 0x97, 0x9a, 0x8c, 0xdc,
    0x00, 0x00, 0x80, 0x00, 0x80, 0x00, 0x93, 0xbf, 0xc6, 0xc1, 0xc6, 0xb5, 0x6f, 0xcd, 0xb8, 0x36,
    0xb9, 0x09, 0x49, 0xa5, 0xa8, 0x94, 0xa9, 0x88, 0x20, 0x2d, 0x96, 0xfb, 0x93, 0x79, 0x00, 0x00,
    0x80, 0x00, 0x80, 0x00, 0x99, 0x6f, 0xdd, 0x8e, 0x43, 0x7a, 0x73, 0xa5, 0xcb, 0x5a, 0x4f, 0x41,
    0x4b, 0x63, 0xb7, 0xf6, 0x5b, 0xcc, 0x1f, 0x2c, 0xa2, 0xaa, 0x69, 0x93, 0x00, 0x00, 0x80, 0x00,
    0x80, 0x00, 0x92, 0x93, 0xd7, 0xdc, 0x63, 0x45, 0x6e, 0x33, 0xc6, 0xd5, 0x68, 0x67, 0x47, 0x75,
    0xb4, 0xb4, 0x6d, 0xd4, 0x1c, 0xee, 0xa0, 0xcf, 0x73, 0xb2, 0x00, 0x00,
];

/// Part 3 of 8 of the bytes of the profile that [`cmyk`] returns.
pub const CMYK_ICC_2: [u8; 524] = [
    0x80, 0x00, 0x80, 0x00, 0x8d, 0xdd, 0xd3, 0xd2, 0x86, 0x1e, 0x6a, 0x6d, 0xc3, 0x99, 0x83, 0xee,
    0x44, 0xb0, 0xb2, 0x55, 0x81, 0x83, 0x1b, 0x47, 0x9f, 0x66, 0x7e, 0xaa, 0x00, 0x00, 0x80, 0x00,
    0x80, 0x00, 0x8b, 0x45, 0xd1, 0x8c, 0xab, 0x0c, 0x68, 0x4e, 0xc1, 0xbe, 0xa1, 0x2c, 0x43, 0x12,
    0xb0, 0xeb, 0x96, 0x7f, 0x1a, 0x39, 0x9e, 0x7b, 0x89, 0x71, 0x00, 0x00, 0x80, 0x00, 0x80, 0x00,
    0x8a, 0x72, 0xd0, 0xd1, 0xc5, 0xe1, 0x67, 0x92, 0xc1, 0x18, 0xb8, 0x48, 0x42, 0x6c, 0xb0, 0x58,
    0xa7, 0x47, 0x19, 0x9e, 0x9d, 0xf2, 0x8f, 0xfc, 0x00, 0x00, 0x80, 0x00, 0x80, 0x00, 0xf4, 0x21,
    0x6b, 0x6f, 0x79, 0x2a, 0xbc, 0xd2, 0x6f, 0xb2, 0x7a, 0x93, 0x81, 0xea, 0x74, 0x43, 0x7c, 0x16,
    0x41, 0x40, 0x79, 0x58, 0x7d, 0xc4, 0x00, 0x00, 0x80, 0x00, 0x80, 0x00, 0xf1, 0x05, 0x62, 0x5c,
    0x97, 0xdc, 0xba, 0x5b, 0x68, 0x85, 0x92, 0xe0, 0x80, 0x23, 0x6f, 0x1f, 0x8d, 0x89, 0x40, 0x3e,
    0x76, 0x76, 0x87, 0x99, 0x00, 0x00, 0x80, 0x00, 0x80, 0x00, 0xee, 0xf9, 0x5c, 0x0c, 0xb5, 0x8a,
    0xb8, 0xb8, 0x63, 0x7c, 0xaa, 0x6d, 0x7e, 0xf0, 0x6b, 0x74, 0x9e, 0x84, 0x3f, 0x86, 0x74, 0x52,
    0x91, 0x41, 0x00, 0x00, 0x80, 0x00, 0x80, 0x00, 0xed, 0xe1, 0x58, 0x8d, 0xcd, 0x81, 0xb7, 0xd3,
    0x60, 0xa3, 0xbd, 0xb9, 0x7e, 0x41, 0x69, 0x4c, 0xac, 0xcb, 0x3f, 0x15, 0x72, 0xf2, 0x99, 0xd4,
    0x00, 0x00, 0x80, 0x00, 0x80, 0x00, 0xed, 0x8a, 0x57, 0x6f, 0xd7, 0xc9, 0xb7, 0x85, 0x5f, 0xa6,
    0xc6, 0xc5, 0x7d, 0xfc, 0x68, 0x6e, 0xb4, 0xa7, 0x3e, 0xd5, 0x72, 0x27, 0xa0, 0x62, 0x00, 0x00,
    0x80, 0x00, 0x80, 0x00, 0xc9, 0xc5, 0x8a, 0x23, 0x60, 0x5d, 0x9b, 0x50, 0x87, 0xff, 0x66, 0xf8,
    0x69, 0xe4, 0x85, 0xb3, 0x6e, 0x0b, 0x33, 0xc5, 0x83, 0x27, 0x75, 0xe8, 0x00, 0x00, 0x80, 0x00,
    0x80, 0x00, 0xc5, 0x73, 0x80, 0x01, 0x7f, 0xfb, 0x97, 0xe9, 0x80, 0x01, 0x7f, 0xfc, 0x67, 0x78,
    0x80, 0x00, 0x7f, 0xfd, 0x32, 0x70, 0x80, 0x00, 0x7f, 0xfe, 0x00, 0x00, 0x80, 0x00, 0x80, 0x00,
    0xc2, 0x93, 0x78, 0xbe, 0xa0, 0x36, 0x95, 0xa0, 0x7a, 0x3c, 0x99, 0x7c, 0x65, 0xd0, 0x7b, 0xd5,
    0x92, 0x46, 0x31, 0x7c, 0x7d, 0x9c, 0x8a, 0x42, 0x00, 0x00, 0x80, 0x00, 0x80, 0x00, 0xc1, 0x06,
    0x74, 0xa3, 0xbd, 0x03, 0x94, 0x5d, 0x76, 0xe7, 0xb0, 0x7a, 0x64, 0xde, 0x79, 0x55, 0xa3, 0x06,
    0x30, 0xe4, 0x7c, 0x0d, 0x93, 0xf4, 0x00, 0x00, 0x80, 0x00, 0x80, 0x00, 0xc0, 0x89, 0x73, 0x51,
    0xcb, 0x35, 0x93, 0xef, 0x75, 0xbd, 0xbc, 0xd5, 0x64, 0x7e, 0x78, 0x52, 0xad, 0x8b, 0x30, 0x8e,
    0x7b, 0x24, 0x9a, 0xad, 0x00, 0x00, 0x80, 0x00, 0x80, 0x00, 0xa3, 0xad, 0xab, 0x2b, 0x49, 0x2c,
    0x7d, 0x16, 0xa2, 0x21, 0x54, 0x95, 0x54, 0x17, 0x98, 0x72, 0x60, 0xcf, 0x27, 0x5c, 0x8d, 0xac,
    0x6e, 0x6b, 0x00, 0x00, 0x80, 0x00, 0x80, 0x00, 0x9d, 0x85, 0xa0, 0xf9, 0x68, 0xce, 0x78, 0x45,
    0x9a, 0x12, 0x6d, 0xa1, 0x50, 0xb6, 0x92, 0xae, 0x72, 0xcc, 0x25, 0x91, 0x8a, 0x75, 0x78, 0x8d,
    0x00, 0x00, 0x80, 0x00, 0x80, 0x00, 0x99, 0x55, 0x99, 0x69, 0x8a, 0xa5, 0x74, 0xf8, 0x94, 0x0f,
    0x88, 0x5d, 0x4e, 0x5c, 0x8e, 0x54, 0x85, 0xeb, 0x24, 0x45, 0x87, 0xf6, 0x83, 0x38, 0x00, 0x00,
    0x80, 0x00, 0x80, 0x00, 0x97, 0x0a, 0x95, 0x05, 0xac, 0x3b, 0x73, 0x20, 0x90, 0x81, 0xa2, 0xf7,
    0x4c, 0xff, 0x8b, 0xaa, 0x99, 0x06, 0x23, 0x73, 0x86, 0x4e, 0x8d, 0x9d, 0x00, 0x00, 0x80, 0x00,
    0x80, 0x00, 0x96, 0x51, 0x93, 0x96, 0xc0, 0x6a, 0x72, 0x7e, 0x8f, 0x3e,
];

/// Part 4 of 8 of the bytes of the profile that [`cmyk`] returns.
pub const CMYK_ICC_3: [u8; 524] = [
    0xb4, 0x45, 0x4c, 0x74, 0x8a, 0x91, 0xa7, 0x50, 0x22, 0xfc, 0x85, 0x53, 0x94, 0x40, 0x00, 0x00,
    0x80, 0x00, 0x80, 0x00, 0x87, 0xf4, 0xc7, 0x2c, 0x37, 0xcf, 0x66, 0xba, 0xb8, 0x9d, 0x46, 0x99,
    0x43, 0x7f, 0xa8, 0xfb, 0x56, 0x75, 0x1d, 0x4d, 0x97, 0x74, 0x68, 0x2e, 0x00, 0x00, 0x80, 0x00,
    0x80, 0x00, 0x7f, 0x91, 0xbe, 0x60, 0x56, 0xa6, 0x60, 0x30, 0xb1, 0x9b, 0x5f, 0x0c, 0x3e, 0xf0,
    0xa3, 0xe6, 0x68, 0x0f, 0x1a, 0xee, 0x94, 0x85, 0x72, 0x29, 0x00, 0x00, 0x80, 0x00, 0x80, 0x00,
    0x79, 0xac, 0xb7, 0xb6, 0x78, 0xde, 0x5b, 0x8f, 0xac, 0x45, 0x7a, 0x15, 0x3b, 0xac, 0x9f, 0xfb,
    0x7b, 0x67, 0x19, 0x2c, 0x92, 0x32, 0x7c, 0xf4, 0x00, 0x00, 0x80, 0x00, 0x80, 0x00, 0x76, 0x60,
    0xb3, 0xc6, 0x9d, 0xd3, 0x58, 0xec, 0xa9, 0x0d, 0x97, 0x38, 0x39, 0xbe, 0x9d, 0x89, 0x90, 0x28,
    0x18, 0x0d, 0x90, 0x9f, 0x87, 0x98, 0x00, 0x00, 0x80, 0x00, 0x80, 0x00, 0x75, 0x51, 0xb2, 0x79,
    0xb9, 0xca, 0x58, 0x01, 0xa7, 0xe6, 0xae, 0xd9, 0x38, 0xf6, 0x9c, 0x84, 0xa0, 0xd5, 0x17, 0x67,
    0x8f, 0xaf, 0x8e, 0x1b, 0x00, 0x00, 0x80, 0x00, 0x80, 0x00, 0x7d, 0x3f, 0xd2, 0xfa, 0x31, 0x01,
    0x5d, 0x50, 0xc2, 0xf8, 0x40, 0x9f, 0x3b, 0x55, 0xb1, 0xed, 0x51, 0x47, 0x16, 0x18, 0x9f, 0x3d,
    0x63, 0xa1, 0x00, 0x00, 0x80, 0x00, 0x80, 0x00, 0x73, 0xa5, 0xcb, 0x5a, 0x4f, 0x41, 0x55, 0xbe,
    0xbc, 0xf3, 0x58, 0x92, 0x35, 0xef, 0xad, 0xa1, 0x62, 0x7b, 0x13, 0x23, 0x9c, 0xcf, 0x6d, 0x5a,
    0x00, 0x00, 0x80, 0x00, 0x80, 0x00, 0x6c, 0xc1, 0xc5, 0x9b, 0x71, 0x50, 0x50, 0x44, 0xb8, 0x62,
    0x73, 0x78, 0x31, 0xf9, 0xaa, 0x54, 0x75, 0xb6, 0x11, 0x0b, 0x9a, 0xa0, 0x78, 0x2e, 0x00, 0x00,
    0x80, 0x00, 0x80, 0x00, 0x68, 0xd6, 0xc2, 0x36, 0x97, 0x67, 0x4d, 0x17, 0xb5, 0xa3, 0x91, 0x83,
    0x2f, 0x98, 0xa8, 0x46, 0x8b, 0x20, 0x0f, 0xc2, 0x99, 0x02, 0x82, 0xee, 0x00, 0x00, 0x80, 0x00,
    0x80, 0x00, 0x67, 0x92, 0xc1, 0x18, 0xb8, 0x48, 0x4b, 0xfa, 0xb4, 0xa6, 0xac, 0x19, 0x2e, 0x9f,
    0xa7, 0x6a, 0x9c, 0x78, 0x0f, 0x0a, 0x97, 0xfe, 0x89, 0x65, 0x00, 0x00, 0x80, 0x00, 0x80, 0x00,
    0xec, 0xa4, 0x5a, 0xf1, 0x74, 0x73, 0xb6, 0xd3, 0x62, 0x87, 0x76, 0xcc, 0x7d, 0x83, 0x6a, 0xa8,
    0x79, 0x50, 0x3e, 0xa1, 0x73, 0xb8, 0x7c, 0x1d, 0x00, 0x00, 0x80, 0x00, 0x80, 0x00, 0xe9, 0x5c,
    0x50, 0x0b, 0x93, 0x2e, 0xb4, 0x38, 0x59, 0xed, 0x8f, 0x21, 0x7b, 0xa3, 0x64, 0x84, 0x8a, 0xc9,
    0x3d, 0x91, 0x70, 0x50, 0x85, 0xf5, 0x00, 0x00, 0x80, 0x00, 0x80, 0x00, 0xe7, 0x32, 0x48, 0x58,
    0xb1, 0x0a, 0xb2, 0x7d, 0x53, 0xcc, 0xa6, 0xd0, 0x7a, 0x5e, 0x60, 0x12, 0x9b, 0xdb, 0x3c, 0xd0,
    0x6d, 0xc0, 0x8f, 0xa9, 0x00, 0x00, 0x80, 0x00, 0x80, 0x00, 0xe6, 0x09, 0x44, 0x07, 0xc9, 0x57,
    0xb1, 0x8b, 0x50, 0x4a, 0xba, 0x60, 0x79, 0xa6, 0x5d, 0x6e, 0xaa, 0x51, 0x3c, 0x58, 0x6c, 0x17,
    0x98, 0x52, 0x00, 0x00, 0x80, 0x00, 0x80, 0x00, 0xe5, 0xac, 0x42, 0xa5, 0xd3, 0xdd, 0xb1, 0x38,
    0x4f, 0x11, 0xc3, 0xa2, 0x79, 0x5d, 0x5c, 0x5c, 0xb2, 0x5a, 0x3c, 0x14, 0x6b, 0x20, 0x9e, 0xeb,
    0x00, 0x00, 0x80, 0x00, 0x80, 0x00, 0xbf, 0x42, 0x77, 0xff, 0x59, 0x9e, 0x92, 0xf4, 0x79, 0x8d,
    0x61, 0x9b, 0x63, 0xd5, 0x7b, 0x37, 0x6a, 0x29, 0x30, 0x48, 0x7d, 0x17, 0x73, 0xad, 0x00, 0x00,
    0x80, 0x00, 0x80, 0x00, 0xba, 0x86, 0x6a, 0xdc, 0x79, 0x21, 0x8f, 0x3b, 0x6f, 0x3c, 0x7a, 0x8a,
    0x61, 0x31, 0x73, 0xed, 0x7c, 0x0e, 0x2e, 0xd7, 0x79, 0x26, 0x7d, 0xbd,
];

/// Part 5 of 8 of the bytes of the profile that [`cmyk`] returns.
pub const CMYK_ICC_4: [u8; 524] = [
    0x00, 0x00, 0x80, 0x00, 0x80, 0x00, 0xb7, 0x5c, 0x61, 0x21, 0x99, 0x7f, 0x8c, 0xb7, 0x67, 0x8c,
    0x94, 0x25, 0x5f, 0x61, 0x6e, 0x6e, 0x8e, 0x68, 0x2d, 0xce, 0x76, 0x17, 0x88, 0x09, 0x00, 0x00,
    0x80, 0x00, 0x80, 0x00, 0xb5, 0xa6, 0x5b, 0x7c, 0xb6, 0xd1, 0x8b, 0x55, 0x63, 0x01, 0xab, 0x88,
    0x5e, 0x57, 0x6b, 0x11, 0x9f, 0x6b, 0x2d, 0x29, 0x74, 0x0f, 0x91, 0xd3, 0x00, 0x00, 0x80, 0x00,
    0x80, 0x00, 0xb5, 0x1c, 0x59, 0xa5, 0xc5, 0x93, 0x8a, 0xdb, 0x61, 0x65, 0xb8, 0x5b, 0x5d, 0xee,
    0x69, 0xae, 0xaa, 0x4e, 0x2c, 0xcb, 0x72, 0xdc, 0x98, 0x87, 0x00, 0x00, 0x80, 0x00, 0x80, 0x00,
    0x94, 0x67, 0x99, 0xf2, 0x3f, 0x37, 0x71, 0x09, 0x94, 0x5b, 0x4c, 0xbc, 0x4b, 0x7e, 0x8e, 0x5e,
    0x5b, 0x38, 0x22, 0x9a, 0x87, 0xbe, 0x6b, 0x55, 0x00, 0x00, 0x80, 0x00, 0x80, 0x00, 0x8d, 0x27,
    0x8b, 0x7f, 0x5e, 0x4c, 0x6b, 0x65, 0x89, 0x07, 0x65, 0x5e, 0x47, 0x92, 0x86, 0x63, 0x6c, 0xf1,
    0x20, 0x91, 0x83, 0x78, 0x75, 0x5c, 0x00, 0x00, 0x80, 0x00, 0x80, 0x00, 0x88, 0x24, 0x80, 0x01,
    0x7f, 0xfc, 0x67, 0x78, 0x80, 0x00, 0x7f, 0xfd, 0x44, 0xce, 0x80, 0x00, 0x7f, 0xfe, 0x1f, 0x15,
    0x80, 0x00, 0x7f, 0xfe, 0x00, 0x00, 0x80, 0x00, 0x80, 0x00, 0x85, 0x60, 0x78, 0xf3, 0xa2, 0x3b,
    0x65, 0x42, 0x7a, 0x60, 0x9b, 0x13, 0x43, 0x31, 0x7b, 0xe7, 0x93, 0x65, 0x1e, 0x23, 0x7d, 0x9d,
    0x8a, 0x6b, 0x00, 0x00, 0x80, 0x00, 0x80, 0x00, 0x84, 0x7e, 0x76, 0x94, 0xb7, 0xdb, 0x64, 0x7e,
    0x78, 0x52, 0xad, 0x8b, 0x42, 0x8c, 0x7a, 0x2a, 0xa2, 0x54, 0x1d, 0x99, 0x7c, 0x2c, 0x91, 0x01,
    0x00, 0x00, 0x80, 0x00, 0x80, 0x00, 0x72, 0x80, 0xba, 0xdc, 0x29, 0xaf, 0x55, 0xde, 0xae, 0x94,
    0x3b, 0x80, 0x37, 0x92, 0xa1, 0x64, 0x4e, 0x9e, 0x16, 0xdf, 0x92, 0xa0, 0x63, 0xf7, 0x00, 0x00,
    0x80, 0x00, 0x80, 0x00, 0x67, 0x5e, 0xae, 0x16, 0x46, 0xdd, 0x4d, 0x48, 0xa4, 0x75, 0x52, 0xb9,
    0x31, 0xb4, 0x9a, 0x1e, 0x5f, 0x71, 0x13, 0xf7, 0x8e, 0x90, 0x6d, 0xa5, 0x00, 0x00, 0x80, 0x00,
    0x80, 0x00, 0x5f, 0x25, 0xa3, 0x36, 0x67, 0xf5, 0x46, 0xed, 0x9b, 0xd9, 0x6c, 0xee, 0x2d, 0x56,
    0x93, 0xf1, 0x72, 0x45, 0x11, 0xdf, 0x8a, 0xee, 0x78, 0x51, 0x00, 0x00, 0x80, 0x00, 0x80, 0x00,
    0x5a, 0x5c, 0x9c, 0x13, 0x8d, 0x40, 0x43, 0x2b, 0x96, 0x20, 0x8a, 0x4c, 0x2a, 0xae, 0x8f, 0xbe,
    0x87, 0x26, 0x10, 0x96, 0x88, 0x32, 0x82, 0xf1, 0x00, 0x00, 0x80, 0x00, 0x80, 0x00, 0x58, 0xcc,
    0x99, 0x93, 0xad, 0x1d, 0x41, 0xd6, 0x93, 0xf3, 0xa4, 0x15, 0x29, 0x97, 0x8d, 0xe5, 0x98, 0x26,
    0x0f, 0xde, 0x86, 0x77, 0x89, 0x68, 0x00, 0x00, 0x80, 0x00, 0x80, 0x00, 0x64, 0x2c, 0xca, 0xa9,
    0x20, 0x6f, 0x49, 0x5d, 0xbc, 0x53, 0x33, 0x70, 0x2c, 0xdf, 0xad, 0x12, 0x47, 0xba, 0x0e, 0x75,
    0x9b, 0x37, 0x5e, 0x9a, 0x00, 0x00, 0x80, 0x00, 0x80, 0x00, 0x56, 0x48, 0xc0, 0x82, 0x3b, 0xfc,
    0x3e, 0x7d, 0xb4, 0x59, 0x49, 0x50, 0x25, 0x39, 0xa7, 0x6e, 0x57, 0x86, 0x0b, 0x74, 0x96, 0x59,
    0x68, 0x59, 0x00, 0x00, 0x80, 0x00, 0x80, 0x00, 0x4b, 0x63, 0xb7, 0xf6, 0x5b, 0xcc, 0x35, 0xef,
    0xad, 0xa1, 0x62, 0x7b, 0x1f, 0x2c, 0xa2, 0xaa, 0x69, 0x93, 0x09, 0x5c, 0x91, 0xbe, 0x73, 0x4b,
    0x00, 0x00, 0x80, 0x00, 0x80, 0x00, 0x44, 0xb0, 0xb2, 0x55, 0x81, 0x83, 0x30, 0x96, 0xa9, 0x23,
    0x80, 0x2b, 0x1b, 0x47, 0x9f, 0x66, 0x7e, 0xaa, 0x08, 0x13, 0x8e, 0x99, 0x7e, 0x21, 0x00, 0x00,
    0x80, 0x00, 0x80, 0x00, 0x42, 0x6c, 0xb0, 0x58, 0xa7, 0x47, 0x2e, 0x9f,
];

/// Part 6 of 8 of the bytes of the profile that [`cmyk`] returns.
pub const CMYK_ICC_5: [u8; 524] = [
    0xa7, 0x6a, 0x9c, 0x78, 0x19, 0x9e, 0x9d, 0xf2, 0x8f, 0xfc, 0x07, 0x5b, 0x8c, 0xd6, 0x84, 0x98,
    0x00, 0x00, 0x80, 0x00, 0x80, 0x00, 0xe8, 0x83, 0x50, 0xc4, 0x71, 0xd8, 0xb3, 0x72, 0x5a, 0x3d,
    0x74, 0xab, 0x7a, 0xf0, 0x64, 0x62, 0x77, 0xb0, 0x3c, 0xf4, 0x6f, 0xb6, 0x7b, 0x0e, 0x00, 0x00,
    0x80, 0x00, 0x80, 0x00, 0xe5, 0x20, 0x44, 0x90, 0x90, 0x96, 0xb0, 0xc3, 0x50, 0x97, 0x8d, 0x01,
    0x79, 0x01, 0x5d, 0x7b, 0x89, 0x2a, 0x3b, 0xda, 0x6b, 0xdf, 0x84, 0xe7, 0x00, 0x00, 0x80, 0x00,
    0x80, 0x00, 0xe2, 0xe5, 0x3b, 0xd5, 0xae, 0x89, 0xae, 0xf9, 0x49, 0xa2, 0xa4, 0xc3, 0x77, 0xb1,
    0x58, 0x6d, 0x9a, 0x4a, 0x3b, 0x12, 0x68, 0xf4, 0x8e, 0xa2, 0x00, 0x00, 0x80, 0x00, 0x80, 0x00,
    0xe1, 0xb3, 0x36, 0xe6, 0xc7, 0x05, 0xad, 0xff, 0x45, 0x9f, 0xb8, 0x78, 0x76, 0xf2, 0x55, 0x66,
    0xa8, 0xda, 0x3a, 0x96, 0x67, 0x0c, 0x97, 0x59, 0x00, 0x00, 0x80, 0x00, 0x80, 0x00, 0xe1, 0x53,
    0x35, 0x50, 0xd1, 0xad, 0xad, 0xa9, 0x44, 0x37, 0xc1, 0xd8, 0x76, 0xa7, 0x54, 0x2b, 0xb0, 0xfd,
    0x3a, 0x50, 0x65, 0xef, 0x9d, 0xf7, 0x00, 0x00, 0x80, 0x00, 0x80, 0x00, 0xb9, 0x4a, 0x6c, 0x04,
    0x55, 0xc7, 0x8e, 0x1c, 0x6f, 0xd4, 0x5e, 0x7d, 0x60, 0x32, 0x73, 0xeb, 0x67, 0xd2, 0x2e, 0x00,
    0x78, 0x87, 0x72, 0x36, 0x00, 0x00, 0x80, 0x00, 0x80, 0x00, 0xb4, 0x4b, 0x5c, 0x64, 0x75, 0x34,
    0x8a, 0x2e, 0x63, 0x8f, 0x77, 0x5c, 0x5d, 0x68, 0x6b, 0x40, 0x79, 0xab, 0x2c, 0x7a, 0x73, 0xdd,
    0x7c, 0x40, 0x00, 0x00, 0x80, 0x00, 0x80, 0x00, 0xb0, 0xf2, 0x50, 0x78, 0x95, 0x9f, 0x87, 0x85,
    0x5a, 0x27, 0x91, 0x00, 0x5b, 0x7d, 0x64, 0x8a, 0x8c, 0x0d, 0x2b, 0x63, 0x70, 0x29, 0x86, 0x8f,
    0x00, 0x00, 0x80, 0x00, 0x80, 0x00, 0xaf, 0x21, 0x49, 0x67, 0xb3, 0x38, 0x86, 0x0d, 0x54, 0x78,
    0xa8, 0x9b, 0x5a, 0x63, 0x60, 0x58, 0x9d, 0x35, 0x2a, 0xb4, 0x6d, 0xa8, 0x90, 0x68, 0x00, 0x00,
    0x80, 0x00, 0x80, 0x00, 0xae, 0x8e, 0x47, 0x12, 0xc2, 0x4c, 0x85, 0x8c, 0x52, 0x6e, 0xb5, 0xb3,
    0x59, 0xf3, 0x5e, 0x98, 0xa8, 0x51, 0x2a, 0x50, 0x6c, 0x2a, 0x97, 0x18, 0x00, 0x00, 0x80, 0x00,
    0x80, 0x00, 0x8b, 0x36, 0x8d, 0x90, 0x39, 0x33, 0x69, 0xa8, 0x8a, 0x4a, 0x47, 0xe8, 0x46, 0x0f,
    0x86, 0xca, 0x57, 0xab, 0x1f, 0x5c, 0x82, 0xfd, 0x69, 0x39, 0x00, 0x00, 0x80, 0x00, 0x80, 0x00,
    0x83, 0x27, 0x7a, 0xc6, 0x57, 0xd6, 0x63, 0x65, 0x7b, 0x99, 0x60, 0x34, 0x41, 0xb8, 0x7c, 0x7f,
    0x69, 0x2b, 0x1d, 0x21, 0x7d, 0x94, 0x73, 0x26, 0x00, 0x00, 0x80, 0x00, 0x80, 0x00, 0x7d, 0x83,
    0x6a, 0xa8, 0x79, 0x50, 0x5e, 0xfc, 0x6f, 0x07, 0x7a, 0xaa, 0x3e, 0xa1, 0x73, 0xb8, 0x7c, 0x1d,
    0x1b, 0x7d, 0x78, 0xfa, 0x7d, 0xbe, 0x00, 0x00, 0x80, 0x00, 0x80, 0x00, 0x7a, 0x5e, 0x60, 0x12,
    0x9b, 0xdb, 0x5c, 0x7b, 0x66, 0xab, 0x95, 0xf8, 0x3c, 0xd0, 0x6d, 0xc0, 0x8f, 0xa9, 0x1a, 0x71,
    0x75, 0xad, 0x88, 0x29, 0x00, 0x00, 0x80, 0x00, 0x80, 0x00, 0x79, 0x5d, 0x5c, 0x5c, 0xb2, 0x5a,
    0x5b, 0x9d, 0x63, 0x7e, 0xa9, 0x27, 0x3c, 0x14, 0x6b, 0x20, 0x9e, 0xeb, 0x19, 0xd7, 0x73, 0xb7,
    0x8e, 0xb4, 0x00, 0x00, 0x80, 0x00, 0x80, 0x00, 0x64, 0x3e, 0xb1, 0xe6, 0x20, 0x3f, 0x4a, 0x82,
    0xa7, 0x1c, 0x33, 0xfd, 0x2f, 0x57, 0x9b, 0x83, 0x49, 0x2d, 0x12, 0x42, 0x8e, 0x74, 0x60, 0xee,
    0x00, 0x00, 0x80, 0x00, 0x80, 0x00, 0x56, 0x5f, 0xa0, 0x40, 0x3b, 0xaf, 0x3f, 0xe3, 0x99, 0x22,
    0x49, 0xea, 0x28, 0x2c, 0x91, 0x83, 0x59, 0x30, 0x0f, 0x41, 0x88, 0x44,
];

/// Part 7 of 8 of the bytes of the profile that [`cmyk`] returns.
pub const CMYK_ICC_6: [u8; 524] = [
    0x6a, 0x93, 0x00, 0x00, 0x80, 0x00, 0x80, 0x00, 0x4b, 0x7e, 0x8e, 0x5e, 0x5b, 0x38, 0x37, 0x96,
    0x8b, 0x29, 0x62, 0xff, 0x22, 0x9a, 0x87, 0xbe, 0x6b, 0x55, 0x0d, 0x29, 0x83, 0x25, 0x75, 0x51,
    0x00, 0x00, 0x80, 0x00, 0x80, 0x00, 0x44, 0xce, 0x80, 0x00, 0x7f, 0xfe, 0x32, 0x70, 0x80, 0x00,
    0x7f, 0xfe, 0x1f, 0x15, 0x80, 0x00, 0x7f, 0xfe, 0x0b, 0xe0, 0x80, 0x00, 0x7f, 0xff, 0x00, 0x00,
    0x80, 0x00, 0x80, 0x00, 0x42, 0x8c, 0x7a, 0x2a, 0xa2, 0x54, 0x30, 0x8e, 0x7b, 0x24, 0x9a, 0xad,
    0x1d, 0x99, 0x7c, 0x2c, 0x91, 0x01, 0x0b, 0x28, 0x7e, 0x3d, 0x86, 0x76, 0x00, 0x00, 0x80, 0x00,
    0x80, 0x00, 0x52, 0x39, 0xc5, 0xcb, 0x14, 0x7f, 0x3a, 0xd3, 0xb8, 0x58, 0x29, 0xc5, 0x21, 0xff,
    0xaa, 0x0a, 0x40, 0x80, 0x09, 0xbf, 0x95, 0xdb, 0x5b, 0x7f, 0x00, 0x00, 0x80, 0x00, 0x80, 0x00,
    0x3e, 0xd3, 0xb9, 0x57, 0x2c, 0x6f, 0x2b, 0xad, 0xae, 0x8d, 0x3c, 0xd8, 0x17, 0x67, 0xa3, 0x1c,
    0x4e, 0x5e, 0x06, 0xbd, 0x8e, 0xa4, 0x65, 0x48, 0x00, 0x00, 0x80, 0x00, 0x80, 0x00, 0x2c, 0xdf,
    0xad, 0x12, 0x47, 0xba, 0x1d, 0xbd, 0xa4, 0xf6, 0x52, 0x93, 0x0e, 0x75, 0x9b, 0x37, 0x5e, 0x9a,
    0x04, 0xa5, 0x89, 0x84, 0x70, 0x4c, 0x00, 0x00, 0x80, 0x00, 0x80, 0x00, 0x1f, 0x2c, 0xa2, 0xaa,
    0x69, 0x93, 0x13, 0x23, 0x9c, 0xcf, 0x6d, 0x5a, 0x09, 0x5c, 0x91, 0xbe, 0x73, 0x4b, 0x03, 0x5d,
    0x86, 0x60, 0x7b, 0x30, 0x00, 0x00, 0x80, 0x00, 0x80, 0x00, 0x19, 0x9e, 0x9d, 0xf2, 0x8f, 0xfc,
    0x0f, 0x0a, 0x97, 0xfe, 0x89, 0x65, 0x07, 0x5b, 0x8c, 0xd6, 0x84, 0x98, 0x02, 0xa4, 0x84, 0x9d,
    0x81, 0xa7, 0x00, 0x00, 0x80, 0x00, 0x80, 0x00, 0xe7, 0x32, 0x4d, 0x56, 0x71, 0x03, 0xb2, 0x47,
    0x57, 0x32, 0x73, 0xee, 0x79, 0xe7, 0x61, 0xb2, 0x77, 0x09, 0x3b, 0xfd, 0x6d, 0x3a, 0x7a, 0x72,
    0x00, 0x00, 0x80, 0x00, 0x80, 0x00, 0xe3, 0xc7, 0x40, 0xa8, 0x8f, 0xc2, 0xaf, 0x90, 0x4d, 0x21,
    0x8c, 0x45, 0x77, 0xf2, 0x5a, 0x70, 0x88, 0x83, 0x3a, 0xde, 0x69, 0x17, 0x84, 0x4c, 0x00, 0x00,
    0x80, 0x00, 0x80, 0x00, 0xe1, 0x86, 0x37, 0x8c, 0xad, 0xbc, 0xad, 0xc2, 0x45, 0xd7, 0xa4, 0x0d,
    0x76, 0x9d, 0x55, 0x18, 0x99, 0xa8, 0x3a, 0x12, 0x65, 0xec, 0x8e, 0x09, 0x00, 0x00, 0x80, 0x00,
    0x80, 0x00, 0xe0, 0x51, 0x32, 0x61, 0xc6, 0x47, 0xac, 0xc4, 0x41, 0x9f, 0xb7, 0xcf, 0x75, 0xdc,
    0x51, 0xe2, 0xa8, 0x43, 0x39, 0x93, 0x63, 0xd7, 0x96, 0xc9, 0x00, 0x00, 0x80, 0x00, 0x80, 0x00,
    0xdf, 0xf0, 0x30, 0xb7, 0xd0, 0xfa, 0xac, 0x6e, 0x40, 0x24, 0xc1, 0x39, 0x75, 0x8f, 0x50, 0x93,
    0xb0, 0x71, 0x39, 0x4c, 0x62, 0x9f, 0x9d, 0x6a, 0x00, 0x00, 0x80, 0x00, 0x80, 0x00, 0xb7, 0x5d,
    0x67, 0xd0, 0x54, 0x89, 0x8c, 0x69, 0x6c, 0x1d, 0x5d, 0x64, 0x5e, 0xb6, 0x70, 0xa9, 0x66, 0xdd,
    0x2c, 0xaa, 0x75, 0x95, 0x71, 0x5a, 0x00, 0x00, 0x80, 0x00, 0x80, 0x00, 0xb2, 0x47, 0x57, 0x32,
    0x73, 0xee, 0x88, 0x67, 0x5e, 0xfe, 0x76, 0x3c, 0x5b, 0xdc, 0x67, 0x4a, 0x78, 0xb1, 0x2b, 0x18,
    0x70, 0x60, 0x7b, 0x61, 0x00, 0x00, 0x80, 0x00, 0x80, 0x00, 0xae, 0xdd, 0x4a, 0x5e, 0x94, 0x5d,
    0x85, 0xb0, 0x54, 0xcf, 0x8f, 0xe4, 0x59, 0xe5, 0x5f, 0xef, 0x8b, 0x15, 0x29, 0xf7, 0x6c, 0x2b,
    0x85, 0xb1, 0x00, 0x00, 0x80, 0x00, 0x80, 0x00, 0xad, 0x03, 0x42, 0xb0, 0xb2, 0x0c, 0x84, 0x30,
    0x4e, 0x97, 0xa7, 0x91, 0x58, 0xc4, 0x5b, 0x48, 0x9c, 0x4b, 0x29, 0x42, 0x69, 0x49, 0x8f, 0x90,
    0x00, 0x00, 0x80, 0x00, 0x80, 0x00, 0xac, 0x6e, 0x40, 0x24, 0xc1, 0x39,
];

/// Part 8 of 8 of the bytes of the profile that [`cmyk`] returns.
pub const CMYK_ICC_7: [u8; 524] = [
    0x83, 0xac, 0x4c, 0x59, 0xb4, 0xc2, 0x58, 0x51, 0x59, 0x55, 0xa7, 0x7f, 0x28, 0xdb, 0x67, 0x8c,
    0x96, 0x3e, 0x00, 0x00, 0x80, 0x00, 0x80, 0x00, 0x88, 0x26, 0x88, 0xf5, 0x37, 0x31, 0x66, 0xfb,
    0x86, 0x35, 0x46, 0x27, 0x43, 0xc5, 0x83, 0x34, 0x56, 0x2b, 0x1d, 0x68, 0x7f, 0xbb, 0x67, 0xf2,
    0x00, 0x00, 0x80, 0x00, 0x80, 0x00, 0x7f, 0xc8, 0x74, 0x2e, 0x55, 0xa7, 0x60, 0x77, 0x75, 0xd6,
    0x5e, 0x4f, 0x3f, 0x3c, 0x77, 0x8e, 0x67, 0x8f, 0x1b, 0x0b, 0x79, 0x59, 0x71, 0xce, 0x00, 0x00,
    0x80, 0x00, 0x80, 0x00, 0x79, 0xe7, 0x61, 0xb2, 0x77, 0x09, 0x5b, 0xdc, 0x67, 0x4a, 0x78, 0xb1,
    0x3b, 0xfd, 0x6d, 0x3a, 0x7a, 0x72, 0x19, 0x4c, 0x73, 0xd8, 0x7c, 0x5c, 0x00, 0x00, 0x80, 0x00,
    0x80, 0x00, 0x76, 0x9d, 0x55, 0x18, 0x99, 0xa8, 0x59, 0x3b, 0x5d, 0x3f, 0x94, 0x0f, 0x3a, 0x12,
    0x65, 0xec, 0x8e, 0x09, 0x18, 0x2d, 0x70, 0x6d, 0x86, 0xc4, 0x00, 0x00, 0x80, 0x00, 0x80, 0x00,
    0x75, 0x8f, 0x50, 0x93, 0xb0, 0x71, 0x58, 0x51, 0x59, 0x55, 0xa7, 0x7f, 0x39, 0x4c, 0x62, 0x9f,
    0x9d, 0x6a, 0x17, 0x88, 0x6e, 0x89, 0x8d, 0x48, 0x00, 0x00, 0x80, 0x00, 0x80, 0x00, 0x5f, 0x27,
    0xae, 0x7a, 0x1c, 0xde, 0x46, 0x1b, 0xa3, 0xfb, 0x31, 0x11, 0x2b, 0xa4, 0x98, 0x9e, 0x46, 0xb9,
    0x0f, 0x9e, 0x8a, 0xef, 0x5f, 0x31, 0x00, 0x00, 0x80, 0x00, 0x80, 0x00, 0x50, 0x05, 0x9a, 0x2e,
    0x37, 0x7c, 0x3a, 0x78, 0x93, 0xb9, 0x46, 0x57, 0x23, 0xbb, 0x8c, 0xb8, 0x56, 0x42, 0x0c, 0x9c,
    0x83, 0xa8, 0x68, 0xdb, 0x00, 0x00, 0x80, 0x00, 0x80, 0x00, 0x43, 0xc5, 0x83, 0x34, 0x56, 0x2b,
    0x31, 0x18, 0x81, 0x8c, 0x5e, 0xc2, 0x1d, 0x68, 0x7f, 0xbb, 0x67, 0xf2, 0x0a, 0x84, 0x7e, 0x88,
    0x73, 0xa2, 0x00, 0x00, 0x80, 0x00, 0x80, 0x00, 0x3b, 0xfd, 0x6d, 0x3a, 0x7a, 0x72, 0x2b, 0x18,
    0x70, 0x60, 0x7b, 0x61, 0x19, 0x4c, 0x73, 0xd8, 0x7c, 0x5c, 0x09, 0x3c, 0x7b, 0x63, 0x7e, 0x59,
    0x00, 0x00, 0x80, 0x00, 0x80, 0x00, 0x39, 0x4c, 0x62, 0x9f, 0x9d, 0x6a, 0x28, 0xdb, 0x67, 0x8c,
    0x96, 0x3e, 0x17, 0x88, 0x6e, 0x89, 0x8d, 0x48, 0x08, 0x83, 0x79, 0xa0, 0x84, 0xd0, 0x00, 0x00,
    0x80, 0x00, 0x80, 0x00, 0x4b, 0x66, 0xc4, 0x4d, 0x0f, 0xf2, 0x34, 0xca, 0xb7, 0x03, 0x25, 0xbf,
    0x1c, 0xb5, 0xa8, 0xdb, 0x3c, 0xf9, 0x07, 0x1b, 0x91, 0x63, 0x59, 0xc2, 0x00, 0x00, 0x80, 0x00,
    0x80, 0x00, 0x34, 0xca, 0xb7, 0x03, 0x25, 0xbf, 0x22, 0xe7, 0xac, 0x7f, 0x37, 0x00, 0x10, 0x33,
    0xa0, 0xc2, 0x49, 0x92, 0x04, 0x19, 0x8a, 0x07, 0x63, 0x90, 0x00, 0x00, 0x80, 0x00, 0x80, 0x00,
    0x1c, 0xb5, 0xa8, 0xdb, 0x3c, 0xf9, 0x10, 0x33, 0xa0, 0xc2, 0x49, 0x92, 0x07, 0x1b, 0x91, 0x63,
    0x59, 0xc2, 0x02, 0x01, 0x84, 0xe7, 0x6e, 0x9f, 0x00, 0x00, 0x80, 0x00, 0x80, 0x00, 0x07, 0x1b,
    0x91, 0x63, 0x59, 0xc2, 0x04, 0x19, 0x8a, 0x07, 0x63, 0x90, 0x02, 0x01, 0x84, 0xe7, 0x6e, 0x9f,
    0x00, 0xb8, 0x81, 0xc3, 0x79, 0x89, 0x00, 0x00, 0x80, 0x00, 0x80, 0x00, 0x00, 0x00, 0x80, 0x00,
    0x80, 0x00, 0x00, 0x00, 0x80, 0x00, 0x80, 0x00, 0x00, 0x00, 0x80, 0x00, 0x80, 0x00, 0x00, 0x00,
    0x80, 0x00, 0x80, 0x00, 0x00, 0x00, 0x80, 0x00, 0x80, 0x00, 0x00, 0x00, 0xff, 0xff, 0x00, 0x00,
    0xff, 0xff, 0x00, 0x00, 0xff, 0xff, 0x00, 0x00, 0x74, 0x65, 0x78, 0x74, 0x00, 0x00, 0x00, 0x00,
    0x4e, 0x6f, 0x20, 0x63, 0x6f, 0x70, 0x79, 0x72, 0x69, 0x67, 0x68, 0x74, 0x2c, 0x20, 0x75, 0x73,
    0x65, 0x20, 0x66, 0x72, 0x65, 0x65, 0x6c, 0x79, 0x00, 0x00, 0x00, 0x00,
];

/// The bytes of the profile that [`cmyk`] returns: its parts in order, kept from the
/// solver until revealed.
#[verifier::opaque]
pub open spec fn cmyk_icc() -> Seq<u8> {
    CMYK_ICC_0@ + CMYK_ICC_1@ + CMYK_ICC_2@ + CMYK_ICC_3@ + CMYK_ICC_4@ + CMYK_ICC_5@ + CMYK_ICC_6@ + CMYK_ICC_7@
}

/// ICC profile assumed for CMYK pixels that carry no usable profile of their own:
/// inks mixed by the plain subtractive formula, rendered into sRGB.
pub fn cmyk() -> (icc: Vec<u8>)
    ensures
        icc@ == cmyk_icc(),
{
    reveal(cmyk_icc);
    let mut icc = vstd::slice::slice_to_vec(CMYK_ICC_0.as_slice());
    let mut part = vstd::slice::slice_to_vec(CMYK_ICC_1.as_slice());
    icc.append(&mut part);
    let mut part = vstd::slice::slice_to_vec(CMYK_ICC_2.as_slice());
    icc.append(&mut part);
    let mut part = vstd::slice::slice_to_vec(CMYK_ICC_3.as_slice());
    icc.append(&mut part);
    let mut part = vstd::slice::slice_to_vec(CMYK_ICC_4.as_slice());
    icc.append(&mut part);
    let mut part = vstd::slice::slice_to_vec(CMYK_ICC_5.as_slice());
    icc.append(&mut part);
    let mut part = vstd::slice::slice_to_vec(CMYK_ICC_6.as_slice());
    icc.append(&mut part);
    let mut part = vstd::slice::slice_to_vec(CMYK_ICC_7.as_slice());
    icc.append(&mut part);
    icc
}

/// ICC profile of the Adobe RGB (1998) space, assumed for JPEG files whose EXIF
/// primaries are those of Adobe RGB (1998) and that embed no profile.
pub const ADOBE1998_ICC: [u8; 524] = [
    0x00, 0x00, 0x02, 0x0c, 0x00, 0x00, 0x00, 0x00, 0x02, 0x10, 0x00, 0x00, 0x6d, 0x6e, 0x74, 0x72,
    0x52, 0x47, 0x42, 0x20, 0x58, 0x59, 0x5a, 0x20, 0x07, 0xe8, 0x00, 0x01, 0x00, 0x01, 0x00, 0x00,
    0x00, 0x00, 0x00, 0x00, 0x61, 0x63, 0x73, 0x70, 0x00, 0x00, 0x00, 0x00, 0x00, 0x00, 0x00, 0x00,
    0x00, 0x00, 0x00, 0x00, 0x00, 0x00, 0x00, 0x00, 0x00, 0x00, 0x00, 0x00, 0x00, 0x00, 0x00, 0x00,
    0x00, 0x00, 0x00, 0x00, 0x00, 0x00, 0xf6, 0xd6, 0x00, 0x01, 0x00, 0x00, 0x00, 0x00, 0xd3, 0x2d,
    0x00, 0x00, 0x00, 0x00, 0x00, 0x00, 0x00, 0x00, 0x00, 0x00, 0x00, 0x00, 0x00, 0x00, 0x00, 0x00,
    0x00, 0x00, 0x00, 0x00, 0x00, 0x00, 0x00, 0x00, 0x00, 0x00, 0x00, 0x00, 0x00, 0x00, 0x00, 0x00,
    0x00, 0x00, 0x00, 0x00, 0x00, 0x00, 0x00, 0x00, 0x00, 0x00, 0x00, 0x00, 0x00, 0x00, 0x00, 0x00,
    0x00, 0x00, 0x00, 0x09, 0x64, 0x65, 0x73, 0x63, 0x00, 0x00, 0x00, 0xf0, 0x00, 0x00, 0x00, 0x76,
    0x77, 0x74, 0x70, 0x74, 0x00, 0x00, 0x01, 0x68, 0x00, 0x00, 0x00, 0x14, 0x72, 0x58, 0x59, 0x5a,
    0x00, 0x00, 0x01, 0x7c, 0x00, 0x00, 0x00, 0x14, 0x67, 0x58, 0x59, 0x5a, 0x00, 0x00, 0x01, 0x90,
    0x00, 0x00, 0x00, 0x14, 0x62, 0x58, 0x59, 0x5a, 0x00, 0x00, 0x01, 0xa4, 0x00, 0x00, 0x00, 0x14,
    0x72, 0x54, 0x52, 0x43, 0x00, 0x00, 0x01, 0xb8, 0x00, 0x00, 0x00, 0x0e, 0x67, 0x54, 0x52, 0x43,
    0x00, 0x00, 0x01, 0xc8, 0x00, 0x00, 0x00, 0x0e, 0x62, 0x54, 0x52, 0x43, 0x00, 0x00, 0x01, 0xd8,
    0x00, 0x00, 0x00, 0x0e, 0x63, 0x70, 0x72, 0x74, 0x00, 0x00, 0x01, 0xe8, 0x00, 0x00, 0x00, 0x21,
    0x64, 0x65, 0x73, 0x63, 0x00, 0x00, 0x00, 0x00, 0x00, 0x00, 0x00, 0x1c, 0x41, 0x64, 0x6f, 0x62,
    0x65, 0x20, 0x52, 0x47, 0x42, 0x20, 0x28, 0x31, 0x39, 0x39, 0x38, 0x29, 0x20, 0x63, 0x6f, 0x6d,
    0x70, 0x61, 0x74, 0x69, 0x62, 0x6c, 0x65, 0x00, 0x00, 0x00, 0x00, 0x00, 0x00, 0x00, 0x00, 0x00,
    0x00, 0x00, 0x00, 0x00, 0x00, 0x00, 0x00, 0x00, 0x00, 0x00, 0x00, 0x00, 0x00, 0x00, 0x00, 0x00,
    0x00, 0x00, 0x00, 0x00, 0x00, 0x00, 0x00, 0x00, 0x00, 0x00, 0x00, 0x00, 0x00, 0x00, 0x00, 0x00,
    0x00, 0x00, 0x00, 0x00, 0x00, 0x00, 0x00, 0x00, 0x00, 0x00, 0x00, 0x00, 0x00, 0x00, 0x00, 0x00,
    0x00, 0x00, 0x00, 0x00, 0x00, 0x00, 0x00, 0x00, 0x00, 0x00, 0x00, 0x00, 0x00, 0x00, 0x00, 0x00,
    0x00, 0x00, 0x00, 0x00, 0x00, 0x00, 0x00, 0x00, 0x58, 0x59, 0x5a, 0x20, 0x00, 0x00, 0x00, 0x00,
    0x00, 0x00, 0xf6, 0xd6, 0x00, 0x01, 0x00, 0x00, 0x00, 0x00, 0xd3, 0x2d, 0x58, 0x59, 0x5a, 0x20,
    0x00, 0x00, 0x00, 0x00, 0x00, 0x00, 0x9c, 0x18, 0x00, 0x00, 0x4f, 0xa5, 0x00, 0x00, 0x04, 0xfc,
    0x58, 0x59, 0x5a, 0x20, 0x00, 0x00, 0x00, 0x00, 0x00, 0x00, 0x34, 0x8d, 0x00, 0x00, 0xa0, 0x2c,
    0x00, 0x00, 0x0f, 0x95, 0x58, 0x59, 0x5a, 0x20, 0x00, 0x00, 0x00, 0x00, 0x00, 0x00, 0x26, 0x31,
    0x00, 0x00, 0x10, 0x2f, 0x00, 0x00, 0xbe, 0x9c, 0x63, 0x75, 0x72, 0x76, 0x00, 0x00, 0x00, 0x00,
    0x00, 0x00, 0x00, 0x01, 0x02, 0x33, 0x00, 0x00, 0x63, 0x75, 0x72, 0x76, 0x00, 0x00, 0x00, 0x00,
    0x00, 0x00, 0x00, 0x01, 0x02, 0x33, 0x00, 0x00, 0x63, 0x75, 0x72, 0x76, 0x00, 0x00, 0x00, 0x00,
    0x00, 0x00, 0x00, 0x01, 0x02, 0x33, 0x00, 0x00, 0x74, 0x65, 0x78, 0x74, 0x00, 0x00, 0x00, 0x00,
    0x4e, 0x6f, 0x20, 0x63, 0x6f, 0x70, 0x79, 0x72, 0x69, 0x67, 0x68, 0x74, 0x2c, 0x20, 0x75, 0x73,
    0x65, 0x20, 0x66, 0x72, 0x65, 0x65, 0x6c, 0x79, 0x00, 0x00, 0x00, 0x00,
];

/// The bytes of [`ADOBE1998_ICC`], kept from the solver until revealed.
#[verifier::opaque]
pub open spec fn adobe1998_icc() -> Seq<u8> {
    ADOBE1998_ICC@
}

/// ICC profile of the Adobe RGB (1998) space, assumed for JPEG files whose EXIF
/// primaries are those of Adobe RGB (1998) and that embed no profile.
pub fn adobe1998() -> (icc: Vec<u8>)
    ensures
        icc@ == adobe1998_icc(),
{
    reveal(adobe1998_icc);
    vstd::slice::slice_to_vec(ADOBE1998_ICC.as_slice())
}

} // verus!
