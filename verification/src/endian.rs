use vstd::prelude::*;

use crate::pixel::{Gray, GrayAlpha, CMYK, RGB, RGBA};

verus! {

/// The value of a 16-bit sample stored big-endian as the bytes `hi`, `lo`.
pub open spec fn be16(hi: u8, lo: u8) -> u16 {
    (hi * 256 + lo) as u16
}

fn be16_exec(hi: u8, lo: u8) -> (r: u16)
    ensures
        r == be16(hi, lo),
{
    (hi as u16) * 256 + (lo as u16)
}

/// Pixels decoded from their stored bytes: 8-bit channels byte by byte, 16-bit channels
/// big-endian (the byte order of PNG), into native values.
pub trait NativeEndian: Sized {
    /// Number of bytes that one stored pixel takes.
    spec fn stored_size() -> nat;

    /// The pixel whose channels are stored at `bytes[at..at + stored_size()]`.
    spec fn decode_at(bytes: Seq<u8>, at: int) -> Self;

    fn stored_size_exec() -> (n: usize)
        ensures
            n == Self::stored_size(),
            n > 0,
    ;

    /// Decodes the pixel at byte offset `at`.
    fn decode_one(bytes: &[u8], at: usize) -> (px: Self)
        requires
            at + Self::stored_size() <= bytes.len(),
        ensures
            px == Self::decode_at(bytes@, at as int),
    ;

    /// All whole pixels stored in `bytes`, in order; trailing bytes that do not make a
    /// whole pixel are ignored.
    fn to_native(bytes: &[u8]) -> (v: Vec<Self>)
        ensures
            v@.len() == bytes@.len() / Self::stored_size(),
            forall|j: int| 0 <= j < v@.len() ==> #[trigger] v@[j] == Self::decode_at(bytes@, j * Self::stored_size()),
    {
        let n = Self::stored_size_exec();
        let count = bytes.len() / n;
        let mut v: Vec<Self> = Vec::new();
        let mut i: usize = 0;
        while i < count
            invariant
                n == Self::stored_size(),
                n > 0,
                count == (bytes.len() as int) / (n as int),
                i <= count,
                v.len() == i,
                forall|j: int| 0 <= j < i ==> #[trigger] v@[j] == Self::decode_at(bytes@, j * n),
            decreases count - i,
        {
            proof {
                assert((i + 1) * n <= bytes.len()) by (nonlinear_arith)
                    requires
                        i < count,
                        count == (bytes.len() as int) / (n as int),
                        n > 0,
                ;
                assert(i * n + n == (i + 1) * n) by (nonlinear_arith);
            }
            let px = Self::decode_one(bytes, i * n);
            v.push(px);
            i = i + 1;
        }
        v
    }
}

/// The whole pixels stored in `bytes`, as [`NativeEndian::to_native`] decodes them.
pub open spec fn stored_pixels<P: NativeEndian>(bytes: Seq<u8>) -> Seq<P> {
    Seq::new(bytes.len() / P::stored_size(), |j: int| P::decode_at(bytes, j * P::stored_size()))
}

impl NativeEndian for RGB<u8> {
    open spec fn stored_size() -> nat {
        3
    }

    open spec fn decode_at(b: Seq<u8>, at: int) -> Self {
        RGB { r: b[at], g: b[at + 1], b: b[at + 2] }
    }

    fn stored_size_exec() -> (n: usize) {
        3
    }

    fn decode_one(b: &[u8], at: usize) -> (px: Self) {
        RGB { r: b[at], g: b[at + 1], b: b[at + 2] }
    }
}

impl NativeEndian for RGBA<u8> {
    open spec fn stored_size() -> nat {
        4
    }

    open spec fn decode_at(b: Seq<u8>, at: int) -> Self {
        RGBA { r: b[at], g: b[at + 1], b: b[at + 2], a: b[at + 3] }
    }

    fn stored_size_exec() -> (n: usize) {
        4
    }

    fn decode_one(b: &[u8], at: usize) -> (px: Self) {
        RGBA { r: b[at], g: b[at + 1], b: b[at + 2], a: b[at + 3] }
    }
}

impl NativeEndian for Gray<u8> {
    open spec fn stored_size() -> nat {
        1
    }

    open spec fn decode_at(b: Seq<u8>, at: int) -> Self {
        Gray(b[at])
    }

    fn stored_size_exec() -> (n: usize) {
        1
    }

    fn decode_one(b: &[u8], at: usize) -> (px: Self) {
        Gray(b[at])
    }
}

impl NativeEndian for GrayAlpha<u8> {
    open spec fn stored_size() -> nat {
        2
    }

    open spec fn decode_at(b: Seq<u8>, at: int) -> Self {
        GrayAlpha(b[at], b[at + 1])
    }

    fn stored_size_exec() -> (n: usize) {
        2
    }

    fn decode_one(b: &[u8], at: usize) -> (px: Self) {
        GrayAlpha(b[at], b[at + 1])
    }
}

impl NativeEndian for CMYK {
    open spec fn stored_size() -> nat {
        4
    }

    open spec fn decode_at(b: Seq<u8>, at: int) -> Self {
        CMYK { c: b[at], m: b[at + 1], y: b[at + 2], k: b[at + 3] }
    }

    fn stored_size_exec() -> (n: usize) {
        4
    }

    fn decode_one(b: &[u8], at: usize) -> (px: Self) {
        CMYK { c: b[at], m: b[at + 1], y: b[at + 2], k: b[at + 3] }
    }
}

impl NativeEndian for RGB<u16> {
    open spec fn stored_size() -> nat {
        6
    }

    open spec fn decode_at(b: Seq<u8>, at: int) -> Self {
        RGB { r: be16(b[at], b[at + 1]), g: be16(b[at + 2], b[at + 3]), b: be16(b[at + 4], b[at + 5]) }
    }

    fn stored_size_exec() -> (n: usize) {
        6
    }

    fn decode_one(b: &[u8], at: usize) -> (px: Self) {
        RGB {
            r: be16_exec(b[at], b[at + 1]),
            g: be16_exec(b[at + 2], b[at + 3]),
            b: be16_exec(b[at + 4], b[at + 5]),
        }
    }
}

impl NativeEndian for RGBA<u16> {
    open spec fn stored_size() -> nat {
        8
    }

    open spec fn decode_at(b: Seq<u8>, at: int) -> Self {
        RGBA {
            r: be16(b[at], b[at + 1]),
            g: be16(b[at + 2], b[at + 3]),
            b: be16(b[at + 4], b[at + 5]),
            a: be16(b[at + 6], b[at + 7]),
        }
    }

    fn stored_size_exec() -> (n: usize) {
        8
    }

    fn decode_one(b: &[u8], at: usize) -> (px: Self) {
        RGBA {
            r: be16_exec(b[at], b[at + 1]),
            g: be16_exec(b[at + 2], b[at + 3]),
            b: be16_exec(b[at + 4], b[at + 5]),
            a: be16_exec(b[at + 6], b[at + 7]),
        }
    }
}

impl NativeEndian for GrayAlpha<u16> {
    open spec fn stored_size() -> nat {
        4
    }

    open spec fn decode_at(b: Seq<u8>, at: int) -> Self {
        GrayAlpha(be16(b[at], b[at + 1]), be16(b[at + 2], b[at + 3]))
    }

    fn stored_size_exec() -> (n: usize) {
        4
    }

    fn decode_one(b: &[u8], at: usize) -> (px: Self) {
        GrayAlpha(be16_exec(b[at], b[at + 1]), be16_exec(b[at + 2], b[at + 3]))
    }
}

impl NativeEndian for Gray<u16> {
    open spec fn stored_size() -> nat {
        2
    }

    open spec fn decode_at(b: Seq<u8>, at: int) -> Self {
        Gray(be16(b[at], b[at + 1]))
    }

    fn stored_size_exec() -> (n: usize) {
        2
    }

    fn decode_one(b: &[u8], at: usize) -> (px: Self) {
        Gray(be16_exec(b[at], b[at + 1]))
    }
}

/// 16-bit samples decoded from stored bytes are big-endian, the byte order of PNG: the
/// sample stored as the bytes `hi`, `lo` is `hi * 256 + lo`, for every 16-bit pixel type.
pub proof fn law_16bit_samples_big_endian(bytes: Seq<u8>, j: int)
    ensures
        0 <= j < bytes.len() / 2 ==> stored_pixels::<Gray<u16>>(bytes)[j].0 == bytes[2 * j] * 256 + bytes[2 * j + 1],
        0 <= j < bytes.len() / 4 ==> {
            let p = stored_pixels::<GrayAlpha<u16>>(bytes)[j];
            &&& p.0 == bytes[4 * j] * 256 + bytes[4 * j + 1]
            &&& p.1 == bytes[4 * j + 2] * 256 + bytes[4 * j + 3]
        },
        0 <= j < bytes.len() / 6 ==> {
            let p = stored_pixels::<RGB<u16>>(bytes)[j];
            &&& p.r == bytes[6 * j] * 256 + bytes[6 * j + 1]
            &&& p.g == bytes[6 * j + 2] * 256 + bytes[6 * j + 3]
            &&& p.b == bytes[6 * j + 4] * 256 + bytes[6 * j + 5]
        },
        0 <= j < bytes.len() / 8 ==> {
            let p = stored_pixels::<RGBA<u16>>(bytes)[j];
            &&& p.r == bytes[8 * j] * 256 + bytes[8 * j + 1]
            &&& p.g == bytes[8 * j + 2] * 256 + bytes[8 * j + 3]
            &&& p.b == bytes[8 * j + 4] * 256 + bytes[8 * j + 5]
            &&& p.a == bytes[8 * j + 6] * 256 + bytes[8 * j + 7]
        },
{
    assert forall|hi: u8, lo: u8| #[trigger] be16(hi, lo) == hi * 256 + lo by {
        assert(hi * 256 + lo <= 65535);
    }
}

/// Whether `x` is the 16-bit value stored as the bytes `b0`, `b1` in the machine's byte
/// order. That order depends on the machine, so either of the two is admitted.
pub open spec fn ne_u16(b0: u8, b1: u8, x: u16) -> bool {
    x == b0 as int + b1 as int * 256 || x == b1 as int + b0 as int * 256
}

/// The two bytes of `x` in the machine's byte order, `u16::to_ne_bytes`; which order that
/// is depends on the machine, so only that it is one of the two is stated.
#[verifier::external_body]
pub(crate) fn u16_to_ne_bytes(x: u16) -> (b: [u8; 2])
    ensures
        x == b[0] as int + b[1] as int * 256 || x == b[1] as int + b[0] as int * 256,
{
    x.to_ne_bytes()
}

/// The `u16` whose bytes in the machine's byte order are `b`, `u16::from_ne_bytes`; which
/// order that is depends on the machine, so only that it is one of the two is stated.
#[verifier::external_body]
pub(crate) fn u16_from_ne_bytes(b: [u8; 2]) -> (x: u16)
    ensures
        x == b[0] as int + b[1] as int * 256 || x == b[1] as int + b[0] as int * 256,
{
    u16::from_ne_bytes(b)
}

} // verus!
