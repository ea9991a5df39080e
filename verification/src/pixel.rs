use vstd::prelude::*;

verus! {

/// A pixel of three colour channels, red, green and blue.
#[derive(Clone, Copy, Debug, PartialEq, Eq, Structural)]
pub struct RGB<T> {
    pub r: T,
    pub g: T,
    pub b: T,
}

/// A pixel of three colour channels and an alpha channel.
#[derive(Clone, Copy, Debug, PartialEq, Eq, Structural)]
pub struct RGBA<T> {
    pub r: T,
    pub g: T,
    pub b: T,
    pub a: T,
}

/// A grayscale pixel.
#[derive(Clone, Copy, Debug, PartialEq, Eq, Structural)]
pub struct Gray<T>(pub T);

/// A grayscale pixel with an alpha channel: `.0` is the value, `.1` the alpha.
#[derive(Clone, Copy, Debug, PartialEq, Eq, Structural)]
pub struct GrayAlpha<T>(pub T, pub T);

/// A pixel of four ink channels: cyan, magenta, yellow and black.
#[derive(Clone, Copy, Debug, PartialEq, Eq, Structural)]
pub struct CMYK {
    pub c: u8,
    pub m: u8,
    pub y: u8,
    pub k: u8,
}

pub type RGB8 = RGB<u8>;
pub type RGBA8 = RGBA<u8>;
pub type RGB16 = RGB<u16>;
pub type RGBA16 = RGBA<u16>;
pub type GRAY8 = Gray<u8>;
pub type GRAY16 = Gray<u16>;
pub type GRAYA8 = GrayAlpha<u8>;
pub type GRAYA16 = GrayAlpha<u16>;

impl<T> RGB<T> {
    pub fn new(r: T, g: T, b: T) -> (px: Self)
        ensures
            px == (RGB { r, g, b }),
    {
        RGB { r, g, b }
    }
}

impl<T> RGBA<T> {
    pub fn new(r: T, g: T, b: T, a: T) -> (px: Self)
        ensures
            px == (RGBA { r, g, b, a }),
    {
        RGBA { r, g, b, a }
    }
}

} // verus!

verus! {

/// The 8-bit channel that keeps the high byte of a 16-bit channel.
pub open spec fn high_byte(c: u16) -> u8 {
    (c / 256) as u8
}

/// The 16-bit channel of the same intensity as an 8-bit channel (`c * 257`).
pub open spec fn widen(c: u8) -> u16 {
    (c * 257) as u16
}

/// Widening an 8-bit channel to 16 bits and keeping the high byte gives the channel back.
pub proof fn lemma_high_byte_of_widened(c: u8)
    ensures
        high_byte(widen(c)) == c,
{
    assert((c as int) * 257 / 256 == c as int) by (nonlinear_arith)
        requires
            0 <= c < 256,
    ;
}

pub fn high_byte_exec(c: u16) -> (r: u8)
    ensures
        r == high_byte(c),
{
    assert((c >> 8u16) == c / 256) by (bit_vector);
    (c >> 8) as u8
}

pub fn widen_exec(c: u8) -> (r: u16)
    ensures
        r == widen(c),
{
    (c as u16) * 257
}

/// Pixels that convert to 8-bit RGBA, as [`crate::Image::into_rgba`] converts them.
pub trait IntoRgba8: Copy {
    /// The RGBA pixel that this pixel becomes.
    spec fn rgba8_of(self) -> RGBA8;

    fn into_rgba8(self) -> (px: RGBA8)
        ensures
            px == self.rgba8_of(),
    ;
}

impl IntoRgba8 for RGB<u8> {
    open spec fn rgba8_of(self) -> RGBA8 {
        RGBA { r: self.r, g: self.g, b: self.b, a: 255 }
    }

    fn into_rgba8(self) -> (px: RGBA8) {
        RGBA { r: self.r, g: self.g, b: self.b, a: 255 }
    }
}

/// 8-bit RGBA pixels are already in the target format and stay as they are, alpha included.
impl IntoRgba8 for RGBA<u8> {
    open spec fn rgba8_of(self) -> RGBA8 {
        self
    }

    fn into_rgba8(self) -> (px: RGBA8) {
        self
    }
}

impl IntoRgba8 for RGB<u16> {
    open spec fn rgba8_of(self) -> RGBA8 {
        RGBA { r: high_byte(self.r), g: high_byte(self.g), b: high_byte(self.b), a: 255 }
    }

    fn into_rgba8(self) -> (px: RGBA8) {
        RGBA { r: high_byte_exec(self.r), g: high_byte_exec(self.g), b: high_byte_exec(self.b), a: 255 }
    }
}

impl IntoRgba8 for RGBA<u16> {
    open spec fn rgba8_of(self) -> RGBA8 {
        RGBA { r: high_byte(self.r), g: high_byte(self.g), b: high_byte(self.b), a: high_byte(self.a) }
    }

    fn into_rgba8(self) -> (px: RGBA8) {
        RGBA {
            r: high_byte_exec(self.r),
            g: high_byte_exec(self.g),
            b: high_byte_exec(self.b),
            a: high_byte_exec(self.a),
        }
    }
}

impl IntoRgba8 for Gray<u8> {
    open spec fn rgba8_of(self) -> RGBA8 {
        RGBA { r: self.0, g: self.0, b: self.0, a: 255 }
    }

    fn into_rgba8(self) -> (px: RGBA8) {
        RGBA { r: self.0, g: self.0, b: self.0, a: 255 }
    }
}

impl IntoRgba8 for Gray<u16> {
    open spec fn rgba8_of(self) -> RGBA8 {
        RGBA { r: high_byte(self.0), g: high_byte(self.0), b: high_byte(self.0), a: 255 }
    }

    fn into_rgba8(self) -> (px: RGBA8) {
        let g = high_byte_exec(self.0);
        RGBA { r: g, g: g, b: g, a: 255 }
    }
}

impl IntoRgba8 for GrayAlpha<u8> {
    open spec fn rgba8_of(self) -> RGBA8 {
        RGBA { r: self.0, g: self.0, b: self.0, a: self.1 }
    }

    fn into_rgba8(self) -> (px: RGBA8) {
        RGBA { r: self.0, g: self.0, b: self.0, a: self.1 }
    }
}

impl IntoRgba8 for GrayAlpha<u16> {
    open spec fn rgba8_of(self) -> RGBA8 {
        RGBA { r: high_byte(self.0), g: high_byte(self.0), b: high_byte(self.0), a: high_byte(self.1) }
    }

    fn into_rgba8(self) -> (px: RGBA8) {
        let g = high_byte_exec(self.0);
        RGBA { r: g, g: g, b: g, a: high_byte_exec(self.1) }
    }
}

/// Converts every pixel to 8-bit RGBA.
pub fn pixels_into_rgba8<P: IntoRgba8>(v: &Vec<P>) -> (out: Vec<RGBA8>)
    ensures
        out@ == v@.map_values(|p: P| p.rgba8_of()),
{
    let mut out: Vec<RGBA8> = Vec::new();
    let mut i: usize = 0;
    while i < v.len()
        invariant
            i <= v.len(),
            out@ == v@.take(i as int).map_values(|p: P| p.rgba8_of()),
        decreases v.len() - i,
    {
        let px = v[i].into_rgba8();
        out.push(px);
        i = i + 1;
        assert(out@ =~= v@.take(i as int).map_values(|p: P| p.rgba8_of()));
    }
    assert(v@.take(i as int) =~= v@);
    out
}

} // verus!
