use vstd::prelude::*;

use crate::pixel::{GrayAlpha, RGBA};

verus! {

/// Pixels with an alpha channel.
pub trait HasAlphaChannel: Sized {
    /// True when the pixel's alpha is the largest value of its channel type.
    spec fn fully_opaque(self) -> bool;

    fn is_fully_opaque(&self) -> (r: bool)
        ensures
            r == self.fully_opaque(),
    ;
}

impl HasAlphaChannel for RGBA<u8> {
    open spec fn fully_opaque(self) -> bool {
        self.a == 255
    }

    fn is_fully_opaque(&self) -> (r: bool) {
        self.a == 255
    }
}

impl HasAlphaChannel for RGBA<u16> {
    open spec fn fully_opaque(self) -> bool {
        self.a == 65535
    }

    fn is_fully_opaque(&self) -> (r: bool) {
        self.a == 65535
    }
}

impl HasAlphaChannel for GrayAlpha<u8> {
    open spec fn fully_opaque(self) -> bool {
        self.1 == 255
    }

    fn is_fully_opaque(&self) -> (r: bool) {
        self.1 == 255
    }
}

impl HasAlphaChannel for GrayAlpha<u16> {
    open spec fn fully_opaque(self) -> bool {
        self.1 == 65535
    }

    fn is_fully_opaque(&self) -> (r: bool) {
        self.1 == 65535
    }
}

/// True of pixels that are all fully opaque.
pub open spec fn all_opaque<T: HasAlphaChannel>(s: Seq<T>) -> bool {
    forall|i: int| 0 <= i < s.len() ==> (#[trigger] s[i]).fully_opaque()
}

/// True if no pixel has an alpha below the maximum of its channel type.
pub fn is_opaque<T: HasAlphaChannel>(bitmap: &[T]) -> (r: bool)
    ensures
        r == all_opaque(bitmap@),
{
    let mut i: usize = 0;
    while i < bitmap.len()
        invariant
            i <= bitmap.len(),
            forall|j: int| 0 <= j < i ==> (#[trigger] bitmap@[j]).fully_opaque(),
        decreases bitmap.len() - i,
    {
        if !bitmap[i].is_fully_opaque() {
            return false;
        }
        i = i + 1;
    }
    true
}

} // verus!
