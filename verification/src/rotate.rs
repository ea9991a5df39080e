use vstd::prelude::*;

verus! {

/// A change of orientation: a rotation clockwise by a multiple of 90°,
/// with or without a horizontal mirror.
#[derive(Clone, Copy, Debug, PartialEq, Eq, Structural)]
pub enum Rotate {
    D0,
    FlipX,
    D90,
    D90FlipX,
    D180,
    D180FlipX,
    D270,
    D270FlipX,
}

/// The rotation that displays an image stored with the given EXIF orientation tag upright.
pub open spec fn exif_rotation(orientation: u16) -> Rotate {
    if orientation == 2 {
        Rotate::FlipX
    } else if orientation == 3 {
        Rotate::D180
    } else if orientation == 4 {
        Rotate::D180FlipX
    } else if orientation == 5 {
        Rotate::D270FlipX
    } else if orientation == 6 {
        Rotate::D270
    } else if orientation == 7 {
        Rotate::D90FlipX
    } else if orientation == 8 {
        Rotate::D90
    } else {
        Rotate::D0
    }
}

/// True of the rotations that exchange rows and columns.
pub open spec fn swaps_axes(r: Rotate) -> bool {
    r == Rotate::D90 || r == Rotate::D90FlipX || r == Rotate::D270 || r == Rotate::D270FlipX
}

/// Width of a `w`×`h` image after the rotation.
pub open spec fn rotated_width(r: Rotate, w: int, h: int) -> int {
    if swaps_axes(r) { h } else { w }
}

/// Height of a `w`×`h` image after the rotation.
pub open spec fn rotated_height(r: Rotate, w: int, h: int) -> int {
    if swaps_axes(r) { w } else { h }
}

/// Column of the source pixel that lands at column `x`, row `y` of the rotated image.
pub open spec fn source_x(r: Rotate, w: int, h: int, x: int, y: int) -> int {
    match r {
        Rotate::D0 => x,
        Rotate::FlipX => w - 1 - x,
        Rotate::D90 => w - 1 - y,
        Rotate::D90FlipX => w - 1 - y,
        Rotate::D180 => w - 1 - x,
        Rotate::D180FlipX => x,
        Rotate::D270 => y,
        Rotate::D270FlipX => y,
    }
}

/// Row of the source pixel that lands at column `x`, row `y` of the rotated image.
pub open spec fn source_y(r: Rotate, w: int, h: int, x: int, y: int) -> int {
    match r {
        Rotate::D0 => y,
        Rotate::FlipX => y,
        Rotate::D90 => x,
        Rotate::D90FlipX => h - 1 - x,
        Rotate::D180 => h - 1 - y,
        Rotate::D180FlipX => h - 1 - y,
        Rotate::D270 => h - 1 - x,
        Rotate::D270FlipX => x,
    }
}

/// Index in the row-major source buffer (`w` pixels per row) of the pixel that lands at
/// index `k` of the row-major rotated buffer.
pub open spec fn source_index(r: Rotate, w: int, h: int, k: int) -> int {
    let ow = rotated_width(r, w, h);
    source_y(r, w, h, k % ow, k / ow) * w + source_x(r, w, h, k % ow, k / ow)
}

/// The pixels of a row-major `w`×`h` image after the rotation.
///
/// Pixels past the first `w*h` are padding: `None` and `FlipX` keep them in place,
/// the other rotations drop them.
pub open spec fn rotated_pixels<T>(s: Seq<T>, w: int, h: int, r: Rotate) -> Seq<T> {
    if r == Rotate::D0 {
        s
    } else if r == Rotate::FlipX {
        Seq::new(s.len(), |k: int| if k < w * h { s[source_index(r, w, h, k)] } else { s[k] })
    } else {
        Seq::new((w * h) as nat, |k: int| s[source_index(r, w, h, k)])
    }
}

/// The inputs on which a rotation of a `w`×`h` image held in `len` pixels is defined:
/// a non-zero width, dimensions that fit in 32 bits, and (except for `None`) a buffer
/// that holds every row. Rotations that exchange the axes also need a non-zero height.
pub open spec fn can_rotate(len: int, w: int, h: int, r: Rotate) -> bool {
    &&& 0 < w <= u32::MAX
    &&& 0 <= h <= u32::MAX
    &&& w * h <= usize::MAX
    &&& r != Rotate::D0 ==> w * h <= len
    &&& swaps_axes(r) ==> h > 0
}

/// The rotation that undoes `r`.
pub open spec fn inverse_rotation(r: Rotate) -> Rotate {
    match r {
        Rotate::D90 => Rotate::D270,
        Rotate::D270 => Rotate::D90,
        _ => r,
    }
}

proof fn lemma_source_round_trip(r: Rotate, w: int, h: int, k: int)
    requires
        w > 0,
        h > 0,
        0 <= k < w * h,
    ensures
        ({
            let ow = rotated_width(r, w, h);
            let oh = rotated_height(r, w, h);
            let j = source_index(inverse_rotation(r), ow, oh, k);
            &&& 0 <= j < ow * oh
            &&& source_index(r, w, h, j) == k
        }),
{
    let ow = rotated_width(r, w, h);
    let oh = rotated_height(r, w, h);
    let inv = inverse_rotation(r);
    assert(rotated_width(inv, ow, oh) == w);
    assert(rotated_height(inv, ow, oh) == h);
    let x = k % w;
    let y = k / w;
    vstd::arithmetic::div_mod::lemma_fundamental_div_mod(k, w);
    assert(0 <= x < w);
    assert(0 <= y < h) by (nonlinear_arith)
        requires
            w > 0,
            0 <= k < w * h,
            k == w * (k / w) + k % w,
            0 <= k % w < w,
            y == k / w,
    ;
    let sx = source_x(inv, ow, oh, x, y);
    let sy = source_y(inv, ow, oh, x, y);
    assert(0 <= sx < ow && 0 <= sy < oh);
    let j = sy * ow + sx;
    assert(j == source_index(inv, ow, oh, k));
    lemma_cell_in_bounds(ow, oh, sx, sy);
    lemma_cell_of_index(j, ow, sx, sy);
    assert(source_x(r, w, h, sx, sy) == x && source_y(r, w, h, sx, sy) == y);
    assert(y * w + x == k) by (nonlinear_arith)
        requires
            k == w * (k / w) + k % w,
            x == k % w,
            y == k / w,
    ;
}

/// Rotating a `w`×`h` image by `r` and then by `inverse_rotation(r)` gives back the
/// original pixels.
pub proof fn lemma_rotation_inverse<T>(s: Seq<T>, w: int, h: int, r: Rotate)
    requires
        w > 0,
        h > 0,
        s.len() == w * h,
    ensures
        rotated_pixels(
            rotated_pixels(s, w, h, r),
            rotated_width(r, w, h),
            rotated_height(r, w, h),
            inverse_rotation(r),
        ) == s,
{
    let ow = rotated_width(r, w, h);
    let oh = rotated_height(r, w, h);
    let inner = rotated_pixels(s, w, h, r);
    let outer = rotated_pixels(inner, ow, oh, inverse_rotation(r));
    assert(ow * oh == w * h) by (nonlinear_arith)
        requires
            (ow == w && oh == h) || (ow == h && oh == w),
    ;
    assert(inner.len() == w * h);
    assert(outer.len() == s.len());
    assert forall|k: int| 0 <= k < s.len() implies #[trigger] outer[k] == s[k] by {
        lemma_source_round_trip(r, w, h, k);
    }
    assert(outer =~= s);
}

/// Column of the upright picture (`w` wide, `h` high) where the pixel stored at column
/// `sx`, row `sy` of an image tagged with EXIF orientation `o` belongs. The tag says which
/// side of the picture the stored first row and first column show: 1 top and left, 2 top
/// and right, 3 bottom and right, 4 bottom and left, 5 left and top, 6 right and top,
/// 7 right and bottom, 8 left and bottom; other values are taken as 1.
pub open spec fn exif_upright_x(o: u16, w: int, h: int, sx: int, sy: int) -> int {
    if o == 2 || o == 3 {
        w - 1 - sx
    } else if o == 5 || o == 8 {
        sy
    } else if o == 6 || o == 7 {
        w - 1 - sy
    } else {
        sx
    }
}

/// Row of the upright picture where the pixel stored at column `sx`, row `sy` belongs
/// (see [`exif_upright_x`]).
pub open spec fn exif_upright_y(o: u16, w: int, h: int, sx: int, sy: int) -> int {
    if o == 3 || o == 4 {
        h - 1 - sy
    } else if o == 5 || o == 6 {
        sx
    } else if o == 7 || o == 8 {
        h - 1 - sx
    } else {
        sy
    }
}

/// Width of the stored image for an upright picture `w` wide and `h` high: the
/// orientations 5 to 8 store columns as rows.
pub open spec fn exif_stored_width(o: u16, w: int, h: int) -> int {
    if 5 <= o <= 8 { h } else { w }
}

/// Height of the stored image (see [`exif_stored_width`]).
pub open spec fn exif_stored_height(o: u16, w: int, h: int) -> int {
    if 5 <= o <= 8 { w } else { h }
}

/// The row-major pixels that a camera stores for the upright picture `up` (`w`×`h`)
/// when it tags the file with EXIF orientation `o`.
pub open spec fn exif_stored<T>(up: Seq<T>, w: int, h: int, o: u16) -> Seq<T> {
    let sw = exif_stored_width(o, w, h);
    Seq::new(
        (w * h) as nat,
        |k: int| up[exif_upright_y(o, w, h, k % sw, k / sw) * w + exif_upright_x(o, w, h, k % sw, k / sw)],
    )
}

/// The rotation that [`exif_rotation`] gives for an EXIF orientation tag turns the pixels
/// stored under that tag into the upright picture, for every tag value.
pub proof fn lemma_exif_orientation_upright<T>(up: Seq<T>, w: int, h: int, o: u16)
    requires
        w > 0,
        h > 0,
        up.len() == w * h,
    ensures
        rotated_width(exif_rotation(o), exif_stored_width(o, w, h), exif_stored_height(o, w, h)) == w,
        rotated_height(exif_rotation(o), exif_stored_width(o, w, h), exif_stored_height(o, w, h)) == h,
        rotated_pixels(exif_stored(up, w, h, o), exif_stored_width(o, w, h), exif_stored_height(o, w, h), exif_rotation(o))
            == up,
{
    let r = exif_rotation(o);
    let sw = exif_stored_width(o, w, h);
    let sh = exif_stored_height(o, w, h);
    let s = exif_stored(up, w, h, o);
    let out = rotated_pixels(s, sw, sh, r);
    assert(sw * sh == w * h) by (nonlinear_arith)
        requires
            (sw == w && sh == h) || (sw == h && sh == w),
    ;
    assert(out.len() == up.len());
    assert forall|k: int| 0 <= k < up.len() implies #[trigger] out[k] == up[k] by {
        let x = k % w;
        let y = k / w;
        vstd::arithmetic::div_mod::lemma_fundamental_div_mod(k, w);
        assert(0 <= y < h) by (nonlinear_arith)
            requires
                w > 0,
                0 <= k < w * h,
                k == w * (k / w) + k % w,
                0 <= k % w < w,
                y == k / w,
        ;
        assert(y * w + x == k) by (nonlinear_arith)
            requires
                k == w * (k / w) + k % w,
                x == k % w,
                y == k / w,
        ;
        let sx = source_x(r, sw, sh, x, y);
        let sy = source_y(r, sw, sh, x, y);
        assert(0 <= sx < sw && 0 <= sy < sh);
        let j = sy * sw + sx;
        lemma_cell_in_bounds(sw, sh, sx, sy);
        lemma_cell_of_index(j, sw, sx, sy);
        assert(exif_upright_x(o, w, h, sx, sy) == x && exif_upright_y(o, w, h, sx, sy) == y);
        assert(s[j] == up[k]);
        if r != Rotate::D0 {
            assert(source_index(r, sw, sh, k) == j);
        } else {
            assert(j == k);
        }
    }
    assert(out =~= up);
}

proof fn lemma_source_in_bounds(r: Rotate, w: int, h: int, k: int)
    requires
        w > 0,
        h > 0,
        0 <= k < w * h,
    ensures
        0 <= source_index(r, w, h, k) < w * h,
{
    let ow = rotated_width(r, w, h);
    let oh = rotated_height(r, w, h);
    assert(ow * oh == w * h) by (nonlinear_arith)
        requires
            (ow == w && oh == h) || (ow == h && oh == w),
    ;
    let x = k % ow;
    let y = k / ow;
    vstd::arithmetic::div_mod::lemma_fundamental_div_mod(k, ow);
    assert(0 <= y < oh) by (nonlinear_arith)
        requires
            ow > 0,
            0 <= k < ow * oh,
            k == ow * (k / ow) + k % ow,
            0 <= k % ow < ow,
            y == k / ow,
    ;
    lemma_cell_in_bounds(w, h, source_x(r, w, h, x, y), source_y(r, w, h, x, y));
}

/// Turning an image and converting each of its pixels by `f` can be done in either order.
pub proof fn lemma_rotation_commutes_with_map<A, B>(s: Seq<A>, f: spec_fn(A) -> B, w: int, h: int, r: Rotate)
    requires
        w > 0,
        h > 0,
        s.len() == w * h,
    ensures
        rotated_pixels(s, w, h, r).map_values(f) == rotated_pixels(s.map_values(f), w, h, r),
{
    let lhs = rotated_pixels(s, w, h, r).map_values(f);
    let rhs = rotated_pixels(s.map_values(f), w, h, r);
    assert forall|k: int| 0 <= k < lhs.len() implies #[trigger] lhs[k] == rhs[k] by {
        if r != Rotate::D0 {
            lemma_source_in_bounds(r, w, h, k);
        }
    }
    assert(lhs =~= rhs);
}

proof fn lemma_cell_in_bounds(w: int, h: int, x: int, y: int)
    requires
        0 <= x < w,
        0 <= y < h,
    ensures
        0 <= y * w + x < w * h,
        y * w + x + 1 <= w * h,
{
    assert(0 <= y * w + x < w * h) by (nonlinear_arith)
        requires
            0 <= x < w,
            0 <= y < h,
    ;
}

proof fn lemma_cell_of_index(k: int, ow: int, x: int, y: int)
    requires
        ow > 0,
        0 <= x < ow,
        k == y * ow + x,
    ensures
        k % ow == x,
        k / ow == y,
{
    vstd::arithmetic::div_mod::lemma_fundamental_div_mod_converse(k, ow, y, x);
}

/// The source pixel index for column `x`, row `y` of the rotated image.
fn source_cell(r: Rotate, w: usize, h: usize, x: usize, y: usize) -> (i: usize)
    requires
        0 <= x < rotated_width(r, w as int, h as int),
        0 <= y < rotated_height(r, w as int, h as int),
        w * h <= usize::MAX,
    ensures
        i == source_y(r, w as int, h as int, x as int, y as int) * w + source_x(r, w as int, h as int, x as int, y as int),
        i < w * h,
{
    let sx: usize = match r {
        Rotate::D0 => x,
        Rotate::FlipX => w - 1 - x,
        Rotate::D90 => w - 1 - y,
        Rotate::D90FlipX => w - 1 - y,
        Rotate::D180 => w - 1 - x,
        Rotate::D180FlipX => x,
        Rotate::D270 => y,
        Rotate::D270FlipX => y,
    };
    let sy: usize = match r {
        Rotate::D0 => y,
        Rotate::FlipX => y,
        Rotate::D90 => x,
        Rotate::D90FlipX => h - 1 - x,
        Rotate::D180 => h - 1 - y,
        Rotate::D180FlipX => h - 1 - y,
        Rotate::D270 => h - 1 - x,
        Rotate::D270FlipX => x,
    };
    proof {
        lemma_cell_in_bounds(w as int, h as int, sx as int, sy as int);
    }
    sy * w + sx
}

/// Rotates the row-major `w`×`h` pixel buffer `src`.
pub fn rotate_pixels<T: Copy>(src: &Vec<T>, w: usize, h: usize, r: Rotate) -> (d: Vec<T>)
    requires
        can_rotate(src.len() as int, w as int, h as int, r),
    ensures
        d@ == rotated_pixels(src@, w as int, h as int, r),
{
    if r == Rotate::D0 {
        let mut d: Vec<T> = Vec::new();
        let mut k: usize = 0;
        while k < src.len()
            invariant
                k <= src.len(),
                d@ == src@.take(k as int),
            decreases src.len() - k,
        {
            d.push(src[k]);
            k = k + 1;
            assert(d@ =~= src@.take(k as int));
        }
        assert(d@ =~= src@);
        return d;
    }
    let ow: usize = if r == Rotate::D90 || r == Rotate::D90FlipX || r == Rotate::D270 || r == Rotate::D270FlipX { h } else { w };
    let oh: usize = if r == Rotate::D90 || r == Rotate::D90FlipX || r == Rotate::D270 || r == Rotate::D270FlipX { w } else { h };
    assert(ow * oh == w * h) by (nonlinear_arith)
        requires
            (ow == w && oh == h) || (ow == h && oh == w),
    ;
    let mut d: Vec<T> = Vec::new();
    let mut y: usize = 0;
    while y < oh
        invariant
            ow == rotated_width(r, w as int, h as int),
            oh == rotated_height(r, w as int, h as int),
            ow > 0,
            ow * oh == w * h,
            w * h <= src.len(),
            w * h <= usize::MAX,
            y <= oh,
            d.len() == y * ow,
            forall|k: int| 0 <= k < d.len() ==> #[trigger] d@[k] == src@[source_index(r, w as int, h as int, k)],
        decreases oh - y,
    {
        let mut x: usize = 0;
        while x < ow
            invariant
                ow == rotated_width(r, w as int, h as int),
                oh == rotated_height(r, w as int, h as int),
                ow > 0,
                ow * oh == w * h,
                w * h <= src.len(),
                w * h <= usize::MAX,
                y < oh,
                x <= ow,
                d.len() == y * ow + x,
                forall|k: int| 0 <= k < d.len() ==> #[trigger] d@[k] == src@[source_index(r, w as int, h as int, k)],
            decreases ow - x,
        {
            let i = source_cell(r, w, h, x, y);
            proof {
                lemma_cell_of_index((y * ow + x) as int, ow as int, x as int, y as int);
                lemma_cell_in_bounds(ow as int, oh as int, x as int, y as int);
            }
            d.push(src[i]);
            x = x + 1;
        }
        assert(d.len() == (y + 1) * ow) by (nonlinear_arith)
            requires
                d.len() == y * ow + ow,
        ;
        y = y + 1;
    }
    assert(d.len() == w * h) by (nonlinear_arith)
        requires
            d.len() == oh * ow,
            ow * oh == w * h,
    ;
    if r == Rotate::FlipX {
        let mut k: usize = d.len();
        while k < src.len()
            invariant
                w * h <= k <= src.len(),
                d.len() == k,
                forall|j: int| 0 <= j < w * h ==> #[trigger] d@[j] == src@[source_index(r, w as int, h as int, j)],
                forall|j: int| w * h <= j < k ==> #[trigger] d@[j] == src@[j],
            decreases src.len() - k,
        {
            d.push(src[k]);
            k = k + 1;
        }
        assert(d@ =~= rotated_pixels(src@, w as int, h as int, r));
    } else {
        assert(d@ =~= rotated_pixels(src@, w as int, h as int, r));
    }
    d
}

} // verus!

verus! {

/// Checks [`can_rotate`].
pub fn can_rotate_exec(len: usize, w: usize, h: usize, r: Rotate) -> (ok: bool)
    ensures
        ok == can_rotate(len as int, w as int, h as int, r),
{
    if !(w > 0 && w <= 0xffff_ffff && h <= 0xffff_ffff) {
        return false;
    }
    let area = match w.checked_mul(h) {
        Some(a) => a,
        None => return false,
    };
    if r != Rotate::D0 && area > len {
        return false;
    }
    let swaps = r == Rotate::D90 || r == Rotate::D90FlipX || r == Rotate::D270 || r == Rotate::D270FlipX;
    if swaps && h == 0 {
        return false;
    }
    true
}

} // verus!
