use vstd::prelude::*;

use crate::bitmap::Bitmap;
use crate::image::dims_ok;
use crate::pixel::Gray;

verus! {

/// Bit depths of palette indices that [`from_palette`] unpacks.
pub open spec fn supported_depth(depth: u8) -> bool {
    depth == 1 || depth == 2 || depth == 4 || depth == 8
}

/// Mask of the low `depth` bits.
pub open spec fn sample_mask(depth: u8) -> u8 {
    if depth == 1 { 1u8 } else if depth == 2 { 3u8 } else if depth == 4 { 15u8 } else { 255u8 }
}

/// The `n`-th index packed in `buf`, `depth` bits each, the first one in the high bits of a byte.
pub open spec fn packed_sample(buf: Seq<u8>, depth: u8, n: int) -> u8 {
    if depth == 8 {
        buf[n]
    } else {
        let per_byte = 8int / (depth as int);
        ((buf[n / per_byte] >> (((per_byte - 1 - n % per_byte) * depth) as u8)) & sample_mask(depth)) as u8
    }
}

/// How many indices [`from_palette`] unpacks: every byte at depth 8; otherwise as many as the
/// bytes hold, but no more than `area`.
pub open spec fn sample_count(len: int, depth: u8, area: int) -> int {
    if depth == 8 {
        len
    } else {
        let all = len * (8int / (depth as int));
        if all < area { all } else { area }
    }
}

/// Every index that [`from_palette`] looks up names an entry of a palette of `pal_len` colours.
pub open spec fn indices_in_palette(buf: Seq<u8>, pal_len: int, depth: u8, area: int) -> bool {
    forall|n: int| 0 <= n < sample_count(buf.len() as int, depth, area) ==> (#[trigger] packed_sample(buf, depth, n)) < pal_len
}

/// The colours that the packed indices select.
pub open spec fn palette_lookup<T>(buf: Seq<u8>, pal: Seq<T>, depth: u8, area: int) -> Seq<T> {
    Seq::new(sample_count(buf.len() as int, depth, area) as nat, |n: int| pal[packed_sample(buf, depth, n) as int])
}

fn per_byte_exec(depth: u8) -> (n: usize)
    requires
        depth == 1 || depth == 2 || depth == 4,
    ensures
        n == 8int / (depth as int),
        n >= 2,
{
    if depth == 1 { 8 } else if depth == 2 { 4 } else { 2 }
}

fn mask_exec(depth: u8) -> (m: u8)
    ensures
        m == sample_mask(depth),
{
    if depth == 1 { 1 } else if depth == 2 { 3 } else if depth == 4 { 15 } else { 255 }
}

/// Number of indices unpacked, computed without overflow.
fn count_exec(len: usize, depth: u8, area: usize) -> (c: usize)
    requires
        supported_depth(depth),
    ensures
        c == sample_count(len as int, depth, area as int),
{
    if depth == 8 {
        return len;
    }
    let per_byte = per_byte_exec(depth);
    if len > area / per_byte {
        assert(len * per_byte >= area) by (nonlinear_arith)
            requires
                len > area / per_byte,
                per_byte > 0,
        ;
        area
    } else {
        assert(len * per_byte <= area) by (nonlinear_arith)
            requires
                len <= area / per_byte,
                per_byte > 0,
        ;
        len * per_byte
    }
}

fn sample_exec(buf: &[u8], depth: u8, n: usize) -> (s: u8)
    requires
        supported_depth(depth),
        depth == 8 ==> n < buf.len(),
        depth != 8 ==> (n as int) / (8int / (depth as int)) < buf.len(),
    ensures
        s == packed_sample(buf@, depth, n as int),
{
    if depth == 8 {
        buf[n]
    } else {
        let per_byte = per_byte_exec(depth);
        let byte = buf[n / per_byte];
        let slot = per_byte - 1 - n % per_byte;
        assert(slot * depth <= 7) by (nonlinear_arith)
            requires
                slot < per_byte,
                (depth == 1 && per_byte == 8) || (depth == 2 && per_byte == 4) || (depth == 4 && per_byte == 2),
        ;
        let shift = (slot as u8) * depth;
        (byte >> shift) & mask_exec(depth)
    }
}

proof fn lemma_sample_byte_in_bounds(len: int, depth: u8, area: int, n: int)
    requires
        depth == 1 || depth == 2 || depth == 4,
        0 <= n < sample_count(len, depth, area),
        len >= 0,
    ensures
        n / (8int / (depth as int)) < len,
{
    let per_byte = 8int / (depth as int);
    assert(per_byte > 0);
    assert(n < len * per_byte);
    assert(n / per_byte < len) by (nonlinear_arith)
        requires
            per_byte > 0,
            0 <= n < len * per_byte,
    ;
}

/// Checks that every index [`from_palette`] would look up is inside a palette of `pal_len` colours.
pub fn indices_fit(buf: &[u8], pal_len: usize, depth: u8, area: usize) -> (ok: bool)
    requires
        supported_depth(depth),
    ensures
        ok == indices_in_palette(buf@, pal_len as int, depth, area as int),
{
    let count = count_exec(buf.len(), depth, area);
    let mut n: usize = 0;
    while n < count
        invariant
            supported_depth(depth),
            count == sample_count(buf.len() as int, depth, area as int),
            n <= count,
            forall|j: int| 0 <= j < n ==> (#[trigger] packed_sample(buf@, depth, j)) < pal_len,
        decreases count - n,
    {
        proof {
            if depth != 8 {
                lemma_sample_byte_in_bounds(buf.len() as int, depth, area as int, n as int);
            }
        }
        if (sample_exec(buf, depth, n) as usize) >= pal_len {
            return false;
        }
        n = n + 1;
    }
    true
}

/// Expands palette indices packed `bitdepth` bits each into the colours of `pal`.
///
/// At depth 8 every byte is one index; at depths 1, 2 and 4 each byte holds several,
/// the first in the high bits, and at most `width * height` are unpacked.
/// Other depths give `None`.
pub fn from_palette<T: Copy>(buf: &[u8], pal: &[T], bitdepth: u8, width: usize, height: usize) -> (r: Option<Bitmap<T>>)
    requires
        supported_depth(bitdepth) ==> dims_ok(width as int, height as int),
        supported_depth(bitdepth) && bitdepth != 8 ==> width * height <= usize::MAX,
        supported_depth(bitdepth) ==> indices_in_palette(buf@, pal@.len() as int, bitdepth, width * height),
    ensures
        r.is_some() == supported_depth(bitdepth),
        r matches Some(b) ==> {
            &&& b.width == width
            &&& b.height == height
            &&& b.bitmap@ == palette_lookup(buf@, pal@, bitdepth, width * height)
        },
{
    if !(bitdepth == 1 || bitdepth == 2 || bitdepth == 4 || bitdepth == 8) {
        return None;
    }
    let area: usize = if bitdepth == 8 { 0 } else { width * height };
    let count = count_exec(buf.len(), bitdepth, area);
    let mut out: Vec<T> = Vec::new();
    let mut n: usize = 0;
    while n < count
        invariant
            supported_depth(bitdepth),
            bitdepth != 8 ==> area == width * height,
            count == sample_count(buf.len() as int, bitdepth, area as int),
            indices_in_palette(buf@, pal@.len() as int, bitdepth, width * height),
            n <= count,
            out.len() == n,
            forall|j: int| 0 <= j < n ==> #[trigger] out@[j] == pal@[packed_sample(buf@, bitdepth, j) as int],
        decreases count - n,
    {
        proof {
            if bitdepth != 8 {
                lemma_sample_byte_in_bounds(buf.len() as int, bitdepth, area as int, n as int);
            }
            assert(sample_count(buf.len() as int, bitdepth, area as int) == sample_count(buf.len() as int, bitdepth, width * height));
            assert(packed_sample(buf@, bitdepth, n as int) < pal@.len());
        }
        let s = sample_exec(buf, bitdepth, n);
        out.push(pal[s as usize]);
        n = n + 1;
    }
    proof {
        assert(sample_count(buf.len() as int, bitdepth, area as int) == sample_count(buf.len() as int, bitdepth, width * height));
        assert(out@ =~= palette_lookup(buf@, pal@, bitdepth, width * height));
    }
    Some(Bitmap::new(out, width, height))
}

/// The grey level of entry `c` in the palette of `2^depth` evenly spaced greys.
pub open spec fn gray_level(c: int, depth: u8) -> u8 {
    (c * 255 / (vstd::arithmetic::power2::pow2(depth as nat) - 1)) as u8
}

/// The `2^depth` evenly spaced greys from black to white that index a grey image of that depth.
pub fn gray_palette(depth: u8) -> (pal: Vec<Gray<u8>>)
    requires
        1 <= depth <= 8,
    ensures
        pal@.len() == vstd::arithmetic::power2::pow2(depth as nat),
        forall|c: int| 0 <= c < pal@.len() ==> #[trigger] pal@[c] == Gray(gray_level(c, depth)),
{
    let ncolors: u32 = if depth == 1 {
        2
    } else if depth == 2 {
        4
    } else if depth == 3 {
        8
    } else if depth == 4 {
        16
    } else if depth == 5 {
        32
    } else if depth == 6 {
        64
    } else if depth == 7 {
        128
    } else {
        256
    };
    proof {
        vstd::arithmetic::power2::lemma2_to64();
    }
    let max: u32 = ncolors - 1;
    let mut pal: Vec<Gray<u8>> = Vec::new();
    let mut c: u32 = 0;
    while c < ncolors
        invariant
            ncolors == vstd::arithmetic::power2::pow2(depth as nat),
            2 <= ncolors <= 256,
            max == ncolors - 1,
            c <= ncolors,
            pal@.len() == c,
            forall|j: int| 0 <= j < c ==> #[trigger] pal@[j] == Gray(gray_level(j, depth)),
        decreases ncolors - c,
    {
        assert(c * 255 <= 255 * 255) by (nonlinear_arith)
            requires
                c < 256,
        ;
        assert((c as int) * 255 / (max as int) <= 255) by (nonlinear_arith)
            requires
                c <= max,
                max >= 1,
        ;
        pal.push(Gray((c * 255 / max) as u8));
        c = c + 1;
    }
    pal
}

} // verus!
