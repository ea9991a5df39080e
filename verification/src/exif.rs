use vstd::prelude::*;

verus! {

/// The value of an EXIF entry, as far as the loader reads values.
#[derive(Clone, Debug, PartialEq, Eq)]
pub enum ExifValue {
    /// 16-bit numbers.
    U16(Vec<u16>),
    /// Unsigned rationals, as (numerator, denominator).
    URational(Vec<(u32, u32)>),
    /// Any other kind of value.
    Other,
}

/// An EXIF entry: the number of its tag (`rexif::ExifTag` as a number) and its value.
#[derive(Clone, Debug, PartialEq, Eq)]
pub struct ExifField {
    pub tag: u32,
    pub value: ExifValue,
}

/// The number of the `Orientation` tag.
pub const ORIENTATION_TAG: u32 = 0x0112;

/// The number of the `PrimaryChromaticities` tag.
pub const PRIMARY_CHROMATICITIES_TAG: u32 = 0x013f;

/// The primaries of Adobe RGB (1998), x and y of red, green and blue, in hundredths.
pub open spec fn adobe98_primary(i: int) -> int {
    if i == 0 { 64 } else if i == 1 { 33 } else if i == 2 { 21 } else if i == 3 { 71 } else if i == 4 { 15 } else { 6 }
}

/// `num / den` lies within 0.001 of `hundredths / 100` (never for a zero denominator).
pub open spec fn within_a_thousandth(num: u32, den: u32, hundredths: int) -> bool {
    let diff = 100 * (num as int) - hundredths * (den as int);
    &&& 10 * diff < den
    &&& -10 * diff < den
}

/// Six rationals that match the primaries of Adobe RGB (1998) to within 0.001 each.
pub open spec fn is_adobe98_primaries(n: Seq<(u32, u32)>) -> bool {
    &&& n.len() == 6
    &&& forall|i: int| 0 <= i < 6 ==> #[trigger] within_a_thousandth(n[i].0, n[i].1, adobe98_primary(i))
}

/// The orientation after reading the first `k` entries: the first value of the last
/// non-empty `Orientation` entry, or 1 where there is none.
pub open spec fn orientation_after(fields: Seq<ExifField>, k: int) -> u16
    decreases k,
{
    if k <= 0 {
        1
    } else {
        match fields[k - 1].value {
            ExifValue::U16(n) => if fields[k - 1].tag == ORIENTATION_TAG && n@.len() > 0 {
                n@[0]
            } else {
                orientation_after(fields, k - 1)
            },
            _ => orientation_after(fields, k - 1),
        }
    }
}

/// An entry that gives primaries: a `PrimaryChromaticities` tag with rationals.
pub open spec fn gives_adobe98_primaries(f: ExifField) -> bool {
    &&& f.tag == PRIMARY_CHROMATICITIES_TAG
    &&& f.value matches ExifValue::URational(n) && is_adobe98_primaries(n@)
}

/// Some entry gives the primaries of Adobe RGB (1998).
pub open spec fn names_adobe98(fields: Seq<ExifField>) -> bool {
    exists|i: int| 0 <= i < fields.len() && #[trigger] gives_adobe98_primaries(fields[i])
}

fn adobe98_primary_exec(i: usize) -> (p: u64)
    requires
        i < 6,
    ensures
        p == adobe98_primary(i as int),
{
    if i == 0 { 64 } else if i == 1 { 33 } else if i == 2 { 21 } else if i == 3 { 71 } else if i == 4 { 15 } else { 6 }
}

fn within_a_thousandth_exec(num: u32, den: u32, hundredths: u64) -> (r: bool)
    requires
        hundredths <= 100,
    ensures
        r == within_a_thousandth(num, den, hundredths as int),
{
    let a = 100 * (num as u64);
    assert(hundredths * (den as u64) <= 100 * 0xffff_ffff) by (nonlinear_arith)
        requires
            hundredths <= 100,
            den <= 0xffff_ffff,
    ;
    let b = hundredths * (den as u64);
    if a >= b {
        10 * (a - b) < den as u64
    } else {
        10 * (b - a) < den as u64
    }
}

fn primaries_match(n: &Vec<(u32, u32)>) -> (r: bool)
    ensures
        r == is_adobe98_primaries(n@),
{
    if n.len() != 6 {
        return false;
    }
    let mut i: usize = 0;
    while i < 6
        invariant
            n@.len() == 6,
            i <= 6,
            forall|j: int| 0 <= j < i ==> #[trigger] within_a_thousandth(n@[j].0, n@[j].1, adobe98_primary(j)),
        decreases 6 - i,
    {
        let (num, den) = n[i];
        if !within_a_thousandth_exec(num, den, adobe98_primary_exec(i)) {
            return false;
        }
        i = i + 1;
    }
    true
}

/// The orientation tag and whether the primaries are those of Adobe RGB (1998), from
/// parsed EXIF entries.
pub fn read_exif_fields(fields: &Vec<ExifField>) -> (r: (u16, bool))
    ensures
        r.0 == orientation_after(fields@, fields@.len() as int),
        r.1 == names_adobe98(fields@),
{
    let mut orientation: u16 = 1;
    let mut is_adobe_1998 = false;
    let mut i: usize = 0;
    while i < fields.len()
        invariant
            i <= fields@.len(),
            orientation == orientation_after(fields@, i as int),
            is_adobe_1998 == exists|j: int| 0 <= j < i && #[trigger] gives_adobe98_primaries(fields@[j]),
        decreases fields.len() - i,
    {
        let ghost before = is_adobe_1998;
        let tag = fields[i].tag;
        match &fields[i].value {
            ExifValue::URational(n) => {
                if tag == PRIMARY_CHROMATICITIES_TAG && primaries_match(n) {
                    is_adobe_1998 = true;
                }
            },
            ExifValue::U16(n) => {
                if tag == ORIENTATION_TAG && n.len() > 0 {
                    orientation = n[0];
                }
            },
            ExifValue::Other => {},
        }
        proof {
            assert(is_adobe_1998 == (before || gives_adobe98_primaries(fields@[i as int])));
            if gives_adobe98_primaries(fields@[i as int]) {
                assert(exists|j: int| 0 <= j < i + 1 && #[trigger] gives_adobe98_primaries(fields@[j]));
            }
        }
        i = i + 1;
    }
    (orientation, is_adobe_1998)
}

/// What the loader reads from EXIF entries: the orientation tag (1 where absent) and
/// whether the primaries are those of Adobe RGB (1998); `(1, false)` where there are no
/// entries, as where rexif could not read the EXIF data.
pub open spec fn exif_reading(entries: Option<Vec<ExifField>>) -> (u16, bool) {
    match entries {
        Some(f) => (orientation_after(f@, f@.len() as int), names_adobe98(f@)),
        None => (1u16, false),
    }
}

/// The orientation tag (1 where absent) and whether the EXIF primaries are those of
/// Adobe RGB (1998), from the entries that rexif read from EXIF data; `(1, false)` where
/// it read none (it failed, or panicked and the caller caught it).
pub fn parse_exif(entries: &Option<Vec<ExifField>>) -> (r: (u16, bool))
    ensures
        r == exif_reading(*entries),
{
    match entries {
        Some(fields) => read_exif_fields(fields),
        None => (1, false),
    }
}

} // verus!
