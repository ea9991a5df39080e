use vstd::prelude::*;

verus! {

/// File type of the image
#[derive(Debug, Eq, PartialEq, Copy, Clone, Structural)]
pub enum Format {
    Unknown,
    Jpeg,
    Png,
    Avif,
    WebP,
}

impl Default for Format {
    fn default() -> (f: Self)
        ensures
            f == Format::Unknown,
    {
        Format::Unknown
    }
}

} // verus!
