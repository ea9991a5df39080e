use vstd::prelude::*;

verus! {

/// An owned row-major pixel buffer with its dimensions.
#[derive(Debug, Clone, PartialEq, Eq)]
pub struct Bitmap<T> {
    pub bitmap: Vec<T>,
    pub width: usize,
    pub height: usize,
}

/// A borrowed row-major pixel buffer with its dimensions.
#[derive(Debug, Copy, Clone, PartialEq, Eq)]
pub struct BitmapRef<'a, T> {
    pub bitmap: &'a [T],
    pub width: usize,
    pub height: usize,
}

impl<'a, T> BitmapRef<'a, T> {
    pub fn new(bitmap: &'a [T], width: usize, height: usize) -> (r: BitmapRef<'a, T>)
        ensures
            r.bitmap@ == bitmap@,
            r.width == width,
            r.height == height,
    {
        BitmapRef { bitmap: bitmap, width: width, height: height }
    }
}

impl<T> Bitmap<T> {
    pub fn new(bitmap: Vec<T>, width: usize, height: usize) -> (r: Bitmap<T>)
        ensures
            r.bitmap@ == bitmap@,
            r.width == width,
            r.height == height,
    {
        Bitmap { bitmap: bitmap, width: width, height: height }
    }

    pub fn new_ref(&self) -> (r: BitmapRef<'_, T>)
        ensures
            r.bitmap@ == self.bitmap@,
            r.width == self.width,
            r.height == self.height,
    {
        BitmapRef::new(self.bitmap.as_slice(), self.width, self.height)
    }
}

} // verus!
