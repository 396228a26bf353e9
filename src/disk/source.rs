//! Fixed-size reads from the leading bytes of an image.

use vstd::prelude::*;

verus! {

/// Whether `length` bytes starting at `offset` lie within `image`.
pub open spec fn fits(image: Seq<u8>, offset: int, length: int) -> bool {
    0 <= offset && 0 <= length && offset + length <= image.len()
}

/// The `length` bytes of `image` starting at `offset`.
pub open spec fn window(image: Seq<u8>, offset: int, length: int) -> Seq<u8> {
    image.subrange(offset, offset + length)
}

/// The `length` bytes at `offset`, or `None` where the image ends before them.
pub fn read_exact(image: &[u8], offset: u64, length: u64) -> (r: Option<&[u8]>)
    ensures
        match r {
            Some(s) => fits(image@, offset as int, length as int) && s@ == window(
                image@,
                offset as int,
                length as int,
            ),
            None => !fits(image@, offset as int, length as int),
        },
{
    let size = image.len() as u64;
    if offset > size || size - offset < length {
        None
    } else {
        Some(&image[offset as usize..(offset + length) as usize])
    }
}

} // verus!
