use vstd::prelude::*;

verus! {

/// The `0x00RRGGBB` word of a pixel whose red, green and blue bytes are given.
pub open spec fn xrgb(r: u8, g: u8, b: u8) -> u32 {
    (r as int * 65536 + g as int * 256 + b as int) as u32
}

/// Converts pixels stored as `R, G, B, A` bytes, as the software rasterizer
/// draws them, into `0x00RRGGBB` words, as the window buffer presents them.
/// The alpha byte is dropped; trailing bytes that make no whole pixel are
/// ignored.
pub fn rgba_to_xrgb(rgba: &[u8]) -> (r: Vec<u32>)
    ensures
        r@.len() == rgba@.len() / 4,
        forall|i: int|
            0 <= i < r@.len() ==> #[trigger] r@[i] == xrgb(
                rgba@[4 * i],
                rgba@[4 * i + 1],
                rgba@[4 * i + 2],
            ),
{
    let len = rgba.len();
    let n = len / 4;
    let mut r: Vec<u32> = Vec::with_capacity(n);
    let mut i: usize = 0;
    while i < n
        invariant
            len == rgba@.len(),
            n == len / 4,
            i <= n,
            r@.len() == i,
            forall|j: int|
                0 <= j < i ==> #[trigger] r@[j] == xrgb(
                    rgba@[4 * j],
                    rgba@[4 * j + 1],
                    rgba@[4 * j + 2],
                ),
        decreases n - i,
    {
        let red = rgba[4 * i] as u32;
        let green = rgba[4 * i + 1] as u32;
        let blue = rgba[4 * i + 2] as u32;
        r.push(red * 65536 + green * 256 + blue);
        i = i + 1;
    }
    r
}

} // verus!
