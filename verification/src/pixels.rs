//! RGBA to RGB conversion for JPEG output.
//!
//! JPEG has no alpha channel, so the fourth byte of every pixel is dropped.
//! This is a straight channel drop with no compositing against a background:
//! transparency information is discarded by design.
use vstd::prelude::*;

verus! {

/// The RGB bytes of an RGBA buffer: for every complete 4-byte pixel, its
/// first three bytes, in order. Trailing bytes of an incomplete pixel are
/// dropped.
pub open spec fn drop_alpha(rgba: Seq<u8>) -> Seq<u8> {
    Seq::new((rgba.len() / 4) * 3, |i: int| rgba[(i / 3) * 4 + (i % 3)])
}

/// Drops the alpha channel of an 8-bit RGBA buffer.
pub fn rgba_to_rgb(rgba: &Vec<u8>) -> (r: Vec<u8>)
    ensures
        r@ == drop_alpha(rgba@),
{
    let pixel_count: usize = rgba.len() / 4;
    let mut out: Vec<u8> = Vec::new();
    let mut i: usize = 0;
    while i < pixel_count
        invariant
            i <= pixel_count,
            rgba@.len() <= usize::MAX,
            pixel_count == rgba@.len() / 4,
            out@.len() == 3 * i,
            forall|j: int| 0 <= j < out@.len() ==> out@[j] == rgba@[(j / 3) * 4 + (j % 3)],
        decreases pixel_count - i,
    {
        assert(4 * i + 3 <= rgba@.len());
        out.push(rgba[4 * i]);
        out.push(rgba[4 * i + 1]);
        out.push(rgba[4 * i + 2]);
        i = i + 1;
    }
    assert(out@ =~= drop_alpha(rgba@));
    out
}

} // verus!
