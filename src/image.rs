//! The order in which the pixels of an image are computed and emitted: rows
//! from the top (`j = height - 1`) down to `j = 0`, and within a row from
//! `i = 0` to `i = width - 1`.

use vstd::arithmetic::div_mod::lemma_fundamental_div_mod_converse;
use vstd::prelude::*;

verus! {

/// The pixel `(i, j)` emitted at position `k` of an image `width` pixels wide
/// and `height` pixels high.
pub open spec fn pixel_at(k: int, width: int, height: int) -> (i32, i32) {
    ((k % width) as i32, (height - 1 - k / width) as i32)
}

/// All pixels of a `width` by `height` image, in emission order: one entry per
/// pixel, `width * height` in all, the `k`-th being `pixel_at(k)`.
pub fn scan_order(width: i32, height: i32) -> (order: Vec<(i32, i32)>)
    requires
        width >= 0,
        height >= 0,
        width * height <= usize::MAX,
    ensures
        order@.len() == width * height,
        forall|k: int| 0 <= k < order@.len() ==> #[trigger] order@[k] == pixel_at(k, width as int, height as int),
{
    let mut order: Vec<(i32, i32)> = Vec::new();
    let mut row: i32 = 0;
    while row < height
        invariant
            0 <= row <= height,
            width >= 0,
            width * height <= usize::MAX,
            order@.len() == row * width,
            forall|k: int| 0 <= k < order@.len() ==> #[trigger] order@[k] == pixel_at(k, width as int, height as int),
        decreases height - row,
    {
        let j = height - 1 - row;
        let mut i: i32 = 0;
        while i < width
            invariant
                0 <= row < height,
                0 <= i <= width,
                j == height - 1 - row,
                width * height <= usize::MAX,
                order@.len() == row * width + i,
                forall|k: int| 0 <= k < order@.len() ==> #[trigger] order@[k] == pixel_at(k, width as int, height as int),
            decreases width - i,
        {
            proof {
                let k = row * width + i;
                lemma_fundamental_div_mod_converse(k, width as int, row as int, i as int);
                assert(row * width + i < height * width) by (nonlinear_arith)
                    requires
                        0 <= row < height,
                        0 <= i < width,
                ;
            }
            order.push((i, j));
            i = i + 1;
        }
        assert((row + 1) * width == row * width + width) by (nonlinear_arith);
        row = row + 1;
    }
    assert(row * width == width * height) by (nonlinear_arith)
        requires
            row == height,
    ;
    order
}

} // verus!
