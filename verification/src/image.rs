//! Binary-mask expansion: a single-channel height buffer becomes a
//! 4-channel RGBA image under a strict threshold rule.
//!
//! Height `0` (unvisited) becomes the fully transparent pixel
//! `{0,0,0,0}`; any nonzero height, however small, becomes the fully
//! opaque white pixel `{255,255,255,255}`.  No intermediate alpha values
//! exist in the output.

use vstd::arithmetic::div_mod::{lemma_div_pos_is_pos, lemma_multiply_divide_lt};
use vstd::prelude::*;

verus! {

/// The channel value shared by all four channels of a pixel: `0` for a
/// zero height sample, `255` for any other.
pub open spec fn mask_byte(v: u8) -> u8 {
    if v == 0 {
        0u8
    } else {
        255u8
    }
}

/// The binary-mask RGBA image of a height buffer: four channels per input
/// sample, each carrying that sample's mask value.
pub open spec fn image_of(heights: Seq<u8>) -> Seq<u8> {
    Seq::new(heights.len() * 4, |k: int| mask_byte(heights[k / 4]))
}

/// Expands a height buffer into its binary-mask RGBA image.
pub fn to_image(data: Vec<u8>) -> (img: Vec<u8>)
    ensures
        img@ == image_of(data@),
        img@.len() == 4 * data@.len(),
{
    let mut img: Vec<u8> = Vec::new();
    let mut i: usize = 0;
    while i < data.len()
        invariant
            i <= data@.len(),
            img@.len() == i * 4,
            forall|k: int| 0 <= k < i * 4 ==> img@[k] == mask_byte(data@[k / 4]),
        decreases data@.len() - i,
    {
        let channel = if data[i] == 0 {
            0u8
        } else {
            255u8
        };
        img.push(channel);
        img.push(channel);
        img.push(channel);
        img.push(channel);
        proof {
            assert forall|k: int| 0 <= k < (i + 1) * 4 implies img@[k] == mask_byte(
                data@[k / 4],
            ) by {
                if k >= i * 4 {
                    let iv = i as int;
                    let j = k - 4 * iv;
                    assert((4 * iv + j) / 4 == iv) by (nonlinear_arith)
                        requires
                            0 <= j < 4,
                    ;
                    assert(k / 4 == iv);
                }
            }
        }
        i = i + 1;
    }
    proof {
        assert(img@ =~= image_of(data@));
    }
    img
}

/// A height buffer of all-zero samples yields an image of all-transparent
/// pixels: every output byte is `0`.
pub proof fn lemma_image_all_transparent(heights: Seq<u8>)
    requires
        forall|i: int| 0 <= i < heights.len() ==> heights[i] == 0,
    ensures
        image_of(heights).len() == 4 * heights.len(),
        forall|k: int| 0 <= k < image_of(heights).len() ==> image_of(heights)[k] == 0,
{
    assert forall|k: int| 0 <= k < image_of(heights).len() implies image_of(heights)[k] == 0 by {
        lemma_div_pos_is_pos(k, 4);
        lemma_multiply_divide_lt(k, 4, heights.len() as int);
    }
}

/// A height buffer of samples that are all nonzero — all `255`, or any
/// other nonzero values — yields an image of all-opaque pixels: every
/// output byte is `255`.
pub proof fn lemma_image_all_opaque(heights: Seq<u8>)
    requires
        forall|i: int| 0 <= i < heights.len() ==> heights[i] != 0,
    ensures
        image_of(heights).len() == 4 * heights.len(),
        forall|k: int| 0 <= k < image_of(heights).len() ==> image_of(heights)[k] == 255,
{
    assert forall|k: int| 0 <= k < image_of(heights).len() implies image_of(heights)[k] == 255 by {
        lemma_div_pos_is_pos(k, 4);
        lemma_multiply_divide_lt(k, 4, heights.len() as int);
    }
}

} // verus!
