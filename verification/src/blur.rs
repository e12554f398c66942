//! Two-pass blur compositing: a broad "base" stack-blur pass over the raw
//! height buffer, plus a tightly-blurred "detail" pass over a
//! ceiling-clamped copy, summed per position into the shaded heightmap.
//!
//! Clamping before the detail pass keeps tall, narrow peaks from smearing
//! bright halos into the detail layer; the base pass carries the gross
//! terrain shape.  The per-position sum deliberately stays an unclamped
//! 8-bit addition, as the compositing design has it: where a bright base
//! sample meets a bright detail sample the sum wraps modulo 256 rather
//! than saturating.

use vstd::prelude::*;

verus! {

/// What one run of the stack-blur primitive yields: the blurred samples of
/// a `width` by `height` row-major buffer at the given radius.  The blur is
/// deterministic and free of randomness, so its outcome is a function of
/// these arguments alone.
pub uninterp spec fn blur_of(data: Seq<u8>, width: int, height: int, radius: int) -> Seq<u8>;

/// The buffer with every sample capped at `ceiling`: samples above it are
/// replaced by it, samples at or below it are unchanged.
pub open spec fn clamped_to(data: Seq<u8>, ceiling: u8) -> Seq<u8> {
    data.map_values(
        |v: u8|
            if v > ceiling {
                ceiling
            } else {
                v
            },
    )
}

/// The per-position sum of two equally long buffers, each sum taken modulo
/// 256 (an unclamped 8-bit addition).
pub open spec fn wrapped_sum(a: Seq<u8>, b: Seq<u8>) -> Seq<u8>
    recommends
        a.len() == b.len(),
{
    Seq::new(a.len(), |i: int| ((a[i] + b[i]) % 256) as u8)
}

/// Whether every sample of a buffer carries one and the same value.
pub open spec fn is_constant(s: Seq<u8>) -> bool {
    forall|i: int, j: int| 0 <= i < s.len() && 0 <= j < s.len() ==> s[i] == s[j]
}

/// Relies on stackblur_iter::blur_argb over an imgref::Img buffer: a
/// deterministic single-pass stack blur that replaces each sample by a
/// weighted average of its neighbourhood, replicating edge samples at the
/// buffer boundary, and yields exactly as many samples as it consumes.
/// Each sample rides in one 8-bit channel of a packed 32-bit pixel, whose
/// channels the crate blurs independently in explicitly wrapping
/// arithmetic; the crate documents radii up to 4096 as free of channel
/// overflow.  With radius 0 the averaging window holds a single sample
/// under weight 1 (the running denominator stays 1), so the buffer comes
/// back unchanged.  A buffer of one repeated value also comes back
/// unchanged at every radius: each window's numerator is its denominator
/// times that value, and the division is exact.  The dimension bounds keep
/// imgref::Img::new from panicking, as it refuses a width or height that
/// does not fit in 32 bits.
#[verifier::external_body]
fn stack_blur(data: &Vec<u8>, width: usize, height: usize, radius: usize) -> (blurred: Vec<u8>)
    requires
        data@.len() == width * height,
        0 < width <= 0xffff_ffff,
        0 < height <= 0xffff_ffff,
        radius <= 4096,
    ensures
        blurred@ == blur_of(data@, width as int, height as int, radius as int),
        blurred@.len() == data@.len(),
        radius == 0 ==> blurred@ == data@,
        is_constant(data@) ==> blurred@ == data@,
{
    let packed: Vec<u32> = data.iter().map(|v| *v as u32).collect();
    let mut img = stackblur_iter::imgref::Img::new(packed, width, height);
    stackblur_iter::blur_argb(&mut img.as_mut(), radius);
    img.into_buf().into_iter().map(|p| p as u8).collect()
}

/// Caps every sample of a height buffer at `ceiling`.
pub fn clamp_buffer(data: &Vec<u8>, ceiling: u8) -> (clamped: Vec<u8>)
    ensures
        clamped@ == clamped_to(data@, ceiling),
        clamped@.len() == data@.len(),
{
    let mut clamped: Vec<u8> = Vec::new();
    let mut i: usize = 0;
    while i < data.len()
        invariant
            i <= data@.len(),
            clamped@ == clamped_to(data@.take(i as int), ceiling),
        decreases data@.len() - i,
    {
        let v = if data[i] > ceiling {
            ceiling
        } else {
            data[i]
        };
        clamped.push(v);
        proof {
            assert(clamped_to(data@.take(i + 1), ceiling) =~= clamped_to(
                data@.take(i as int),
                ceiling,
            ).push(v));
        }
        i = i + 1;
    }
    proof {
        assert(data@.take(data@.len() as int) =~= data@);
    }
    clamped
}

/// A ceiling at or above every sample changes nothing: the clamped buffer
/// is the buffer itself.
pub proof fn lemma_clamp_ceiling_vacuous(data: Seq<u8>, ceiling: u8)
    requires
        forall|i: int| 0 <= i < data.len() ==> data[i] <= ceiling,
    ensures
        clamped_to(data, ceiling) == data,
{
    assert(clamped_to(data, ceiling) =~= data);
}

/// Composites the two blur passes over a 512-by-512 height buffer: the
/// base pass blurs the raw buffer at `radius`, the detail pass blurs the
/// ceiling-clamped buffer at the fixed radius 4, and the result is their
/// per-position sum modulo 256.
///
/// With radius 0 and a ceiling at or above every sample, the composite
/// reduces to the raw buffer plus its radius-4 blur: the base pass is the
/// identity and the clamping has no effect.  With a ceiling of 0 the
/// detail input is all zeros and blurs to all zeros, so the composite
/// reduces to the base pass alone — the single-pass variant.
pub fn heightmap_blur(data: Vec<u8>, radius: usize, detail_max: u8) -> (shaded: Vec<u8>)
    requires
        data@.len() == 512 * 512,
        radius <= 4096,
    ensures
        shaded@ == wrapped_sum(
            blur_of(data@, 512, 512, radius as int),
            blur_of(clamped_to(data@, detail_max), 512, 512, 4),
        ),
        shaded@.len() == data@.len(),
        radius == 0 && (forall|i: int| 0 <= i < data@.len() ==> data@[i] <= detail_max)
            ==> shaded@ == wrapped_sum(data@, blur_of(data@, 512, 512, 4)),
        detail_max == 0 ==> shaded@ == blur_of(data@, 512, 512, radius as int),
{
    let base = stack_blur(&data, 512, 512, radius);
    let clamped = clamp_buffer(&data, detail_max);
    let detail = stack_blur(&clamped, 512, 512, 4);
    proof {
        if radius == 0 && (forall|i: int| 0 <= i < data@.len() ==> data@[i] <= detail_max) {
            lemma_clamp_ceiling_vacuous(data@, detail_max);
        }
        if detail_max == 0 {
            assert(is_constant(clamped@));
            assert(detail@ == clamped@);
        }
    }
    let mut shaded: Vec<u8> = Vec::new();
    let mut i: usize = 0;
    while i < base.len()
        invariant
            i <= base@.len(),
            base@.len() == detail@.len(),
            shaded@ == wrapped_sum(base@, detail@).take(i as int),
        decreases base@.len() - i,
    {
        shaded.push(base[i].wrapping_add(detail[i]));
        proof {
            assert(wrapped_sum(base@, detail@).take(i + 1) =~= wrapped_sum(
                base@,
                detail@,
            ).take(i as int).push(wrapped_sum(base@, detail@)[i as int]));
        }
        i = i + 1;
    }
    proof {
        assert(wrapped_sum(base@, detail@).take(base@.len() as int) =~= wrapped_sum(
            base@,
            detail@,
        ));
        if detail_max == 0 {
            assert(shaded@ =~= base@);
        }
    }
    shaded
}

} // verus!
