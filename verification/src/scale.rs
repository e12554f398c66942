//! Age-to-height scaling: the normalization bound and the inverse scaling
//! of raw per-cell ages into quantized 8-bit height samples.
//!
//! An age of `0` marks an unvisited cell and is preserved as height `0`.
//! A positive age `v` maps to `(max_age - v) * 255 / max_age`, capped at
//! `254`: recently visited cells (small `v`) come out tall, the oldest
//! cells come out low, and `255` is left as headroom for additive
//! compositing downstream.

use vstd::arithmetic::div_mod::{lemma_div_is_ordered, lemma_div_pos_is_pos};
use vstd::arithmetic::mul::{lemma_mul_inequality, lemma_mul_nonnegative};
use vstd::prelude::*;

verus! {

/// The height sample that one age value scales to: `0` stays `0`, and a
/// positive age `v` becomes `(max_age - v) * 255 / max_age`, capped at
/// `254` so that `0` keeps meaning "unvisited".
pub open spec fn height_of(age: int, max_age: int) -> int
    recommends
        0 < max_age,
        0 <= age <= max_age,
{
    if age == 0 {
        0
    } else {
        let scaled = (max_age - age) * 255 / max_age;
        if scaled > 254 {
            254
        } else {
            scaled
        }
    }
}

/// The height samples of a whole age grid, cell by cell.
pub open spec fn heights_of(ages: Seq<u16>, max_age: int) -> Seq<u8> {
    ages.map_values(|v: u16| height_of(v as int, max_age) as u8)
}

/// The flattened, row-major view of a grid given as a sequence of rows.
pub open spec fn grid_seq(rows: Seq<Vec<u16>>) -> Seq<u16> {
    rows.flat_map(|row: Vec<u16>| row@)
}

/// The normalization bound on age values: with long walkers living
/// `max_long_age + 1` steps and at most `max_generations + 1` generations
/// accumulating, no painted age exceeds this sum.
pub fn max_age_for(max_long_age: usize, max_generations: usize) -> (m: usize)
    requires
        max_long_age * (max_generations + 1) + max_generations + 1 <= usize::MAX,
    ensures
        m == max_long_age * (max_generations + 1) + max_generations + 1,
        1 <= m,
{
    proof {
        lemma_mul_nonnegative(max_long_age as int, max_generations + 1);
    }
    max_long_age * (max_generations + 1) + max_generations + 1
}

/// Scales one age value to its 8-bit height sample.
pub fn scale_age_to_height(age: u16, max_age: usize) -> (h: u8)
    requires
        0 < max_age,
        age <= max_age,
    ensures
        h == height_of(age as int, max_age as int),
        age == 0 ==> h == 0,
        0 < age ==> h <= 254,
{
    if age == 0 {
        0
    } else {
        let num: u128 = (max_age - age as usize) as u128 * 255;
        let q: u128 = num / (max_age as u128);
        proof {
            lemma_mul_nonnegative(max_age - age, 255);
            lemma_div_pos_is_pos((max_age - age) * 255, max_age as int);
        }
        if q > 254 {
            254
        } else {
            q as u8
        }
    }
}

/// A height sample is never above `254`, and never negative.
pub proof fn lemma_height_in_range(age: int, max_age: int)
    requires
        0 < max_age,
        0 <= age <= max_age,
    ensures
        0 <= height_of(age, max_age) <= 254,
{
    if age != 0 {
        lemma_mul_nonnegative(max_age - age, 255);
        lemma_div_pos_is_pos((max_age - age) * 255, max_age);
    }
}

/// Scaling is monotonically decreasing over positive ages: an older cell
/// never comes out taller than a younger one.
pub proof fn lemma_height_monotonic(age1: int, age2: int, max_age: int)
    requires
        0 < max_age,
        0 < age1 <= age2 <= max_age,
    ensures
        height_of(age2, max_age) <= height_of(age1, max_age),
{
    lemma_mul_inequality(max_age - age2, max_age - age1, 255);
    lemma_div_is_ordered((max_age - age2) * 255, (max_age - age1) * 255, max_age);
}

/// Scales a whole age grid, cell by cell, into a height buffer.
pub fn scale_grid(ages: &Vec<u16>, max_age: usize) -> (heights: Vec<u8>)
    requires
        0 < max_age,
        forall|i: int| 0 <= i < ages@.len() ==> ages@[i] <= max_age,
    ensures
        heights@ == heights_of(ages@, max_age as int),
        heights@.len() == ages@.len(),
{
    let mut heights: Vec<u8> = Vec::new();
    let mut i: usize = 0;
    while i < ages.len()
        invariant
            0 < max_age,
            i <= ages@.len(),
            forall|k: int| 0 <= k < ages@.len() ==> ages@[k] <= max_age,
            heights@ == heights_of(ages@.take(i as int), max_age as int),
        decreases ages@.len() - i,
    {
        let h = scale_age_to_height(ages[i], max_age);
        heights.push(h);
        proof {
            assert(heights_of(ages@.take(i + 1), max_age as int) =~= heights_of(
                ages@.take(i as int),
                max_age as int,
            ).push(height_of(ages@[i as int] as int, max_age as int) as u8));
        }
        i = i + 1;
    }
    proof {
        assert(ages@.take(ages@.len() as int) =~= ages@);
    }
    heights
}

/// Flattens a grid of rows into one row-major buffer.
pub fn flatten_grid(rows: &Vec<Vec<u16>>) -> (flat: Vec<u16>)
    ensures
        flat@ == grid_seq(rows@),
{
    let row_view = Ghost(|row: Vec<u16>| row@);
    let mut flat: Vec<u16> = Vec::new();
    let mut i: usize = 0;
    while i < rows.len()
        invariant
            i <= rows@.len(),
            row_view@ == (|row: Vec<u16>| row@),
            flat@ == rows@.take(i as int).flat_map(row_view@),
        decreases rows@.len() - i,
    {
        let row = &rows[i];
        let mut j: usize = 0;
        while j < row.len()
            invariant
                i < rows@.len(),
                j <= row@.len(),
                row == rows@[i as int],
                row_view@ == (|row: Vec<u16>| row@),
                flat@ == rows@.take(i as int).flat_map(row_view@) + row@.take(j as int),
            decreases row@.len() - j,
        {
            flat.push(row[j]);
            proof {
                assert(row@.take(j + 1) =~= row@.take(j as int).push(row@[j as int]));
            }
            j = j + 1;
        }
        proof {
            rows@.lemma_flat_map_take_append(row_view@, i as int);
            assert(row@.take(row@.len() as int) =~= row@);
        }
        i = i + 1;
    }
    proof {
        assert(rows@.take(rows@.len() as int) =~= rows@);
    }
    flat
}

} // verus!
