//! Post-simulation pixel pipeline for random-walk heightmaps.
//!
//! A branching random-walk simulation (an outside collaborator) fills a
//! square grid with per-cell "age" values, where `0` means the cell was
//! never visited.  This crate turns such an age grid into displayable
//! buffers: it derives the simulation seed from entropy bytes, scales ages
//! to 8-bit height samples, expands a height buffer into a binary-mask
//! RGBA image, and composites a two-pass blur (a broad base pass plus a
//! ceiling-clamped detail pass) into a shaded heightmap.

use vstd::prelude::*;

pub mod blur;
pub mod image;
pub mod scale;
pub mod seed;

verus! {

/// Constant diagnostic probe; not part of the pixel pipeline.
pub fn hello() -> (r: u32)
    ensures
        r == 42,
{
    42
}

} // verus!
