//! Colour codes: one fixed code for the hypervisor, and a palette that capsule
//! identifiers index modulo its size.

use vstd::prelude::*;

verus! {

/// Foreground colour code of hypervisor output (red).
pub const HYPERVISOR_COLOR: usize = 31;

/// Number of entries in the capsule palette.
pub const PALETTE_SIZE: usize = 6;

/// The capsule palette: green, yellow, blue, magenta, cyan, white.
pub const PALETTE: [usize; 6] = [32, 33, 34, 35, 36, 37];

/// The palette as a sequence.
pub open spec fn palette() -> Seq<usize> {
    seq![32usize, 33usize, 34usize, 35usize, 36usize, 37usize]
}

/// The colour code of a capsule: the palette entry at its identifier modulo
/// the palette's size.
pub open spec fn capsule_color_of(capsule_id: usize) -> usize {
    palette()[capsule_id as int % 6]
}

/// Colour code for the output of capsule `capsule_id`.
pub fn capsule_color(capsule_id: usize) -> (code: usize)
    ensures
        code == capsule_color_of(capsule_id),
        32 <= code <= 37,
{
    PALETTE[capsule_id % PALETTE_SIZE]
}

/// Colour code for hypervisor output.
pub fn hypervisor_color() -> (code: usize)
    ensures
        code == HYPERVISOR_COLOR,
{
    HYPERVISOR_COLOR
}

} // verus!
