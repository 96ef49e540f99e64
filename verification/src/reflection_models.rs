//! Indexing of the lookup tables from which random directions are sampled.
//!
//! A direction in the plane is drawn as the sine and cosine of an angle that is uniform
//! over a full turn. The sine table holds the sine at `SIN_TABLE_SIZE` evenly spaced
//! angles, offset so that the entry at `SIN_TABLE_SIZE - 1 - i` is the cosine of the
//! angle at `i`. A random number picks `i` by a bitwise AND, and `i`'s partner by a
//! bitwise XOR with the same mask. The square root table is read the same way: one
//! entry gives `r` and its partner gives `sqrt(1 - r^2)`.
use crate::simulate::{SIN_TABLE_SIZE, SQRT_TABLE_SIZE};
use vstd::prelude::*;

verus! {

/// `fastrand::Rng`, the random number generator, carried through without being read.
#[verifier::external_type_specification]
#[verifier::external_body]
pub struct ExRng(fastrand::Rng);

/// Calls `fastrand::Rng::u64` over the full range `..`: a random `u64`, any value.
#[verifier::external_body]
fn random_u64(rng: &mut fastrand::Rng) -> u64 {
    rng.u64(..)
}

/// The indices into the sine table of the sine and of the cosine of the angle that
/// the random number `u` selects.
pub fn sin_cos_indices(u: u64) -> (indices: (usize, usize))
    ensures
        indices.0 < SIN_TABLE_SIZE,
        indices.1 < SIN_TABLE_SIZE,
        indices.0 == u % (SIN_TABLE_SIZE as u64),
        indices.0 + indices.1 == SIN_TABLE_SIZE - 1,
{
    let mask: u64 = 2047;
    let idx = u & mask;
    let idx_cos = idx ^ mask;
    assert(idx == u % 2048 && idx_cos == 2047 - idx) by (bit_vector)
        requires
            mask == 2047,
            idx == u & mask,
            idx_cos == idx ^ mask,
    ;
    (idx as usize, idx_cos as usize)
}

/// The indices into the square root table of the radius `r` and of `sqrt(1 - r^2)`,
/// drawn from the random number `u`.
pub fn sqrt_indices(u: u64) -> (indices: (usize, usize))
    ensures
        indices.0 < SQRT_TABLE_SIZE,
        indices.1 < SQRT_TABLE_SIZE,
        indices.0 == u % (SQRT_TABLE_SIZE as u64),
        indices.0 + indices.1 == SQRT_TABLE_SIZE - 1,
{
    let mask: u64 = 8191;
    let idx = u & mask;
    let idx_z = idx ^ mask;
    assert(idx == u % 8192 && idx_z == 8191 - idx) by (bit_vector)
        requires
            mask == 8191,
            idx == u & mask,
            idx_z == idx ^ mask,
    ;
    (idx as usize, idx_z as usize)
}

/// Draws the sine table indices of a uniformly distributed angle.
pub fn sample_sin_cos_indices(rng: &mut fastrand::Rng) -> (indices: (usize, usize))
    ensures
        indices.0 < SIN_TABLE_SIZE,
        indices.0 + indices.1 == SIN_TABLE_SIZE - 1,
{
    let u = random_u64(rng);
    sin_cos_indices(u)
}

/// Draws the square root table indices of a point uniform on the unit disk.
pub fn sample_sqrt_indices(rng: &mut fastrand::Rng) -> (indices: (usize, usize))
    ensures
        indices.0 < SQRT_TABLE_SIZE,
        indices.0 + indices.1 == SQRT_TABLE_SIZE - 1,
{
    let u = random_u64(rng);
    sqrt_indices(u)
}

} // verus!
