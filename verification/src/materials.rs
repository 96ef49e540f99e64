//! Properties of the host material, silicon.
use vstd::prelude::*;

verus! {

/// Phonon branch: longitudinal, fast transversal or slow transversal.
#[derive(Debug, Clone, Copy, PartialEq, Eq, Structural)]
pub enum Branch {
    L,
    FT,
    ST,
}

} // verus!
