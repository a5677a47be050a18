//! Decision logic of a three-body viewer: the catalogue of initial
//! configurations, the identities of the Lagrange points, and the per-frame
//! control rules (preset selection, fast-forward boost, playback speed).
use vstd::prelude::*;

pub mod control;
pub mod lagrange;
pub mod preset;

verus! {

} // verus!
