//! Shared-ownership and raw-memory primitives: an arena of reference-counted
//! cells with owning handles, a swappable variant of those handles, and
//! byte-level copy, move, fill and swap over an address space.
use vstd::prelude::*;

pub mod arc;
pub mod fail;
pub mod mem;
pub mod ptr;

verus! {

} // verus!
