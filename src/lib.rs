use vstd::prelude::*;

pub mod cube;
pub mod life;
pub mod snake;

verus! {

/// A viewport too small to hold a usable board (no rows or no columns).
#[derive(Debug, Clone, Copy, PartialEq, Eq, Structural)]
pub struct InvalidViewport;

} // verus!
