//! Stack guards. This platform records none.

use vstd::prelude::*;

verus! {

/// The guard of the calling thread's stack: none, as none is recorded.
pub fn current() -> (guard: Option<usize>)
    ensures
        guard is None,
{
    None
}

/// Sets up the guard of the main thread's stack and returns it: none, as
/// this platform sets up no guard.
pub fn init() -> (guard: Option<usize>)
    ensures
        guard is None,
{
    None
}

} // verus!
