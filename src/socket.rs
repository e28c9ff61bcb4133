//! Decisions of the socket binder that do not touch the operating system.

use vstd::prelude::*;

verus! {

/// A buffer size the operating system granted below the one requested.
#[derive(Clone, Copy, Debug, PartialEq, Eq, Structural)]
pub struct BufferShortfall {
    pub requested: usize,
    pub granted: usize,
}

/// Compares a granted buffer size with the requested one: a shortfall is
/// reported exactly when less was granted. It is a warning, never an error.
pub fn buffer_shortfall(requested: usize, granted: usize) -> (r: Option<BufferShortfall>)
    ensures
        r is Some <==> granted < requested,
        r is Some ==> r == Some(BufferShortfall { requested, granted }),
{
    if granted < requested {
        Some(BufferShortfall { requested, granted })
    } else {
        None
    }
}

} // verus!
