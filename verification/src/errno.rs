//! An `errno` stand-in for targets that have no C error number.

use vstd::prelude::*;

verus! {

/// An error number. On targets without a C runtime there is no error state,
/// so the last error number is always zero.
#[derive(Debug, Clone, Copy, PartialEq, Eq)]
pub struct Errno(pub i32);

impl Errno {
    /// The last error number: always `Errno(0)` here.
    pub fn last() -> (e: Errno)
        ensures
            e.0 == 0,
    {
        Errno(0)
    }

    /// Clears the error state; there is none to clear.
    pub fn clear() {
    }

    /// Wraps a raw error number.
    pub fn from_i32(errno: i32) -> (e: Errno)
        ensures
            e.0 == errno,
    {
        Errno(errno)
    }
}

/// The current error number, the same as [`Errno::last`].
pub fn errno() -> (e: Errno)
    ensures
        e.0 == 0,
{
    Errno::last()
}

/// Sets the error number; without an error state this has no effect.
pub fn set_errno(e: Errno) {
    let Errno(_errno) = e;
}

} // verus!
