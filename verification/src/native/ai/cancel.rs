//! The request to stop the current generation.

use vstd::prelude::*;

verus! {

/// Whether the user asked to stop the current generation.
pub struct CancelFlag {
    requested: bool,
}

impl CancelFlag {
    /// Whether a stop was requested.
    pub closed spec fn view(&self) -> bool {
        self.requested
    }

    /// No stop requested.
    pub fn new() -> (r: Self)
        ensures
            !r@,
    {
        CancelFlag { requested: false }
    }
}

/// Whether a stop was requested.
pub fn is_cancelled(flag: &CancelFlag) -> (r: bool)
    ensures
        r == flag@,
{
    flag.requested
}

/// Asks to stop the current generation.
pub fn request_cancel(flag: &mut CancelFlag)
    ensures
        final(flag)@,
{
    flag.requested = true;
}

/// Clears the request, before the next generation.
pub fn reset_cancel(flag: &mut CancelFlag)
    ensures
        !final(flag)@,
{
    flag.requested = false;
}

} // verus!
