//! Validation of the iteration cap shared by the line searches.

use vstd::prelude::*;

verus! {

/// Validate a requested iteration cap into the range the line searches
/// accept: a request of zero means "use the default" of 500, and any
/// request above 1000 is clamped down to 1000.
pub fn effective_max_iterations(requested: usize) -> (cap: usize)
    ensures
        requested == 0 ==> cap == 500,
        1 <= requested <= 1000 ==> cap == requested,
        requested > 1000 ==> cap == 1000,
        1 <= cap <= 1000,
{
    if requested < 1 {
        500
    } else if requested > 1000 {
        1000
    } else {
        requested
    }
}

} // verus!
