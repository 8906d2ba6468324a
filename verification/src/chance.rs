//! The one source of randomness.

use vstd::prelude::*;

verus! {

/// `rand::random_range` on the range from zero up to, but not including,
/// `n`. Trusted: the value lies in that range. It differs from call to call,
/// so nothing more is claimed. The range must not be empty: the outside
/// function panics on an empty range.
#[verifier::external_body]
pub(crate) fn random_below(n: usize) -> (r: usize)
    requires
        n > 0,
    ensures
        r < n,
{
    rand::random_range(0..n)
}

} // verus!
