use rand::Rng;
use vstd::prelude::*;

verus! {

/// Relies on rand's `thread_rng().gen_range(lo..hi)`: a value drawn from the
/// half-open range `[lo, hi)`. `gen_range` panics on an empty range, which
/// `requires` leaves out. (`thread_rng` itself panics only where the
/// operating system cannot seed it, whatever the arguments.)
#[verifier::external_body]
pub(crate) fn random_in(lo: i32, hi: i32) -> (r: i32)
    requires
        lo < hi,
    ensures
        lo <= r < hi,
{
    rand::thread_rng().gen_range(lo..hi)
}

} // verus!
