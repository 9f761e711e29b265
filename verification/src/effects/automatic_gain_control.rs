use vstd::arithmetic::power2::pow2;
use vstd::prelude::*;

verus! {

/// Whether `n` is a power of two.
pub open spec fn is_power_of_two(n: nat) -> bool {
    exists|k: nat| pow2(k) == n
}

/// Ensures the size of the RMS window is a power of two: it is `n`, and only
/// a power of two is accepted.
pub fn power_of_two(n: usize) -> (r: usize)
    requires
        is_power_of_two(n as nat),
    ensures
        r == n,
{
    n
}

} // verus!
