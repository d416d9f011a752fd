//! The one call into the random number generator.

use vstd::prelude::*;

verus! {

/// Relies on rand's `Rng::gen_range` over `0..n` (with `thread_rng`): it
/// returns a value uniformly distributed in `[0, n)` and panics only on an
/// empty range, which `1 <= n` rules out. Nothing more than the bound is
/// stated, since the result is random.
#[verifier::external_body]
pub(crate) fn random_below(n: u32) -> (r: u32)
    requires
        1 <= n,
    ensures
        r < n,
{
    rand::Rng::gen_range(&mut rand::thread_rng(), 0..n)
}

} // verus!
