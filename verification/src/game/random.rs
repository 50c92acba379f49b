use rand::Rng;
use vstd::prelude::*;

verus! {

/// Trusted: calls `rand::Rng::gen_range` on `rand::thread_rng()` with the
/// bounds 0 and `bound`. The generator documents a value in the half-open
/// range from the first bound to the second, and a panic where the range is
/// empty; nothing more is claimed of the draw.
#[verifier::external_body]
pub(crate) fn random_below(bound: usize) -> (r: usize)
    requires
        bound > 0,
    ensures
        r < bound,
{
    rand::thread_rng().gen_range(0, bound)
}

} // verus!
