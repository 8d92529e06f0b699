//! The one source of chance in the game.

use rand::Rng;
use vstd::prelude::*;

verus! {

/// Relies on rand's `thread_rng` and `Rng::gen_range` on a half-open integer
/// range: the result lies in `[0, bound)`; the range is never empty here.
#[verifier::external_body]
pub(crate) fn draw_below(bound: i64) -> (r: i64)
    requires
        bound > 0,
    ensures
        0 <= r < bound,
{
    rand::thread_rng().gen_range(0..bound)
}

} // verus!
