use vstd::prelude::*;

use crate::geom::GRID_MAX;

verus! {

/// Relies on rand::random_range: returns a value drawn from the given
/// range, here `0..=14`; it panics only on an empty range.
#[verifier::external_body]
pub(crate) fn random_coord() -> (r: i32)
    ensures
        0 <= r <= GRID_MAX,
{
    rand::random_range(0..=14)
}

} // verus!
