//! Helpers of the billing service's stream handlers.
use vstd::prelude::*;

verus! {

/// The digest billing records for a compensation transaction. Digests are
/// not computed yet: every input gives 0.
pub fn md5_hash(bytes: &[u8]) -> (r: u128)
    ensures
        r == 0,
{
    0
}

} // verus!
