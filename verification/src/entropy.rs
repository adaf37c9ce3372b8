//! The source of the random byte that `CXNN` uses.
use vstd::prelude::*;

verus! {

/// Calls `rand::random::<u8>()`, which draws a byte from the thread-local
/// generator. The byte depends on chance, so nothing is stated of it.
#[verifier::external_body]
pub(crate) fn random_byte() -> u8 {
    rand::random::<u8>()
}

} // verus!
