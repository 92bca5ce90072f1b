//! The one source of chance.

use vstd::prelude::*;

verus! {

/// Draws a byte with `rand::random::<u8>()`, which asks the calling thread's
/// generator for a value of the standard distribution. Nothing is claimed of
/// the byte beyond its type: two calls may differ, and so may two runs. The
/// call panics only where the system has no seed to give the generator.
#[verifier::external_body]
pub(crate) fn random_byte() -> (byte: u8) {
    rand::random::<u8>()
}

} // verus!
