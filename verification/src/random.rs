//! The source of random bytes.

use vstd::prelude::*;
use rand::Rng;

verus! {

/// Draws a byte from the thread-local generator of the `rand` crate: calls
/// `rand::thread_rng()` and, on the generator it returns, `Rng::gen_range`
/// with the range `0..=255`.
///
/// The body is not verified, and nothing is claimed about the byte: any of
/// the 256 values may come back, and two calls may differ. The range is not
/// empty, so `gen_range` does not panic; `rand` itself panics if the
/// operating system gives it no seed when a thread first asks for its
/// generator.
#[verifier::external_body]
pub(crate) fn random_byte() -> (byte: u8) {
    rand::thread_rng().gen_range(0..=255)
}

} // verus!
