//! The one source of chance.

use rand::Rng;
use vstd::prelude::*;

verus! {

/// A byte drawn from the thread-local generator of the `rand` crate, by
/// `rand::thread_rng()` and `Rng::gen`.
///
/// Trusted, not proved. Nothing is claimed of the byte: the generator is
/// seeded by the operating system, so every value may come and two draws need
/// not agree. What the interpreter does with the byte is proved for every
/// value of it.
#[verifier::external_body]
pub(crate) fn random_byte() -> (byte: u8) {
    rand::thread_rng().gen()
}

} // verus!
