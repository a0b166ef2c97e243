//! The source of randomness: the thread-local generator of the `rand` crate.
//! Nothing here is proved; the contracts say what `rand` documents.

use rand::Rng;
use vstd::prelude::*;

verus! {

/// The generator, `rand::rngs::ThreadRng`, kept as an opaque type.
#[verifier::external_type_specification]
#[verifier::external_body]
pub struct ExThreadRng(rand::rngs::ThreadRng);

/// `rand::thread_rng`: a handle to the calling thread's generator.
#[verifier::external_body]
pub(crate) fn thread_generator() -> rand::rngs::ThreadRng {
    rand::thread_rng()
}

/// `Rng::gen` at `u128`: 128 random bits. Any value may come back.
#[verifier::external_body]
pub(crate) fn random_word(rng: &mut rand::rngs::ThreadRng) -> u128 {
    rng.gen()
}

/// `Rng::gen_range` on `low..high`: some value of the half-open range. The
/// range must not be empty, since `gen_range` panics on an empty one.
#[verifier::external_body]
pub(crate) fn random_below(rng: &mut rand::rngs::ThreadRng, low: u128, high: u128) -> (r: u128)
    requires
        low < high,
    ensures
        low <= r < high,
{
    rng.gen_range(low..high)
}

} // verus!
