//! The source of random bytes, provided by the `rand` crate.

use rand::rngs::ThreadRng;
use rand::Rng;
use vstd::prelude::*;

verus! {

/// `rand::rngs::ThreadRng`, the handle to the random number generator of the current
/// thread. Nothing is known of its state.
#[verifier::external_type_specification]
#[verifier::external_body]
pub struct ExThreadRng(ThreadRng);

/// `rand::thread_rng` hands out the generator of the current thread. Nothing is claimed
/// of the handle. The function takes no argument; it panics only when the operating
/// system cannot seed the generator at its first use in the thread.
pub assume_specification[ rand::thread_rng ]() -> (rng: ThreadRng);

/// `Rng::gen_range` over the whole range of a byte. Nothing is claimed of the byte that
/// comes back, and two calls may give different bytes. The range is not empty, which is
/// all that the call asks of its argument; it panics only when the operating system
/// fails to give the generator fresh entropy at one of its periodic reseedings.
#[verifier::external_body]
pub(crate) fn random_byte(rng: &mut ThreadRng) -> (byte: u8) {
    rng.gen_range(0..=u8::MAX)
}

} // verus!
