//! Random session ids, drawn from the `rand` crate.

use vstd::prelude::*;
use rand::rngs::ThreadRng;

verus! {

/// `rand::rngs::ThreadRng`: a handle on the calling thread's generator. The
/// broker keeps one and only ever draws from it.
#[verifier::external_type_specification]
#[verifier::external_body]
pub struct ExThreadRng(ThreadRng);

/// `rand::thread_rng`: hands out the calling thread's generator, which the
/// operating system seeds on first use. It takes no argument and nothing is
/// claimed of what it returns. On a machine whose operating system cannot
/// give a seed it does not return.
pub assume_specification[ rand::thread_rng ]() -> ThreadRng;

/// `rand::Rng::gen::<usize>`: the next number of the generator. Any value may
/// come back, so nothing is claimed of it.
#[verifier::external_body]
pub(crate) fn random_id(rng: &mut ThreadRng) -> usize {
    rand::Rng::gen::<usize>(rng)
}

} // verus!
