//! The thread-local generator of `rand`, as far as the adapter draws from it.
//!
//! Nothing in this file is proved. Each item states what is taken on trust of
//! `rand`, and no more than holds of every value that the generator can
//! produce.

use rand::rngs::ThreadRng;
use rand::{Rng, RngCore};
use vstd::prelude::*;

verus! {

/// `rand::rngs::ThreadRng`, the handle to the generator of the calling thread.
/// Its state is hidden: a handle is only ever passed on to the generator's own
/// methods.
#[verifier::external_type_specification]
#[verifier::external_body]
pub struct ExThreadRng(rand::rngs::ThreadRng);

/// `rand::rng` hands out a handle to the generator of the calling thread.
/// Nothing is claimed of the handle. The first call on a thread seeds the
/// generator from the operating system, and panics if that source fails.
#[verifier::external_body]
pub(crate) fn thread_rng() -> ThreadRng {
    rand::rng()
}

/// `RngCore::fill_bytes` on the thread-local generator overwrites `dest` in
/// place. A slice cannot grow or shrink, so `dest` keeps its length; which
/// bytes it holds afterwards is left open.
#[verifier::external_body]
pub(crate) fn fill_bytes(generator: &mut ThreadRng, dest: &mut [u8])
    ensures
        final(dest)@.len() == old(dest)@.len(),
{
    generator.fill_bytes(dest)
}

/// `Rng::random` at `u64` on the thread-local generator. Every `u64` is a
/// possible result, so nothing is claimed of it.
#[verifier::external_body]
pub(crate) fn random_u64(generator: &mut ThreadRng) -> u64 {
    generator.random()
}

/// `Rng::random` at `u128` on the thread-local generator. Every `u128` is a
/// possible result, so nothing is claimed of it.
#[verifier::external_body]
pub(crate) fn random_u128(generator: &mut ThreadRng) -> u128 {
    generator.random()
}

} // verus!
