//! A source of randomness for `emit`, backed by the `rand` library.
//!
//! `emit` can be configured with its own `rand`-based generator, but only on
//! select platforms and with whatever version of `rand` it pulls in. An
//! application that already depends on `rand` can hand `emit` a [`RandRng`]
//! instead, so that exactly one version of `rand` ends up in its dependency
//! tree.
//!
//! # Versioning and compatibility
//!
//! Version `x.y.z` of this crate is compatible with `rand` version `x.y.*`.

use crate::thread_rng::{fill_bytes, random_u128, random_u64, thread_rng};
use vstd::prelude::*;

mod thread_rng;

verus! {

/// Create a new source of randomness based on [`RandRng`].
pub fn rng() -> (r: RandRng)
    ensures
        r == (RandRng {  }),
{
    RandRng::new()
}

/// A source of randomness that draws from the thread-local generator of `rand`.
///
/// The value holds no state: every operation asks `rand` for its generator
/// anew, so any two values are the same value and a copy is as good as the
/// original.
#[derive(Debug, Clone, Copy)]
pub struct RandRng {}

impl RandRng {
    /// Create a new source of randomness.
    pub fn new() -> (r: Self)
        ensures
            r == (RandRng {  }),
    {
        RandRng {  }
    }

    /// Fill `arr` with random bytes and hand it back.
    ///
    /// Always answers `Some`, with the very buffer that was passed in, at the
    /// length it came with: whatever the caller goes on to write through the
    /// returned reference is what `arr` ends up holding. Which bytes the
    /// generator put there is up to the generator.
    pub fn fill<'a>(&self, arr: &'a mut [u8]) -> (r: Option<&'a mut [u8]>)
        ensures
            r is Some,
            r.unwrap()@.len() == old(arr)@.len(),
            final(arr)@ == final(r.unwrap())@,
    {
        let mut generator = thread_rng();
        fill_bytes(&mut generator, arr);
        available(arr)
    }

    /// Get a random 64-bit number.
    ///
    /// Always answers `Some`. Which number it holds is up to the generator.
    pub fn gen_u64(&self) -> (r: Option<u64>)
        ensures
            r is Some,
    {
        let mut generator = thread_rng();
        available(random_u64(&mut generator))
    }

    /// Get a random 128-bit number.
    ///
    /// Always answers `Some`. Which number it holds is up to the generator.
    pub fn gen_u128(&self) -> (r: Option<u128>)
        ensures
            r is Some,
    {
        let mut generator = thread_rng();
        available(random_u128(&mut generator))
    }
}

/// What an operation answers once the generator has produced `drawn`: the
/// value itself, reported as available. The operations of [`RandRng`] never
/// report that randomness is unavailable.
pub fn available<T>(drawn: T) -> (r: Option<T>)
    ensures
        r == Some(drawn),
{
    Some(drawn)
}

/// The adapter holds no state: any two of them are the same value, the one
/// that [`RandRng::new`] constructs. What holds of a freshly made adapter
/// therefore holds of every adapter, and of every copy of one.
pub proof fn lemma_stateless(a: RandRng, b: RandRng)
    ensures
        a == b,
        a == (RandRng {  }),
{
}

impl Default for RandRng {
    fn default() -> (r: Self)
        ensures
            r == (RandRng {  }),
    {
        RandRng::new()
    }
}

} // verus!
