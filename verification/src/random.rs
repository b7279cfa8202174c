//! The pseudo-random source of the machine: the xoroshiro128+ generator of
//! the `xorshift` crate.
//!
//! The generator is deterministic: what it returns depends on the two
//! 64-bit words of state that it holds, and on nothing else. The contracts
//! here say no more than that. They give the state a name and the step of
//! the generator a name, so that the contracts of the machine can say when
//! a number is drawn and that equal machines draw equal numbers. None of
//! this is proved: it is taken from the source of the crate.

use vstd::prelude::*;
use xorshift::{Rng, SeedableRng, Xoroshiro128};

verus! {

/// First word of the fixed seed that every machine starts from.
pub const SEED_LOW: u64 = 0x7020de7ee5e88ab7;

/// Second word of the fixed seed that every machine starts from.
pub const SEED_HIGH: u64 = 0xe587fbb5ba4fccee;

/// The type `xorshift::Xoroshiro128`. Nothing is known of what is inside a
/// value of it but what `generator_words` names.
#[verifier::external_type_specification]
#[verifier::external_body]
pub struct ExXoroshiro128(Xoroshiro128);

/// The two 64-bit words of state that a `Xoroshiro128` holds, in the order
/// in which the generator keeps them.
pub uninterp spec fn generator_words(generator: Xoroshiro128) -> Seq<u64>;

/// What one call of `Rng::next_u32` makes of a `Xoroshiro128` that holds
/// `words`: the 32-bit number that the call returns, and the words that the
/// generator holds afterwards.
pub uninterp spec fn xoroshiro_next(words: Seq<u64>) -> (u32, Seq<u64>);

/// Calls `SeedableRng::from_seed` of `Xoroshiro128` on a slice of two
/// words. It is taken on trust that the new generator holds exactly these
/// two words, in this order; the crate copies them into its state.
#[verifier::external_body]
pub(crate) fn seeded_generator(low: u64, high: u64) -> (generator: Xoroshiro128)
    ensures
        generator_words(generator) == seq![low, high],
{
    Xoroshiro128::from_seed(&[low, high])
}

/// Calls `Rng::next_u32` of `Xoroshiro128`. It is taken on trust that the
/// number returned and the state left behind depend on the state before
/// the call alone. Which number and which state they are is not said here,
/// only named.
#[verifier::external_body]
pub(crate) fn next_word(generator: &mut Xoroshiro128) -> (word: u32)
    ensures
        word == xoroshiro_next(generator_words(*old(generator))).0,
        generator_words(*final(generator)) == xoroshiro_next(generator_words(*old(generator))).1,
{
    generator.next_u32()
}

} // verus!
