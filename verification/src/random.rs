//! Random numbers from a seed.

use rand::{Rng, SeedableRng};
use rand_chacha::ChaCha20Rng;
use vstd::prelude::*;

verus! {

/// A ChaCha20 random number generator: the seed of its stream, and the number of words that were
/// drawn from the stream so far.
#[derive(Debug, Clone, Copy, PartialEq, Eq)]
pub struct SeededRng {
    seed: [u8; 32],
    position: u128,
}

/// The plain value of a [`SeededRng`].
pub struct SeededRngView {
    pub seed: Seq<u8>,
    pub position: u128,
}

/// The word of the ChaCha20 stream with the given seed in the given place.
pub uninterp spec fn chacha20_word(seed: Seq<u8>, place: int) -> u32;

impl SeededRngView {
    /// A generator from which nothing was drawn.
    pub open spec fn fresh(seed: Seq<u8>) -> SeededRngView {
        SeededRngView { seed, position: 0 }
    }

    /// The word in place `i` among those that are drawn next.
    pub open spec fn word(self, i: int) -> u32 {
        chacha20_word(self.seed, self.position + i)
    }

    /// The four integers that are drawn next, of two words each, the lower one first.
    pub open spec fn integers(self) -> Seq<u64> {
        Seq::new(4, |i: int| (self.word(2 * i) + 0x1_0000_0000 * self.word(2 * i + 1)) as u64)
    }

    /// The 32 bytes that are drawn next, the lowest one of a word each.
    pub open spec fn bytes(self) -> Seq<u8> {
        Seq::new(32, |i: int| (self.word(i) % 0x100) as u8)
    }

    /// The generator after some words were drawn. The stream repeats itself after so many words that
    /// the position may start again from zero.
    pub open spec fn advanced(self, words: u128) -> SeededRngView {
        SeededRngView { position: self.position.wrapping_add(words), ..self }
    }
}

impl View for SeededRng {
    type V = SeededRngView;

    closed spec fn view(&self) -> SeededRngView {
        SeededRngView { seed: self.seed@, position: self.position }
    }
}

impl SeededRng {
    /// A generator with the given seed.
    pub fn from_seed(seed: [u8; 32]) -> (rng: SeededRng)
        ensures
            rng@ == SeededRngView::fresh(seed@),
            rng@.seed == seed@,
            rng@.position == 0,
    {
        SeededRng { seed, position: 0 }
    }

    /// A generator with a random seed.
    pub fn from_entropy() -> (rng: SeededRng)
        ensures
            rng@ == SeededRngView::fresh(rng@.seed),
            rng@.seed.len() == 32,
            rng@.position == 0,
    {
        SeededRng::from_seed(random_seed())
    }

    /// Draws four integers.
    pub fn next_integers(&mut self) -> (integers: [u64; 4])
        ensures
            integers@ == old(self)@.integers(),
            final(self)@ == old(self)@.advanced(8),
            final(self)@.seed == old(self)@.seed,
            old(self)@.position + 8 <= u128::MAX ==> final(self)@.position == old(self)@.position
                + 8,
            forall|i: int|
                0 <= i < 4 ==> #[trigger] integers@[i] == chacha20_word(
                    old(self)@.seed,
                    old(self)@.position + 2 * i,
                ) + 0x1_0000_0000 * chacha20_word(
                    old(self)@.seed,
                    old(self)@.position + 2 * i + 1,
                ),
    {
        let integers = draw_integers(self.seed, self.position);
        assert(integers@ =~= self@.integers());
        self.position = self.position.wrapping_add(8);
        integers
    }

    /// Draws 32 bytes.
    pub fn next_bytes(&mut self) -> (bytes: [u8; 32])
        ensures
            bytes@ == old(self)@.bytes(),
            final(self)@ == old(self)@.advanced(32),
            final(self)@.seed == old(self)@.seed,
            old(self)@.position + 32 <= u128::MAX ==> final(self)@.position == old(self)@.position
                + 32,
            forall|i: int|
                0 <= i < 32 ==> #[trigger] bytes@[i] == chacha20_word(
                    old(self)@.seed,
                    old(self)@.position + i,
                ) % 0x100,
    {
        let bytes = draw_bytes(self.seed, self.position);
        assert(bytes@ =~= self@.bytes());
        self.position = self.position.wrapping_add(32);
        bytes
    }
}

/// `rand::random`, for a seed. Nothing is claimed: the result is chance.
#[verifier::external_body]
fn random_seed() -> (seed: [u8; 32]) {
    rand::random()
}

/// `Rng::random`, for four integers, on `ChaCha20Rng::from_seed` moved to a position.
///
/// Claimed: each integer is made of two words that follow each other in the stream, the lower one
/// first. What the words are is not stated.
#[verifier::external_body]
fn draw_integers(seed: [u8; 32], position: u128) -> (integers: [u64; 4])
    ensures
        forall|i: int|
            0 <= i < 4 ==> #[trigger] integers@[i] == chacha20_word(seed@, position + 2 * i)
                + 0x1_0000_0000 * chacha20_word(seed@, position + 2 * i + 1),
{
    let mut rng = ChaCha20Rng::from_seed(seed);
    rng.set_word_pos(position);
    rng.random()
}

/// `Rng::random`, for 32 bytes, on `ChaCha20Rng::from_seed` moved to a position.
///
/// Claimed: each byte is the lowest one of a word, and the words follow each other in the stream.
/// What the words are is not stated.
#[verifier::external_body]
fn draw_bytes(seed: [u8; 32], position: u128) -> (bytes: [u8; 32])
    ensures
        forall|i: int|
            0 <= i < 32 ==> #[trigger] bytes@[i] == chacha20_word(seed@, position + i) % 0x100,
{
    let mut rng = ChaCha20Rng::from_seed(seed);
    rng.set_word_pos(position);
    rng.random()
}

/// What is drawn next from a generator are the words of its stream from its position on: two for each
/// integer, the lower one first, or the lowest byte of each. What was drawn is not drawn again before
/// the stream comes to its end.
pub proof fn law_words_are_drawn_in_order(rng: SeededRngView, words: u128)
    ensures
        rng.integers().len() == 4,
        forall|i: int|
            0 <= i < 4 ==> (#[trigger] rng.integers()[i]) % 0x1_0000_0000 == chacha20_word(
                rng.seed,
                rng.position + 2 * i,
            ) && rng.integers()[i] / 0x1_0000_0000 == chacha20_word(
                rng.seed,
                rng.position + 2 * i + 1,
            ),
        rng.bytes().len() == 32,
        forall|i: int|
            0 <= i < 32 ==> (#[trigger] rng.bytes()[i]) == chacha20_word(
                rng.seed,
                rng.position + i,
            ) % 0x100,
        rng.advanced(words).seed == rng.seed,
        rng.position + words <= u128::MAX ==> rng.advanced(words).position == rng.position + words,
        SeededRngView::fresh(rng.seed).position == 0,
        SeededRngView::fresh(rng.seed).seed == rng.seed,
{
}

} // verus!
