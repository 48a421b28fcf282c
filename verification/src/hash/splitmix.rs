//! Deterministic coefficient stream.
//!
//! A SplitMix64 generator that is re-seeded for every block from the domain
//! seed and the block counter. Its state after `k` draws is the seed state
//! advanced by `k` golden-ratio increments, so every draw is a function of
//! the seed state and the position in the stream alone.

use vstd::prelude::*;

verus! {

/// Number of bytes in a domain seed.
pub const SEED_BYTES: usize = 32;

/// Largest absolute value of a folding weight.
pub const COEFF_BOUND: i128 = 5;

/// Prime modulus of the lattice.
pub const MODULUS: i128 = 12_289;

/// The golden-ratio increment of SplitMix64.
pub const GOLDEN_GAMMA: u64 = 0x9E37_79B9_7F4A_7C15;

/// First multiplier of the SplitMix64 finalizer.
pub const MIX_MUL_A: u64 = 0xBF58_476D_1CE4_E5B9;

/// Second multiplier of the SplitMix64 finalizer, also the additive constant of seeding.
pub const MIX_MUL_B: u64 = 0x94D0_49BB_1331_11EB;

/// The ASCII bytes of `retlatte`, read as a big-endian word.
pub const STREAM_TAG: u64 = 0x7265_746C_6174_7465;

/// Two to the power 64.
pub open spec fn word_range() -> int {
    0x1_0000_0000_0000_0000
}

/// The SplitMix64 output function: two rounds of xor-shift and multiply, then a last xor-shift.
pub open spec fn spec_mix(z: u64) -> u64 {
    let a = (z ^ (z >> 30)).wrapping_mul(MIX_MUL_A);
    let b = (a ^ (a >> 27)).wrapping_mul(MIX_MUL_B);
    b ^ (b >> 31)
}

/// Rotation of a 64-bit word to the left by `r` bits, `r < 64`.
pub open spec fn spec_rotl64(v: u64, r: u32) -> u64 {
    if r == 0 {
        v
    } else {
        (v << r) | (v >> ((64 - r) as u32))
    }
}

/// The little-endian value of the eight bytes of `s` that start at `at`.
pub open spec fn spec_le_word(s: Seq<u8>, at: int) -> u64 {
    (s[at] as int + 0x100 * (s[at + 1] as int) + 0x1_0000 * (s[at + 2] as int) + 0x100_0000 * (s[at
        + 3] as int) + 0x1_0000_0000 * (s[at + 4] as int) + 0x100_0000_0000 * (s[at + 5] as int)
        + 0x1_0000_0000_0000 * (s[at + 6] as int) + 0x100_0000_0000_0000 * (s[at + 7] as int)) as u64
}

/// One seeding round: xor in the rotated chunk, then multiply and add.
pub open spec fn spec_seed_round(state: u64, chunk: u64, index: u32) -> u64 {
    (state ^ spec_rotl64(chunk, (index * 11) as u32)).wrapping_mul(MIX_MUL_A).wrapping_add(
        MIX_MUL_B,
    )
}

/// The state a stream starts in for a seed of 32 bytes and a block counter.
pub open spec fn spec_seed_state(seed: Seq<u8>, block_counter: u64) -> u64 {
    let s0 = block_counter.wrapping_mul(GOLDEN_GAMMA);
    let s1 = spec_seed_round(s0, spec_le_word(seed, 0), 0);
    let s2 = spec_seed_round(s1, spec_le_word(seed, 8), 1);
    let s3 = spec_seed_round(s2, spec_le_word(seed, 16), 2);
    let s4 = spec_seed_round(s3, spec_le_word(seed, 24), 3);
    s4 ^ STREAM_TAG
}

/// The state of a stream that started in `start` after `draws` draws.
#[verifier::opaque]
pub open spec fn spec_state_after(start: u64, draws: nat) -> u64 {
    ((start + draws * GOLDEN_GAMMA) % word_range()) as u64
}

/// The word that draw number `k` returns, counting from 1, on a stream that started in `start`.
pub open spec fn spec_draw(start: u64, k: nat) -> u64 {
    spec_mix(spec_state_after(start, k))
}

/// A word reduced to a folding weight in `[-COEFF_BOUND, COEFF_BOUND]`.
pub open spec fn spec_small(word: u64) -> int {
    (word % 11) - 5
}

/// A word reduced to a residue in `[0, MODULUS)`.
pub open spec fn spec_residue(word: u64) -> int {
    (word % 12_289) as int
}

/// A draw advances the state by one golden-ratio increment, with wraparound.
pub proof fn lemma_state_step(start: u64, draws: nat)
    ensures
        spec_state_after(start, draws).wrapping_add(GOLDEN_GAMMA) == spec_state_after(
            start,
            draws + 1,
        ),
        spec_state_after(start, 0) == start,
{
    reveal(spec_state_after);
    let a = start + draws * GOLDEN_GAMMA;
    assert((draws + 1) * GOLDEN_GAMMA == draws * GOLDEN_GAMMA + GOLDEN_GAMMA) by (nonlinear_arith);
    assert(0 <= draws * GOLDEN_GAMMA) by (nonlinear_arith);
    vstd::arithmetic::div_mod::lemma_add_mod_noop(a, GOLDEN_GAMMA as int, word_range());
    vstd::arithmetic::div_mod::lemma_small_mod(GOLDEN_GAMMA as nat, word_range() as nat);
    vstd::arithmetic::div_mod::lemma_mod_bound(a, word_range());
    vstd::arithmetic::div_mod::lemma_small_mod(start as nat, word_range() as nat);
    let m = a % word_range();
    if m + GOLDEN_GAMMA >= word_range() {
        vstd::arithmetic::div_mod::lemma_mod_sub_multiples_vanish(
            m + GOLDEN_GAMMA,
            word_range(),
        );
        vstd::arithmetic::div_mod::lemma_small_mod(
            (m + GOLDEN_GAMMA - word_range()) as nat,
            word_range() as nat,
        );
    } else {
        vstd::arithmetic::div_mod::lemma_small_mod((m + GOLDEN_GAMMA) as nat, word_range() as nat);
    }
}

/// The little-endian word of the eight bytes that start at `at`.
fn le_word(seed: &[u8; 32], at: usize) -> (w: u64)
    requires
        at + 8 <= 32,
    ensures
        w == spec_le_word(seed@, at as int),
{
    let b0: u64 = seed[at] as u64;
    let b1: u64 = seed[at + 1] as u64;
    let b2: u64 = seed[at + 2] as u64;
    let b3: u64 = seed[at + 3] as u64;
    let b4: u64 = seed[at + 4] as u64;
    let b5: u64 = seed[at + 5] as u64;
    let b6: u64 = seed[at + 6] as u64;
    let b7: u64 = seed[at + 7] as u64;
    b0 + 0x100 * b1 + 0x1_0000 * b2 + 0x100_0000 * b3 + 0x1_0000_0000 * b4 + 0x100_0000_0000 * b5
        + 0x1_0000_0000_0000 * b6 + 0x100_0000_0000_0000 * b7
}

/// Rotation of a 64-bit word to the left.
fn rotl64(v: u64, r: u32) -> (w: u64)
    requires
        r < 64,
    ensures
        w == spec_rotl64(v, r),
{
    if r == 0 {
        v
    } else {
        (v << r) | (v >> (64 - r))
    }
}

/// One seeding round over chunk number `index` of the seed.
fn seed_round(state: u64, seed: &[u8; 32], index: u32) -> (next: u64)
    requires
        index < 4,
    ensures
        next == spec_seed_round(state, spec_le_word(seed@, index * 8), index),
{
    let value = le_word(seed, (index * 8) as usize);
    (state ^ rotl64(value, index * 11)).wrapping_mul(MIX_MUL_A).wrapping_add(MIX_MUL_B)
}

/// SplitMix64 generator with one word of state.
pub struct SplitMix64 {
    state: u64,
}

impl Clone for SplitMix64 {
    fn clone(&self) -> (copy: SplitMix64)
        ensures
            copy@ == self@,
    {
        SplitMix64 { state: self.state }
    }
}

impl SplitMix64 {
    /// The current state word.
    pub closed spec fn view(&self) -> u64 {
        self.state
    }

    /// Seeds a stream from the domain seed and the block counter.
    pub fn from_seed(seed: &[u8; 32], block_counter: u64) -> (prng: SplitMix64)
        ensures
            prng@ == spec_seed_state(seed@, block_counter),
    {
        let mut state = block_counter.wrapping_mul(GOLDEN_GAMMA);
        state = seed_round(state, seed, 0);
        state = seed_round(state, seed, 1);
        state = seed_round(state, seed, 2);
        state = seed_round(state, seed, 3);
        SplitMix64 { state: state ^ STREAM_TAG }
    }

    /// Advances the state by the golden-ratio increment and returns the mixed word.
    pub fn next_u64(&mut self) -> (word: u64)
        ensures
            final(self)@ == old(self)@.wrapping_add(GOLDEN_GAMMA),
            word == spec_mix(final(self)@),
    {
        self.state = self.state.wrapping_add(GOLDEN_GAMMA);
        let z = self.state;
        let a = (z ^ (z >> 30)).wrapping_mul(MIX_MUL_A);
        let b = (a ^ (a >> 27)).wrapping_mul(MIX_MUL_B);
        b ^ (b >> 31)
    }

    /// Draws a folding weight in `[-COEFF_BOUND, COEFF_BOUND]`.
    pub fn next_small(&mut self) -> (weight: i128)
        ensures
            final(self)@ == old(self)@.wrapping_add(GOLDEN_GAMMA),
            weight == spec_small(spec_mix(final(self)@)),
            -COEFF_BOUND <= weight <= COEFF_BOUND,
    {
        let span: u64 = 11;
        let sample: u64 = self.next_u64() % span;
        sample as i128 - COEFF_BOUND
    }

    /// Draws a residue in `[0, MODULUS)`.
    pub fn next_mod(&mut self) -> (residue: i128)
        ensures
            final(self)@ == old(self)@.wrapping_add(GOLDEN_GAMMA),
            residue == spec_residue(spec_mix(final(self)@)),
            0 <= residue < MODULUS,
    {
        (self.next_u64() % 12_289) as i128
    }
}

} // verus!
