//! Streaming lattice hash.
//!
//! Input bytes are folded, block by block, into an accumulator of 256 wide
//! signed coefficients with small pseudorandom weights. The accumulator is
//! reduced modulo a prime and compressed into a digest of 32 bytes. The
//! construction is a heuristic digest: no security reduction is claimed.

use crate::hash::splitmix::{
    lemma_state_step, spec_draw, spec_residue, spec_seed_state, spec_small, spec_state_after,
    SplitMix64, MODULUS, SEED_BYTES,
};
use vstd::prelude::*;
use vstd::wrapping::i128_specs;

verus! {

/// Number of bytes absorbed at once.
pub const BLOCK_BYTES: usize = 64;

/// Number of coefficients in the accumulator.
pub const LATTICE_DIM: usize = 256;

/// Number of bytes in a digest.
pub const DIGEST_BYTES: usize = 32;

/// Rotation of a byte to the left by `r` bits, `r < 8`.
pub open spec fn spec_rotl8(x: u8, r: u32) -> u8 {
    if r == 0 {
        x
    } else {
        (x << r) | (x >> ((8 - r) as u32))
    }
}

/// Rotation of a byte to the left.
fn rotl8(x: u8, r: u32) -> (y: u8)
    requires
        r < 8,
    ensures
        y == spec_rotl8(x, r),
{
    if r == 0 {
        x
    } else {
        (x << r) | (x >> (8 - r))
    }
}

/// The seed that the empty domain tag stands for, at position `i`.
pub open spec fn spec_fallback_seed_byte(i: int) -> u8 {
    ((i * 31 + 0xA5) % 256) as u8
}

/// The whitening mask of seed position `i`.
pub open spec fn spec_whitening(i: int) -> u8 {
    (((32 - i) * 23 + 0x55) % 256) as u8
}

/// One domain byte folded into the seed byte of its position.
pub open spec fn spec_seed_mix(prev: u8, byte: u8, idx: int) -> u8 {
    (prev ^ spec_rotl8(byte, ((idx % 7) + 1) as u32)).wrapping_add(((idx * 17) % 256) as u8)
}

/// Seed position `p` after the first `n` bytes of the domain tag were folded in.
pub open spec fn spec_seed_fold(domain: Seq<u8>, p: int, n: nat) -> u8
    decreases n,
{
    if n == 0 {
        0
    } else {
        let prev = spec_seed_fold(domain, p, (n - 1) as nat);
        if (n - 1) % 32 == p {
            spec_seed_mix(prev, domain[n - 1], n - 1)
        } else {
            prev
        }
    }
}

/// The 32-byte seed of a domain tag.
pub open spec fn spec_derive_seed(domain: Seq<u8>) -> Seq<u8> {
    if domain.len() == 0 {
        Seq::new(32, |i: int| spec_fallback_seed_byte(i))
    } else {
        Seq::new(32, |i: int| spec_seed_fold(domain, i, domain.len()) ^ spec_whitening(i))
    }
}

/// Derives the seed of a domain tag.
pub fn derive_seed(domain: &[u8]) -> (seed: [u8; 32])
    ensures
        seed@ == spec_derive_seed(domain@),
{
    let mut seed = [0u8; 32];
    if domain.len() == 0 {
        let mut i: usize = 0;
        while i < SEED_BYTES
            invariant
                i <= 32,
                forall|k: int| 0 <= k < i ==> seed@[k] == spec_fallback_seed_byte(k),
            decreases 32 - i,
        {
            seed[i] = ((i * 31 + 0xA5) % 256) as u8;
            i = i + 1;
        }
        assert(seed@ =~= spec_derive_seed(domain@));
        return seed;
    }
    let mut idx: usize = 0;
    while idx < domain.len()
        invariant
            idx <= domain.len(),
            forall|p: int| 0 <= p < 32 ==> seed@[p] == spec_seed_fold(domain@, p, idx as nat),
        decreases domain.len() - idx,
    {
        let position = idx % SEED_BYTES;
        let rotation = ((idx % 7) + 1) as u32;
        let mixed = (seed[position] ^ rotl8(domain[idx], rotation)).wrapping_add(
            ((idx % 256) * 17 % 256) as u8,
        );
        assert(((idx % 256) * 17) % 256 == (idx * 17) % 256) by {
            vstd::arithmetic::div_mod::lemma_mul_mod_noop_left(idx as int, 17, 256);
        }
        seed[position] = mixed;
        idx = idx + 1;
    }
    let mut i: usize = 0;
    while i < SEED_BYTES
        invariant
            i <= 32,
            domain.len() > 0,
            forall|k: int|
                0 <= k < i ==> seed@[k] == spec_seed_fold(domain@, k, domain@.len())
                    ^ spec_whitening(k),
            forall|k: int| i <= k < 32 ==> seed@[k] == spec_seed_fold(domain@, k, domain@.len()),
        decreases 32 - i,
    {
        seed[i] = seed[i] ^ ((((32 - i) * 23 + 0x55) % 256) as u8);
        i = i + 1;
    }
    assert(seed@ =~= spec_derive_seed(domain@));
    seed
}

/// A byte centred on zero.
pub open spec fn spec_centered(byte: u8) -> int {
    byte - 128
}

/// The weight that folds the byte at `offset` into coefficient `j`: within a
/// block each offset takes 257 draws, 256 weights and then one twist.
pub open spec fn spec_weight(start: u64, offset: int, j: int) -> int {
    spec_small(spec_draw(start, (257 * offset + j + 1) as nat))
}

/// The twist value drawn after the weights of `offset`.
pub open spec fn spec_twist(start: u64, offset: int) -> int {
    spec_residue(spec_draw(start, (257 * offset + 257) as nat))
}

/// The coefficient that receives the twist of `offset` in block number `block_counter`.
pub open spec fn spec_twist_slot(offset: int, block_counter: u64) -> int {
    (offset + block_counter) % 256
}

/// What the byte at `offset` adds to coefficient `j`.
pub open spec fn spec_term(
    start: u64,
    block: Seq<u8>,
    block_counter: u64,
    j: int,
    offset: int,
) -> int {
    spec_weight(start, offset, j) * spec_centered(block[offset]) + if spec_twist_slot(
        offset,
        block_counter,
    ) == j {
        spec_twist(start, offset) * (offset + 1)
    } else {
        0
    }
}

/// What the first `n` bytes of a block add to coefficient `j`.
pub open spec fn spec_fold_sum(
    start: u64,
    block: Seq<u8>,
    block_counter: u64,
    j: int,
    n: nat,
) -> int
    decreases n,
{
    if n == 0 {
        0
    } else {
        spec_fold_sum(start, block, block_counter, j, (n - 1) as nat) + spec_term(
            start,
            block,
            block_counter,
            j,
            n - 1,
        )
    }
}

/// An integer reduced to 128 bits in two's complement.
#[verifier::opaque]
pub open spec fn spec_crop(x: int) -> i128 {
    i128_specs::signed_crop(x)
}

/// The accumulator after one block of 64 bytes was absorbed under `seed` as
/// block number `block_counter`.
pub open spec fn spec_absorb_block(
    accum: Seq<i128>,
    seed: Seq<u8>,
    block_counter: u64,
    block: Seq<u8>,
) -> Seq<i128> {
    Seq::new(
        256,
        |j: int|
            spec_crop(
                accum[j] + spec_fold_sum(
                    spec_seed_state(seed, block_counter),
                    block,
                    block_counter,
                    j,
                    64,
                ),
            ),
    )
}

/// A value that fits in 128 bits is its own reduction.
pub proof fn lemma_crop_fits(x: int)
    requires
        i128::MIN <= x <= i128::MAX,
    ensures
        spec_crop(x) == x,
{
    reveal(spec_crop);
}

/// Wrapping addition of a reduced value and a summand is the reduction of the exact sum.
pub proof fn lemma_crop_add(x: int, d: i128)
    ensures
        spec_crop(x).wrapping_add(d) == spec_crop(x + d),
{
    reveal(spec_crop);
}

/// A product of two factors of at most 14 bits is exact in wrapping 128-bit arithmetic.
pub proof fn lemma_product_fits(a: int, b: int)
    requires
        -0x4000 <= a <= 0x4000,
        -0x4000 <= b <= 0x4000,
    ensures
        i128_specs::signed_crop(a * b) == a * b,
        -0x1000_0000 <= a * b <= 0x1000_0000,
{
    assert(-0x1000_0000 <= a * b <= 0x1000_0000) by (nonlinear_arith)
        requires
            -0x4000 <= a <= 0x4000,
            -0x4000 <= b <= 0x4000,
    ;
}

/// The accumulator after the first `n` bytes of a block were folded in.
pub open spec fn spec_partial(
    before: Seq<i128>,
    start: u64,
    block: Seq<u8>,
    block_counter: u64,
    n: nat,
) -> Seq<i128> {
    Seq::new(
        256,
        |j: int| spec_crop(before[j] + spec_fold_sum(start, block, block_counter, j, n)),
    )
}

/// The accumulator `round` with the weighted byte `signed` of `offset` added
/// to the coefficients below `upto`.
pub open spec fn spec_weighted(
    round: Seq<i128>,
    start: u64,
    offset: int,
    signed: int,
    upto: int,
) -> Seq<i128> {
    Seq::new(
        256,
        |k: int|
            if k < upto {
                round[k].wrapping_add((spec_weight(start, offset, k) * signed) as i128)
            } else {
                round[k]
            },
    )
}

/// Before any byte of a block is folded in, the accumulator is unchanged.
pub proof fn lemma_partial_start(before: Seq<i128>, start: u64, block: Seq<u8>, block_counter: u64)
    requires
        before.len() == 256,
    ensures
        spec_partial(before, start, block, block_counter, 0) == before,
{
    assert forall|j: int| 0 <= j < 256 implies spec_partial(
        before,
        start,
        block,
        block_counter,
        0,
    )[j] == before[j] by {
        lemma_crop_fits(before[j] as int);
    }
    assert(spec_partial(before, start, block, block_counter, 0) =~= before);
}

/// Adding the weighted byte of `offset` to every coefficient, and its twist
/// to one of them, leads from the first `offset` bytes to the first `offset + 1`.
pub proof fn lemma_fold_advance(
    before: Seq<i128>,
    start: u64,
    block: Seq<u8>,
    block_counter: u64,
    offset: int,
)
    requires
        0 <= offset < 64,
    ensures
        ({
            let signed = spec_centered(block[offset]);
            let position = spec_twist_slot(offset, block_counter);
            let weighted = spec_weighted(
                spec_partial(before, start, block, block_counter, offset as nat),
                start,
                offset,
                signed,
                256,
            );
            let scaled = (spec_twist(start, offset) * (offset + 1)) as i128;
            weighted.update(position, weighted[position].wrapping_add(scaled)) == spec_partial(
                before,
                start,
                block,
                block_counter,
                (offset + 1) as nat,
            )
        }),
{
    let signed = spec_centered(block[offset]);
    let position = spec_twist_slot(offset, block_counter);
    let round = spec_partial(before, start, block, block_counter, offset as nat);
    let weighted = spec_weighted(round, start, offset, signed, 256);
    let twist = spec_twist(start, offset);
    let scaled = (twist * (offset + 1)) as i128;
    let after = weighted.update(position, weighted[position].wrapping_add(scaled));
    let next = spec_partial(before, start, block, block_counter, (offset + 1) as nat);
    lemma_product_fits(twist, offset + 1);
    assert forall|k: int| 0 <= k < 256 implies after[k] == next[k] by {
        let base = before[k] + spec_fold_sum(start, block, block_counter, k, offset as nat);
        let weight = spec_weight(start, offset, k);
        lemma_product_fits(weight, signed);
        lemma_crop_add(base, (weight * signed) as i128);
        assert(weighted[k] == spec_crop(base + weight * signed));
        if k == position {
            lemma_crop_add(base + weight * signed, scaled);
        }
    }
    assert(after =~= next);
}

/// The mathematical value of a hash computation in progress.
pub struct LatticeView {
    /// The domain seed, 32 bytes.
    pub seed: Seq<u8>,
    /// The lattice accumulator, 256 coefficients.
    pub accum: Seq<i128>,
    /// Bytes that wait for a full block.
    pub buffer: Seq<u8>,
    /// Number of blocks absorbed so far, with wraparound.
    pub block_counter: u64,
}

/// The state before any input: seed of the domain tag, zero accumulator, empty buffer.
pub open spec fn spec_new(domain: Seq<u8>) -> LatticeView {
    LatticeView {
        seed: spec_derive_seed(domain),
        accum: Seq::new(256, |j: int| 0i128),
        buffer: Seq::empty(),
        block_counter: 0,
    }
}

/// The state after `block` was absorbed; the buffer is left as it is.
pub open spec fn spec_after_block(s: LatticeView, block: Seq<u8>) -> LatticeView {
    LatticeView {
        seed: s.seed,
        accum: spec_absorb_block(s.accum, s.seed, s.block_counter, block),
        buffer: s.buffer,
        block_counter: s.block_counter.wrapping_add(1),
    }
}

/// The state `s` with `buffer` in place of its pending bytes.
pub open spec fn spec_with_buffer(s: LatticeView, buffer: Seq<u8>) -> LatticeView {
    LatticeView { seed: s.seed, accum: s.accum, buffer, block_counter: s.block_counter }
}

/// The state after every full block at the front of the buffer was absorbed, first in first out.
pub open spec fn spec_drain(s: LatticeView) -> LatticeView
    decreases s.buffer.len(),
{
    if s.buffer.len() < 64 {
        s
    } else {
        spec_drain(
            spec_with_buffer(
                spec_after_block(s, s.buffer.subrange(0, 64)),
                s.buffer.subrange(64, s.buffer.len() as int),
            ),
        )
    }
}

/// The state after `data` was appended to the buffer and every full block absorbed.
pub open spec fn spec_absorb(s: LatticeView, data: Seq<u8>) -> LatticeView {
    spec_drain(spec_with_buffer(s, s.buffer + data))
}

/// Byte `k` of the little-endian encoding of a block counter.
pub open spec fn spec_le_byte(block_counter: u64, k: u32) -> u8 {
    ((block_counter >> ((8 * k) as u32)) & 0xff) as u8
}

/// Byte `i` of the padding block: the pending bytes, the marker `0x80` behind
/// them, zeros, and the block counter xored into the last eight bytes.
pub open spec fn spec_pad_byte(buffer: Seq<u8>, block_counter: u64, i: int) -> u8 {
    let base: u8 = if i < buffer.len() {
        buffer[i]
    } else if i == buffer.len() {
        0x80
    } else {
        0
    };
    if i < 56 {
        base
    } else {
        base ^ spec_le_byte(block_counter, (i - 56) as u32)
    }
}

/// The padding block of a buffer of fewer than 64 bytes.
pub open spec fn spec_pad_block(buffer: Seq<u8>, block_counter: u64) -> Seq<u8> {
    Seq::new(64, |i: int| spec_pad_byte(buffer, block_counter, i))
}

/// The trailer block: the seed, the marker `32 ^ 0x63`, zeros.
pub open spec fn spec_trailer_block(seed: Seq<u8>) -> Seq<u8> {
    Seq::new(
        64,
        |i: int|
            if i < 32 {
                seed[i]
            } else if i == 32 {
                0x43u8
            } else {
                0u8
            },
    )
}

/// A coefficient reduced into `[0, MODULUS)`.
pub open spec fn spec_reduced(coeff: i128) -> int {
    (coeff as int) % 12_289
}

/// One reduced coefficient folded into a digest byte: add the sum of its low
/// and high byte, rotate by bits 2 to 4 of the value, xor with its low byte times `0x9D`.
pub open spec fn spec_compress_step(d: u8, value: int) -> u8 {
    let combined = ((value % 256) as u8).wrapping_add(((value / 256) % 256) as u8);
    spec_rotl8(d.wrapping_add(combined), ((value / 4) % 8) as u32) ^ ((value % 256) as u8).wrapping_mul(
        0x9D,
    )
}

/// Digest byte `slot` after the first `n` of its eight coefficients, which lie 32 apart.
pub open spec fn spec_slot_fold(accum: Seq<i128>, slot: int, n: nat) -> u8
    decreases n,
{
    if n == 0 {
        0
    } else {
        spec_compress_step(
            spec_slot_fold(accum, slot, (n - 1) as nat),
            spec_reduced(accum[slot + 32 * (n - 1)]),
        )
    }
}

/// The digest of an accumulator and its seed.
pub open spec fn spec_commit(accum: Seq<i128>, seed: Seq<u8>) -> Seq<u8> {
    Seq::new(
        32,
        |s: int|
            spec_slot_fold(accum, s, 8).wrapping_add(spec_rotl8(seed[s], ((s % 5) + 1) as u32)),
    )
}

/// The digest of a state: padding block, trailer block, compression.
pub open spec fn spec_finalize(s: LatticeView) -> Seq<u8> {
    let padded = spec_after_block(s, spec_pad_block(s.buffer, s.block_counter));
    let sealed = spec_after_block(padded, spec_trailer_block(s.seed));
    spec_commit(sealed.accum, sealed.seed)
}

/// The digest of `message` under the domain tag `domain`.
pub open spec fn spec_quantum_hash(message: Seq<u8>, domain: Seq<u8>) -> Seq<u8> {
    spec_finalize(spec_absorb(spec_new(domain), message))
}

/// Byte `k` of the little-endian encoding of a block counter.
fn le_byte(block_counter: u64, k: u32) -> (b: u8)
    requires
        k < 8,
    ensures
        b == spec_le_byte(block_counter, k),
{
    let shifted = block_counter >> (8 * k);
    let low = shifted & 0xff;
    assert(low < 256) by (bit_vector)
        requires
            low == shifted & 0xff,
    ;
    low as u8
}

/// State of one hash computation: seed, accumulator, pending bytes and block counter.
pub struct LatticeState {
    seed: [u8; 32],
    accum: [i128; 256],
    buffer: Vec<u8>,
    block_counter: u64,
}

impl View for LatticeState {
    type V = LatticeView;

    closed spec fn view(&self) -> LatticeView {
        LatticeView {
            seed: self.seed@,
            accum: self.accum@,
            buffer: self.buffer@,
            block_counter: self.block_counter,
        }
    }
}

impl Clone for LatticeState {
    fn clone(&self) -> (copy: LatticeState)
        ensures
            copy@ == self@,
    {
        let mut buffer: Vec<u8> = Vec::with_capacity(BLOCK_BYTES);
        let mut i: usize = 0;
        while i < self.buffer.len()
            invariant
                i <= self.buffer@.len(),
                buffer@ == self.buffer@.subrange(0, i as int),
            decreases self.buffer@.len() - i,
        {
            buffer.push(self.buffer[i]);
            assert(buffer@ =~= self.buffer@.subrange(0, i + 1));
            i = i + 1;
        }
        assert(buffer@ =~= self.buffer@);
        LatticeState {
            seed: self.seed,
            accum: self.accum,
            buffer,
            block_counter: self.block_counter,
        }
    }
}

impl LatticeState {
    /// The state is between two calls: fewer than 64 bytes wait in the
    /// buffer, the seed has 32 bytes and the accumulator 256 coefficients.
    pub open spec fn wf(&self) -> bool {
        &&& self@.buffer.len() < 64
        &&& self@.seed.len() == 32
        &&& self@.accum.len() == 256
    }

    /// Starts a computation under a domain tag.
    pub fn new(domain: &[u8]) -> (state: LatticeState)
        ensures
            state.wf(),
            state@ == spec_new(domain@),
    {
        let seed = derive_seed(domain);
        let state = LatticeState {
            seed,
            accum: [0i128; 256],
            buffer: Vec::with_capacity(BLOCK_BYTES),
            block_counter: 0,
        };
        assert(state@.accum =~= Seq::new(256, |j: int| 0i128));
        assert(state@.buffer =~= Seq::empty());
        state
    }

    /// Folds one block into the accumulator and advances the block counter.
    pub fn absorb_block(&mut self, block: &[u8; 64])
        ensures
            final(self)@ == spec_after_block(old(self)@, block@),
    {
        let ghost start = spec_seed_state(self.seed@, self.block_counter);
        let ghost before = self.accum@;
        let ghost counter = self.block_counter;
        let mut prng = SplitMix64::from_seed(&self.seed, self.block_counter);
        proof {
            lemma_state_step(start, 0);
            lemma_partial_start(before, start, block@, counter);
        }
        let mut offset: usize = 0;
        while offset < BLOCK_BYTES
            invariant
                offset <= 64,
                self.seed@ == old(self).seed@,
                self.buffer@ == old(self).buffer@,
                self.block_counter == counter,
                before.len() == 256,
                prng@ == spec_state_after(start, (257 * offset) as nat),
                self.accum@ == spec_partial(before, start, block@, counter, offset as nat),
            decreases 64 - offset,
        {
            let signed: i128 = block[offset] as i128 - 128;
            let ghost round = self.accum@;
            let mut j: usize = 0;
            while j < LATTICE_DIM
                invariant
                    j <= 256,
                    offset < 64,
                    -128 <= signed <= 127,
                    round.len() == 256,
                    prng@ == spec_state_after(start, (257 * offset + j) as nat),
                    self.accum@ == spec_weighted(round, start, offset as int, signed as int, j as int),
                    self.seed@ == old(self).seed@,
                    self.buffer@ == old(self).buffer@,
                    self.block_counter == counter,
                decreases 256 - j,
            {
                proof {
                    lemma_state_step(start, (257 * offset + j) as nat);
                }
                let weight = prng.next_small();
                let product = weight.wrapping_mul(signed);
                proof {
                    lemma_product_fits(weight as int, signed as int);
                }
                self.accum[j] = self.accum[j].wrapping_add(product);
                assert(self.accum@ =~= spec_weighted(
                    round,
                    start,
                    offset as int,
                    signed as int,
                    j + 1,
                ));
                j = j + 1;
            }
            proof {
                lemma_state_step(start, (257 * offset + 256) as nat);
            }
            let twist = prng.next_mod();
            let low: usize = (self.block_counter % 256) as usize;
            let position = (offset + low) % LATTICE_DIM;
            assert(position == spec_twist_slot(offset as int, counter));
            let scaled = twist.wrapping_mul(offset as i128 + 1);
            proof {
                lemma_product_fits(twist as int, offset + 1);
            }
            assert(scaled == twist * (offset + 1));
            assert(twist == spec_twist(start, offset as int));
            let ghost weighted = self.accum@;
            assert(weighted == spec_weighted(
                spec_partial(before, start, block@, counter, offset as nat),
                start,
                offset as int,
                spec_centered(block@[offset as int]),
                256,
            ));
            self.accum[position] = self.accum[position].wrapping_add(scaled);
            assert(self.accum@ == weighted.update(
                position as int,
                weighted[position as int].wrapping_add(scaled),
            ));
            proof {
                lemma_fold_advance(before, start, block@, counter, offset as int);
            }
            offset = offset + 1;
        }
        self.block_counter = self.block_counter.wrapping_add(1);
        assert(self.accum@ =~= spec_absorb_block(before, old(self).seed@, counter, block@));
    }

    /// Appends `data` to the pending bytes and absorbs every full block.
    pub fn absorb(&mut self, data: &[u8])
        requires
            old(self).wf(),
        ensures
            final(self).wf(),
            final(self)@ == spec_absorb(old(self)@, data@),
    {
        let mut i: usize = 0;
        assert(data@.subrange(0, data@.len() as int) =~= data@);
        while i < data.len()
            invariant
                i <= data.len(),
                self.wf(),
                spec_drain(
                    spec_with_buffer(self@, self@.buffer + data@.subrange(i as int, data@.len() as int)),
                ) == spec_absorb(old(self)@, data@),
            decreases data.len() - i,
        {
            let ghost rest = data@.subrange(i + 1, data@.len() as int);
            let ghost head = self@;
            self.buffer.push(data[i]);
            assert(self@.buffer + rest =~= head.buffer + data@.subrange(
                i as int,
                data@.len() as int,
            ));
            if self.buffer.len() == BLOCK_BYTES {
                let ghost full = spec_with_buffer(self@, self@.buffer + rest);
                let mut block = [0u8; 64];
                let mut k: usize = 0;
                while k < BLOCK_BYTES
                    invariant
                        k <= 64,
                        self.buffer@.len() == 64,
                        forall|m: int| 0 <= m < k ==> block@[m] == self.buffer@[m],
                    decreases 64 - k,
                {
                    block[k] = self.buffer[k];
                    k = k + 1;
                }
                assert(block@ =~= full.buffer.subrange(0, 64));
                assert(rest =~= full.buffer.subrange(64, full.buffer.len() as int));
                self.absorb_block(&block);
                self.buffer.clear();
                assert(self@.buffer + rest =~= rest);
            }
            i = i + 1;
        }
        assert(self@.buffer + data@.subrange(i as int, data@.len() as int) =~= self@.buffer);
    }

    /// Absorbs the padding block, the trailer block, and compresses the
    /// accumulator. The state is used up: it can neither absorb nor be
    /// finalized again.
    pub fn finalize(self) -> (digest: [u8; 32])
        requires
            self.wf(),
        ensures
            digest@ == spec_finalize(self@),
    {
        let mut state = self;
        state.pad_and_absorb();
        state.absorb_seed_trailer();
        state.commit()
    }

    /// Absorbs the padding block and empties the buffer.
    pub fn pad_and_absorb(&mut self)
        requires
            old(self).wf(),
        ensures
            final(self).wf(),
            final(self)@ == spec_with_buffer(
                spec_after_block(old(self)@, spec_pad_block(old(self)@.buffer, old(self)@.block_counter)),
                Seq::empty(),
            ),
    {
        let mut block = [0u8; 64];
        let buffered = self.buffer.len();
        let mut k: usize = 0;
        while k < buffered
            invariant
                k <= buffered,
                buffered == self.buffer@.len(),
                buffered < 64,
                forall|m: int| 0 <= m < k ==> block@[m] == self.buffer@[m],
                forall|m: int| k <= m < 64 ==> block@[m] == 0,
            decreases buffered - k,
        {
            block[k] = self.buffer[k];
            k = k + 1;
        }
        block[buffered] = 0x80;
        let mut offset: u32 = 0;
        while offset < 8
            invariant
                offset <= 8,
                buffered == self.buffer@.len(),
                buffered < 64,
                forall|m: int|
                    0 <= m < 56 + offset ==> block@[m] == spec_pad_byte(
                        self.buffer@,
                        self.block_counter,
                        m,
                    ),
                forall|m: int|
                    56 + offset <= m < 64 ==> block@[m] == (if m < buffered {
                        self.buffer@[m]
                    } else if m == buffered {
                        0x80u8
                    } else {
                        0u8
                    }),
            decreases 8 - offset,
        {
            let at = 56 + offset as usize;
            block[at] = block[at] ^ le_byte(self.block_counter, offset);
            offset = offset + 1;
        }
        assert(block@ =~= spec_pad_block(self.buffer@, self.block_counter));
        self.absorb_block(&block);
        self.buffer.clear();
        assert(self@.buffer =~= Seq::empty());
    }

    /// Absorbs the trailer block, which binds the seed into the final state.
    pub fn absorb_seed_trailer(&mut self)
        ensures
            final(self)@ == spec_after_block(old(self)@, spec_trailer_block(old(self)@.seed)),
    {
        let mut block = [0u8; 64];
        let mut k: usize = 0;
        while k < SEED_BYTES
            invariant
                k <= 32,
                forall|m: int| 0 <= m < k ==> block@[m] == self.seed@[m],
                forall|m: int| k <= m < 64 ==> block@[m] == 0,
            decreases 32 - k,
        {
            block[k] = self.seed[k];
            k = k + 1;
        }
        block[32] = 0x43;
        assert(block@ =~= spec_trailer_block(self.seed@));
        self.absorb_block(&block);
    }

    /// Compresses the accumulator and the seed into the digest.
    pub fn commit(&self) -> (digest: [u8; 32])
        ensures
            digest@ == spec_commit(self@.accum, self@.seed),
    {
        let mut digest = [0u8; 32];
        let mut round: usize = 0;
        while round < 8
            invariant
                round <= 8,
                forall|s: int|
                    0 <= s < 32 ==> digest@[s] == spec_slot_fold(self.accum@, s, round as nat),
            decreases 8 - round,
        {
            let mut slot: usize = 0;
            while slot < DIGEST_BYTES
                invariant
                    slot <= 32,
                    round < 8,
                    forall|s: int|
                        0 <= s < slot ==> digest@[s] == spec_slot_fold(
                            self.accum@,
                            s,
                            (round + 1) as nat,
                        ),
                    forall|s: int|
                        slot <= s < 32 ==> digest@[s] == spec_slot_fold(
                            self.accum@,
                            s,
                            round as nat,
                        ),
                decreases 32 - slot,
            {
                let coeff = self.accum[DIGEST_BYTES * round + slot];
                let value: i128 = match coeff.checked_rem_euclid(MODULUS) {
                    Some(v) => v,
                    None => 0,
                };
                let combined = ((value % 256) as u8).wrapping_add(((value / 256) % 256) as u8);
                let rotated = rotl8(digest[slot].wrapping_add(combined), ((value / 4) % 8) as u32);
                digest[slot] = rotated ^ ((value % 256) as u8).wrapping_mul(0x9D);
                slot = slot + 1;
            }
            round = round + 1;
        }
        let mut i: usize = 0;
        while i < DIGEST_BYTES
            invariant
                i <= 32,
                forall|s: int|
                    0 <= s < i ==> digest@[s] == spec_slot_fold(self.accum@, s, 8).wrapping_add(
                        spec_rotl8(self.seed@[s], ((s % 5) + 1) as u32),
                    ),
                forall|s: int| i <= s < 32 ==> digest@[s] == spec_slot_fold(self.accum@, s, 8),
            decreases 32 - i,
        {
            digest[i] = digest[i].wrapping_add(rotl8(self.seed[i], ((i % 5) + 1) as u32));
            i = i + 1;
        }
        assert(digest@ =~= spec_commit(self@.accum, self@.seed));
        digest
    }
}

/// Streaming hasher over one lattice state.
pub struct LatticeHasher {
    state: LatticeState,
}

impl View for LatticeHasher {
    type V = LatticeView;

    closed spec fn view(&self) -> LatticeView {
        self.state@
    }
}

impl Clone for LatticeHasher {
    fn clone(&self) -> (copy: LatticeHasher)
        ensures
            copy@ == self@,
            copy.wf() == self.wf(),
    {
        LatticeHasher { state: self.state.clone() }
    }
}

impl LatticeHasher {
    /// The hasher is between two calls: fewer than 64 bytes wait for a full block.
    pub closed spec fn wf(&self) -> bool {
        self.state.wf()
    }

    /// Starts hashing under a domain tag.
    pub fn new(domain: &[u8]) -> (hasher: LatticeHasher)
        ensures
            hasher.wf(),
            hasher@ == spec_new(domain@),
    {
        LatticeHasher { state: LatticeState::new(domain) }
    }

    /// Feeds `data` to the hasher.
    pub fn update(&mut self, data: &[u8])
        requires
            old(self).wf(),
        ensures
            final(self).wf(),
            final(self)@ == spec_absorb(old(self)@, data@),
    {
        self.state.absorb(data);
    }

    /// Ends the computation and returns the digest. The hasher is used up:
    /// nothing can be fed to it or finalized afterwards.
    pub fn finalize(self) -> (digest: [u8; 32])
        requires
            self.wf(),
        ensures
            digest@ == spec_finalize(self@),
    {
        self.state.finalize()
    }
}

/// Hashes `message` under the domain tag `domain`.
pub fn quantum_hash(message: &[u8], domain: &[u8]) -> (digest: [u8; 32])
    ensures
        digest@ == spec_quantum_hash(message@, domain@),
{
    let mut hasher = LatticeHasher::new(domain);
    hasher.update(message);
    hasher.finalize()
}

} // verus!
