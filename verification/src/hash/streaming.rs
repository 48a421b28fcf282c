//! Laws of the streaming interface of the lattice hash.
//!
//! The digest depends on the bytes fed and on the domain tag, and not on how
//! the bytes were cut into calls. The domain tag reaches the digest through
//! its seed alone.

use crate::hash::lattice::{
    spec_absorb, spec_after_block, spec_derive_seed, spec_drain, spec_finalize, spec_new,
    spec_quantum_hash, spec_with_buffer, LatticeView,
};
use vstd::prelude::*;

verus! {

/// The state after each chunk was fed in turn.
pub open spec fn spec_absorb_chunks(s: LatticeView, chunks: Seq<Seq<u8>>) -> LatticeView
    decreases chunks.len(),
{
    if chunks.len() == 0 {
        s
    } else {
        spec_absorb(spec_absorb_chunks(s, chunks.drop_last()), chunks.last())
    }
}

/// The chunks joined in order.
pub open spec fn spec_concat(chunks: Seq<Seq<u8>>) -> Seq<u8>
    decreases chunks.len(),
{
    if chunks.len() == 0 {
        Seq::empty()
    } else {
        spec_concat(chunks.drop_last()) + chunks.last()
    }
}

/// Absorbing the full blocks of a buffer first, and those that `tail`
/// completes afterwards, leads to the same state as absorbing them all at once.
pub proof fn lemma_drain_append(s: LatticeView, tail: Seq<u8>)
    ensures
        spec_drain(spec_with_buffer(s, s.buffer + tail)) == spec_drain(
            spec_with_buffer(spec_drain(s), spec_drain(s).buffer + tail),
        ),
    decreases s.buffer.len(),
{
    if s.buffer.len() >= 64 {
        let block = s.buffer.subrange(0, 64);
        let rest = s.buffer.subrange(64, s.buffer.len() as int);
        let s1 = spec_with_buffer(spec_after_block(s, block), rest);
        let t = spec_with_buffer(s, s.buffer + tail);
        assert(t.buffer.subrange(0, 64) =~= block);
        assert(t.buffer.subrange(64, t.buffer.len() as int) =~= rest + tail);
        assert(spec_with_buffer(
            spec_after_block(t, t.buffer.subrange(0, 64)),
            t.buffer.subrange(64, t.buffer.len() as int),
        ) == spec_with_buffer(s1, s1.buffer + tail));
        lemma_drain_append(s1, tail);
    } else {
        assert(spec_with_buffer(s, s.buffer) == s);
    }
}

/// Feeding `a` and then `b` leads to the same state as feeding `a + b` in one call.
pub proof fn lemma_absorb_split(s: LatticeView, a: Seq<u8>, b: Seq<u8>)
    ensures
        spec_absorb(spec_absorb(s, a), b) == spec_absorb(s, a + b),
{
    let fed = spec_with_buffer(s, s.buffer + a);
    lemma_drain_append(fed, b);
    assert(fed.buffer + b =~= s.buffer + (a + b));
    assert(spec_with_buffer(fed, fed.buffer + b) == spec_with_buffer(s, s.buffer + (a + b)));
}

/// Feeding nothing leaves a state with fewer than 64 pending bytes as it is.
pub proof fn lemma_absorb_nothing(s: LatticeView)
    requires
        s.buffer.len() < 64,
    ensures
        spec_absorb(s, Seq::empty()) == s,
{
    assert(s.buffer + Seq::<u8>::empty() =~= s.buffer);
    assert(spec_with_buffer(s, s.buffer) == s);
}

/// Streaming equivalence: feeding a message in chunks of any sizes, one byte
/// at a time included, leads to the same state as feeding it in one call.
pub proof fn lemma_streaming_state(s: LatticeView, chunks: Seq<Seq<u8>>)
    requires
        s.buffer.len() < 64,
    ensures
        spec_absorb_chunks(s, chunks) == spec_absorb(s, spec_concat(chunks)),
    decreases chunks.len(),
{
    if chunks.len() == 0 {
        lemma_absorb_nothing(s);
    } else {
        lemma_streaming_state(s, chunks.drop_last());
        lemma_absorb_split(s, spec_concat(chunks.drop_last()), chunks.last());
    }
}

/// Streaming equivalence of the digest: a hasher that was started under
/// `domain` and fed `chunks` in turn ends with the digest of the joined message.
pub proof fn lemma_streaming_digest(domain: Seq<u8>, chunks: Seq<Seq<u8>>)
    ensures
        spec_finalize(spec_absorb_chunks(spec_new(domain), chunks)) == spec_quantum_hash(
            spec_concat(chunks),
            domain,
        ),
{
    lemma_streaming_state(spec_new(domain), chunks);
}

/// The domain tag reaches the digest through its 32-byte seed alone: two
/// tags with the same seed give the same digest for every message. That tags
/// with different seeds give different digests is a statistical matter, of
/// which this says nothing.
pub proof fn lemma_domain_enters_through_seed(message: Seq<u8>, first: Seq<u8>, second: Seq<u8>)
    requires
        spec_derive_seed(first) == spec_derive_seed(second),
    ensures
        spec_new(first) == spec_new(second),
        spec_quantum_hash(message, first) == spec_quantum_hash(message, second),
{
}

/// Determinism: two digests of the same message under the same domain tag are equal.
pub proof fn lemma_digest_deterministic(
    message: Seq<u8>,
    domain: Seq<u8>,
    first: Seq<u8>,
    second: Seq<u8>,
)
    requires
        first == spec_quantum_hash(message, domain),
        second == spec_quantum_hash(message, domain),
    ensures
        first == second,
        first.len() == 32,
{
}

} // verus!
