//! The lattice hash behind the hashing interface.

use crate::hash::lattice::{spec_absorb, spec_new, spec_quantum_hash, LatticeHasher};
use crate::hash::streaming::lemma_absorb_split;
use crate::pq::registry::{HashAlgorithm, HashState};
use crate::pq::scheme::SchemeId;
use vstd::prelude::*;

verus! {

/// The lattice hash under the empty domain tag as a hash algorithm.
#[derive(Clone, Copy, Debug)]
pub struct LatticeHash;

/// A lattice hash computation that remembers, for its contract, what was written.
pub struct LatticeHashState {
    hasher: LatticeHasher,
    written: Ghost<Seq<u8>>,
}

impl HashState for LatticeHashState {
    closed spec fn wf(&self) -> bool {
        &&& self.hasher.wf()
        &&& self.hasher@ == spec_absorb(spec_new(Seq::empty()), self.written@)
    }

    closed spec fn spec_written(&self) -> Seq<u8> {
        self.written@
    }

    open spec fn spec_digest(&self) -> Seq<u8> {
        spec_quantum_hash(self.spec_written(), Seq::empty())
    }

    open spec fn spec_digest_length(&self) -> usize {
        32
    }

    fn write(&mut self, data: &[u8])
        ensures
            final(self).spec_digest() == spec_quantum_hash(
                old(self).spec_written() + data@,
                Seq::empty(),
            ),
    {
        proof {
            lemma_absorb_split(spec_new(Seq::empty()), self.written@, data@);
        }
        self.hasher.update(data);
        self.written = Ghost(self.written@ + data@);
    }

    fn finish(self) -> (digest: Vec<u8>)
        ensures
            digest@ == spec_quantum_hash(self.spec_written(), Seq::empty()),
    {
        let bytes = self.hasher.finalize();
        let mut digest: Vec<u8> = Vec::with_capacity(32);
        let mut i: usize = 0;
        while i < 32
            invariant
                i <= 32,
                digest@ == bytes@.subrange(0, i as int),
            decreases 32 - i,
        {
            digest.push(bytes[i]);
            assert(digest@ =~= bytes@.subrange(0, i + 1));
            i = i + 1;
        }
        assert(digest@ =~= bytes@);
        digest
    }
}

impl HashAlgorithm for LatticeHash {
    type State = LatticeHashState;

    open spec fn spec_scheme(&self) -> SchemeId {
        SchemeId::ShakeLattice
    }

    open spec fn spec_digest_length(&self) -> usize {
        32
    }

    fn scheme(&self) -> (scheme: SchemeId)
        ensures
            scheme == SchemeId::ShakeLattice,
    {
        SchemeId::ShakeLattice
    }

    fn digest_length(&self) -> (length: usize)
        ensures
            length == 32,
    {
        32
    }

    fn create(&self) -> (state: LatticeHashState)
        ensures
            state.spec_digest() == spec_quantum_hash(Seq::empty(), Seq::empty()),
    {
        let domain: [u8; 0] = [];
        assert(domain@ =~= Seq::empty());
        let hasher = LatticeHasher::new(domain.as_slice());
        proof {
            crate::hash::streaming::lemma_absorb_nothing(spec_new(Seq::empty()));
        }
        LatticeHashState { hasher, written: Ghost(Seq::empty()) }
    }
}

} // verus!
