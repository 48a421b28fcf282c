//! The cohort tag of a digest.

use vstd::prelude::*;

verus! {

/// Which hash algorithm cohort derived the digest fields. The order of the
/// variants is the order of their one-byte ordinals: 0, 1, 2.
#[derive(Clone, Copy, Debug, PartialEq, Eq, Structural, PartialOrd, Ord, Hash)]
pub enum HashVersion {
    /// Legacy SHA3-only digests.
    LegacySha3,
    /// Hybrid mode that stores both the SHA3 and the post-quantum digest.
    Dual,
    /// Post-quantum digests only.
    PostQuantum,
}

impl HashVersion {
    /// The one-byte ordinal that is persisted for the tag.
    pub open spec fn spec_ordinal(self) -> u8 {
        match self {
            HashVersion::LegacySha3 => 0,
            HashVersion::Dual => 1,
            HashVersion::PostQuantum => 2,
        }
    }

    /// The tag that an ordinal stands for.
    pub open spec fn spec_from_ordinal(ordinal: u8) -> Option<HashVersion> {
        if ordinal == 0 {
            Some(HashVersion::LegacySha3)
        } else if ordinal == 1 {
            Some(HashVersion::Dual)
        } else if ordinal == 2 {
            Some(HashVersion::PostQuantum)
        } else {
            None
        }
    }

    /// Whether the tag is `LegacySha3`.
    pub fn is_legacy(self) -> (b: bool)
        ensures
            b == (self == HashVersion::LegacySha3),
    {
        matches!(self, HashVersion::LegacySha3)
    }

    /// Whether the tag is `Dual`.
    pub fn is_dual(self) -> (b: bool)
        ensures
            b == (self == HashVersion::Dual),
    {
        matches!(self, HashVersion::Dual)
    }

    /// Whether the tag is `PostQuantum`.
    pub fn is_post_quantum(self) -> (b: bool)
        ensures
            b == (self == HashVersion::PostQuantum),
    {
        matches!(self, HashVersion::PostQuantum)
    }

    /// The persisted ordinal of the tag.
    pub fn ordinal(self) -> (n: u8)
        ensures
            n == self.spec_ordinal(),
    {
        match self {
            HashVersion::LegacySha3 => 0,
            HashVersion::Dual => 1,
            HashVersion::PostQuantum => 2,
        }
    }

    /// Reads a persisted ordinal; `None` for a byte that stands for no tag.
    pub fn from_ordinal(ordinal: u8) -> (version: Option<HashVersion>)
        ensures
            version == HashVersion::spec_from_ordinal(ordinal),
    {
        if ordinal == 0 {
            Some(HashVersion::LegacySha3)
        } else if ordinal == 1 {
            Some(HashVersion::Dual)
        } else if ordinal == 2 {
            Some(HashVersion::PostQuantum)
        } else {
            None
        }
    }

    /// The name of the tag: `legacy`, `dual` or `post_quantum`.
    pub fn label(self) -> (name: &'static str)
        ensures
            name@ == (match self {
                HashVersion::LegacySha3 => "legacy"@,
                HashVersion::Dual => "dual"@,
                HashVersion::PostQuantum => "post_quantum"@,
            }),
    {
        match self {
            HashVersion::LegacySha3 => "legacy",
            HashVersion::Dual => "dual",
            HashVersion::PostQuantum => "post_quantum",
        }
    }
}

impl Default for HashVersion {
    fn default() -> (version: HashVersion)
        ensures
            version == HashVersion::PostQuantum,
    {
        HashVersion::PostQuantum
    }
}

/// Exactly one of the three predicates holds of a tag.
pub proof fn lemma_version_predicates_exclusive(version: HashVersion)
    ensures
        (version == HashVersion::LegacySha3) || (version == HashVersion::Dual) || (version
            == HashVersion::PostQuantum),
        !(version == HashVersion::LegacySha3 && version == HashVersion::Dual),
        !(version == HashVersion::Dual && version == HashVersion::PostQuantum),
        !(version == HashVersion::LegacySha3 && version == HashVersion::PostQuantum),
{
}

/// An ordinal that was written is read back as the same tag, and no two tags
/// share an ordinal.
pub proof fn lemma_ordinal_round_trip(version: HashVersion, other: HashVersion)
    ensures
        HashVersion::spec_from_ordinal(version.spec_ordinal()) == Some(version),
        version.spec_ordinal() == other.spec_ordinal() ==> version == other,
{
}

/// The ordinals rise in the order in which the tags are declared: legacy
/// below dual, dual below post-quantum.
pub proof fn lemma_ordinals_rise()
    ensures
        HashVersion::LegacySha3.spec_ordinal() < HashVersion::Dual.spec_ordinal(),
        HashVersion::Dual.spec_ordinal() < HashVersion::PostQuantum.spec_ordinal(),
{
}

} // verus!
