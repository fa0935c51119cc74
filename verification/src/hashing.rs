//! Domain-separated hashing of consensus encodings.
//!
//! Every hash of this library is the Blake2b-256 digest of a tag followed by
//! the canonical encodings of its inputs, in a fixed order. The tag names the
//! hash domain and the purpose, so that the same data hashed for two purposes
//! gives unrelated digests. It is written with its length in front, which
//! keeps a tag from running into the data that follows it.

use crate::bytes::append_bytes;
use crate::consensus::encode_u64;
use crate::consensus::ConsensusEncoding;
use crate::consensus::spec_encode_u64;
use crate::trusted::blake2b_256;
use crate::trusted::spec_blake2b_256;
use vstd::prelude::*;
use vstd::string::StringSliceAdditionalSpecFns;

verus! {

/// The hash domain of transactions with its version, ready for a label.
pub const TRANSACTION_HASH_DOMAIN: &'static str = "com.tari.base_layer.core.transactions.v0.";

/// The hash domain of the key manager with its version, ready for a label.
pub const KEY_MANAGER_HASH_DOMAIN: &'static str = "com.tari.base_layer.key_manager.v1.";

/// The tag of a label in a domain: the domain with its version, then the
/// label.
pub open spec fn spec_domain_separation_tag(domain: Seq<u8>, label: Seq<u8>) -> Seq<u8> {
    domain + label
}

/// What every preimage under the tag starts with: the length of the tag as a
/// little-endian `u64`, then the tag.
pub open spec fn spec_domain_separated_prefix(domain: Seq<u8>, label: Seq<u8>) -> Seq<u8> {
    let tag = spec_domain_separation_tag(domain, label);
    spec_encode_u64(tag.len() as u64) + tag
}

/// The digest of the tag's prefix followed by `data`.
pub open spec fn spec_domain_separated_hash(domain: Seq<u8>, label: Seq<u8>, data: Seq<u8>) -> Seq<
    u8,
> {
    spec_blake2b_256(spec_domain_separated_prefix(domain, label) + data)
}

/// Collects the preimage of a domain-separated hash.
pub struct DomainSeparatedConsensusHasher {
    domain: Ghost<Seq<u8>>,
    label: Ghost<Seq<u8>>,
    preimage: Vec<u8>,
}

impl DomainSeparatedConsensusHasher {
    #[verifier::type_invariant]
    spec fn well_formed(self) -> bool {
        self.preimage@.len() >= spec_domain_separated_prefix(self.domain@, self.label@).len()
            && self.preimage@.subrange(0, spec_domain_separated_prefix(self.domain@, self.label@).len() as int)
            == spec_domain_separated_prefix(self.domain@, self.label@)
    }

    /// The domain the hasher was made with.
    pub closed spec fn domain(&self) -> Seq<u8> {
        self.domain@
    }

    /// The label the hasher was made with.
    pub closed spec fn label(&self) -> Seq<u8> {
        self.label@
    }

    /// The data chained so far, without the prefix.
    pub closed spec fn data(&self) -> Seq<u8> {
        self.preimage@.skip(spec_domain_separated_prefix(self.domain@, self.label@).len() as int)
    }

    /// Starts a hash under the tag of `label` in `domain`.
    pub fn new(domain: &str, label: &str) -> (hasher: Self)
        requires
            spec_domain_separation_tag(domain.spec_bytes(), label.spec_bytes()).len() <= u64::MAX,
        ensures
            hasher.domain() == domain.spec_bytes(),
            hasher.label() == label.spec_bytes(),
            hasher.data() == Seq::<u8>::empty(),
    {
        let domain_bytes = domain.as_bytes();
        let label_bytes = label.as_bytes();
        let mut preimage: Vec<u8> = Vec::new();
        let length: u64 = domain_bytes.len() as u64 + label_bytes.len() as u64;
        encode_u64(length, &mut preimage);
        append_bytes(&mut preimage, domain_bytes);
        append_bytes(&mut preimage, label_bytes);
        assert(preimage@ =~= spec_domain_separated_prefix(
            domain.spec_bytes(),
            label.spec_bytes(),
        ));
        assert(preimage@.subrange(0, preimage@.len() as int) =~= preimage@);
        let hasher = DomainSeparatedConsensusHasher {
            domain: Ghost(domain.spec_bytes()),
            label: Ghost(label.spec_bytes()),
            preimage,
        };
        hasher
    }

    /// Appends the canonical encoding of an entity to the data.
    pub fn chain<T: ConsensusEncoding>(self, entity: &T) -> (hasher: Self)
        ensures
            hasher.domain() == self.domain(),
            hasher.label() == self.label(),
            hasher.data() == self.data() + T::spec_encode(entity.model()),
    {
        let mut encoded: Vec<u8> = Vec::new();
        entity.consensus_encode(&mut encoded);
        self.chain_bytes(encoded.as_slice())
    }

    /// Appends bytes to the data.
    pub fn chain_bytes(self, bytes: &[u8]) -> (hasher: Self)
        ensures
            hasher.domain() == self.domain(),
            hasher.label() == self.label(),
            hasher.data() == self.data() + bytes@,
    {
        proof {
            use_type_invariant(&self);
        }
        let ghost prefix = spec_domain_separated_prefix(self.domain@, self.label@);
        let ghost before = self.preimage@;
        let mut preimage = self.preimage;
        append_bytes(&mut preimage, bytes);
        assert(preimage@.subrange(0, prefix.len() as int) =~= before.subrange(
            0,
            prefix.len() as int,
        ));
        DomainSeparatedConsensusHasher { domain: self.domain, label: self.label, preimage }
    }

    /// The digest of the prefix followed by the data.
    pub fn finalize(self) -> (digest: [u8; 32])
        ensures
            digest@ == spec_domain_separated_hash(self.domain(), self.label(), self.data()),
    {
        proof {
            use_type_invariant(&self);
            let prefix = spec_domain_separated_prefix(self.domain@, self.label@);
            assert(self.preimage@ =~= prefix + self.data());
        }
        blake2b_256(self.preimage.as_slice())
    }
}

} // verus!
