//! Keys, commitments and signatures, held in their canonical encodings.
//!
//! A value of one of these types always holds bytes that the curve library
//! accepts: the constructors check it and nothing else can build one.

use crate::bytes::bytes_equal;
use crate::bytes::compare_bytes;
use crate::bytes::spec_compare_bytes;
use crate::bytes::Lexicographic;
use crate::bytes::append_bytes;
use crate::consensus::ConsensusDecoding;
use crate::consensus::ConsensusEncoding;
use crate::consensus::ConsensusEncodingSized;
use crate::consensus::spec_decode_array_32;
use crate::consensus::spec_decode_u8;
use crate::consensus::accepted;
use crate::consensus::rejected;
use crate::consensus::lemma_moves_twice;
use crate::consensus::ByteReader;
use crate::consensus::DecodeError;
use crate::consensus::Decoded;
use crate::trusted::is_public_key;
use crate::trusted::is_secret_key;
use crate::trusted::public_key_from_secret;
use crate::trusted::random_secret_key;
use crate::trusted::scalar_from_uniform_bytes;
use crate::trusted::spec_scalar_from_uniform_bytes;
use crate::trusted::schnorr_sign;
use crate::trusted::schnorr_verify;
use crate::trusted::spec_is_public_key;
use crate::trusted::spec_group_order;
use crate::trusted::spec_is_secret_key;
use crate::trusted::spec_le_bytes;
use crate::trusted::spec_le_value;
use crate::trusted::spec_public_key_from_secret;
use crate::trusted::spec_schnorr_sign;
use crate::trusted::spec_schnorr_verify;
use vstd::prelude::*;
use std::cmp::Ordering;
use vstd::std_specs::cmp::PartialEqSpecImpl;
use vstd::std_specs::cmp::PartialOrdSpecImpl;

verus! {

/// Why a signature cannot be made.
#[derive(Debug, Clone, Copy, PartialEq, Eq, Structural, Hash)]
pub enum SchnorrSignatureError {
    /// The challenge does not have the length of a challenge.
    InvalidChallenge,
}

/// A 32-byte digest.
pub type FixedHash = [u8; 32];

/// A point of the Ristretto group.
#[derive(Debug, Clone, Copy, Eq, Hash)]
pub struct PublicKey {
    bytes: [u8; 32],
}

/// A scalar of the Ristretto group.
#[derive(Debug, Clone, Copy, Eq, Hash)]
pub struct PrivateKey {
    bytes: [u8; 32],
}

/// A Pedersen commitment: a point whose opening is not revealed.
#[derive(Debug, Clone, Copy, Eq, Hash)]
pub struct Commitment {
    key: PublicKey,
}

/// A Schnorr signature `(R, s)`.
#[derive(Debug, Clone, Copy, Eq, Hash)]
pub struct Signature {
    public_nonce: PublicKey,
    signature: PrivateKey,
}

impl View for PublicKey {
    type V = Seq<u8>;

    closed spec fn view(&self) -> Seq<u8> {
        self.bytes@
    }
}

impl View for PrivateKey {
    type V = Seq<u8>;

    closed spec fn view(&self) -> Seq<u8> {
        self.bytes@
    }
}

impl View for Commitment {
    type V = Seq<u8>;

    closed spec fn view(&self) -> Seq<u8> {
        self.key@
    }
}

impl View for Signature {
    type V = Seq<u8>;

    /// The public nonce followed by the signature scalar.
    closed spec fn view(&self) -> Seq<u8> {
        self.public_nonce@ + self.signature@
    }
}

/// A group element is written as its 32 bytes. Reading takes them and then
/// checks them.
pub open spec fn spec_decode_public_key(bytes: Seq<u8>) -> Decoded<Seq<u8>> {
    let read = spec_decode_array_32(bytes);
    match read.result {
        Ok(key) => if spec_is_public_key(key) {
            accepted(key, read.consumed)
        } else {
            rejected(DecodeError::InvalidPublicKey, read.consumed)
        },
        Err(error) => rejected(error, read.consumed),
    }
}

/// A scalar is written as its 32 bytes. Reading takes them and then checks
/// them.
pub open spec fn spec_decode_secret_key(bytes: Seq<u8>) -> Decoded<Seq<u8>> {
    let read = spec_decode_array_32(bytes);
    match read.result {
        Ok(key) => if spec_is_secret_key(key) {
            accepted(key, read.consumed)
        } else {
            rejected(DecodeError::InvalidSecretKey, read.consumed)
        },
        Err(error) => rejected(error, read.consumed),
    }
}

/// A signature is written as its public nonce followed by its scalar. The
/// scalar is read only behind a public nonce that has been accepted.
pub open spec fn spec_decode_signature(bytes: Seq<u8>) -> Decoded<Seq<u8>> {
    let first = spec_decode_public_key(bytes);
    match first.result {
        Ok(public_nonce) => {
            let second = spec_decode_secret_key(bytes.skip(first.consumed as int));
            match second.result {
                Ok(signature) => accepted(
                    public_nonce + signature,
                    first.consumed + second.consumed,
                ),
                Err(error) => rejected(error, first.consumed + second.consumed),
            }
        },
        Err(error) => rejected(error, first.consumed),
    }
}

/// An optional commitment is written as a presence byte, 0 or 1, followed by
/// the commitment if it is there: the optional form of the codec, spelled out
/// for commitments.
pub open spec fn spec_encode_optional_commitment(commitment: Option<Seq<u8>>) -> Seq<u8> {
    match commitment {
        None => seq![0u8],
        Some(bytes) => seq![1u8] + bytes,
    }
}

/// The presence byte is read and, if it is 1, the commitment.
pub open spec fn spec_decode_optional_commitment(bytes: Seq<u8>) -> Decoded<Option<Seq<u8>>> {
    let tag = spec_decode_u8(bytes);
    match tag.result {
        Ok(0) => accepted(None, tag.consumed),
        Ok(1) => {
            let inner = spec_decode_public_key(bytes.skip(tag.consumed as int));
            match inner.result {
                Ok(commitment) => accepted(Some(commitment), tag.consumed + inner.consumed),
                Err(error) => rejected(error, tag.consumed + inner.consumed),
            }
        },
        Ok(other) => rejected(DecodeError::InvalidOptionTag(other), tag.consumed),
        Err(error) => rejected(error, tag.consumed),
    }
}

/// The view of an optional commitment.
pub open spec fn spec_optional_commitment(commitment: Option<Commitment>) -> Option<Seq<u8>> {
    match commitment {
        None => None,
        Some(c) => Some(c@),
    }
}

/// Writing a number in a given number of bytes gives that many bytes, and
/// they stand for a number that is not above it.
pub proof fn lemma_le_bytes(value: nat, length: nat)
    ensures
        spec_le_bytes(value, length).len() == length,
        spec_le_value(spec_le_bytes(value, length)) <= value,
    decreases length,
{
    if length > 0 {
        let rest = spec_le_bytes(value / 256, (length - 1) as nat);
        lemma_le_bytes(value / 256, (length - 1) as nat);
        assert(spec_le_bytes(value, length).skip(1) =~= rest);
    }
}

/// A byte string stands for at least what a suffix of it stands for: a byte
/// that is not zero makes the number not zero.
pub proof fn lemma_le_value_of_suffix(bytes: Seq<u8>, from: int)
    requires
        0 <= from <= bytes.len(),
    ensures
        spec_le_value(bytes) >= spec_le_value(bytes.skip(from)),
    decreases from,
{
    if from > 0 {
        lemma_le_value_of_suffix(bytes.skip(1), from - 1);
        assert(bytes.skip(1).skip(from - 1) =~= bytes.skip(from));
    } else {
        assert(bytes.skip(0) =~= bytes);
    }
}

/// A number reduced modulo the group order and written in 32 bytes is the
/// canonical encoding of a scalar.
pub proof fn lemma_reduced_is_secret_key(value: nat)
    ensures
        spec_is_secret_key(spec_le_bytes(value % spec_group_order(), 32)),
{
    lemma_le_bytes(value % spec_group_order(), 32);
}

/// A 32-byte challenge followed by 32 zero bytes. Read as a little-endian
/// number this is the challenge itself, so reducing it modulo the group order
/// gives the scalar the challenge stands for.
pub open spec fn spec_wide_challenge(challenge: Seq<u8>) -> Seq<u8> {
    challenge + Seq::new(32, |i: int| 0u8)
}

/// Zero bytes behind a byte string do not change the number it stands for:
/// the wide form of a challenge stands for the challenge.
pub proof fn lemma_wide_challenge_value(challenge: Seq<u8>)
    ensures
        spec_le_value(spec_wide_challenge(challenge)) == spec_le_value(challenge),
{
    lemma_trailing_zeros(challenge, 32);
    assert(spec_wide_challenge(challenge) =~= challenge + Seq::new(32, |i: int| 0u8));
}

proof fn lemma_trailing_zeros(bytes: Seq<u8>, count: nat)
    ensures
        spec_le_value(bytes + Seq::new(count, |i: int| 0u8)) == spec_le_value(bytes),
    decreases bytes.len() + count,
{
    let zeros = Seq::new(count, |i: int| 0u8);
    if bytes.len() > 0 {
        lemma_trailing_zeros(bytes.skip(1), count);
        assert((bytes + zeros).skip(1) =~= bytes.skip(1) + zeros);
    } else if count > 0 {
        lemma_trailing_zeros(bytes, (count - 1) as nat);
        assert((bytes + zeros).skip(1) =~= bytes + Seq::new((count - 1) as nat, |i: int| 0u8));
    } else {
        assert(bytes + zeros =~= bytes);
    }
}

pub(crate) fn wide_challenge(challenge: &[u8; 32]) -> (wide: [u8; 64])
    ensures
        wide@ == spec_wide_challenge(challenge@),
{
    let mut wide = [0u8; 64];
    let mut i: usize = 0;
    while i < 32
        invariant
            i <= 32,
            forall|j: int| 0 <= j < i ==> wide@[j] == challenge@[j],
            forall|j: int| i <= j < 64 ==> wide@[j] == 0u8,
        decreases 32 - i,
    {
        wide[i] = challenge[i];
        i += 1;
    }
    wide
}

impl PublicKey {
    #[verifier::type_invariant]
    spec fn well_formed(self) -> bool {
        spec_is_public_key(self.bytes@)
    }

    /// Whether the bytes held are a canonical point encoding. This holds of
    /// every key that executable code can reach.
    pub open spec fn is_valid(&self) -> bool {
        self@.len() == 32 && spec_is_public_key(self@)
    }

    /// Accepts the bytes if and only if they are a canonical point encoding.
    pub fn from_bytes(bytes: &[u8; 32]) -> (key: Option<PublicKey>)
        ensures
            key is Some <==> spec_is_public_key(bytes@),
            key matches Some(k) ==> k@ == bytes@ && k.is_valid(),
    {
        if is_public_key(bytes) {
            Some(PublicKey { bytes: *bytes })
        } else {
            None
        }
    }

    /// The public key `k·G` of a secret key.
    pub fn from_secret_key(secret: &PrivateKey) -> (key: PublicKey)
        ensures
            key@ == spec_public_key_from_secret(secret@),
            key.is_valid(),
    {
        proof {
            use_type_invariant(secret);
        }
        match public_key_from_secret(&secret.bytes) {
            Some(bytes) => PublicKey { bytes },
            None => vstd::pervasive::unreached(),
        }
    }

    /// The 32 bytes of the canonical encoding.
    pub fn as_bytes(&self) -> (bytes: &[u8; 32])
        ensures
            bytes@ == self@,
            self.is_valid(),
    {
        proof {
            use_type_invariant(self);
        }
        &self.bytes
    }
}

impl PrivateKey {
    #[verifier::type_invariant]
    spec fn well_formed(self) -> bool {
        spec_is_secret_key(self.bytes@)
    }

    /// Whether the bytes held are a canonical scalar encoding. This holds of
    /// every key that executable code can reach.
    pub open spec fn is_valid(&self) -> bool {
        self@.len() == 32 && spec_is_secret_key(self@)
    }

    /// The scalar that 64 bytes, read as a little-endian number, reduce to
    /// modulo the group order.
    pub fn from_uniform_bytes(bytes: &[u8; 64]) -> (key: PrivateKey)
        ensures
            key@ == spec_scalar_from_uniform_bytes(bytes@),
            key.is_valid(),
    {
        proof {
            lemma_reduced_is_secret_key(spec_le_value(bytes@));
        }
        match scalar_from_uniform_bytes(bytes) {
            Some(scalar) => PrivateKey { bytes: scalar },
            None => vstd::pervasive::unreached(),
        }
    }

    /// The scalar that a 32-byte digest stands for: the digest read as a
    /// little-endian number and reduced modulo the group order.
    pub fn from_digest(digest: &[u8; 32]) -> (key: PrivateKey)
        ensures
            key@ == spec_scalar_from_uniform_bytes(spec_wide_challenge(digest@)),
            key@ == spec_le_bytes(spec_le_value(digest@) % spec_group_order(), 32),
            key.is_valid(),
    {
        proof {
            lemma_wide_challenge_value(digest@);
        }
        let wide = wide_challenge(digest);
        PrivateKey::from_uniform_bytes(&wide)
    }

    /// Whether the key is the scalar zero, which is the secret key of no
    /// public key that a signature verifies against.
    pub fn is_zero(&self) -> (zero: bool)
        ensures
            zero == (spec_le_value(self@) == 0),
    {
        let mut i: usize = 32;
        proof {
            assert(self.bytes@.skip(32) =~= Seq::<u8>::empty());
        }
        while i > 0
            invariant
                i <= 32,
                spec_le_value(self.bytes@.skip(i as int)) == 0,
            decreases i,
        {
            i -= 1;
            assert(self.bytes@.skip(i as int).skip(1) =~= self.bytes@.skip(i + 1));
            if self.bytes[i] != 0 {
                proof {
                    lemma_le_value_of_suffix(self.bytes@, i as int);
                }
                return false;
            }
        }
        assert(self.bytes@.skip(0) =~= self.bytes@);
        true
    }

    /// A scalar chosen uniformly at random.
    pub fn random() -> (key: PrivateKey)
        ensures
            key.is_valid(),
    {
        match random_secret_key() {
            Some(scalar) => PrivateKey { bytes: scalar },
            None => vstd::pervasive::unreached(),
        }
    }

    /// Accepts the bytes if and only if they are a canonical scalar encoding.
    pub fn from_bytes(bytes: &[u8; 32]) -> (key: Option<PrivateKey>)
        ensures
            key is Some <==> spec_is_secret_key(bytes@),
            key matches Some(k) ==> k@ == bytes@ && k.is_valid(),
    {
        if is_secret_key(bytes) {
            Some(PrivateKey { bytes: *bytes })
        } else {
            None
        }
    }

    /// The 32 bytes of the canonical encoding.
    pub fn as_bytes(&self) -> (bytes: &[u8; 32])
        ensures
            bytes@ == self@,
            self.is_valid(),
    {
        proof {
            use_type_invariant(self);
        }
        &self.bytes
    }
}

impl Commitment {
    /// Whether the bytes held are a canonical point encoding.
    pub open spec fn is_valid(&self) -> bool {
        self@.len() == 32 && spec_is_public_key(self@)
    }

    /// The public key read as a commitment.
    pub fn from_public_key(key: PublicKey) -> (commitment: Commitment)
        ensures
            commitment@ == key@,
    {
        Commitment { key }
    }

    /// Accepts the bytes if and only if they are a canonical point encoding.
    pub fn from_bytes(bytes: &[u8; 32]) -> (commitment: Option<Commitment>)
        ensures
            commitment is Some <==> spec_is_public_key(bytes@),
            commitment matches Some(c) ==> c@ == bytes@ && c.is_valid(),
    {
        match PublicKey::from_bytes(bytes) {
            Some(key) => Some(Commitment { key }),
            None => None,
        }
    }

    /// The commitment read as a public key.
    pub fn as_public_key(&self) -> (key: &PublicKey)
        ensures
            key@ == self@,
            key.is_valid(),
    {
        proof {
            use_type_invariant(&self.key);
        }
        &self.key
    }

    /// The 32 bytes of the canonical encoding.
    pub fn as_bytes(&self) -> (bytes: &[u8; 32])
        ensures
            bytes@ == self@,
            self.is_valid(),
    {
        self.key.as_bytes()
    }
}

impl Signature {
    /// Whether both halves are canonical encodings.
    pub open spec fn is_valid(&self) -> bool {
        &&& self@.len() == 64
        &&& spec_is_public_key(self.spec_public_nonce())
        &&& spec_is_secret_key(self.spec_signature())
    }

    /// The encoded public nonce `R`: the first half of the view.
    pub closed spec fn spec_public_nonce(&self) -> Seq<u8> {
        self.public_nonce@
    }

    /// The encoded scalar `s`: the second half of the view.
    pub closed spec fn spec_signature(&self) -> Seq<u8> {
        self.signature@
    }

    /// The two halves are 32 bytes each and make up the view in order.
    pub proof fn lemma_view(&self)
        ensures
            self@ == self.spec_public_nonce() + self.spec_signature(),
            self.spec_public_nonce().len() == 32,
            self.spec_signature().len() == 32,
            self.spec_public_nonce() == self@.subrange(0, 32),
            self.spec_signature() == self@.subrange(32, 64),
    {
    }

    /// The signature with this public nonce and this scalar.
    pub fn new(public_nonce: PublicKey, signature: PrivateKey) -> (sig: Signature)
        ensures
            sig.spec_public_nonce() == public_nonce@,
            sig.spec_signature() == signature@,
            sig@ == public_nonce@ + signature@,
    {
        Signature { public_nonce, signature }
    }

    /// The public nonce `R`.
    pub fn get_public_nonce(&self) -> (nonce: &PublicKey)
        ensures
            nonce@ == self.spec_public_nonce(),
            nonce.is_valid(),
    {
        proof {
            use_type_invariant(&self.public_nonce);
        }
        &self.public_nonce
    }

    /// The scalar `s`.
    pub fn get_signature(&self) -> (scalar: &PrivateKey)
        ensures
            scalar@ == self.spec_signature(),
            scalar.is_valid(),
    {
        proof {
            use_type_invariant(&self.signature);
        }
        &self.signature
    }

    /// The 64 bytes of the signature: the public nonce, then the scalar.
    pub fn to_bytes(&self) -> (bytes: [u8; 64])
        ensures
            bytes@ == self@,
    {
        let nonce = self.public_nonce.as_bytes();
        let scalar = self.signature.as_bytes();
        let mut bytes = [0u8; 64];
        let mut i: usize = 0;
        while i < 32
            invariant
                i <= 32,
                nonce@.len() == 32,
                scalar@.len() == 32,
                forall|j: int| 0 <= j < i ==> bytes@[j] == nonce@[j],
                forall|j: int| 0 <= j < i ==> bytes@[32 + j] == scalar@[j],
            decreases 32 - i,
        {
            bytes[i] = nonce[i];
            bytes[32 + i] = scalar[i];
            i += 1;
        }
        bytes
    }

    /// How this signature stands to another in the byte order of signatures.
    pub fn compare(&self, other: &Signature) -> (order: Lexicographic)
        ensures
            order == spec_compare_bytes(self@, other@),
    {
        let a = self.to_bytes();
        let b = other.to_bytes();
        compare_bytes(a.as_slice(), b.as_slice())
    }

    /// Signs a 32-byte challenge with a secret key and a secret nonce: the
    /// public nonce is `r·G` and the scalar is `s = r + e·k`. The signature
    /// verifies against the public key of the secret key and the same
    /// challenge, unless the secret key is zero.
    pub fn sign(secret: &PrivateKey, nonce: &PrivateKey, challenge: &[u8; 32]) -> (sig: Signature)
        ensures
            sig.spec_public_nonce() == spec_public_key_from_secret(nonce@),
            sig.spec_signature() == spec_schnorr_sign(
                secret@,
                nonce@,
                spec_wide_challenge(challenge@),
            ),
            sig.is_valid(),
            spec_le_value(secret@) != 0 ==> spec_schnorr_verify(
                sig.spec_public_nonce(),
                sig.spec_signature(),
                spec_public_key_from_secret(secret@),
                spec_wide_challenge(challenge@),
            ),
    {
        let wide = wide_challenge(challenge);
        let k = secret.as_bytes();
        let r = nonce.as_bytes();
        proof {
            lemma_reduced_is_secret_key(
                spec_le_value(nonce@) + (spec_le_value(wide@) % spec_group_order()) * spec_le_value(
                    secret@,
                ),
            );
        }
        match schnorr_sign(k, r, &wide) {
            Some((public_nonce, scalar)) => {
                let sig = Signature {
                    public_nonce: PublicKey { bytes: public_nonce },
                    signature: PrivateKey { bytes: scalar },
                };
                proof {
                    sig.lemma_view();
                }
                sig
            },
            None => vstd::pervasive::unreached(),
        }
    }

    /// Whether the signature satisfies `s·G = R + e·P` for the public key `P`
    /// and the scalar `e` that the 32-byte challenge stands for.
    pub fn verify_challenge(&self, public_key: &PublicKey, challenge: &[u8; 32]) -> (ok: bool)
        ensures
            ok == spec_schnorr_verify(
                self.spec_public_nonce(),
                self.spec_signature(),
                public_key@,
                spec_wide_challenge(challenge@),
            ),
    {
        let wide = wide_challenge(challenge);
        schnorr_verify(
            self.public_nonce.as_bytes(),
            self.signature.as_bytes(),
            public_key.as_bytes(),
            &wide,
        )
    }
}

impl ConsensusEncoding for PublicKey {
    type Model = Seq<u8>;

    /// The 32 bytes of the key.
    open spec fn model(&self) -> Seq<u8> {
        self@
    }

    /// A key is written as its bytes.
    open spec fn spec_encode(model: Seq<u8>) -> Seq<u8> {
        model
    }

    open spec fn spec_is_valid(model: Seq<u8>) -> bool {
        model.len() == 32 && spec_is_public_key(model)
    }

    fn consensus_encode(&self, writer: &mut Vec<u8>) {
        proof {
            use_type_invariant(self);
        }
        append_bytes(writer, self.bytes.as_slice());
    }
}

impl ConsensusEncodingSized for PublicKey {
    fn consensus_encode_exact_size(&self) -> (size: usize)
        ensures
            size == 32,
    {
        32
    }
}

impl ConsensusDecoding for PublicKey {
    open spec fn spec_decode(bytes: Seq<u8>) -> Decoded<Seq<u8>> {
        spec_decode_public_key(bytes)
    }

    /// Reads 32 bytes and fails on what is no canonical point encoding.
    fn consensus_decode(reader: &mut ByteReader) -> (key: Result<PublicKey, DecodeError>) {
        let bytes = reader.read_array_32()?;
        if is_public_key(&bytes) {
            Ok(PublicKey { bytes })
        } else {
            Err(DecodeError::InvalidPublicKey)
        }
    }

    proof fn lemma_consumed_is_bounded(bytes: Seq<u8>) {
    }

    proof fn lemma_round_trip(model: Seq<u8>, rest: Seq<u8>) {
        assert((model + rest).subrange(0, 32) =~= model);
    }

    proof fn lemma_model_is_faithful(a: PublicKey, b: PublicKey) {
        assert(a.bytes =~= b.bytes);
    }

    proof fn lemma_decode_is_canonical(bytes: Seq<u8>) {
    }
}

impl ConsensusEncoding for PrivateKey {
    type Model = Seq<u8>;

    /// The 32 bytes of the key.
    open spec fn model(&self) -> Seq<u8> {
        self@
    }

    /// A key is written as its bytes.
    open spec fn spec_encode(model: Seq<u8>) -> Seq<u8> {
        model
    }

    open spec fn spec_is_valid(model: Seq<u8>) -> bool {
        model.len() == 32 && spec_is_secret_key(model)
    }

    fn consensus_encode(&self, writer: &mut Vec<u8>) {
        proof {
            use_type_invariant(self);
        }
        append_bytes(writer, self.bytes.as_slice());
    }
}

impl ConsensusEncodingSized for PrivateKey {
    fn consensus_encode_exact_size(&self) -> (size: usize)
        ensures
            size == 32,
    {
        32
    }
}

impl ConsensusDecoding for PrivateKey {
    open spec fn spec_decode(bytes: Seq<u8>) -> Decoded<Seq<u8>> {
        spec_decode_secret_key(bytes)
    }

    /// Reads 32 bytes and fails on what is no canonical scalar encoding.
    fn consensus_decode(reader: &mut ByteReader) -> (key: Result<PrivateKey, DecodeError>) {
        let bytes = reader.read_array_32()?;
        if is_secret_key(&bytes) {
            Ok(PrivateKey { bytes })
        } else {
            Err(DecodeError::InvalidSecretKey)
        }
    }

    proof fn lemma_consumed_is_bounded(bytes: Seq<u8>) {
    }

    proof fn lemma_round_trip(model: Seq<u8>, rest: Seq<u8>) {
        assert((model + rest).subrange(0, 32) =~= model);
    }

    proof fn lemma_model_is_faithful(a: PrivateKey, b: PrivateKey) {
        assert(a.bytes =~= b.bytes);
    }

    proof fn lemma_decode_is_canonical(bytes: Seq<u8>) {
    }
}

impl ConsensusEncoding for Commitment {
    type Model = Seq<u8>;

    /// The 32 bytes of the commitment.
    open spec fn model(&self) -> Seq<u8> {
        self@
    }

    /// A commitment is written as its bytes.
    open spec fn spec_encode(model: Seq<u8>) -> Seq<u8> {
        model
    }

    open spec fn spec_is_valid(model: Seq<u8>) -> bool {
        model.len() == 32 && spec_is_public_key(model)
    }

    fn consensus_encode(&self, writer: &mut Vec<u8>) {
        self.key.consensus_encode(writer);
    }
}

impl ConsensusEncodingSized for Commitment {
    fn consensus_encode_exact_size(&self) -> (size: usize)
        ensures
            size == 32,
    {
        32
    }
}

impl ConsensusDecoding for Commitment {
    open spec fn spec_decode(bytes: Seq<u8>) -> Decoded<Seq<u8>> {
        spec_decode_public_key(bytes)
    }

    /// Reads 32 bytes and fails on what is no canonical point encoding.
    fn consensus_decode(reader: &mut ByteReader) -> (commitment: Result<Commitment, DecodeError>) {
        let key = PublicKey::consensus_decode(reader)?;
        Ok(Commitment { key })
    }

    proof fn lemma_consumed_is_bounded(bytes: Seq<u8>) {
    }

    proof fn lemma_round_trip(model: Seq<u8>, rest: Seq<u8>) {
        assert((model + rest).subrange(0, 32) =~= model);
    }

    proof fn lemma_model_is_faithful(a: Commitment, b: Commitment) {
        assert(a.key.bytes =~= b.key.bytes);
    }

    proof fn lemma_decode_is_canonical(bytes: Seq<u8>) {
    }
}

impl ConsensusEncoding for Signature {
    type Model = Seq<u8>;

    /// The 64 bytes of the signature: the public nonce, then the scalar.
    open spec fn model(&self) -> Seq<u8> {
        self@
    }

    /// A signature is written as its bytes.
    open spec fn spec_encode(model: Seq<u8>) -> Seq<u8> {
        model
    }

    open spec fn spec_is_valid(model: Seq<u8>) -> bool {
        &&& model.len() == 64
        &&& spec_is_public_key(model.subrange(0, 32))
        &&& spec_is_secret_key(model.subrange(32, 64))
    }

    fn consensus_encode(&self, writer: &mut Vec<u8>) {
        proof {
            self.lemma_view();
        }
        self.public_nonce.consensus_encode(writer);
        self.signature.consensus_encode(writer);
    }
}

impl ConsensusEncodingSized for Signature {
    fn consensus_encode_exact_size(&self) -> (size: usize)
        ensures
            size == 64,
    {
        proof {
            self.lemma_view();
        }
        64
    }
}

impl ConsensusDecoding for Signature {
    open spec fn spec_decode(bytes: Seq<u8>) -> Decoded<Seq<u8>> {
        spec_decode_signature(bytes)
    }

    /// Reads the public nonce and the scalar and checks both.
    fn consensus_decode(reader: &mut ByteReader) -> (sig: Result<Signature, DecodeError>) {
        let public_nonce = PublicKey::consensus_decode(reader)?;
        let ghost between = *reader;
        let signature = PrivateKey::consensus_decode(reader);
        proof {
            lemma_moves_twice(
                *old(reader),
                between,
                *reader,
                32,
                spec_decode_secret_key(between.remaining()).consumed,
            );
        }
        let sig = Signature { public_nonce, signature: signature? };
        proof {
            sig.lemma_view();
        }
        Ok(sig)
    }

    proof fn lemma_consumed_is_bounded(bytes: Seq<u8>) {
    }

    proof fn lemma_round_trip(model: Seq<u8>, rest: Seq<u8>) {
        let bytes = model + rest;
        assert(bytes.subrange(0, 32) =~= model.subrange(0, 32));
        assert(bytes.skip(32).subrange(0, 32) =~= model.subrange(32, 64));
        assert(model.subrange(0, 32) + model.subrange(32, 64) =~= model);
    }

    proof fn lemma_model_is_faithful(a: Signature, b: Signature) {
        a.lemma_view();
        b.lemma_view();
        assert(a.public_nonce.bytes =~= b.public_nonce.bytes);
        assert(a.signature.bytes =~= b.signature.bytes);
    }

    proof fn lemma_decode_is_canonical(bytes: Seq<u8>) {
        let model = spec_decode_signature(bytes).result->Ok_0;
        assert(model.subrange(0, 32) =~= bytes.subrange(0, 32));
        assert(model.subrange(32, 64) =~= bytes.skip(32).subrange(0, 32));
    }
}

impl PartialEq for PublicKey {
    fn eq(&self, other: &Self) -> (equal: bool) {
        bytes_equal(self.bytes.as_slice(), other.bytes.as_slice())
    }
}

impl PartialEqSpecImpl for PublicKey {
    open spec fn obeys_eq_spec() -> bool {
        true
    }

    open spec fn eq_spec(&self, other: &Self) -> bool {
        self@ == other@
    }
}

impl PartialEq for PrivateKey {
    fn eq(&self, other: &Self) -> (equal: bool) {
        bytes_equal(self.bytes.as_slice(), other.bytes.as_slice())
    }
}

impl PartialEqSpecImpl for PrivateKey {
    open spec fn obeys_eq_spec() -> bool {
        true
    }

    open spec fn eq_spec(&self, other: &Self) -> bool {
        self@ == other@
    }
}

impl PartialEq for Commitment {
    fn eq(&self, other: &Self) -> (equal: bool) {
        self.key == other.key
    }
}

impl PartialEqSpecImpl for Commitment {
    open spec fn obeys_eq_spec() -> bool {
        true
    }

    open spec fn eq_spec(&self, other: &Self) -> bool {
        self@ == other@
    }
}

impl PartialEq for Signature {
    fn eq(&self, other: &Self) -> (equal: bool) {
        proof {
            self.lemma_view();
            other.lemma_view();
        }
        self.public_nonce == other.public_nonce && self.signature == other.signature
    }
}

impl PartialEqSpecImpl for Signature {
    open spec fn obeys_eq_spec() -> bool {
        true
    }

    open spec fn eq_spec(&self, other: &Self) -> bool {
        self@ == other@
    }
}

impl PartialOrd for Signature {
    fn partial_cmp(&self, other: &Self) -> (order: Option<Ordering>) {
        match self.compare(other) {
            Lexicographic::Less => Some(Ordering::Less),
            Lexicographic::Equal => Some(Ordering::Equal),
            Lexicographic::Greater => Some(Ordering::Greater),
        }
    }
}

impl PartialOrdSpecImpl for Signature {
    open spec fn obeys_partial_cmp_spec() -> bool {
        true
    }

    open spec fn partial_cmp_spec(&self, other: &Self) -> Option<Ordering> {
        match spec_compare_bytes(self@, other@) {
            Lexicographic::Less => Some(Ordering::Less),
            Lexicographic::Equal => Some(Ordering::Equal),
            Lexicographic::Greater => Some(Ordering::Greater),
        }
    }
}

} // verus!
