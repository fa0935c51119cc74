//! The transaction kernel: the part of a transaction that stays on the chain.
//!
//! A kernel carries the excess of a transaction, the signature that the
//! parties made over it, and the metadata that the signature binds: fee, lock
//! height, features and, for a burn, the burn commitment.

use crate::bytes::Lexicographic;
use crate::bytes::spec_compare_bytes;
use crate::consensus::ConsensusDecoding;
use crate::consensus::ConsensusEncoding;
use crate::consensus::ConsensusEncodingSized;
use crate::consensus::spec_decode_u64;
use crate::consensus::spec_decode_u8;
use crate::consensus::spec_encode_u64;
use crate::consensus::accepted;
use crate::consensus::rejected;
use crate::consensus::lemma_moves_twice;
use crate::consensus::ByteReader;
use crate::consensus::DecodeError;
use crate::consensus::Decoded;
use crate::trusted::spec_is_public_key;
use crate::trusted::spec_is_secret_key;
use crate::trusted::spec_le_value;
use crate::trusted::spec_public_key_from_secret;
use crate::trusted::spec_schnorr_sign;
use crate::trusted::spec_schnorr_verify;
use crate::hashing::spec_domain_separated_hash;
use crate::hashing::spec_domain_separation_tag;
use crate::hashing::DomainSeparatedConsensusHasher;
use crate::hashing::TRANSACTION_HASH_DOMAIN;
use crate::kernel_features::spec_contains;
use crate::kernel_features::spec_decode_kernel_features;
use crate::kernel_features::spec_encode_kernel_features;
use crate::kernel_features::spec_kernel_features_text;
use crate::kernel_features::KernelFeatures;
use crate::kernel_features::BURN_KERNEL;
use crate::kernel_features::COINBASE_KERNEL;
use crate::tari_amount::spec_micro_tari_text;
use crate::tari_amount::MicroTari;
use crate::text::decimal_string;
use crate::text::spec_decimal;
use crate::text::spec_to_hex;
use crate::text::to_hex;
use crate::types::spec_decode_optional_commitment;
use crate::types::spec_decode_public_key;
use crate::types::spec_decode_signature;
use crate::types::spec_encode_optional_commitment;
use crate::types::spec_optional_commitment;
use crate::types::spec_wide_challenge;
use crate::types::Commitment;
use crate::types::FixedHash;
use crate::types::PrivateKey;
use crate::types::PublicKey;
use crate::types::Signature;
use crate::bytes::lexicographic_less;
use crate::consensus::lemma_u64_decode_is_canonical;
use crate::consensus::lemma_u64_round_trip;
use std::cmp::Ordering;
use vstd::prelude::*;
use vstd::std_specs::cmp::PartialOrdSpec;
use vstd::string::StringExecFns;
use vstd::string::StringSliceAdditionalSpecFns;

verus! {

/// The label under which a kernel is hashed.
pub const KERNEL_HASH_LABEL: &'static str = "transaction_kernel";

/// The label under which the signature challenge of a kernel is hashed.
pub const KERNEL_SIGNATURE_LABEL: &'static str = "kernel_signature";

/// The version of the kernel format.
#[derive(Debug, Clone, Copy, PartialEq, Eq, Structural, Hash)]
pub enum TransactionKernelVersion {
    V0,
}

/// Why a kernel is refused.
#[derive(Debug, Clone, PartialEq, Eq)]
pub enum TransactionError {
    /// A signature does not verify; the text names what was being verified.
    InvalidSignatureError(String),
    /// The kernel lacks what it must have; the text says what.
    InvalidKernel(String),
}

/// The metadata of a transaction that its kernel signature binds.
#[derive(Debug, Clone, PartialEq, Eq)]
pub struct TransactionMetadata {
    /// The absolute fee for the transaction
    pub fee: MicroTari,
    /// The earliest block this transaction can be mined
    pub lock_height: u64,
    /// The kernel features
    pub kernel_features: KernelFeatures,
    /// optional burn commitment if present
    pub burn_commitment: Option<Commitment>,
}

/// The transaction kernel tracks the excess for a given transaction. The
/// kernel also tracks other transaction metadata, such as the lock height for
/// the transaction (i.e. the earliest this transaction can be mined) and the
/// transaction fee, in cleartext.
#[derive(Debug, Clone, PartialEq, Eq)]
pub struct TransactionKernel {
    pub version: TransactionKernelVersion,
    /// Options for a kernel's structure or use
    pub features: KernelFeatures,
    /// Fee included in the transaction this proof is for.
    pub fee: MicroTari,
    /// This kernel is not valid earlier than lock_height blocks
    /// The max lock_height of all *inputs* to this transaction
    pub lock_height: u64,
    /// Remainder of the sum of all transaction commitments (minus an offset). If the transaction is well-formed,
    /// amounts plus fee will sum to zero, and the excess is hence a valid public key.
    pub excess: Commitment,
    /// An aggregated signature of the metadata in this kernel, signed by the individual excess values and the offset
    /// excess of the sender.
    pub excess_sig: Signature,
    /// This is an optional field that must be set if the transaction contains a burned output.
    pub burn_commitment: Option<Commitment>,
}

/// A kernel as plain values: what its encoding, its hash and its signature
/// challenge are functions of.
pub struct TransactionKernelView {
    pub version: TransactionKernelVersion,
    /// The bit pattern of the features.
    pub features: u8,
    pub fee: u64,
    pub lock_height: u64,
    /// The 32 bytes of the excess.
    pub excess: Seq<u8>,
    /// The 64 bytes of the signature: public nonce, then scalar.
    pub excess_sig: Seq<u8>,
    /// The 32 bytes of the burn commitment, if there is one.
    pub burn_commitment: Option<Seq<u8>>,
}

impl View for TransactionKernel {
    type V = TransactionKernelView;

    open spec fn view(&self) -> TransactionKernelView {
        TransactionKernelView {
            version: self.version,
            features: self.features@,
            fee: self.fee.0,
            lock_height: self.lock_height,
            excess: self.excess@,
            excess_sig: self.excess_sig@,
            burn_commitment: spec_optional_commitment(self.burn_commitment),
        }
    }
}

impl TransactionKernelView {
    /// The public nonce of the signature.
    pub open spec fn public_nonce(self) -> Seq<u8> {
        self.excess_sig.subrange(0, 32)
    }

    /// The scalar of the signature.
    pub open spec fn signature(self) -> Seq<u8> {
        self.excess_sig.subrange(32, 64)
    }

    /// Whether the fields hold canonical encodings of the right lengths. This
    /// holds of the view of every kernel that executable code can reach.
    pub open spec fn is_valid(self) -> bool {
        &&& self.excess.len() == 32
        &&& spec_is_public_key(self.excess)
        &&& self.excess_sig.len() == 64
        &&& spec_is_public_key(self.public_nonce())
        &&& spec_is_secret_key(self.signature())
        &&& self.burn_commitment matches Some(commitment) ==> commitment.len() == 32
            && spec_is_public_key(commitment)
    }

    /// Whether the burn commitment is there exactly when the burn flag is set.
    pub open spec fn is_consistent(self) -> bool {
        self.burn_commitment is Some <==> spec_contains(self.features, BURN_KERNEL)
    }
}

/// The byte that stands for a kernel version.
pub open spec fn spec_kernel_version_byte(version: TransactionKernelVersion) -> u8 {
    match version {
        TransactionKernelVersion::V0 => 0,
    }
}

/// A kernel version is written as its byte.
pub open spec fn spec_encode_kernel_version(version: TransactionKernelVersion) -> Seq<u8> {
    seq![spec_kernel_version_byte(version)]
}

/// One byte is read; it must name a kernel version. A byte that names none is
/// rejected when it has been taken.
pub open spec fn spec_decode_kernel_version(bytes: Seq<u8>) -> Decoded<TransactionKernelVersion> {
    let byte = spec_decode_u8(bytes);
    match byte.result {
        Ok(0) => accepted(TransactionKernelVersion::V0, byte.consumed),
        Ok(other) => rejected(DecodeError::InvalidKernelVersion(other), byte.consumed),
        Err(error) => rejected(error, byte.consumed),
    }
}

/// The encoding of a kernel: its fields in this order, nothing between them
/// and nothing in front.
pub open spec fn spec_encode_kernel(kernel: TransactionKernelView) -> Seq<u8> {
    spec_encode_kernel_version(kernel.version) + spec_encode_kernel_features(kernel.features)
        + spec_encode_u64(kernel.fee) + spec_encode_u64(kernel.lock_height) + kernel.excess
        + kernel.excess_sig + spec_encode_optional_commitment(kernel.burn_commitment)
}

/// What each field of a kernel decodes to, each read from where the one
/// before ended and counted from the start of the kernel. A field behind one
/// that fails is not read: `spec_decode_kernel` looks no further than the
/// first failure.
pub struct TransactionKernelFields {
    pub version: Decoded<TransactionKernelVersion>,
    pub features: Decoded<u8>,
    pub fee: Decoded<u64>,
    pub lock_height: Decoded<u64>,
    pub excess: Decoded<Seq<u8>>,
    pub excess_sig: Decoded<Seq<u8>>,
    pub burn_commitment: Decoded<Option<Seq<u8>>>,
}

/// The fields of a kernel as they are read from the input, in their order.
pub open spec fn spec_decode_kernel_fields(bytes: Seq<u8>) -> TransactionKernelFields {
    let version = spec_decode_kernel_version(bytes);
    let features = spec_decode_kernel_features(bytes.skip(version.consumed as int)).after(
        version.consumed,
    );
    let fee = spec_decode_u64(bytes.skip(features.consumed as int)).after(features.consumed);
    let lock_height = spec_decode_u64(bytes.skip(fee.consumed as int)).after(fee.consumed);
    let excess = spec_decode_public_key(bytes.skip(lock_height.consumed as int)).after(
        lock_height.consumed,
    );
    let excess_sig = spec_decode_signature(bytes.skip(excess.consumed as int)).after(
        excess.consumed,
    );
    let burn_commitment = spec_decode_optional_commitment(
        bytes.skip(excess_sig.consumed as int),
    ).after(excess_sig.consumed);
    TransactionKernelFields {
        version,
        features,
        fee,
        lock_height,
        excess,
        excess_sig,
        burn_commitment,
    }
}

/// The decoding of a kernel: the fields are read one after the other, each
/// from where the one before ended. The first that fails decides the error,
/// and what had been taken up to then, that field's share included, has been
/// taken.
pub open spec fn spec_decode_kernel(bytes: Seq<u8>) -> Decoded<TransactionKernelView> {
    let fields = spec_decode_kernel_fields(bytes);
    if fields.version.result is Err {
        rejected(fields.version.result->Err_0, fields.version.consumed)
    } else if fields.features.result is Err {
        rejected(fields.features.result->Err_0, fields.features.consumed)
    } else if fields.fee.result is Err {
        rejected(fields.fee.result->Err_0, fields.fee.consumed)
    } else if fields.lock_height.result is Err {
        rejected(fields.lock_height.result->Err_0, fields.lock_height.consumed)
    } else if fields.excess.result is Err {
        rejected(fields.excess.result->Err_0, fields.excess.consumed)
    } else if fields.excess_sig.result is Err {
        rejected(fields.excess_sig.result->Err_0, fields.excess_sig.consumed)
    } else if fields.burn_commitment.result is Err {
        rejected(fields.burn_commitment.result->Err_0, fields.burn_commitment.consumed)
    } else {
        accepted(
            TransactionKernelView {
                version: fields.version.result->Ok_0,
                features: fields.features.result->Ok_0,
                fee: fields.fee.result->Ok_0,
                lock_height: fields.lock_height.result->Ok_0,
                excess: fields.excess.result->Ok_0,
                excess_sig: fields.excess_sig.result->Ok_0,
                burn_commitment: fields.burn_commitment.result->Ok_0,
            },
            fields.burn_commitment.consumed,
        )
    }
}

impl TransactionKernelVersion {
    /// The version that kernels are made with.
    pub fn get_current_version() -> (version: TransactionKernelVersion)
        ensures
            version == TransactionKernelVersion::V0,
    {
        TransactionKernelVersion::V0
    }

    /// The byte that stands for the version.
    pub fn as_u8(self) -> (value: u8)
        ensures
            value == spec_kernel_version_byte(self),
    {
        match self {
            TransactionKernelVersion::V0 => 0,
        }
    }
}

impl ConsensusEncoding for TransactionKernelVersion {
    type Model = TransactionKernelVersion;

    open spec fn model(&self) -> TransactionKernelVersion {
        *self
    }

    open spec fn spec_encode(model: TransactionKernelVersion) -> Seq<u8> {
        spec_encode_kernel_version(model)
    }

    open spec fn spec_is_valid(model: TransactionKernelVersion) -> bool {
        true
    }

    fn consensus_encode(&self, writer: &mut Vec<u8>) {
        writer.push(self.as_u8());
    }
}

impl ConsensusEncodingSized for TransactionKernelVersion {
    fn consensus_encode_exact_size(&self) -> (size: usize)
        ensures
            size == 1,
    {
        1
    }
}

impl ConsensusDecoding for TransactionKernelVersion {
    open spec fn spec_decode(bytes: Seq<u8>) -> Decoded<TransactionKernelVersion> {
        spec_decode_kernel_version(bytes)
    }

    fn consensus_decode(reader: &mut ByteReader) -> (version: Result<
        TransactionKernelVersion,
        DecodeError,
    >) {
        let value = reader.read_u8()?;
        if value == 0 {
            Ok(TransactionKernelVersion::V0)
        } else {
            Err(DecodeError::InvalidKernelVersion(value))
        }
    }

    proof fn lemma_consumed_is_bounded(bytes: Seq<u8>) {
    }

    proof fn lemma_round_trip(model: TransactionKernelVersion, rest: Seq<u8>) {
    }

    proof fn lemma_model_is_faithful(a: TransactionKernelVersion, b: TransactionKernelVersion) {
    }

    proof fn lemma_decode_is_canonical(bytes: Seq<u8>) {
    }
}

/// The challenge that a kernel signature signs: the digest, under the
/// signature label, of the public nonce, the excess, the fee, the lock
/// height, the features and the optional burn commitment, in this order.
pub open spec fn spec_kernel_challenge(
    public_nonce: Seq<u8>,
    excess: Seq<u8>,
    fee: u64,
    lock_height: u64,
    features: u8,
    burn_commitment: Option<Seq<u8>>,
) -> Seq<u8> {
    spec_domain_separated_hash(
        TRANSACTION_HASH_DOMAIN.spec_bytes(),
        KERNEL_SIGNATURE_LABEL.spec_bytes(),
        public_nonce + excess + spec_encode_u64(fee) + spec_encode_u64(lock_height)
            + spec_encode_kernel_features(features) + spec_encode_optional_commitment(
            burn_commitment,
        ),
    )
}

/// The hash of a kernel: the digest, under the kernel label, of its encoding.
pub open spec fn spec_kernel_hash(kernel: TransactionKernelView) -> Seq<u8> {
    spec_domain_separated_hash(
        TRANSACTION_HASH_DOMAIN.spec_bytes(),
        KERNEL_HASH_LABEL.spec_bytes(),
        spec_encode_kernel(kernel),
    )
}

/// Whether the signature of a kernel verifies: the challenge is rebuilt from
/// the kernel's own fields and the signature is checked against it and the
/// excess read as a public key.
pub open spec fn spec_kernel_signature_verifies(kernel: TransactionKernelView) -> bool {
    spec_schnorr_verify(
        kernel.public_nonce(),
        kernel.signature(),
        kernel.excess,
        spec_wide_challenge(
            spec_kernel_challenge(
                kernel.public_nonce(),
                kernel.excess,
                kernel.fee,
                kernel.lock_height,
                kernel.features,
                kernel.burn_commitment,
            ),
        ),
    )
}

/// A signature as text: an object with the public nonce and the scalar,
/// each in hex.
pub open spec fn spec_signature_text(public_nonce: Seq<u8>, signature: Seq<u8>) -> Seq<char> {
    "{\"public_nonce\":\""@ + spec_to_hex(public_nonce) + "\",\"signature\":\""@ + spec_to_hex(
        signature,
    ) + "\"}"@
}

/// A kernel as text, one field to a line: the fee with its unit, the lock
/// height, the names of the features, the excess in hex, the signature as an
/// object, and the burn commitment in hex or `None`.
pub open spec fn spec_kernel_text(kernel: TransactionKernelView) -> Seq<char> {
    "Fee: "@ + spec_micro_tari_text(MicroTari(kernel.fee)) + "\nLock height: "@ + spec_decimal(
        kernel.lock_height as nat,
    ) + "\nFeatures: "@ + spec_kernel_features_text(kernel.features) + "\nExcess: "@
        + spec_to_hex(kernel.excess) + "\nExcess signature: "@ + spec_signature_text(
        kernel.public_nonce(),
        kernel.signature(),
    ) + "\nCommitment: "@ + (match kernel.burn_commitment {
        Some(commitment) => spec_to_hex(commitment),
        None => "None"@,
    }) + "\n"@
}

/// The tags of both labels are short enough for their length prefix.
proof fn lemma_label_lengths()
    ensures
        spec_domain_separation_tag(
            TRANSACTION_HASH_DOMAIN.spec_bytes(),
            KERNEL_HASH_LABEL.spec_bytes(),
        ).len() == 59,
        spec_domain_separation_tag(
            TRANSACTION_HASH_DOMAIN.spec_bytes(),
            KERNEL_SIGNATURE_LABEL.spec_bytes(),
        ).len() == 57,
{
    reveal_strlit("transaction_kernel");
    reveal_strlit("kernel_signature");
    reveal_strlit("com.tari.base_layer.core.transactions.v0.");
    vstd::string::is_ascii_spec_bytes(KERNEL_HASH_LABEL);
    vstd::string::is_ascii_spec_bytes(KERNEL_SIGNATURE_LABEL);
    vstd::string::is_ascii_spec_bytes(TRANSACTION_HASH_DOMAIN);
}

impl TransactionKernel {
    /// Puts the fields together. Nothing is checked: whether the burn
    /// commitment fits the features, and whether the signature verifies, are
    /// questions of their own.
    pub fn new(
        version: TransactionKernelVersion,
        features: KernelFeatures,
        fee: MicroTari,
        lock_height: u64,
        excess: Commitment,
        excess_sig: Signature,
        burn_commitment: Option<Commitment>,
    ) -> (kernel: TransactionKernel)
        ensures
            kernel == (TransactionKernel {
                version,
                features,
                fee,
                lock_height,
                excess,
                excess_sig,
                burn_commitment,
            }),
    {
        TransactionKernel { version, features, fee, lock_height, excess, excess_sig, burn_commitment }
    }

    /// As `new`, with the current version.
    pub fn new_current_version(
        features: KernelFeatures,
        fee: MicroTari,
        lock_height: u64,
        excess: Commitment,
        excess_sig: Signature,
        burn_commitment: Option<Commitment>,
    ) -> (kernel: TransactionKernel)
        ensures
            kernel == (TransactionKernel {
                version: TransactionKernelVersion::V0,
                features,
                fee,
                lock_height,
                excess,
                excess_sig,
                burn_commitment,
            }),
    {
        TransactionKernel::new(
            TransactionKernelVersion::get_current_version(),
            features,
            fee,
            lock_height,
            excess,
            excess_sig,
            burn_commitment,
        )
    }

    /// The kernel of a transaction with a single signer: the excess is the
    /// public key of the secret key, and the signature is made with the
    /// secret key and the secret nonce over the challenge that the fields
    /// given here give. Such a kernel passes `verify_signature`, unless the
    /// secret key is zero.
    pub fn new_signed(
        features: KernelFeatures,
        fee: MicroTari,
        lock_height: u64,
        secret: &PrivateKey,
        nonce: &PrivateKey,
        burn_commitment: Option<Commitment>,
    ) -> (kernel: TransactionKernel)
        ensures
            kernel@.version == TransactionKernelVersion::V0,
            kernel@.features == features@,
            kernel@.fee == fee.0,
            kernel@.lock_height == lock_height,
            kernel@.burn_commitment == spec_optional_commitment(burn_commitment),
            kernel@.excess == spec_public_key_from_secret(secret@),
            kernel@.public_nonce() == spec_public_key_from_secret(nonce@),
            kernel@.signature() == spec_schnorr_sign(
                secret@,
                nonce@,
                spec_wide_challenge(
                    spec_kernel_challenge(
                        kernel@.public_nonce(),
                        kernel@.excess,
                        fee.0,
                        lock_height,
                        features@,
                        kernel@.burn_commitment,
                    ),
                ),
            ),
            kernel@.is_valid(),
            spec_le_value(secret@) != 0 ==> spec_kernel_signature_verifies(kernel@),
    {
        let excess = PublicKey::from_secret_key(secret);
        let public_nonce = PublicKey::from_secret_key(nonce);
        let challenge = TransactionKernel::build_kernel_challenge(
            &public_nonce,
            &excess,
            fee,
            lock_height,
            &features,
            &burn_commitment,
        );
        let excess_sig = Signature::sign(secret, nonce, &challenge);
        proof {
            excess_sig.lemma_view();
        }
        let kernel = TransactionKernel::new_current_version(
            features,
            fee,
            lock_height,
            Commitment::from_public_key(excess),
            excess_sig,
            burn_commitment,
        );
        kernel.check_valid();
        kernel
    }

    /// Establishes that the view of a kernel at hand is valid.
    fn check_valid(&self)
        ensures
            self@.is_valid(),
    {
        // Each field says that it is valid when it is read.
        let _ = self.excess.as_bytes();
        let _ = self.excess_sig.get_public_nonce();
        let _ = self.excess_sig.get_signature();
        if let Some(commitment) = &self.burn_commitment {
            let _ = commitment.as_bytes();
        }
        proof {
            self.excess_sig.lemma_view();
        }
    }

    /// Is this a coinbase kernel?
    pub fn is_coinbase(&self) -> (coinbase: bool)
        ensures
            coinbase == spec_contains(self@.features, COINBASE_KERNEL),
    {
        self.features.is_coinbase()
    }

    /// Is this a burned output kernel?
    pub fn is_burned(&self) -> (burned: bool)
        ensures
            burned == spec_contains(self@.features, BURN_KERNEL),
    {
        self.features.is_burned()
    }

    /// Whether the burn commitment is there exactly when the burn flag is set.
    pub fn is_consistent(&self) -> (consistent: bool)
        ensures
            consistent == self@.is_consistent(),
    {
        self.burn_commitment.is_some() == self.features.is_burned()
    }

    /// Produce a canonical hash for a transaction kernel.
    pub fn hash(&self) -> (digest: FixedHash)
        ensures
            digest@ == spec_kernel_hash(self@),
    {
        proof {
            lemma_label_lengths();
        }
        DomainSeparatedConsensusHasher::new(TRANSACTION_HASH_DOMAIN, KERNEL_HASH_LABEL).chain(
            self,
        ).finalize()
    }

    /// Recomputes the challenge from the kernel's own fields and checks the
    /// signature against it and the excess.
    pub fn verify_signature(&self) -> (verified: Result<(), TransactionError>)
        ensures
            verified is Ok <==> spec_kernel_signature_verifies(self@),
            verified matches Err(error) ==> error matches TransactionError::InvalidSignatureError(
                message,
            ) && message@ == "Verifying kernel signature"@,
    {
        let excess = self.excess.as_public_key();
        let r = self.excess_sig.get_public_nonce();
        let c = TransactionKernel::build_kernel_challenge(
            r,
            excess,
            self.fee,
            self.lock_height,
            &self.features,
            &self.burn_commitment,
        );
        proof {
            self.excess_sig.lemma_view();
        }
        if self.excess_sig.verify_challenge(excess, &c) {
            Ok(())
        } else {
            Err(TransactionError::InvalidSignatureError("Verifying kernel signature".to_owned()))
        }
    }

    /// This gets the burn commitment if it exists
    pub fn get_burn_commitment(&self) -> (commitment: Result<&Commitment, TransactionError>)
        ensures
            match self.burn_commitment {
                Some(burn_commitment) => commitment == Ok::<&Commitment, TransactionError>(
                    &burn_commitment,
                ),
                None => commitment matches Err(TransactionError::InvalidKernel(message))
                    && message@ == "Burn commitment not found"@,
            },
    {
        match self.burn_commitment {
            Some(ref burn_commitment) => Ok(burn_commitment),
            None => Err(TransactionError::InvalidKernel("Burn commitment not found".to_owned())),
        }
    }

    /// This is a helper fuction for build kernel challange that does not take in the individual fields,
    /// but rather takes in the TransactionMetadata object.
    pub fn build_kernel_challenge_from_tx_meta(
        sum_public_nonces: &PublicKey,
        total_excess: &PublicKey,
        tx_meta: &TransactionMetadata,
    ) -> (challenge: [u8; 32])
        ensures
            challenge@ == spec_kernel_challenge(
                sum_public_nonces@,
                total_excess@,
                tx_meta.fee.0,
                tx_meta.lock_height,
                tx_meta.kernel_features@,
                spec_optional_commitment(tx_meta.burn_commitment),
            ),
    {
        TransactionKernel::build_kernel_challenge(
            sum_public_nonces,
            total_excess,
            tx_meta.fee,
            tx_meta.lock_height,
            &tx_meta.kernel_features,
            &tx_meta.burn_commitment,
        )
    }

    /// Helper function to creates the kernel excess signature challenge.
    /// The challenge is defined as the hash of the following data:
    ///  Public nonce
    ///  Excess public key
    ///  Fee
    ///  Lock height
    ///  Features of the kernel
    ///  Burn commitment if present
    pub fn build_kernel_challenge(
        sum_public_nonces: &PublicKey,
        total_excess: &PublicKey,
        fee: MicroTari,
        lock_height: u64,
        features: &KernelFeatures,
        burn_commitment: &Option<Commitment>,
    ) -> (challenge: [u8; 32])
        ensures
            challenge@ == spec_kernel_challenge(
                sum_public_nonces@,
                total_excess@,
                fee.0,
                lock_height,
                features@,
                spec_optional_commitment(*burn_commitment),
            ),
    {
        proof {
            lemma_label_lengths();
        }
        DomainSeparatedConsensusHasher::new(TRANSACTION_HASH_DOMAIN, KERNEL_SIGNATURE_LABEL).chain(
            sum_public_nonces,
        ).chain(total_excess).chain(&fee).chain(&lock_height).chain(features).chain(
            burn_commitment,
        ).finalize()
    }

    /// The kernel as text, one field to a line.
    pub fn to_string(&self) -> (text: String)
        ensures
            text@ == spec_kernel_text(self@),
    {
        let mut text = String::from_str("Fee: ");
        text.append(self.fee.to_string().as_str());
        text.append("\nLock height: ");
        text.append(decimal_string(self.lock_height).as_str());
        text.append("\nFeatures: ");
        text.append(self.features.to_string().as_str());
        text.append("\nExcess: ");
        text.append(to_hex(self.excess.as_bytes().as_slice()).as_str());
        text.append("\nExcess signature: ");
        text.append("{\"public_nonce\":\"");
        text.append(to_hex(self.excess_sig.get_public_nonce().as_bytes().as_slice()).as_str());
        text.append("\",\"signature\":\"");
        text.append(to_hex(self.excess_sig.get_signature().as_bytes().as_slice()).as_str());
        text.append("\"}");
        text.append("\nCommitment: ");
        match &self.burn_commitment {
            Some(commitment) => {
                text.append(to_hex(commitment.as_bytes().as_slice()).as_str());
            },
            None => {
                text.append("None");
            },
        }
        text.append("\n");
        proof {
            self.excess_sig.lemma_view();
            assert(text@ =~= spec_kernel_text(self@));
        }
        text
    }

    /// How this kernel stands to another in the canonical order of kernels,
    /// which goes by the bytes of the signature and by nothing else.
    pub fn compare(&self, other: &TransactionKernel) -> (order: Lexicographic)
        ensures
            order == spec_compare_bytes(self@.excess_sig, other@.excess_sig),
    {
        self.excess_sig.compare(&other.excess_sig)
    }
}

impl ConsensusEncoding for TransactionKernel {
    type Model = TransactionKernelView;

    open spec fn model(&self) -> TransactionKernelView {
        self@
    }

    open spec fn spec_encode(model: TransactionKernelView) -> Seq<u8> {
        spec_encode_kernel(model)
    }

    open spec fn spec_is_valid(model: TransactionKernelView) -> bool {
        model.is_valid()
    }

    /// Writes the fields in their order.
    fn consensus_encode(&self, writer: &mut Vec<u8>) {
        self.check_valid();
        self.version.consensus_encode(writer);
        self.features.consensus_encode(writer);
        self.fee.consensus_encode(writer);
        self.lock_height.consensus_encode(writer);
        self.excess.consensus_encode(writer);
        self.excess_sig.consensus_encode(writer);
        self.burn_commitment.consensus_encode(writer);
    }
}

impl ConsensusEncodingSized for TransactionKernel {
    /// The encoded length, without encoding: 115 bytes without a burn
    /// commitment, 147 bytes with one.
    fn consensus_encode_exact_size(&self) -> (size: usize) {
        self.check_valid();
        match self.burn_commitment {
            Some(_) => 147,
            None => 115,
        }
    }
}

impl ConsensusDecoding for TransactionKernel {
    open spec fn spec_decode(bytes: Seq<u8>) -> Decoded<TransactionKernelView> {
        spec_decode_kernel(bytes)
    }

    /// Reads the fields in their order and checks each.
    fn consensus_decode(reader: &mut ByteReader) -> (kernel: Result<TransactionKernel, DecodeError>) {
        let ghost start = *reader;
        let ghost fields = spec_decode_kernel_fields(start.remaining());
        let version = TransactionKernelVersion::consensus_decode(reader)?;

        let ghost before = *reader;
        let features = KernelFeatures::consensus_decode(reader);
        proof {
            lemma_moves_twice(
                start,
                before,
                *reader,
                fields.version.consumed,
                spec_decode_kernel_features(before.remaining()).consumed,
            );
        }
        let features = features?;

        let ghost before = *reader;
        let fee = MicroTari::consensus_decode(reader);
        proof {
            lemma_moves_twice(
                start,
                before,
                *reader,
                fields.features.consumed,
                spec_decode_u64(before.remaining()).consumed,
            );
        }
        let fee = fee?;

        let ghost before = *reader;
        let lock_height = u64::consensus_decode(reader);
        proof {
            lemma_moves_twice(
                start,
                before,
                *reader,
                fields.fee.consumed,
                spec_decode_u64(before.remaining()).consumed,
            );
        }
        let lock_height = lock_height?;

        let ghost before = *reader;
        let excess = Commitment::consensus_decode(reader);
        proof {
            lemma_moves_twice(
                start,
                before,
                *reader,
                fields.lock_height.consumed,
                spec_decode_public_key(before.remaining()).consumed,
            );
        }
        let excess = excess?;

        let ghost before = *reader;
        let excess_sig = Signature::consensus_decode(reader);
        proof {
            lemma_moves_twice(
                start,
                before,
                *reader,
                fields.excess.consumed,
                spec_decode_signature(before.remaining()).consumed,
            );
        }
        let excess_sig = excess_sig?;

        let ghost before = *reader;
        let burn_commitment = Option::<Commitment>::consensus_decode(reader);
        proof {
            lemma_moves_twice(
                start,
                before,
                *reader,
                fields.excess_sig.consumed,
                spec_decode_optional_commitment(before.remaining()).consumed,
            );
        }
        let burn_commitment = burn_commitment?;

        Ok(
            TransactionKernel::new(
                version,
                features,
                fee,
                lock_height,
                excess,
                excess_sig,
                burn_commitment,
            ),
        )
    }

    proof fn lemma_consumed_is_bounded(bytes: Seq<u8>) {
        let fields = spec_decode_kernel_fields(bytes);
        if fields.excess_sig.result is Ok {
            Option::<Commitment>::lemma_consumed_is_bounded(bytes.skip(114));
        }
    }

    /// A valid kernel survives encoding and decoding, whatever follows it in
    /// the input, with or without a burn commitment.
    proof fn lemma_round_trip(model: TransactionKernelView, rest: Seq<u8>) {
        let kernel = model;
        let bytes = spec_encode_kernel(kernel) + rest;
        let burn = spec_encode_optional_commitment(kernel.burn_commitment);
        let r6 = burn + rest;
        let r5 = kernel.excess_sig + r6;
        let r4 = kernel.excess + r5;
        let r3 = spec_encode_u64(kernel.lock_height) + r4;
        let r2 = spec_encode_u64(kernel.fee) + r3;
        let r1 = spec_encode_kernel_features(kernel.features) + r2;
        lemma_u64_round_trip(kernel.fee, r3);
        lemma_u64_round_trip(kernel.lock_height, r4);
        assert(bytes =~= spec_encode_kernel_version(kernel.version) + r1);
        assert(bytes.skip(1) =~= r1);
        assert(bytes.skip(2) =~= r2);
        assert(bytes.skip(10) =~= r3);
        assert(bytes.skip(18) =~= r4);
        assert(bytes.skip(50) =~= r5);
        assert(bytes.skip(114) =~= r6);
        assert(r4.subrange(0, 32) =~= kernel.excess);
        assert(r5.subrange(0, 32) =~= kernel.public_nonce());
        assert(r5.skip(32).subrange(0, 32) =~= kernel.signature());
        assert(kernel.public_nonce() + kernel.signature() =~= kernel.excess_sig);
        match kernel.burn_commitment {
            Some(commitment) => {
                assert(r6.skip(1).subrange(0, 32) =~= commitment);
            },
            None => {},
        }
    }

    proof fn lemma_model_is_faithful(a: TransactionKernel, b: TransactionKernel) {
        Commitment::lemma_model_is_faithful(a.excess, b.excess);
        Signature::lemma_model_is_faithful(a.excess_sig, b.excess_sig);
        KernelFeatures::lemma_model_is_faithful(a.features, b.features);
        Option::<Commitment>::lemma_model_is_faithful(a.burn_commitment, b.burn_commitment);
    }

    /// Decoding accepts nothing but the encodings of valid kernels.
    proof fn lemma_decode_is_canonical(bytes: Seq<u8>) {
        let kernel = spec_decode_kernel(bytes).result->Ok_0;
        lemma_u64_decode_is_canonical(bytes.skip(2));
        lemma_u64_decode_is_canonical(bytes.skip(10));
        let sig = bytes.skip(50);
        assert(kernel.public_nonce() =~= sig.subrange(0, 32));
        assert(kernel.signature() =~= sig.skip(32).subrange(0, 32));
    }
}

impl PartialOrd for TransactionKernel {
    fn partial_cmp(&self, other: &Self) -> (order: Option<Ordering>) {
        match self.compare(other) {
            Lexicographic::Less => Some(Ordering::Less),
            Lexicographic::Equal => Some(Ordering::Equal),
            Lexicographic::Greater => Some(Ordering::Greater),
        }
    }
}

impl vstd::std_specs::cmp::PartialOrdSpecImpl for TransactionKernel {
    open spec fn obeys_partial_cmp_spec() -> bool {
        true
    }

    open spec fn partial_cmp_spec(&self, other: &Self) -> Option<Ordering> {
        match spec_compare_bytes(self@.excess_sig, other@.excess_sig) {
            Lexicographic::Less => Some(Ordering::Less),
            Lexicographic::Equal => Some(Ordering::Equal),
            Lexicographic::Greater => Some(Ordering::Greater),
        }
    }
}

/// Kernels are ordered by the bytes of their signatures alone: one kernel is
/// below another exactly when its signature bytes are lexicographically
/// below the other's, they compare equal exactly when the signature bytes are
/// the same, and no other field has a say.
pub proof fn lemma_kernel_order(a: TransactionKernel, b: TransactionKernel)
    ensures
        a.partial_cmp_spec(&b) == Some(Ordering::Less) <==> lexicographic_less(
            a@.excess_sig,
            b@.excess_sig,
        ),
        a.partial_cmp_spec(&b) == Some(Ordering::Equal) <==> a@.excess_sig == b@.excess_sig,
        a.partial_cmp_spec(&b) == Some(Ordering::Greater) <==> lexicographic_less(
            b@.excess_sig,
            a@.excess_sig,
        ),
{
    crate::bytes::lemma_lexicographic_total_order(a@.excess_sig, b@.excess_sig, a@.excess_sig);
    crate::bytes::lemma_lexicographic_total_order(b@.excess_sig, b@.excess_sig, a@.excess_sig);
}

/// The encoding of a valid kernel is 115 bytes long without a burn commitment
/// and 147 bytes with one.
pub proof fn lemma_kernel_encoding_length(kernel: TransactionKernelView)
    requires
        kernel.is_valid(),
    ensures
        spec_encode_kernel(kernel).len() == (if kernel.burn_commitment is Some {
            147nat
        } else {
            115nat
        }),
{
}

} // verus!
