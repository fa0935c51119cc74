//! What this library takes on trust.
//!
//! Everything here is a thin call into an outside crate or into the standard
//! library. Verus does not read the bodies: the contracts below are what the
//! rest of the library assumes of them, and each doc comment says which
//! outside function is meant and what is claimed of it. Byte strings and text
//! are the only currency: keys, nonces and signatures cross this boundary in
//! their canonical 32-byte encodings.

use aes_gcm::aead::Aead;
use aes_gcm::Aes256Gcm;
use aes_gcm::KeyInit;
use bip39::Language;
use bip39::Mnemonic;
use blake2::Blake2b;
use digest::consts::U32;
use crate::mnemonic::spec_valid_seed_length;
use crate::mnemonic::spec_word_count;
use crate::mnemonic::MnemonicLanguage;
use digest::Digest;
use tari_crypto::keys::PublicKey;
use tari_crypto::keys::SecretKey;
use tari_crypto::ristretto::RistrettoPublicKey;
use tari_crypto::ristretto::RistrettoSchnorr;
use tari_crypto::ristretto::RistrettoSecretKey;
use tari_utilities::ByteArray;
use tari_utilities::SafePassword;
use vstd::prelude::*;

verus! {

/// The Blake2b digest with a 32-byte output of a byte string.
pub uninterp spec fn spec_blake2b_256(data: Seq<u8>) -> Seq<u8>;

/// Whether 32 bytes are the canonical encoding of a Ristretto point.
pub uninterp spec fn spec_is_public_key(bytes: Seq<u8>) -> bool;

/// The order of the Ristretto group, a prime a little above 2 to the power of
/// 252. Scalars are the numbers below it.
pub open spec fn spec_group_order() -> nat {
    0x1000_0000_0000_0000_0000_0000_0000_0000_14de_f9de_a2f7_9cd6_5812_631a_5cf5_d3ednat
}

/// The number that bytes stand for, least significant first.
pub open spec fn spec_le_value(bytes: Seq<u8>) -> nat
    decreases bytes.len(),
{
    if bytes.len() == 0 {
        0
    } else {
        bytes[0] as nat + 256 * spec_le_value(bytes.skip(1))
    }
}

/// A number written in a given number of bytes, least significant first: its
/// lowest digits in base 256, as many as asked for.
pub open spec fn spec_le_bytes(value: nat, length: nat) -> Seq<u8>
    decreases length,
{
    if length == 0 {
        Seq::<u8>::empty()
    } else {
        seq![(value % 256) as u8] + spec_le_bytes(value / 256, (length - 1) as nat)
    }
}

/// Whether bytes are the canonical encoding of a scalar: 32 bytes that stand
/// for a number below the group order.
pub open spec fn spec_is_secret_key(bytes: Seq<u8>) -> bool {
    bytes.len() == 32 && spec_le_value(bytes) < spec_group_order()
}

/// The encoding of the point `k·G` for the scalar encoded by `secret`.
pub uninterp spec fn spec_public_key_from_secret(secret: Seq<u8>) -> Seq<u8>;

/// The encoding of the scalar that bytes reduce to: the number they stand for
/// modulo the group order.
pub open spec fn spec_scalar_from_uniform_bytes(bytes: Seq<u8>) -> Seq<u8> {
    spec_le_bytes(spec_le_value(bytes) % spec_group_order(), 32)
}

/// Whether the Schnorr equation `s·G = R + e·P` holds, where `e` is the
/// challenge reduced modulo the group order and `P` is not the identity.
pub uninterp spec fn spec_schnorr_verify(
    public_nonce: Seq<u8>,
    signature: Seq<u8>,
    public_key: Seq<u8>,
    challenge: Seq<u8>,
) -> bool;

/// The encoding of the signature scalar `s = r + e·k` modulo the group order,
/// for the secret key `k`, the nonce `r` and the scalar `e` that the challenge
/// reduces to.
pub open spec fn spec_schnorr_sign(secret: Seq<u8>, nonce: Seq<u8>, challenge: Seq<u8>) -> Seq<u8> {
    spec_le_bytes(
        (spec_le_value(nonce) + (spec_le_value(challenge) % spec_group_order()) * spec_le_value(
            secret,
        )) % spec_group_order(),
        32,
    )
}

/// The plaintext that AES-256-GCM opens a ciphertext with its tag to, under a
/// key and a nonce and with no associated data, if the tag is right.
pub uninterp spec fn spec_aes256gcm_decrypt(
    key: Seq<u8>,
    nonce: Seq<u8>,
    ciphertext: Seq<u8>,
) -> Option<Seq<u8>>;

/// The words of the phrase for a seed in a language.
pub uninterp spec fn spec_mnemonic_words(language: MnemonicLanguage, entropy: Seq<u8>) -> Seq<
    Seq<char>,
>;

/// A text as Rust's `Debug` writes it: in double quotes, with what would not
/// print escaped.
pub uninterp spec fn spec_debug_quoted(text: Seq<char>) -> Seq<char>;

/// The longest plaintext that AES-GCM takes, in bytes.
pub const AES_GCM_MAX_PLAINTEXT: u64 = 68_719_476_704;

/// `blake2::Blake2b::<U32>::digest`: a deterministic function of the input,
/// here given its name.
#[verifier::external_body]
pub(crate) fn blake2b_256(data: &[u8]) -> (digest: [u8; 32])
    ensures
        digest@ == spec_blake2b_256(data@),
{
    Blake2b::<U32>::digest(data).into()
}

/// `RistrettoPublicKey::from_canonical_bytes`, asked only whether it accepts:
/// it decompresses the bytes and rejects what is no canonical point encoding.
#[verifier::external_body]
pub(crate) fn is_public_key(bytes: &[u8; 32]) -> (ok: bool)
    ensures
        ok == spec_is_public_key(bytes@),
{
    RistrettoPublicKey::from_canonical_bytes(bytes).is_ok()
}

/// `RistrettoSecretKey::from_canonical_bytes`, asked only whether it accepts:
/// it accepts 32 bytes that encode a number below the group order and
/// nothing else.
#[verifier::external_body]
pub(crate) fn is_secret_key(bytes: &[u8; 32]) -> (ok: bool)
    ensures
        ok == spec_is_secret_key(bytes@),
{
    RistrettoSecretKey::from_canonical_bytes(bytes).is_ok()
}

/// `RistrettoPublicKey::from_secret_key` on a canonical scalar. The call cannot
/// fail; the point it returns is given by its compressed encoding, which
/// `from_canonical_bytes` accepts again.
#[verifier::external_body]
pub(crate) fn public_key_from_secret(secret: &[u8; 32]) -> (public: Option<[u8; 32]>)
    requires
        spec_is_secret_key(secret@),
    ensures
        public is Some,
        public->0@ == spec_public_key_from_secret(secret@),
        spec_is_public_key(public->0@),
{
    let k = RistrettoSecretKey::from_canonical_bytes(secret).ok()?;
    RistrettoPublicKey::from_secret_key(&k).as_bytes().try_into().ok()
}

/// `RistrettoSecretKey::from_uniform_bytes`: the number that the 64 bytes
/// stand for, reduced modulo the group order. It only fails on another
/// length.
#[verifier::external_body]
pub(crate) fn scalar_from_uniform_bytes(bytes: &[u8; 64]) -> (scalar: Option<[u8; 32]>)
    ensures
        scalar is Some,
        scalar->0@ == spec_scalar_from_uniform_bytes(bytes@),
{
    let k = RistrettoSecretKey::from_uniform_bytes(bytes).ok()?;
    k.as_bytes().try_into().ok()
}

/// `RistrettoSchnorr::new` followed by `verify_raw_uniform`: the signature
/// `(R, s)` is checked against the public key and the 64-byte challenge.
#[verifier::external_body]
pub(crate) fn schnorr_verify(
    public_nonce: &[u8; 32],
    signature: &[u8; 32],
    public_key: &[u8; 32],
    challenge: &[u8; 64],
) -> (ok: bool)
    requires
        spec_is_public_key(public_nonce@),
        spec_is_secret_key(signature@),
        spec_is_public_key(public_key@),
    ensures
        ok == spec_schnorr_verify(public_nonce@, signature@, public_key@, challenge@),
{
    let r = RistrettoPublicKey::from_canonical_bytes(public_nonce);
    let s = RistrettoSecretKey::from_canonical_bytes(signature);
    let p = RistrettoPublicKey::from_canonical_bytes(public_key);
    match (r, s, p) {
        (Ok(r), Ok(s), Ok(p)) => RistrettoSchnorr::new(r, s).verify_raw_uniform(&p, challenge),
        _ => false,
    }
}

/// `RistrettoSchnorr::sign_raw_uniform`: returns the public nonce `r·G` and the
/// scalar `s = r + e·k`, where `e` is the challenge reduced modulo the group
/// order and the arithmetic is that of scalars. It only fails on a challenge
/// that is not 64 bytes long. What it returns is what `verify_raw_uniform`
/// accepts for the public key `k·G` and the same challenge: that function
/// reduces the challenge to the same `e` and compares `s·G` with
/// `R + e·(k·G)`, which is `(r + e·k)·G`. It refuses the identity as a public
/// key, which `k·G` is for `k = 0` only.
#[verifier::external_body]
pub(crate) fn schnorr_sign(secret: &[u8; 32], nonce: &[u8; 32], challenge: &[u8; 64]) -> (sig:
    Option<([u8; 32], [u8; 32])>)
    requires
        spec_is_secret_key(secret@),
        spec_is_secret_key(nonce@),
    ensures
        sig is Some,
        (sig->0).0@ == spec_public_key_from_secret(nonce@),
        (sig->0).1@ == spec_schnorr_sign(secret@, nonce@, challenge@),
        spec_is_public_key((sig->0).0@),
        spec_le_value(secret@) != 0 ==> spec_schnorr_verify(
            (sig->0).0@,
            (sig->0).1@,
            spec_public_key_from_secret(secret@),
            challenge@,
        ),
{
    let k = RistrettoSecretKey::from_canonical_bytes(secret).ok()?;
    let n = RistrettoSecretKey::from_canonical_bytes(nonce).ok()?;
    let sig = RistrettoSchnorr::sign_raw_uniform(&k, n, challenge).ok()?;
    let r = sig.get_public_nonce().as_bytes().try_into().ok()?;
    let s = sig.get_signature().as_bytes().try_into().ok()?;
    Some((r, s))
}

/// `Aes256Gcm::new` followed by `Aead::encrypt`. The cipher refuses a plaintext
/// longer than its limit and nothing else. It encrypts in counter mode and
/// appends the tag; `decrypt` checks that tag and applies the same key stream,
/// so it opens what `encrypt` returned to the plaintext.
#[verifier::external_body]
pub(crate) fn aes256gcm_encrypt(key: &[u8; 32], nonce: &[u8; 12], plaintext: &[u8]) -> (ciphertext:
    Option<Vec<u8>>)
    ensures
        ciphertext is Some <==> plaintext@.len() <= AES_GCM_MAX_PLAINTEXT,
        ciphertext is Some ==> spec_aes256gcm_decrypt(key@, nonce@, ciphertext->0@) == Some(
            plaintext@,
        ),
{
    Aes256Gcm::new(&(*key).into()).encrypt(&(*nonce).into(), plaintext).ok()
}

/// `Aes256Gcm::new` followed by `Aead::decrypt`: a deterministic function of
/// key, nonce and ciphertext, here given its name.
#[verifier::external_body]
pub(crate) fn aes256gcm_decrypt(key: &[u8; 32], nonce: &[u8; 12], ciphertext: &[u8]) -> (plaintext:
    Option<Vec<u8>>)
    ensures
        plaintext is Some <==> spec_aes256gcm_decrypt(key@, nonce@, ciphertext@) is Some,
        plaintext is Some ==> plaintext->0@ == spec_aes256gcm_decrypt(
            key@,
            nonce@,
            ciphertext@,
        )->0,
{
    Aes256Gcm::new(&(*key).into()).decrypt(&(*nonce).into(), ciphertext).ok()
}

/// `rand::fill` on an array of the length asked for: bytes from the thread's
/// generator. Nothing is known of the bytes.
#[verifier::external_body]
pub(crate) fn random_bytes<const N: usize>() -> (bytes: [u8; N]) {
    let mut bytes = [0u8; N];
    rand::fill(&mut bytes[..]);
    bytes
}

/// `RistrettoSecretKey::random` with the thread's generator: a uniformly
/// chosen scalar, given by its canonical encoding.
#[verifier::external_body]
pub(crate) fn random_secret_key() -> (secret: Option<[u8; 32]>)
    ensures
        secret is Some,
        spec_is_secret_key(secret->0@),
{
    RistrettoSecretKey::random(&mut rand::rng()).as_bytes().try_into().ok()
}

/// `bip39::Mnemonic::from_entropy_in` followed by `words`, collected. On a seed
/// of a valid length the call succeeds and gives three words for every four
/// bytes; which words is a function of the language and the seed, here given
/// its name.
#[verifier::external_body]
pub(crate) fn mnemonic_from_entropy(language: MnemonicLanguage, entropy: &[u8]) -> (words: Option<
    Vec<String>,
>)
    requires
        spec_valid_seed_length(entropy@.len()),
    ensures
        words is Some,
        words->0.deep_view() == spec_mnemonic_words(language, entropy@),
        words->0@.len() == spec_word_count(entropy@.len()),
{
    let language = match language {
        MnemonicLanguage::ChineseSimplified => Language::SimplifiedChinese,
        MnemonicLanguage::English => Language::English,
        MnemonicLanguage::French => Language::French,
        MnemonicLanguage::Italian => Language::Italian,
        MnemonicLanguage::Japanese => Language::Japanese,
        MnemonicLanguage::Korean => Language::Korean,
        MnemonicLanguage::Spanish => Language::Spanish,
    };
    let mnemonic = Mnemonic::from_entropy_in(language, entropy).ok()?;
    Some(mnemonic.words().map(String::from).collect())
}

/// `format!("{:?}", text)`: the `Debug` form of a `str`, a deterministic
/// function of the text, here given its name.
#[verifier::external_body]
pub(crate) fn debug_quoted(text: &str) -> (quoted: String)
    ensures
        quoted@ == spec_debug_quoted(text@),
{
    format!("{:?}", text)
}

/// `str::parse` with the error turned to text by `to_string`. What a type
/// makes of a text is its own affair: nothing is claimed of the result.
#[verifier::external_body]
pub(crate) fn parse_from_str<V: std::str::FromStr>(text: &str) -> (converted: Result<V, String>) where
    V::Err: ToString,
 {
    text.parse::<V>().map_err(|err| err.to_string())
}

/// A passphrase that is wiped when it is dropped.
#[verifier::external_type_specification]
#[verifier::external_body]
pub struct ExSafePassword(SafePassword);

} // verus!
