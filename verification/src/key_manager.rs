//! Deterministic keys for the wallet.
//!
//! A branch is a named stream of keys: the key at an index is a one-way
//! function of the master seed, the branch's name and the index, and the
//! branch remembers the first index it has not handed out. The key manager
//! holds the master seed and any number of branches by name. Seeds can be kept
//! encrypted; the keys are the same either way.
//!
//! The derivation written in this module is what defines the keys: the hash
//! of the master seed, the branch's name and the index under this module's
//! domain and label, reduced to a scalar. A wallet that hashes other fields,
//! or under another domain, has other keys for the same seed; nothing here
//! claims to agree with one.
//!
//! Branches are kept in a vector in the order in which they were added, and
//! no name occurs twice in it. A branch is found by going through the vector,
//! so what is said of a lookup is proved from the names alone.

use crate::bytes::append_bytes;
use crate::consensus::encode_u64;
use crate::consensus::spec_encode_u64;
use crate::trusted::aes256gcm_decrypt;
use crate::trusted::aes256gcm_encrypt;
use crate::trusted::random_bytes;
use crate::trusted::spec_aes256gcm_decrypt;
use crate::trusted::spec_scalar_from_uniform_bytes;
use crate::trusted::AES_GCM_MAX_PLAINTEXT;
use crate::hashing::spec_domain_separated_hash;
use crate::hashing::spec_domain_separation_tag;
use crate::hashing::DomainSeparatedConsensusHasher;
use crate::hashing::KEY_MANAGER_HASH_DOMAIN;
use crate::mnemonic::seed_words;
use crate::mnemonic::spec_seed_words;
use crate::mnemonic::MnemonicError;
use crate::mnemonic::MnemonicLanguage;
use crate::types::spec_wide_challenge;
use crate::types::PrivateKey;
use vstd::prelude::*;
use vstd::slice::slice_to_vec;
use vstd::string::StringSliceAdditionalSpecFns;
use vstd::utf8::encode_utf8;

verus! {

/// How far `find_key_index` looks: the indices below this bound.
pub const KEY_MANAGER_MAX_SEARCH_DEPTH: u64 = 1_000_000;

/// The label under which keys are derived.
pub const LABEL_DERIVE_KEY: &'static str = "derive_key";

/// Why a request to the key manager fails.
#[derive(Debug, Clone, Copy, PartialEq, Eq, Structural, Hash)]
pub enum KeyManagerError {
    /// No branch has this name.
    UnknownKeyBranch,
    /// No index below the search bound gives this key.
    KeyNotFoundInKeyChain,
    /// The key manager is encrypted already.
    AlreadyEncrypted,
    /// The key manager is not encrypted.
    NotEncrypted,
    /// The cipher refuses the seed.
    EncryptionFailed,
    /// The branch has handed out its last index.
    IndexExhausted,
    /// The seed has no mnemonic phrase.
    MnemonicError(MnemonicError),
}

/// The master seed of a wallet.
#[derive(Debug, Clone, PartialEq, Eq)]
pub struct CipherSeed {
    /// The day the seed was made, counted from a fixed date.
    pub birthday: u16,
    /// The secret that all keys derive from.
    pub entropy: Vec<u8>,
}

impl CipherSeed {
    /// A seed with the given birthday and entropy.
    pub fn new(birthday: u16, entropy: Vec<u8>) -> (seed: CipherSeed)
        ensures
            seed.birthday == birthday,
            seed.entropy == entropy,
    {
        CipherSeed { birthday, entropy }
    }

    /// A copy of the seed.
    pub fn clone_seed(&self) -> (seed: CipherSeed)
        ensures
            seed.birthday == self.birthday,
            seed.entropy@ == self.entropy@,
    {
        CipherSeed { birthday: self.birthday, entropy: slice_to_vec(self.entropy.as_slice()) }
    }

    /// A seed with the given birthday and sixteen bytes of fresh entropy.
    pub fn random(birthday: u16) -> (seed: CipherSeed)
        ensures
            seed.birthday == birthday,
            seed.entropy@.len() == 16,
    {
        let entropy: [u8; 16] = random_bytes();
        CipherSeed { birthday, entropy: slice_to_vec(entropy.as_slice()) }
    }
}

/// The key of the cipher that keeps seeds at rest.
#[derive(Debug, Clone, Copy, PartialEq, Eq, Hash)]
pub struct CipherKey {
    pub key: [u8; 32],
}

/// The key at an index of a branch: the digest, under the derivation label, of
/// the seed, the branch's name and the index, each of the first two with its
/// length in front, reduced to a scalar.
pub open spec fn spec_derive_key(entropy: Seq<u8>, branch: Seq<char>, index: u64) -> Seq<u8> {
    spec_scalar_from_uniform_bytes(
        spec_wide_challenge(
            spec_domain_separated_hash(
                KEY_MANAGER_HASH_DOMAIN.spec_bytes(),
                LABEL_DERIVE_KEY.spec_bytes(),
                spec_derive_key_data(entropy, branch, index),
            ),
        ),
    )
}

/// What is hashed to derive a key.
pub open spec fn spec_derive_key_data(entropy: Seq<u8>, branch: Seq<char>, index: u64) -> Seq<u8> {
    spec_encode_u64(entropy.len() as u64) + entropy + spec_encode_u64(
        encode_utf8(branch).len() as u64,
    ) + encode_utf8(branch) + spec_encode_u64(index)
}

proof fn lemma_derive_label_length()
    ensures
        spec_domain_separation_tag(
            KEY_MANAGER_HASH_DOMAIN.spec_bytes(),
            LABEL_DERIVE_KEY.spec_bytes(),
        ).len() == 45,
{
    reveal_strlit("derive_key");
    reveal_strlit("com.tari.base_layer.key_manager.v1.");
    vstd::string::is_ascii_spec_bytes(LABEL_DERIVE_KEY);
    vstd::string::is_ascii_spec_bytes(KEY_MANAGER_HASH_DOMAIN);
}

/// Derives the key at an index of a branch from a seed.
pub fn derive_key(entropy: &[u8], branch: &str, index: u64) -> (key: PrivateKey)
    ensures
        key@ == spec_derive_key(entropy@, branch@, index),
        key.is_valid(),
{
    proof {
        lemma_derive_label_length();
    }
    let name = branch.as_bytes();
    let mut data: Vec<u8> = Vec::new();
    encode_u64(entropy.len() as u64, &mut data);
    append_bytes(&mut data, entropy);
    encode_u64(name.len() as u64, &mut data);
    append_bytes(&mut data, name);
    encode_u64(index, &mut data);
    let digest = DomainSeparatedConsensusHasher::new(
        KEY_MANAGER_HASH_DOMAIN,
        LABEL_DERIVE_KEY,
    ).chain_bytes(data.as_slice()).finalize();
    PrivateKey::from_digest(&digest)
}

/// Seed material as it is held: in the clear, or sealed under the cipher.
enum SeedMaterial {
    Plain(Vec<u8>),
    Encrypted { nonce: [u8; 12], ciphertext: Vec<u8> },
}

impl SeedMaterial {
    spec fn is_encrypted(self) -> bool {
        self is Encrypted
    }

    /// The seed in the clear, given the key of the cipher if there is one.
    spec fn opened(self, key: Option<CipherKey>) -> Option<Seq<u8>> {
        match self {
            SeedMaterial::Plain(bytes) => Some(bytes@),
            SeedMaterial::Encrypted { nonce, ciphertext } => match key {
                Some(k) => spec_aes256gcm_decrypt(k.key@, nonce@, ciphertext@),
                None => None,
            },
        }
    }

    /// Seals a seed under a key with a fresh nonce.
    fn seal(key: &CipherKey, seed: &[u8]) -> (material: SeedMaterial)
        requires
            seed@.len() <= AES_GCM_MAX_PLAINTEXT,
        ensures
            material.is_encrypted(),
            material.opened(Some(*key)) == Some(seed@),
    {
        let nonce: [u8; 12] = random_bytes();
        match aes256gcm_encrypt(&key.key, &nonce, seed) {
            Some(ciphertext) => SeedMaterial::Encrypted { nonce, ciphertext },
            None => vstd::pervasive::unreached(),
        }
    }

    /// A copy of the material.
    fn duplicate(&self) -> (copy: SeedMaterial)
        ensures
            copy.is_encrypted() == self.is_encrypted(),
            forall|key: Option<CipherKey>| #[trigger] copy.opened(key) == self.opened(key),
    {
        match self {
            SeedMaterial::Plain(bytes) => SeedMaterial::Plain(slice_to_vec(bytes.as_slice())),
            SeedMaterial::Encrypted { nonce, ciphertext } => SeedMaterial::Encrypted {
                nonce: *nonce,
                ciphertext: slice_to_vec(ciphertext.as_slice()),
            },
        }
    }

    /// The seed in the clear.
    fn open(&self, cipher: &Option<CipherKey>) -> (seed: Vec<u8>)
        requires
            self.opened(*cipher) is Some,
        ensures
            seed@ == self.opened(*cipher)->0,
    {
        match self {
            SeedMaterial::Plain(bytes) => slice_to_vec(bytes.as_slice()),
            SeedMaterial::Encrypted { nonce, ciphertext } => match cipher {
                Some(key) => match aes256gcm_decrypt(&key.key, nonce, ciphertext.as_slice()) {
                    Some(seed) => seed,
                    None => vstd::pervasive::unreached(),
                },
                None => vstd::pervasive::unreached(),
            },
        }
    }
}

/// A branch: a named stream of keys from a seed, with the first index it has
/// not handed out. It holds its seed in the clear or, once encryption has been
/// applied, sealed.
pub struct KeyManager {
    branch_seed: String,
    birthday: u16,
    seed: SeedMaterial,
    cipher: Option<CipherKey>,
    primary_key_index: u64,
}

/// A branch as plain values.
pub struct KeyManagerView {
    /// The name of the branch.
    pub branch_seed: Seq<char>,
    /// The day the seed was made.
    pub birthday: u16,
    /// The seed in the clear, whether or not it is held that way.
    pub seed: Seq<u8>,
    /// The first index that has not been handed out.
    pub primary_key_index: u64,
    /// The key of the cipher that the seed is held sealed under, if it is
    /// held sealed.
    pub cipher: Option<Seq<u8>>,
}

impl KeyManagerView {
    /// Whether the seed is held encrypted.
    pub open spec fn encrypted(self) -> bool {
        self.cipher is Some
    }

    /// The key at an index.
    pub open spec fn key_at_index(self, index: u64) -> Seq<u8> {
        spec_derive_key(self.seed, self.branch_seed, index)
    }

    /// The next key and the branch after it has been handed out: the key at
    /// the branch's index, and the index one higher. There is no key after
    /// the last index.
    pub open spec fn next_key(self) -> Result<(Seq<u8>, KeyManagerView), KeyManagerError> {
        if self.primary_key_index == u64::MAX {
            Err(KeyManagerError::IndexExhausted)
        } else {
            Ok(
                (
                    self.key_at_index(self.primary_key_index),
                    KeyManagerView {
                        primary_key_index: (self.primary_key_index + 1) as u64,
                        ..self
                    },
                ),
            )
        }
    }

    /// The branch after it has been told of an index: its index is the higher
    /// of the two.
    pub open spec fn update_index_if_higher(self, index: u64) -> KeyManagerView {
        if index > self.primary_key_index {
            KeyManagerView { primary_key_index: index, ..self }
        } else {
            self
        }
    }

    /// Whether `index` is the first index below `horizon` that gives `key`.
    pub open spec fn is_first_index_of(self, key: Seq<u8>, horizon: u64, index: u64) -> bool {
        &&& index < horizon
        &&& self.key_at_index(index) == key
        &&& forall|earlier: u64| earlier < index ==> #[trigger] self.key_at_index(earlier) != key
    }

    /// Whether no index below `horizon` gives `key`.
    pub open spec fn has_no_index_of(self, key: Seq<u8>, horizon: u64) -> bool {
        forall|index: u64| index < horizon ==> #[trigger] self.key_at_index(index) != key
    }

    /// What a search for a key may answer: the first index below the horizon
    /// that gives the key, or that there is none.
    pub open spec fn finds(self, key: Seq<u8>, horizon: u64, found: Result<u64, KeyManagerError>) -> bool {
        match found {
            Ok(index) => self.is_first_index_of(key, horizon, index),
            Err(error) => error == KeyManagerError::KeyNotFoundInKeyChain && self.has_no_index_of(
                key,
                horizon,
            ),
        }
    }

    /// The mnemonic phrase of the seed.
    pub open spec fn seed_words(self, language: MnemonicLanguage) -> Result<
        Seq<Seq<char>>,
        KeyManagerError,
    > {
        match spec_seed_words(language, self.seed) {
            Ok(words) => Ok(words),
            Err(error) => Err(KeyManagerError::MnemonicError(error)),
        }
    }

    /// The branch after encryption under a cipher has been asked for: it is
    /// refused on a branch that is encrypted, whatever the cipher, and on a
    /// seed that the cipher does not take; else the seed is held sealed under
    /// this cipher.
    pub open spec fn apply_encryption(self, cipher: Seq<u8>) -> Result<
        KeyManagerView,
        KeyManagerError,
    > {
        if self.encrypted() {
            Err(KeyManagerError::AlreadyEncrypted)
        } else if self.seed.len() > AES_GCM_MAX_PLAINTEXT {
            Err(KeyManagerError::EncryptionFailed)
        } else {
            Ok(KeyManagerView { cipher: Some(cipher), ..self })
        }
    }

    /// The branch after the removal of encryption has been asked for: it is
    /// refused on a branch that is not encrypted; else no cipher is held.
    pub open spec fn remove_encryption(self) -> Result<KeyManagerView, KeyManagerError> {
        if self.encrypted() {
            Ok(KeyManagerView { cipher: None, ..self })
        } else {
            Err(KeyManagerError::NotEncrypted)
        }
    }
}

/// The key of a cipher as bytes, if there is one.
pub open spec fn spec_cipher_key(cipher: Option<CipherKey>) -> Option<Seq<u8>> {
    match cipher {
        Some(key) => Some(key.key@),
        None => None,
    }
}

impl View for KeyManager {
    type V = KeyManagerView;

    closed spec fn view(&self) -> KeyManagerView {
        KeyManagerView {
            branch_seed: self.branch_seed@,
            birthday: self.birthday,
            seed: self.seed.opened(self.cipher)->0,
            primary_key_index: self.primary_key_index,
            cipher: spec_cipher_key(self.cipher),
        }
    }
}

impl KeyManager {
    #[verifier::type_invariant]
    spec fn well_formed(self) -> bool {
        &&& self.seed.opened(self.cipher) is Some
        &&& self.seed.is_encrypted() == (self.cipher is Some)
        &&& self.cipher is Some ==> self.seed.opened(self.cipher)->0.len() <= AES_GCM_MAX_PLAINTEXT
    }

    /// The seed as it is held when it is held sealed: the nonce, and the
    /// ciphertext with its tag.
    pub closed spec fn spec_sealed_seed(&self) -> Option<(Seq<u8>, Seq<u8>)> {
        match self.seed {
            SeedMaterial::Plain(_) => None,
            SeedMaterial::Encrypted { nonce, ciphertext } => Some((nonce@, ciphertext@)),
        }
    }

    /// The seed as it is held when it is held sealed: the nonce, and the
    /// ciphertext with its tag. A seed is held sealed exactly while a cipher
    /// is held, and what is held opens to the seed under that cipher.
    pub fn sealed_seed(&self) -> (sealed: Option<([u8; 12], Vec<u8>)>)
        ensures
            sealed is Some <==> self@.encrypted(),
            sealed matches Some((nonce, ciphertext)) ==> self.spec_sealed_seed() == Some(
                (nonce@, ciphertext@),
            ) && spec_aes256gcm_decrypt(self@.cipher->0, nonce@, ciphertext@) == Some(self@.seed),
            sealed is None ==> self.spec_sealed_seed() is None,
    {
        proof {
            use_type_invariant(self);
        }
        match &self.seed {
            SeedMaterial::Plain(_) => None,
            SeedMaterial::Encrypted { nonce, ciphertext } => Some(
                (*nonce, slice_to_vec(ciphertext.as_slice())),
            ),
        }
    }

    /// A branch of a seed under a name, with the index it starts at. It is
    /// not encrypted.
    pub fn from(seed: CipherSeed, branch_seed: String, primary_key_index: u64) -> (branch: KeyManager)
        ensures
            branch@ == (KeyManagerView {
                branch_seed: branch_seed@,
                birthday: seed.birthday,
                seed: seed.entropy@,
                primary_key_index,
                cipher: None,
            }),
    {
        KeyManager {
            branch_seed,
            birthday: seed.birthday,
            seed: SeedMaterial::Plain(seed.entropy),
            cipher: None,
            primary_key_index,
        }
    }

    /// A copy of the branch, as it is now.
    pub fn duplicate(&self) -> (copy: KeyManager)
        ensures
            copy@ == self@,
    {
        proof {
            use_type_invariant(self);
        }
        let seed = self.seed.duplicate();
        KeyManager {
            branch_seed: self.branch_seed.clone(),
            birthday: self.birthday,
            seed,
            cipher: self.cipher,
            primary_key_index: self.primary_key_index,
        }
    }

    /// The name of the branch.
    pub fn branch_seed(&self) -> (name: &String)
        ensures
            name@ == self@.branch_seed,
    {
        &self.branch_seed
    }

    /// The first index that has not been handed out.
    pub fn key_index(&self) -> (index: u64)
        ensures
            index == self@.primary_key_index,
    {
        self.primary_key_index
    }

    /// Whether the seed is held encrypted.
    pub fn is_encrypted(&self) -> (encrypted: bool)
        ensures
            encrypted == self@.encrypted(),
    {
        self.cipher.is_some()
    }

    /// The seed in the clear.
    fn open_seed(&self) -> (seed: Vec<u8>)
        ensures
            seed@ == self@.seed,
            self.cipher is Some ==> seed@.len() <= AES_GCM_MAX_PLAINTEXT,
    {
        proof {
            use_type_invariant(self);
        }
        self.seed.open(&self.cipher)
    }

    /// The seed of the branch.
    pub fn cipher_seed(&self) -> (seed: CipherSeed)
        ensures
            seed.birthday == self@.birthday,
            seed.entropy@ == self@.seed,
    {
        CipherSeed { birthday: self.birthday, entropy: self.open_seed() }
    }

    /// Hands out the next key: the key at the branch's index, which then
    /// moves up by one.
    pub fn get_next_key(&mut self) -> (key: Result<PrivateKey, KeyManagerError>)
        ensures
            match old(self)@.next_key() {
                Ok((expected, after)) => key is Ok && key->Ok_0@ == expected && final(self)@
                    == after,
                Err(error) => key == Err::<PrivateKey, KeyManagerError>(error) && final(self)@
                    == old(self)@,
            },
    {
        proof {
            use_type_invariant(&*self);
        }
        let index = self.primary_key_index;
        if index == u64::MAX {
            return Err(KeyManagerError::IndexExhausted);
        }
        let seed = self.open_seed();
        let key = derive_key(seed.as_slice(), self.branch_seed.as_str(), index);
        self.primary_key_index = index + 1;
        Ok(key)
    }

    /// The key at an index. The branch stays as it is.
    pub fn get_key_at_index(&self, index: u64) -> (key: PrivateKey)
        ensures
            key@ == self@.key_at_index(index),
            key.is_valid(),
    {
        let seed = self.open_seed();
        derive_key(seed.as_slice(), self.branch_seed.as_str(), index)
    }

    /// Looks for the index of a key, from index 0 up to the search bound.
    pub fn find_key_index(&self, key: &PrivateKey) -> (found: Result<u64, KeyManagerError>)
        ensures
            self@.finds(key@, KEY_MANAGER_MAX_SEARCH_DEPTH, found),
    {
        self.find_key_index_within(key, KEY_MANAGER_MAX_SEARCH_DEPTH)
    }

    /// Looks for the index of a key, from index 0 up to a bound of the
    /// caller's choice.
    pub fn find_key_index_within(&self, key: &PrivateKey, horizon: u64) -> (found: Result<
        u64,
        KeyManagerError,
    >)
        ensures
            self@.finds(key@, horizon, found),
    {
        let seed = self.open_seed();
        let mut index: u64 = 0;
        while index < horizon
            invariant
                index <= horizon,
                seed@ == self@.seed,
                forall|earlier: u64|
                    earlier < index ==> #[trigger] self@.key_at_index(earlier) != key@,
            decreases horizon - index,
        {
            let candidate = derive_key(seed.as_slice(), self.branch_seed.as_str(), index);
            if candidate == *key {
                return Ok(index);
            }
            index += 1;
        }
        Err(KeyManagerError::KeyNotFoundInKeyChain)
    }

    /// Moves the index up to `index` if it is below it, and never down.
    pub fn update_current_key_index_if_higher(&mut self, index: u64)
        ensures
            final(self)@ == old(self)@.update_index_if_higher(index),
    {
        proof {
            use_type_invariant(&*self);
        }
        if index > self.primary_key_index {
            self.primary_key_index = index;
        }
    }

    /// The seed as a mnemonic phrase.
    pub fn get_seed_words(&self, language: &MnemonicLanguage) -> (words: Result<
        Vec<String>,
        KeyManagerError,
    >)
        ensures
            match self@.seed_words(*language) {
                Ok(expected) => words is Ok && words->Ok_0.deep_view() == expected,
                Err(error) => words == Err::<Vec<String>, KeyManagerError>(error),
            },
    {
        let seed = self.open_seed();
        match seed_words(*language, seed.as_slice()) {
            Ok(words) => Ok(words),
            Err(error) => Err(KeyManagerError::MnemonicError(error)),
        }
    }

    /// Seals the seed under the cipher. Refused on a branch that is encrypted
    /// already.
    pub fn apply_encryption(&mut self, cipher: CipherKey) -> (applied: Result<(), KeyManagerError>)
        ensures
            match old(self)@.apply_encryption(cipher.key@) {
                Ok(after) => applied is Ok && final(self)@ == after,
                Err(error) => applied == Err::<(), KeyManagerError>(error) && final(self)@ == old(
                    self,
                )@ && final(self).spec_sealed_seed() == old(self).spec_sealed_seed(),
            },
    {
        proof {
            use_type_invariant(&*self);
        }
        if self.cipher.is_some() {
            return Err(KeyManagerError::AlreadyEncrypted);
        }
        let seed = self.open_seed();
        if seed.len() as u64 > AES_GCM_MAX_PLAINTEXT {
            return Err(KeyManagerError::EncryptionFailed);
        }
        let sealed = SeedMaterial::seal(&cipher, seed.as_slice());
        *self = KeyManager {
            branch_seed: self.branch_seed.clone(),
            birthday: self.birthday,
            seed: sealed,
            cipher: Some(cipher),
            primary_key_index: self.primary_key_index,
        };
        Ok(())
    }

    /// Opens the seed and lets go of the cipher. Refused on a branch that is
    /// not encrypted.
    pub fn remove_encryption(&mut self) -> (removed: Result<(), KeyManagerError>)
        ensures
            match old(self)@.remove_encryption() {
                Ok(after) => removed is Ok && final(self)@ == after,
                Err(error) => removed == Err::<(), KeyManagerError>(error) && final(self)@ == old(
                    self,
                )@ && final(self).spec_sealed_seed() == old(self).spec_sealed_seed(),
            },
    {
        proof {
            use_type_invariant(&*self);
        }
        if self.cipher.is_none() {
            return Err(KeyManagerError::NotEncrypted);
        }
        let seed = self.open_seed();
        *self = KeyManager {
            branch_seed: self.branch_seed.clone(),
            birthday: self.birthday,
            seed: SeedMaterial::Plain(seed),
            cipher: None,
            primary_key_index: self.primary_key_index,
        };
        Ok(())
    }
}

/// The key manager: the master seed and the branches by name.
pub struct KeyManagerInner {
    /// The master seed, held as a branch without a name that hands out no
    /// keys.
    master: KeyManager,
    branches: Vec<KeyManager>,
}

/// A key manager as plain values.
pub struct KeyManagerInnerView {
    /// The master seed in the clear, whether or not it is held that way.
    pub seed: Seq<u8>,
    /// The day the master seed was made.
    pub birthday: u16,
    /// The first index not handed out, for each branch by its name.
    pub branches: Map<Seq<char>, u64>,
    /// The key of the cipher that the master seed and the seed of every
    /// branch are held sealed under, if they are held sealed.
    pub cipher: Option<Seq<u8>>,
}

impl KeyManagerInnerView {
    /// The branch of a name.
    pub open spec fn branch(self, name: Seq<char>) -> KeyManagerView {
        KeyManagerView {
            branch_seed: name,
            birthday: self.birthday,
            seed: self.seed,
            primary_key_index: self.branches[name],
            cipher: self.cipher,
        }
    }

    /// Whether the seeds are held encrypted.
    pub open spec fn encrypted(self) -> bool {
        self.cipher is Some
    }

    /// The manager with the index of a branch set.
    pub open spec fn with_index(self, name: Seq<char>, index: u64) -> KeyManagerInnerView {
        KeyManagerInnerView { branches: self.branches.insert(name, index), ..self }
    }

    /// The manager after a branch has been asked for: a new branch starts at
    /// index 0, a branch that is there stays as it is.
    pub open spec fn add_branch(self, name: Seq<char>) -> KeyManagerInnerView {
        if self.branches.contains_key(name) {
            self
        } else {
            self.with_index(name, 0)
        }
    }

    /// The manager after each of the names has been asked for, in order.
    pub open spec fn add_branches(self, names: Seq<Seq<char>>) -> KeyManagerInnerView
        decreases names.len(),
    {
        if names.len() == 0 {
            self
        } else {
            self.add_branches(names.drop_last()).add_branch(names.last())
        }
    }

    /// The key at an index of a branch.
    pub open spec fn key_at_index(self, name: Seq<char>, index: u64) -> Result<
        Seq<u8>,
        KeyManagerError,
    > {
        if self.branches.contains_key(name) {
            Ok(self.branch(name).key_at_index(index))
        } else {
            Err(KeyManagerError::UnknownKeyBranch)
        }
    }

    /// The next key of a branch and the manager after the branch has handed
    /// it out.
    pub open spec fn next_key(self, name: Seq<char>) -> Result<
        (Seq<u8>, KeyManagerInnerView),
        KeyManagerError,
    > {
        if !self.branches.contains_key(name) {
            Err(KeyManagerError::UnknownKeyBranch)
        } else {
            match self.branch(name).next_key() {
                Ok((key, after)) => Ok((key, self.with_index(name, after.primary_key_index))),
                Err(error) => Err(error),
            }
        }
    }

    /// The manager after a branch has been told of an index.
    pub open spec fn update_index_if_higher(self, name: Seq<char>, index: u64) -> Result<
        KeyManagerInnerView,
        KeyManagerError,
    > {
        if !self.branches.contains_key(name) {
            Err(KeyManagerError::UnknownKeyBranch)
        } else {
            Ok(
                self.with_index(
                    name,
                    self.branch(name).update_index_if_higher(index).primary_key_index,
                ),
            )
        }
    }

    /// What a search for a key in a branch may answer.
    pub open spec fn finds(
        self,
        name: Seq<char>,
        key: Seq<u8>,
        horizon: u64,
        found: Result<u64, KeyManagerError>,
    ) -> bool {
        if !self.branches.contains_key(name) {
            found == Err::<u64, KeyManagerError>(KeyManagerError::UnknownKeyBranch)
        } else {
            self.branch(name).finds(key, horizon, found)
        }
    }

    /// The manager after encryption under a cipher has been asked for: it is
    /// refused on a manager that is encrypted, whatever the cipher, and on a
    /// seed that the cipher does not take; else the master seed and the seed
    /// of every branch are held sealed under this cipher.
    pub open spec fn apply_encryption(self, cipher: Seq<u8>) -> Result<
        KeyManagerInnerView,
        KeyManagerError,
    > {
        if self.encrypted() {
            Err(KeyManagerError::AlreadyEncrypted)
        } else if self.seed.len() > AES_GCM_MAX_PLAINTEXT {
            Err(KeyManagerError::EncryptionFailed)
        } else {
            Ok(KeyManagerInnerView { cipher: Some(cipher), ..self })
        }
    }

    /// The manager after the removal of encryption has been asked for: it is
    /// refused on a manager that is not encrypted.
    pub open spec fn remove_encryption(self) -> Result<KeyManagerInnerView, KeyManagerError> {
        if self.encrypted() {
            Ok(KeyManagerInnerView { cipher: None, ..self })
        } else {
            Err(KeyManagerError::NotEncrypted)
        }
    }

    /// The mnemonic phrase of the seed of a branch.
    pub open spec fn seed_words(self, name: Seq<char>, language: MnemonicLanguage) -> Result<
        Seq<Seq<char>>,
        KeyManagerError,
    > {
        if !self.branches.contains_key(name) {
            Err(KeyManagerError::UnknownKeyBranch)
        } else {
            self.branch(name).seed_words(language)
        }
    }
}

spec fn has_branch(branches: Seq<KeyManager>, name: Seq<char>) -> bool {
    exists|i: int| 0 <= i < branches.len() && (#[trigger] branches[i])@.branch_seed == name
}

spec fn position(branches: Seq<KeyManager>, name: Seq<char>) -> int {
    choose|i: int| 0 <= i < branches.len() && (#[trigger] branches[i])@.branch_seed == name
}

spec fn names_unique(branches: Seq<KeyManager>) -> bool {
    forall|i: int, j: int|
        0 <= i < j < branches.len() ==> (#[trigger] branches[i])@.branch_seed != (
        #[trigger] branches[j])@.branch_seed
}

spec fn index_map(branches: Seq<KeyManager>) -> Map<Seq<char>, u64> {
    Map::new(
        |name: Seq<char>| has_branch(branches, name),
        |name: Seq<char>| branches[position(branches, name)]@.primary_key_index,
    )
}

proof fn lemma_position(branches: Seq<KeyManager>, i: int)
    requires
        names_unique(branches),
        0 <= i < branches.len(),
    ensures
        has_branch(branches, branches[i]@.branch_seed),
        position(branches, branches[i]@.branch_seed) == i,
        index_map(branches).contains_key(branches[i]@.branch_seed),
        index_map(branches)[branches[i]@.branch_seed] == branches[i]@.primary_key_index,
{
    // The position chosen for the name can only be `i`: names are unique.
    let chosen = position(branches, branches[i]@.branch_seed);
    assert(branches[chosen]@.branch_seed == branches[i]@.branch_seed);
}

proof fn lemma_same_entries(a: Seq<KeyManager>, b: Seq<KeyManager>)
    requires
        names_unique(a),
        a.len() == b.len(),
        forall|i: int|
            0 <= i < a.len() ==> (#[trigger] a[i])@.branch_seed == b[i]@.branch_seed
                && a[i]@.primary_key_index == b[i]@.primary_key_index,
    ensures
        names_unique(b),
        index_map(a) =~= index_map(b),
{
    assert forall|i: int, j: int| 0 <= i < j < b.len() implies (#[trigger] b[i])@.branch_seed != (
    #[trigger] b[j])@.branch_seed by {
        assert(a[i]@.branch_seed != a[j]@.branch_seed);
    }
    assert forall|name: Seq<char>| has_branch(a, name) == has_branch(b, name) by {
        if has_branch(a, name) {
            let i = position(a, name);
        }
        if has_branch(b, name) {
            let i = position(b, name);
            assert(a[i]@.branch_seed == name);
        }
    }
    assert forall|name: Seq<char>| has_branch(a, name) implies index_map(a)[name] == index_map(
        b,
    )[name] by {
        let i = position(a, name);
        lemma_position(a, i);
        lemma_position(b, i);
    }
}

proof fn lemma_push(branches: Seq<KeyManager>, branch: KeyManager)
    requires
        names_unique(branches),
        !has_branch(branches, branch@.branch_seed),
    ensures
        names_unique(branches.push(branch)),
        index_map(branches.push(branch)) =~= index_map(branches).insert(
            branch@.branch_seed,
            branch@.primary_key_index,
        ),
{
    let after = branches.push(branch);
    assert forall|name: Seq<char>| has_branch(after, name) == (has_branch(branches, name) || name
        == branch@.branch_seed) by {
        if has_branch(branches, name) {
            let i = position(branches, name);
            assert(after[i]@.branch_seed == name);
        }
        if name == branch@.branch_seed {
            assert(after[branches.len() as int]@.branch_seed == name);
        }
    }
    assert forall|name: Seq<char>| has_branch(after, name) implies index_map(after)[name]
        == index_map(branches).insert(branch@.branch_seed, branch@.primary_key_index)[name] by {
        let i = position(after, name);
        lemma_position(after, i);
        if i < branches.len() {
            lemma_position(branches, i);
        }
    }
}

proof fn lemma_update(branches: Seq<KeyManager>, i: int, branch: KeyManager)
    requires
        names_unique(branches),
        0 <= i < branches.len(),
        branch@.branch_seed == branches[i]@.branch_seed,
    ensures
        names_unique(branches.update(i, branch)),
        index_map(branches.update(i, branch)) =~= index_map(branches).insert(
            branch@.branch_seed,
            branch@.primary_key_index,
        ),
{
    let after = branches.update(i, branch);
    assert forall|name: Seq<char>| has_branch(after, name) == has_branch(branches, name) by {
        if has_branch(branches, name) {
            let p = position(branches, name);
            assert(after[p]@.branch_seed == name);
        }
    }
    lemma_position(branches, i);
    assert forall|name: Seq<char>| has_branch(after, name) implies index_map(after)[name]
        == index_map(branches).insert(branch@.branch_seed, branch@.primary_key_index)[name] by {
        let p = position(after, name);
        lemma_position(after, p);
        lemma_position(branches, p);
    }
}

impl View for KeyManagerInner {
    type V = KeyManagerInnerView;

    closed spec fn view(&self) -> KeyManagerInnerView {
        KeyManagerInnerView {
            seed: self.master@.seed,
            birthday: self.master@.birthday,
            branches: index_map(self.branches@),
            cipher: self.master@.cipher,
        }
    }
}

/// Whether every branch holds the seed of the master, in the state in which
/// the master holds it.
spec fn branches_follow(master: KeyManager, branches: Seq<KeyManager>) -> bool {
    forall|i: int|
        0 <= i < branches.len() ==> (#[trigger] branches[i])@.seed == master@.seed
            && branches[i]@.birthday == master@.birthday && branches[i]@.cipher == master@.cipher
}

impl KeyManagerInner {
    #[verifier::type_invariant]
    spec fn well_formed(self) -> bool {
        &&& self.master@.branch_seed.len() == 0
        &&& self.master@.primary_key_index == 0
        &&& branches_follow(self.master, self.branches@)
        &&& names_unique(self.branches@)
    }

    /// The master seed as it is held when it is held sealed: the nonce, and
    /// the ciphertext with its tag.
    pub closed spec fn spec_sealed_seed(&self) -> Option<(Seq<u8>, Seq<u8>)> {
        self.master.spec_sealed_seed()
    }

    /// The master seed as it is held when it is held sealed: the nonce, and
    /// the ciphertext with its tag. It is held sealed exactly while a cipher
    /// is held, and what is held opens to the seed under that cipher.
    pub fn sealed_seed(&self) -> (sealed: Option<([u8; 12], Vec<u8>)>)
        ensures
            sealed is Some <==> self@.encrypted(),
            sealed matches Some((nonce, ciphertext)) ==> self.spec_sealed_seed() == Some(
                (nonce@, ciphertext@),
            ) && spec_aes256gcm_decrypt(self@.cipher->0, nonce@, ciphertext@) == Some(self@.seed),
            sealed is None ==> self.spec_sealed_seed() is None,
    {
        self.master.sealed_seed()
    }

    /// A key manager for a master seed, with no branches and not encrypted.
    pub fn new(master_seed: CipherSeed) -> (manager: KeyManagerInner)
        ensures
            manager@ == (KeyManagerInnerView {
                seed: master_seed.entropy@,
                birthday: master_seed.birthday,
                branches: Map::<Seq<char>, u64>::empty(),
                cipher: None,
            }),
    {
        let manager = KeyManagerInner {
            master: KeyManager::from(master_seed, String::new(), 0),
            branches: Vec::new(),
        };
        assert(manager@.branches =~= Map::<Seq<char>, u64>::empty());
        manager
    }

    /// Whether the seeds are held encrypted.
    pub fn is_encrypted(&self) -> (encrypted: bool)
        ensures
            encrypted == self@.encrypted(),
    {
        self.master.is_encrypted()
    }

    /// Where the branch of a name stands, if there is one.
    fn find_branch(&self, name: &String) -> (found: Option<usize>)
        ensures
            match found {
                Some(i) => i < self.branches@.len() && self.branches@[i as int]@ == self@.branch(
                    name@,
                ),
                None => !has_branch(self.branches@, name@),
            },
            found is Some <==> self@.branches.contains_key(name@),
    {
        proof {
            use_type_invariant(self);
        }
        let mut i: usize = 0;
        while i < self.branches.len()
            invariant
                i <= self.branches@.len(),
                names_unique(self.branches@),
                branches_follow(self.master, self.branches@),
                forall|j: int| 0 <= j < i ==> (#[trigger] self.branches@[j])@.branch_seed != name@,
            decreases self.branches@.len() - i,
        {
            if *self.branches[i].branch_seed() == *name {
                proof {
                    lemma_position(self.branches@, i as int);
                }
                return Some(i);
            }
            i += 1;
        }
        None
    }

    /// A copy of the branch of a name, as it is now. What is done to the copy
    /// is not done to the branch.
    pub fn get_branch(&self, branch: String) -> (copy: Result<KeyManager, KeyManagerError>)
        ensures
            self@.branches.contains_key(branch@) ==> copy is Ok && copy->Ok_0@ == self@.branch(
                branch@,
            ),
            !self@.branches.contains_key(branch@) ==> copy is Err && copy->Err_0
                == KeyManagerError::UnknownKeyBranch,
    {
        match self.find_branch(&branch) {
            Some(i) => Ok(self.branches[i].duplicate()),
            None => Err(KeyManagerError::UnknownKeyBranch),
        }
    }

    /// A branch of this name that holds the master seed as the manager holds
    /// it now, and starts at index 0.
    fn new_branch(&self, name: String) -> (branch: KeyManager)
        ensures
            branch@ == (KeyManagerView {
                branch_seed: name@,
                birthday: self@.birthday,
                seed: self@.seed,
                primary_key_index: 0,
                cipher: self@.cipher,
            }),
    {
        let mut branch = KeyManager::from(self.master.cipher_seed(), name, 0);
        match self.master.cipher {
            Some(cipher) => {
                proof {
                    use_type_invariant(&self.master);
                }
                let applied = branch.apply_encryption(cipher);
                branch
            },
            None => branch,
        }
    }

    /// Makes sure there is a branch of this name. A new branch starts at
    /// index 0; a branch that is there is left as it is.
    pub fn add_new_branch(&mut self, branch: String) -> (added: Result<(), KeyManagerError>)
        ensures
            added is Ok,
            final(self)@ == old(self)@.add_branch(branch@),
    {
        proof {
            use_type_invariant(&*self);
        }
        match self.find_branch(&branch) {
            Some(_) => Ok(()),
            None => {
                let entry = self.new_branch(branch);
                proof {
                    lemma_push(self.branches@, entry);
                }
                let mut branches: Vec<KeyManager> = Vec::new();
                std::mem::swap(&mut self.branches, &mut branches);
                branches.push(entry);
                std::mem::swap(&mut self.branches, &mut branches);
                Ok(())
            },
        }
    }

    /// Makes sure there is a branch of each of these names, one name after
    /// the other, and stops at the first that fails.
    pub fn add_new_branches(&mut self, branches: Vec<String>) -> (added: Result<
        (),
        KeyManagerError,
    >)
        ensures
            added is Ok,
            final(self)@ == old(self)@.add_branches(branches.deep_view()),
    {
        let ghost names = branches.deep_view();
        let mut i: usize = 0;
        while i < branches.len()
            invariant
                i <= branches@.len(),
                names == branches.deep_view(),
                self@ == old(self)@.add_branches(names.subrange(0, i as int)),
            decreases branches@.len() - i,
        {
            let name = branches[i].clone();
            let added = self.add_new_branch(name);
            match added {
                Ok(()) => {},
                Err(error) => {
                    return Err(error);
                },
            }
            proof {
                let next = names.subrange(0, i + 1);
                assert(next.drop_last() =~= names.subrange(0, i as int));
            }
            i += 1;
        }
        assert(names.subrange(0, i as int) =~= names);
        Ok(())
    }

    /// Hands out the next key of a branch: the key at the branch's index,
    /// which then moves up by one.
    pub fn get_next_key(&mut self, branch: String) -> (key: Result<PrivateKey, KeyManagerError>)
        ensures
            match old(self)@.next_key(branch@) {
                Ok((expected, after)) => key is Ok && key->Ok_0@ == expected && final(self)@
                    == after,
                Err(error) => key == Err::<PrivateKey, KeyManagerError>(error) && final(self)@
                    == old(self)@,
            },
    {
        proof {
            use_type_invariant(&*self);
        }
        let i = match self.find_branch(&branch) {
            Some(i) => i,
            None => {
                return Err(KeyManagerError::UnknownKeyBranch);
            },
        };
        let ghost before = self.branches@;
        let mut branches: Vec<KeyManager> = Vec::new();
        std::mem::swap(&mut self.branches, &mut branches);
        let key = branches[i].get_next_key();
        proof {
            lemma_position(before, i as int);
            lemma_update(before, i as int, branches@[i as int]);
            if key is Err {
                lemma_same_entries(before, branches@);
            }
        }
        std::mem::swap(&mut self.branches, &mut branches);
        key
    }

    /// The key at an index of a branch. The manager stays as it is.
    pub fn get_key_at_index(&self, branch: String, index: u64) -> (key: Result<
        PrivateKey,
        KeyManagerError,
    >)
        ensures
            match self@.key_at_index(branch@, index) {
                Ok(expected) => key is Ok && key->Ok_0@ == expected,
                Err(error) => key == Err::<PrivateKey, KeyManagerError>(error),
            },
    {
        match self.find_branch(&branch) {
            Some(i) => Ok(self.branches[i].get_key_at_index(index)),
            None => Err(KeyManagerError::UnknownKeyBranch),
        }
    }

    /// Looks for the index of a key in a branch, from index 0 up to the
    /// search bound.
    pub fn find_key_index(&self, branch: String, key: PrivateKey) -> (found: Result<
        u64,
        KeyManagerError,
    >)
        ensures
            self@.finds(branch@, key@, KEY_MANAGER_MAX_SEARCH_DEPTH, found),
    {
        self.find_key_index_within(branch, key, KEY_MANAGER_MAX_SEARCH_DEPTH)
    }

    /// Looks for the index of a key in a branch, from index 0 up to a bound
    /// of the caller's choice.
    pub fn find_key_index_within(&self, branch: String, key: PrivateKey, horizon: u64) -> (found:
        Result<u64, KeyManagerError>)
        ensures
            self@.finds(branch@, key@, horizon, found),
    {
        match self.find_branch(&branch) {
            Some(i) => self.branches[i].find_key_index_within(&key, horizon),
            None => Err(KeyManagerError::UnknownKeyBranch),
        }
    }

    /// Moves the index of a branch up to `index` if it is below it, and never
    /// down.
    pub fn update_current_key_index_if_higher(&mut self, branch: String, index: u64) -> (updated:
        Result<(), KeyManagerError>)
        ensures
            match old(self)@.update_index_if_higher(branch@, index) {
                Ok(after) => updated is Ok && final(self)@ == after,
                Err(error) => updated == Err::<(), KeyManagerError>(error) && final(self)@ == old(
                    self,
                )@,
            },
    {
        proof {
            use_type_invariant(&*self);
        }
        let i = match self.find_branch(&branch) {
            Some(i) => i,
            None => {
                return Err(KeyManagerError::UnknownKeyBranch);
            },
        };
        let ghost before = self.branches@;
        let mut branches: Vec<KeyManager> = Vec::new();
        std::mem::swap(&mut self.branches, &mut branches);
        branches[i].update_current_key_index_if_higher(index);
        proof {
            lemma_update(before, i as int, branches@[i as int]);
        }
        std::mem::swap(&mut self.branches, &mut branches);
        Ok(())
    }

    /// The seed of a branch as a mnemonic phrase.
    pub fn get_seed_words(&self, branch: String, language: &MnemonicLanguage) -> (words: Result<
        Vec<String>,
        KeyManagerError,
    >)
        ensures
            match self@.seed_words(branch@, *language) {
                Ok(expected) => words is Ok && words->Ok_0.deep_view() == expected,
                Err(error) => words == Err::<Vec<String>, KeyManagerError>(error),
            },
    {
        match self.find_branch(&branch) {
            Some(i) => self.branches[i].get_seed_words(language),
            None => Err(KeyManagerError::UnknownKeyBranch),
        }
    }

    /// Seals the master seed and the seed of every branch under the cipher.
    /// Refused on a manager that is encrypted already. Either every seed is
    /// sealed or none is.
    pub fn apply_encryption(&mut self, cipher: CipherKey) -> (applied: Result<(), KeyManagerError>)
        ensures
            match old(self)@.apply_encryption(cipher.key@) {
                Ok(after) => applied is Ok && final(self)@ == after,
                Err(error) => applied == Err::<(), KeyManagerError>(error) && final(self)@ == old(
                    self,
                )@,
            },
    {
        proof {
            use_type_invariant(&*self);
        }
        let mut master = KeyManager::from(self.master.cipher_seed(), String::new(), 0);
        if self.master.is_encrypted() {
            return Err(KeyManagerError::AlreadyEncrypted);
        }
        match master.apply_encryption(cipher) {
            Ok(()) => {},
            Err(error) => {
                return Err(error);
            },
        }
        let ghost before = self.branches@;
        let mut branches: Vec<KeyManager> = Vec::new();
        std::mem::swap(&mut self.branches, &mut branches);
        let mut i: usize = 0;
        while i < branches.len()
            invariant
                i <= branches@.len(),
                branches@.len() == before.len(),
                master@.seed.len() <= AES_GCM_MAX_PLAINTEXT,
                forall|j: int|
                    0 <= j < branches@.len() ==> (#[trigger] branches@[j])@.branch_seed
                        == before[j]@.branch_seed && branches@[j]@.primary_key_index
                        == before[j]@.primary_key_index && branches@[j]@.seed == master@.seed
                        && branches@[j]@.birthday == master@.birthday,
                forall|j: int| 0 <= j < i ==> (#[trigger] branches@[j])@.cipher == Some(cipher.key@),
                forall|j: int| i <= j < branches@.len() ==> (#[trigger] branches@[j])@.cipher is None,
            decreases branches@.len() - i,
        {
            let sealed = branches[i].apply_encryption(cipher);
            i += 1;
        }
        proof {
            lemma_same_entries(before, branches@);
        }
        *self = KeyManagerInner { master, branches };
        Ok(())
    }

    /// Opens the master seed and the seed of every branch and lets go of the
    /// cipher. Refused on a manager that is not encrypted.
    pub fn remove_encryption(&mut self) -> (removed: Result<(), KeyManagerError>)
        ensures
            match old(self)@.remove_encryption() {
                Ok(after) => removed is Ok && final(self)@ == after,
                Err(error) => removed == Err::<(), KeyManagerError>(error) && final(self)@ == old(
                    self,
                )@,
            },
    {
        proof {
            use_type_invariant(&*self);
        }
        if !self.master.is_encrypted() {
            return Err(KeyManagerError::NotEncrypted);
        }
        let master = KeyManager::from(self.master.cipher_seed(), String::new(), 0);
        let ghost before_cipher = self.master@.cipher;
        let ghost before = self.branches@;
        let mut branches: Vec<KeyManager> = Vec::new();
        std::mem::swap(&mut self.branches, &mut branches);
        let mut i: usize = 0;
        while i < branches.len()
            invariant
                i <= branches@.len(),
                branches@.len() == before.len(),
                forall|j: int|
                    0 <= j < branches@.len() ==> (#[trigger] branches@[j])@.branch_seed
                        == before[j]@.branch_seed && branches@[j]@.primary_key_index
                        == before[j]@.primary_key_index && branches@[j]@.seed == master@.seed
                        && branches@[j]@.birthday == master@.birthday,
                forall|j: int| 0 <= j < i ==> (#[trigger] branches@[j])@.cipher is None,
                forall|j: int| i <= j < branches@.len() ==> (#[trigger] branches@[j])@.cipher == before_cipher,
            decreases branches@.len() - i,
        {
            let opened = branches[i].remove_encryption();
            i += 1;
        }
        proof {
            lemma_same_entries(before, branches@);
        }
        *self = KeyManagerInner { master, branches };
        Ok(())
    }
}

/// Two calls for the next key of a branch hand out the keys at two
/// consecutive indices, and a search for the first of them finds an index
/// that gives that key and is not above the one it was handed out at. It is
/// that very index unless an earlier index gives the same key.
pub proof fn lemma_next_keys_are_consecutive(
    manager: KeyManagerInnerView,
    name: Seq<char>,
    horizon: u64,
    found: Result<u64, KeyManagerError>,
)
    requires
        manager.branches.contains_key(name),
        manager.branches[name] < u64::MAX - 1,
        manager.branches[name] < horizon,
        manager.next_key(name)->Ok_0.1.next_key(name)->Ok_0.1.finds(
            name,
            manager.next_key(name)->Ok_0.0,
            horizon,
            found,
        ),
    ensures
        manager.next_key(name) is Ok,
        manager.next_key(name)->Ok_0.0 == spec_derive_key(
            manager.seed,
            name,
            manager.branches[name],
        ),
        manager.next_key(name)->Ok_0.1.next_key(name) is Ok,
        manager.next_key(name)->Ok_0.1.next_key(name)->Ok_0.0 == spec_derive_key(
            manager.seed,
            name,
            (manager.branches[name] + 1) as u64,
        ),
        manager.next_key(name)->Ok_0.1.next_key(name)->Ok_0.1.branches[name]
            == manager.branches[name] + 2,
        found is Ok,
        found->Ok_0 <= manager.branches[name],
        spec_derive_key(manager.seed, name, found->Ok_0) == manager.next_key(name)->Ok_0.0,
        (forall|earlier: u64|
            earlier < manager.branches[name] ==> #[trigger] spec_derive_key(
                manager.seed,
                name,
                earlier,
            ) != manager.next_key(name)->Ok_0.0) ==> found->Ok_0 == manager.branches[name],
{
    let index = manager.branches[name];
    let key = spec_derive_key(manager.seed, name, index);
    let after = manager.next_key(name)->Ok_0.1.next_key(name)->Ok_0.1;
    assert(after.branch(name).key_at_index(index) == key);
}

/// The key at an index of a branch depends on the seed, the name and the
/// index, and on nothing else: it is the same after a branch has been added,
/// after keys have been handed out, after an index has been moved, and after
/// the seeds have been encrypted or opened again.
pub proof fn lemma_keys_are_stable(
    manager: KeyManagerInnerView,
    name: Seq<char>,
    index: u64,
    other: Seq<char>,
    other_index: u64,
    cipher: Seq<u8>,
)
    requires
        manager.branches.contains_key(name),
    ensures
        manager.add_branch(other).key_at_index(name, index) == manager.key_at_index(name, index),
        manager.next_key(other) matches Ok((_, after)) ==> after.key_at_index(name, index)
            == manager.key_at_index(name, index),
        manager.update_index_if_higher(other, other_index) matches Ok(after)
            ==> after.key_at_index(name, index) == manager.key_at_index(name, index),
        manager.apply_encryption(cipher) matches Ok(after) ==> after.key_at_index(name, index)
            == manager.key_at_index(name, index),
        manager.remove_encryption() matches Ok(after) ==> after.key_at_index(name, index)
            == manager.key_at_index(name, index),
{
}

/// The index of a branch never goes down: adding a branch, encrypting and
/// opening leave it as it is, handing out a key moves it up by one, and
/// telling the branch of an index sets it to the higher of the two. So an
/// index that was told stays told: after `first` and then `second`, the index
/// is the highest of the three.
pub proof fn lemma_index_is_monotonic(
    manager: KeyManagerInnerView,
    name: Seq<char>,
    other: Seq<char>,
    first: u64,
    second: u64,
    cipher: Seq<u8>,
)
    requires
        manager.branches.contains_key(name),
    ensures
        manager.add_branch(other).branches[name] == manager.branches[name],
        manager.next_key(name) matches Ok((_, after)) ==> after.branches[name]
            == manager.branches[name] + 1,
        manager.next_key(other) matches Ok((_, after)) ==> after.branches[name]
            >= manager.branches[name],
        manager.update_index_if_higher(other, first) matches Ok(after) ==> after.branches[name]
            >= manager.branches[name],
        manager.apply_encryption(cipher) matches Ok(after) ==> after.branches[name]
            == manager.branches[name],
        manager.remove_encryption() matches Ok(after) ==> after.branches[name]
            == manager.branches[name],
        manager.update_index_if_higher(name, first) is Ok,
        manager.update_index_if_higher(name, first)->Ok_0.branches[name] == (if first
            > manager.branches[name] {
            first
        } else {
            manager.branches[name]
        }),
        manager.update_index_if_higher(name, first)->Ok_0.update_index_if_higher(name, second) is Ok,
        second <= first ==> manager.update_index_if_higher(name, first)->Ok_0.update_index_if_higher(
            name,
            second,
        )->Ok_0 == manager.update_index_if_higher(name, first)->Ok_0,
{
    let told = manager.update_index_if_higher(name, first)->Ok_0;
    if second <= first {
        assert(told.branches.insert(name, told.branches[name]) =~= told.branches);
    }
}

/// Encryption is applied and removed once each way. A manager that has been
/// encrypted holds the cipher it was given; a second request is refused,
/// whatever cipher comes with it, and leaves the manager under the first
/// cipher; what was applied can be removed, and the manager is then as it was
/// before. On a manager that is not encrypted a removal is refused.
pub proof fn lemma_encryption_is_guarded(
    manager: KeyManagerInnerView,
    first: Seq<u8>,
    second: Seq<u8>,
)
    ensures
        manager.apply_encryption(first) matches Ok(after) ==> after.cipher == Some(first)
            && after.apply_encryption(second) == Err::<KeyManagerInnerView, KeyManagerError>(
            KeyManagerError::AlreadyEncrypted,
        ) && after.remove_encryption() == Ok::<KeyManagerInnerView, KeyManagerError>(manager),
        manager.encrypted() ==> manager.apply_encryption(second) == Err::<
            KeyManagerInnerView,
            KeyManagerError,
        >(KeyManagerError::AlreadyEncrypted),
        !manager.encrypted() ==> manager.remove_encryption() == Err::<
            KeyManagerInnerView,
            KeyManagerError,
        >(KeyManagerError::NotEncrypted),
        manager.remove_encryption() matches Ok(after) ==> after.cipher is None
            && after.remove_encryption() == Err::<KeyManagerInnerView, KeyManagerError>(
            KeyManagerError::NotEncrypted,
        ),
        !manager.encrypted() && manager.seed.len() <= AES_GCM_MAX_PLAINTEXT
            ==> manager.apply_encryption(first) is Ok,
{
}

} // verus!
