//! What the wallet computes and decides between its calls on its services.

use crate::trusted::blake2b_256;
use crate::trusted::spec_blake2b_256;
use crate::trusted::spec_le_value;
use crate::trusted::spec_public_key_from_secret;
use crate::trusted::spec_schnorr_sign;
use crate::trusted::spec_schnorr_verify;
use crate::key_manager::spec_derive_key;
use crate::key_manager::CipherKey;
use crate::key_manager::CipherSeed;
use crate::key_manager::KeyManager;
use crate::storage::spec_client_key_value;
use crate::storage::spec_master_seed;
use crate::storage::spec_written;
use crate::storage::DbKey;
use crate::storage::DbKeyValuePair;
use crate::storage::Fetched;
use crate::storage::WalletBackend;
use crate::storage::WalletDatabase;
use crate::storage::WalletStorageError;
use crate::storage::WriteOperation;
use crate::types::spec_wide_challenge;
use crate::types::PrivateKey;
use crate::types::PublicKey;
use crate::types::SchnorrSignatureError;
use crate::types::Signature;
use vstd::prelude::*;
use vstd::string::StringExecFns;
use vstd::string::StringSliceAdditionalSpecFns;
use vstd::utf8::encode_utf8;

verus! {

/// The branch of the key manager that the node's secret key comes from.
pub const KEY_MANAGER_COMMS_SECRET_KEY_BRANCH_KEY: &'static str = "comms";

/// The client key under which a recovery records how far it has come.
pub const RECOVERY_HEIGHT_KEY: &'static str = "recovery/height-progress";

/// The challenge of a message: the digest of its bytes, widened.
pub open spec fn spec_message_challenge(message: Seq<char>) -> Seq<u8> {
    spec_wide_challenge(spec_blake2b_256(encode_utf8(message)))
}

/// The wallet as far as it is its own: its database. The services that it
/// runs beside it are not of this library.
#[derive(Clone)]
pub struct Wallet<T> {
    pub db: WalletDatabase<T>,
}

impl<T: WalletBackend> Wallet<T> {
    /// A wallet on a database.
    pub fn new(db: WalletDatabase<T>) -> (wallet: Wallet<T>)
        ensures
            wallet.db == db,
    {
        Wallet { db }
    }

    /// Signs the digest of a message with a secret key and a secret nonce.
    /// `verify_message_signature` accepts the signature for the public key of
    /// the secret key and the same message, unless the secret key is zero.
    pub fn sign_message(&mut self, secret: PrivateKey, nonce: PrivateKey, message: &str) -> (signature:
        Result<Signature, SchnorrSignatureError>)
        ensures
            signature is Ok,
            signature->Ok_0.spec_public_nonce() == spec_public_key_from_secret(nonce@),
            signature->Ok_0.spec_signature() == spec_schnorr_sign(
                secret@,
                nonce@,
                spec_message_challenge(message@),
            ),
            signature->Ok_0.is_valid(),
            spec_le_value(secret@) != 0 ==> spec_schnorr_verify(
                signature->Ok_0.spec_public_nonce(),
                signature->Ok_0.spec_signature(),
                spec_public_key_from_secret(secret@),
                spec_message_challenge(message@),
            ),
            *final(self) == *old(self),
    {
        let challenge = blake2b_256(message.as_bytes());
        Ok(Signature::sign(&secret, &nonce, &challenge))
    }

    /// Whether a signature, given by its public nonce and its scalar, is one
    /// of the public key over the digest of the message.
    pub fn verify_message_signature(
        &mut self,
        public_key: PublicKey,
        public_nonce: PublicKey,
        signature: PrivateKey,
        message: String,
    ) -> (verified: bool)
        ensures
            verified == spec_schnorr_verify(
                public_nonce@,
                signature@,
                public_key@,
                spec_message_challenge(message@),
            ),
            *final(self) == *old(self),
    {
        let signature = Signature::new(public_nonce, signature);
        let challenge = blake2b_256(message.as_str().as_bytes());
        signature.verify_challenge(&public_key, &challenge)
    }

    /// Utility function to find out if there is data in the database indicating that there is an incomplete recovery
    /// process in progress
    pub fn is_recovery_in_progress(&self) -> (result: Result<bool, WalletStorageError>)
        ensures
            exists|key: String, fetched: Fetched, value: Result<Option<String>, WalletStorageError>| #[trigger]
                spec_client_key_value(DbKey::ClientKey(key), fetched, value) && key@
                    == RECOVERY_HEIGHT_KEY@ && self.db.backend().may_fetch(
                    DbKey::ClientKey(key),
                    fetched,
                ) && match value {
                    Ok(found) => result == Ok::<bool, WalletStorageError>(found is Some),
                    Err(error) => result == Err::<bool, WalletStorageError>(error),
                },
    {
        let key = String::from_str(RECOVERY_HEIGHT_KEY);
        let ghost asked = key;
        let value = self.db.get_client_key_value(key);
        let ghost fetched = choose|fetched: Fetched| #[trigger]
            self.db.backend().may_fetch(DbKey::ClientKey(asked), fetched) && spec_client_key_value(
                DbKey::ClientKey(asked),
                fetched,
                value,
            );
        match value {
            Ok(found) => Ok(found.is_some()),
            Err(error) => Err(error),
        }
    }
}

/// The key of the cipher for a passphrase: the digest of its bytes.
pub fn derive_cipher_key(passphrase: &str) -> (cipher: CipherKey)
    ensures
        cipher.key@ == spec_blake2b_256(encode_utf8(passphrase@)),
{
    CipherKey { key: blake2b_256(passphrase.as_bytes()) }
}

/// The secret key of the node: the key at index 0 of the comms branch of the
/// master seed.
pub fn derive_comms_secret_key(master_seed: &CipherSeed) -> (key: PrivateKey)
    ensures
        key@ == spec_derive_key(
            master_seed.entropy@,
            KEY_MANAGER_COMMS_SECRET_KEY_BRANCH_KEY@,
            0,
        ),
        key.is_valid(),
{
    let comms_key_manager = KeyManager::from(
        master_seed.clone_seed(),
        String::from_str(KEY_MANAGER_COMMS_SECRET_KEY_BRANCH_KEY),
        0,
    );
    comms_key_manager.get_key_at_index(0)
}

/// What `read_or_create_master_secret_key` gives for the answers of the backend: the
/// seed that is stored, or the candidate once it has been stored, or the
/// error that kept it from knowing or from storing.
pub open spec fn spec_read_or_created(
    fetched: Fetched,
    written: Fetched,
    candidate: CipherSeed,
    result: Result<CipherSeed, WalletStorageError>,
) -> bool {
    exists|stored: Result<Option<CipherSeed>, WalletStorageError>| #[trigger]
        spec_master_seed(fetched, stored) && match stored {
            Ok(Some(seed)) => result == Ok::<CipherSeed, WalletStorageError>(seed),
            Ok(None) => match written {
                Ok(_) => result matches Ok(seed) && seed.birthday == candidate.birthday
                    && seed.entropy@ == candidate.entropy@,
                Err(error) => result == Err::<CipherSeed, WalletStorageError>(error),
            },
            Err(error) => result == Err::<CipherSeed, WalletStorageError>(error),
        }
}

/// The master seed of the wallet: the one in the database, or, if there is
/// none, the candidate, which is then stored.
pub fn read_or_create_master_secret_key_with<T: WalletBackend>(
    db: &WalletDatabase<T>,
    candidate: CipherSeed,
) -> (result: Result<CipherSeed, WalletStorageError>)
    ensures
        exists|fetched: Fetched, written: Fetched| #[trigger]
            spec_read_or_created(fetched, written, candidate, result) && db.backend().may_fetch(
                DbKey::MasterSeed,
                fetched,
            ) && (fetched matches Ok(None) ==> db.backend().may_write(
                WriteOperation::Insert(DbKeyValuePair::MasterSeed(candidate)),
                written,
            )),
{
    let stored = db.get_master_seed();
    let ghost fetched = choose|fetched: Fetched| #[trigger]
        db.backend().may_fetch(DbKey::MasterSeed, fetched) && spec_master_seed(fetched, stored);
    match stored {
        Ok(Some(seed)) => {
            assert(spec_read_or_created(fetched, fetched, candidate, Ok(seed)));
            Ok(seed)
        },
        Ok(None) => {
            let kept = candidate.clone_seed();
            let saved = db.set_master_seed(candidate);
            let ghost written = choose|written: Fetched| #[trigger]
                db.backend().may_write(
                    WriteOperation::Insert(DbKeyValuePair::MasterSeed(candidate)),
                    written,
                ) && spec_written(written, saved);
            match saved {
                Ok(()) => {
                    assert(spec_read_or_created(fetched, written, candidate, Ok(kept)));
                    Ok(kept)
                },
                Err(error) => {
                    assert(spec_read_or_created(fetched, written, candidate, Err(error)));
                    Err(error)
                },
            }
        },
        Err(error) => {
            assert(spec_read_or_created(fetched, fetched, candidate, Err(error)));
            Err(error)
        },
    }
}

/// The master seed of the wallet: the one in the database, or, if there is
/// none, a fresh one with the given birthday, which is then stored.
pub fn read_or_create_master_secret_key<T: WalletBackend>(db: &WalletDatabase<T>, birthday: u16) -> (result:
    Result<CipherSeed, WalletStorageError>)
    ensures
        exists|fetched: Fetched, written: Fetched, candidate: CipherSeed| #[trigger]
            spec_read_or_created(fetched, written, candidate, result) && db.backend().may_fetch(
                DbKey::MasterSeed,
                fetched,
            ) && candidate.birthday == birthday && candidate.entropy@.len() == 16 && (
            fetched matches Ok(None) ==> db.backend().may_write(
                WriteOperation::Insert(DbKeyValuePair::MasterSeed(candidate)),
                written,
            )),
{
    let candidate = CipherSeed::random(birthday);
    read_or_create_master_secret_key_with(db, candidate)
}

/// The stores that hold secrets and are encrypted together, in the order in
/// which the wallet goes through them.
#[derive(Debug, Clone, Copy, PartialEq, Eq, Structural, Hash)]
pub enum EncryptionStore {
    WalletDatabase,
    KeyManager,
    OutputManager,
    TransactionService,
}

/// What the wallet does next while it changes the encryption of its stores.
#[derive(Debug, Clone, Copy, PartialEq, Eq, Structural, Hash)]
pub enum EncryptionProgress {
    /// Go on with this store.
    Continue(EncryptionStore),
    /// Every store has been changed.
    Complete,
    /// The first store refused: nothing has been changed.
    Refused,
    /// This store failed after others had been changed: the stores are no
    /// longer in one state, and the caller has to be told so.
    PartiallyApplied(EncryptionStore),
}

/// The store the wallet starts with.
pub open spec fn spec_first_store() -> EncryptionStore {
    EncryptionStore::WalletDatabase
}

/// The store after a store, if there is one.
pub open spec fn spec_next_store(store: EncryptionStore) -> Option<EncryptionStore> {
    match store {
        EncryptionStore::WalletDatabase => Some(EncryptionStore::KeyManager),
        EncryptionStore::KeyManager => Some(EncryptionStore::OutputManager),
        EncryptionStore::OutputManager => Some(EncryptionStore::TransactionService),
        EncryptionStore::TransactionService => None,
    }
}

/// What follows when a store has answered: after a success the next store or
/// the end; after a failure a refusal if it was the first store, and a
/// partial application if it was a later one.
pub open spec fn spec_encryption_progress(store: EncryptionStore, succeeded: bool) -> EncryptionProgress {
    if succeeded {
        match spec_next_store(store) {
            Some(next) => EncryptionProgress::Continue(next),
            None => EncryptionProgress::Complete,
        }
    } else if store == spec_first_store() {
        EncryptionProgress::Refused
    } else {
        EncryptionProgress::PartiallyApplied(store)
    }
}

/// The store to start a change of encryption with.
pub fn first_encryption_store() -> (store: EncryptionStore)
    ensures
        store == spec_first_store(),
{
    EncryptionStore::WalletDatabase
}

/// Decides what follows when a store has answered a request to apply or to
/// remove encryption.
pub fn encryption_progress(store: EncryptionStore, succeeded: bool) -> (progress: EncryptionProgress)
    ensures
        progress == spec_encryption_progress(store, succeeded),
{
    if succeeded {
        match store {
            EncryptionStore::WalletDatabase => EncryptionProgress::Continue(
                EncryptionStore::KeyManager,
            ),
            EncryptionStore::KeyManager => EncryptionProgress::Continue(
                EncryptionStore::OutputManager,
            ),
            EncryptionStore::OutputManager => EncryptionProgress::Continue(
                EncryptionStore::TransactionService,
            ),
            EncryptionStore::TransactionService => EncryptionProgress::Complete,
        }
    } else {
        match store {
            EncryptionStore::WalletDatabase => EncryptionProgress::Refused,
            _ => EncryptionProgress::PartiallyApplied(store),
        }
    }
}

/// A change of encryption goes through the four stores once each, in their
/// order, as long as each succeeds, and is complete after the last. A failure
/// of the first store is a refusal; a failure of any later store is a partial
/// application and names that store.
pub proof fn lemma_encryption_progress(store: EncryptionStore)
    ensures
        spec_encryption_progress(EncryptionStore::WalletDatabase, true)
            == EncryptionProgress::Continue(EncryptionStore::KeyManager),
        spec_encryption_progress(EncryptionStore::KeyManager, true) == EncryptionProgress::Continue(
            EncryptionStore::OutputManager,
        ),
        spec_encryption_progress(EncryptionStore::OutputManager, true)
            == EncryptionProgress::Continue(EncryptionStore::TransactionService),
        spec_encryption_progress(EncryptionStore::TransactionService, true)
            == EncryptionProgress::Complete,
        spec_encryption_progress(store, false) == (if store == EncryptionStore::WalletDatabase {
            EncryptionProgress::Refused
        } else {
            EncryptionProgress::PartiallyApplied(store)
        }),
        spec_encryption_progress(store, true) != EncryptionProgress::Refused,
        !(spec_encryption_progress(store, true) is PartiallyApplied),
{
}

} // verus!
