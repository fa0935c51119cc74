use std::sync::Arc;
use std::sync::Mutex;
use tari_base_layer::key_manager::derive_key;
use tari_base_layer::key_manager::CipherSeed;
use tari_base_layer::storage::DbKey;
use tari_base_layer::storage::DbKeyValuePair;
use tari_base_layer::storage::DbValue;
use tari_base_layer::storage::ScannedBlock;
use tari_base_layer::storage::WalletBackend;
use tari_base_layer::storage::WalletDatabase;
use tari_base_layer::storage::WalletStorageError;
use tari_base_layer::storage::WriteOperation;
use tari_base_layer::types::PrivateKey;
use tari_base_layer::types::PublicKey;
use tari_base_layer::wallet::derive_cipher_key;
use tari_base_layer::wallet::derive_comms_secret_key;
use tari_base_layer::wallet::encryption_progress;
use tari_base_layer::wallet::first_encryption_store;
use tari_base_layer::wallet::read_or_create_master_secret_key;
use tari_base_layer::wallet::read_or_create_master_secret_key_with;
use tari_base_layer::wallet::EncryptionProgress;
use tari_base_layer::wallet::EncryptionStore;
use tari_base_layer::wallet::Wallet;
use tari_base_layer::wallet::RECOVERY_HEIGHT_KEY;
use tari_utilities::SafePassword;

/// A backend that holds a master seed and one client value, and can be told
/// to fail its writes.
#[derive(Clone)]
struct SeedBackend {
    seed: Arc<Mutex<Option<CipherSeed>>>,
    recovery: Option<String>,
    fail_writes: bool,
    fail_reads: bool,
}

impl SeedBackend {
    fn empty() -> Self {
        SeedBackend {
            seed: Arc::new(Mutex::new(None)),
            recovery: None,
            fail_writes: false,
            fail_reads: false,
        }
    }
}

fn not_used<T>() -> Result<T, WalletStorageError> {
    Err(WalletStorageError::BackendError("not used".to_string()))
}

impl WalletBackend for SeedBackend {
    type Cipher = ();

    fn fetch(&self, key: &DbKey) -> Result<Option<DbValue>, WalletStorageError> {
        if self.fail_reads {
            return Err(WalletStorageError::BackendError("read".to_string()));
        }
        Ok(match key {
            DbKey::MasterSeed => self.seed.lock().unwrap().clone().map(DbValue::MasterSeed),
            DbKey::ClientKey(key) if key == RECOVERY_HEIGHT_KEY => {
                self.recovery.clone().map(DbValue::ClientValue)
            },
            _ => None,
        })
    }

    fn write(&self, op: WriteOperation) -> Result<Option<DbValue>, WalletStorageError> {
        if self.fail_writes {
            return Err(WalletStorageError::BackendError("write".to_string()));
        }
        if let WriteOperation::Insert(DbKeyValuePair::MasterSeed(seed)) = op {
            *self.seed.lock().unwrap() = Some(seed);
        }
        Ok(None)
    }

    fn apply_encryption(&self, _passphrase: SafePassword) -> Result<(), WalletStorageError> {
        not_used()
    }

    fn remove_encryption(&self) -> Result<(), WalletStorageError> {
        not_used()
    }

    fn get_scanned_blocks(&self) -> Result<Vec<ScannedBlock>, WalletStorageError> {
        not_used()
    }

    fn save_scanned_block(&self, _scanned_block: ScannedBlock) -> Result<(), WalletStorageError> {
        not_used()
    }

    fn clear_scanned_blocks(&self) -> Result<(), WalletStorageError> {
        not_used()
    }

    fn clear_scanned_blocks_from_and_higher(&self, _height: u64) -> Result<(), WalletStorageError> {
        not_used()
    }

    fn clear_scanned_blocks_before_height(
        &self,
        _height: u64,
        _exclude_recovered: bool,
    ) -> Result<(), WalletStorageError> {
        not_used()
    }
}

fn wallet_scalar(value: u8) -> PrivateKey {
    let mut bytes = [0u8; 32];
    bytes[0] = value;
    PrivateKey::from_bytes(&bytes).unwrap()
}

#[test]
fn wallet_signs_messages_and_verifies_them() {
    let secret = wallet_scalar(77);
    let nonce = wallet_scalar(13);
    let public = PublicKey::from_secret_key(&secret);
    let mut wallet = Wallet::new(WalletDatabase::new(SeedBackend::empty()));
    let signature = wallet.sign_message(secret, nonce, "Tame the base layer").unwrap();
    assert!(wallet.verify_message_signature(
        public,
        *signature.get_public_nonce(),
        *signature.get_signature(),
        "Tame the base layer".to_string()
    ));
    assert!(!wallet.verify_message_signature(
        public,
        *signature.get_public_nonce(),
        *signature.get_signature(),
        "Tame the base layer!".to_string()
    ));
    assert!(!wallet.verify_message_signature(
        PublicKey::from_secret_key(&wallet_scalar(78)),
        *signature.get_public_nonce(),
        *signature.get_signature(),
        "Tame the base layer".to_string()
    ));
    assert_eq!(signature.get_public_nonce(), &PublicKey::from_secret_key(&nonce));
}

#[test]
fn wallet_cipher_key_is_the_digest_of_the_passphrase() {
    let empty: [u8; 32] = [
        0x0e, 0x57, 0x51, 0xc0, 0x26, 0xe5, 0x43, 0xb2, 0xe8, 0xab, 0x2e, 0xb0, 0x60, 0x99, 0xda,
        0xa1, 0xd1, 0xe5, 0xdf, 0x47, 0x77, 0x8f, 0x77, 0x87, 0xfa, 0xab, 0x45, 0xcd, 0xf1, 0x2f,
        0xe3, 0xa8,
    ];
    assert_eq!(derive_cipher_key("").key, empty);
    assert_ne!(derive_cipher_key("a").key, derive_cipher_key("b").key);
    assert_eq!(derive_cipher_key("passphrase"), derive_cipher_key("passphrase"));
}

#[test]
fn wallet_comms_key_is_the_first_key_of_the_comms_branch() {
    let seed = CipherSeed::new(3, vec![5u8; 16]);
    assert_eq!(derive_comms_secret_key(&seed), derive_key(&[5u8; 16], "comms", 0));
    assert_ne!(
        derive_comms_secret_key(&seed),
        derive_comms_secret_key(&CipherSeed::new(3, vec![6u8; 16]))
    );
}

#[test]
fn wallet_reads_its_master_seed_or_creates_it() {
    let db = WalletDatabase::new(SeedBackend::empty());
    let candidate = CipherSeed::new(4, vec![1u8; 16]);
    assert_eq!(
        read_or_create_master_secret_key_with(&db, candidate.clone()),
        Ok(candidate.clone())
    );
    assert_eq!(db.get_master_seed(), Ok(Some(candidate.clone())));

    // What is stored wins over a later candidate.
    let other = CipherSeed::new(5, vec![2u8; 16]);
    assert_eq!(read_or_create_master_secret_key_with(&db, other), Ok(candidate.clone()));
    assert_eq!(read_or_create_master_secret_key(&db, 9), Ok(candidate));

    let db = WalletDatabase::new(SeedBackend::empty());
    let fresh = read_or_create_master_secret_key(&db, 9).unwrap();
    assert_eq!(fresh.birthday, 9);
    assert_eq!(fresh.entropy.len(), 16);
    assert_eq!(read_or_create_master_secret_key(&db, 10), Ok(fresh));
}

#[test]
fn wallet_does_not_make_up_a_seed_it_cannot_store_or_read() {
    let db = WalletDatabase::new(SeedBackend { fail_writes: true, ..SeedBackend::empty() });
    assert_eq!(
        read_or_create_master_secret_key(&db, 1),
        Err(WalletStorageError::BackendError("write".to_string()))
    );
    let db = WalletDatabase::new(SeedBackend { fail_reads: true, ..SeedBackend::empty() });
    assert_eq!(
        read_or_create_master_secret_key(&db, 1),
        Err(WalletStorageError::BackendError("read".to_string()))
    );
    assert_eq!(
        Wallet::new(db).is_recovery_in_progress(),
        Err(WalletStorageError::BackendError("read".to_string()))
    );
}

#[test]
fn wallet_sees_a_recovery_in_progress() {
    let db = WalletDatabase::new(SeedBackend::empty());
    assert_eq!(Wallet::new(db).is_recovery_in_progress(), Ok(false));
    let db = WalletDatabase::new(SeedBackend {
        recovery: Some("1200".to_string()),
        ..SeedBackend::empty()
    });
    assert_eq!(Wallet::new(db).is_recovery_in_progress(), Ok(true));
}

#[test]
fn wallet_goes_through_its_stores_in_order() {
    assert_eq!(first_encryption_store(), EncryptionStore::WalletDatabase);
    assert_eq!(
        encryption_progress(EncryptionStore::WalletDatabase, true),
        EncryptionProgress::Continue(EncryptionStore::KeyManager)
    );
    assert_eq!(
        encryption_progress(EncryptionStore::KeyManager, true),
        EncryptionProgress::Continue(EncryptionStore::OutputManager)
    );
    assert_eq!(
        encryption_progress(EncryptionStore::OutputManager, true),
        EncryptionProgress::Continue(EncryptionStore::TransactionService)
    );
    assert_eq!(
        encryption_progress(EncryptionStore::TransactionService, true),
        EncryptionProgress::Complete
    );
}

#[test]
fn wallet_tells_a_refusal_from_a_partial_application() {
    assert_eq!(
        encryption_progress(EncryptionStore::WalletDatabase, false),
        EncryptionProgress::Refused
    );
    assert_eq!(
        encryption_progress(EncryptionStore::KeyManager, false),
        EncryptionProgress::PartiallyApplied(EncryptionStore::KeyManager)
    );
    assert_eq!(
        encryption_progress(EncryptionStore::OutputManager, false),
        EncryptionProgress::PartiallyApplied(EncryptionStore::OutputManager)
    );
    assert_eq!(
        encryption_progress(EncryptionStore::TransactionService, false),
        EncryptionProgress::PartiallyApplied(EncryptionStore::TransactionService)
    );
}
