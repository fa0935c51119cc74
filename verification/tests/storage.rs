use std::sync::Arc;
use std::sync::Mutex;
use std::collections::HashMap;
use tari_base_layer::key_manager::CipherSeed;
use tari_base_layer::storage::interpret_chain_metadata;
use tari_base_layer::storage::interpret_cleared_client_value;
use tari_base_layer::storage::interpret_client_key_value;
use tari_base_layer::storage::interpret_comms_identity_signature;
use tari_base_layer::storage::interpret_converted;
use tari_base_layer::storage::interpret_master_seed;
use tari_base_layer::storage::interpret_node_address;
use tari_base_layer::storage::interpret_node_features;
use tari_base_layer::storage::interpret_tor_id;
use tari_base_layer::storage::interpret_wallet_birthday;
use tari_base_layer::storage::interpret_write;
use tari_base_layer::storage::log_error;
use tari_base_layer::storage::unexpected_result;
use tari_base_layer::storage::ChainMetadata;
use tari_base_layer::storage::DbKey;
use tari_base_layer::storage::DbKeyValuePair;
use tari_base_layer::storage::DbValue;
use tari_base_layer::storage::IdentitySignature;
use tari_base_layer::storage::Multiaddr;
use tari_base_layer::storage::PeerFeatures;
use tari_base_layer::storage::ScannedBlock;
use tari_base_layer::storage::TorIdentity;
use tari_base_layer::storage::WalletBackend;
use tari_base_layer::storage::WalletDatabase;
use tari_base_layer::storage::WalletStorageError;
use tari_base_layer::storage::WriteOperation;
use tari_base_layer::types::PrivateKey;
use tari_base_layer::types::Signature;
use tari_utilities::SafePassword;

/// What a backend in memory holds.
#[derive(Default)]
struct Records {
    master_seed: Option<CipherSeed>,
    tor_id: Option<TorIdentity>,
    chain_metadata: Option<ChainMetadata>,
    address: Option<Multiaddr>,
    features: Option<PeerFeatures>,
    identity_signature: Option<IdentitySignature>,
    client: HashMap<String, String>,
    birthday: Option<String>,
    scanned: Vec<ScannedBlock>,
    encrypted: bool,
    fail_with: Option<String>,
    wrong_shape: bool,
}

#[derive(Clone)]
struct MemoryBackend {
    records: Arc<Mutex<Records>>,
}

impl MemoryBackend {
    fn new() -> Self {
        MemoryBackend { records: Arc::new(Mutex::new(Records::default())) }
    }

    fn failing(message: &str) -> Self {
        let backend = MemoryBackend::new();
        backend.records.lock().unwrap().fail_with = Some(message.to_string());
        backend
    }

    fn of_wrong_shape() -> Self {
        let backend = MemoryBackend::new();
        backend.records.lock().unwrap().wrong_shape = true;
        backend
    }

    fn with_birthday(text: &str) -> Self {
        let backend = MemoryBackend::new();
        backend.records.lock().unwrap().birthday = Some(text.to_string());
        backend
    }

    fn check(&self) -> Result<(), WalletStorageError> {
        let records = self.records.lock().unwrap();
        match &records.fail_with {
            Some(message) => Err(WalletStorageError::BackendError(message.clone())),
            None => Ok(()),
        }
    }
}

impl WalletBackend for MemoryBackend {
    type Cipher = [u8; 32];

    fn fetch(&self, key: &DbKey) -> Result<Option<DbValue>, WalletStorageError> {
        self.check()?;
        let records = self.records.lock().unwrap();
        if records.wrong_shape {
            return Ok(Some(DbValue::ValueCleared));
        }
        Ok(match key {
            DbKey::MasterSeed => records.master_seed.clone().map(DbValue::MasterSeed),
            DbKey::TorId => records.tor_id.clone().map(DbValue::TorId),
            DbKey::BaseNodeChainMetadata => {
                records.chain_metadata.clone().map(DbValue::BaseNodeChainMetadata)
            },
            DbKey::CommsAddress => records.address.clone().map(DbValue::CommsAddress),
            DbKey::CommsFeatures => records.features.map(DbValue::CommsFeatures),
            DbKey::CommsIdentitySignature => records
                .identity_signature
                .clone()
                .map(|sig| DbValue::CommsIdentitySignature(Box::new(sig))),
            DbKey::ClientKey(key) => records.client.get(key).cloned().map(DbValue::ClientValue),
            DbKey::WalletBirthday => records.birthday.clone().map(DbValue::WalletBirthday),
            DbKey::PassphraseHash | DbKey::EncryptionSalt => None,
        })
    }

    fn write(&self, op: WriteOperation) -> Result<Option<DbValue>, WalletStorageError> {
        self.check()?;
        let mut records = self.records.lock().unwrap();
        if records.wrong_shape {
            return Ok(Some(DbValue::ClientValue("odd".to_string())));
        }
        match op {
            WriteOperation::Insert(pair) => {
                match pair {
                    DbKeyValuePair::ClientKeyValue(key, value) => {
                        records.client.insert(key, value);
                    },
                    DbKeyValuePair::TorId(id) => records.tor_id = Some(id),
                    DbKeyValuePair::BaseNodeChainMetadata(m) => records.chain_metadata = Some(m),
                    DbKeyValuePair::MasterSeed(seed) => records.master_seed = Some(seed),
                    DbKeyValuePair::CommsAddress(a) => records.address = Some(a),
                    DbKeyValuePair::CommsFeatures(f) => records.features = Some(f),
                    DbKeyValuePair::CommsIdentitySignature(sig) => {
                        records.identity_signature = Some(*sig)
                    },
                }
                Ok(None)
            },
            WriteOperation::Remove(key) => {
                let removed = match key {
                    DbKey::MasterSeed => records.master_seed.take().is_some(),
                    DbKey::ClientKey(key) => records.client.remove(&key).is_some(),
                    _ => false,
                };
                Ok(if removed { Some(DbValue::ValueCleared) } else { None })
            },
        }
    }

    fn apply_encryption(&self, passphrase: SafePassword) -> Result<[u8; 32], WalletStorageError> {
        self.check()?;
        let mut records = self.records.lock().unwrap();
        if records.encrypted {
            return Err(WalletStorageError::AlreadyEncrypted);
        }
        records.encrypted = true;
        let mut cipher = [0u8; 32];
        for (i, byte) in passphrase.reveal().iter().take(32).enumerate() {
            cipher[i] = *byte;
        }
        Ok(cipher)
    }

    fn remove_encryption(&self) -> Result<(), WalletStorageError> {
        self.check()?;
        let mut records = self.records.lock().unwrap();
        if !records.encrypted {
            return Err(WalletStorageError::NotEncrypted);
        }
        records.encrypted = false;
        Ok(())
    }

    fn get_scanned_blocks(&self) -> Result<Vec<ScannedBlock>, WalletStorageError> {
        self.check()?;
        Ok(self.records.lock().unwrap().scanned.clone())
    }

    fn save_scanned_block(&self, scanned_block: ScannedBlock) -> Result<(), WalletStorageError> {
        self.check()?;
        self.records.lock().unwrap().scanned.push(scanned_block);
        Ok(())
    }

    fn clear_scanned_blocks(&self) -> Result<(), WalletStorageError> {
        self.check()?;
        self.records.lock().unwrap().scanned.clear();
        Ok(())
    }

    fn clear_scanned_blocks_from_and_higher(&self, height: u64) -> Result<(), WalletStorageError> {
        self.check()?;
        self.records.lock().unwrap().scanned.retain(|block| block.height < height);
        Ok(())
    }

    fn clear_scanned_blocks_before_height(
        &self,
        height: u64,
        exclude_recovered: bool,
    ) -> Result<(), WalletStorageError> {
        self.check()?;
        self.records.lock().unwrap().scanned.retain(|block| {
            block.height >= height || (exclude_recovered && block.num_outputs.unwrap_or(0) > 0)
        });
        Ok(())
    }
}

fn scanned_block(height: u64, num_outputs: Option<u64>) -> ScannedBlock {
    ScannedBlock {
        header_hash: vec![height as u8; 32],
        height,
        num_outputs,
        amount: None,
        timestamp: 1_600_000_000 + height,
    }
}

fn tor_identity() -> TorIdentity {
    TorIdentity {
        private_key: vec![1, 2, 3],
        service_id: "abcdefghijklmnop".to_string(),
        onion_port: 18141,
    }
}

fn chain_metadata() -> ChainMetadata {
    ChainMetadata {
        height_of_longest_chain: 1200,
        best_block: vec![9u8; 32],
        pruning_horizon: 0,
        pruned_height: 0,
        accumulated_difficulty: 1 << 70,
    }
}

fn identity_signature() -> IdentitySignature {
    let mut bytes = [0u8; 32];
    bytes[0] = 9;
    let key = PrivateKey::from_bytes(&bytes).unwrap();
    IdentitySignature {
        version: 0,
        signature: Signature::sign(&key, &key, &[1u8; 32]),
        updated_at: 1_650_000_000,
    }
}

#[test]
fn test_database_crud() {
    let db = WalletDatabase::new(MemoryBackend::new());

    // Test wallet settings
    assert!(db.get_master_seed().unwrap().is_none());
    let seed = CipherSeed::random(0);
    db.set_master_seed(seed.clone()).unwrap();
    let stored_seed = db.get_master_seed().unwrap().unwrap();
    assert_eq!(seed, stored_seed);
    db.clear_master_seed().unwrap();
    assert!(db.get_master_seed().unwrap().is_none());

    let client_key_values = vec![
        ("key1".to_string(), "value1".to_string()),
        ("key2".to_string(), "value2".to_string()),
        ("key3".to_string(), "value3".to_string()),
    ];

    for kv in &client_key_values {
        db.set_client_key_value(kv.0.clone(), kv.1.clone()).unwrap();
    }

    assert!(db.get_client_key_value("wrong".to_string()).unwrap().is_none());

    db.set_client_key_value(client_key_values[0].0.clone(), "updated".to_string())
        .unwrap();

    assert_eq!(
        db.get_client_key_value(client_key_values[0].0.clone())
            .unwrap()
            .unwrap(),
        "updated".to_string()
    );

    assert!(!db.clear_client_value("wrong".to_string()).unwrap());

    assert!(db.clear_client_value(client_key_values[0].0.clone()).unwrap());

    assert!(!db.clear_client_value(client_key_values[0].0.clone()).unwrap());
}

#[test]
fn wallet_database_stores_and_gives_back_each_setting() {
    let db = WalletDatabase::new(MemoryBackend::new());

    assert_eq!(db.get_tor_id(), Ok(None));
    db.set_tor_identity(tor_identity()).unwrap();
    assert_eq!(db.get_tor_id(), Ok(Some(tor_identity())));

    assert_eq!(db.get_node_address(), Ok(None));
    let address = Multiaddr { address: "/ip4/127.0.0.1/tcp/18141".to_string() };
    db.set_node_address(address.clone()).unwrap();
    assert_eq!(db.get_node_address(), Ok(Some(address)));

    assert_eq!(db.get_node_features(), Ok(None));
    db.set_node_features(PeerFeatures { bits: 3 }).unwrap();
    assert_eq!(db.get_node_features(), Ok(Some(PeerFeatures { bits: 3 })));

    assert_eq!(db.get_comms_identity_signature(), Ok(None));
    db.set_comms_identity_signature(identity_signature()).unwrap();
    assert_eq!(db.get_comms_identity_signature(), Ok(Some(identity_signature())));

    assert_eq!(db.get_chain_metadata(), Ok(None));
    db.set_chain_metadata(chain_metadata()).unwrap();
    assert_eq!(db.get_chain_metadata(), Ok(Some(chain_metadata())));

    let copy = db.clone();
    assert_eq!(copy.get_chain_metadata(), Ok(Some(chain_metadata())));
}

#[test]
fn wallet_database_hands_on_the_errors_of_the_backend() {
    let db = WalletDatabase::new(MemoryBackend::failing("disk on fire"));
    let error = WalletStorageError::BackendError("disk on fire".to_string());
    assert_eq!(db.get_master_seed(), Err(error.clone()));
    assert_eq!(db.set_master_seed(CipherSeed::random(0)), Err(error.clone()));
    assert_eq!(db.clear_master_seed(), Err(error.clone()));
    assert_eq!(db.get_tor_id(), Err(error.clone()));
    assert_eq!(db.get_node_address(), Err(error.clone()));
    assert_eq!(db.get_node_features(), Err(error.clone()));
    assert_eq!(db.get_comms_identity_signature(), Err(error.clone()));
    assert_eq!(db.get_chain_metadata(), Err(error.clone()));
    assert_eq!(db.get_client_key_value("a".to_string()), Err(error.clone()));
    assert_eq!(db.get_client_key_from_str::<u64>("a".to_string()), Err(error.clone()));
    assert_eq!(db.set_client_key_value("a".to_string(), "b".to_string()), Err(error.clone()));
    assert_eq!(db.clear_client_value("a".to_string()), Err(error.clone()));
    assert_eq!(db.get_wallet_birthday(), Err(error.clone()));
    assert_eq!(db.get_scanned_blocks(), Err(error.clone()));
    assert_eq!(db.save_scanned_block(scanned_block(1, None)), Err(error.clone()));
    assert_eq!(db.clear_scanned_blocks(), Err(error.clone()));
    assert_eq!(db.clear_scanned_blocks_from_and_higher(1), Err(error.clone()));
    assert_eq!(db.clear_scanned_blocks_before_height(1, true), Err(error.clone()));
    assert_eq!(db.remove_encryption(), Err(error.clone()));
    assert_eq!(db.apply_encryption(SafePassword::from("pass")), Err(error));
}

#[test]
fn wallet_database_refuses_a_value_of_the_wrong_shape() {
    let db = WalletDatabase::new(MemoryBackend::of_wrong_shape());
    let unexpected = |key: &str| {
        WalletStorageError::UnexpectedResult(format!(
            "Unexpected result for database query {}. Response: ValueCleared",
            key
        ))
    };
    assert_eq!(db.get_master_seed(), Err(unexpected("MasterSeed")));
    assert_eq!(db.get_tor_id(), Err(unexpected("TorId")));
    assert_eq!(db.get_node_address(), Err(unexpected("CommsAddress")));
    assert_eq!(db.get_node_features(), Err(unexpected("Nod features")));
    assert_eq!(
        db.get_comms_identity_signature(),
        Err(unexpected("CommsIdentitySignature"))
    );
    assert_eq!(
        db.get_chain_metadata(),
        Err(unexpected("Last seen Chain metadata from basw node"))
    );
    assert_eq!(
        db.get_client_key_value("k\"1".to_string()),
        Err(unexpected("ClientKey: \"k\\\"1\""))
    );
    assert_eq!(
        db.get_client_key_from_str::<u8>("key".to_string()),
        Err(unexpected("ClientKey: \"key\""))
    );
    assert_eq!(db.get_wallet_birthday(), Err(unexpected("WalletBirthday")));
    assert_eq!(
        db.clear_client_value("key".to_string()),
        Err(WalletStorageError::UnexpectedResult(
            "Unexpected result for database query ClientKey: \"key\". Response: ClientValue: \"odd\""
                .to_string()
        ))
    );
    // A write that only has to succeed does not look at what was there.
    assert_eq!(db.set_client_key_value("a".to_string(), "b".to_string()), Ok(()));
    assert_eq!(db.clear_master_seed(), Ok(()));
}

#[test]
fn wallet_database_converts_client_values() {
    let db = WalletDatabase::new(MemoryBackend::new());
    db.set_client_key_value("height".to_string(), "1200".to_string()).unwrap();
    db.set_client_key_value("name".to_string(), "alice".to_string()).unwrap();
    assert_eq!(db.get_client_key_from_str::<u64>("height".to_string()), Ok(Some(1200)));
    assert_eq!(
        db.get_client_key_from_str::<String>("name".to_string()),
        Ok(Some("alice".to_string()))
    );
    assert_eq!(db.get_client_key_from_str::<u64>("missing".to_string()), Ok(None));
    assert_eq!(
        db.get_client_key_from_str::<u64>("name".to_string()),
        Err(WalletStorageError::ConversionError(
            "invalid digit found in string".to_string()
        ))
    );
    assert_eq!(
        db.get_client_key_from_str::<u8>("height".to_string()),
        Err(WalletStorageError::ConversionError(
            "number too large to fit in target type".to_string()
        ))
    );
    assert_eq!(interpret_converted(Ok::<u8, String>(3)), Ok(Some(3)));
    assert_eq!(
        interpret_converted(Err::<u8, String>("no".to_string())),
        Err(WalletStorageError::ConversionError("no".to_string()))
    );
}

#[test]
fn wallet_database_birthday_must_be_there_and_be_a_number() {
    let db = WalletDatabase::new(MemoryBackend::new());
    assert_eq!(
        db.get_wallet_birthday(),
        Err(WalletStorageError::ValueNotFound(DbKey::WalletBirthday))
    );
    for (text, birthday) in [("0", 0u16), ("17", 17), ("65535", 65535), ("+12", 12), ("007", 7)] {
        let db = WalletDatabase::new(MemoryBackend::with_birthday(text));
        assert_eq!(db.get_wallet_birthday(), Ok(birthday));
    }
    for text in ["", "+", "65536", "-1", "12a", " 12", "1 2", "１２", "99999999999999999999"] {
        let db = WalletDatabase::new(MemoryBackend::with_birthday(text));
        assert_eq!(
            db.get_wallet_birthday(),
            Err(WalletStorageError::ConversionError(
                "Could not parse wallet birthday".to_string()
            )),
            "{:?}",
            text
        );
    }
}

#[test]
fn wallet_database_keeps_scanned_blocks() {
    let db = WalletDatabase::new(MemoryBackend::new());
    assert_eq!(db.get_scanned_blocks(), Ok(vec![]));
    for height in 1..=6 {
        let outputs = if height % 2 == 0 { Some(2) } else { None };
        db.save_scanned_block(scanned_block(height, outputs)).unwrap();
    }
    assert_eq!(db.get_scanned_blocks().unwrap().len(), 6);
    db.clear_scanned_blocks_from_and_higher(5).unwrap();
    let heights: Vec<u64> = db.get_scanned_blocks().unwrap().iter().map(|b| b.height).collect();
    assert_eq!(heights, vec![1, 2, 3, 4]);
    db.clear_scanned_blocks_before_height(4, true).unwrap();
    let heights: Vec<u64> = db.get_scanned_blocks().unwrap().iter().map(|b| b.height).collect();
    assert_eq!(heights, vec![2, 4]);
    db.clear_scanned_blocks_before_height(4, false).unwrap();
    let heights: Vec<u64> = db.get_scanned_blocks().unwrap().iter().map(|b| b.height).collect();
    assert_eq!(heights, vec![4]);
    db.clear_scanned_blocks().unwrap();
    assert_eq!(db.get_scanned_blocks(), Ok(vec![]));
}

#[test]
fn wallet_database_encryption_is_the_backends() {
    let db = WalletDatabase::new(MemoryBackend::new());
    assert_eq!(db.remove_encryption(), Err(WalletStorageError::NotEncrypted));
    let cipher = db.apply_encryption(SafePassword::from("pass")).unwrap();
    assert_eq!(&cipher[..4], b"pass");
    assert_eq!(
        db.apply_encryption(SafePassword::from("pass")),
        Err(WalletStorageError::AlreadyEncrypted)
    );
    assert_eq!(db.remove_encryption(), Ok(()));
}

#[test]
fn db_keys_and_values_have_their_texts() {
    assert_eq!(DbKey::MasterSeed.to_string(), "MasterSeed");
    assert_eq!(DbKey::CommsAddress.to_string(), "CommsAddress");
    assert_eq!(DbKey::CommsFeatures.to_string(), "Nod features");
    assert_eq!(DbKey::TorId.to_string(), "TorId");
    assert_eq!(DbKey::ClientKey("a b".to_string()).to_string(), "ClientKey: \"a b\"");
    assert_eq!(
        DbKey::ClientKey("tab\there".to_string()).to_string(),
        "ClientKey: \"tab\\there\""
    );
    assert_eq!(
        DbKey::BaseNodeChainMetadata.to_string(),
        "Last seen Chain metadata from basw node"
    );
    assert_eq!(DbKey::PassphraseHash.to_string(), "PassphraseHash");
    assert_eq!(DbKey::EncryptionSalt.to_string(), "EncryptionSalt");
    assert_eq!(DbKey::WalletBirthday.to_string(), "WalletBirthday");
    assert_eq!(DbKey::CommsIdentitySignature.to_string(), "CommsIdentitySignature");

    assert_eq!(DbValue::MasterSeed(CipherSeed::random(1)).to_string(), "MasterSeed");
    assert_eq!(
        DbValue::ClientValue("v\n".to_string()).to_string(),
        "ClientValue: \"v\\n\""
    );
    assert_eq!(DbValue::ValueCleared.to_string(), "ValueCleared");
    assert_eq!(DbValue::CommsFeatures(PeerFeatures { bits: 1 }).to_string(), "Node features");
    assert_eq!(
        DbValue::CommsAddress(Multiaddr { address: "/ip4/1.2.3.4".to_string() }).to_string(),
        "Comms Address"
    );
    assert_eq!(DbValue::TorId(tor_identity()).to_string(), "Tor ID: abcdefghijklmnop");
    assert_eq!(
        DbValue::BaseNodeChainMetadata(chain_metadata()).to_string(),
        "Last seen Chain metadata from base node:1200"
    );
    assert_eq!(
        DbValue::PassphraseHash("hash".to_string()).to_string(),
        "PassphraseHash: hash"
    );
    assert_eq!(
        DbValue::EncryptionSalt("salt".to_string()).to_string(),
        "EncryptionSalt: salt"
    );
    assert_eq!(
        DbValue::WalletBirthday("12".to_string()).to_string(),
        "WalletBirthday: 12"
    );
    assert_eq!(
        DbValue::CommsIdentitySignature(Box::new(identity_signature())).to_string(),
        "CommsIdentitySignature"
    );
}

#[test]
fn answers_of_the_backend_are_interpreted_one_by_one() {
    let error = || WalletStorageError::BackendError("no".to_string());
    assert_eq!(interpret_write(Ok(None)), Ok(()));
    assert_eq!(interpret_write(Ok(Some(DbValue::ValueCleared))), Ok(()));
    assert_eq!(interpret_write(Err(error())), Err(error()));

    assert_eq!(interpret_master_seed(Ok(None)), Ok(None));
    let seed = CipherSeed::new(1, vec![2; 16]);
    assert_eq!(
        interpret_master_seed(Ok(Some(DbValue::MasterSeed(seed.clone())))),
        Ok(Some(seed))
    );
    assert_eq!(interpret_master_seed(Err(error())), Err(error()));
    assert_eq!(
        interpret_master_seed(Ok(Some(DbValue::WalletBirthday("3".to_string())))),
        Err(WalletStorageError::UnexpectedResult(
            "Unexpected result for database query MasterSeed. Response: WalletBirthday: 3"
                .to_string()
        ))
    );
    assert_eq!(
        interpret_tor_id(Ok(Some(DbValue::TorId(tor_identity())))),
        Ok(Some(tor_identity()))
    );
    assert_eq!(
        interpret_node_address(Ok(Some(DbValue::TorId(tor_identity())))),
        Err(WalletStorageError::UnexpectedResult(
            "Unexpected result for database query CommsAddress. Response: Tor ID: abcdefghijklmnop"
                .to_string()
        ))
    );
    assert_eq!(
        interpret_node_features(Ok(Some(DbValue::CommsFeatures(PeerFeatures { bits: 8 })))),
        Ok(Some(PeerFeatures { bits: 8 }))
    );
    assert_eq!(
        interpret_comms_identity_signature(Ok(Some(DbValue::CommsIdentitySignature(Box::new(
            identity_signature()
        ))))),
        Ok(Some(identity_signature()))
    );
    assert_eq!(
        interpret_chain_metadata(Ok(Some(DbValue::BaseNodeChainMetadata(chain_metadata())))),
        Ok(Some(chain_metadata()))
    );
    assert_eq!(
        interpret_client_key_value(
            DbKey::ClientKey("k".to_string()),
            Ok(Some(DbValue::ClientValue("v".to_string())))
        ),
        Ok(Some("v".to_string()))
    );
    assert_eq!(
        interpret_cleared_client_value(DbKey::ClientKey("k".to_string()), Ok(None)),
        Ok(false)
    );
    assert_eq!(
        interpret_cleared_client_value(
            DbKey::ClientKey("k".to_string()),
            Ok(Some(DbValue::ValueCleared))
        ),
        Ok(true)
    );
    assert_eq!(
        interpret_wallet_birthday(Ok(Some(DbValue::WalletBirthday("77".to_string())))),
        Ok(77)
    );
    assert_eq!(log_error::<u8>(DbKey::TorId, error()), Err(error()));
    assert_eq!(
        unexpected_result::<u8>(DbKey::TorId, DbValue::ValueCleared),
        Err(WalletStorageError::UnexpectedResult(
            "Unexpected result for database query TorId. Response: ValueCleared".to_string()
        ))
    );
}
