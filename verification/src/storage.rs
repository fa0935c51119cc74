//! The wallet's view of its storage.
//!
//! The wallet keeps its settings in a key-value store that it does not
//! implement: a backend does, behind the trait `WalletBackend`. The database
//! type here turns the backend's answers into typed results. An answer of the
//! wrong shape for the key asked, and an error of the backend, come back as
//! errors; nothing is coerced and nothing is retried.

use crate::key_manager::CipherSeed;
use crate::tari_amount::MicroTari;
use crate::trusted::debug_quoted;
use crate::trusted::parse_from_str;
use crate::text::decimal_string;
use crate::text::parse_u16;
use crate::trusted::spec_debug_quoted;
use crate::text::spec_decimal;
use crate::text::spec_parse_u16;
use crate::types::Signature;
use std::sync::Arc;
use tari_utilities::SafePassword;
use vstd::prelude::*;
use vstd::string::StringExecFns;

verus! {

/// A network address in its text form.
#[derive(Debug, Clone, PartialEq, Eq)]
pub struct Multiaddr {
    pub address: String,
}

/// What a peer offers, one bit for each feature.
#[derive(Debug, Clone, Copy, PartialEq, Eq, Structural)]
pub struct PeerFeatures {
    pub bits: u32,
}

/// The signature that binds a node's addresses and features to its key.
#[derive(Debug, Clone, PartialEq, Eq)]
pub struct IdentitySignature {
    pub version: u8,
    pub signature: Signature,
    /// When the signature was made, in seconds since the epoch.
    pub updated_at: u64,
}

/// The identity of a Tor hidden service.
#[derive(Debug, Clone, PartialEq, Eq)]
pub struct TorIdentity {
    pub private_key: Vec<u8>,
    pub service_id: String,
    pub onion_port: u16,
}

/// What a base node last said of its chain.
#[derive(Debug, Clone, PartialEq, Eq)]
pub struct ChainMetadata {
    pub height_of_longest_chain: u64,
    pub best_block: Vec<u8>,
    pub pruning_horizon: u64,
    pub pruned_height: u64,
    pub accumulated_difficulty: u128,
}

/// A block that the wallet has scanned for its outputs.
#[derive(Debug, Clone, PartialEq, Eq)]
pub struct ScannedBlock {
    pub header_hash: Vec<u8>,
    pub height: u64,
    pub num_outputs: Option<u64>,
    pub amount: Option<MicroTari>,
    /// When the block was scanned, in seconds since the epoch.
    pub timestamp: u64,
}

/// What a record of the wallet is stored under.
#[derive(Debug, Clone, PartialEq)]
pub enum DbKey {
    CommsAddress,
    CommsFeatures,
    CommsIdentitySignature,
    TorId,
    BaseNodeChainMetadata,
    ClientKey(String),
    MasterSeed,
    PassphraseHash,
    EncryptionSalt,
    WalletBirthday,
}

/// What the backend answers with: the record under a key, or the notice that
/// a record has been cleared.
pub enum DbValue {
    CommsAddress(Multiaddr),
    CommsFeatures(PeerFeatures),
    CommsIdentitySignature(Box<IdentitySignature>),
    TorId(TorIdentity),
    ClientValue(String),
    ValueCleared,
    BaseNodeChainMetadata(ChainMetadata),
    MasterSeed(CipherSeed),
    PassphraseHash(String),
    EncryptionSalt(String),
    WalletBirthday(String),
}

/// A record together with what it is stored under.
#[derive(Clone)]
pub enum DbKeyValuePair {
    ClientKeyValue(String, String),
    TorId(TorIdentity),
    BaseNodeChainMetadata(ChainMetadata),
    MasterSeed(CipherSeed),
    CommsAddress(Multiaddr),
    CommsFeatures(PeerFeatures),
    CommsIdentitySignature(Box<IdentitySignature>),
}

/// A change to the store.
pub enum WriteOperation {
    Insert(DbKeyValuePair),
    Remove(DbKey),
}

/// Why a request to the storage fails.
#[derive(Debug, Clone, PartialEq)]
pub enum WalletStorageError {
    /// A stored text does not convert to the type asked for; the text says why.
    ConversionError(String),
    /// Nothing is stored under a key that must have a value.
    ValueNotFound(DbKey),
    /// What is stored under a key has the wrong shape for it.
    UnexpectedResult(String),
    /// The backend is encrypted already.
    AlreadyEncrypted,
    /// The backend is not encrypted.
    NotEncrypted,
    /// The backend failed; the text is its own.
    BackendError(String),
}

/// What the backend answers to a fetch or a write.
pub type Fetched = Result<Option<DbValue>, WalletStorageError>;

/// This trait defines the functionality that a database backend need to provide for the Contacts Service
///
/// A backend answers as it sees fit. The predicates say which answers it may
/// give to which request: any, unless the backend says otherwise. The database
/// type promises of its own results only that they come from such an answer.
pub trait WalletBackend: Send + Sync + Clone {
    /// The cipher that the backend encrypts its records with.
    type Cipher;

    open spec fn may_fetch(&self, key: DbKey, result: Fetched) -> bool {
        true
    }

    open spec fn may_write(&self, op: WriteOperation, result: Fetched) -> bool {
        true
    }

    open spec fn may_apply_encryption(
        &self,
        passphrase: SafePassword,
        result: Result<Self::Cipher, WalletStorageError>,
    ) -> bool {
        true
    }

    open spec fn may_remove_encryption(&self, result: Result<(), WalletStorageError>) -> bool {
        true
    }

    open spec fn may_get_scanned_blocks(
        &self,
        result: Result<Vec<ScannedBlock>, WalletStorageError>,
    ) -> bool {
        true
    }

    open spec fn may_save_scanned_block(
        &self,
        scanned_block: ScannedBlock,
        result: Result<(), WalletStorageError>,
    ) -> bool {
        true
    }

    open spec fn may_clear_scanned_blocks(&self, result: Result<(), WalletStorageError>) -> bool {
        true
    }

    open spec fn may_clear_scanned_blocks_from_and_higher(
        &self,
        height: u64,
        result: Result<(), WalletStorageError>,
    ) -> bool {
        true
    }

    open spec fn may_clear_scanned_blocks_before_height(
        &self,
        height: u64,
        exclude_recovered: bool,
        result: Result<(), WalletStorageError>,
    ) -> bool {
        true
    }

    /// Retrieve the record associated with the provided DbKey
    fn fetch(&self, key: &DbKey) -> (result: Fetched)
        ensures
            self.may_fetch(*key, result),
    ;

    /// Modify the state the of the backend with a write operation
    fn write(&self, op: WriteOperation) -> (result: Fetched)
        ensures
            self.may_write(op, result),
    ;

    /// Apply encryption to the backend.
    fn apply_encryption(&self, passphrase: SafePassword) -> (result: Result<
        Self::Cipher,
        WalletStorageError,
    >)
        ensures
            self.may_apply_encryption(passphrase, result),
    ;

    /// Remove encryption from the backend.
    fn remove_encryption(&self) -> (result: Result<(), WalletStorageError>)
        ensures
            self.may_remove_encryption(result),
    ;

    fn get_scanned_blocks(&self) -> (result: Result<Vec<ScannedBlock>, WalletStorageError>)
        ensures
            self.may_get_scanned_blocks(result),
    ;

    fn save_scanned_block(&self, scanned_block: ScannedBlock) -> (result: Result<
        (),
        WalletStorageError,
    >)
        ensures
            self.may_save_scanned_block(scanned_block, result),
    ;

    fn clear_scanned_blocks(&self) -> (result: Result<(), WalletStorageError>)
        ensures
            self.may_clear_scanned_blocks(result),
    ;

    /// Clear scanned blocks from the givne height and higher
    fn clear_scanned_blocks_from_and_higher(&self, height: u64) -> (result: Result<
        (),
        WalletStorageError,
    >)
        ensures
            self.may_clear_scanned_blocks_from_and_higher(height, result),
    ;

    /// Clear scanned block history from before the specified height. Choice to exclude blocks that contained recovered
    /// outputs
    fn clear_scanned_blocks_before_height(&self, height: u64, exclude_recovered: bool) -> (result:
        Result<(), WalletStorageError>)
        ensures
            self.may_clear_scanned_blocks_before_height(height, exclude_recovered, result),
    ;
}

/// The text of a key, as it stands in messages.
pub open spec fn spec_db_key_text(key: DbKey) -> Seq<char> {
    match key {
        DbKey::MasterSeed => "MasterSeed"@,
        DbKey::CommsAddress => "CommsAddress"@,
        DbKey::CommsFeatures => "Nod features"@,
        DbKey::TorId => "TorId"@,
        DbKey::ClientKey(k) => "ClientKey: "@ + spec_debug_quoted(k@),
        DbKey::BaseNodeChainMetadata => "Last seen Chain metadata from basw node"@,
        DbKey::PassphraseHash => "PassphraseHash"@,
        DbKey::EncryptionSalt => "EncryptionSalt"@,
        DbKey::WalletBirthday => "WalletBirthday"@,
        DbKey::CommsIdentitySignature => "CommsIdentitySignature"@,
    }
}

/// The text of a value, as it stands in messages. Secrets are named, not
/// shown.
pub open spec fn spec_db_value_text(value: DbValue) -> Seq<char> {
    match value {
        DbValue::MasterSeed(_) => "MasterSeed"@,
        DbValue::ClientValue(v) => "ClientValue: "@ + spec_debug_quoted(v@),
        DbValue::ValueCleared => "ValueCleared"@,
        DbValue::CommsFeatures(_) => "Node features"@,
        DbValue::CommsAddress(_) => "Comms Address"@,
        DbValue::TorId(v) => "Tor ID: "@ + v.service_id@,
        DbValue::BaseNodeChainMetadata(v) => "Last seen Chain metadata from base node:"@
            + spec_decimal(v.height_of_longest_chain as nat),
        DbValue::PassphraseHash(h) => "PassphraseHash: "@ + h@,
        DbValue::EncryptionSalt(s) => "EncryptionSalt: "@ + s@,
        DbValue::WalletBirthday(b) => "WalletBirthday: "@ + b@,
        DbValue::CommsIdentitySignature(_) => "CommsIdentitySignature"@,
    }
}

/// The message for a value of the wrong shape.
pub open spec fn spec_unexpected_result_message(req: DbKey, res: DbValue) -> Seq<char> {
    "Unexpected result for database query "@ + spec_db_key_text(req) + ". Response: "@
        + spec_db_value_text(res)
}

/// Whether a result is the error for a value of the wrong shape.
pub open spec fn spec_is_unexpected<V>(
    result: Result<V, WalletStorageError>,
    req: DbKey,
    res: DbValue,
) -> bool {
    result matches Err(WalletStorageError::UnexpectedResult(message)) && message@
        == spec_unexpected_result_message(req, res)
}

impl DbKey {
    /// The text of the key, as it stands in messages.
    pub fn to_string(&self) -> (text: String)
        ensures
            text@ == spec_db_key_text(*self),
    {
        match self {
            DbKey::MasterSeed => String::from_str("MasterSeed"),
            DbKey::CommsAddress => String::from_str("CommsAddress"),
            DbKey::CommsFeatures => String::from_str("Nod features"),
            DbKey::TorId => String::from_str("TorId"),
            DbKey::ClientKey(k) => {
                let quoted = debug_quoted(k.as_str());
                String::from_str("ClientKey: ").concat(quoted.as_str())
            },
            DbKey::BaseNodeChainMetadata => String::from_str(
                "Last seen Chain metadata from basw node",
            ),
            DbKey::PassphraseHash => String::from_str("PassphraseHash"),
            DbKey::EncryptionSalt => String::from_str("EncryptionSalt"),
            DbKey::WalletBirthday => String::from_str("WalletBirthday"),
            DbKey::CommsIdentitySignature => String::from_str("CommsIdentitySignature"),
        }
    }
}

impl DbValue {
    /// The text of the value, as it stands in messages.
    pub fn to_string(&self) -> (text: String)
        ensures
            text@ == spec_db_value_text(*self),
    {
        match self {
            DbValue::MasterSeed(_) => String::from_str("MasterSeed"),
            DbValue::ClientValue(v) => {
                let quoted = debug_quoted(v.as_str());
                String::from_str("ClientValue: ").concat(quoted.as_str())
            },
            DbValue::ValueCleared => String::from_str("ValueCleared"),
            DbValue::CommsFeatures(_) => String::from_str("Node features"),
            DbValue::CommsAddress(_) => String::from_str("Comms Address"),
            DbValue::TorId(v) => String::from_str("Tor ID: ").concat(v.service_id.as_str()),
            DbValue::BaseNodeChainMetadata(v) => {
                let height = decimal_string(v.height_of_longest_chain);
                String::from_str("Last seen Chain metadata from base node:").concat(
                    height.as_str(),
                )
            },
            DbValue::PassphraseHash(h) => String::from_str("PassphraseHash: ").concat(h.as_str()),
            DbValue::EncryptionSalt(s) => String::from_str("EncryptionSalt: ").concat(s.as_str()),
            DbValue::WalletBirthday(b) => String::from_str("WalletBirthday: ").concat(b.as_str()),
            DbValue::CommsIdentitySignature(_) => String::from_str("CommsIdentitySignature"),
        }
    }
}

/// Hands the error of the backend on. The key says on which request it came.
pub fn log_error<V>(req: DbKey, err: WalletStorageError) -> (result: Result<V, WalletStorageError>)
    ensures
        result == Err::<V, WalletStorageError>(err),
{
    Err(err)
}

/// The error for a value of the wrong shape for the key asked.
pub fn unexpected_result<V>(req: DbKey, res: DbValue) -> (result: Result<V, WalletStorageError>)
    ensures
        spec_is_unexpected(result, req, res),
{
    let mut message = String::from_str("Unexpected result for database query ");
    let key_text = req.to_string();
    let value_text = res.to_string();
    message.append(key_text.as_str());
    message.append(". Response: ");
    message.append(value_text.as_str());
    Err(WalletStorageError::UnexpectedResult(message))
}

/// What a write that only has to succeed gives for an answer of the backend:
/// success whatever was there before, or the backend's error.
pub open spec fn spec_written(written: Fetched, result: Result<(), WalletStorageError>) -> bool {
    match written {
        Ok(_) => result is Ok,
        Err(error) => result == Err::<(), WalletStorageError>(error),
    }
}

/// Turns the answer to a write that only has to succeed into its result.
pub fn interpret_write(written: Fetched) -> (result: Result<(), WalletStorageError>)
    ensures
        spec_written(written, result),
{
    match written {
        Ok(_) => Ok(()),
        Err(error) => Err(error),
    }
}

/// What `get_master_seed` gives for an answer of the backend: nothing for nothing
/// stored, the value if it has the shape of the key, an error for another
/// shape, and the backend's error.
pub open spec fn spec_master_seed(fetched: Fetched, result: Result<Option<CipherSeed>, WalletStorageError>) -> bool {
    match fetched {
        Ok(None) => result == Ok::<Option<CipherSeed>, WalletStorageError>(None),
        Ok(Some(DbValue::MasterSeed(k))) => result == Ok::<Option<CipherSeed>, WalletStorageError>(
            Some(k),
        ),
        Ok(Some(other)) => spec_is_unexpected(result, DbKey::MasterSeed, other),
        Err(error) => result == Err::<Option<CipherSeed>, WalletStorageError>(error),
    }
}

/// Turns the answer to a fetch of `MasterSeed` into the result of `get_master_seed`.
pub fn interpret_master_seed(fetched: Fetched) -> (result: Result<Option<CipherSeed>, WalletStorageError>)
    ensures
        spec_master_seed(fetched, result),
{
    match fetched {
        Ok(None) => Ok(None),
        Ok(Some(DbValue::MasterSeed(k))) => Ok(Some(k)),
        Ok(Some(other)) => unexpected_result(DbKey::MasterSeed, other),
        Err(e) => log_error(DbKey::MasterSeed, e),
    }
}

/// What `get_tor_id` gives for an answer of the backend: nothing for nothing
/// stored, the value if it has the shape of the key, an error for another
/// shape, and the backend's error.
pub open spec fn spec_tor_id(fetched: Fetched, result: Result<Option<TorIdentity>, WalletStorageError>) -> bool {
    match fetched {
        Ok(None) => result == Ok::<Option<TorIdentity>, WalletStorageError>(None),
        Ok(Some(DbValue::TorId(k))) => result == Ok::<Option<TorIdentity>, WalletStorageError>(
            Some(k),
        ),
        Ok(Some(other)) => spec_is_unexpected(result, DbKey::TorId, other),
        Err(error) => result == Err::<Option<TorIdentity>, WalletStorageError>(error),
    }
}

/// Turns the answer to a fetch of `TorId` into the result of `get_tor_id`.
pub fn interpret_tor_id(fetched: Fetched) -> (result: Result<Option<TorIdentity>, WalletStorageError>)
    ensures
        spec_tor_id(fetched, result),
{
    match fetched {
        Ok(None) => Ok(None),
        Ok(Some(DbValue::TorId(k))) => Ok(Some(k)),
        Ok(Some(other)) => unexpected_result(DbKey::TorId, other),
        Err(e) => log_error(DbKey::TorId, e),
    }
}

/// What `get_node_address` gives for an answer of the backend: nothing for nothing
/// stored, the value if it has the shape of the key, an error for another
/// shape, and the backend's error.
pub open spec fn spec_node_address(fetched: Fetched, result: Result<Option<Multiaddr>, WalletStorageError>) -> bool {
    match fetched {
        Ok(None) => result == Ok::<Option<Multiaddr>, WalletStorageError>(None),
        Ok(Some(DbValue::CommsAddress(k))) => result == Ok::<Option<Multiaddr>, WalletStorageError>(
            Some(k),
        ),
        Ok(Some(other)) => spec_is_unexpected(result, DbKey::CommsAddress, other),
        Err(error) => result == Err::<Option<Multiaddr>, WalletStorageError>(error),
    }
}

/// Turns the answer to a fetch of `CommsAddress` into the result of `get_node_address`.
pub fn interpret_node_address(fetched: Fetched) -> (result: Result<Option<Multiaddr>, WalletStorageError>)
    ensures
        spec_node_address(fetched, result),
{
    match fetched {
        Ok(None) => Ok(None),
        Ok(Some(DbValue::CommsAddress(k))) => Ok(Some(k)),
        Ok(Some(other)) => unexpected_result(DbKey::CommsAddress, other),
        Err(e) => log_error(DbKey::CommsAddress, e),
    }
}

/// What `get_node_features` gives for an answer of the backend: nothing for nothing
/// stored, the value if it has the shape of the key, an error for another
/// shape, and the backend's error.
pub open spec fn spec_node_features(fetched: Fetched, result: Result<Option<PeerFeatures>, WalletStorageError>) -> bool {
    match fetched {
        Ok(None) => result == Ok::<Option<PeerFeatures>, WalletStorageError>(None),
        Ok(Some(DbValue::CommsFeatures(k))) => result == Ok::<Option<PeerFeatures>, WalletStorageError>(
            Some(k),
        ),
        Ok(Some(other)) => spec_is_unexpected(result, DbKey::CommsFeatures, other),
        Err(error) => result == Err::<Option<PeerFeatures>, WalletStorageError>(error),
    }
}

/// Turns the answer to a fetch of `CommsFeatures` into the result of `get_node_features`.
pub fn interpret_node_features(fetched: Fetched) -> (result: Result<Option<PeerFeatures>, WalletStorageError>)
    ensures
        spec_node_features(fetched, result),
{
    match fetched {
        Ok(None) => Ok(None),
        Ok(Some(DbValue::CommsFeatures(k))) => Ok(Some(k)),
        Ok(Some(other)) => unexpected_result(DbKey::CommsFeatures, other),
        Err(e) => log_error(DbKey::CommsFeatures, e),
    }
}

/// What `get_comms_identity_signature` gives for an answer of the backend: nothing for nothing
/// stored, the value if it has the shape of the key, an error for another
/// shape, and the backend's error.
pub open spec fn spec_comms_identity_signature(fetched: Fetched, result: Result<Option<IdentitySignature>, WalletStorageError>) -> bool {
    match fetched {
        Ok(None) => result == Ok::<Option<IdentitySignature>, WalletStorageError>(None),
        Ok(Some(DbValue::CommsIdentitySignature(k))) => result == Ok::<Option<IdentitySignature>, WalletStorageError>(
            Some(*k),
        ),
        Ok(Some(other)) => spec_is_unexpected(result, DbKey::CommsIdentitySignature, other),
        Err(error) => result == Err::<Option<IdentitySignature>, WalletStorageError>(error),
    }
}

/// Turns the answer to a fetch of `CommsIdentitySignature` into the result of `get_comms_identity_signature`.
pub fn interpret_comms_identity_signature(fetched: Fetched) -> (result: Result<Option<IdentitySignature>, WalletStorageError>)
    ensures
        spec_comms_identity_signature(fetched, result),
{
    match fetched {
        Ok(None) => Ok(None),
        Ok(Some(DbValue::CommsIdentitySignature(k))) => Ok(Some(*k)),
        Ok(Some(other)) => unexpected_result(DbKey::CommsIdentitySignature, other),
        Err(e) => log_error(DbKey::CommsIdentitySignature, e),
    }
}

/// What `get_chain_metadata` gives for an answer of the backend: nothing for nothing
/// stored, the value if it has the shape of the key, an error for another
/// shape, and the backend's error.
pub open spec fn spec_chain_metadata(fetched: Fetched, result: Result<Option<ChainMetadata>, WalletStorageError>) -> bool {
    match fetched {
        Ok(None) => result == Ok::<Option<ChainMetadata>, WalletStorageError>(None),
        Ok(Some(DbValue::BaseNodeChainMetadata(metadata))) => result == Ok::<Option<ChainMetadata>, WalletStorageError>(
            Some(metadata),
        ),
        Ok(Some(other)) => spec_is_unexpected(result, DbKey::BaseNodeChainMetadata, other),
        Err(error) => result == Err::<Option<ChainMetadata>, WalletStorageError>(error),
    }
}

/// Turns the answer to a fetch of `BaseNodeChainMetadata` into the result of `get_chain_metadata`.
pub fn interpret_chain_metadata(fetched: Fetched) -> (result: Result<Option<ChainMetadata>, WalletStorageError>)
    ensures
        spec_chain_metadata(fetched, result),
{
    match fetched {
        Ok(None) => Ok(None),
        Ok(Some(DbValue::BaseNodeChainMetadata(metadata))) => Ok(Some(metadata)),
        Ok(Some(other)) => unexpected_result(DbKey::BaseNodeChainMetadata, other),
        Err(e) => log_error(DbKey::BaseNodeChainMetadata, e),
    }
}

/// What `get_client_key_value` gives for an answer of the backend.
pub open spec fn spec_client_key_value(
    key: DbKey,
    fetched: Fetched,
    result: Result<Option<String>, WalletStorageError>,
) -> bool {
    match fetched {
        Ok(None) => result == Ok::<Option<String>, WalletStorageError>(None),
        Ok(Some(DbValue::ClientValue(k))) => result == Ok::<Option<String>, WalletStorageError>(
            Some(k),
        ),
        Ok(Some(other)) => spec_is_unexpected(result, key, other),
        Err(error) => result == Err::<Option<String>, WalletStorageError>(error),
    }
}

/// Turns the answer to a fetch of a client key into the result of
/// `get_client_key_value`.
pub fn interpret_client_key_value(key: DbKey, fetched: Fetched) -> (result: Result<
    Option<String>,
    WalletStorageError,
>)
    ensures
        spec_client_key_value(key, fetched, result),
{
    match fetched {
        Ok(None) => Ok(None),
        Ok(Some(DbValue::ClientValue(k))) => Ok(Some(k)),
        Ok(Some(other)) => unexpected_result(key, other),
        Err(e) => log_error(key, e),
    }
}

/// What `get_client_key_from_str` gives for what the conversion of a stored
/// text gave: the value, or an error with the conversion's own words.
pub open spec fn spec_converted<V>(
    converted: Result<V, String>,
    result: Result<Option<V>, WalletStorageError>,
) -> bool {
    match converted {
        Ok(value) => result == Ok::<Option<V>, WalletStorageError>(Some(value)),
        Err(words) => result == Err::<Option<V>, WalletStorageError>(
            WalletStorageError::ConversionError(words),
        ),
    }
}

/// Turns what the conversion of a stored text gave into the result of
/// `get_client_key_from_str`.
pub fn interpret_converted<V>(converted: Result<V, String>) -> (result: Result<
    Option<V>,
    WalletStorageError,
>)
    ensures
        spec_converted(converted, result),
{
    match converted {
        Ok(value) => Ok(Some(value)),
        Err(words) => Err(WalletStorageError::ConversionError(words)),
    }
}

/// What `clear_client_value` gives for an answer of the backend: whether
/// there was a value to clear.
pub open spec fn spec_cleared_client_value(
    key: DbKey,
    written: Fetched,
    result: Result<bool, WalletStorageError>,
) -> bool {
    match written {
        Ok(None) => result == Ok::<bool, WalletStorageError>(false),
        Ok(Some(DbValue::ValueCleared)) => result == Ok::<bool, WalletStorageError>(true),
        Ok(Some(other)) => spec_is_unexpected(result, key, other),
        Err(error) => result == Err::<bool, WalletStorageError>(error),
    }
}

/// Turns the answer to the removal of a client key into the result of
/// `clear_client_value`.
pub fn interpret_cleared_client_value(key: DbKey, written: Fetched) -> (result: Result<
    bool,
    WalletStorageError,
>)
    ensures
        spec_cleared_client_value(key, written, result),
{
    match written {
        Ok(None) => Ok(false),
        Ok(Some(DbValue::ValueCleared)) => Ok(true),
        Ok(Some(other)) => unexpected_result(key, other),
        Err(e) => log_error(key, e),
    }
}

/// What `get_wallet_birthday` gives for an answer of the backend. The
/// birthday must be there, and must be a `u16` in decimal.
pub open spec fn spec_wallet_birthday(fetched: Fetched, result: Result<u16, WalletStorageError>) -> bool {
    match fetched {
        Ok(None) => result == Err::<u16, WalletStorageError>(
            WalletStorageError::ValueNotFound(DbKey::WalletBirthday),
        ),
        Ok(Some(DbValue::WalletBirthday(b))) => match spec_parse_u16(b@) {
            Some(birthday) => result == Ok::<u16, WalletStorageError>(birthday),
            None => result matches Err(WalletStorageError::ConversionError(message)) && message@
                == "Could not parse wallet birthday"@,
        },
        Ok(Some(other)) => spec_is_unexpected(result, DbKey::WalletBirthday, other),
        Err(error) => result == Err::<u16, WalletStorageError>(error),
    }
}

/// Turns the answer to a fetch of the wallet birthday into the result of
/// `get_wallet_birthday`.
pub fn interpret_wallet_birthday(fetched: Fetched) -> (result: Result<u16, WalletStorageError>)
    ensures
        spec_wallet_birthday(fetched, result),
{
    match fetched {
        Ok(None) => Err(WalletStorageError::ValueNotFound(DbKey::WalletBirthday)),
        Ok(Some(DbValue::WalletBirthday(b))) => match parse_u16(b.as_str()) {
            Some(birthday) => Ok(birthday),
            None => Err(
                WalletStorageError::ConversionError(
                    String::from_str("Could not parse wallet birthday"),
                ),
            ),
        },
        Ok(Some(other)) => unexpected_result(DbKey::WalletBirthday, other),
        Err(e) => log_error(DbKey::WalletBirthday, e),
    }
}

/// The settings of the wallet, kept by a backend.
#[derive(Clone)]
pub struct WalletDatabase<T> {
    db: Arc<T>,
}

impl<T: WalletBackend> WalletDatabase<T> {
    /// The backend behind the database.
    pub closed spec fn backend(&self) -> T {
        *self.db
    }

    /// A database on a backend.
    pub fn new(db: T) -> (database: Self)
        ensures
            database.backend() == db,
    {
        Self { db: Arc::new(db) }
    }

    /// The master seed, if one is stored.
    pub fn get_master_seed(&self) -> (result: Result<Option<CipherSeed>, WalletStorageError>)
        ensures
            exists|fetched: Fetched| #[trigger]
                self.backend().may_fetch(DbKey::MasterSeed, fetched) && spec_master_seed(fetched, result),
    {
        let fetched = self.db.fetch(&DbKey::MasterSeed);
        let ghost answer = fetched;
        let result = interpret_master_seed(fetched);
        assert(self.backend().may_fetch(DbKey::MasterSeed, answer));
        result
    }

    /// Stores the master seed.
    pub fn set_master_seed(&self, seed: CipherSeed) -> (result: Result<(), WalletStorageError>)
        ensures
            exists|written: Fetched| #[trigger]
                self.backend().may_write(WriteOperation::Insert(DbKeyValuePair::MasterSeed(seed)), written)
                    && spec_written(written, result),
    {
        let ghost op = WriteOperation::Insert(DbKeyValuePair::MasterSeed(seed));
        let written = self.db.write(WriteOperation::Insert(DbKeyValuePair::MasterSeed(seed)));
        let ghost answer = written;
        let result = interpret_write(written);
        assert(self.backend().may_write(op, answer));
        result
    }

    /// Removes the master seed.
    pub fn clear_master_seed(&self) -> (result: Result<(), WalletStorageError>)
        ensures
            exists|written: Fetched| #[trigger]
                self.backend().may_write(WriteOperation::Remove(DbKey::MasterSeed), written)
                    && spec_written(written, result),
    {
        let written = self.db.write(WriteOperation::Remove(DbKey::MasterSeed));
        let ghost answer = written;
        let result = interpret_write(written);
        assert(self.backend().may_write(WriteOperation::Remove(DbKey::MasterSeed), answer));
        result
    }

    /// The Tor identity, if one is stored.
    pub fn get_tor_id(&self) -> (result: Result<Option<TorIdentity>, WalletStorageError>)
        ensures
            exists|fetched: Fetched| #[trigger]
                self.backend().may_fetch(DbKey::TorId, fetched) && spec_tor_id(fetched, result),
    {
        let fetched = self.db.fetch(&DbKey::TorId);
        let ghost answer = fetched;
        let result = interpret_tor_id(fetched);
        assert(self.backend().may_fetch(DbKey::TorId, answer));
        result
    }

    /// Stores the Tor identity.
    pub fn set_tor_identity(&self, id: TorIdentity) -> (result: Result<(), WalletStorageError>)
        ensures
            exists|written: Fetched| #[trigger]
                self.backend().may_write(WriteOperation::Insert(DbKeyValuePair::TorId(id)), written)
                    && spec_written(written, result),
    {
        let ghost op = WriteOperation::Insert(DbKeyValuePair::TorId(id));
        let written = self.db.write(WriteOperation::Insert(DbKeyValuePair::TorId(id)));
        let ghost answer = written;
        let result = interpret_write(written);
        assert(self.backend().may_write(op, answer));
        result
    }

    /// The address of the node, if one is stored.
    pub fn get_node_address(&self) -> (result: Result<Option<Multiaddr>, WalletStorageError>)
        ensures
            exists|fetched: Fetched| #[trigger]
                self.backend().may_fetch(DbKey::CommsAddress, fetched) && spec_node_address(fetched, result),
    {
        let fetched = self.db.fetch(&DbKey::CommsAddress);
        let ghost answer = fetched;
        let result = interpret_node_address(fetched);
        assert(self.backend().may_fetch(DbKey::CommsAddress, answer));
        result
    }

    /// Stores the address of the node.
    pub fn set_node_address(&self, address: Multiaddr) -> (result: Result<(), WalletStorageError>)
        ensures
            exists|written: Fetched| #[trigger]
                self.backend().may_write(WriteOperation::Insert(DbKeyValuePair::CommsAddress(address)), written)
                    && spec_written(written, result),
    {
        let ghost op = WriteOperation::Insert(DbKeyValuePair::CommsAddress(address));
        let written = self.db.write(WriteOperation::Insert(DbKeyValuePair::CommsAddress(address)));
        let ghost answer = written;
        let result = interpret_write(written);
        assert(self.backend().may_write(op, answer));
        result
    }

    /// The features of the node, if they are stored.
    pub fn get_node_features(&self) -> (result: Result<Option<PeerFeatures>, WalletStorageError>)
        ensures
            exists|fetched: Fetched| #[trigger]
                self.backend().may_fetch(DbKey::CommsFeatures, fetched) && spec_node_features(fetched, result),
    {
        let fetched = self.db.fetch(&DbKey::CommsFeatures);
        let ghost answer = fetched;
        let result = interpret_node_features(fetched);
        assert(self.backend().may_fetch(DbKey::CommsFeatures, answer));
        result
    }

    /// Stores the features of the node.
    pub fn set_node_features(&self, features: PeerFeatures) -> (result: Result<(), WalletStorageError>)
        ensures
            exists|written: Fetched| #[trigger]
                self.backend().may_write(WriteOperation::Insert(DbKeyValuePair::CommsFeatures(features)), written)
                    && spec_written(written, result),
    {
        let ghost op = WriteOperation::Insert(DbKeyValuePair::CommsFeatures(features));
        let written = self.db.write(WriteOperation::Insert(DbKeyValuePair::CommsFeatures(features)));
        let ghost answer = written;
        let result = interpret_write(written);
        assert(self.backend().may_write(op, answer));
        result
    }

    /// The identity signature of the node, if one is stored.
    pub fn get_comms_identity_signature(&self) -> (result: Result<Option<IdentitySignature>, WalletStorageError>)
        ensures
            exists|fetched: Fetched| #[trigger]
                self.backend().may_fetch(DbKey::CommsIdentitySignature, fetched) && spec_comms_identity_signature(fetched, result),
    {
        let fetched = self.db.fetch(&DbKey::CommsIdentitySignature);
        let ghost answer = fetched;
        let result = interpret_comms_identity_signature(fetched);
        assert(self.backend().may_fetch(DbKey::CommsIdentitySignature, answer));
        result
    }

    /// Stores the identity signature of the node.
    pub fn set_comms_identity_signature(&self, sig: IdentitySignature) -> (result: Result<(), WalletStorageError>)
        ensures
            exists|written: Fetched| #[trigger]
                self.backend().may_write(WriteOperation::Insert(DbKeyValuePair::CommsIdentitySignature(Box::new(sig))), written)
                    && spec_written(written, result),
    {
        let ghost op = WriteOperation::Insert(DbKeyValuePair::CommsIdentitySignature(Box::new(sig)));
        let written = self.db.write(WriteOperation::Insert(DbKeyValuePair::CommsIdentitySignature(Box::new(sig))));
        let ghost answer = written;
        let result = interpret_write(written);
        assert(self.backend().may_write(op, answer));
        result
    }

    /// What the base node last said of its chain, if it is stored.
    pub fn get_chain_metadata(&self) -> (result: Result<Option<ChainMetadata>, WalletStorageError>)
        ensures
            exists|fetched: Fetched| #[trigger]
                self.backend().may_fetch(DbKey::BaseNodeChainMetadata, fetched) && spec_chain_metadata(fetched, result),
    {
        let fetched = self.db.fetch(&DbKey::BaseNodeChainMetadata);
        let ghost answer = fetched;
        let result = interpret_chain_metadata(fetched);
        assert(self.backend().may_fetch(DbKey::BaseNodeChainMetadata, answer));
        result
    }

    /// Stores what the base node said of its chain.
    pub fn set_chain_metadata(&self, metadata: ChainMetadata) -> (result: Result<(), WalletStorageError>)
        ensures
            exists|written: Fetched| #[trigger]
                self.backend().may_write(WriteOperation::Insert(DbKeyValuePair::BaseNodeChainMetadata(metadata)), written)
                    && spec_written(written, result),
    {
        let ghost op = WriteOperation::Insert(DbKeyValuePair::BaseNodeChainMetadata(metadata));
        let written = self.db.write(WriteOperation::Insert(DbKeyValuePair::BaseNodeChainMetadata(metadata)));
        let ghost answer = written;
        let result = interpret_write(written);
        assert(self.backend().may_write(op, answer));
        result
    }

    /// Has the backend encrypt itself under a passphrase and hands on the
    /// cipher it answers with.
    pub fn apply_encryption(&self, passphrase: SafePassword) -> (result: Result<
        T::Cipher,
        WalletStorageError,
    >)
        ensures
            self.backend().may_apply_encryption(passphrase, result),
    {
        self.db.apply_encryption(passphrase)
    }

    /// Has the backend remove its encryption.
    pub fn remove_encryption(&self) -> (result: Result<(), WalletStorageError>)
        ensures
            self.backend().may_remove_encryption(result),
    {
        self.db.remove_encryption()
    }

    /// Stores a value under a key of the client's choice.
    pub fn set_client_key_value(&self, key: String, value: String) -> (result: Result<
        (),
        WalletStorageError,
    >)
        ensures
            exists|written: Fetched| #[trigger]
                self.backend().may_write(
                    WriteOperation::Insert(DbKeyValuePair::ClientKeyValue(key, value)),
                    written,
                ) && spec_written(written, result),
    {
        let ghost op = WriteOperation::Insert(DbKeyValuePair::ClientKeyValue(key, value));
        let written = self.db.write(
            WriteOperation::Insert(DbKeyValuePair::ClientKeyValue(key, value)),
        );
        let ghost answer = written;
        let result = interpret_write(written);
        assert(self.backend().may_write(op, answer));
        result
    }

    /// The value under a key of the client's choice, if there is one.
    pub fn get_client_key_value(&self, key: String) -> (result: Result<
        Option<String>,
        WalletStorageError,
    >)
        ensures
            exists|fetched: Fetched| #[trigger]
                self.backend().may_fetch(DbKey::ClientKey(key), fetched) && spec_client_key_value(
                    DbKey::ClientKey(key),
                    fetched,
                    result,
                ),
    {
        let fetched = self.db.fetch(&DbKey::ClientKey(key.clone()));
        let ghost answer = fetched;
        let result = interpret_client_key_value(DbKey::ClientKey(key), fetched);
        assert(self.backend().may_fetch(DbKey::ClientKey(key), answer));
        result
    }

    /// The value under a key of the client's choice, converted from its text.
    pub fn get_client_key_from_str<V>(&self, key: String) -> (result: Result<
        Option<V>,
        WalletStorageError,
    >) where V: std::str::FromStr, V::Err: ToString
        ensures
            exists|fetched: Fetched| #[trigger]
                self.backend().may_fetch(DbKey::ClientKey(key), fetched) && match fetched {
                    Ok(None) => result == Ok::<Option<V>, WalletStorageError>(None),
                    Ok(Some(DbValue::ClientValue(_))) => exists|converted: Result<V, String>| #[trigger]
                        spec_converted(converted, result),
                    Ok(Some(other)) => spec_is_unexpected(result, DbKey::ClientKey(key), other),
                    Err(error) => result == Err::<Option<V>, WalletStorageError>(error),
                },
    {
        let fetched = self.db.fetch(&DbKey::ClientKey(key.clone()));
        let ghost answer = fetched;
        let value = interpret_client_key_value(DbKey::ClientKey(key), fetched);
        assert(self.backend().may_fetch(DbKey::ClientKey(key), answer));
        match value {
            Ok(Some(c)) => {
                let converted = parse_from_str::<V>(c.as_str());
                interpret_converted(converted)
            },
            Ok(None) => Ok(None),
            Err(error) => Err(error),
        }
    }

    /// Removes the value under a key of the client's choice and says whether
    /// there was one.
    pub fn clear_client_value(&self, key: String) -> (result: Result<bool, WalletStorageError>)
        ensures
            exists|written: Fetched| #[trigger]
                self.backend().may_write(WriteOperation::Remove(DbKey::ClientKey(key)), written)
                    && spec_cleared_client_value(DbKey::ClientKey(key), written, result),
    {
        let written = self.db.write(WriteOperation::Remove(DbKey::ClientKey(key.clone())));
        let ghost answer = written;
        let result = interpret_cleared_client_value(DbKey::ClientKey(key), written);
        assert(self.backend().may_write(WriteOperation::Remove(DbKey::ClientKey(key)), answer));
        result
    }

    /// The birthday of the wallet. It must be stored.
    pub fn get_wallet_birthday(&self) -> (result: Result<u16, WalletStorageError>)
        ensures
            exists|fetched: Fetched| #[trigger]
                self.backend().may_fetch(DbKey::WalletBirthday, fetched) && spec_wallet_birthday(
                    fetched,
                    result,
                ),
    {
        let fetched = self.db.fetch(&DbKey::WalletBirthday);
        let ghost answer = fetched;
        let result = interpret_wallet_birthday(fetched);
        assert(self.backend().may_fetch(DbKey::WalletBirthday, answer));
        result
    }

    /// The blocks that have been scanned, as the backend gives them.
    pub fn get_scanned_blocks(&self) -> (result: Result<Vec<ScannedBlock>, WalletStorageError>)
        ensures
            self.backend().may_get_scanned_blocks(result),
    {
        self.db.get_scanned_blocks()
    }

    /// Records a scanned block.
    pub fn save_scanned_block(&self, scanned_block: ScannedBlock) -> (result: Result<
        (),
        WalletStorageError,
    >)
        ensures
            self.backend().may_save_scanned_block(scanned_block, result),
    {
        self.db.save_scanned_block(scanned_block)
    }

    /// Forgets every scanned block.
    pub fn clear_scanned_blocks(&self) -> (result: Result<(), WalletStorageError>)
        ensures
            self.backend().may_clear_scanned_blocks(result),
    {
        self.db.clear_scanned_blocks()
    }

    /// Forgets the scanned blocks at a height and above.
    pub fn clear_scanned_blocks_from_and_higher(&self, height: u64) -> (result: Result<
        (),
        WalletStorageError,
    >)
        ensures
            self.backend().may_clear_scanned_blocks_from_and_higher(height, result),
    {
        self.db.clear_scanned_blocks_from_and_higher(height)
    }

    /// Forgets the scanned blocks below a height, with or without those in
    /// which outputs were recovered.
    pub fn clear_scanned_blocks_before_height(&self, height: u64, exclude_recovered: bool) -> (result:
        Result<(), WalletStorageError>)
        ensures
            self.backend().may_clear_scanned_blocks_before_height(
                height,
                exclude_recovered,
                result,
            ),
    {
        self.db.clear_scanned_blocks_before_height(height, exclude_recovered)
    }
}

} // verus!
