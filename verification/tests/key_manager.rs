use aes_gcm::aead::Aead;
use aes_gcm::Aes256Gcm;
use aes_gcm::KeyInit;
use blake2::Blake2b;
use digest::consts::U32;
use digest::Digest;
use tari_base_layer::key_manager::derive_key;
use tari_base_layer::key_manager::CipherKey;
use tari_base_layer::key_manager::CipherSeed;
use tari_base_layer::key_manager::KeyManager;
use tari_base_layer::key_manager::KeyManagerError;
use tari_base_layer::key_manager::KeyManagerInner;
use tari_base_layer::key_manager::KEY_MANAGER_MAX_SEARCH_DEPTH;
use tari_base_layer::mnemonic::seed_words;
use tari_base_layer::mnemonic::MnemonicError;
use tari_base_layer::mnemonic::MnemonicLanguage;
use tari_base_layer::types::PrivateKey;
use tari_crypto::keys::SecretKey;
use tari_crypto::ristretto::RistrettoSecretKey;
use tari_utilities::ByteArray;

fn seed_of(entropy: &[u8]) -> CipherSeed {
    CipherSeed::new(17, entropy.to_vec())
}

fn manager_with_spend() -> KeyManagerInner {
    let mut manager = KeyManagerInner::new(seed_of(&[7u8; 16]));
    manager.add_new_branch("spend".to_string()).unwrap();
    manager
}

fn cipher_key() -> CipherKey {
    CipherKey { key: [3u8; 32] }
}

#[test]
fn key_manager_derives_the_same_key_every_time() {
    let manager = manager_with_spend();
    let first = manager.get_key_at_index("spend".to_string(), 5).unwrap();
    let second = manager.get_key_at_index("spend".to_string(), 5).unwrap();
    assert_eq!(first, second);
    assert_eq!(first, derive_key(&[7u8; 16], "spend", 5));
    assert_ne!(first, manager.get_key_at_index("spend".to_string(), 6).unwrap());

    let other = KeyManagerInner::new(seed_of(&[8u8; 16]));
    assert_ne!(first, derive_key(&[8u8; 16], "spend", 5));
    assert_eq!(
        other.get_key_at_index("spend".to_string(), 5),
        Err(KeyManagerError::UnknownKeyBranch)
    );
}

#[test]
fn key_manager_key_is_the_reduced_digest_of_seed_branch_and_index() {
    let entropy = [7u8; 16];
    let tag = "com.tari.base_layer.key_manager.v1.derive_key";
    let mut hasher = Blake2b::<U32>::new();
    hasher.update((tag.len() as u64).to_le_bytes());
    hasher.update(tag.as_bytes());
    hasher.update(16u64.to_le_bytes());
    hasher.update(entropy);
    hasher.update(5u64.to_le_bytes());
    hasher.update("spend".as_bytes());
    hasher.update(9u64.to_le_bytes());
    let digest: [u8; 32] = hasher.finalize().into();
    let mut wide = [0u8; 64];
    wide[..32].copy_from_slice(&digest);
    let expected = RistrettoSecretKey::from_uniform_bytes(&wide).unwrap();
    assert_eq!(derive_key(&entropy, "spend", 9).as_bytes().as_slice(), expected.as_bytes());
}

#[test]
fn key_manager_next_keys_have_consecutive_indices() {
    let mut manager = manager_with_spend();
    let first = manager.get_next_key("spend".to_string()).unwrap();
    let second = manager.get_next_key("spend".to_string()).unwrap();
    let third = manager.get_next_key("spend".to_string()).unwrap();
    assert_eq!(first, derive_key(&[7u8; 16], "spend", 0));
    assert_eq!(second, derive_key(&[7u8; 16], "spend", 1));
    assert_eq!(third, derive_key(&[7u8; 16], "spend", 2));
    assert_eq!(manager.find_key_index("spend".to_string(), first), Ok(0));
    assert_eq!(manager.find_key_index("spend".to_string(), second), Ok(1));
    assert_eq!(manager.find_key_index("spend".to_string(), third), Ok(2));
    let found_first = manager.find_key_index("spend".to_string(), first).unwrap();
    let found_second = manager.find_key_index("spend".to_string(), second).unwrap();
    assert_eq!(found_second - found_first, 1);
}

#[test]
fn key_manager_search_is_bounded() {
    let manager = manager_with_spend();
    let key = manager.get_key_at_index("spend".to_string(), 40).unwrap();
    assert_eq!(
        manager.find_key_index_within("spend".to_string(), key, 40),
        Err(KeyManagerError::KeyNotFoundInKeyChain)
    );
    assert_eq!(manager.find_key_index_within("spend".to_string(), key, 41), Ok(40));
    assert_eq!(
        manager.find_key_index_within("spend".to_string(), key, 0),
        Err(KeyManagerError::KeyNotFoundInKeyChain)
    );
    assert_eq!(
        manager.find_key_index_within("other".to_string(), key, 41),
        Err(KeyManagerError::UnknownKeyBranch)
    );
    assert_eq!(
        manager.find_key_index("other".to_string(), key),
        Err(KeyManagerError::UnknownKeyBranch)
    );
    let stranger = derive_key(&[9u8; 16], "spend", 0);
    assert_eq!(
        manager.find_key_index_within("spend".to_string(), stranger, 1000),
        Err(KeyManagerError::KeyNotFoundInKeyChain)
    );
    assert_eq!(KEY_MANAGER_MAX_SEARCH_DEPTH, 1_000_000);
}

#[test]
fn key_manager_index_only_moves_up() {
    let mut manager = manager_with_spend();
    manager
        .update_current_key_index_if_higher("spend".to_string(), 5)
        .unwrap();
    manager
        .update_current_key_index_if_higher("spend".to_string(), 3)
        .unwrap();
    assert_eq!(
        manager.get_next_key("spend".to_string()).unwrap(),
        derive_key(&[7u8; 16], "spend", 5)
    );
    manager
        .update_current_key_index_if_higher("spend".to_string(), 6)
        .unwrap();
    assert_eq!(
        manager.get_next_key("spend".to_string()).unwrap(),
        derive_key(&[7u8; 16], "spend", 6)
    );
    manager
        .update_current_key_index_if_higher("spend".to_string(), 9)
        .unwrap();
    assert_eq!(
        manager.get_next_key("spend".to_string()).unwrap(),
        derive_key(&[7u8; 16], "spend", 9)
    );
    assert_eq!(
        manager.update_current_key_index_if_higher("other".to_string(), 1),
        Err(KeyManagerError::UnknownKeyBranch)
    );
}

#[test]
fn key_manager_last_index_is_not_handed_out_twice() {
    let mut manager = manager_with_spend();
    manager
        .update_current_key_index_if_higher("spend".to_string(), u64::MAX - 1)
        .unwrap();
    assert_eq!(
        manager.get_next_key("spend".to_string()).unwrap(),
        derive_key(&[7u8; 16], "spend", u64::MAX - 1)
    );
    assert_eq!(
        manager.get_next_key("spend".to_string()),
        Err(KeyManagerError::IndexExhausted)
    );
    assert_eq!(
        manager.get_next_key("spend".to_string()),
        Err(KeyManagerError::IndexExhausted)
    );
}

#[test]
fn key_manager_branches_are_added_once_and_apart() {
    let mut manager = manager_with_spend();
    assert_eq!(
        manager.get_next_key("comms".to_string()),
        Err(KeyManagerError::UnknownKeyBranch)
    );
    manager.get_next_key("spend".to_string()).unwrap();
    manager.get_next_key("spend".to_string()).unwrap();

    // Adding a branch again does not start it over.
    manager.add_new_branch("spend".to_string()).unwrap();
    assert_eq!(
        manager.get_next_key("spend".to_string()).unwrap(),
        derive_key(&[7u8; 16], "spend", 2)
    );

    manager
        .add_new_branches(vec!["comms".to_string(), "spend".to_string(), "script".to_string()])
        .unwrap();
    assert_eq!(
        manager.get_next_key("comms".to_string()).unwrap(),
        derive_key(&[7u8; 16], "comms", 0)
    );
    assert_eq!(
        manager.get_next_key("script".to_string()).unwrap(),
        derive_key(&[7u8; 16], "script", 0)
    );
    assert_eq!(
        manager.get_next_key("spend".to_string()).unwrap(),
        derive_key(&[7u8; 16], "spend", 3)
    );
    assert_ne!(
        derive_key(&[7u8; 16], "comms", 0),
        derive_key(&[7u8; 16], "script", 0)
    );
}

#[test]
fn key_manager_encryption_is_applied_and_removed_once() {
    let mut manager = manager_with_spend();
    assert!(!manager.is_encrypted());
    assert_eq!(manager.remove_encryption(), Err(KeyManagerError::NotEncrypted));
    assert_eq!(manager.apply_encryption(cipher_key()), Ok(()));
    assert!(manager.is_encrypted());
    assert_eq!(
        manager.apply_encryption(cipher_key()),
        Err(KeyManagerError::AlreadyEncrypted)
    );
    assert_eq!(
        manager.apply_encryption(CipherKey { key: [4u8; 32] }),
        Err(KeyManagerError::AlreadyEncrypted)
    );
    assert!(manager.is_encrypted());
    assert_eq!(manager.remove_encryption(), Ok(()));
    assert!(!manager.is_encrypted());
    assert_eq!(manager.remove_encryption(), Err(KeyManagerError::NotEncrypted));
    assert_eq!(manager.apply_encryption(cipher_key()), Ok(()));
}

#[test]
fn key_manager_keys_do_not_depend_on_encryption() {
    let mut manager = KeyManagerInner::new(seed_of(&[21u8; 16]));
    manager.add_new_branch("spend".to_string()).unwrap();
    let keys: Vec<PrivateKey> = (0..3)
        .map(|_| manager.get_next_key("spend".to_string()).unwrap())
        .collect();
    for (index, key) in keys.iter().enumerate() {
        assert_eq!(
            manager.get_key_at_index("spend".to_string(), index as u64).as_ref(),
            Ok(key)
        );
    }
    let before = manager.get_key_at_index("spend".to_string(), 1).unwrap();

    manager.apply_encryption(cipher_key()).unwrap();
    assert_eq!(manager.get_key_at_index("spend".to_string(), 1), Ok(before));
    assert_eq!(manager.find_key_index("spend".to_string(), keys[2]), Ok(2));
    assert_eq!(
        manager.get_next_key("spend".to_string()).unwrap(),
        derive_key(&[21u8; 16], "spend", 3)
    );

    // A branch added while encrypted gives the keys it would give in the clear.
    manager.add_new_branch("comms".to_string()).unwrap();
    assert_eq!(
        manager.get_next_key("comms".to_string()).unwrap(),
        derive_key(&[21u8; 16], "comms", 0)
    );
    assert_eq!(
        manager
            .get_seed_words("comms".to_string(), &MnemonicLanguage::English)
            .unwrap(),
        seed_words(MnemonicLanguage::English, &[21u8; 16]).unwrap()
    );

    manager.remove_encryption().unwrap();
    assert_eq!(manager.get_key_at_index("spend".to_string(), 1), Ok(before));
    assert_eq!(
        manager.get_next_key("spend".to_string()).unwrap(),
        derive_key(&[21u8; 16], "spend", 4)
    );
    assert_eq!(
        manager.get_next_key("comms".to_string()).unwrap(),
        derive_key(&[21u8; 16], "comms", 1)
    );
}

#[test]
fn key_manager_seed_words_render_the_seed() {
    let manager = {
        let mut manager = KeyManagerInner::new(seed_of(&[0u8; 16]));
        manager.add_new_branch("spend".to_string()).unwrap();
        manager
    };
    let words = manager
        .get_seed_words("spend".to_string(), &MnemonicLanguage::English)
        .unwrap();
    assert_eq!(
        words.join(" "),
        "abandon abandon abandon abandon abandon abandon abandon abandon abandon abandon abandon about"
    );
    assert_eq!(
        manager.get_seed_words("other".to_string(), &MnemonicLanguage::English),
        Err(KeyManagerError::UnknownKeyBranch)
    );

    let spanish = manager
        .get_seed_words("spend".to_string(), &MnemonicLanguage::Spanish)
        .unwrap();
    assert_eq!(spanish.len(), 12);
    assert_ne!(spanish, words);
}

#[test]
fn key_manager_seed_words_need_a_seed_of_the_right_length() {
    for length in [0usize, 1, 15, 17, 18, 33, 36, 64] {
        let mut manager = KeyManagerInner::new(seed_of(&vec![1u8; length]));
        manager.add_new_branch("spend".to_string()).unwrap();
        assert_eq!(
            manager.get_seed_words("spend".to_string(), &MnemonicLanguage::English),
            Err(KeyManagerError::MnemonicError(MnemonicError::InvalidSeedLength(length)))
        );
        assert_eq!(
            seed_words(MnemonicLanguage::French, &vec![1u8; length]),
            Err(MnemonicError::InvalidSeedLength(length))
        );
        // Keys do not care.
        assert!(manager.get_next_key("spend".to_string()).is_ok());
    }
    for (length, count) in [(16usize, 12usize), (20, 15), (24, 18), (28, 21), (32, 24)] {
        for language in [
            MnemonicLanguage::ChineseSimplified,
            MnemonicLanguage::English,
            MnemonicLanguage::French,
            MnemonicLanguage::Italian,
            MnemonicLanguage::Japanese,
            MnemonicLanguage::Korean,
            MnemonicLanguage::Spanish,
        ] {
            assert_eq!(seed_words(language, &vec![5u8; length]).unwrap().len(), count);
        }
    }
    let all_ones = seed_words(MnemonicLanguage::English, &[0xffu8; 32]).unwrap();
    assert_eq!(all_ones[0], "zoo");
    assert_eq!(all_ones[23], "vote");
}

#[test]
fn cipher_seed_keeps_what_it_is_given() {
    let seed = CipherSeed::new(99, vec![1, 2, 3]);
    assert_eq!(seed.birthday, 99);
    assert_eq!(seed.entropy, vec![1, 2, 3]);
    assert_eq!(seed.clone_seed(), seed);
    let random = CipherSeed::random(5);
    assert_eq!(random.birthday, 5);
    assert_eq!(random.entropy.len(), 16);
    assert_ne!(random.entropy, CipherSeed::random(5).entropy);
}

#[test]
fn branch_hands_out_keys_from_its_index_on() {
    let mut branch = KeyManager::from(seed_of(&[7u8; 16]), "spend".to_string(), 3);
    assert_eq!(branch.branch_seed(), "spend");
    assert_eq!(branch.key_index(), 3);
    assert_eq!(branch.get_next_key(), Ok(derive_key(&[7u8; 16], "spend", 3)));
    assert_eq!(branch.get_next_key(), Ok(derive_key(&[7u8; 16], "spend", 4)));
    assert_eq!(branch.key_index(), 5);
    assert_eq!(branch.get_key_at_index(0), derive_key(&[7u8; 16], "spend", 0));
    assert_eq!(branch.key_index(), 5);
    assert_eq!(branch.cipher_seed(), seed_of(&[7u8; 16]));

    branch.update_current_key_index_if_higher(4);
    assert_eq!(branch.key_index(), 5);
    branch.update_current_key_index_if_higher(5);
    assert_eq!(branch.key_index(), 5);
    branch.update_current_key_index_if_higher(u64::MAX);
    assert_eq!(branch.key_index(), u64::MAX);
    assert_eq!(branch.get_next_key(), Err(KeyManagerError::IndexExhausted));
    assert_eq!(branch.key_index(), u64::MAX);
}

#[test]
fn branch_finds_the_first_index_of_a_key() {
    let branch = KeyManager::from(seed_of(&[7u8; 16]), "spend".to_string(), 0);
    let key = branch.get_key_at_index(12);
    assert_eq!(branch.find_key_index(&key), Ok(12));
    assert_eq!(branch.find_key_index_within(&key, 13), Ok(12));
    assert_eq!(
        branch.find_key_index_within(&key, 12),
        Err(KeyManagerError::KeyNotFoundInKeyChain)
    );
    let other = KeyManager::from(seed_of(&[7u8; 16]), "comms".to_string(), 0);
    assert_eq!(
        other.find_key_index_within(&key, 100),
        Err(KeyManagerError::KeyNotFoundInKeyChain)
    );
}

#[test]
fn branch_keeps_its_keys_and_words_when_encrypted() {
    let mut branch = KeyManager::from(seed_of(&[9u8; 32]), "spend".to_string(), 0);
    let key = branch.get_key_at_index(2);
    let words = branch.get_seed_words(&MnemonicLanguage::Korean).unwrap();
    assert_eq!(words.len(), 24);
    assert!(!branch.is_encrypted());
    assert_eq!(branch.remove_encryption(), Err(KeyManagerError::NotEncrypted));

    assert_eq!(branch.apply_encryption(cipher_key()), Ok(()));
    assert!(branch.is_encrypted());
    assert_eq!(
        branch.apply_encryption(cipher_key()),
        Err(KeyManagerError::AlreadyEncrypted)
    );
    assert_eq!(branch.get_key_at_index(2), key);
    assert_eq!(branch.get_seed_words(&MnemonicLanguage::Korean), Ok(words));
    assert_eq!(branch.cipher_seed(), seed_of(&[9u8; 32]));
    assert_eq!(branch.get_next_key(), Ok(derive_key(&[9u8; 32], "spend", 0)));

    assert_eq!(branch.remove_encryption(), Ok(()));
    assert!(!branch.is_encrypted());
    assert_eq!(branch.get_key_at_index(2), key);
    assert_eq!(branch.key_index(), 1);
}

#[test]
fn key_manager_gives_copies_of_its_branches() {
    let mut manager = manager_with_spend();
    manager.get_next_key("spend".to_string()).unwrap();
    let mut copy = manager.get_branch("spend".to_string()).unwrap();
    assert_eq!(copy.branch_seed(), "spend");
    assert_eq!(copy.key_index(), 1);
    assert_eq!(copy.get_next_key(), Ok(derive_key(&[7u8; 16], "spend", 1)));
    assert_eq!(copy.key_index(), 2);
    // The branch itself has not moved.
    assert_eq!(
        manager.get_next_key("spend".to_string()),
        Ok(derive_key(&[7u8; 16], "spend", 1))
    );
    assert_eq!(
        manager.get_branch("other".to_string()).err(),
        Some(KeyManagerError::UnknownKeyBranch)
    );

    manager.apply_encryption(cipher_key()).unwrap();
    let sealed = manager.get_branch("spend".to_string()).unwrap();
    assert!(sealed.is_encrypted());
    assert_eq!(sealed.get_key_at_index(0), derive_key(&[7u8; 16], "spend", 0));
    let twin = sealed.duplicate();
    assert_eq!(twin.key_index(), sealed.key_index());
    assert_eq!(twin.cipher_seed(), sealed.cipher_seed());
}

fn open_sealed(key: [u8; 32], sealed: &([u8; 12], Vec<u8>)) -> Option<Vec<u8>> {
    Aes256Gcm::new(&key.into())
        .decrypt(&sealed.0.into(), sealed.1.as_slice())
        .ok()
}

#[test]
fn key_manager_seals_the_seed_under_the_cipher_it_is_given() {
    let mut manager = manager_with_spend();
    assert_eq!(manager.sealed_seed(), None);
    assert_eq!(manager.get_branch("spend".to_string()).unwrap().sealed_seed(), None);

    assert_eq!(manager.apply_encryption(cipher_key()), Ok(()));
    let master = manager.sealed_seed().unwrap();
    assert_eq!(open_sealed([3u8; 32], &master), Some(vec![7u8; 16]));
    assert_eq!(open_sealed([0u8; 32], &master), None);
    assert_eq!(open_sealed([4u8; 32], &master), None);
    assert_ne!(master.1, vec![7u8; 16]);
    let branch = manager.get_branch("spend".to_string()).unwrap().sealed_seed().unwrap();
    assert_eq!(open_sealed([3u8; 32], &branch), Some(vec![7u8; 16]));
    assert_eq!(open_sealed([0u8; 32], &branch), None);

    // A second cipher is refused and what is held stays as it was.
    assert_eq!(
        manager.apply_encryption(CipherKey { key: [4u8; 32] }),
        Err(KeyManagerError::AlreadyEncrypted)
    );
    assert_eq!(manager.sealed_seed(), Some(master.clone()));
    assert_eq!(
        manager.get_branch("spend".to_string()).unwrap().sealed_seed(),
        Some(branch)
    );

    // A branch added while encrypted is sealed under the same cipher.
    manager.add_new_branch("script".to_string()).unwrap();
    let added = manager.get_branch("script".to_string()).unwrap();
    assert!(added.is_encrypted());
    assert_eq!(open_sealed([3u8; 32], &added.sealed_seed().unwrap()), Some(vec![7u8; 16]));
    assert_eq!(
        manager.get_key_at_index("script".to_string(), 2).unwrap(),
        derive_key(&[7u8; 16], "script", 2)
    );

    assert_eq!(manager.remove_encryption(), Ok(()));
    assert_eq!(manager.sealed_seed(), None);
    assert_eq!(manager.get_branch("script".to_string()).unwrap().sealed_seed(), None);
    assert_eq!(manager.get_branch("spend".to_string()).unwrap().sealed_seed(), None);

    // Another cipher may follow once the first is removed.
    assert_eq!(manager.apply_encryption(CipherKey { key: [4u8; 32] }), Ok(()));
    let again = manager.sealed_seed().unwrap();
    assert_eq!(open_sealed([4u8; 32], &again), Some(vec![7u8; 16]));
    assert_eq!(open_sealed([3u8; 32], &again), None);
}

#[test]
fn key_manager_branch_seals_its_seed_under_the_cipher_it_is_given() {
    let mut branch = KeyManager::from(seed_of(&[9u8; 32]), "comms".to_string(), 3);
    assert_eq!(branch.sealed_seed(), None);
    assert_eq!(branch.apply_encryption(CipherKey { key: [5u8; 32] }), Ok(()));
    let sealed = branch.sealed_seed().unwrap();
    assert_eq!(sealed.1.len(), 32 + 16);
    assert_eq!(open_sealed([5u8; 32], &sealed), Some(vec![9u8; 32]));
    assert_eq!(open_sealed([0u8; 32], &sealed), None);
    assert_eq!(
        branch.apply_encryption(CipherKey { key: [6u8; 32] }),
        Err(KeyManagerError::AlreadyEncrypted)
    );
    assert_eq!(branch.sealed_seed(), Some(sealed));
    assert_eq!(branch.key_index(), 3);
    assert_eq!(branch.get_key_at_index(3), derive_key(&[9u8; 32], "comms", 3));
    assert_eq!(branch.remove_encryption(), Ok(()));
    assert_eq!(branch.sealed_seed(), None);
    assert_eq!(branch.cipher_seed().entropy, vec![9u8; 32]);
}
