use tari_base_layer::bytes::compare_bytes;
use tari_base_layer::bytes::Lexicographic;
use tari_base_layer::consensus::check_consensus_encoding_correctness;
use tari_base_layer::consensus::ByteReader;
use tari_base_layer::consensus::ConsensusDecoding;
use tari_base_layer::consensus::ConsensusEncoding;
use tari_base_layer::consensus::ConsensusEncodingSized;
use tari_base_layer::consensus::DecodeError;
use tari_base_layer::tari_amount::MicroTari;
use tari_base_layer::types::Commitment;
use tari_base_layer::types::PrivateKey;
use tari_base_layer::types::PublicKey;
use tari_base_layer::types::Signature;
use tari_crypto::keys::PublicKey as CryptoPublicKey;
use tari_crypto::keys::SecretKey as CryptoSecretKey;
use tari_crypto::ristretto::RistrettoPublicKey;
use tari_crypto::ristretto::RistrettoSecretKey;
use tari_utilities::ByteArray;

fn scalar_of(value: u8) -> PrivateKey {
    let mut bytes = [0u8; 32];
    bytes[0] = value;
    PrivateKey::from_bytes(&bytes).unwrap()
}

/// The canonical encoding of the generator of the group.
const BASEPOINT: [u8; 32] = [
    0xe2, 0xf2, 0xae, 0x0a, 0x6a, 0xbc, 0x4e, 0x71, 0xa8, 0x84, 0xa9, 0x61, 0xc5, 0x00, 0x51, 0x5f,
    0x58, 0xe3, 0x0b, 0x6a, 0xa5, 0x82, 0xdd, 0x8d, 0xb6, 0xa6, 0x59, 0x45, 0xe0, 0x8d, 0x2d, 0x76,
];

/// The group order, little-endian: the least 32 bytes that are no scalar.
const GROUP_ORDER: [u8; 32] = [
    0xed, 0xd3, 0xf5, 0x5c, 0x1a, 0x63, 0x12, 0x58, 0xd6, 0x9c, 0xf7, 0xa2, 0xde, 0xf9, 0xde, 0x14,
    0x00, 0x00, 0x00, 0x00, 0x00, 0x00, 0x00, 0x00, 0x00, 0x00, 0x00, 0x00, 0x00, 0x00, 0x00, 0x10,
];

#[test]
fn private_key_accepts_canonical_scalars_only() {
    assert!(PrivateKey::from_bytes(&[0u8; 32]).is_some());
    assert_eq!(scalar_of(7).as_bytes()[0], 7);
    assert!(PrivateKey::from_bytes(&[0xffu8; 32]).is_none());
    assert!(PrivateKey::from_bytes(&GROUP_ORDER).is_none());
    let mut below = GROUP_ORDER;
    below[0] -= 1;
    assert_eq!(PrivateKey::from_bytes(&below).unwrap().as_bytes(), &below);
}

#[test]
fn public_key_accepts_canonical_points_only() {
    assert_eq!(PublicKey::from_bytes(&BASEPOINT).unwrap().as_bytes(), &BASEPOINT);
    assert!(PublicKey::from_bytes(&[0u8; 32]).is_some());
    assert!(PublicKey::from_bytes(&[0xffu8; 32]).is_none());
    let mut odd = [0u8; 32];
    odd[0] = 1;
    assert!(PublicKey::from_bytes(&odd).is_none());
    assert!(Commitment::from_bytes(&[0xffu8; 32]).is_none());
    assert_eq!(Commitment::from_bytes(&BASEPOINT).unwrap().as_bytes(), &BASEPOINT);
}

#[test]
fn public_key_of_one_is_the_generator() {
    let public = PublicKey::from_secret_key(&scalar_of(1));
    assert_eq!(public.as_bytes(), &BASEPOINT);
    let seven = PublicKey::from_secret_key(&scalar_of(7));
    let expected = RistrettoPublicKey::from_secret_key(&RistrettoSecretKey::from(7u64));
    assert_eq!(seven.as_bytes().as_slice(), expected.as_bytes());
    assert_ne!(seven, public);
}

#[test]
fn private_key_from_uniform_bytes_reduces_modulo_the_group_order() {
    let mut one = [0u8; 64];
    one[0] = 1;
    assert_eq!(PrivateKey::from_uniform_bytes(&one), scalar_of(1));

    let mut order = [0u8; 64];
    order[..32].copy_from_slice(&GROUP_ORDER);
    assert_eq!(PrivateKey::from_uniform_bytes(&order).as_bytes(), &[0u8; 32]);

    let mut order_plus_five = order;
    order_plus_five[0] += 5;
    assert_eq!(PrivateKey::from_uniform_bytes(&order_plus_five), scalar_of(5));

    assert_eq!(PrivateKey::from_digest(&GROUP_ORDER).as_bytes(), &[0u8; 32]);
    let all = [0xffu8; 32];
    let mut wide = [0u8; 64];
    wide[..32].copy_from_slice(&all);
    let expected = RistrettoSecretKey::from_uniform_bytes(&wide).unwrap();
    assert_eq!(PrivateKey::from_digest(&all).as_bytes().as_slice(), expected.as_bytes());
    assert_ne!(PrivateKey::from_digest(&all).as_bytes(), &all);
}

#[test]
fn random_private_keys_are_valid_and_differ() {
    let a = PrivateKey::random();
    let b = PrivateKey::random();
    assert_ne!(a, b);
    assert!(PrivateKey::from_bytes(a.as_bytes()).is_some());
    assert!(RistrettoSecretKey::from_canonical_bytes(b.as_bytes()).is_ok());
}

#[test]
fn signature_signs_and_verifies() {
    let secret = scalar_of(11);
    let nonce = scalar_of(23);
    let public = PublicKey::from_secret_key(&secret);
    let challenge = [5u8; 32];
    let signature = Signature::sign(&secret, &nonce, &challenge);
    assert_eq!(signature.get_public_nonce(), &PublicKey::from_secret_key(&nonce));
    assert!(signature.verify_challenge(&public, &challenge));

    let mut other_challenge = challenge;
    other_challenge[0] ^= 1;
    assert!(!signature.verify_challenge(&public, &other_challenge));
    let other_public = PublicKey::from_secret_key(&scalar_of(12));
    assert!(!signature.verify_challenge(&other_public, &challenge));
    let forged = Signature::new(*signature.get_public_nonce(), scalar_of(1));
    assert!(!forged.verify_challenge(&public, &challenge));
}

#[test]
fn signature_scalar_is_nonce_plus_challenge_times_secret() {
    // With the challenge 2, the secret 11 and the nonce 23: s = 23 + 2 * 11 = 45.
    let mut challenge = [0u8; 32];
    challenge[0] = 2;
    let signature = Signature::sign(&scalar_of(11), &scalar_of(23), &challenge);
    assert_eq!(signature.get_signature(), &scalar_of(45));
}

#[test]
fn signature_bytes_are_nonce_then_scalar() {
    let signature = Signature::sign(&scalar_of(3), &scalar_of(1), &[0u8; 32]);
    let bytes = signature.to_bytes();
    assert_eq!(&bytes[..32], &BASEPOINT);
    assert_eq!(&bytes[32..], scalar_of(1).as_bytes());

    let mut encoded = Vec::new();
    signature.consensus_encode(&mut encoded);
    assert_eq!(encoded, bytes.to_vec());
    let mut reader = ByteReader::new(&encoded);
    assert_eq!(Signature::consensus_decode(&mut reader), Ok(signature));
    assert!(reader.is_finished());
}

#[test]
fn signature_decoding_checks_both_halves() {
    let mut bytes = vec![0xffu8; 32];
    bytes.extend_from_slice(&[0u8; 32]);
    let mut reader = ByteReader::new(&bytes);
    assert_eq!(
        Signature::consensus_decode(&mut reader),
        Err(DecodeError::InvalidPublicKey)
    );
    // The nonce has been read when it is refused; the scalar has not.
    assert_eq!(reader.remaining_len(), 32);

    let mut bytes = BASEPOINT.to_vec();
    bytes.extend_from_slice(&[0xffu8; 32]);
    let mut reader = ByteReader::new(&bytes);
    assert_eq!(
        Signature::consensus_decode(&mut reader),
        Err(DecodeError::InvalidSecretKey)
    );
    assert_eq!(reader.remaining_len(), 0);
    assert_eq!(reader.consumed_len(), 64);

    let mut reader = ByteReader::new(&bytes[..63]);
    assert_eq!(
        Signature::consensus_decode(&mut reader),
        Err(DecodeError::UnexpectedEof)
    );
    assert_eq!(reader.consumed_len(), 32);
    let mut reader = ByteReader::new(&bytes[..31]);
    assert_eq!(
        PublicKey::consensus_decode(&mut reader),
        Err(DecodeError::UnexpectedEof)
    );
    assert_eq!(reader.consumed_len(), 0);
    assert_eq!(
        PrivateKey::consensus_decode(&mut ByteReader::new(&[0xffu8; 32])),
        Err(DecodeError::InvalidSecretKey)
    );
}

#[test]
fn optional_commitment_is_a_tag_and_the_commitment() {
    let commitment = Commitment::from_bytes(&BASEPOINT).unwrap();
    let mut encoded = Vec::new();
    None::<Commitment>.consensus_encode(&mut encoded);
    assert_eq!(encoded, vec![0u8]);
    assert_eq!(None::<Commitment>.consensus_encode_exact_size(), 1);
    let mut reader = ByteReader::new(&encoded);
    assert_eq!(Option::<Commitment>::consensus_decode(&mut reader), Ok(None));
    assert!(reader.is_finished());

    let mut encoded = Vec::new();
    Some(commitment).consensus_encode(&mut encoded);
    assert_eq!(encoded.len(), 33);
    assert_eq!(Some(commitment).consensus_encode_exact_size(), 33);
    assert_eq!(check_consensus_encoding_correctness(Some(commitment)), Ok(Some(commitment)));
    assert_eq!(encoded[0], 1);
    assert_eq!(&encoded[1..], &BASEPOINT);
    let mut reader = ByteReader::new(&encoded);
    assert_eq!(
        Option::<Commitment>::consensus_decode(&mut reader),
        Ok(Some(commitment))
    );
    assert!(reader.is_finished());

    encoded[0] = 2;
    let mut reader = ByteReader::new(&encoded);
    assert_eq!(
        Option::<Commitment>::consensus_decode(&mut reader),
        Err(DecodeError::InvalidOptionTag(2))
    );
    // The tag has been read when it is refused.
    assert_eq!(reader.remaining_len(), 32);

    let mut reader = ByteReader::new(&[1u8, 2, 3]);
    assert_eq!(
        Option::<Commitment>::consensus_decode(&mut reader),
        Err(DecodeError::UnexpectedEof)
    );
    assert_eq!(reader.remaining_len(), 2);

    let mut bad = vec![1u8];
    bad.extend_from_slice(&[0xffu8; 32]);
    let mut reader = ByteReader::new(&bad);
    assert_eq!(
        Option::<Commitment>::consensus_decode(&mut reader),
        Err(DecodeError::InvalidPublicKey)
    );
    assert_eq!(reader.consumed_len(), 33);
}

#[test]
fn every_entity_survives_encoding_and_decoding() {
    let key = scalar_of(9);
    let public = PublicKey::from_secret_key(&key);
    let signature = Signature::sign(&key, &scalar_of(4), &[8u8; 32]);
    assert_eq!(check_consensus_encoding_correctness(key), Ok(key));
    assert_eq!(check_consensus_encoding_correctness(public), Ok(public));
    assert_eq!(
        check_consensus_encoding_correctness(Commitment::from_public_key(public)),
        Ok(Commitment::from_public_key(public))
    );
    assert_eq!(check_consensus_encoding_correctness(signature), Ok(signature));
    assert_eq!(check_consensus_encoding_correctness(u64::MAX), Ok(u64::MAX));
    assert_eq!(check_consensus_encoding_correctness(0x0102u64), Ok(0x0102u64));
    assert_eq!(check_consensus_encoding_correctness(Some(7u64)), Ok(Some(7u64)));
    assert_eq!(check_consensus_encoding_correctness(None::<u64>), Ok(None));
    assert_eq!(
        check_consensus_encoding_correctness(MicroTari::from(100)),
        Ok(MicroTari::from(100))
    );
    assert_eq!(key.consensus_encode_exact_size(), 32);
    assert_eq!(signature.consensus_encode_exact_size(), 64);
    assert_eq!(7u64.consensus_encode_exact_size(), 8);

    let mut encoded = Vec::new();
    0x0102u64.consensus_encode(&mut encoded);
    MicroTari::from(3).consensus_encode(&mut encoded);
    assert_eq!(encoded, vec![2, 1, 0, 0, 0, 0, 0, 0, 3, 0, 0, 0, 0, 0, 0, 0]);
    let mut reader = ByteReader::new(&encoded);
    assert_eq!(u64::consensus_decode(&mut reader), Ok(0x0102));
    assert_eq!(MicroTari::consensus_decode(&mut reader), Ok(MicroTari::from(3)));
    assert_eq!(MicroTari::consensus_decode(&mut reader), Err(DecodeError::UnexpectedEof));
}

#[test]
fn bytes_compare_lexicographically() {
    assert_eq!(compare_bytes(&[1, 2, 3], &[1, 2, 3]), Lexicographic::Equal);
    assert_eq!(compare_bytes(&[1, 2, 3], &[1, 2, 4]), Lexicographic::Less);
    assert_eq!(compare_bytes(&[1, 3], &[1, 2, 4]), Lexicographic::Greater);
    assert_eq!(compare_bytes(&[1, 2], &[1, 2, 0]), Lexicographic::Less);
    assert_eq!(compare_bytes(&[1, 2, 0], &[1, 2]), Lexicographic::Greater);
    assert_eq!(compare_bytes(&[], &[]), Lexicographic::Equal);
    assert_eq!(compare_bytes(&[], &[0]), Lexicographic::Less);
    assert_eq!(compare_bytes(&[255], &[0, 255]), Lexicographic::Greater);
}

#[test]
fn byte_reader_reads_in_order_and_stays_put_on_failure() {
    let bytes = [7u8, 1, 0, 0, 0, 0, 0, 0, 0, 9];
    let mut reader = ByteReader::new(&bytes);
    assert_eq!(reader.remaining_len(), 10);
    assert_eq!(reader.read_u8(), Ok(7));
    assert_eq!(reader.read_u64(), Ok(1));
    assert_eq!(reader.read_u64(), Err(DecodeError::UnexpectedEof));
    assert_eq!(reader.read_array_32(), Err(DecodeError::UnexpectedEof));
    assert_eq!(reader.remaining_len(), 1);
    assert_eq!(reader.read_bytes(1), Ok(&[9u8][..]));
    assert!(reader.is_finished());
    assert_eq!(reader.read_u8(), Err(DecodeError::UnexpectedEof));

    let wide = [0x0807060504030201u64.to_le_bytes(), [0u8; 8]].concat();
    let mut reader = ByteReader::new(&wide);
    assert_eq!(reader.read_u64(), Ok(0x0807060504030201));
}
