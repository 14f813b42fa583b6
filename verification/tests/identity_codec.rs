use gateway_bootstrap::errors::HandshakeError;
use gateway_bootstrap::identity::decode;
use gateway_bootstrap::keys::copy_bytes;
use gateway_bootstrap::keys::IdentityKeyPair;
use gateway_bootstrap::keys::SharedKey;

#[test]
fn decode_is_deterministic_on_success() {
    let identity = bs58::encode([7u8; 32]).into_string();
    let first = decode(&identity).expect("a 32-byte key must decode");
    let second = decode(&identity).expect("a 32-byte key must decode");
    assert_eq!(first.as_bytes(), second.as_bytes());
    assert_eq!(first.as_bytes().as_slice(), &[7u8; 32]);
}

#[test]
fn decode_is_deterministic_on_failure() {
    let first = decode("not-base58");
    let second = decode("not-base58");
    assert!(matches!(first, Err(HandshakeError::InvalidIdentity)));
    assert!(matches!(second, Err(HandshakeError::InvalidIdentity)));
}

#[test]
fn decode_rejects_well_formed_base58_of_the_wrong_size() {
    let short = bs58::encode([3u8; 16]).into_string();
    assert!(matches!(decode(&short), Err(HandshakeError::InvalidIdentity)));
}

#[test]
fn decode_rejects_the_empty_string() {
    assert!(matches!(decode(""), Err(HandshakeError::InvalidIdentity)));
}

#[test]
fn shared_key_encodes_to_base58() {
    // two zero bytes are the two-digit base-58 string "11"
    let key = SharedKey::from_bytes(vec![0u8, 0u8]);
    assert_eq!(key.to_base58_string(), "11");

    let key = SharedKey::from_bytes(b"arbitrary key material".to_vec());
    assert_eq!(
        key.to_base58_string(),
        bs58::encode(b"arbitrary key material").into_string()
    );
}

#[test]
fn shared_key_keeps_its_bytes() {
    let key = SharedKey::from_bytes(vec![1, 2, 3]);
    assert_eq!(key.as_bytes().as_slice(), &[1, 2, 3]);
}

#[test]
fn copy_bytes_copies_exactly() {
    let source = vec![9u8, 8, 7, 6];
    let copy = copy_bytes(&source);
    assert_eq!(copy, source);
}

#[test]
fn identity_keypair_is_never_mutated() {
    let pair = IdentityKeyPair::from_bytes(vec![1, 2], vec![3, 4]);
    assert_eq!(pair.public_bytes().as_slice(), &[1, 2]);
    assert_eq!(pair.private_bytes().as_slice(), &[3, 4]);
}
