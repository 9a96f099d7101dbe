use sol_kit::SolError;
use sol_kit::wallet::SolKeyPair;
use solana_sdk::signer::Signer;

#[test]
fn generate_yields_64_bytes() {
    let k = SolKeyPair::generate();
    assert_eq!(k.to_bytes().len(), 64);
    assert_eq!(k.get_pubkey().to_bytes().len(), 32);
}

#[test]
fn key_round_trip_preserves_public_address() {
    let k = SolKeyPair::generate();
    let persisted = k.to_bytes();
    let reloaded = SolKeyPair::from_bytes(persisted).unwrap();
    assert!(k.get_pubkey() == reloaded.get_pubkey());
}

#[test]
fn pubkey_matches_ledger_sdk() {
    let sdk = solana_sdk::signer::keypair::Keypair::new();
    let k = SolKeyPair::from_bytes(sdk.to_bytes().to_vec()).unwrap();
    assert_eq!(k.get_pubkey().to_bytes(), sdk.pubkey().to_bytes().to_vec());
}

#[test]
fn from_bytes_rejects_wrong_length() {
    assert!(matches!(SolKeyPair::from_bytes(vec![1u8; 63]), Err(SolError::KeyMaterialError)));
    assert!(matches!(SolKeyPair::from_bytes(vec![1u8; 65]), Err(SolError::KeyMaterialError)));
    assert!(matches!(SolKeyPair::from_bytes(vec![]), Err(SolError::KeyMaterialError)));
}

#[test]
fn from_bytes_rejects_mismatched_public_half() {
    let k = SolKeyPair::generate();
    let mut bytes = k.to_bytes();
    bytes[40] ^= 0x55;
    assert!(matches!(SolKeyPair::from_bytes(bytes), Err(SolError::KeyMaterialError)));
}

#[test]
fn signature_verifies_with_ledger_sdk() {
    let k = SolKeyPair::generate();
    let message = b"a message to sign".to_vec();
    let sig_bytes = k.sign(&message);
    assert_eq!(sig_bytes.len(), 64);
    let sig = solana_sdk::signature::Signature::try_from(sig_bytes.as_slice()).unwrap();
    assert!(sig.verify(&k.get_pubkey().to_bytes(), &message));
    assert!(!sig.verify(&k.get_pubkey().to_bytes(), b"another message"));
}

#[test]
fn signing_is_deterministic() {
    let k = SolKeyPair::generate();
    let message = vec![9u8, 8, 7];
    assert_eq!(k.sign(&message), k.sign(&message));
}

#[test]
fn secret_key_exposes_the_64_bytes() {
    let k = SolKeyPair::generate();
    assert_eq!(k.get_secret_key().to_bytes(), k.to_bytes());
}
