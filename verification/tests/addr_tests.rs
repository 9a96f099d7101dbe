use sol_kit::SolError;
use sol_kit::addr::{
    SolPublicKey, ata_program_id, rent_sysvar_id, spl_token_program_id, system_program_id,
};

#[test]
fn from_bytes_accepts_exactly_32() {
    let a = SolPublicKey::from_bytes(vec![7u8; 32]).unwrap();
    assert_eq!(a.to_bytes(), vec![7u8; 32]);
    assert!(matches!(SolPublicKey::from_bytes(vec![7u8; 31]), Err(SolError::InvalidInput)));
    assert!(matches!(SolPublicKey::from_bytes(vec![7u8; 33]), Err(SolError::InvalidInput)));
    assert!(matches!(SolPublicKey::from_bytes(vec![]), Err(SolError::InvalidInput)));
}

#[test]
fn equality_is_byte_equality() {
    let a = SolPublicKey::from_bytes(vec![1u8; 32]).unwrap();
    let b = SolPublicKey::from_bytes(vec![1u8; 32]).unwrap();
    let mut cv = vec![1u8; 32];
    cv[31] = 2;
    let c = SolPublicKey::from_bytes(cv).unwrap();
    assert!(a == b);
    assert!(a.same_address(&b));
    assert!(a != c);
    assert!(!a.same_address(&c));
    assert!(a == a.duplicate());
}

#[test]
fn parse_system_program_text() {
    let a = SolPublicKey::parse_address("11111111111111111111111111111111").unwrap();
    assert_eq!(a.to_bytes(), vec![0u8; 32]);
}

#[test]
fn parse_rejects_bad_text() {
    assert!(matches!(SolPublicKey::parse_address("IIII"), Err(SolError::InvalidInput)));
    assert!(matches!(SolPublicKey::parse_address(""), Err(SolError::InvalidInput)));
    assert!(matches!(SolPublicKey::parse_address("abc"), Err(SolError::InvalidInput)));
}

#[test]
fn text_round_trip() {
    let a = SolPublicKey::from_bytes((0u8..32).collect()).unwrap();
    let text = a.to_text();
    let b = SolPublicKey::parse_address(&text).unwrap();
    assert!(a == b);
}

#[test]
fn program_ids_match_ledger_sdk() {
    assert_eq!(system_program_id().to_bytes(), solana_program::system_program::ID.to_bytes().to_vec());
    assert_eq!(spl_token_program_id().to_bytes(), spl_token::ID.to_bytes().to_vec());
    assert_eq!(ata_program_id().to_bytes(), spl_associated_token_account::ID.to_bytes().to_vec());
    assert_eq!(rent_sysvar_id().to_bytes(), solana_program::sysvar::rent::ID.to_bytes().to_vec());
}
