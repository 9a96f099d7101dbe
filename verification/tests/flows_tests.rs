use sha2::{Digest, Sha256};
use sol_kit::SolError;
use sol_kit::addr::{SolPublicKey, spl_token_program_id};
use sol_kit::assemble::compute_message;
use sol_kit::derive::derive_associated_address;
use sol_kit::flows::{
    create_mint_transaction, generic_transaction, initialize_account_transaction,
    mint_to_transaction, transfer_sol_transaction, transfer_spl_transaction,
};
use sol_kit::wallet::SolKeyPair;

fn pk(byte: u8) -> SolPublicKey {
    SolPublicKey::from_bytes(vec![byte; 32]).unwrap()
}

fn verify_signature(sig_bytes: &[u8], signer: &SolKeyPair, message: &[u8]) {
    let sig = solana_sdk::signature::Signature::try_from(sig_bytes).unwrap();
    assert!(sig.verify(&signer.get_pubkey().to_bytes(), message));
}

#[test]
fn transfer_sol_builds_a_signed_system_transfer() {
    let sender = SolKeyPair::generate();
    let freshness = vec![1u8; 32];
    let t = transfer_sol_transaction(&sender, &pk(2), 555, &freshness);
    assert_eq!(t.fee_payer.to_bytes(), sender.get_pubkey().to_bytes());
    assert_eq!(t.instructions.len(), 1);
    let sdk = solana_sdk::system_instruction::transfer(
        &solana_program::pubkey::Pubkey::new_from_array(
            sender.get_pubkey().to_bytes().try_into().unwrap(),
        ),
        &solana_program::pubkey::Pubkey::new_from_array([2u8; 32]),
        555,
    );
    assert_eq!(t.instructions[0].data, sdk.data);
    assert_eq!(t.instructions[0].program.to_bytes(), sdk.program_id.to_bytes().to_vec());
    assert!(t.instructions[0].accounts[0].is_signer);
    assert!(!t.instructions[0].accounts[1].is_signer);
    assert_eq!(t.signatures.len(), 1);
    let message = compute_message(&t.instructions, &t.fee_payer, &t.freshness);
    verify_signature(&t.signatures[0], &sender, &message);
}

#[test]
fn transfer_spl_moves_between_derived_accounts() {
    let sender = SolKeyPair::generate();
    let mint = pk(7);
    let t = transfer_spl_transaction(&sender, &pk(2), &mint, &spl_token_program_id(), 99, &vec![3u8]);
    let sender_assoc =
        derive_associated_address(&sender.get_pubkey(), &mint, &spl_token_program_id());
    let recipient_assoc = derive_associated_address(&pk(2), &mint, &spl_token_program_id());
    assert_eq!(t.instructions[0].accounts[0].addr.to_bytes(), sender_assoc.to_bytes());
    assert_eq!(t.instructions[0].accounts[1].addr.to_bytes(), recipient_assoc.to_bytes());
    assert_eq!(t.instructions[0].accounts[2].addr.to_bytes(), sender.get_pubkey().to_bytes());
    assert!(t.instructions[0].accounts[2].is_signer);
    let mut expected_data = vec![3u8];
    expected_data.extend_from_slice(&99u64.to_le_bytes());
    assert_eq!(t.instructions[0].data, expected_data);
}

#[test]
fn create_mint_builds_funding_then_initialization() {
    let payer = SolKeyPair::generate();
    let mint = SolKeyPair::generate();
    let t = create_mint_transaction(&payer, &mint, &spl_token_program_id(), 2_000_000, 9, &vec![5u8]);
    assert_eq!(t.instructions.len(), 2);
    assert_eq!(t.instructions[0].program.to_bytes(), vec![0u8; 32]);
    assert_eq!(t.instructions[1].program.to_bytes(), spl_token_program_id().to_bytes());
    let sdk_init = spl_token::instruction::initialize_mint(
        &spl_token::ID,
        &solana_program::pubkey::Pubkey::new_from_array(
            mint.get_pubkey().to_bytes().try_into().unwrap(),
        ),
        &solana_program::pubkey::Pubkey::new_from_array(
            mint.get_pubkey().to_bytes().try_into().unwrap(),
        ),
        None,
        9,
    )
    .unwrap();
    assert_eq!(t.instructions[1].data, sdk_init.data);
    assert_eq!(t.signatures.len(), 2);
    let message = compute_message(&t.instructions, &t.fee_payer, &t.freshness);
    verify_signature(&t.signatures[0], &payer, &message);
    verify_signature(&t.signatures[1], &mint, &message);
    // Both the payer and the mint accounts are marked as signers.
    assert!(t.instructions[0].accounts[0].is_signer);
    assert!(t.instructions[0].accounts[1].is_signer);
    // The funded mint account is writable in both instructions; the rent
    // sysvar is read-only.
    assert!(t.instructions[0].accounts[0].is_writable);
    assert!(t.instructions[0].accounts[1].is_writable);
    assert!(t.instructions[1].accounts[0].is_writable);
    assert!(!t.instructions[1].accounts[1].is_writable);
    assert_eq!(
        t.instructions[1].accounts[1].addr.to_bytes(),
        solana_program::sysvar::rent::ID.to_bytes().to_vec()
    );
}

#[test]
fn mint_to_targets_the_recipients_derived_account() {
    let payer = SolKeyPair::generate();
    let authority = SolKeyPair::generate();
    let mint = pk(9);
    let recipient = pk(4);
    let t = mint_to_transaction(
        &payer,
        &authority,
        &mint,
        &recipient,
        &spl_token_program_id(),
        1000,
        &vec![6u8],
    );
    let assoc = derive_associated_address(&recipient, &mint, &spl_token_program_id());
    assert_eq!(t.instructions[0].accounts[0].addr.to_bytes(), mint.to_bytes());
    assert_eq!(t.instructions[0].accounts[1].addr.to_bytes(), assoc.to_bytes());
    assert!(t.instructions[0].accounts[2].is_signer);
    assert_eq!(t.fee_payer.to_bytes(), payer.get_pubkey().to_bytes());
    assert_eq!(t.signatures.len(), 2);
}

#[test]
fn initialize_account_calls_the_initialize_method() {
    let payer = SolKeyPair::generate();
    let account = SolKeyPair::generate();
    let t = initialize_account_transaction(&payer, &account, &pk(8), &vec![7u8]);
    let expected = Sha256::digest(b"global:initialize");
    assert_eq!(t.instructions[0].data, expected[..8].to_vec());
    assert_eq!(t.instructions[0].accounts.len(), 3);
    assert!(t.instructions[0].accounts[0].is_signer);
    assert!(t.instructions[0].accounts[1].is_signer);
    assert!(!t.instructions[0].accounts[2].is_signer);
    assert!(t.instructions[0].accounts[0].is_writable);
    assert!(t.instructions[0].accounts[1].is_writable);
    assert!(!t.instructions[0].accounts[2].is_writable);
    assert_eq!(t.instructions[0].accounts[2].addr.to_bytes(), vec![0u8; 32]);
    assert_eq!(t.signatures.len(), 2);
}

#[test]
fn generic_transaction_requires_a_signer() {
    let signers: Vec<&SolKeyPair> = vec![];
    let r = generic_transaction(&pk(1), "m", &vec![pk(2)], vec![], &signers, &vec![1u8]);
    assert!(matches!(r, Err(SolError::NoSigners)));
}

#[test]
fn generic_transaction_marks_signing_accounts() {
    let payer = SolKeyPair::generate();
    let accounts = vec![payer.get_pubkey(), pk(2)];
    let signers: Vec<&SolKeyPair> = vec![&payer];
    let t = generic_transaction(&pk(1), "ping", &accounts, vec![9, 9], &signers, &vec![1u8])
        .unwrap();
    assert_eq!(t.fee_payer.to_bytes(), payer.get_pubkey().to_bytes());
    assert!(t.instructions[0].accounts[0].is_signer);
    assert!(!t.instructions[0].accounts[1].is_signer);
    assert!(t.instructions[0].accounts[0].is_writable);
    assert!(t.instructions[0].accounts[1].is_writable);
    let mut expected = Sha256::digest(b"global:ping")[..8].to_vec();
    expected.extend_from_slice(&[9, 9]);
    assert_eq!(t.instructions[0].data, expected);
}
