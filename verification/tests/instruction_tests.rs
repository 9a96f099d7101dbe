use sha2::{Digest, Sha256};
use sol_kit::addr::{SolPublicKey, spl_token_program_id};
use sol_kit::instruction::{
    build_instruction, build_instruction_from_text, get_discriminator,
    spl_initialize_mint_instruction, spl_mint_to_instruction, spl_transfer_instruction,
    system_create_account_instruction, system_transfer_instruction,
};
use solana_program::pubkey::Pubkey;

fn pk(byte: u8) -> SolPublicKey {
    SolPublicKey::from_bytes(vec![byte; 32]).unwrap()
}

fn sdk_pk(byte: u8) -> Pubkey {
    Pubkey::new_from_array([byte; 32])
}

#[test]
fn discriminator_is_eight_bytes_of_the_global_hash() {
    let d = get_discriminator("initialize");
    let expected = Sha256::digest(b"global:initialize");
    assert_eq!(d, expected[..8].to_vec());
    assert_eq!(d, vec![175u8, 175, 109, 31, 13, 152, 155, 237]);
}

#[test]
fn discriminators_differ_between_methods() {
    assert_eq!(get_discriminator("transfer").len(), 8);
    assert_ne!(get_discriminator("transfer"), get_discriminator("initialize"));
    assert_ne!(get_discriminator(""), get_discriminator("a"));
}

#[test]
fn build_instruction_prefixes_discriminator() {
    let ins = build_instruction(pk(9), "do_thing", vec![], vec![1, 2, 3]);
    let mut expected = get_discriminator("do_thing");
    expected.extend_from_slice(&[1, 2, 3]);
    assert_eq!(ins.data, expected);
    assert_eq!(ins.program.to_bytes(), vec![9u8; 32]);
    assert!(ins.accounts.is_empty());
}

#[test]
fn build_instruction_from_text_rejects_bad_program() {
    assert!(build_instruction_from_text("not base58 I0", "m", vec![], vec![]).is_err());
    let ok = build_instruction_from_text("11111111111111111111111111111111", "m", vec![], vec![])
        .unwrap();
    assert_eq!(ok.program.to_bytes(), vec![0u8; 32]);
}

#[test]
fn system_transfer_matches_ledger_sdk() {
    let ours = system_transfer_instruction(&pk(1), &pk(2), 123_456_789);
    let sdk = solana_sdk::system_instruction::transfer(&sdk_pk(1), &sdk_pk(2), 123_456_789);
    assert_eq!(ours.data, sdk.data);
    assert_eq!(ours.program.to_bytes(), sdk.program_id.to_bytes().to_vec());
    assert_eq!(ours.accounts.len(), sdk.accounts.len());
    for (a, b) in ours.accounts.iter().zip(sdk.accounts.iter()) {
        assert_eq!(a.addr.to_bytes(), b.pubkey.to_bytes().to_vec());
        assert_eq!(a.is_signer, b.is_signer);
        assert_eq!(a.is_writable, b.is_writable);
    }
}

#[test]
fn system_create_account_matches_ledger_sdk() {
    let ours = system_create_account_instruction(&pk(1), &pk(2), 5000, 82, &pk(3));
    let sdk = solana_sdk::system_instruction::create_account(
        &sdk_pk(1),
        &sdk_pk(2),
        5000,
        82,
        &sdk_pk(3),
    );
    assert_eq!(ours.data, sdk.data);
    assert_eq!(ours.program.to_bytes(), sdk.program_id.to_bytes().to_vec());
    assert_eq!(ours.accounts.len(), sdk.accounts.len());
    for (a, b) in ours.accounts.iter().zip(sdk.accounts.iter()) {
        assert_eq!(a.addr.to_bytes(), b.pubkey.to_bytes().to_vec());
        assert_eq!(a.is_signer, b.is_signer);
        assert_eq!(a.is_writable, b.is_writable);
    }
}

#[test]
fn spl_transfer_matches_token_program() {
    let ours = spl_transfer_instruction(&spl_token_program_id(), &pk(1), &pk(2), &pk(3), 777);
    let sdk = spl_token::instruction::transfer(
        &spl_token::ID,
        &sdk_pk(1),
        &sdk_pk(2),
        &sdk_pk(3),
        &[],
        777,
    )
    .unwrap();
    assert_eq!(ours.data, sdk.data);
    assert_eq!(ours.program.to_bytes(), sdk.program_id.to_bytes().to_vec());
    assert_eq!(ours.accounts.len(), sdk.accounts.len());
    for (a, b) in ours.accounts.iter().zip(sdk.accounts.iter()) {
        assert_eq!(a.addr.to_bytes(), b.pubkey.to_bytes().to_vec());
        assert_eq!(a.is_signer, b.is_signer);
        assert_eq!(a.is_writable, b.is_writable);
    }
}

#[test]
fn spl_mint_to_matches_token_program() {
    let ours = spl_mint_to_instruction(&spl_token_program_id(), &pk(1), &pk(2), &pk(3), 99);
    let sdk = spl_token::instruction::mint_to(
        &spl_token::ID,
        &sdk_pk(1),
        &sdk_pk(2),
        &sdk_pk(3),
        &[],
        99,
    )
    .unwrap();
    assert_eq!(ours.data, sdk.data);
    assert_eq!(ours.program.to_bytes(), sdk.program_id.to_bytes().to_vec());
    assert_eq!(ours.accounts.len(), sdk.accounts.len());
    for (a, b) in ours.accounts.iter().zip(sdk.accounts.iter()) {
        assert_eq!(a.addr.to_bytes(), b.pubkey.to_bytes().to_vec());
        assert_eq!(a.is_signer, b.is_signer);
        assert_eq!(a.is_writable, b.is_writable);
    }
}

#[test]
fn spl_initialize_mint_matches_token_program() {
    let ours = spl_initialize_mint_instruction(&spl_token_program_id(), &pk(1), &pk(2), None, 9);
    let sdk = spl_token::instruction::initialize_mint(&spl_token::ID, &sdk_pk(1), &sdk_pk(2), None, 9)
        .unwrap();
    assert_eq!(ours.data, sdk.data);
    assert_eq!(ours.program.to_bytes(), sdk.program_id.to_bytes().to_vec());
    assert_eq!(ours.accounts.len(), sdk.accounts.len());
    for (a, b) in ours.accounts.iter().zip(sdk.accounts.iter()) {
        assert_eq!(a.addr.to_bytes(), b.pubkey.to_bytes().to_vec());
        assert_eq!(a.is_signer, b.is_signer);
        assert_eq!(a.is_writable, b.is_writable);
    }

    let with_freeze =
        spl_initialize_mint_instruction(&spl_token_program_id(), &pk(1), &pk(2), Some(&pk(4)), 6);
    let sdk_freeze = spl_token::instruction::initialize_mint(
        &spl_token::ID,
        &sdk_pk(1),
        &sdk_pk(2),
        Some(&sdk_pk(4)),
        6,
    )
    .unwrap();
    assert_eq!(with_freeze.data, sdk_freeze.data);
}
