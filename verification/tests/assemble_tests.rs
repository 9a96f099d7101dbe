use sol_kit::SolError;
use sol_kit::addr::SolPublicKey;
use sol_kit::assemble::{assemble_and_sign, compute_message};
use sol_kit::instruction::{AccountRef, Instruction};
use sol_kit::wallet::SolKeyPair;

fn pk(byte: u8) -> SolPublicKey {
    SolPublicKey::from_bytes(vec![byte; 32]).unwrap()
}

fn one_instruction(accounts: Vec<AccountRef>) -> Vec<Instruction> {
    vec![Instruction { program: pk(200), accounts, data: vec![1, 2, 3] }]
}

#[test]
fn empty_signer_list_fails_with_no_signers() {
    let instructions = one_instruction(vec![]);
    let signers: Vec<&SolKeyPair> = vec![];
    let r = assemble_and_sign(&instructions, &pk(1), &signers, &vec![9u8; 32]);
    assert!(matches!(r, Err(SolError::NoSigners)));
}

#[test]
fn missing_fee_payer_fails() {
    let k = SolKeyPair::generate();
    let instructions = one_instruction(vec![]);
    let signers: Vec<&SolKeyPair> = vec![&k];
    let r = assemble_and_sign(&instructions, &pk(1), &signers, &vec![9u8; 32]);
    assert!(matches!(r, Err(SolError::MissingFeePayerSignature)));
}

#[test]
fn signer_flags_follow_the_signer_list() {
    let k1 = SolKeyPair::generate();
    let k2 = SolKeyPair::generate();
    let outsider = pk(3);
    let accounts = vec![
        AccountRef::new(k1.get_pubkey(), false, true),
        AccountRef::new(outsider.duplicate(), false, false),
        AccountRef::new(k2.get_pubkey(), false, false),
    ];
    let instructions = one_instruction(accounts);
    let fee_payer = k1.get_pubkey();
    let freshness = vec![9u8; 32];

    let signers: Vec<&SolKeyPair> = vec![&k1, &k2];
    let t = assemble_and_sign(&instructions, &fee_payer, &signers, &freshness).unwrap();
    let flags: Vec<bool> = t.instructions[0].accounts.iter().map(|a| a.is_signer).collect();
    assert_eq!(flags, vec![true, false, true]);

    // Independent of the signer list's ordering.
    let reversed: Vec<&SolKeyPair> = vec![&k2, &k1];
    let t2 = assemble_and_sign(&instructions, &fee_payer, &reversed, &freshness).unwrap();
    let flags2: Vec<bool> = t2.instructions[0].accounts.iter().map(|a| a.is_signer).collect();
    assert_eq!(flags2, vec![true, false, true]);
}

#[test]
fn conflicting_writable_declarations_resolve_to_writable() {
    let k = SolKeyPair::generate();
    let shared = pk(77);
    let instructions = vec![
        Instruction {
            program: pk(200),
            accounts: vec![AccountRef::new(shared.duplicate(), false, false)],
            data: vec![],
        },
        Instruction {
            program: pk(201),
            accounts: vec![AccountRef::new(shared.duplicate(), false, true)],
            data: vec![],
        },
    ];
    let t = assemble_and_sign(&instructions, &k.get_pubkey(), &vec![&k], &vec![1u8]).unwrap();
    assert!(t.instructions[0].accounts[0].is_writable);
    assert!(t.instructions[1].accounts[0].is_writable);
}

#[test]
fn one_signature_per_signer_in_order_and_all_verify() {
    let k1 = SolKeyPair::generate();
    let k2 = SolKeyPair::generate();
    let accounts = vec![AccountRef::new(k1.get_pubkey(), false, true)];
    let instructions = one_instruction(accounts);
    let fee_payer = k1.get_pubkey();
    let freshness = vec![4u8; 32];
    let signers: Vec<&SolKeyPair> = vec![&k1, &k2];
    let t = assemble_and_sign(&instructions, &fee_payer, &signers, &freshness).unwrap();
    assert_eq!(t.signatures.len(), 2);
    assert_eq!(t.fee_payer.to_bytes(), fee_payer.to_bytes());
    assert_eq!(t.freshness, freshness);

    let message = compute_message(&t.instructions, &t.fee_payer, &t.freshness);
    for (sig_bytes, key) in t.signatures.iter().zip([&k1, &k2]) {
        let sig = solana_sdk::signature::Signature::try_from(sig_bytes.as_slice()).unwrap();
        assert!(sig.verify(&key.get_pubkey().to_bytes(), &message));
    }
}

#[test]
fn instructions_keep_program_data_and_account_order() {
    let k = SolKeyPair::generate();
    let accounts = vec![
        AccountRef::new(pk(10), false, true),
        AccountRef::new(pk(11), false, false),
    ];
    let instructions = one_instruction(accounts);
    let t = assemble_and_sign(&instructions, &k.get_pubkey(), &vec![&k], &vec![2u8]).unwrap();
    assert_eq!(t.instructions.len(), 1);
    assert_eq!(t.instructions[0].program.to_bytes(), vec![200u8; 32]);
    assert_eq!(t.instructions[0].data, vec![1, 2, 3]);
    assert_eq!(t.instructions[0].accounts[0].addr.to_bytes(), vec![10u8; 32]);
    assert_eq!(t.instructions[0].accounts[1].addr.to_bytes(), vec![11u8; 32]);
}
