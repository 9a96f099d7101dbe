use sol_kit::SolError;
use sol_kit::mint::SolMint;
use solana_program::program_option::COption;
use solana_program::program_pack::Pack;
use solana_program::pubkey::Pubkey;

fn packed_mint() -> Vec<u8> {
    let mint = spl_token::state::Mint {
        mint_authority: COption::Some(Pubkey::new_from_array([3u8; 32])),
        supply: 123_456_789_000,
        decimals: 9,
        is_initialized: true,
        freeze_authority: COption::None,
    };
    let mut out = vec![0u8; spl_token::state::Mint::LEN];
    mint.pack_into_slice(&mut out);
    out
}

#[test]
fn unpack_matches_the_token_program_layout() {
    let data = packed_mint();
    assert_eq!(data.len(), 82);
    let m = SolMint::unpack(&data).unwrap();
    assert_eq!(m.mint_authority.as_ref().unwrap().to_bytes(), vec![3u8; 32]);
    assert_eq!(m.supply, 123_456_789_000);
    assert_eq!(m.decimals, 9);
    assert!(m.is_initialized);
    assert!(m.freeze_authority.is_none());
}

#[test]
fn unpack_reads_the_freeze_authority() {
    let mint = spl_token::state::Mint {
        mint_authority: COption::None,
        supply: 7,
        decimals: 0,
        is_initialized: true,
        freeze_authority: COption::Some(Pubkey::new_from_array([9u8; 32])),
    };
    let mut data = vec![0u8; spl_token::state::Mint::LEN];
    mint.pack_into_slice(&mut data);
    let m = SolMint::unpack(&data).unwrap();
    assert!(m.mint_authority.is_none());
    assert_eq!(m.supply, 7);
    assert_eq!(m.freeze_authority.as_ref().unwrap().to_bytes(), vec![9u8; 32]);
}

#[test]
fn unpack_rejects_wrong_length() {
    assert!(matches!(SolMint::unpack(&vec![0u8; 81]), Err(SolError::InvalidInput)));
    assert!(matches!(SolMint::unpack(&vec![0u8; 83]), Err(SolError::InvalidInput)));
    assert!(matches!(SolMint::unpack(&vec![]), Err(SolError::InvalidInput)));
}

#[test]
fn unpack_rejects_bad_presence_tag() {
    let mut data = packed_mint();
    data[0] = 2;
    assert!(matches!(SolMint::unpack(&data), Err(SolError::InvalidInput)));
    let mut data = packed_mint();
    data[1] = 1;
    assert!(matches!(SolMint::unpack(&data), Err(SolError::InvalidInput)));
    let mut data = packed_mint();
    data[46] = 9;
    assert!(matches!(SolMint::unpack(&data), Err(SolError::InvalidInput)));
}

#[test]
fn unpack_rejects_uninitialized_mint() {
    let mut data = packed_mint();
    data[45] = 0;
    assert!(matches!(SolMint::unpack(&data), Err(SolError::InvalidInput)));
    data[45] = 3;
    assert!(matches!(SolMint::unpack(&data), Err(SolError::InvalidInput)));
}

#[test]
fn unpack_agrees_with_the_token_program_parser() {
    let data = packed_mint();
    let theirs = spl_token::state::Mint::unpack(&data).unwrap();
    let ours = SolMint::unpack(&data).unwrap();
    assert_eq!(ours.supply, theirs.supply);
    assert_eq!(ours.decimals, theirs.decimals);
    assert_eq!(ours.is_initialized, theirs.is_initialized);
    assert_eq!(
        ours.mint_authority.map(|a| a.to_bytes()),
        Option::<Pubkey>::from(theirs.mint_authority).map(|p| p.to_bytes().to_vec())
    );
}
