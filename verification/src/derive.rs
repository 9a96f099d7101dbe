//! Deterministic derivation of an owner's associated token account address
//! from (owner, mint, token program), and the instruction that creates the
//! derived account.
use vstd::prelude::*;

use crate::addr::{SolPublicKey, ata_program_id, ata_program_id_spec, system_program_id};
use crate::instruction::{AccountRef, Instruction};
use solana_program::pubkey::Pubkey;

verus! {

/// The derived associated account address for (owner, mint, token
/// program): a pure function of the three seeds, with no stored state, so
/// identical inputs always produce the identical output.
pub uninterp spec fn derived_address_of(owner: Seq<u8>, mint: Seq<u8>, token_program: Seq<u8>) -> Seq<
    u8,
>;

/// Relies on
/// spl_associated_token_account::get_associated_token_address_with_program_id:
/// a pure program-derived-address computation over the three keys (it can
/// panic only in the astronomically improbable case that none of the 256
/// bump seeds yields an off-curve address).
#[verifier::external_body]
fn derive_raw(owner: &Vec<u8>, mint: &Vec<u8>, token_program: &Vec<u8>) -> (r: Vec<u8>)
    requires
        owner@.len() == 32,
        mint@.len() == 32,
        token_program@.len() == 32,
    ensures
        r@ == derived_address_of(owner@, mint@, token_program@),
        r@.len() == 32,
{
    let o = Pubkey::new_from_array(owner.as_slice().try_into().unwrap());
    let m = Pubkey::new_from_array(mint.as_slice().try_into().unwrap());
    let p = Pubkey::new_from_array(token_program.as_slice().try_into().unwrap());
    spl_associated_token_account::get_associated_token_address_with_program_id(&o, &m, &p)
        .to_bytes()
        .to_vec()
}

/// Derives the associated account address for (owner, mint, token
/// program).
pub fn derive_associated_address(
    owner: &SolPublicKey,
    mint: &SolPublicKey,
    token_program: &SolPublicKey,
) -> (r: SolPublicKey)
    ensures
        r@ == derived_address_of(owner@, mint@, token_program@),
{
    proof {
        use_type_invariant(owner);
        use_type_invariant(mint);
        use_type_invariant(token_program);
        owner.lemma_wf_len();
        mint.lemma_wf_len();
        token_program.lemma_wf_len();
    }
    let bytes = derive_raw(&owner.to_bytes(), &mint.to_bytes(), &token_program.to_bytes());
    SolPublicKey::from_fixed_bytes(bytes)
}

/// Derivation is referentially transparent: across repeated calls and
/// process restarts, identical (owner, mint, program) seeds derive the
/// identical address.
pub proof fn lemma_derivation_deterministic(
    o1: Seq<u8>,
    m1: Seq<u8>,
    p1: Seq<u8>,
    o2: Seq<u8>,
    m2: Seq<u8>,
    p2: Seq<u8>,
)
    requires
        o1 == o2,
        m1 == m2,
        p1 == p2,
    ensures
        derived_address_of(o1, m1, p1) == derived_address_of(o2, m2, p2),
{
}

/// The payload of an associated-account creation: the single creation tag
/// byte.
pub open spec fn create_associated_account_data() -> Seq<u8> {
    seq![0u8]
}

/// Builds the instruction creating the associated account derived from
/// (owner, mint, token program), funded by `funding`. The funding account
/// signs and is written; the derived account is written; the owner, mint,
/// system program and token program are read.
pub fn create_associated_account_instruction(
    funding: &SolPublicKey,
    owner: &SolPublicKey,
    mint: &SolPublicKey,
    token_program: &SolPublicKey,
) -> (r: Instruction)
    ensures
        r.program@ == ata_program_id_spec(),
        r.data@ == create_associated_account_data(),
        r.accounts@.len() == 6,
        r.accounts@[0].addr@ == funding@ && r.accounts@[0].is_signer
            && r.accounts@[0].is_writable,
        r.accounts@[1].addr@ == derived_address_of(owner@, mint@, token_program@)
            && !r.accounts@[1].is_signer && r.accounts@[1].is_writable,
        r.accounts@[2].addr@ == owner@ && !r.accounts@[2].is_signer
            && !r.accounts@[2].is_writable,
        r.accounts@[3].addr@ == mint@ && !r.accounts@[3].is_signer && !r.accounts@[3].is_writable,
        r.accounts@[4].addr@ == crate::addr::system_program_id_spec() && !r.accounts@[4].is_signer
            && !r.accounts@[4].is_writable,
        r.accounts@[5].addr@ == token_program@ && !r.accounts@[5].is_signer
            && !r.accounts@[5].is_writable,
{
    let derived = derive_associated_address(owner, mint, token_program);
    let mut data: Vec<u8> = Vec::new();
    data.push(0);
    proof {
        assert(data@ =~= create_associated_account_data());
    }
    let mut accounts: Vec<AccountRef> = Vec::new();
    accounts.push(AccountRef::new(funding.duplicate(), true, true));
    accounts.push(AccountRef::new(derived, false, true));
    accounts.push(AccountRef::new(owner.duplicate(), false, false));
    accounts.push(AccountRef::new(mint.duplicate(), false, false));
    accounts.push(AccountRef::new(system_program_id(), false, false));
    accounts.push(AccountRef::new(token_program.duplicate(), false, false));
    Instruction { program: ata_program_id(), accounts, data }
}

} // verus!
