//! Complete signed transactions for the library's flows: native transfers,
//! token transfers, mint creation, minting, account initialization, and
//! generic program calls. Each takes the freshness token the caller
//! fetched immediately beforehand and returns the transaction to submit.
use vstd::prelude::*;

use crate::SolError;
use crate::addr::{SolPublicKey, rent_sysvar_id_spec, system_program_id, system_program_id_spec};
use crate::assemble::{
    Transaction, assemble_and_sign, declared_writable, is_signer_address, message_bytes,
    resolved_instruction, resolved_instructions,
};
use crate::derive::{derive_associated_address, derived_address_of};
use crate::instruction::{
    AccountRef, Instruction, build_instruction, discriminator_of, spl_initialize_mint_data,
    spl_initialize_mint_instruction, spl_mint_to_data, spl_mint_to_instruction, spl_transfer_data,
    spl_transfer_instruction, system_create_account_data, system_create_account_instruction,
    system_transfer_data, system_transfer_instruction,
};
use crate::wallet::{SolKeyPair, public_address_of, sig_of};
use vstd::string::StringSliceAdditionalSpecFns;

verus! {

/// The space a token mint account occupies on the ledger.
pub open spec fn mint_account_space() -> u64 {
    82
}

/// In a singleton signer list, an address signs exactly when it is that
/// signer's public address.
proof fn lemma_single_signer(signers: Seq<&SolKeyPair>, k: &SolKeyPair, a: Seq<u8>)
    requires
        signers.len() == 1,
        signers[0] == k,
    ensures
        is_signer_address(signers, a) <==> a == public_address_of(k@),
{
    if is_signer_address(signers, a) {
        let i = choose|i: int| 0 <= i < signers.len() && public_address_of(signers[i]@) == a;
        assert(i == 0);
    }
}

/// In a two-entry signer list, an address signs exactly when it is one of
/// the two signers' public addresses.
proof fn lemma_pair_signer(signers: Seq<&SolKeyPair>, k0: &SolKeyPair, k1: &SolKeyPair, a: Seq<u8>)
    requires
        signers.len() == 2,
        signers[0] == k0,
        signers[1] == k1,
    ensures
        is_signer_address(signers, a) <==> (a == public_address_of(k0@) || a == public_address_of(
            k1@,
        )),
{
    if is_signer_address(signers, a) {
        let i = choose|i: int| 0 <= i < signers.len() && public_address_of(signers[i]@) == a;
        assert(i == 0 || i == 1);
    }
}

/// Builds and signs the transaction moving `lamports` from the sender's
/// account to the recipient, with the sender as fee payer and sole signer.
pub fn transfer_sol_transaction(
    sender: &SolKeyPair,
    recipient: &SolPublicKey,
    lamports: u64,
    freshness: &Vec<u8>,
) -> (t: Transaction)
    ensures
        t.fee_payer@ == public_address_of(sender@),
        t.freshness@ == freshness@,
        t.instructions@.len() == 1,
        t.instructions@[0].program@ == system_program_id_spec(),
        t.instructions@[0].data@ == system_transfer_data(lamports),
        t.instructions@[0].accounts@.len() == 2,
        t.instructions@[0].accounts@[0].addr@ == public_address_of(sender@),
        t.instructions@[0].accounts@[1].addr@ == recipient@,
        forall|j: int|
            #![auto]
            0 <= j < 2 ==> (t.instructions@[0].accounts@[j].is_signer
                <==> t.instructions@[0].accounts@[j].addr@ == public_address_of(sender@)),
        t.instructions@[0].accounts@[0].is_writable && t.instructions@[0].accounts@[1].is_writable,
        t.signatures@.len() == 1,
        t.signatures@[0]@ == sig_of(
            sender@,
            message_bytes(t.instructions@, public_address_of(sender@), freshness@),
        ),
{
    let sender_pk = sender.get_pubkey();
    let ins = system_transfer_instruction(&sender_pk, recipient, lamports);
    let mut instructions: Vec<Instruction> = Vec::new();
    instructions.push(ins);
    let mut signers: Vec<&SolKeyPair> = Vec::new();
    signers.push(sender);
    proof {
        assert(public_address_of(signers@[0]@) == sender_pk@);
        assert(is_signer_address(signers@, sender_pk@));
    }
    let t = match assemble_and_sign(&instructions, &sender_pk, &signers, freshness) {
        Ok(t) => t,
        Err(_) => {
            proof {
                assert(false);
            }
            unreached()
        },
    };
    proof {
        assert(resolved_instruction(
            instructions@,
            signers@,
            instructions@[0],
            t.instructions@[0],
        ));
        assert forall|j: int| 0 <= j < 2 implies (#[trigger] t.instructions@[0].accounts@[j].is_signer
            <==> t.instructions@[0].accounts@[j].addr@ == public_address_of(sender@)) by {
            lemma_single_signer(signers@, sender, instructions@[0].accounts@[j].addr@);
        }
    }
    t
}

/// Builds and signs the transaction moving `amount` tokens from the
/// sender's associated account to the recipient owner's associated
/// account, both derived from the mint and token program, with the sender
/// as authority, fee payer and sole signer.
pub fn transfer_spl_transaction(
    sender: &SolKeyPair,
    recipient_owner: &SolPublicKey,
    mint: &SolPublicKey,
    token_program: &SolPublicKey,
    amount: u64,
    freshness: &Vec<u8>,
) -> (t: Transaction)
    ensures
        t.fee_payer@ == public_address_of(sender@),
        t.freshness@ == freshness@,
        t.instructions@.len() == 1,
        t.instructions@[0].program@ == token_program@,
        t.instructions@[0].data@ == spl_transfer_data(amount),
        t.instructions@[0].accounts@.len() == 3,
        t.instructions@[0].accounts@[0].addr@ == derived_address_of(
            public_address_of(sender@),
            mint@,
            token_program@,
        ),
        t.instructions@[0].accounts@[1].addr@ == derived_address_of(
            recipient_owner@,
            mint@,
            token_program@,
        ),
        t.instructions@[0].accounts@[2].addr@ == public_address_of(sender@),
        forall|j: int|
            #![auto]
            0 <= j < 3 ==> (t.instructions@[0].accounts@[j].is_signer
                <==> t.instructions@[0].accounts@[j].addr@ == public_address_of(sender@)),
        t.instructions@[0].accounts@[0].is_writable && t.instructions@[0].accounts@[1].is_writable,
        t.signatures@.len() == 1,
        t.signatures@[0]@ == sig_of(
            sender@,
            message_bytes(t.instructions@, public_address_of(sender@), freshness@),
        ),
{
    let sender_pk = sender.get_pubkey();
    let sender_assoc = derive_associated_address(&sender_pk, mint, token_program);
    let recipient_assoc = derive_associated_address(recipient_owner, mint, token_program);
    let ins = spl_transfer_instruction(
        token_program,
        &sender_assoc,
        &recipient_assoc,
        &sender_pk,
        amount,
    );
    let mut instructions: Vec<Instruction> = Vec::new();
    instructions.push(ins);
    let mut signers: Vec<&SolKeyPair> = Vec::new();
    signers.push(sender);
    proof {
        assert(public_address_of(signers@[0]@) == sender_pk@);
        assert(is_signer_address(signers@, sender_pk@));
    }
    let t = match assemble_and_sign(&instructions, &sender_pk, &signers, freshness) {
        Ok(t) => t,
        Err(_) => {
            proof {
                assert(false);
            }
            unreached()
        },
    };
    proof {
        assert(resolved_instruction(
            instructions@,
            signers@,
            instructions@[0],
            t.instructions@[0],
        ));
        assert forall|j: int| 0 <= j < 3 implies (#[trigger] t.instructions@[0].accounts@[j].is_signer
            <==> t.instructions@[0].accounts@[j].addr@ == public_address_of(sender@)) by {
            lemma_single_signer(signers@, sender, instructions@[0].accounts@[j].addr@);
        }
    }
    t
}

/// Builds and signs the transaction creating a token mint: the payer funds
/// a new mint account sized and owned for the token program, and the mint
/// is initialized with itself as mint authority and no freeze authority.
/// The mint and the payer sign; the payer pays the fee.
pub fn create_mint_transaction(
    payer: &SolKeyPair,
    mint: &SolKeyPair,
    token_program: &SolPublicKey,
    rent_lamports: u64,
    decimals: u8,
    freshness: &Vec<u8>,
) -> (t: Transaction)
    ensures
        t.fee_payer@ == public_address_of(payer@),
        t.freshness@ == freshness@,
        t.instructions@.len() == 2,
        t.instructions@[0].program@ == system_program_id_spec(),
        t.instructions@[0].data@ == system_create_account_data(
            rent_lamports,
            mint_account_space(),
            token_program@,
        ),
        t.instructions@[0].accounts@.len() == 2,
        t.instructions@[0].accounts@[0].addr@ == public_address_of(payer@),
        t.instructions@[0].accounts@[1].addr@ == public_address_of(mint@),
        t.instructions@[1].program@ == token_program@,
        t.instructions@[1].data@ == spl_initialize_mint_data(
            decimals,
            public_address_of(mint@),
            None,
        ),
        t.instructions@[1].accounts@.len() == 2,
        t.instructions@[1].accounts@[0].addr@ == public_address_of(mint@),
        t.instructions@[1].accounts@[1].addr@ == rent_sysvar_id_spec(),
        forall|i: int, j: int|
            #![auto]
            0 <= i < 2 && 0 <= j < t.instructions@[i].accounts@.len() ==> (
            t.instructions@[i].accounts@[j].is_signer <==> (t.instructions@[i].accounts@[j].addr@
                == public_address_of(payer@) || t.instructions@[i].accounts@[j].addr@
                == public_address_of(mint@))),
        t.instructions@[0].accounts@[0].is_writable,
        t.instructions@[0].accounts@[1].is_writable,
        t.instructions@[1].accounts@[0].is_writable,
        forall|i: int, j: int|
            #![auto]
            0 <= i < 2 && 0 <= j < t.instructions@[i].accounts@.len() ==> (
            t.instructions@[i].accounts@[j].is_writable <==> (t.instructions@[i].accounts@[j].addr@
                == public_address_of(payer@) || t.instructions@[i].accounts@[j].addr@
                == public_address_of(mint@))),
        t.signatures@.len() == 2,
        t.signatures@[0]@ == sig_of(
            payer@,
            message_bytes(t.instructions@, public_address_of(payer@), freshness@),
        ),
        t.signatures@[1]@ == sig_of(
            mint@,
            message_bytes(t.instructions@, public_address_of(payer@), freshness@),
        ),
{
    let payer_pk = payer.get_pubkey();
    let mint_pk = mint.get_pubkey();
    let create = system_create_account_instruction(&payer_pk, &mint_pk, rent_lamports, 82,
        token_program);
    let init = spl_initialize_mint_instruction(token_program, &mint_pk, &mint_pk, None, decimals);
    let mut instructions: Vec<Instruction> = Vec::new();
    instructions.push(create);
    instructions.push(init);
    let mut signers: Vec<&SolKeyPair> = Vec::new();
    signers.push(payer);
    signers.push(mint);
    proof {
        assert(public_address_of(signers@[0]@) == payer_pk@);
        assert(is_signer_address(signers@, payer_pk@));
    }
    let t = match assemble_and_sign(&instructions, &payer_pk, &signers, freshness) {
        Ok(t) => t,
        Err(_) => {
            proof {
                assert(false);
            }
            unreached()
        },
    };
    proof {
        assert(resolved_instructions(instructions@, signers@, t.instructions@));
        assert forall|i: int, j: int|
            0 <= i < 2 && 0 <= j < t.instructions@[i].accounts@.len() implies (
        #[trigger] t.instructions@[i].accounts@[j].is_signer <==> (
        t.instructions@[i].accounts@[j].addr@ == public_address_of(payer@)
            || t.instructions@[i].accounts@[j].addr@ == public_address_of(mint@))) by {
            assert(resolved_instruction(
                instructions@,
                signers@,
                instructions@[i],
                t.instructions@[i],
            ));
            lemma_pair_signer(signers@, payer, mint, instructions@[i].accounts@[j].addr@);
        }
        assert(resolved_instruction(instructions@, signers@, instructions@[1], t.instructions@[1]));
        assert forall|i: int, j: int|
            0 <= i < 2 && 0 <= j < t.instructions@[i].accounts@.len() implies (
        #[trigger] t.instructions@[i].accounts@[j].is_writable <==> (
        t.instructions@[i].accounts@[j].addr@ == public_address_of(payer@)
            || t.instructions@[i].accounts@[j].addr@ == public_address_of(mint@))) by {
            assert(resolved_instruction(
                instructions@,
                signers@,
                instructions@[i],
                t.instructions@[i],
            ));
            let ad = instructions@[i].accounts@[j].addr@;
            if declared_writable(instructions@, ad) {
                let (x, y) = choose|x: int, y: int|
                    0 <= x < instructions@.len() && 0 <= y < instructions@[x].accounts@.len()
                        && instructions@[x].accounts@[y].addr@ == ad
                        && instructions@[x].accounts@[y].is_writable;
                assert(x == 0 || x == 1);
                if x == 0 {
                    assert(y == 0 || y == 1);
                } else {
                    assert(y == 0);
                }
            }
            if ad == public_address_of(payer@) {
                assert(instructions@[0].accounts@[0].addr@ == ad
                    && instructions@[0].accounts@[0].is_writable);
                assert(declared_writable(instructions@, ad));
            }
            if ad == public_address_of(mint@) {
                assert(instructions@[0].accounts@[1].addr@ == ad
                    && instructions@[0].accounts@[1].is_writable);
                assert(declared_writable(instructions@, ad));
            }
        }
    }
    t
}

/// Builds and signs the transaction minting `amount` tokens into the
/// recipient owner's associated account. The mint authority and the payer
/// sign; the payer pays the fee.
pub fn mint_to_transaction(
    payer: &SolKeyPair,
    authority: &SolKeyPair,
    mint: &SolPublicKey,
    recipient_owner: &SolPublicKey,
    token_program: &SolPublicKey,
    amount: u64,
    freshness: &Vec<u8>,
) -> (t: Transaction)
    ensures
        t.fee_payer@ == public_address_of(payer@),
        t.freshness@ == freshness@,
        t.instructions@.len() == 1,
        t.instructions@[0].program@ == token_program@,
        t.instructions@[0].data@ == spl_mint_to_data(amount),
        t.instructions@[0].accounts@.len() == 3,
        t.instructions@[0].accounts@[0].addr@ == mint@,
        t.instructions@[0].accounts@[1].addr@ == derived_address_of(
            recipient_owner@,
            mint@,
            token_program@,
        ),
        t.instructions@[0].accounts@[2].addr@ == public_address_of(authority@),
        forall|j: int|
            #![auto]
            0 <= j < 3 ==> (t.instructions@[0].accounts@[j].is_signer
                <==> (t.instructions@[0].accounts@[j].addr@ == public_address_of(authority@)
                || t.instructions@[0].accounts@[j].addr@ == public_address_of(payer@))),
        t.instructions@[0].accounts@[0].is_writable && t.instructions@[0].accounts@[1].is_writable,
        t.signatures@.len() == 2,
        t.signatures@[0]@ == sig_of(
            payer@,
            message_bytes(t.instructions@, public_address_of(payer@), freshness@),
        ),
        t.signatures@[1]@ == sig_of(
            authority@,
            message_bytes(t.instructions@, public_address_of(payer@), freshness@),
        ),
{
    let payer_pk = payer.get_pubkey();
    let authority_pk = authority.get_pubkey();
    let assoc = derive_associated_address(recipient_owner, mint, token_program);
    let ins = spl_mint_to_instruction(token_program, mint, &assoc, &authority_pk, amount);
    let mut instructions: Vec<Instruction> = Vec::new();
    instructions.push(ins);
    let mut signers: Vec<&SolKeyPair> = Vec::new();
    signers.push(payer);
    signers.push(authority);
    proof {
        assert(public_address_of(signers@[0]@) == payer_pk@);
        assert(is_signer_address(signers@, payer_pk@));
    }
    let t = match assemble_and_sign(&instructions, &payer_pk, &signers, freshness) {
        Ok(t) => t,
        Err(_) => {
            proof {
                assert(false);
            }
            unreached()
        },
    };
    proof {
        assert(resolved_instruction(
            instructions@,
            signers@,
            instructions@[0],
            t.instructions@[0],
        ));
        assert forall|j: int| 0 <= j < 3 implies (#[trigger] t.instructions@[0].accounts@[j].is_signer
            <==> (t.instructions@[0].accounts@[j].addr@ == public_address_of(authority@)
            || t.instructions@[0].accounts@[j].addr@ == public_address_of(payer@))) by {
            lemma_pair_signer(signers@, payer, authority, instructions@[0].accounts@[j].addr@);
        }
    }
    t
}

/// Builds and signs the transaction calling a program's `initialize`
/// method on a fresh account. The account and the payer sign; the payer
/// pays the fee.
pub fn initialize_account_transaction(
    payer: &SolKeyPair,
    account: &SolKeyPair,
    program: &SolPublicKey,
    freshness: &Vec<u8>,
) -> (t: Transaction)
    ensures
        t.fee_payer@ == public_address_of(payer@),
        t.freshness@ == freshness@,
        t.instructions@.len() == 1,
        t.instructions@[0].program@ == program@,
        t.instructions@[0].data@ == discriminator_of("initialize".spec_bytes()),
        t.instructions@[0].accounts@.len() == 3,
        t.instructions@[0].accounts@[0].addr@ == public_address_of(account@),
        t.instructions@[0].accounts@[1].addr@ == public_address_of(payer@),
        t.instructions@[0].accounts@[2].addr@ == system_program_id_spec(),
        forall|j: int|
            #![auto]
            0 <= j < 3 ==> (t.instructions@[0].accounts@[j].is_signer
                <==> (t.instructions@[0].accounts@[j].addr@ == public_address_of(payer@)
                || t.instructions@[0].accounts@[j].addr@ == public_address_of(account@))),
        t.instructions@[0].accounts@[0].is_writable,
        t.instructions@[0].accounts@[1].is_writable,
        forall|j: int|
            #![auto]
            0 <= j < 3 ==> (t.instructions@[0].accounts@[j].is_writable
                <==> (t.instructions@[0].accounts@[j].addr@ == public_address_of(account@)
                || t.instructions@[0].accounts@[j].addr@ == public_address_of(payer@))),
        t.signatures@.len() == 2,
        t.signatures@[0]@ == sig_of(
            payer@,
            message_bytes(t.instructions@, public_address_of(payer@), freshness@),
        ),
        t.signatures@[1]@ == sig_of(
            account@,
            message_bytes(t.instructions@, public_address_of(payer@), freshness@),
        ),
{
    let payer_pk = payer.get_pubkey();
    let account_pk = account.get_pubkey();
    let mut accounts: Vec<AccountRef> = Vec::new();
    accounts.push(AccountRef::new(account_pk, true, true));
    accounts.push(AccountRef::new(payer.get_pubkey(), true, true));
    accounts.push(AccountRef::new(system_program_id(), false, false));
    let empty_payload: Vec<u8> = Vec::new();
    let ins = build_instruction(program.duplicate(), "initialize", accounts, empty_payload);
    proof {
        assert(ins.data@ =~= discriminator_of("initialize".spec_bytes()));
    }
    let mut instructions: Vec<Instruction> = Vec::new();
    instructions.push(ins);
    let mut signers: Vec<&SolKeyPair> = Vec::new();
    signers.push(payer);
    signers.push(account);
    proof {
        assert(public_address_of(signers@[0]@) == payer_pk@);
        assert(is_signer_address(signers@, payer_pk@));
    }
    let t = match assemble_and_sign(&instructions, &payer_pk, &signers, freshness) {
        Ok(t) => t,
        Err(_) => {
            proof {
                assert(false);
            }
            unreached()
        },
    };
    proof {
        assert(resolved_instruction(
            instructions@,
            signers@,
            instructions@[0],
            t.instructions@[0],
        ));
        assert forall|j: int| 0 <= j < 3 implies (#[trigger] t.instructions@[0].accounts@[j].is_signer
            <==> (t.instructions@[0].accounts@[j].addr@ == public_address_of(payer@)
            || t.instructions@[0].accounts@[j].addr@ == public_address_of(account@))) by {
            lemma_pair_signer(signers@, payer, account, instructions@[0].accounts@[j].addr@);
        }
        assert forall|j: int| 0 <= j < 3 implies (#[trigger] t.instructions@[0].accounts@[j].is_writable
            <==> (t.instructions@[0].accounts@[j].addr@ == public_address_of(account@)
            || t.instructions@[0].accounts@[j].addr@ == public_address_of(payer@))) by {
            let ad = instructions@[0].accounts@[j].addr@;
            if declared_writable(instructions@, ad) {
                let (x, y) = choose|x: int, y: int|
                    0 <= x < instructions@.len() && 0 <= y < instructions@[x].accounts@.len()
                        && instructions@[x].accounts@[y].addr@ == ad
                        && instructions@[x].accounts@[y].is_writable;
                assert(x == 0);
                assert(y == 0 || y == 1);
            }
            if ad == public_address_of(account@) {
                assert(instructions@[0].accounts@[0].addr@ == ad
                    && instructions@[0].accounts@[0].is_writable);
                assert(declared_writable(instructions@, ad));
            }
            if ad == public_address_of(payer@) {
                assert(instructions@[0].accounts@[1].addr@ == ad
                    && instructions@[0].accounts@[1].is_writable);
                assert(declared_writable(instructions@, ad));
            }
        }
    }
    t
}

/// Builds and signs a transaction calling an arbitrary program method:
/// every named account is declared writable, the payload is the method's
/// discriminator followed by `data`, the first signer pays the fee. Fails
/// with `NoSigners` on an empty signer list.
pub fn generic_transaction(
    program: &SolPublicKey,
    method_name: &str,
    account_addresses: &Vec<SolPublicKey>,
    data: Vec<u8>,
    signers: &Vec<&SolKeyPair>,
    freshness: &Vec<u8>,
) -> (r: Result<Transaction, SolError>)
    ensures
        r is Ok <==> signers@.len() > 0,
        signers@.len() == 0 ==> (r matches Err(e) && e == SolError::NoSigners),
        r matches Ok(t) ==> {
            &&& t.fee_payer@ == public_address_of(signers@[0]@)
            &&& t.freshness@ == freshness@
            &&& t.instructions@.len() == 1
            &&& t.instructions@[0].program@ == program@
            &&& t.instructions@[0].data@ == discriminator_of(method_name.spec_bytes()) + data@
            &&& t.instructions@[0].accounts@.len() == account_addresses@.len()
            &&& forall|j: int|
                #![auto]
                0 <= j < account_addresses@.len() ==> {
                    &&& t.instructions@[0].accounts@[j].addr@ == account_addresses@[j]@
                    &&& (t.instructions@[0].accounts@[j].is_signer <==> is_signer_address(
                        signers@,
                        account_addresses@[j]@,
                    ))
                    &&& t.instructions@[0].accounts@[j].is_writable
                }
            &&& t.signatures@.len() == signers@.len()
            &&& forall|k: int|
                #![auto]
                0 <= k < signers@.len() ==> t.signatures@[k]@ == sig_of(
                    signers@[k]@,
                    message_bytes(t.instructions@, public_address_of(signers@[0]@), freshness@),
                )
        },
{
    if signers.len() == 0 {
        return Err(SolError::NoSigners);
    }
    let fee_payer = signers[0].get_pubkey();
    let mut accounts: Vec<AccountRef> = Vec::new();
    let mut j: usize = 0;
    while j < account_addresses.len()
        invariant
            j <= account_addresses@.len(),
            accounts@.len() == j,
            forall|b: int|
                #![auto]
                0 <= b < j ==> accounts@[b].addr@ == account_addresses@[b]@
                    && !accounts@[b].is_signer && accounts@[b].is_writable,
        decreases account_addresses@.len() - j,
    {
        accounts.push(AccountRef::new(account_addresses[j].duplicate(), false, true));
        j = j + 1;
    }
    let ins = build_instruction(program.duplicate(), method_name, accounts, data);
    let mut instructions: Vec<Instruction> = Vec::new();
    instructions.push(ins);
    proof {
        assert(public_address_of(signers@[0]@) == fee_payer@);
        assert(is_signer_address(signers@, fee_payer@));
    }
    let t = match assemble_and_sign(&instructions, &fee_payer, signers, freshness) {
        Ok(t) => t,
        Err(_) => {
            proof {
                assert(false);
            }
            unreached()
        },
    };
    proof {
        assert(resolved_instruction(
            instructions@,
            signers@,
            instructions@[0],
            t.instructions@[0],
        ));
        assert forall|b: int| 0 <= b < account_addresses@.len() implies #[trigger] t.instructions@[0].accounts@[b].is_writable by {
            assert(instructions@[0].accounts@[b].is_writable);
        }
    }
    Ok(t)
}

} // verus!
