//! Program instructions: account references, method discriminators, and
//! byte-exact builders for the instructions the flows assemble.
use vstd::prelude::*;

use crate::SolError;
use crate::addr::{
    SolPublicKey, parsed_address_of, rent_sysvar_id, rent_sysvar_id_spec, system_program_id,
    system_program_id_spec,
};
use sha2::{Digest, Sha256};
use vstd::string::StringSliceAdditionalSpecFns;

verus! {

/// A reference to an account an instruction touches: its address, whether
/// it must sign, and whether it may be written. The signer flag is settled
/// at assembly time; the writable flag is the instruction author's
/// declaration.
#[derive(Debug)]
pub struct AccountRef {
    pub addr: SolPublicKey,
    pub is_signer: bool,
    pub is_writable: bool,
}

impl AccountRef {
    /// Builds an account reference.
    pub fn new(addr: SolPublicKey, is_signer: bool, is_writable: bool) -> (r: AccountRef)
        ensures
            r.addr@ == addr@,
            r.is_signer == is_signer,
            r.is_writable == is_writable,
    {
        AccountRef { addr, is_signer, is_writable }
    }

    /// Returns a copy of this account reference.
    pub fn duplicate(&self) -> (r: AccountRef)
        ensures
            r.addr@ == self.addr@,
            r.is_signer == self.is_signer,
            r.is_writable == self.is_writable,
    {
        AccountRef {
            addr: self.addr.duplicate(),
            is_signer: self.is_signer,
            is_writable: self.is_writable,
        }
    }
}

/// A single operation directed at a program: the program's address, the
/// ordered accounts it touches, and its opaque payload bytes.
#[derive(Debug)]
pub struct Instruction {
    pub program: SolPublicKey,
    pub accounts: Vec<AccountRef>,
    pub data: Vec<u8>,
}

/// The eight bytes of an unsigned 64-bit value, least significant first.
pub open spec fn encode_u64_le(n: u64) -> Seq<u8> {
    seq![
        (n & 0xff) as u8,
        ((n >> 8) & 0xff) as u8,
        ((n >> 16) & 0xff) as u8,
        ((n >> 24) & 0xff) as u8,
        ((n >> 32) & 0xff) as u8,
        ((n >> 40) & 0xff) as u8,
        ((n >> 48) & 0xff) as u8,
        ((n >> 56) & 0xff) as u8,
    ]
}

/// Appends the little-endian encoding of `n` to `out`.
pub fn append_u64_le(out: &mut Vec<u8>, n: u64)
    ensures
        final(out)@ == old(out)@ + encode_u64_le(n),
{
    proof {
        assert((n & 0xff) < 256 && ((n >> 8) & 0xff) < 256 && ((n >> 16) & 0xff) < 256 && ((n
            >> 24) & 0xff) < 256 && ((n >> 32) & 0xff) < 256 && ((n >> 40) & 0xff) < 256 && ((n
            >> 48) & 0xff) < 256 && ((n >> 56) & 0xff) < 256) by (bit_vector);
    }
    out.push((n & 0xff) as u8);
    out.push(((n >> 8) & 0xff) as u8);
    out.push(((n >> 16) & 0xff) as u8);
    out.push(((n >> 24) & 0xff) as u8);
    out.push(((n >> 32) & 0xff) as u8);
    out.push(((n >> 40) & 0xff) as u8);
    out.push(((n >> 48) & 0xff) as u8);
    out.push(((n >> 56) & 0xff) as u8);
    proof {
        assert(out@ =~= old(out)@ + encode_u64_le(n));
    }
}

/// Appends a copy of an address's 32 bytes to `out`.
pub fn append_address(out: &mut Vec<u8>, addr: &SolPublicKey)
    ensures
        final(out)@ == old(out)@ + addr@,
{
    let mut bytes = addr.to_bytes();
    out.append(&mut bytes);
}

/// What the digest of a byte sequence is; a pure function of the input.
pub uninterp spec fn sha256_of(input: Seq<u8>) -> Seq<u8>;

/// Relies on sha2::Sha256: the digest is 32 bytes determined by the input
/// alone.
#[verifier::external_body]
fn sha256(input: &Vec<u8>) -> (r: Vec<u8>)
    ensures
        r@ == sha256_of(input@),
        r@.len() == 32,
{
    Sha256::digest(input.as_slice()).to_vec()
}

/// The utf-8 bytes of the text `global:`, the namespace prefix a method
/// name is hashed under.
pub open spec fn global_prefix() -> Seq<u8> {
    seq![103u8, 108u8, 111u8, 98u8, 97u8, 108u8, 58u8]
}

/// The method discriminator: the first eight bytes of the digest of
/// `global:` followed by the method name's bytes.
pub open spec fn discriminator_of(method_name: Seq<u8>) -> Seq<u8> {
    sha256_of(global_prefix() + method_name).take(8)
}

/// Computes the eight-byte discriminator selecting a program method.
pub fn get_discriminator(method_name: &str) -> (r: Vec<u8>)
    ensures
        r@ == discriminator_of(method_name.spec_bytes()),
        r@.len() == 8,
{
    let mut seed: Vec<u8> = Vec::new();
    seed.push(103);
    seed.push(108);
    seed.push(111);
    seed.push(98);
    seed.push(97);
    seed.push(108);
    seed.push(58);
    proof {
        assert(seed@ =~= global_prefix());
    }
    seed.extend_from_slice(method_name.as_bytes());
    proof {
        assert(seed@ =~= global_prefix() + method_name.spec_bytes());
    }
    let digest = sha256(&seed);
    let mut out: Vec<u8> = Vec::new();
    let mut i: usize = 0;
    while i < 8
        invariant
            i <= 8,
            digest@.len() == 32,
            out@ == digest@.take(i as int),
        decreases 8 - i,
    {
        out.push(digest[i]);
        i = i + 1;
        proof {
            assert(out@ =~= digest@.take(i as int));
        }
    }
    out
}

/// Builds an instruction for a named program method: the payload is the
/// method's discriminator followed by the caller's data.
pub fn build_instruction(
    program: SolPublicKey,
    method_name: &str,
    accounts: Vec<AccountRef>,
    payload: Vec<u8>,
) -> (r: Instruction)
    ensures
        r.program@ == program@,
        r.accounts == accounts,
        r.data@ == discriminator_of(method_name.spec_bytes()) + payload@,
{
    let mut data = get_discriminator(method_name);
    let mut payload = payload;
    data.append(&mut payload);
    Instruction { program, accounts, data }
}

/// Builds an instruction as `build_instruction` does, with the program
/// given as base58 text; fails when the text does not parse as an address.
pub fn build_instruction_from_text(
    program_text: &str,
    method_name: &str,
    accounts: Vec<AccountRef>,
    payload: Vec<u8>,
) -> (r: Result<Instruction, SolError>)
    ensures
        r is Ok <==> parsed_address_of(program_text@) is Some,
        r matches Ok(ins) ==> {
            &&& Some(ins.program@) == parsed_address_of(program_text@)
            &&& ins.accounts == accounts
            &&& ins.data@ == discriminator_of(method_name.spec_bytes()) + payload@
        },
        r matches Err(e) ==> e == SolError::InvalidInput,
{
    match SolPublicKey::parse_address(program_text) {
        Ok(program) => Ok(build_instruction(program, method_name, accounts, payload)),
        Err(_) => Err(SolError::InvalidInput),
    }
}

/// The payload of a system-program transfer: its instruction tag followed
/// by the amount.
pub open spec fn system_transfer_data(lamports: u64) -> Seq<u8> {
    seq![2u8, 0u8, 0u8, 0u8] + encode_u64_le(lamports)
}

/// Builds the system-program instruction moving `lamports` from `from` to
/// `to`. The funding account signs and both accounts are writable.
pub fn system_transfer_instruction(
    from: &SolPublicKey,
    to: &SolPublicKey,
    lamports: u64,
) -> (r: Instruction)
    ensures
        r.program@ == system_program_id_spec(),
        r.data@ == system_transfer_data(lamports),
        r.accounts@.len() == 2,
        r.accounts@[0].addr@ == from@ && r.accounts@[0].is_signer && r.accounts@[0].is_writable,
        r.accounts@[1].addr@ == to@ && !r.accounts@[1].is_signer && r.accounts@[1].is_writable,
{
    let mut data: Vec<u8> = Vec::new();
    data.push(2);
    data.push(0);
    data.push(0);
    data.push(0);
    append_u64_le(&mut data, lamports);
    proof {
        assert(data@ =~= system_transfer_data(lamports));
    }
    let mut accounts: Vec<AccountRef> = Vec::new();
    accounts.push(AccountRef::new(from.duplicate(), true, true));
    accounts.push(AccountRef::new(to.duplicate(), false, true));
    Instruction { program: system_program_id(), accounts, data }
}

/// The payload of a system-program account creation: its instruction tag,
/// the funded amount, the allocated space, and the owning program.
pub open spec fn system_create_account_data(lamports: u64, space: u64, owner: Seq<u8>) -> Seq<u8> {
    seq![0u8, 0u8, 0u8, 0u8] + encode_u64_le(lamports) + encode_u64_le(space) + owner
}

/// Builds the system-program instruction creating `to` with the given
/// balance, space and owning program. Both accounts sign and are writable.
pub fn system_create_account_instruction(
    from: &SolPublicKey,
    to: &SolPublicKey,
    lamports: u64,
    space: u64,
    owner: &SolPublicKey,
) -> (r: Instruction)
    ensures
        r.program@ == system_program_id_spec(),
        r.data@ == system_create_account_data(lamports, space, owner@),
        r.accounts@.len() == 2,
        r.accounts@[0].addr@ == from@ && r.accounts@[0].is_signer && r.accounts@[0].is_writable,
        r.accounts@[1].addr@ == to@ && r.accounts@[1].is_signer && r.accounts@[1].is_writable,
{
    let mut data: Vec<u8> = Vec::new();
    data.push(0);
    data.push(0);
    data.push(0);
    data.push(0);
    append_u64_le(&mut data, lamports);
    append_u64_le(&mut data, space);
    append_address(&mut data, owner);
    proof {
        assert(data@ =~= system_create_account_data(lamports, space, owner@));
    }
    let mut accounts: Vec<AccountRef> = Vec::new();
    accounts.push(AccountRef::new(from.duplicate(), true, true));
    accounts.push(AccountRef::new(to.duplicate(), true, true));
    Instruction { program: system_program_id(), accounts, data }
}

/// The payload of a token-program transfer: its instruction tag followed
/// by the amount.
pub open spec fn spl_transfer_data(amount: u64) -> Seq<u8> {
    seq![3u8] + encode_u64_le(amount)
}

/// Builds the token-program instruction moving `amount` tokens from
/// `source` to `destination` under the signing `authority`.
pub fn spl_transfer_instruction(
    token_program: &SolPublicKey,
    source: &SolPublicKey,
    destination: &SolPublicKey,
    authority: &SolPublicKey,
    amount: u64,
) -> (r: Instruction)
    ensures
        r.program@ == token_program@,
        r.data@ == spl_transfer_data(amount),
        r.accounts@.len() == 3,
        r.accounts@[0].addr@ == source@ && !r.accounts@[0].is_signer
            && r.accounts@[0].is_writable,
        r.accounts@[1].addr@ == destination@ && !r.accounts@[1].is_signer
            && r.accounts@[1].is_writable,
        r.accounts@[2].addr@ == authority@ && r.accounts@[2].is_signer
            && !r.accounts@[2].is_writable,
{
    let mut data: Vec<u8> = Vec::new();
    data.push(3);
    append_u64_le(&mut data, amount);
    proof {
        assert(data@ =~= spl_transfer_data(amount));
    }
    let mut accounts: Vec<AccountRef> = Vec::new();
    accounts.push(AccountRef::new(source.duplicate(), false, true));
    accounts.push(AccountRef::new(destination.duplicate(), false, true));
    accounts.push(AccountRef::new(authority.duplicate(), true, false));
    Instruction { program: token_program.duplicate(), accounts, data }
}

/// The payload of a token-program mint operation: its instruction tag
/// followed by the amount.
pub open spec fn spl_mint_to_data(amount: u64) -> Seq<u8> {
    seq![7u8] + encode_u64_le(amount)
}

/// Builds the token-program instruction minting `amount` tokens into
/// `account` under the signing mint `authority`.
pub fn spl_mint_to_instruction(
    token_program: &SolPublicKey,
    mint: &SolPublicKey,
    account: &SolPublicKey,
    authority: &SolPublicKey,
    amount: u64,
) -> (r: Instruction)
    ensures
        r.program@ == token_program@,
        r.data@ == spl_mint_to_data(amount),
        r.accounts@.len() == 3,
        r.accounts@[0].addr@ == mint@ && !r.accounts@[0].is_signer && r.accounts@[0].is_writable,
        r.accounts@[1].addr@ == account@ && !r.accounts@[1].is_signer
            && r.accounts@[1].is_writable,
        r.accounts@[2].addr@ == authority@ && r.accounts@[2].is_signer
            && !r.accounts@[2].is_writable,
{
    let mut data: Vec<u8> = Vec::new();
    data.push(7);
    append_u64_le(&mut data, amount);
    proof {
        assert(data@ =~= spl_mint_to_data(amount));
    }
    let mut accounts: Vec<AccountRef> = Vec::new();
    accounts.push(AccountRef::new(mint.duplicate(), false, true));
    accounts.push(AccountRef::new(account.duplicate(), false, true));
    accounts.push(AccountRef::new(authority.duplicate(), true, false));
    Instruction { program: token_program.duplicate(), accounts, data }
}

/// The payload of a token-program mint initialization: its instruction
/// tag, the decimals, the mint authority, and the optional freeze
/// authority behind a one-byte presence tag.
pub open spec fn spl_initialize_mint_data(
    decimals: u8,
    mint_authority: Seq<u8>,
    freeze_authority: Option<Seq<u8>>,
) -> Seq<u8> {
    seq![0u8, decimals] + mint_authority + (match freeze_authority {
        Some(f) => seq![1u8] + f,
        None => seq![0u8],
    })
}

/// Builds the token-program instruction initializing `mint` with the given
/// decimals and authorities. The mint is writable; the rent sysvar is read.
pub fn spl_initialize_mint_instruction(
    token_program: &SolPublicKey,
    mint: &SolPublicKey,
    mint_authority: &SolPublicKey,
    freeze_authority: Option<&SolPublicKey>,
    decimals: u8,
) -> (r: Instruction)
    ensures
        r.program@ == token_program@,
        r.data@ == spl_initialize_mint_data(
            decimals,
            mint_authority@,
            match freeze_authority {
                Some(f) => Some(f@),
                None => None,
            },
        ),
        r.accounts@.len() == 2,
        r.accounts@[0].addr@ == mint@ && !r.accounts@[0].is_signer && r.accounts@[0].is_writable,
        r.accounts@[1].addr@ == rent_sysvar_id_spec() && !r.accounts@[1].is_signer
            && !r.accounts@[1].is_writable,
{
    let mut data: Vec<u8> = Vec::new();
    data.push(0);
    data.push(decimals);
    append_address(&mut data, mint_authority);
    match freeze_authority {
        Some(f) => {
            data.push(1);
            append_address(&mut data, f);
        },
        None => {
            data.push(0);
        },
    }
    proof {
        assert(data@ =~= spl_initialize_mint_data(
            decimals,
            mint_authority@,
            match freeze_authority {
                Some(f) => Some(f@),
                None => None,
            },
        ));
    }
    let mut accounts: Vec<AccountRef> = Vec::new();
    accounts.push(AccountRef::new(mint.duplicate(), false, true));
    accounts.push(AccountRef::new(rent_sysvar_id(), false, false));
    Instruction { program: token_program.duplicate(), accounts, data }
}

} // verus!
