//! Transaction assembly: resolving each referenced account's signer and
//! writable flags, serializing the message, and collecting one signature
//! per signer over it.
use vstd::prelude::*;

use crate::SolError;
use crate::addr::{SolPublicKey, copy_bytes};
use crate::instruction::{AccountRef, Instruction, append_address, append_u64_le, encode_u64_le};
use crate::wallet::{SolKeyPair, public_address_of, sig_of};
use vstd::seq_lib::group_to_multiset_ensures;

verus! {

/// A signed transaction: the resolved instructions, the fee payer, the
/// freshness token bounding its validity, and one signature per signer.
#[derive(Debug)]
pub struct Transaction {
    pub instructions: Vec<Instruction>,
    pub fee_payer: SolPublicKey,
    pub freshness: Vec<u8>,
    pub signatures: Vec<Vec<u8>>,
}

/// Whether `addr` is the public address of some entry of `signers`.
pub open spec fn is_signer_address(signers: Seq<&SolKeyPair>, addr: Seq<u8>) -> bool {
    exists|i: int| 0 <= i < signers.len() && public_address_of(signers[i]@) == addr
}

/// The public addresses the signer list exposes, in order.
pub open spec fn signer_addresses(signers: Seq<&SolKeyPair>) -> Seq<Seq<u8>> {
    Seq::new(signers.len(), |i: int| public_address_of(signers[i]@))
}

/// Whether any instruction declares the account at `addr` writable.
pub open spec fn declared_writable(instrs: Seq<Instruction>, addr: Seq<u8>) -> bool {
    exists|i: int, j: int|
        0 <= i < instrs.len() && 0 <= j < instrs[i].accounts@.len()
            && instrs[i].accounts@[j].addr@ == addr && instrs[i].accounts@[j].is_writable
}

/// How a resolved instruction relates to the instruction it came from:
/// program, data, and account order are kept; each account's signer flag
/// holds exactly when its address appears among the signers; its writable
/// flag holds exactly when some instruction of the set declares that
/// address writable (the most permissive declaration wins).
pub open spec fn resolved_instruction(
    all: Seq<Instruction>,
    signers: Seq<&SolKeyPair>,
    o: Instruction,
    r: Instruction,
) -> bool {
    &&& r.program@ == o.program@
    &&& r.data@ == o.data@
    &&& r.accounts@.len() == o.accounts@.len()
    &&& forall|j: int|
        #![auto]
        0 <= j < o.accounts@.len() ==> {
            &&& r.accounts@[j].addr@ == o.accounts@[j].addr@
            &&& (r.accounts@[j].is_signer <==> is_signer_address(signers, o.accounts@[j].addr@))
            &&& (r.accounts@[j].is_writable <==> declared_writable(all, o.accounts@[j].addr@))
        }
}

/// Element-wise `resolved_instruction` over the whole instruction list.
pub open spec fn resolved_instructions(
    orig: Seq<Instruction>,
    signers: Seq<&SolKeyPair>,
    res: Seq<Instruction>,
) -> bool {
    &&& res.len() == orig.len()
    &&& forall|i: int|
        #![auto]
        0 <= i < orig.len() ==> resolved_instruction(orig, signers, orig[i], res[i])
}

/// The serialized form of one account reference: its address, then one
/// byte for each flag.
pub open spec fn encode_account(a: AccountRef) -> Seq<u8> {
    a.addr@ + seq![
        if a.is_signer {
            1u8
        } else {
            0u8
        },
        if a.is_writable {
            1u8
        } else {
            0u8
        },
    ]
}

/// The serialized form of an account list, in order.
pub open spec fn encode_accounts(s: Seq<AccountRef>) -> Seq<u8>
    decreases s.len(),
{
    if s.len() == 0 {
        Seq::empty()
    } else {
        encode_accounts(s.drop_last()) + encode_account(s.last())
    }
}

/// The serialized form of one instruction: program, count-prefixed
/// accounts, and length-prefixed payload.
pub open spec fn encode_instruction(i: Instruction) -> Seq<u8> {
    i.program@ + encode_u64_le(i.accounts@.len() as u64) + encode_accounts(i.accounts@)
        + encode_u64_le(i.data@.len() as u64) + i.data@
}

/// The serialized form of an instruction list, in order.
pub open spec fn encode_instructions(s: Seq<Instruction>) -> Seq<u8>
    decreases s.len(),
{
    if s.len() == 0 {
        Seq::empty()
    } else {
        encode_instructions(s.drop_last()) + encode_instruction(s.last())
    }
}

/// The signed message of a transaction: fee payer, length-prefixed
/// freshness token, and count-prefixed instructions.
pub open spec fn message_bytes(
    instrs: Seq<Instruction>,
    fee_payer: Seq<u8>,
    freshness: Seq<u8>,
) -> Seq<u8> {
    fee_payer + encode_u64_le(freshness.len() as u64) + freshness + encode_u64_le(
        instrs.len() as u64,
    ) + encode_instructions(instrs)
}

/// Appends a copy of `src` to `out`.
pub fn append_bytes(out: &mut Vec<u8>, src: &Vec<u8>)
    ensures
        final(out)@ == old(out)@ + src@,
{
    let mut i: usize = 0;
    while i < src.len()
        invariant
            i <= src@.len(),
            out@ == old(out)@ + src@.take(i as int),
        decreases src@.len() - i,
    {
        out.push(src[i]);
        i = i + 1;
        proof {
            assert(out@ =~= old(out)@ + src@.take(i as int));
        }
    }
    proof {
        assert(out@ =~= old(out)@ + src@);
    }
}

/// Appends the serialized form of one account reference.
fn append_account(out: &mut Vec<u8>, a: &AccountRef)
    ensures
        final(out)@ == old(out)@ + encode_account(*a),
{
    append_address(out, &a.addr);
    out.push(if a.is_signer { 1 } else { 0 });
    out.push(if a.is_writable { 1 } else { 0 });
    proof {
        assert(out@ =~= old(out)@ + encode_account(*a));
    }
}

/// Appends the serialized form of one instruction.
fn append_instruction(out: &mut Vec<u8>, ins: &Instruction)
    ensures
        final(out)@ == old(out)@ + encode_instruction(*ins),
{
    append_address(out, &ins.program);
    append_u64_le(out, ins.accounts.len() as u64);
    let ghost mid: Seq<u8> = out@;
    let mut j: usize = 0;
    while j < ins.accounts.len()
        invariant
            j <= ins.accounts@.len(),
            out@ == mid + encode_accounts(ins.accounts@.take(j as int)),
        decreases ins.accounts@.len() - j,
    {
        append_account(out, &ins.accounts[j]);
        j = j + 1;
        proof {
            assert(ins.accounts@.take(j as int).drop_last() =~= ins.accounts@.take(j as int - 1));
            assert(out@ =~= mid + encode_accounts(ins.accounts@.take(j as int)));
        }
    }
    proof {
        assert(ins.accounts@.take(ins.accounts@.len() as int) =~= ins.accounts@);
    }
    append_u64_le(out, ins.data.len() as u64);
    append_bytes(out, &ins.data);
    proof {
        assert(out@ =~= old(out)@ + encode_instruction(*ins));
    }
}

/// Serializes the message that the signers of a transaction sign.
pub fn compute_message(
    instructions: &Vec<Instruction>,
    fee_payer: &SolPublicKey,
    freshness: &Vec<u8>,
) -> (r: Vec<u8>)
    ensures
        r@ == message_bytes(instructions@, fee_payer@, freshness@),
{
    let mut out: Vec<u8> = Vec::new();
    append_address(&mut out, fee_payer);
    append_u64_le(&mut out, freshness.len() as u64);
    append_bytes(&mut out, freshness);
    append_u64_le(&mut out, instructions.len() as u64);
    let ghost mid: Seq<u8> = out@;
    let mut i: usize = 0;
    while i < instructions.len()
        invariant
            i <= instructions@.len(),
            out@ == mid + encode_instructions(instructions@.take(i as int)),
        decreases instructions@.len() - i,
    {
        append_instruction(&mut out, &instructions[i]);
        i = i + 1;
        proof {
            assert(instructions@.take(i as int).drop_last() =~= instructions@.take(i as int - 1));
            assert(out@ =~= mid + encode_instructions(instructions@.take(i as int)));
        }
    }
    proof {
        assert(instructions@.take(instructions@.len() as int) =~= instructions@);
        assert(out@ =~= message_bytes(instructions@, fee_payer@, freshness@));
    }
    out
}

/// Decides whether `addr` is the public address of some signer.
pub fn contains_signer(signers: &Vec<&SolKeyPair>, addr: &SolPublicKey) -> (r: bool)
    ensures
        r == is_signer_address(signers@, addr@),
{
    let mut i: usize = 0;
    while i < signers.len()
        invariant
            i <= signers@.len(),
            forall|k: int| 0 <= k < i ==> public_address_of(signers@[k]@) != addr@,
        decreases signers@.len() - i,
    {
        let pk = signers[i].get_pubkey();
        if pk.same_address(addr) {
            assert(public_address_of(signers@[i as int]@) == addr@);
            return true;
        }
        i = i + 1;
    }
    false
}

/// Decides whether any instruction declares `addr` writable.
fn any_writable(instructions: &Vec<Instruction>, addr: &SolPublicKey) -> (r: bool)
    ensures
        r == declared_writable(instructions@, addr@),
{
    let mut i: usize = 0;
    while i < instructions.len()
        invariant
            i <= instructions@.len(),
            forall|a: int, b: int|
                0 <= a < i && 0 <= b < instructions@[a].accounts@.len() ==> !(
                instructions@[a].accounts@[b].addr@ == addr@
                    && instructions@[a].accounts@[b].is_writable),
        decreases instructions@.len() - i,
    {
        let accounts = &instructions[i].accounts;
        let mut j: usize = 0;
        while j < accounts.len()
            invariant
                i < instructions@.len(),
                j <= accounts@.len(),
                accounts@ == instructions@[i as int].accounts@,
                forall|b: int|
                    0 <= b < j ==> !(accounts@[b].addr@ == addr@ && accounts@[b].is_writable),
            decreases accounts@.len() - j,
        {
            let a = &accounts[j];
            if a.is_writable && a.addr.same_address(addr) {
                assert(instructions@[i as int].accounts@[j as int].addr@ == addr@
                    && instructions@[i as int].accounts@[j as int].is_writable);
                return true;
            }
            j = j + 1;
        }
        i = i + 1;
    }
    false
}

/// Rewrites every instruction's account list with resolved flags: signer
/// status from the signer list, writable status from the most permissive
/// declaration anywhere in the set.
fn resolve_instructions(instructions: &Vec<Instruction>, signers: &Vec<&SolKeyPair>) -> (r: Vec<
    Instruction,
>)
    ensures
        resolved_instructions(instructions@, signers@, r@),
{
    let mut out: Vec<Instruction> = Vec::new();
    let mut i: usize = 0;
    while i < instructions.len()
        invariant
            i <= instructions@.len(),
            out@.len() == i,
            forall|k: int|
                #![auto]
                0 <= k < i ==> resolved_instruction(
                    instructions@,
                    signers@,
                    instructions@[k],
                    out@[k],
                ),
        decreases instructions@.len() - i,
    {
        let src_ins = &instructions[i];
        let mut accounts: Vec<AccountRef> = Vec::new();
        let mut j: usize = 0;
        while j < src_ins.accounts.len()
            invariant
                i < instructions@.len(),
                j <= src_ins.accounts@.len(),
                src_ins == &instructions@[i as int],
                accounts@.len() == j,
                forall|b: int|
                    #![auto]
                    0 <= b < j ==> {
                        &&& accounts@[b].addr@ == src_ins.accounts@[b].addr@
                        &&& (accounts@[b].is_signer <==> is_signer_address(
                            signers@,
                            src_ins.accounts@[b].addr@,
                        ))
                        &&& (accounts@[b].is_writable <==> declared_writable(
                            instructions@,
                            src_ins.accounts@[b].addr@,
                        ))
                    },
            decreases src_ins.accounts@.len() - j,
        {
            let a = &src_ins.accounts[j];
            let s = contains_signer(signers, &a.addr);
            let w = any_writable(instructions, &a.addr);
            accounts.push(AccountRef::new(a.addr.duplicate(), s, w));
            j = j + 1;
        }
        out.push(
            Instruction {
                program: src_ins.program.duplicate(),
                accounts,
                data: copy_bytes(&src_ins.data),
            },
        );
        i = i + 1;
    }
    out
}

/// Assembles and signs a transaction. Fails with `NoSigners` on an empty
/// signer list and with `MissingFeePayerSignature` when no signer's
/// address equals the fee payer's; otherwise returns the transaction whose
/// account flags are resolved as `resolved_instructions` states and whose
/// k-th signature is the k-th signer's signature over the serialized
/// message.
pub fn assemble_and_sign(
    instructions: &Vec<Instruction>,
    fee_payer: &SolPublicKey,
    signers: &Vec<&SolKeyPair>,
    freshness: &Vec<u8>,
) -> (r: Result<Transaction, SolError>)
    ensures
        r is Ok <==> signers@.len() > 0 && is_signer_address(signers@, fee_payer@),
        signers@.len() == 0 ==> (r matches Err(e) && e == SolError::NoSigners),
        signers@.len() > 0 && !is_signer_address(signers@, fee_payer@) ==> (r matches Err(e) && e
            == SolError::MissingFeePayerSignature),
        r matches Ok(t) ==> {
            &&& t.fee_payer@ == fee_payer@
            &&& t.freshness@ == freshness@
            &&& resolved_instructions(instructions@, signers@, t.instructions@)
            &&& t.signatures@.len() == signers@.len()
            &&& forall|k: int|
                #![auto]
                0 <= k < signers@.len() ==> t.signatures@[k]@ == sig_of(
                    signers@[k]@,
                    message_bytes(t.instructions@, fee_payer@, freshness@),
                )
        },
{
    if signers.len() == 0 {
        return Err(SolError::NoSigners);
    }
    if !contains_signer(signers, fee_payer) {
        return Err(SolError::MissingFeePayerSignature);
    }
    let resolved = resolve_instructions(instructions, signers);
    let msg = compute_message(&resolved, fee_payer, freshness);
    let mut signatures: Vec<Vec<u8>> = Vec::new();
    let mut k: usize = 0;
    while k < signers.len()
        invariant
            k <= signers@.len(),
            signatures@.len() == k,
            msg@ == message_bytes(resolved@, fee_payer@, freshness@),
            forall|q: int|
                #![auto]
                0 <= q < k ==> signatures@[q]@ == sig_of(signers@[q]@, msg@),
        decreases signers@.len() - k,
    {
        signatures.push(signers[k].sign(&msg));
        k = k + 1;
    }
    Ok(
        Transaction {
            instructions: resolved,
            fee_payer: fee_payer.duplicate(),
            freshness: copy_bytes(freshness),
            signatures,
        },
    )
}

/// Which accounts sign is decided by the set of addresses the signer list
/// exposes alone: two signer lists that are rearrangements of one another
/// mark exactly the same accounts as signers, independent of input
/// ordering.
pub proof fn lemma_signer_resolution_order_independent(
    s1: Seq<&SolKeyPair>,
    s2: Seq<&SolKeyPair>,
    addr: Seq<u8>,
)
    requires
        signer_addresses(s1).to_multiset() == signer_addresses(s2).to_multiset(),
    ensures
        is_signer_address(s1, addr) == is_signer_address(s2, addr),
{
    broadcast use group_to_multiset_ensures;

    lemma_is_signer_iff_contains(s1, addr);
    lemma_is_signer_iff_contains(s2, addr);
    assert(signer_addresses(s1).contains(addr) <==> signer_addresses(s1).to_multiset().count(addr)
        > 0);
    assert(signer_addresses(s2).contains(addr) <==> signer_addresses(s2).to_multiset().count(addr)
        > 0);
}

/// The assembled transaction's signing invariant: its signature count
/// equals its signer count, and every account it marks as signer has a
/// corresponding signature over the final message — some signer exposes
/// that account's address, and that signer's signature over the message
/// stands in the signature list.
pub proof fn lemma_signer_accounts_are_signed(
    orig: Seq<Instruction>,
    signers: Seq<&SolKeyPair>,
    t: Transaction,
    i: int,
    j: int,
)
    requires
        resolved_instructions(orig, signers, t.instructions@),
        t.signatures@.len() == signers.len(),
        forall|k: int|
            #![auto]
            0 <= k < signers.len() ==> t.signatures@[k]@ == sig_of(
                signers[k]@,
                message_bytes(t.instructions@, t.fee_payer@, t.freshness@),
            ),
        0 <= i < t.instructions@.len(),
        0 <= j < t.instructions@[i].accounts@.len(),
        t.instructions@[i].accounts@[j].is_signer,
    ensures
        exists|k: int|
            0 <= k < signers.len() && public_address_of(signers[k]@)
                == t.instructions@[i].accounts@[j].addr@ && t.signatures@[k]@ == sig_of(
                signers[k]@,
                message_bytes(t.instructions@, t.fee_payer@, t.freshness@),
            ),
{
    assert(resolved_instruction(orig, signers, orig[i], t.instructions@[i]));
    assert(is_signer_address(signers, orig[i].accounts@[j].addr@));
    let k = choose|k: int|
        0 <= k < signers.len() && public_address_of(signers[k]@) == orig[i].accounts@[j].addr@;
    assert(public_address_of(signers[k]@) == t.instructions@[i].accounts@[j].addr@);
    assert(t.signatures@[k]@ == sig_of(
        signers[k]@,
        message_bytes(t.instructions@, t.fee_payer@, t.freshness@),
    ));
}

/// An account signs exactly when its address occurs in the sequence of
/// signer addresses.
proof fn lemma_is_signer_iff_contains(s: Seq<&SolKeyPair>, addr: Seq<u8>)
    ensures
        is_signer_address(s, addr) <==> signer_addresses(s).contains(addr),
{
    if is_signer_address(s, addr) {
        let i = choose|i: int| 0 <= i < s.len() && public_address_of(s[i]@) == addr;
        assert(signer_addresses(s)[i] == addr);
        assert(signer_addresses(s).contains(addr));
    }
    if signer_addresses(s).contains(addr) {
        let i = choose|i: int|
            0 <= i < signer_addresses(s).len() && signer_addresses(s)[i] == addr;
        assert(public_address_of(s[i]@) == addr);
    }
}

} // verus!
