//! Idempotent provisioning of an owner's associated account: derive the
//! address, check whether it exists, create it only when absent, and treat
//! a lost creation race as success.
//!
//! The gateway performs the network calls; this module is the decision
//! core. A round is driven as a state machine: each step consumes what the
//! gateway reported and returns the next action to perform. The machine
//! hands out at most one creation transaction per round, whatever the
//! gateway answers.
use vstd::prelude::*;

use crate::SolError;
use crate::addr::{SolPublicKey, ata_program_id_spec, system_program_id_spec};
use crate::assemble::{
    Transaction, assemble_and_sign, declared_writable, is_signer_address, message_bytes,
    resolved_instruction,
};
use crate::derive::{create_associated_account_data, create_associated_account_instruction,
    derive_associated_address, derived_address_of};
use crate::instruction::Instruction;
use crate::wallet::{SolKeyPair, public_address_of, sig_of};

verus! {

/// The classes of gateway failure the core distinguishes.
#[derive(Clone, Copy, PartialEq, Eq, Debug)]
pub enum GatewayError {
    /// The queried entity does not exist.
    NotFound,
    /// The entity already exists.
    AlreadyExists,
    /// A transient failure; the caller may retry.
    Transient,
    /// A malformed response or protocol mismatch.
    Fatal,
}

/// What is known of an account's existence.
#[derive(Clone, Copy, PartialEq, Eq, Debug)]
pub enum AccountStatus {
    Unknown,
    Missing,
    Present,
}

/// The provisioning view of one account: its address and what is known of
/// its existence. Produced per round; never persisted.
#[derive(Debug)]
pub struct AccountRecord {
    pub addr: SolPublicKey,
    pub status: AccountStatus,
}

/// Where a provisioning round stands.
#[derive(Clone, Copy, PartialEq, Eq, Debug)]
pub enum ProvisionState {
    /// The account query is out.
    Checking,
    /// The account is absent; a freshness token is needed.
    AwaitingFreshness,
    /// The creation transaction is out.
    AwaitingSubmit,
    /// The round ended with an address.
    Done,
    /// The round ended with an error.
    Failed,
}

/// What the gateway answered to a creation submission.
#[derive(Debug)]
pub enum SubmitOutcome {
    Accepted,
    Rejected(GatewayError),
}

/// The next thing the caller must do for the round.
#[derive(Debug)]
pub enum ProvisionAction {
    /// Ask the gateway whether the account at this address exists.
    QueryAccount(SolPublicKey),
    /// Ask the gateway for a fresh token.
    FetchFreshness,
    /// Submit this signed creation transaction.
    Submit(Transaction),
    /// The round is over: the derived address, and whether this round
    /// created the account or found it already existing.
    Finished(SolPublicKey, bool),
    /// The round failed with this error.
    Abort(SolError),
}

/// How a rejected submission surfaces to the caller.
pub open spec fn gateway_error_to_sol(e: GatewayError) -> SolError {
    match e {
        GatewayError::NotFound => SolError::NotFound,
        GatewayError::AlreadyExists => SolError::AlreadyExists,
        GatewayError::Transient => SolError::Transient,
        GatewayError::Fatal => SolError::Fatal,
    }
}

/// One provisioning round. Holds no connection and caches nothing across
/// rounds: every round re-derives and re-queries.
pub struct ProvisionFlow {
    owner: SolPublicKey,
    mint: SolPublicKey,
    token_program: SolPublicKey,
    target: SolPublicKey,
    state: ProvisionState,
    status: AccountStatus,
    submissions: Ghost<nat>,
}

impl ProvisionFlow {
    /// Well-formedness: the stored target is the address derived from the
    /// round's (owner, mint, token program), and the round has handed out
    /// at most one creation transaction — none before the gateway reported
    /// the account missing.
    #[verifier::type_invariant]
    pub closed spec fn wf(self) -> bool {
        &&& self.target@ == derived_address_of(self.owner@, self.mint@, self.token_program@)
        &&& self.submissions@ <= 1
        &&& (self.state is Checking || self.state is AwaitingFreshness) ==> self.submissions@ == 0
    }

    /// The owner seed of this round.
    pub closed spec fn owner_view(self) -> Seq<u8> {
        self.owner@
    }

    /// The mint seed of this round.
    pub closed spec fn mint_view(self) -> Seq<u8> {
        self.mint@
    }

    /// The token-program seed of this round.
    pub closed spec fn token_program_view(self) -> Seq<u8> {
        self.token_program@
    }

    /// The derived address this round provisions.
    pub closed spec fn target_view(self) -> Seq<u8> {
        self.target@
    }

    /// Where the round stands.
    pub closed spec fn state_view(self) -> ProvisionState {
        self.state
    }

    /// What is known of the account's existence.
    pub closed spec fn status_view(self) -> AccountStatus {
        self.status
    }

    /// How many creation transactions this round has handed out.
    pub closed spec fn submissions_view(self) -> nat {
        self.submissions@
    }

    /// The round's seeds and target are fixed at start.
    pub open spec fn same_round(self, other: ProvisionFlow) -> bool {
        &&& self.owner_view() == other.owner_view()
        &&& self.mint_view() == other.mint_view()
        &&& self.token_program_view() == other.token_program_view()
        &&& self.target_view() == other.target_view()
    }

    /// Begins a round: derives the target address and asks the caller to
    /// query the gateway for it.
    pub fn start(owner: SolPublicKey, mint: SolPublicKey, token_program: SolPublicKey) -> (r: (
        ProvisionFlow,
        ProvisionAction,
    ))
        ensures
            r.0.owner_view() == owner@,
            r.0.mint_view() == mint@,
            r.0.token_program_view() == token_program@,
            r.0.target_view() == derived_address_of(owner@, mint@, token_program@),
            r.0.state_view() is Checking,
            r.0.status_view() is Unknown,
            r.0.submissions_view() == 0,
            r.1 matches ProvisionAction::QueryAccount(a) && a@ == derived_address_of(
                owner@,
                mint@,
                token_program@,
            ),
    {
        let target = derive_associated_address(&owner, &mint, &token_program);
        let action = ProvisionAction::QueryAccount(target.duplicate());
        let flow = ProvisionFlow {
            owner,
            mint,
            token_program,
            target,
            state: ProvisionState::Checking,
            status: AccountStatus::Unknown,
            submissions: Ghost(0),
        };
        (flow, action)
    }

    /// Consumes the gateway's account report. An account already present
    /// finishes the round at once — the derived address is returned and
    /// nothing is ever submitted; a missing account moves on to fetching a
    /// freshness token; anything else is a malformed response.
    pub fn on_account_status(&mut self, status: AccountStatus) -> (r: ProvisionAction)
        requires
            old(self).state_view() is Checking,
        ensures
            final(self).same_round(*old(self)),
            final(self).status_view() == status,
            final(self).submissions_view() == old(self).submissions_view(),
            status is Present ==> final(self).state_view() is Done && (r
                matches ProvisionAction::Finished(a, created) && a@ == old(self).target_view()
                && created == false),
            status is Missing ==> final(self).state_view() is AwaitingFreshness && r
                is FetchFreshness,
            status is Unknown ==> final(self).state_view() is Failed && (r
                matches ProvisionAction::Abort(e) && e == SolError::Fatal),
    {
        proof {
            use_type_invariant(&*self);
        }
        self.status = status;
        match status {
            AccountStatus::Present => {
                self.state = ProvisionState::Done;
                ProvisionAction::Finished(self.target.duplicate(), false)
            },
            AccountStatus::Missing => {
                self.state = ProvisionState::AwaitingFreshness;
                ProvisionAction::FetchFreshness
            },
            AccountStatus::Unknown => {
                self.state = ProvisionState::Failed;
                ProvisionAction::Abort(SolError::Fatal)
            },
        }
    }

    /// Consumes the freshness token: builds the creation instruction for
    /// the derived account, assembles and signs it with `payer` as fee
    /// payer and sole signer, and asks the caller to submit it. This is
    /// the only step that submits, and it runs at most once per round.
    pub fn on_freshness(&mut self, payer: &SolKeyPair, freshness: &Vec<u8>) -> (r: ProvisionAction)
        requires
            old(self).state_view() is AwaitingFreshness,
        ensures
            final(self).same_round(*old(self)),
            final(self).state_view() is AwaitingSubmit,
            final(self).submissions_view() == old(self).submissions_view() + 1,
            r matches ProvisionAction::Submit(t) && {
                &&& t.fee_payer@ == public_address_of(payer@)
                &&& t.freshness@ == freshness@
                &&& t.instructions@.len() == 1
                &&& t.instructions@[0].program@ == ata_program_id_spec()
                &&& t.instructions@[0].data@ == create_associated_account_data()
                &&& t.instructions@[0].accounts@.len() == 6
                &&& t.instructions@[0].accounts@[0].addr@ == public_address_of(payer@)
                &&& t.instructions@[0].accounts@[1].addr@ == old(self).target_view()
                &&& t.instructions@[0].accounts@[2].addr@ == old(self).owner_view()
                &&& t.instructions@[0].accounts@[3].addr@ == old(self).mint_view()
                &&& t.instructions@[0].accounts@[4].addr@ == system_program_id_spec()
                &&& t.instructions@[0].accounts@[5].addr@ == old(self).token_program_view()
                &&& forall|j: int|
                    #![auto]
                    0 <= j < 6 ==> (t.instructions@[0].accounts@[j].is_signer <==> t.instructions@[0].accounts@[j].addr@
                        == public_address_of(payer@))
                &&& t.instructions@[0].accounts@[0].is_writable
                &&& t.instructions@[0].accounts@[1].is_writable
                &&& forall|j: int|
                    #![auto]
                    0 <= j < 6 ==> (t.instructions@[0].accounts@[j].is_writable <==> (
                    t.instructions@[0].accounts@[j].addr@ == public_address_of(payer@)
                        || t.instructions@[0].accounts@[j].addr@ == old(self).target_view()))
                &&& t.signatures@.len() == 1
                &&& t.signatures@[0]@ == sig_of(
                    payer@,
                    message_bytes(t.instructions@, public_address_of(payer@), freshness@),
                )
            },
    {
        proof {
            use_type_invariant(&*self);
        }
        let payer_pk = payer.get_pubkey();
        let ins = create_associated_account_instruction(
            &payer_pk,
            &self.owner,
            &self.mint,
            &self.token_program,
        );
        let mut instructions: Vec<Instruction> = Vec::new();
        instructions.push(ins);
        let mut signers: Vec<&SolKeyPair> = Vec::new();
        signers.push(payer);
        proof {
            assert(public_address_of(signers@[0]@) == payer_pk@);
            assert(is_signer_address(signers@, payer_pk@));
        }
        let tx = match assemble_and_sign(&instructions, &payer_pk, &signers, freshness) {
            Ok(t) => t,
            Err(_) => {
                proof {
                    assert(false);
                }
                unreached()
            },
        };
        proof {
            assert(resolved_instruction(
                instructions@,
                signers@,
                instructions@[0],
                tx.instructions@[0],
            ));
            assert forall|j: int| 0 <= j < 6 implies (#[trigger] tx.instructions@[0].accounts@[j].is_signer
                <==> tx.instructions@[0].accounts@[j].addr@ == public_address_of(payer@)) by {
                if is_signer_address(signers@, instructions@[0].accounts@[j].addr@) {
                    let i = choose|i: int|
                        0 <= i < signers@.len() && public_address_of(signers@[i]@)
                            == instructions@[0].accounts@[j].addr@;
                    assert(i == 0);
                }
            }
            assert forall|j: int| 0 <= j < 6 implies (#[trigger] tx.instructions@[0].accounts@[j].is_writable
                <==> (tx.instructions@[0].accounts@[j].addr@ == public_address_of(payer@)
                || tx.instructions@[0].accounts@[j].addr@ == self.target@)) by {
                let ad = instructions@[0].accounts@[j].addr@;
                if declared_writable(instructions@, ad) {
                    let (x, y) = choose|x: int, y: int|
                        0 <= x < instructions@.len() && 0 <= y < instructions@[x].accounts@.len()
                            && instructions@[x].accounts@[y].addr@ == ad
                            && instructions@[x].accounts@[y].is_writable;
                    assert(x == 0);
                    assert(y == 0 || y == 1);
                }
                if ad == public_address_of(payer@) {
                    assert(instructions@[0].accounts@[0].addr@ == ad
                        && instructions@[0].accounts@[0].is_writable);
                    assert(declared_writable(instructions@, ad));
                }
                if ad == self.target@ {
                    assert(instructions@[0].accounts@[1].addr@ == ad
                        && instructions@[0].accounts@[1].is_writable);
                    assert(declared_writable(instructions@, ad));
                }
            }
        }
        self.state = ProvisionState::AwaitingSubmit;
        proof {
            self.submissions@ = self.submissions@ + 1;
        }
        ProvisionAction::Submit(tx)
    }

    /// Consumes the submission outcome. Acceptance finishes the round with
    /// the derived address; a rejection because the account already exists
    /// is the race lost to a concurrent creator and counts as success with
    /// the same address; any other rejection fails the round with the
    /// error classified.
    pub fn on_submit_result(&mut self, outcome: SubmitOutcome) -> (r: ProvisionAction)
        requires
            old(self).state_view() is AwaitingSubmit,
        ensures
            final(self).same_round(*old(self)),
            final(self).submissions_view() == old(self).submissions_view(),
            outcome is Accepted ==> final(self).state_view() is Done && (r
                matches ProvisionAction::Finished(a, created) && a@ == old(self).target_view()
                && created == true),
            outcome matches SubmitOutcome::Rejected(e) ==> (if e is AlreadyExists {
                final(self).state_view() is Done && (r matches ProvisionAction::Finished(a, created)
                    && a@ == old(self).target_view() && created == false)
            } else {
                final(self).state_view() is Failed && (r matches ProvisionAction::Abort(err) && err
                    == gateway_error_to_sol(e))
            }),
    {
        proof {
            use_type_invariant(&*self);
        }
        match outcome {
            SubmitOutcome::Accepted => {
                self.state = ProvisionState::Done;
                ProvisionAction::Finished(self.target.duplicate(), true)
            },
            SubmitOutcome::Rejected(e) => {
                match e {
                    GatewayError::AlreadyExists => {
                        self.state = ProvisionState::Done;
                        ProvisionAction::Finished(self.target.duplicate(), false)
                    },
                    GatewayError::NotFound => {
                        self.state = ProvisionState::Failed;
                        ProvisionAction::Abort(SolError::NotFound)
                    },
                    GatewayError::Transient => {
                        self.state = ProvisionState::Failed;
                        ProvisionAction::Abort(SolError::Transient)
                    },
                    GatewayError::Fatal => {
                        self.state = ProvisionState::Failed;
                        ProvisionAction::Abort(SolError::Fatal)
                    },
                }
            },
        }
    }

    /// The round's provisioning view of the account.
    pub fn record(&self) -> (r: AccountRecord)
        ensures
            r.addr@ == self.target_view(),
            r.status == self.status_view(),
    {
        proof {
            use_type_invariant(self);
        }
        AccountRecord { addr: self.target.duplicate(), status: self.status }
    }
}

/// Rounds over the same (owner, mint, program) seeds provision the same
/// derived address: sequential repeats and concurrent racers all converge
/// on one account, never a duplicate.
pub proof fn lemma_rounds_share_target(f1: ProvisionFlow, f2: ProvisionFlow)
    requires
        f1.wf(),
        f2.wf(),
        f1.owner_view() == f2.owner_view(),
        f1.mint_view() == f2.mint_view(),
        f1.token_program_view() == f2.token_program_view(),
    ensures
        f1.target_view() == f2.target_view(),
{
}

/// A round hands out at most one creation transaction, whatever the
/// gateway answered: repeated provisioning of an existing account issues
/// no submission at all, and no round ever issues two.
pub proof fn lemma_at_most_one_submission(f: ProvisionFlow)
    requires
        f.wf(),
    ensures
        f.submissions_view() <= 1,
        f.state_view() is Checking || f.state_view() is AwaitingFreshness ==> f.submissions_view() == 0,
{
}

} // verus!
