//! Verified core for constructing, signing and submitting ledger
//! transactions: method discriminators, instruction building, transaction
//! assembly with signer/writable resolution, deterministic associated-address
//! derivation, and an idempotent account-provisioning state machine.
//!
//! Network transport, wallet-file persistence and the foreign-function
//! boundary are external collaborators and stay outside this crate's core.
use vstd::prelude::*;

pub mod addr;
pub mod assemble;
pub mod derive;
pub mod flows;
pub mod gateway;
pub mod instruction;
pub mod mint;
pub mod provision;
pub mod wallet;

verus! {

/// Error taxonomy of the core. Every fallible operation returns one of
/// these; the core never aborts the process.
#[derive(Clone, Copy, PartialEq, Eq, Debug)]
pub enum SolError {
    /// Malformed input: address text that does not parse, data of the
    /// wrong shape.
    InvalidInput,
    /// Key bytes of the wrong length or not encoding a valid key pair.
    KeyMaterialError,
    /// A signature could not be produced.
    SigningError,
    /// Transaction assembly was asked to sign with an empty signer list.
    NoSigners,
    /// No signer in the list matches the fee payer's address.
    MissingFeePayerSignature,
    /// A malformed instruction set was handed to assembly.
    AssemblyError,
    /// Malformed seeds were handed to address derivation.
    AddressDerivationError,
    /// The gateway reports the queried entity does not exist.
    NotFound,
    /// The gateway reports the entity already exists.
    AlreadyExists,
    /// A transient gateway failure; the caller may retry.
    Transient,
    /// A malformed response or protocol mismatch; not retryable.
    Fatal,
}

} // verus!
